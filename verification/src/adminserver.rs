//! What the administrative interface decides without touching a socket:
//! whether a request carries the right credentials, what a lifecycle request
//! does in each state, and which bytes of a file a range asks for.

use crate::manager::Status;
use crate::text::{ascii_lower, str_eq, to_lowercase};
use vstd::prelude::*;
use vstd::utf8::{decode_utf8, valid_utf8};

verus! {

/// The form of a `Range` header that names bytes: in any case, with white
/// space allowed around the signs and the numbers, and either number left
/// out.
pub const RANGE_PATTERN: &'static str = r"(?i)^bytes\s*=\s*(\d*)\s*-\s*(\d*)\s*$";

/// The part of a file that a request asks for; either end may be left open.
#[derive(Debug, Clone, Copy, PartialEq, Eq, Structural)]
pub struct RangeHeader {
    pub start: Option<usize>,
    pub end: Option<usize>,
}

/// A request that carried no acceptable credentials.
#[derive(Debug, Clone, Copy, PartialEq, Eq, Structural)]
pub struct AuthError {}

/// Who a request was made by.
#[derive(Debug, Clone)]
pub struct Authenticated {
    pub username: String,
}

/// A failure of the server itself, with its message.
#[derive(Debug, Clone)]
pub struct ISE {
    pub message: String,
}

/// How a lifecycle request ended.
#[derive(Debug, Clone)]
pub struct SimpleOperationResult {
    pub success: bool,
    pub changed: bool,
    pub message: Option<String>,
}

/// The bytes that a text in standard base64, with padding, stands for;
/// `None` where the text is not such a text.
pub uninterp spec fn base64_standard(text: Seq<char>) -> Option<Seq<u8>>;

/// The groups of the first match of a regular expression in a text, each as
/// the text it took and empty where it took no part; `None` where the
/// pattern does not compile or the text has no match.
pub uninterp spec fn regex_captures(pattern: Seq<char>, text: Seq<char>) -> Option<Seq<Seq<char>>>;

/// The value of the first `n` characters of a text of decimal digits.
pub open spec fn spec_digits_value(s: Seq<char>, n: nat) -> nat
    decreases n,
{
    if n == 0 {
        0
    } else {
        spec_digits_value(s, (n - 1) as nat) * 10 + ((s[n - 1] as u32 - '0' as u32) as nat)
    }
}

/// Every character of a text is one of `0` to `9`.
pub open spec fn spec_all_digits(s: Seq<char>) -> bool {
    forall|i: int| 0 <= i < s.len() ==> '0' <= #[trigger] s[i] <= '9'
}

/// The number that a text writes in decimal digits; none where the text is
/// empty, holds anything but the digits `0` to `9`, or writes a number that
/// does not fit.
pub open spec fn spec_number(s: Seq<char>) -> Option<usize> {
    if s.len() > 0 && spec_all_digits(s) && spec_digits_value(s, s.len()) <= usize::MAX {
        Some(spec_digits_value(s, s.len()) as usize)
    } else {
        None
    }
}

/// The range that a `Range` header names: the two numbers around the dash,
/// where the header has the form `bytes=<start>-<end>`.
pub open spec fn spec_range(header: Seq<char>) -> RangeHeader {
    match regex_captures(RANGE_PATTERN@, header) {
        Some(groups) => if groups.len() >= 3 {
            RangeHeader { start: spec_number(groups[1]), end: spec_number(groups[2]) }
        } else {
            RangeHeader { start: None, end: None }
        },
        None => RangeHeader { start: None, end: None },
    }
}

/// More digits do not make a number smaller.
proof fn lemma_digits_value_monotone(s: Seq<char>, i: nat, j: nat)
    requires
        i <= j <= s.len(),
        spec_all_digits(s),
    ensures
        spec_digits_value(s, i) <= spec_digits_value(s, j),
    decreases j,
{
    if i < j {
        lemma_digits_value_monotone(s, i, (j - 1) as nat);
        assert('0' <= s[j - 1] <= '9');
    }
}

/// The range `[start, end)` of a file of `max_size` bytes that a header
/// asks for: an end that is left open is the end of the file, a start that is
/// left open is its beginning, nothing lies behind the end of the file, and
/// the end is not before the start.
pub open spec fn spec_align(start: Option<usize>, end: Option<usize>, max_size: usize) -> (
    usize,
    usize,
) {
    let s = match start {
        Some(s) => if s > max_size {
            max_size
        } else {
            s
        },
        None => 0,
    };
    let e = match end {
        Some(e) => {
            let capped = if e > max_size {
                max_size
            } else {
                e
            };
            if capped < s {
                s
            } else {
                capped
            }
        },
        None => max_size,
    };
    (s, e)
}

/// A character is white space, as Unicode defines it.
pub open spec fn is_white_space(c: char) -> bool {
    let u = c as u32;
    ||| 0x09 <= u <= 0x0d
    ||| u == 0x20
    ||| u == 0x85
    ||| u == 0xa0
    ||| u == 0x1680
    ||| 0x2000 <= u <= 0x200a
    ||| u == 0x2028
    ||| u == 0x2029
    ||| u == 0x202f
    ||| u == 0x205f
    ||| u == 0x3000
}

/// A text without the white space at its start.
pub open spec fn spec_trim_start(s: Seq<char>) -> Seq<char>
    decreases s.len(),
{
    if s.len() > 0 && is_white_space(s[0]) {
        spec_trim_start(s.drop_first())
    } else {
        s
    }
}

/// A text without the white space at its end.
pub open spec fn spec_trim_end(s: Seq<char>) -> Seq<char>
    decreases s.len(),
{
    if s.len() > 0 && is_white_space(s.last()) {
        spec_trim_end(s.drop_last())
    } else {
        s
    }
}

/// A text without the white space at its two ends.
pub open spec fn spec_trim(s: Seq<char>) -> Seq<char> {
    spec_trim_end(spec_trim_start(s))
}

/// The first place of a character in a text at or behind `from`, or the
/// length of the text where there is none.
pub open spec fn spec_find_char(s: Seq<char>, c: char, from: nat) -> nat
    decreases s.len() - from,
{
    if from >= s.len() {
        s.len()
    } else if s[from as int] == c {
        from
    } else {
        spec_find_char(s, c, from + 1)
    }
}

/// The text `user:password` that an `Authorization` header of the scheme
/// `Basic` carries: the header starts with `basic` in any case, and what
/// follows, without the white space around it, is base64 of valid UTF-8.
pub open spec fn spec_basic_payload(header: Seq<char>) -> Option<Seq<char>> {
    if header.len() < 5 || ascii_lower(header).take(5) != "basic"@ {
        None
    } else {
        match base64_standard(spec_trim(header.skip(5))) {
            None => None,
            Some(bytes) => if valid_utf8(bytes) {
                Some(decode_utf8(bytes))
            } else {
                None
            },
        }
    }
}

/// The user and the password in a text `user:password`: what stands before
/// the first colon, and what stands behind it.
pub open spec fn spec_split_credentials(text: Seq<char>) -> Option<(Seq<char>, Seq<char>)> {
    let idx = spec_find_char(text, ':', 0);
    if idx >= text.len() {
        None
    } else {
        Some((text.take(idx as int), text.skip(idx as int + 1)))
    }
}

/// The user and the password that a header carries.
pub open spec fn spec_credentials(header: Option<Seq<char>>) -> Option<(Seq<char>, Seq<char>)> {
    match header {
        None => None,
        Some(h) => match spec_basic_payload(h) {
            None => None,
            Some(text) => spec_split_credentials(text),
        },
    }
}

/// The user that a request is made by. Where no credentials are set, every
/// request is made by `anonymous`. Else the request must carry the user and
/// the password that are set.
pub open spec fn spec_authenticate(
    header: Option<Seq<char>>,
    username: Option<Seq<char>>,
    password: Option<Seq<char>>,
) -> Option<Seq<char>> {
    if username is None && password is None {
        Some("anonymous"@)
    } else {
        match spec_credentials(header) {
            None => None,
            Some((user, pass)) => if username == Some(user) && password == Some(pass) {
                Some(user)
            } else {
                None
            },
        }
    }
}

/// What a request to stop does in a state: whether the gateway is to be
/// stopped, and how the request is answered. A started gateway is stopped; a
/// stopped one is left alone; in between nothing is done and the request
/// fails.
pub open spec fn spec_stop_request(status: Status) -> (bool, bool, bool) {
    match status {
        Status::STARTED => (true, true, true),
        Status::STOPPED => (false, true, false),
        _ => (false, false, false),
    }
}

/// The text of an optional string.
pub open spec fn opt_text(o: Option<String>) -> Option<Seq<char>> {
    match o {
        None => None,
        Some(s) => Some(s@),
    }
}

/// `Regex::new` on the pattern and, where that gives a regular expression,
/// `Regex::captures` of it on the text, each group handed out as the text it
/// took, and as the empty text where it took no part.
///
/// What comes out depends on the two texts alone. It is named, not spelled
/// out.
#[verifier::external_body]
fn captures(pattern: &str, text: &str) -> (groups: Option<Vec<String>>)
    ensures
        match groups {
            Some(g) => regex_captures(pattern@, text@) == Some(
                Seq::new(g@.len(), |i: int| g@[i]@),
            ),
            None => regex_captures(pattern@, text@) is None,
        },
{
    let re = regex::Regex::new(pattern).ok()?;
    let caps = re.captures(text)?;
    Some(caps.iter().map(|m| m.map(|m| m.as_str().to_string()).unwrap_or_default()).collect())
}

/// `str::trim`: the text without the white space, as Unicode defines it, at
/// its two ends.
#[verifier::external_body]
fn trim(s: &str) -> (t: &str)
    ensures
        t@ == spec_trim(s@),
{
    s.trim()
}

/// `Engine::decode` of `base64::engine::general_purpose::STANDARD`: the
/// bytes that a text in standard base64 with padding stands for, or nothing
/// where the text is not accepted. The bytes depend on the text alone, and
/// are named, not spelled out.
#[verifier::external_body]
fn base64_decode(text: &str) -> (bytes: Option<Vec<u8>>)
    ensures
        match bytes {
            Some(b) => base64_standard(text@) == Some(b@),
            None => base64_standard(text@) is None,
        },
{
    match base64::Engine::decode(&base64::engine::general_purpose::STANDARD, text) {
        Ok(bytes) => Some(bytes),
        Err(_) => None,
    }
}

/// `String::from_utf8`: the text that bytes encode, where they are valid
/// UTF-8, and nothing where they are not.
#[verifier::external_body]
fn utf8_text(bytes: Vec<u8>) -> (text: Option<String>)
    ensures
        match text {
            Some(t) => valid_utf8(bytes@) && t@ == decode_utf8(bytes@),
            None => !valid_utf8(bytes@),
        },
{
    match String::from_utf8(bytes) {
        Ok(text) => Some(text),
        Err(_) => None,
    }
}

/// The first place of a character in a text.
pub fn find_char(s: &str, c: char) -> (place: Option<usize>)
    ensures
        match place {
            Some(i) => i == spec_find_char(s@, c, 0) && i < s@.len(),
            None => spec_find_char(s@, c, 0) == s@.len(),
        },
{
    let n = s.unicode_len();
    let mut i: usize = 0;
    while i < n
        invariant
            i <= n,
            n == s@.len(),
            spec_find_char(s@, c, 0) == spec_find_char(s@, c, i as nat),
        decreases n - i,
    {
        if s.get_char(i) == c {
            return Some(i);
        }
        i += 1;
    }
    None
}

/// Reads the text `user:password` out of an `Authorization` header.
pub fn basic_payload(header: &str) -> (payload: Option<String>)
    ensures
        opt_text(payload) == spec_basic_payload(header@),
{
    let n = header.unicode_len();
    if n < 5 {
        return None;
    }
    let lower = to_lowercase(header);
    let prefix = lower.as_str().substring_char(0, 5);
    assert(prefix@ == ascii_lower(header@).take(5));
    if !str_eq(prefix, "basic") {
        return None;
    }
    let rest = header.substring_char(5, n);
    assert(rest@ =~= header@.skip(5));
    let trimmed = trim(rest);
    match base64_decode(trimmed) {
        None => None,
        Some(bytes) => utf8_text(bytes),
    }
}

/// Splits a text `user:password` at its first colon.
pub fn split_credentials(text: &str) -> (r: Option<(String, String)>)
    ensures
        match r {
            Some((user, pass)) => spec_split_credentials(text@) == Some((user@, pass@)),
            None => spec_split_credentials(text@) is None,
        },
{
    match find_char(text, ':') {
        None => None,
        Some(idx) => {
            let n = text.unicode_len();
            let user = text.substring_char(0, idx);
            let pass = text.substring_char(idx + 1, n);
            assert(user@ =~= text@.take(idx as int));
            assert(pass@ =~= text@.skip(idx + 1));
            Some((user.to_string(), pass.to_string()))
        },
    }
}

/// Tells who a request is made by, from its `Authorization` header and the
/// credentials that are set. Where none are set, it is `anonymous`. Else the
/// header must be of the scheme `Basic` and carry the user and the password
/// that are set; any other request is turned away.
pub fn authenticate(authorization: Option<&str>, username: &Option<String>, password: &Option<
    String,
>) -> (who: Result<Authenticated, AuthError>)
    ensures
        match who {
            Ok(a) => spec_authenticate(
                match authorization {
                    Some(h) => Some(h@),
                    None => None,
                },
                opt_text(*username),
                opt_text(*password),
            ) == Some(a.username@),
            Err(_) => spec_authenticate(
                match authorization {
                    Some(h) => Some(h@),
                    None => None,
                },
                opt_text(*username),
                opt_text(*password),
            ) is None,
        },
{
    if username.is_none() && password.is_none() {
        return Ok(Authenticated { username: "anonymous".to_string() });
    }
    let header = match authorization {
        None => {
            return Err(AuthError {  });
        },
        Some(header) => header,
    };
    let payload = match basic_payload(header) {
        None => {
            return Err(AuthError {  });
        },
        Some(payload) => payload,
    };
    let (user, pass) = match split_credentials(payload.as_str()) {
        None => {
            return Err(AuthError {  });
        },
        Some(pair) => pair,
    };
    match (username, password) {
        (Some(expected_username), Some(expected_password)) => {
            if user == *expected_username && pass == *expected_password {
                Ok(Authenticated { username: user })
            } else {
                Err(AuthError {  })
            }
        },
        _ => Err(AuthError {  }),
    }
}

/// The value of an option, or a default where there is none.
pub fn choose_or<T: Clone>(first: &Option<T>, default: T) -> (value: T)
    ensures
        first is None ==> value == default,
        first matches Some(inner) ==> cloned(*inner, value),
{
    match first {
        Some(what) => what.clone(),
        None => default,
    }
}

/// Reads a number written in decimal digits.
pub fn number(s: &str) -> (value: Option<usize>)
    ensures
        value == spec_number(s@),
{
    let n = s.unicode_len();
    if n == 0 {
        return None;
    }
    let mut acc: usize = 0;
    let mut i: usize = 0;
    while i < n
        invariant
            i <= n,
            n == s@.len(),
            forall|k: int| 0 <= k < i ==> '0' <= #[trigger] s@[k] <= '9',
            acc == spec_digits_value(s@, i as nat),
        decreases n - i,
    {
        let c = s.get_char(i);
        if c < '0' || c > '9' {
            return None;
        }
        let d = (c as u32 - '0' as u32) as usize;
        let next = match acc.checked_mul(10) {
            None => None,
            Some(tens) => tens.checked_add(d),
        };
        match next {
            None => {
                proof {
                    if spec_all_digits(s@) {
                        lemma_digits_value_monotone(s@, (i + 1) as nat, n as nat);
                    }
                }
                return None;
            },
            Some(value) => {
                acc = value;
            },
        }
        i += 1;
    }
    Some(acc)
}

impl RangeHeader {
    /// Reads a `Range` header. A header of another form names no range.
    pub fn parse(header: &str) -> (range: RangeHeader)
        ensures
            range == spec_range(header@),
    {
        match captures(RANGE_PATTERN, header) {
            None => RangeHeader { start: None, end: None },
            Some(groups) => {
                if groups.len() >= 3 {
                    RangeHeader {
                        start: number(groups[1].as_str()),
                        end: number(groups[2].as_str()),
                    }
                } else {
                    RangeHeader { start: None, end: None }
                }
            },
        }
    }

    /// Tells whether the header names a start or an end.
    pub fn has_value(&self) -> (has: bool)
        ensures
            has == (self.start is Some || self.end is Some),
    {
        self.start.is_some() || self.end.is_some()
    }

    /// The range `[start, end)` of a file of `max_size` bytes that the
    /// header asks for. It lies within the file.
    pub fn align(&self, max_size: usize) -> (range: (usize, usize))
        ensures
            range == spec_align(self.start, self.end, max_size),
            range.0 <= range.1 <= max_size,
    {
        let mut start: usize = 0;
        let mut end: usize = max_size;
        if let Some(this_start) = self.start {
            start = this_start;
            if start > max_size {
                start = max_size;
            }
        }
        if let Some(this_end) = self.end {
            end = this_end;
            if end > max_size {
                end = max_size;
            }
            if end < start {
                end = start;
            }
        }
        (start, end)
    }
}

impl ISE {
    /// A failure with a text as its message.
    pub fn from_text(text: &str) -> (ise: Self)
        ensures
            ise.message@ == text@,
    {
        ISE { message: text.to_string() }
    }

    /// A failure with the text of an error as its message.
    pub fn from<T: std::fmt::Display>(err: T) -> (ise: Self)
        ensures
            vstd::string::to_string_from_display_ensures::<T>(&err, ise.message),
    {
        ISE { message: err.to_string() }
    }
}

/// Turns the error of a result into a failure of the server.
pub fn convert_error<T, X: std::fmt::Display>(input: Result<T, X>) -> (output: Result<T, ISE>)
    ensures
        match input {
            Ok(value) => output == Ok::<T, ISE>(value),
            Err(e) => output matches Err(ise) && vstd::string::to_string_from_display_ensures::<X>(
                &e,
                ise.message,
            ),
        },
{
    match input {
        Ok(value) => Ok(value),
        Err(e) => Err(ISE::from(e)),
    }
}

impl SimpleOperationResult {
    /// A request that was carried out and changed something.
    pub fn ok(message: Option<String>) -> (r: Self)
        ensures
            r.success,
            r.changed,
            r.message == message,
    {
        SimpleOperationResult { success: true, changed: true, message }
    }

    /// A request that was carried out and had nothing to change.
    pub fn ok_no_change(message: Option<String>) -> (r: Self)
        ensures
            r.success,
            !r.changed,
            r.message == message,
    {
        SimpleOperationResult { success: true, changed: false, message }
    }

    /// A request that failed, with the reason.
    pub fn fail(message: &str) -> (r: Self)
        ensures
            !r.success,
            !r.changed,
            opt_text(r.message) == Some(message@),
    {
        SimpleOperationResult { success: false, changed: false, message: Some(message.to_string()) }
    }
}

/// Answers a request to stop the gateway in a state: tells whether the
/// gateway is to be stopped, and how the request ended.
pub fn stop(status: Status) -> (r: (bool, SimpleOperationResult))
    ensures
        (r.0, r.1.success, r.1.changed) == spec_stop_request(status),
        r.1.success ==> r.1.message is None,
        !r.1.success ==> opt_text(r.1.message) == Some("should not happen"@),
{
    match status {
        Status::STARTED => (true, SimpleOperationResult::ok(None)),
        Status::STOPPED => (false, SimpleOperationResult::ok_no_change(None)),
        _ => (false, SimpleOperationResult::fail("should not happen")),
    }
}

/// Answers a request to start the gateway in a state: only a stopped
/// gateway is started; for another the request ends well without a change.
pub fn start(status: Status) -> (r: Option<SimpleOperationResult>)
    ensures
        status == Status::STOPPED <==> r is None,
        r matches Some(answer) ==> answer.success && !answer.changed && answer.message is None,
{
    match status {
        Status::STOPPED => None,
        _ => Some(SimpleOperationResult::ok_no_change(None)),
    }
}

} // verus!
