//! Framing and parsing of a TLS ClientHello, as far as is needed to read the
//! server name a client asks for.
//!
//! Everything here is a pure function of the bytes received. The model of a
//! buffer is its `Seq<u8>`; the stages of the parse are spec functions on such
//! sequences, and each executable function is proved to compute its stage.

use crate::text::{decimal, spec_decimal};
use vstd::prelude::*;
use vstd::slice::slice_subrange;
use vstd::utf8::{decode_utf8, valid_utf8};

verus! {

/// The server name that a ClientHello carries.
#[derive(Debug, Clone)]
pub struct ClientHello {
    pub sni_host: String,
}

/// Why a buffer was not accepted as a ClientHello with a server name.
#[derive(Clone, Copy, Debug, PartialEq, Eq, Structural)]
pub enum SniFailure {
    /// The buffer does not frame one complete handshake record.
    PreCheck,
    /// The handshake body length does not account for the rest of the record.
    HandshakeLength,
    /// The client version does not start with `0x03`.
    InnerVersionMajor,
    /// The client version is outside TLS 1.0 to 1.3.
    InnerVersionMinor,
    /// A length field, or the field it announces, runs past the end of the
    /// record.
    Truncated,
    /// No extension of type 0 holds a single host name that fills it.
    NoServerName,
}

/// A rejected ClientHello: the reason, and the length of the buffer that was
/// looked at.
#[derive(Clone, Copy, Debug, PartialEq, Eq, Structural)]
pub struct SNIError {
    pub reason: SniFailure,
    pub len: usize,
}

/// Big-endian value of two bytes.
pub open spec fn be16(hi: u8, lo: u8) -> nat {
    (hi as nat) * 256 + (lo as nat)
}

/// Big-endian value of a byte string.
pub open spec fn be_value(s: Seq<u8>) -> nat
    decreases s.len(),
{
    if s.len() == 0 {
        0
    } else {
        be_value(s.drop_last()) * 256 + (s.last() as nat)
    }
}

/// A buffer frames one complete TLS handshake record: a handshake content
/// type, a TLS 1.x version, and a record length that accounts for every byte
/// after the five-byte record header.
pub open spec fn spec_pre_check(b: Seq<u8>) -> bool {
    &&& b.len() >= 6
    &&& b[0] == 0x16
    &&& b[1] == 0x03
    &&& 0x00 < b[2] < 0x05
    &&& be16(b[3], b[4]) == b.len() - 5
}

/// What is left of `s` behind a vector whose length stands in the first
/// `width` bytes; `None` where the prefix or the vector does not fit.
pub open spec fn spec_skip_vector(s: Seq<u8>, width: nat) -> Option<Seq<u8>> {
    if s.len() < width {
        None
    } else {
        let n = be_value(s.take(width as int));
        if s.len() < width + n {
            None
        } else {
            Some(s.skip((width + n) as int))
        }
    }
}

/// One extension at the head of `s`: what is left behind it, its type and its
/// data; `None` where the four-byte header or the data does not fit.
pub open spec fn spec_read_extension(s: Seq<u8>) -> Option<(Seq<u8>, nat, Seq<u8>)> {
    if s.len() < 4 {
        None
    } else {
        let n = be16(s[2], s[3]);
        if s.len() < 4 + n {
            None
        } else {
            Some((s.skip((4 + n) as int), be16(s[0], s[1]), s.subrange(4, (4 + n) as int)))
        }
    }
}

/// The extension block of a record: what follows the 43 bytes of headers,
/// version and random, the session id, the cipher suites, the compression
/// methods and the two bytes of the block's own length.
pub open spec fn spec_extensions(b: Seq<u8>) -> Option<Seq<u8>> {
    if b.len() < 43 {
        None
    } else {
        match spec_skip_vector(b.skip(43), 1) {
            None => None,
            Some(after_session) => match spec_skip_vector(after_session, 2) {
                None => None,
                Some(after_suites) => match spec_skip_vector(after_suites, 1) {
                    None => None,
                    Some(after_compression) => if after_compression.len() < 2 {
                        None
                    } else {
                        Some(after_compression.skip(2))
                    },
                },
            },
        }
    }
}

/// Walks the extensions in `s` to the end. The outer `None` means that an
/// extension did not fit; otherwise the result is the data of the last
/// extension of type 0, or `found` where there is none.
pub open spec fn spec_server_name_data(s: Seq<u8>, found: Option<Seq<u8>>) -> Option<
    Option<Seq<u8>>,
>
    decreases s.len(),
{
    if s.len() == 0 {
        Some(found)
    } else {
        match spec_read_extension(s) {
            None => None,
            Some((rest, kind, data)) => spec_server_name_data(
                rest,
                if kind == 0 {
                    Some(data)
                } else {
                    found
                },
            ),
        }
    }
}

/// The host name in the data of a server_name extension: a list length that
/// accounts for the rest of the data, then one entry of name type 0 whose own
/// length accounts for the rest of the list.
pub open spec fn spec_host_name(data: Seq<u8>) -> Option<Seq<u8>> {
    if data.len() >= 5 && be16(data[0], data[1]) == data.len() - 2 && data[2] == 0 && be16(
        data[3],
        data[4],
    ) == data.len() - 5 {
        Some(data.skip(5))
    } else {
        None
    }
}

/// What the walk over the extensions means for the record: the host name in
/// the server_name data that it found, or the reason why there is none.
pub open spec fn spec_verdict(walk: Option<Option<Seq<u8>>>) -> Result<Seq<u8>, SniFailure> {
    match walk {
        None => Err(SniFailure::Truncated),
        Some(None) => Err(SniFailure::NoServerName),
        Some(Some(data)) => match spec_host_name(data) {
            None => Err(SniFailure::NoServerName),
            Some(host) => Ok(host),
        },
    }
}

/// The bytes of the server name in a ClientHello record, or the first check
/// that the buffer fails.
pub open spec fn spec_parse(b: Seq<u8>) -> Result<Seq<u8>, SniFailure> {
    if !spec_pre_check(b) {
        Err(SniFailure::PreCheck)
    } else if b.len() < 9 || be_value(b.subrange(6, 9)) != b.len() - 9 {
        Err(SniFailure::HandshakeLength)
    } else if b.len() < 10 || b[9] != 0x03 {
        Err(SniFailure::InnerVersionMajor)
    } else if b.len() < 11 || b[10] < 0x01 || b[10] > 0x04 {
        Err(SniFailure::InnerVersionMinor)
    } else {
        match spec_extensions(b) {
            None => Err(SniFailure::Truncated),
            Some(extensions) => spec_verdict(spec_server_name_data(extensions, None)),
        }
    }
}

/// What a rejection says, for a buffer of `len` bytes.
pub open spec fn spec_message(reason: SniFailure, len: nat) -> Seq<char> {
    match reason {
        SniFailure::PreCheck => "tls header pre check failed ("@ + spec_decimal(len) + " bytes)"@,
        SniFailure::HandshakeLength => "data length mismatch(inner)"@,
        SniFailure::InnerVersionMajor => "expect version byte 0x03 (inner)"@,
        SniFailure::InnerVersionMinor => "only support TLS 1.0 ~ 1.3 (inner)"@,
        SniFailure::Truncated => "data length mismatch(fields)"@,
        SniFailure::NoServerName => "extension 0x00 0x00 not found"@,
    }
}

impl SNIError {
    /// What the rejection says.
    pub fn message(&self) -> (text: String)
        ensures
            text@ == spec_message(self.reason, self.len as nat),
    {
        match self.reason {
            SniFailure::PreCheck => {
                let number = decimal(self.len);
                "tls header pre check failed (".to_string().concat(number.as_str()).concat(
                    " bytes)",
                )
            },
            SniFailure::HandshakeLength => "data length mismatch(inner)".to_string(),
            SniFailure::InnerVersionMajor => "expect version byte 0x03 (inner)".to_string(),
            SniFailure::InnerVersionMinor => "only support TLS 1.0 ~ 1.3 (inner)".to_string(),
            SniFailure::Truncated => "data length mismatch(fields)".to_string(),
            SniFailure::NoServerName => "extension 0x00 0x00 not found".to_string(),
        }
    }
}

/// The text that a lossy UTF-8 decoding makes of a byte string.
pub uninterp spec fn utf8_lossy(bytes: Seq<u8>) -> Seq<char>;

/// The view of a borrowed buffer that may be absent.
pub open spec fn opt_bytes(o: Option<&[u8]>) -> Option<Seq<u8>> {
    match o {
        None => None,
        Some(s) => Some(s@),
    }
}

/// `be_value` of a prefix that grows by one byte.
proof fn lemma_be_value_step(s: Seq<u8>, k: int)
    requires
        0 <= k < s.len(),
    ensures
        be_value(s.take(k + 1)) == be_value(s.take(k)) * 256 + (s[k] as nat),
{
    assert(s.take(k + 1).drop_last() =~= s.take(k));
}

/// A byte string of `n` bytes has a value below `256^n`; stated for the
/// widths that fit every `usize`.
proof fn lemma_be_value_bound(s: Seq<u8>)
    requires
        s.len() <= 4,
    ensures
        s.len() == 0 ==> be_value(s) == 0,
        s.len() == 1 ==> be_value(s) < 0x100,
        s.len() == 2 ==> be_value(s) < 0x1_0000,
        s.len() == 3 ==> be_value(s) < 0x100_0000,
        s.len() == 4 ==> be_value(s) < 0x1_0000_0000,
    decreases s.len(),
{
    if s.len() > 0 {
        lemma_be_value_bound(s.drop_last());
    }
}

/// Tells whether `data` holds exactly one complete handshake record.
pub fn pre_check(data: &[u8]) -> (ok: bool)
    ensures
        ok == spec_pre_check(data@),
{
    data.len() > 5 && data[0] == 0x16 && data[1] == 0x03 && (data[2] > 0x00 && data[2] < 0x05)
        && (data[3] as usize * 256 + data[4] as usize) == data.len() - 5
}

/// Drops the first `count` bytes; `None` where there are fewer.
pub fn skip(data: &[u8], count: usize) -> (rest: Option<&[u8]>)
    ensures
        count <= data@.len() ==> opt_bytes(rest) == Some(data@.skip(count as int)),
        count > data@.len() ==> rest is None,
{
    if count <= data.len() {
        Some(slice_subrange(data, count, data.len()))
    } else {
        None
    }
}

/// The big-endian value of up to four bytes.
pub fn to_int(data: &[u8]) -> (value: usize)
    requires
        data@.len() <= 4,
    ensures
        value == be_value(data@),
{
    let mut count: usize = 0;
    let mut size: usize = 0;
    while count < data.len()
        invariant
            count <= data@.len() <= 4,
            size == be_value(data@.take(count as int)),
        decreases data@.len() - count,
    {
        proof {
            lemma_be_value_bound(data@.take(count as int));
            lemma_be_value_step(data@, count as int);
        }
        size = size * 256 + data[count] as usize;
        count += 1;
    }
    assert(data@.take(count as int) =~= data@);
    size
}

/// Reads a length of `number_of_bytes` bytes and drops it together with as
/// many bytes as it says; `None` where the buffer ends before that.
pub fn read_length_and_skip(data: &[u8], number_of_bytes: usize) -> (rest: Option<&[u8]>)
    requires
        number_of_bytes <= 3,
    ensures
        opt_bytes(rest) == spec_skip_vector(data@, number_of_bytes as nat),
{
    if data.len() < number_of_bytes {
        return None;
    }
    let prefix = slice_subrange(data, 0, number_of_bytes);
    assert(prefix@ =~= data@.take(number_of_bytes as int));
    proof {
        lemma_be_value_bound(prefix@);
    }
    let size = to_int(prefix);
    if data.len() - number_of_bytes < size {
        return None;
    }
    skip(data, number_of_bytes + size)
}

/// Splits the extension at the head of `client_hello` from what follows it:
/// the rest, the extension's type, and its data.
pub fn read_extension(client_hello: &[u8]) -> (r: Option<(&[u8], usize, &[u8])>)
    ensures
        match r {
            None => spec_read_extension(client_hello@) is None,
            Some((rest, kind, data)) => spec_read_extension(client_hello@) == Some(
                (rest@, kind as nat, data@),
            ),
        },
{
    if client_hello.len() < 4 {
        return None;
    }
    let extension_type = (client_hello[0] as usize) * 256 + (client_hello[1] as usize);
    let length = (client_hello[2] as usize) * 256 + (client_hello[3] as usize);
    if client_hello.len() - 4 < length {
        return None;
    }
    let data = slice_subrange(client_hello, 4, 4 + length);
    let remaining = slice_subrange(client_hello, 4 + length, client_hello.len());
    assert(remaining@ =~= client_hello@.skip(4 + length));
    Some((remaining, extension_type, data))
}

/// Finds the extension block of a record that has passed the header checks.
fn extensions(client_hello: &[u8]) -> (r: Option<&[u8]>)
    ensures
        opt_bytes(r) == spec_extensions(client_hello@),
{
    let body = match skip(client_hello, 43) {
        None => { return None; },
        Some(body) => body,
    };
    let after_session = match read_length_and_skip(body, 1) {
        None => { return None; },
        Some(rest) => rest,
    };
    let after_suites = match read_length_and_skip(after_session, 2) {
        None => { return None; },
        Some(rest) => rest,
    };
    let after_compression = match read_length_and_skip(after_suites, 1) {
        None => { return None; },
        Some(rest) => rest,
    };
    skip(after_compression, 2)
}

/// Tests the data of a server_name extension and hands out the host name in
/// it.
fn host_name(data: &[u8]) -> (r: Option<&[u8]>)
    ensures
        opt_bytes(r) == spec_host_name(data@),
{
    if data.len() < 5 {
        return None;
    }
    let size = (data[0] as usize) * 256 + (data[1] as usize);
    let strlen = (data[3] as usize) * 256 + (data[4] as usize);
    if size == data.len() - 2 && data[2] == 0 && strlen == data.len() - 5 {
        skip(data, 5)
    } else {
        None
    }
}

/// Finds the bytes of the server name in a ClientHello record.
///
/// Succeeds exactly on the buffers on which `spec_parse` gives a name, with
/// that name; each failure is the first check of `spec_parse` that the buffer
/// does not pass.
pub fn server_name_bytes(client_hello: &[u8]) -> (r: Result<&[u8], SNIError>)
    ensures
        match r {
            Ok(host) => spec_parse(client_hello@) == Ok::<Seq<u8>, SniFailure>(host@),
            Err(e) => spec_parse(client_hello@) == Err::<Seq<u8>, SniFailure>(e.reason) && e.len
                == client_hello@.len(),
        },
{
    let len = client_hello.len();
    if !pre_check(client_hello) {
        return Err(SNIError { reason: SniFailure::PreCheck, len });
    }
    if len < 9 {
        return Err(SNIError { reason: SniFailure::HandshakeLength, len });
    }
    let inner_data_len = to_int(slice_subrange(client_hello, 6, 9));
    if inner_data_len != len - 9 {
        return Err(SNIError { reason: SniFailure::HandshakeLength, len });
    }
    if len < 10 || client_hello[9] != 0x03 {
        return Err(SNIError { reason: SniFailure::InnerVersionMajor, len });
    }
    if len < 11 || client_hello[10] < 0x01 || client_hello[10] > 0x04 {
        return Err(SNIError { reason: SniFailure::InnerVersionMinor, len });
    }
    let block = match extensions(client_hello) {
        None => { return Err(SNIError { reason: SniFailure::Truncated, len }); },
        Some(block) => block,
    };
    let mut rest = block;
    let mut sni_data: Option<&[u8]> = None;
    while rest.len() > 0
        invariant
            len == client_hello@.len(),
            spec_parse(client_hello@) == spec_verdict(
                spec_server_name_data(rest@, opt_bytes(sni_data)),
            ),
        decreases rest@.len(),
    {
        match read_extension(rest) {
            None => {
                return Err(SNIError { reason: SniFailure::Truncated, len });
            },
            Some((remaining, extension_type, extension_data)) => {
                rest = remaining;
                if extension_type == 0 {
                    sni_data = Some(extension_data);
                }
            },
        }
    }
    match sni_data {
        None => Err(SNIError { reason: SniFailure::NoServerName, len }),
        Some(data) => match host_name(data) {
            None => Err(SNIError { reason: SniFailure::NoServerName, len }),
            Some(host) => Ok(host),
        },
    }
}

/// `String::from_utf8_lossy`, with the result taken as an owned `String`.
///
/// The text is named `utf8_lossy` of the bytes. Of that text only one thing
/// is stated: bytes that are valid UTF-8 decode to the characters they
/// encode. Nothing is said of what replaces an invalid sequence.
#[verifier::external_body]
fn lossy_text(bytes: &[u8]) -> (text: String)
    ensures
        text@ == utf8_lossy(bytes@),
        valid_utf8(bytes@) ==> text@ == decode_utf8(bytes@),
{
    String::from_utf8_lossy(bytes).into_owned()
}

/// Parses a ClientHello record and returns the server name it asks for.
///
/// The name is the lossy UTF-8 reading of the bytes that `spec_parse` finds;
/// a buffer is rejected with the first check of `spec_parse` that it fails.
/// Only a buffer that frames a complete record is ever accepted.
pub fn parse(client_hello: &[u8]) -> (r: Result<ClientHello, SNIError>)
    ensures
        match r {
            Ok(hello) => spec_parse(client_hello@) is Ok && hello.sni_host@ == utf8_lossy(
                spec_parse(client_hello@)->Ok_0,
            ),
            Err(e) => spec_parse(client_hello@) == Err::<Seq<u8>, SniFailure>(e.reason) && e.len
                == client_hello@.len(),
        },
        r is Ok ==> spec_pre_check(client_hello@),
        r matches Ok(hello) ==> (valid_utf8(spec_parse(client_hello@)->Ok_0) ==> hello.sni_host@
            == decode_utf8(spec_parse(client_hello@)->Ok_0)),
{
    match server_name_bytes(client_hello) {
        Ok(host) => Ok(ClientHello { sni_host: lossy_text(host) }),
        Err(e) => Err(e),
    }
}

} // verus!
