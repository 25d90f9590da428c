//! Host name overrides: a table that sends a lower-cased host name, or
//! `host:port`, to the text that stands in for it.

use crate::errors::PipeError;
use crate::strmap::StringMap;
use crate::text::{ascii_lower, to_lowercase};
use vstd::prelude::*;

verus! {

/// The text that stands in for a host under a table of overrides: the value
/// bound to the lower-cased host, or the host itself where there is none.
pub open spec fn spec_resolve(table: Map<Seq<char>, Seq<char>>, host: Seq<char>) -> Seq<char> {
    if table.contains_key(ascii_lower(host)) {
        table[ascii_lower(host)]
    } else {
        host
    }
}

/// No override leads to a host that is itself overridden.
pub open spec fn targets_not_overridden(table: Map<Seq<char>, Seq<char>>) -> bool {
    forall|k: Seq<char>| #[trigger] table.contains_key(k) ==> !table.contains_key(ascii_lower(table[k]))
}

/// Resolving twice gives what resolving once gives, in a table whose
/// overrides do not lead to overridden hosts.
pub proof fn lemma_resolve_idempotent(table: Map<Seq<char>, Seq<char>>, host: Seq<char>)
    requires
        targets_not_overridden(table),
    ensures
        spec_resolve(table, spec_resolve(table, host)) == spec_resolve(table, host),
{
    if table.contains_key(ascii_lower(host)) {
        assert(!table.contains_key(ascii_lower(table[ascii_lower(host)])));
    }
}

/// One value of a JSON object, as far as a table of overrides cares: a
/// string, or anything else in its JSON notation.
#[derive(Debug)]
pub enum JsonItem {
    Text(String),
    Other(String),
}

/// A text read as JSON: the entries of an object in the order in which the
/// reader hands them out, another value in its JSON notation, or the
/// reader's complaint about a text that is not JSON.
#[derive(Debug)]
pub enum JsonDoc {
    Object(Vec<(String, JsonItem)>),
    Other(String),
    Invalid(String),
}

/// Once the entries fail, more entries fail in the same way.
proof fn lemma_rules_fail(entries: Seq<(Seq<char>, JsonItemView)>, n: nat, m: nat)
    requires
        n <= m,
        spec_rules(entries, n) is Err,
    ensures
        spec_rules(entries, m) == spec_rules(entries, n),
    decreases m,
{
    if n < m {
        lemma_rules_fail(entries, n, (m - 1) as nat);
    }
}

/// A `JsonItem` as text.
pub enum JsonItemView {
    Text(Seq<char>),
    Other(Seq<char>),
}

/// A `JsonDoc` as text.
pub enum JsonDocView {
    Object(Seq<(Seq<char>, JsonItemView)>),
    Other(Seq<char>),
    Invalid(Seq<char>),
}

/// What the JSON reader makes of a text.
pub uninterp spec fn json_reading(text: Seq<char>) -> JsonDocView;

impl JsonItem {
    /// The item as text.
    pub open spec fn view(&self) -> JsonItemView {
        match self {
            JsonItem::Text(s) => JsonItemView::Text(s@),
            JsonItem::Other(s) => JsonItemView::Other(s@),
        }
    }
}

impl JsonDoc {
    /// The document as text.
    pub open spec fn view(&self) -> JsonDocView {
        match self {
            JsonDoc::Object(entries) => JsonDocView::Object(
                Seq::new(entries@.len(), |i: int| (entries@[i].0@, entries@[i].1@)),
            ),
            JsonDoc::Other(s) => JsonDocView::Other(s@),
            JsonDoc::Invalid(s) => JsonDocView::Invalid(s@),
        }
    }
}

/// The complaint about a value of the wrong kind.
pub open spec fn spec_unexpected(notation: Seq<char>, wanted: Seq<char>) -> Seq<char> {
    "Unexpected JSON type `"@ + notation + "`. Expect "@ + wanted
}

/// The table that the first `n` entries of an object make, or the complaint
/// about the first of them that is no string. A key is bound in lower case,
/// a later entry in place of an earlier one.
pub open spec fn spec_rules(entries: Seq<(Seq<char>, JsonItemView)>, n: nat) -> Result<
    Map<Seq<char>, Seq<char>>,
    Seq<char>,
>
    decreases n,
{
    if n == 0 {
        Ok(Map::empty())
    } else {
        match spec_rules(entries, (n - 1) as nat) {
            Err(complaint) => Err(complaint),
            Ok(table) => match entries[n - 1].1 {
                JsonItemView::Text(target) => Ok(table.insert(ascii_lower(entries[n - 1].0), target)),
                JsonItemView::Other(notation) => Err(spec_unexpected(notation, "String"@)),
            },
        }
    }
}

/// The table that a document makes: that of the entries of an object; a
/// complaint for any other value, and the reader's own for a text that is
/// not JSON.
pub open spec fn spec_load(doc: JsonDocView) -> Result<Map<Seq<char>, Seq<char>>, Seq<char>> {
    match doc {
        JsonDocView::Object(entries) => spec_rules(entries, entries.len()),
        JsonDocView::Other(notation) => Err(spec_unexpected(notation, "Map"@)),
        JsonDocView::Invalid(complaint) => Err(complaint),
    }
}

/// `serde_json::from_str` to a `serde_json::Value`, handed out as a
/// `JsonDoc`: the entries of an object with each string value as it is and
/// each other value in the notation that `Value`'s `Display` gives it;
/// another value in that notation; or the text of the error.
///
/// What comes out depends on the text alone. It is named, not spelled out.
#[verifier::external_body]
fn read_json(text: &str) -> (doc: JsonDoc)
    ensures
        doc@ == json_reading(text@),
{
    match serde_json::from_str::<serde_json::Value>(text) {
        Ok(serde_json::Value::Object(map)) => JsonDoc::Object(
            map.into_iter().map(
                |(k, v)| match v {
                    serde_json::Value::String(s) => (k, JsonItem::Text(s)),
                    other => (k, JsonItem::Other(other.to_string())),
                },
            ).collect(),
        ),
        Ok(other) => JsonDoc::Other(other.to_string()),
        Err(e) => JsonDoc::Invalid(e.to_string()),
    }
}

/// A table of overrides. Its keys are kept in lower case.
#[derive(Debug)]
pub struct ResolveConfig {
    rules: StringMap<String>,
}

impl ResolveConfig {
    /// The overrides as a map from text to text.
    pub closed spec fn view(&self) -> Map<Seq<char>, Seq<char>> {
        Map::new(|k: Seq<char>| self.rules@.contains_key(k), |k: Seq<char>| self.rules@[k]@)
    }

    /// A table without overrides.
    pub fn new() -> (table: Self)
        ensures
            table@ == Map::<Seq<char>, Seq<char>>::empty(),
    {
        let table = ResolveConfig { rules: StringMap::new() };
        assert(table@ =~= Map::<Seq<char>, Seq<char>>::empty());
        table
    }

    /// The number of overrides.
    pub fn len(&self) -> (n: usize)
        ensures
            n == self@.dom().len(),
    {
        let n = self.rules.len();
        assert(self@.dom() =~= self.rules@.dom());
        n
    }

    /// Binds the lower-cased `host` to `target`, in place of what it was
    /// bound to.
    pub fn insert(&mut self, host: &str, target: String)
        ensures
            final(self)@ == old(self)@.insert(ascii_lower(host@), target@),
    {
        let key = to_lowercase(host);
        self.rules.insert(key, target);
        assert(self@ =~= old(self)@.insert(ascii_lower(host@), target@));
    }

    /// The complaint about a value of the wrong kind.
    fn unexpected(notation: &str, wanted: &str) -> (e: PipeError)
        ensures
            e@ == spec_unexpected(notation@, wanted@),
    {
        let msg = "Unexpected JSON type `".to_string().concat(notation).concat("`. Expect ").concat(
            wanted,
        );
        PipeError::wrap(msg)
    }

    /// Makes a table of a document that was read as JSON. The document must
    /// be an object whose values are strings.
    pub fn load_from_doc(doc: &JsonDoc) -> (r: Result<ResolveConfig, PipeError>)
        ensures
            match r {
                Ok(table) => spec_load(doc@) == Ok::<Map<Seq<char>, Seq<char>>, Seq<char>>(table@),
                Err(e) => spec_load(doc@) == Err::<Map<Seq<char>, Seq<char>>, Seq<char>>(e@),
            },
    {
        match doc {
            JsonDoc::Object(entries) => {
                let ghost view = Seq::new(entries@.len(), |i: int| (entries@[i].0@, entries@[i].1@));
                let mut table = ResolveConfig::new();
                let mut i: usize = 0;
                while i < entries.len()
                    invariant
                        i <= entries@.len(),
                        view == Seq::new(entries@.len(), |i: int| (entries@[i].0@, entries@[i].1@)),
                        doc@ == JsonDocView::Object(view),
                        spec_rules(view, i as nat) == Ok::<Map<Seq<char>, Seq<char>>, Seq<char>>(
                            table@,
                        ),
                    decreases entries@.len() - i,
                {
                    match &entries[i].1 {
                        JsonItem::Text(target) => {
                            table.insert(entries[i].0.as_str(), target.clone());
                        },
                        JsonItem::Other(notation) => {
                            proof {
                                lemma_rules_fail(view, (i + 1) as nat, view.len());
                            }
                            return Err(Self::unexpected(notation.as_str(), "String"));
                        },
                    }
                    i += 1;
                }
                Ok(table)
            },
            JsonDoc::Other(notation) => Err(Self::unexpected(notation.as_str(), "Map")),
            JsonDoc::Invalid(complaint) => Err(PipeError::wrap(complaint.clone())),
        }
    }

    /// Makes a table of a text in JSON: an object from host to target, both
    /// strings. The text is read by the JSON reader; what comes of it is
    /// what `load_from_doc` makes of the reading.
    pub fn load_from_json(text: &str) -> (r: Result<ResolveConfig, PipeError>)
        ensures
            match r {
                Ok(table) => spec_load(json_reading(text@)) == Ok::<
                    Map<Seq<char>, Seq<char>>,
                    Seq<char>,
                >(table@),
                Err(e) => spec_load(json_reading(text@)) == Err::<
                    Map<Seq<char>, Seq<char>>,
                    Seq<char>,
                >(e@),
            },
    {
        let doc = read_json(text);
        Self::load_from_doc(&doc)
    }

    /// Takes out every override.
    pub fn clear(&mut self)
        ensures
            final(self)@ == Map::<Seq<char>, Seq<char>>::empty(),
    {
        self.rules.clear();
        assert(self@ =~= Map::<Seq<char>, Seq<char>>::empty());
    }

    /// The text that stands in for `original`: its override, looked up under
    /// the lower-cased text, or `original` itself.
    pub fn resolve(&self, original: &str) -> (resolved: String)
        ensures
            resolved@ == spec_resolve(self@, original@),
    {
        if self.rules.len() == 0 {
            assert(self.rules@.dom() =~= Set::<Seq<char>>::empty());
            return original.to_string();
        }
        let original_lower = to_lowercase(original);
        match self.rules.get(original_lower.as_str()) {
            None => original.to_string(),
            Some(target) => target.clone(),
        }
    }
}

impl Default for ResolveConfig {
    fn default() -> (table: Self)
        ensures
            table@ == Map::<Seq<char>, Seq<char>>::empty(),
    {
        ResolveConfig::new()
    }
}

} // verus!
