//! The reboot context and its stored form: a JSON object with the single
//! member `work_set`.

use crate::error::{StateError, StateErrorView};
use vstd::prelude::*;
use vstd::utf8::encode_utf8;

verus! {

/// `serde_json::Error`, carried from the JSON library to the place where it
/// becomes a [`StateError`].
#[verifier::external_type_specification]
#[verifier::external_body]
pub struct ExJsonError(serde_json::Error);

/// Whether `text` is one JSON value, with or without white space around
/// it, as `serde_json` reads it.
pub uninterp spec fn is_json(text: Seq<char>) -> bool;

/// The members that `serde_json::from_slice` finds in `data` when it reads
/// one JSON object: each name with the text of its value as it stands in
/// `data`; `None` where `data` is no JSON object.
pub uninterp spec fn json_members(data: Seq<u8>) -> Option<Seq<(Seq<char>, Seq<char>)>>;

/// The white space that may stand around a JSON value.
pub open spec fn is_json_space(c: char) -> bool {
    c == ' ' || c == '\n' || c == '\t' || c == '\r'
}

/// Whether a character stands for itself inside a JSON string: it is no
/// control character, no quotation mark and no backslash.
pub open spec fn is_plain(c: char) -> bool {
    c as u32 >= 0x20 && c != '"' && c != '\\'
}

/// The text without the white space that it begins with.
pub open spec fn trimmed_start(text: Seq<char>) -> Seq<char>
    decreases text.len(),
{
    if text.len() > 0 && is_json_space(text[0]) {
        trimmed_start(text.drop_first())
    } else {
        text
    }
}

/// The text without the white space that it ends with.
pub open spec fn trimmed_end(text: Seq<char>) -> Seq<char>
    decreases text.len(),
{
    if text.len() > 0 && is_json_space(text.last()) {
        trimmed_end(text.drop_last())
    } else {
        text
    }
}

/// The text without the white space around it.
pub open spec fn trimmed(text: Seq<char>) -> Seq<char> {
    trimmed_end(trimmed_start(text))
}

/// The JSON object with the single member `name`, whose value is the JSON
/// text `value` without the white space around it; written without any
/// white space of its own.
pub open spec fn object_text(name: Seq<char>, value: Seq<char>) -> Seq<char> {
    "{\""@ + name + "\":"@ + trimmed(value) + "}"@
}

/// Writes a JSON object with one member. `value` becomes a
/// `serde_json::value::RawValue` through `RawValue::from_string`, which
/// succeeds where `value` is one JSON value and keeps its text without the
/// white space around it; `serde_json::to_vec` then writes the object: a
/// brace, the name between quotation marks, a colon, the kept text as it
/// stands, and a brace. Taken on trust from the source of `serde_json`. The
/// name must need no escaping.
#[verifier::external_body]
fn write_object(name: &str, value: &str) -> (r: Result<Vec<u8>, serde_json::Error>)
    requires
        forall|i: int| 0 <= i < name@.len() ==> is_plain(#[trigger] name@[i]),
    ensures
        r is Ok <==> is_json(value@),
        r is Ok ==> r->Ok_0@ == encode_utf8(object_text(name@, value@)),
{
    let raw = serde_json::value::RawValue::from_string(value.to_owned())?;
    serde_json::to_vec(&std::collections::BTreeMap::from([(name, raw)]))
}

/// Reads a JSON object with `serde_json::from_slice`, into a map from member
/// names to `RawValue`s, and hands out each name with the text of its value.
/// Taken on trust: the outcome depends on `data` alone.
#[verifier::external_body]
fn read_object(data: &[u8]) -> (r: Result<Vec<(String, String)>, serde_json::Error>)
    ensures
        r is Ok <==> json_members(data@) is Some,
        r is Ok ==> r->Ok_0.deep_view() == json_members(data@)->Some_0,
{
    let members = serde_json::from_slice::<
        std::collections::BTreeMap<String, Box<serde_json::value::RawValue>>,
    >(data)?;
    Ok(members.into_iter().map(|(name, value)| (name, value.get().to_owned())).collect())
}

/// The wording of a `serde_json::Error`, from its `Display`. Nothing is
/// claimed of it.
#[verifier::external_body]
fn error_text(error: &serde_json::Error) -> (text: String) {
    error.to_string()
}

/// The work in flight, as the scheduler wants it back after the reboot. The
/// state layer does not look inside: it holds the payload as JSON text.
#[derive(Clone, Debug, PartialEq, Eq)]
pub struct WorkSet {
    pub json: String,
}

impl View for WorkSet {
    type V = Seq<char>;

    open spec fn view(&self) -> Seq<char> {
        self.json@
    }
}

impl WorkSet {
    pub fn new(json: String) -> (work_set: WorkSet)
        ensures
            work_set@ == json@,
    {
        WorkSet { json }
    }

    /// The payload's JSON text.
    pub fn json(&self) -> (json: &str)
        ensures
            json@ == self@,
    {
        self.json.as_str()
    }
}

/// What the agent needs to resume after an intended reboot.
#[derive(Clone, Debug, PartialEq, Eq)]
pub struct RebootContext {
    pub work_set: WorkSet,
}

/// The mathematical content of a [`RebootContext`].
pub struct RebootContextView {
    pub work_set: Seq<char>,
}

impl View for RebootContext {
    type V = RebootContextView;

    open spec fn view(&self) -> RebootContextView {
        RebootContextView { work_set: self.work_set@ }
    }
}

/// The content of the outcome of looking for a reboot context.
pub open spec fn context_outcome(result: Result<Option<RebootContext>, StateError>) -> Result<
    Option<RebootContextView>,
    StateErrorView,
> {
    match result {
        Ok(Some(context)) => Ok(Some(context@)),
        Ok(None) => Ok(None),
        Err(error) => Err(error@),
    }
}

/// The name of the one member of a stored reboot context.
pub open spec fn work_set_key() -> Seq<char> {
    "work_set"@
}

/// The value of the first member called `name`.
pub open spec fn member_value(members: Seq<(Seq<char>, Seq<char>)>, name: Seq<char>) -> Option<
    Seq<char>,
>
    decreases members.len(),
{
    if members.len() == 0 {
        None
    } else if members[0].0 == name {
        Some(members[0].1)
    } else {
        member_value(members.drop_first(), name)
    }
}

/// The reboot context that a JSON object's members describe: its `work_set`
/// member; other members are passed over.
pub open spec fn context_of(members: Seq<(Seq<char>, Seq<char>)>) -> Option<RebootContextView> {
    match member_value(members, work_set_key()) {
        Some(work_set) => Some(RebootContextView { work_set }),
        None => None,
    }
}

/// The stored form of a reboot context, where it has one: the JSON object
/// whose single member `work_set` is the payload. A payload that is no JSON
/// has none.
pub open spec fn encoding(context: RebootContextView) -> Option<Seq<u8>> {
    if is_json(context.work_set) {
        Some(encode_utf8(object_text(work_set_key(), context.work_set)))
    } else {
        None
    }
}

/// The reboot context that stored bytes hold, where they hold one.
pub open spec fn decoding(data: Seq<u8>) -> Option<RebootContextView> {
    match json_members(data) {
        Some(members) => context_of(members),
        None => None,
    }
}

/// Whether a reboot context comes back unchanged from its stored form.
pub open spec fn survives_storage(context: RebootContextView) -> bool {
    encoding(context) is Some && decoding(encoding(context)->Some_0) == Some(context)
}

impl RebootContext {
    pub fn new(work_set: WorkSet) -> (context: RebootContext)
        ensures
            context@.work_set == work_set@,
    {
        RebootContext { work_set }
    }

    /// Picks the reboot context out of the members of a JSON object.
    pub fn from_members(members: &Vec<(String, String)>) -> (context: Option<RebootContext>)
        ensures
            match context_of(members.deep_view()) {
                Some(view) => context is Some && context->Some_0@ == view,
                None => context is None,
            },
    {
        let key = String::from_str("work_set");
        let ghost all = members.deep_view();
        let mut i: usize = 0;
        assert(all.subrange(0, all.len() as int) =~= all);
        while i < members.len()
            invariant
                i <= members.len(),
                key@ == work_set_key(),
                all == members.deep_view(),
                member_value(all, work_set_key()) == member_value(
                    all.subrange(i as int, all.len() as int),
                    work_set_key(),
                ),
            decreases members.len() - i,
        {
            let ghost rest = all.subrange(i as int, all.len() as int);
            assert(rest[0] == all[i as int]);
            assert(all[i as int] == members@[i as int].deep_view());
            assert(rest.drop_first() =~= all.subrange(i + 1, all.len() as int));
            if members[i].0 == key {
                let work_set = WorkSet::new(members[i].1.clone());
                return Some(RebootContext::new(work_set));
            }
            i += 1;
        }
        assert(all.subrange(i as int, all.len() as int).len() == 0);
        None
    }

    /// Encodes the context as it is stored.
    pub fn encode(&self) -> (r: Result<Vec<u8>, StateError>)
        ensures
            match encoding(self@) {
                Some(data) => r is Ok && r->Ok_0@ == data,
                None => r is Err && r->Err_0@ == StateErrorView::Serialization,
            },
    {
        proof {
            reveal_strlit("work_set");
        }
        match write_object("work_set", self.work_set.json()) {
            Ok(data) => Ok(data),
            Err(error) => Err(StateError::Serialization { detail: error_text(&error) }),
        }
    }

    /// Tells whether this context comes back unchanged from its stored
    /// form, by encoding it and decoding the bytes.
    pub fn survives_storage(&self) -> (ok: bool)
        ensures
            ok == survives_storage(self@),
    {
        match self.encode() {
            Ok(data) => match RebootContext::decode(data.as_slice()) {
                Ok(back) => back.work_set.json == self.work_set.json,
                Err(_) => false,
            },
            Err(_) => false,
        }
    }

    /// Decodes stored bytes.
    pub fn decode(data: &[u8]) -> (r: Result<RebootContext, StateError>)
        ensures
            match decoding(data@) {
                Some(view) => r is Ok && r->Ok_0@ == view,
                None => r is Err && r->Err_0@ == StateErrorView::Serialization,
            },
    {
        match read_object(data) {
            Ok(members) => match RebootContext::from_members(&members) {
                Some(context) => Ok(context),
                None => Err(
                    StateError::Serialization {
                        detail: String::from_str("missing field `work_set`"),
                    },
                ),
            },
            Err(error) => Err(StateError::Serialization { detail: error_text(&error) }),
        }
    }
}

} // verus!
