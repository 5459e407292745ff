//! Items of the secret store: how an item is labelled and looked up, and how its
//! value is encoded for storage.
use crate::primitives::{base64_decode, base64_encode, base64_standard_decode, base64_standard_encode};
use crate::text::{
    count_char, lemma_split_concat, lemma_split_len, lemma_split_single, split_chars, split_str,
    str_views,
};
use vstd::prelude::*;
use vstd::utf8::*;

verus! {

/// A secret, named by the application id and a key within it.
#[derive(Debug)]
pub struct SecretItem {
    id: String,
    key: String,
}

/// The label of an item: its key, `@`, its id.
pub open spec fn label_spec(id: Seq<char>, key: Seq<char>) -> Seq<char> {
    key.push('@') + id
}

impl SecretItem {
    /// The application id.
    pub closed spec fn id_view(&self) -> Seq<char> {
        self.id@
    }

    /// The key within the application.
    pub closed spec fn key_view(&self) -> Seq<char> {
        self.key@
    }

    pub fn new(id: String, key: String) -> (r: Self)
        ensures
            r.id_view() == id@,
            r.key_view() == key@,
    {
        SecretItem { id, key }
    }

    /// The application id.
    pub fn id(&self) -> (r: &str)
        ensures
            r@ == self.id_view(),
    {
        self.id.as_str()
    }

    /// The key within the application.
    pub fn key(&self) -> (r: &str)
        ensures
            r@ == self.key_view(),
    {
        self.key.as_str()
    }

    /// How the item is shown: `SecretItem(<key>@<id>)`.
    pub fn describe(&self) -> (r: String)
        ensures
            r@ == "SecretItem("@ + label_spec(self.id_view(), self.key_view()) + ")"@,
    {
        let mut s = "SecretItem(".to_owned();
        let label = to_label(self.id.as_str(), self.key.as_str());
        s.append(label.as_str());
        s.append(")");
        s
    }
}

/// The label under which an item is stored.
pub fn to_label(id: &str, key: &str) -> (r: String)
    ensures
        r@ == label_spec(id@, key@),
{
    let mut label = key.to_owned();
    label.append("@");
    label.append(id);
    proof {
        reveal_strlit("@");
        assert("@"@ =~= seq!['@']);
    }
    label
}

/// The item a label names: the key before the `@`, the id after it. A label must
/// hold exactly one `@`.
pub fn from_label(label: &str) -> (r: SecretItem)
    requires
        count_char(label@, '@') == 1,
    ensures
        r.key_view() == split_chars(label@, '@')[0],
        r.id_view() == split_chars(label@, '@')[1],
{
    proof {
        lemma_split_len(label@, '@');
    }
    let split = split_str(label, '@');
    proof {
        assert(str_views(split@)[0] == split@[0]@);
        assert(str_views(split@)[1] == split@[1]@);
    }
    SecretItem::new(split[1].to_owned(), split[0].to_owned())
}

/// Whether a text is an item label: exactly one `@`, as [`from_label`] requires.
pub fn is_item_label(label: &str) -> (r: bool)
    ensures
        r == (count_char(label@, '@') == 1),
{
    proof {
        lemma_split_len(label@, '@');
    }
    let split = split_str(label, '@');
    split.len() == 2
}

/// Reading the label of an item gives back the item, when neither its id nor its key
/// holds an `@` (one that does cannot be told apart from another split).
pub proof fn lemma_label_round_trip(id: Seq<char>, key: Seq<char>)
    requires
        !id.contains('@'),
        !key.contains('@'),
    ensures
        count_char(label_spec(id, key), '@') == 1,
        split_chars(label_spec(id, key), '@') == seq![key, id],
{
    lemma_split_concat(key, id, '@');
    lemma_split_single(key, '@');
    lemma_split_single(id, '@');
    lemma_split_len(label_spec(id, key), '@');
}

/// Why a stored value could not be read back.
#[derive(Debug, Clone, Copy, PartialEq, Eq, Structural)]
pub enum SecretValueError {
    /// The stored text is not valid base64.
    InvalidBase64,
}

/// The text under which a secret value is stored: its base64 encoding. Reading that
/// text back gives the value.
pub fn encode_secret_value(value: &[u8]) -> (r: String)
    ensures
        r@ == base64_standard_encode(value@),
        base64_standard_decode(encode_utf8(r@)) == Some(value@),
{
    base64_encode(value)
}

/// The value a stored text holds: its base64 decoding.
pub fn decode_secret_value(stored: &[u8]) -> (r: Result<Vec<u8>, SecretValueError>)
    ensures
        r is Ok <==> base64_standard_decode(stored@) is Some,
        r matches Ok(v) ==> base64_standard_decode(stored@) == Some(v@),
{
    match base64_decode(stored) {
        Ok(v) => Ok(v),
        Err(_) => Err(SecretValueError::InvalidBase64),
    }
}

/// The attribute names and values by which an item is found in the store.
pub open spec fn lookup_attributes_spec(id: Seq<char>, key: Seq<char>) -> Seq<(Seq<char>, Seq<char>)> {
    seq![("service"@, id), ("username"@, key)]
}

/// Attribute pairs as texts.
pub open spec fn attr_views(v: Seq<(String, String)>) -> Seq<(Seq<char>, Seq<char>)> {
    v.map_values(|p: (String, String)| (p.0@, p.1@))
}

/// The attribute that places an item in application `id`: `service` is the id.
pub fn service_attribute(id: &str) -> (r: (String, String))
    ensures
        r.0@ == "service"@,
        r.1@ == id@,
{
    ("service".to_owned(), id.to_owned())
}

/// The attributes by which the item `key` of application `id` is found: `service`
/// is the id, `username` the key.
pub fn lookup_attributes(id: &str, key: &str) -> (r: Vec<(String, String)>)
    ensures
        attr_views(r@) == lookup_attributes_spec(id@, key@),
{
    let mut v: Vec<(String, String)> = Vec::new();
    v.push(service_attribute(id));
    v.push(("username".to_owned(), key.to_owned()));
    proof {
        assert(attr_views(v@) =~= lookup_attributes_spec(id@, key@));
    }
    v
}


/// Where connecting to the secret store stands.
#[derive(Debug, Clone, Copy, PartialEq, Eq, Structural)]
pub enum InitStep {
    /// Open a session with the secret service.
    Connect,
    /// Fetch the default collection and unlock it.
    UnlockDefaultCollection,
    /// The store is ready for use.
    Ready,
}

/// What to do next: the step to take, after waiting `wait_secs` seconds.
#[derive(Debug, Clone, Copy, PartialEq, Eq, Structural)]
pub struct InitAction {
    pub next: InitStep,
    pub wait_secs: u64,
}

/// The step after `step` ended (`succeeded` or not): each success moves on, and any
/// failure waits one second and starts over with a new connection.
pub open spec fn next_init_step_spec(step: InitStep, succeeded: bool) -> InitAction {
    match step {
        InitStep::Ready => InitAction { next: InitStep::Ready, wait_secs: 0 },
        _ => if !succeeded {
            InitAction { next: InitStep::Connect, wait_secs: 1 }
        } else {
            match step {
                InitStep::Connect => InitAction { next: InitStep::UnlockDefaultCollection, wait_secs: 0 },
                _ => InitAction { next: InitStep::Ready, wait_secs: 0 },
            }
        },
    }
}

/// Decides how connecting to the secret store goes on after a step.
pub fn next_init_step(step: InitStep, succeeded: bool) -> (r: InitAction)
    ensures
        r == next_init_step_spec(step, succeeded),
{
    match step {
        InitStep::Ready => InitAction { next: InitStep::Ready, wait_secs: 0 },
        InitStep::Connect => if succeeded {
            InitAction { next: InitStep::UnlockDefaultCollection, wait_secs: 0 }
        } else {
            InitAction { next: InitStep::Connect, wait_secs: 1 }
        },
        InitStep::UnlockDefaultCollection => if succeeded {
            InitAction { next: InitStep::Ready, wait_secs: 0 }
        } else {
            InitAction { next: InitStep::Connect, wait_secs: 1 }
        },
    }
}

/// Connecting ends only through the unlock step: from a fresh start, only a
/// successful unlock makes the store ready, and every failure restarts the connection.
pub proof fn lemma_init_ready_only_after_unlock(step: InitStep, succeeded: bool)
    requires
        step != InitStep::Ready,
    ensures
        next_init_step_spec(step, succeeded).next == InitStep::Ready <==> (step
            == InitStep::UnlockDefaultCollection && succeeded),
        !succeeded ==> next_init_step_spec(step, succeeded) == (InitAction {
            next: InitStep::Connect,
            wait_secs: 1,
        }),
{
}

} // verus!
