//! The identifiers that keys are built from.

use vstd::prelude::*;

verus! {

/// Identifies the trader that owns an engine.
#[derive(Clone, Debug)]
pub struct TraderId {
    value: String,
}

impl View for TraderId {
    type V = Seq<char>;

    closed spec fn view(&self) -> Seq<char> {
        self.value@
    }
}

impl TraderId {
    pub fn new(value: &str) -> (r: Self)
        ensures
            r@ == value@,
    {
        TraderId { value: value.to_owned() }
    }

    pub fn as_str(&self) -> (r: &str)
        ensures
            r@ == self@,
    {
        self.value.as_str()
    }
}

/// Identifies one running instance: the text of a version 4 UUID.
#[derive(Clone, Debug)]
pub struct UUID4 {
    value: String,
}

impl View for UUID4 {
    type V = Seq<char>;

    closed spec fn view(&self) -> Seq<char> {
        self.value@
    }
}

/// How many characters the hyphenated form of a UUID has.
pub const UUID_TEXT_LEN: usize = 36;

/// Calls `uuid::Uuid::new_v4` and renders the result with its `Display`
/// impl. The value is random, so only its length is claimed: `Display`
/// writes the hyphenated form, which is always 36 characters long.
#[verifier::external_body]
pub(crate) fn random_uuid_text() -> (r: String)
    ensures
        r@.len() == UUID_TEXT_LEN,
{
    uuid::Uuid::new_v4().to_string()
}

impl UUID4 {
    /// A fresh random identifier.
    pub fn new() -> (r: Self)
        ensures
            r@.len() == UUID_TEXT_LEN,
    {
        UUID4 { value: random_uuid_text() }
    }

    /// The identifier that has `value` as its text.
    pub fn from_text(value: &str) -> (r: Self)
        ensures
            r@ == value@,
    {
        UUID4 { value: value.to_owned() }
    }

    pub fn as_str(&self) -> (r: &str)
        ensures
            r@ == self@,
    {
        self.value.as_str()
    }

    pub fn to_string(&self) -> (r: String)
        ensures
            r@ == self@,
    {
        self.value.clone()
    }
}

} // verus!
