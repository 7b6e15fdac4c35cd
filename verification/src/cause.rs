//! The underlying failures that a chainstate error can wrap.
//!
//! Both kinds of failure come from other crates and are carried through as
//! opaque values: nothing here looks inside them. What one of them displays
//! as is stated with the predicate that `vstd` attaches to
//! `ToString::to_string`; what it describes itself as is given a name.

use vstd::prelude::*;
use vstd::string::to_string_from_display_ensures;

verus! {

/// `serde_json::Error`, the failure of the serialization codec. Opaque.
#[verifier::external_type_specification]
#[verifier::external_body]
pub struct ExSerializationFailure(serde_json::Error);

/// `rusqlite::Error`, the failure of the relational engine. Opaque.
#[verifier::external_type_specification]
#[verifier::external_body]
pub struct ExStoreFailure(rusqlite::Error);

/// The short description that `std::error::Error::description` gives of a
/// `serde_json::Error`.
pub uninterp spec fn serialization_description(e: serde_json::Error) -> Seq<char>;

/// The short description that `std::error::Error::description` gives of a
/// `rusqlite::Error`.
pub uninterp spec fn store_description(e: rusqlite::Error) -> Seq<char>;

/// Calls `std::error::Error::description` on a `serde_json::Error`.
///
/// Not proved. `serde_json` leaves that method as `std` provides it, so the
/// text depends on nothing but the value it is asked of: the contract gives
/// it the name `serialization_description` and claims nothing of what it
/// says.
#[verifier::external_body]
#[allow(deprecated)]
pub(crate) fn describe_serialization(e: &serde_json::Error) -> (s: &str)
    ensures
        s@ == serialization_description(*e),
{
    std::error::Error::description(e)
}

/// Calls `std::error::Error::description` on a `rusqlite::Error`.
///
/// Not proved. `rusqlite` leaves that method as `std` provides it, so the
/// text depends on nothing but the value it is asked of: the contract gives
/// it the name `store_description` and claims nothing of what it says.
#[verifier::external_body]
#[allow(deprecated)]
pub(crate) fn describe_store(e: &rusqlite::Error) -> (s: &str)
    ensures
        s@ == store_description(*e),
{
    std::error::Error::description(e)
}

/// The failure that an error wraps, borrowed from it.
#[derive(Clone, Copy, Debug)]
pub enum Cause<'a> {
    /// A failure of the serialization codec.
    Serialization(&'a serde_json::Error),
    /// A failure of the relational engine.
    Store(&'a rusqlite::Error),
}

impl<'a> Cause<'a> {
    /// The short description of the underlying failure.
    pub open spec fn description_text(self) -> Seq<char> {
        match self {
            Cause::Serialization(e) => serialization_description(*e),
            Cause::Store(e) => store_description(*e),
        }
    }

    /// Whether `text` is a rendering of the underlying failure by its own
    /// `Display`.
    pub open spec fn displays_as(self, text: String) -> bool {
        match self {
            Cause::Serialization(e) => to_string_from_display_ensures::<serde_json::Error>(e, text),
            Cause::Store(e) => to_string_from_display_ensures::<rusqlite::Error>(e, text),
        }
    }

    /// The short description of the underlying failure, in its own words.
    pub fn description(self) -> (s: &'a str)
        ensures
            s@ == self.description_text(),
    {
        match self {
            Cause::Serialization(e) => describe_serialization(e),
            Cause::Store(e) => describe_store(e),
        }
    }

    /// Renders the underlying failure with its own `Display`.
    pub fn to_string(self) -> (s: String)
        ensures
            self.displays_as(s),
    {
        match self {
            Cause::Serialization(e) => e.to_string(),
            Cause::Store(e) => e.to_string(),
        }
    }
}

} // verus!
