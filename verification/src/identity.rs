//! What all peers agree on without talking: the application they belong to,
//! the document that stands for the light, and the names of its fields.
//!
//! A phone and a light that differ in one of these never see each other's
//! changes, so they are fixed here, in one place, and handed to the sync
//! client when it is started.

use vstd::prelude::*;
use crate::document::Field;

verus! {

/// The application that all peers of the light belong to.
pub const APP_NAMESPACE: &'static str = "dittomoodlight";

/// The collection that holds the light state document.
pub const COLLECTION: &'static str = "lights";

/// The identifier of the light state document in its collection.
pub const LIGHT_DOCUMENT_ID: i32 = 5;

/// The channels over which peers find each other without a server.
#[derive(Clone, Copy, Debug, PartialEq, Eq, Structural)]
pub struct Transports {
    /// Bluetooth Low Energy.
    pub bluetooth_le: bool,
    /// The local network.
    pub lan: bool,
}

/// The channels the light uses: both of them.
pub open spec fn spec_transports() -> Transports {
    Transports { bluetooth_le: true, lan: true }
}

/// The channels the light uses.
#[verifier::when_used_as_spec(spec_transports)]
pub fn transports() -> (enabled: Transports)
    ensures
        enabled == spec_transports(),
{
    Transports { bluetooth_le: true, lan: true }
}

/// The name under which the document holds a field.
pub open spec fn field_name(field: Field) -> Seq<char> {
    match field {
        Field::Red => "red"@,
        Field::Green => "green"@,
        Field::Blue => "blue"@,
        Field::IsOff => "isOff"@,
    }
}

/// The name under which the document holds a field.
pub fn field_key(field: Field) -> (name: &'static str)
    ensures
        name@ == field_name(field),
{
    match field {
        Field::Red => "red",
        Field::Green => "green",
        Field::Blue => "blue",
        Field::IsOff => "isOff",
    }
}

} // verus!
