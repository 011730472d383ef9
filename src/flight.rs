//! The Flight protocol's messages, as plain values.
use vstd::prelude::*;

verus! {

/// How a descriptor names its flight.
#[derive(Clone, Copy, Debug, PartialEq, Eq, Structural)]
pub enum DescriptorType {
    Unknown,
    /// A list of path segments.
    Path,
    /// An opaque command.
    Cmd,
}

/// Identifies a flight, by a command or by a list of path segments.
#[derive(Clone, Debug)]
pub struct FlightDescriptor {
    pub descriptor_type: DescriptorType,
    pub cmd: Vec<u8>,
    pub path: Vec<String>,
}

impl FlightDescriptor {
    /// The descriptor is the one-segment path `p`, with no command.
    pub open spec fn names_path(&self, p: Seq<char>) -> bool {
        &&& self.descriptor_type == DescriptorType::Path
        &&& self.cmd@.len() == 0
        &&& self.path@.len() == 1
        &&& self.path@[0]@ == p
    }
}

/// What a listing says of one flight. Schema, endpoints and counts are left
/// at the protocol's defaults.
#[derive(Clone, Debug)]
pub struct FlightInfo {
    pub flight_descriptor: Option<FlightDescriptor>,
}

/// The filter of a flight listing.
#[derive(Clone, Debug)]
pub struct Criteria {
    pub expression: Vec<u8>,
}

/// An opaque token that asks for one data stream.
#[derive(Clone, Debug)]
pub struct Ticket {
    pub ticket: Vec<u8>,
}

#[derive(Clone, Debug)]
pub struct HandshakeRequest {
    pub protocol_version: u64,
    pub payload: Vec<u8>,
}

#[derive(Clone, Debug)]
pub struct HandshakeResponse {
    pub protocol_version: u64,
    pub payload: Vec<u8>,
}

/// A custom action: a type tag and an opaque body.
#[derive(Clone, Debug)]
pub struct Action {
    pub action_type: String,
    pub body: Vec<u8>,
}

/// One result of an action.
#[derive(Clone, Debug)]
pub struct ActionResult {
    pub body: Vec<u8>,
}

/// An entry of the catalog of actions that a service accepts.
#[derive(Clone, Debug)]
pub struct ActionType {
    pub action_type: String,
    pub description: String,
}

impl View for ActionType {
    /// The type tag and the description.
    type V = (Seq<char>, Seq<char>);

    open spec fn view(&self) -> (Seq<char>, Seq<char>) {
        (self.action_type@, self.description@)
    }
}

} // verus!
