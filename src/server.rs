//! The Flight dispatcher: one handler for each RPC of the protocol.
use vstd::prelude::*;
use vstd::string::*;
use vstd::utf8::encode_utf8;

use crate::flight::{
    Action, ActionResult, ActionType, Criteria, DescriptorType, FlightDescriptor, FlightInfo,
    HandshakeRequest, HandshakeResponse, Ticket,
};
use crate::status::{Code, Status};

verus! {

/// The action that answers `ok`.
pub open spec fn health_tag() -> Seq<char> {
    "health"@
}

/// The action that reports the configured dataset path.
pub open spec fn lance_info_tag() -> Seq<char> {
    "lance_info"@
}

/// The catalog of actions, in the order in which it is listed:
/// each entry is a type tag and its description.
pub open spec fn action_catalog() -> Seq<(Seq<char>, Seq<char>)> {
    seq![
        (health_tag(), "Return a single Flight action result with body 'ok'."@),
        (lance_info_tag(), "Return the configured dataset path if present."@),
    ]
}

/// The type tags that `do_action` accepts.
pub open spec fn is_known_action(t: Seq<char>) -> bool {
    t == health_tag() || t == lance_info_tag()
}

/// The text that `lance_info` answers for a configured path, or for none.
pub open spec fn lance_info_text(path: Option<Seq<char>>) -> Seq<char> {
    match path {
        Some(p) => "dataset_path="@ + p,
        None => "dataset_path="@,
    }
}

/// The body of the one result of a known action, as UTF-8 bytes.
pub open spec fn action_body(path: Option<Seq<char>>, t: Seq<char>) -> Seq<u8> {
    if t == health_tag() {
        encode_utf8("ok"@)
    } else {
        encode_utf8(lance_info_text(path))
    }
}

/// The message with which an unknown action type is refused.
pub open spec fn unknown_action_message(t: Seq<char>) -> Seq<char> {
    "unknown action type: "@ + t
}

/// `t` occurs in `s` as a contiguous run.
pub open spec fn contains(s: Seq<char>, t: Seq<char>) -> bool {
    exists|i: int| 0 <= i <= s.len() - t.len() && #[trigger] s.subrange(i, i + t.len()) == t
}

/// A listing for the dataset path `path`: empty without one, else exactly
/// one flight, described by `path` as a one-segment path.
pub open spec fn flights_listed(path: Option<Seq<char>>, r: Seq<FlightInfo>) -> bool {
    match path {
        None => r.len() == 0,
        Some(p) => r.len() == 1 && (r[0].flight_descriptor matches Some(d) && d.names_path(p)),
    }
}

/// The catalog of actions and the dispatcher agree: a type tag is listed
/// exactly when `do_action` accepts it.
pub proof fn lemma_catalog_lists_accepted_actions(t: Seq<char>)
    ensures
        is_known_action(t) <==> exists|i: int|
            0 <= i < action_catalog().len() && (#[trigger] action_catalog()[i]).0 == t,
{
    if t == health_tag() {
        assert(action_catalog()[0].0 == t);
    }
    if t == lance_info_tag() {
        assert(action_catalog()[1].0 == t);
    }
}

/// The message that refuses an unknown action type contains that type.
pub proof fn lemma_unknown_action_message_names_type(t: Seq<char>)
    ensures
        contains(unknown_action_message(t), t),
{
    let m = unknown_action_message(t);
    let k = "unknown action type: "@.len() as int;
    assert(m.subrange(k, k + t.len()) =~= t);
}

/// The Flight service over one optional dataset path, fixed at construction.
#[derive(Clone, Debug)]
pub struct LanceFlyService {
    dataset_path: Option<String>,
}

impl View for LanceFlyService {
    /// The configured dataset path, if any.
    type V = Option<Seq<char>>;

    closed spec fn view(&self) -> Option<Seq<char>> {
        match self.dataset_path {
            Some(p) => Some(p@),
            None => None,
        }
    }
}

impl LanceFlyService {
    pub fn new(dataset_path: Option<String>) -> (r: Self)
        ensures
            r@ == (match dataset_path {
                Some(p) => Some(p@),
                None => None::<Seq<char>>,
            }),
    {
        LanceFlyService { dataset_path }
    }

    /// The flights that the service lists: none without a dataset, else
    /// one whose descriptor is the dataset path as a one-segment path.
    fn list_flights_once(&self) -> (r: Vec<FlightInfo>)
        ensures
            flights_listed(self@, r@),
    {
        let mut r: Vec<FlightInfo> = Vec::new();
        match &self.dataset_path {
            None => {},
            Some(p) => {
                let mut path: Vec<String> = Vec::new();
                path.push(p.clone());
                let descriptor = FlightDescriptor {
                    descriptor_type: DescriptorType::Path,
                    cmd: Vec::new(),
                    path,
                };
                r.push(FlightInfo { flight_descriptor: Some(descriptor) });
            },
        }
        r
    }

    /// Lists the flights; the criteria do not filter the listing.
    pub fn list_flights(&self, _criteria: &Criteria) -> (r: Vec<FlightInfo>)
        ensures
            flights_listed(self@, r@),
    {
        self.list_flights_once()
    }

    /// Answers a handshake from the first request of the inbound stream,
    /// as read: `None` when the stream ended at once, `Some(Err(e))` when
    /// reading failed. The one response echoes the request's version and
    /// payload, or carries version 0 and an empty payload when there was
    /// none; a read failure ends the call with that same error.
    pub fn handshake<E>(&self, first: Option<Result<HandshakeRequest, E>>) -> (r: Result<
        Vec<HandshakeResponse>,
        E,
    >)
        ensures
            match first {
                None => r matches Ok(v) && v@.len() == 1 && v@[0].protocol_version == 0
                    && v@[0].payload@.len() == 0,
                Some(Ok(q)) => r matches Ok(v) && v@.len() == 1 && v@[0].protocol_version
                    == q.protocol_version && v@[0].payload@ == q.payload@,
                Some(Err(e)) => r matches Err(f) && f == e,
            },
    {
        let response = match first {
            Some(Ok(q)) => HandshakeResponse {
                protocol_version: q.protocol_version,
                payload: q.payload,
            },
            Some(Err(e)) => {
                return Err(e);
            },
            None => HandshakeResponse { protocol_version: 0, payload: Vec::new() },
        };
        let mut r: Vec<HandshakeResponse> = Vec::new();
        r.push(response);
        Ok(r)
    }

    /// The status with which `GetFlightInfo` fails: it is not supported.
    pub fn get_flight_info(&self, _descriptor: &FlightDescriptor) -> (r: Status)
        ensures
            r.code == Code::Unimplemented,
            r.message@ == "GetFlightInfo is not implemented yet"@,
    {
        Status::unimplemented(String::from_str("GetFlightInfo is not implemented yet"))
    }

    /// The status with which `PollFlightInfo` fails: it is not supported.
    pub fn poll_flight_info(&self, _descriptor: &FlightDescriptor) -> (r: Status)
        ensures
            r.code == Code::Unimplemented,
            r.message@ == "PollFlightInfo is not implemented yet"@,
    {
        Status::unimplemented(String::from_str("PollFlightInfo is not implemented yet"))
    }

    /// The status with which `GetSchema` fails: it is not supported.
    pub fn get_schema(&self, _descriptor: &FlightDescriptor) -> (r: Status)
        ensures
            r.code == Code::Unimplemented,
            r.message@ == "GetSchema is not implemented yet"@,
    {
        Status::unimplemented(String::from_str("GetSchema is not implemented yet"))
    }

    /// The status with which `DoGet` fails: it is not supported.
    pub fn do_get(&self, _ticket: &Ticket) -> (r: Status)
        ensures
            r.code == Code::Unimplemented,
            r.message@ == "DoGet is not implemented yet"@,
    {
        Status::unimplemented(String::from_str("DoGet is not implemented yet"))
    }

    /// The status with which `DoPut` fails, before it reads any of the
    /// inbound stream: it is not supported.
    pub fn do_put(&self) -> (r: Status)
        ensures
            r.code == Code::Unimplemented,
            r.message@ == "DoPut is not implemented yet"@,
    {
        Status::unimplemented(String::from_str("DoPut is not implemented yet"))
    }

    /// The status with which `DoExchange` fails, before it reads any of the
    /// inbound stream: it is not supported.
    pub fn do_exchange(&self) -> (r: Status)
        ensures
            r.code == Code::Unimplemented,
            r.message@ == "DoExchange is not implemented yet"@,
    {
        Status::unimplemented(String::from_str("DoExchange is not implemented yet"))
    }

    /// The actions that `do_action` accepts, with their descriptions, in a
    /// fixed order.
    pub fn list_actions(&self) -> (r: Vec<ActionType>)
        ensures
            r@.map_values(|a: ActionType| a@) == action_catalog(),
    {
        let mut r: Vec<ActionType> = Vec::new();
        r.push(
            ActionType {
                action_type: String::from_str("health"),
                description: String::from_str(
                    "Return a single Flight action result with body 'ok'.",
                ),
            },
        );
        r.push(
            ActionType {
                action_type: String::from_str("lance_info"),
                description: String::from_str("Return the configured dataset path if present."),
            },
        );
        assert(r@.map_values(|a: ActionType| a@) =~= action_catalog());
        r
    }

    /// Runs one action. `health` answers `ok`; `lance_info` answers
    /// `dataset_path=` followed by the configured path, if any; any other
    /// type is refused as an invalid argument that names it.
    pub fn do_action(&self, action: &Action) -> (r: Result<Vec<ActionResult>, Status>)
        ensures
            r is Ok <==> is_known_action(action.action_type@),
            r matches Ok(v) ==> v@.len() == 1 && v@[0].body@ == action_body(
                self@,
                action.action_type@,
            ),
            r matches Err(s) ==> s.code == Code::InvalidArgument && s.message@
                == unknown_action_message(action.action_type@),
    {
        let health = String::from_str("health");
        let lance_info = String::from_str("lance_info");
        let body = if action.action_type == health {
            "ok".as_bytes_vec()
        } else if action.action_type == lance_info {
            let mut text = String::from_str("dataset_path=");
            match &self.dataset_path {
                Some(p) => text.append(p.as_str()),
                None => {},
            }
            assert(text@ == lance_info_text(self@));
            text.as_str().as_bytes_vec()
        } else {
            let message = String::from_str("unknown action type: ").concat(
                action.action_type.as_str(),
            );
            return Err(Status::invalid_argument(message));
        };
        let mut results: Vec<ActionResult> = Vec::new();
        results.push(ActionResult { body });
        Ok(results)
    }
}

} // verus!
