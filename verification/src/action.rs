//! The action registry: the Core profile's actions, who may send each, and
//! the shape of the payload that each request and response carries.

use vstd::prelude::*;
use crate::text::str_eq;

verus! {

/// The actions of the OCPP 1.6 Core profile.
#[derive(Clone, Copy, Debug, PartialEq, Eq, Structural)]
pub enum OcppActionEnum {
    Authorize,
    BootNotification,
    ChangeAvailability,
    ChangeConfiguration,
    DataTransfer,
    ClearCache,
    GetConfiguration,
    Heartbeat,
    MeterValues,
    RemoteStartTransaction,
    RemoteStopTransaction,
    Reset,
    StatusNotification,
    StartTransaction,
    StopTransaction,
    UnlockConnector,
}

/// The side that may send the Call of an action.
#[derive(Clone, Copy, Debug, PartialEq, Eq, Structural)]
pub enum Direction {
    StationToServer,
    ServerToStation,
    Both,
}

/// Tells whether a side may send the Call of an action with the given
/// direction.
pub open spec fn direction_allows(direction: Direction, from_station: bool) -> bool {
    match direction {
        Direction::StationToServer => from_station,
        Direction::ServerToStation => !from_station,
        Direction::Both => true,
    }
}

impl Direction {
    /// Tells whether the station, or else the server, may send the Call
    /// of an action with this direction. The session does not refuse a
    /// Call for its direction: a caller that wants the direction table
    /// enforced asks here.
    pub fn allows(&self, from_station: bool) -> (allowed: bool)
        ensures
            allowed == direction_allows(*self, from_station),
    {
        match self {
            Direction::StationToServer => from_station,
            Direction::ServerToStation => !from_station,
            Direction::Both => true,
        }
    }
}

/// The JSON type that a payload member must have.
#[derive(Clone, Copy, Debug, PartialEq, Eq, Structural)]
pub enum FieldKind {
    Boolean,
    Integer,
    Text,
    List,
    Object,
}

/// One member of a payload shape.
#[derive(Clone, Copy, Debug)]
pub struct FieldSpec {
    pub name: &'static str,
    pub kind: FieldKind,
    pub required: bool,
}

/// One member of a payload shape, as a mathematical value.
pub struct FieldRule {
    pub name: Seq<char>,
    pub kind: FieldKind,
    pub required: bool,
}

impl View for FieldSpec {
    type V = FieldRule;

    open spec fn view(&self) -> FieldRule {
        FieldRule { name: self.name@, kind: self.kind, required: self.required }
    }
}

/// The view of a payload shape.
pub open spec fn rules_view(fields: Seq<FieldSpec>) -> Seq<FieldRule> {
    Seq::new(fields.len(), |i: int| fields[i]@)
}

/// The name of an action on the wire.
pub open spec fn action_name(action: OcppActionEnum) -> Seq<char> {
    match action {
        OcppActionEnum::Authorize => "Authorize"@,
        OcppActionEnum::BootNotification => "BootNotification"@,
        OcppActionEnum::ChangeAvailability => "ChangeAvailability"@,
        OcppActionEnum::ChangeConfiguration => "ChangeConfiguration"@,
        OcppActionEnum::DataTransfer => "DataTransfer"@,
        OcppActionEnum::ClearCache => "ClearCache"@,
        OcppActionEnum::GetConfiguration => "GetConfiguration"@,
        OcppActionEnum::Heartbeat => "Heartbeat"@,
        OcppActionEnum::MeterValues => "MeterValues"@,
        OcppActionEnum::RemoteStartTransaction => "RemoteStartTransaction"@,
        OcppActionEnum::RemoteStopTransaction => "RemoteStopTransaction"@,
        OcppActionEnum::Reset => "Reset"@,
        OcppActionEnum::StatusNotification => "StatusNotification"@,
        OcppActionEnum::StartTransaction => "StartTransaction"@,
        OcppActionEnum::StopTransaction => "StopTransaction"@,
        OcppActionEnum::UnlockConnector => "UnlockConnector"@,
    }
}

/// The action with the given name, by exact match.
pub open spec fn action_named(name: Seq<char>) -> Option<OcppActionEnum> {
    if name == "Authorize"@ {
        Some(OcppActionEnum::Authorize)
    } else if name == "BootNotification"@ {
        Some(OcppActionEnum::BootNotification)
    } else if name == "ChangeAvailability"@ {
        Some(OcppActionEnum::ChangeAvailability)
    } else if name == "ChangeConfiguration"@ {
        Some(OcppActionEnum::ChangeConfiguration)
    } else if name == "DataTransfer"@ {
        Some(OcppActionEnum::DataTransfer)
    } else if name == "ClearCache"@ {
        Some(OcppActionEnum::ClearCache)
    } else if name == "GetConfiguration"@ {
        Some(OcppActionEnum::GetConfiguration)
    } else if name == "Heartbeat"@ {
        Some(OcppActionEnum::Heartbeat)
    } else if name == "MeterValues"@ {
        Some(OcppActionEnum::MeterValues)
    } else if name == "RemoteStartTransaction"@ {
        Some(OcppActionEnum::RemoteStartTransaction)
    } else if name == "RemoteStopTransaction"@ {
        Some(OcppActionEnum::RemoteStopTransaction)
    } else if name == "Reset"@ {
        Some(OcppActionEnum::Reset)
    } else if name == "StatusNotification"@ {
        Some(OcppActionEnum::StatusNotification)
    } else if name == "StartTransaction"@ {
        Some(OcppActionEnum::StartTransaction)
    } else if name == "StopTransaction"@ {
        Some(OcppActionEnum::StopTransaction)
    } else if name == "UnlockConnector"@ {
        Some(OcppActionEnum::UnlockConnector)
    } else {
        None
    }
}

/// The side that may send the Call of an action.
pub open spec fn action_direction(action: OcppActionEnum) -> Direction {
    match action {
        OcppActionEnum::Authorize => Direction::StationToServer,
        OcppActionEnum::BootNotification => Direction::StationToServer,
        OcppActionEnum::ChangeAvailability => Direction::ServerToStation,
        OcppActionEnum::ChangeConfiguration => Direction::ServerToStation,
        OcppActionEnum::DataTransfer => Direction::Both,
        OcppActionEnum::ClearCache => Direction::ServerToStation,
        OcppActionEnum::GetConfiguration => Direction::ServerToStation,
        OcppActionEnum::Heartbeat => Direction::StationToServer,
        OcppActionEnum::MeterValues => Direction::StationToServer,
        OcppActionEnum::RemoteStartTransaction => Direction::ServerToStation,
        OcppActionEnum::RemoteStopTransaction => Direction::ServerToStation,
        OcppActionEnum::Reset => Direction::ServerToStation,
        OcppActionEnum::StatusNotification => Direction::StationToServer,
        OcppActionEnum::StartTransaction => Direction::StationToServer,
        OcppActionEnum::StopTransaction => Direction::StationToServer,
        OcppActionEnum::UnlockConnector => Direction::ServerToStation,
    }
}

/// The shape of the payload of an action's Call.
pub open spec fn request_rules(action: OcppActionEnum) -> Seq<FieldRule> {
    match action {
        OcppActionEnum::Authorize => seq![
            FieldRule { name: "idTag"@, kind: FieldKind::Text, required: true },
        ],
        OcppActionEnum::BootNotification => seq![
            FieldRule { name: "chargeBoxSerialNumber"@, kind: FieldKind::Text, required: false },
            FieldRule { name: "chargePointModel"@, kind: FieldKind::Text, required: true },
            FieldRule { name: "chargePointSerialNumber"@, kind: FieldKind::Text, required: false },
            FieldRule { name: "chargePointVendor"@, kind: FieldKind::Text, required: true },
            FieldRule { name: "firmwareVersion"@, kind: FieldKind::Text, required: false },
            FieldRule { name: "iccid"@, kind: FieldKind::Text, required: false },
            FieldRule { name: "imsi"@, kind: FieldKind::Text, required: false },
            FieldRule { name: "meterSerialNumber"@, kind: FieldKind::Text, required: false },
            FieldRule { name: "meterType"@, kind: FieldKind::Text, required: false },
        ],
        OcppActionEnum::ChangeAvailability => seq![
            FieldRule { name: "connectorId"@, kind: FieldKind::Integer, required: true },
            FieldRule { name: "type"@, kind: FieldKind::Text, required: true },
        ],
        OcppActionEnum::ChangeConfiguration => seq![
            FieldRule { name: "key"@, kind: FieldKind::Text, required: true },
            FieldRule { name: "value"@, kind: FieldKind::Text, required: true },
        ],
        OcppActionEnum::DataTransfer => seq![
            FieldRule { name: "vendorId"@, kind: FieldKind::Text, required: true },
            FieldRule { name: "messageId"@, kind: FieldKind::Text, required: false },
            FieldRule { name: "data"@, kind: FieldKind::Text, required: false },
        ],
        OcppActionEnum::ClearCache => seq![],
        OcppActionEnum::GetConfiguration => seq![
            FieldRule { name: "key"@, kind: FieldKind::List, required: false },
        ],
        OcppActionEnum::Heartbeat => seq![],
        OcppActionEnum::MeterValues => seq![
            FieldRule { name: "connectorId"@, kind: FieldKind::Integer, required: true },
            FieldRule { name: "transactionId"@, kind: FieldKind::Integer, required: false },
            FieldRule { name: "meterValue"@, kind: FieldKind::List, required: true },
        ],
        OcppActionEnum::RemoteStartTransaction => seq![
            FieldRule { name: "connectorId"@, kind: FieldKind::Integer, required: false },
            FieldRule { name: "idTag"@, kind: FieldKind::Text, required: true },
            FieldRule { name: "chargingProfile"@, kind: FieldKind::Object, required: false },
        ],
        OcppActionEnum::RemoteStopTransaction => seq![
            FieldRule { name: "transactionId"@, kind: FieldKind::Integer, required: true },
        ],
        OcppActionEnum::Reset => seq![
            FieldRule { name: "type"@, kind: FieldKind::Text, required: true },
        ],
        OcppActionEnum::StatusNotification => seq![
            FieldRule { name: "connectorId"@, kind: FieldKind::Integer, required: true },
            FieldRule { name: "errorCode"@, kind: FieldKind::Text, required: true },
            FieldRule { name: "info"@, kind: FieldKind::Text, required: false },
            FieldRule { name: "status"@, kind: FieldKind::Text, required: true },
            FieldRule { name: "timestamp"@, kind: FieldKind::Text, required: false },
            FieldRule { name: "vendorId"@, kind: FieldKind::Text, required: false },
            FieldRule { name: "vendorErrorCode"@, kind: FieldKind::Text, required: false },
        ],
        OcppActionEnum::StartTransaction => seq![
            FieldRule { name: "connectorId"@, kind: FieldKind::Integer, required: true },
            FieldRule { name: "idTag"@, kind: FieldKind::Text, required: true },
            FieldRule { name: "meterStart"@, kind: FieldKind::Integer, required: true },
            FieldRule { name: "reservationId"@, kind: FieldKind::Integer, required: false },
            FieldRule { name: "timestamp"@, kind: FieldKind::Text, required: true },
        ],
        OcppActionEnum::StopTransaction => seq![
            FieldRule { name: "idTag"@, kind: FieldKind::Text, required: false },
            FieldRule { name: "meterStop"@, kind: FieldKind::Integer, required: true },
            FieldRule { name: "timestamp"@, kind: FieldKind::Text, required: true },
            FieldRule { name: "transactionId"@, kind: FieldKind::Integer, required: true },
            FieldRule { name: "reason"@, kind: FieldKind::Text, required: false },
            FieldRule { name: "transactionData"@, kind: FieldKind::List, required: false },
        ],
        OcppActionEnum::UnlockConnector => seq![
            FieldRule { name: "connectorId"@, kind: FieldKind::Integer, required: true },
        ],
    }
}

/// The shape of the payload of an action's CallResult.
pub open spec fn response_rules(action: OcppActionEnum) -> Seq<FieldRule> {
    match action {
        OcppActionEnum::Authorize => seq![
            FieldRule { name: "idTagInfo"@, kind: FieldKind::Object, required: true },
        ],
        OcppActionEnum::BootNotification => seq![
            FieldRule { name: "currentTime"@, kind: FieldKind::Text, required: true },
            FieldRule { name: "interval"@, kind: FieldKind::Integer, required: true },
            FieldRule { name: "status"@, kind: FieldKind::Text, required: true },
        ],
        OcppActionEnum::ChangeAvailability => seq![
            FieldRule { name: "status"@, kind: FieldKind::Text, required: true },
        ],
        OcppActionEnum::ChangeConfiguration => seq![
            FieldRule { name: "status"@, kind: FieldKind::Text, required: true },
        ],
        OcppActionEnum::DataTransfer => seq![
            FieldRule { name: "status"@, kind: FieldKind::Text, required: true },
            FieldRule { name: "data"@, kind: FieldKind::Text, required: false },
        ],
        OcppActionEnum::ClearCache => seq![
            FieldRule { name: "status"@, kind: FieldKind::Text, required: true },
        ],
        OcppActionEnum::GetConfiguration => seq![
            FieldRule { name: "configurationKey"@, kind: FieldKind::List, required: false },
            FieldRule { name: "unknownKey"@, kind: FieldKind::List, required: false },
        ],
        OcppActionEnum::Heartbeat => seq![
            FieldRule { name: "currentTime"@, kind: FieldKind::Text, required: true },
        ],
        OcppActionEnum::MeterValues => seq![],
        OcppActionEnum::RemoteStartTransaction => seq![
            FieldRule { name: "status"@, kind: FieldKind::Text, required: true },
        ],
        OcppActionEnum::RemoteStopTransaction => seq![
            FieldRule { name: "status"@, kind: FieldKind::Text, required: true },
        ],
        OcppActionEnum::Reset => seq![
            FieldRule { name: "status"@, kind: FieldKind::Text, required: true },
        ],
        OcppActionEnum::StatusNotification => seq![],
        OcppActionEnum::StartTransaction => seq![
            FieldRule { name: "idTagInfo"@, kind: FieldKind::Object, required: true },
            FieldRule { name: "transactionId"@, kind: FieldKind::Integer, required: true },
        ],
        OcppActionEnum::StopTransaction => seq![
            FieldRule { name: "idTagInfo"@, kind: FieldKind::Object, required: false },
        ],
        OcppActionEnum::UnlockConnector => seq![
            FieldRule { name: "status"@, kind: FieldKind::Text, required: true },
        ],
    }
}

/// No two actions have the same name.
pub proof fn lemma_action_names_distinct()
    ensures
        forall|a: OcppActionEnum, b: OcppActionEnum| a != b ==> action_name(a) != action_name(b),
{
    reveal_strlit("Authorize");
    reveal_strlit("BootNotification");
    reveal_strlit("ChangeAvailability");
    reveal_strlit("ChangeConfiguration");
    reveal_strlit("DataTransfer");
    reveal_strlit("ClearCache");
    reveal_strlit("GetConfiguration");
    reveal_strlit("Heartbeat");
    reveal_strlit("MeterValues");
    reveal_strlit("RemoteStartTransaction");
    reveal_strlit("RemoteStopTransaction");
    reveal_strlit("Reset");
    reveal_strlit("StatusNotification");
    reveal_strlit("StartTransaction");
    reveal_strlit("StopTransaction");
    reveal_strlit("UnlockConnector");
    assert forall|a: OcppActionEnum, b: OcppActionEnum| a != b implies action_name(a)
        != action_name(b) by {
        let x = action_name(a);
        let y = action_name(b);
        if x == y {
            assert(x.len() == y.len());
            assert(x[0] == y[0]);
            assert(x[1] == y[1]);
            assert(x[2] == y[2]);
            assert(x[3] == y[3]);
            assert(x[4] == y[4]);
            assert(x[6] == y[6]);
        }
    }
}

/// Looking an action's own name up gives the action back.
pub proof fn lemma_action_name_round_trip(action: OcppActionEnum)
    ensures
        action_named(action_name(action)) == Some(action),
{
    lemma_action_names_distinct();
    let name = action_name(action);
    if action_named(name) != Some(action) {
        let other = action_named(name)->Some_0;
        assert(action_named(name) is Some);
        assert(action_name(other) == name);
    }
}

/// A name is found only by exact match: the action found is written
/// exactly as the name that was looked up.
pub proof fn lemma_action_named_exact(name: Seq<char>)
    ensures
        action_named(name) matches Some(action) ==> action_name(action) == name,
        action_named(name) is None ==> forall|action: OcppActionEnum|
            action_name(action) != name,
{
}

impl OcppActionEnum {
    /// The name of the action on the wire.
    pub fn name(&self) -> (name: &'static str)
        ensures
            name@ == action_name(*self),
    {
        match self {
            OcppActionEnum::Authorize => "Authorize",
            OcppActionEnum::BootNotification => "BootNotification",
            OcppActionEnum::ChangeAvailability => "ChangeAvailability",
            OcppActionEnum::ChangeConfiguration => "ChangeConfiguration",
            OcppActionEnum::DataTransfer => "DataTransfer",
            OcppActionEnum::ClearCache => "ClearCache",
            OcppActionEnum::GetConfiguration => "GetConfiguration",
            OcppActionEnum::Heartbeat => "Heartbeat",
            OcppActionEnum::MeterValues => "MeterValues",
            OcppActionEnum::RemoteStartTransaction => "RemoteStartTransaction",
            OcppActionEnum::RemoteStopTransaction => "RemoteStopTransaction",
            OcppActionEnum::Reset => "Reset",
            OcppActionEnum::StatusNotification => "StatusNotification",
            OcppActionEnum::StartTransaction => "StartTransaction",
            OcppActionEnum::StopTransaction => "StopTransaction",
            OcppActionEnum::UnlockConnector => "UnlockConnector",
        }
    }

    /// The action with the given name, by exact, case-sensitive match.
    pub fn from_name(name: &str) -> (found: Option<OcppActionEnum>)
        ensures
            found == action_named(name@),
    {
        if str_eq(name, "Authorize") {
            Some(OcppActionEnum::Authorize)
        } else if str_eq(name, "BootNotification") {
            Some(OcppActionEnum::BootNotification)
        } else if str_eq(name, "ChangeAvailability") {
            Some(OcppActionEnum::ChangeAvailability)
        } else if str_eq(name, "ChangeConfiguration") {
            Some(OcppActionEnum::ChangeConfiguration)
        } else if str_eq(name, "DataTransfer") {
            Some(OcppActionEnum::DataTransfer)
        } else if str_eq(name, "ClearCache") {
            Some(OcppActionEnum::ClearCache)
        } else if str_eq(name, "GetConfiguration") {
            Some(OcppActionEnum::GetConfiguration)
        } else if str_eq(name, "Heartbeat") {
            Some(OcppActionEnum::Heartbeat)
        } else if str_eq(name, "MeterValues") {
            Some(OcppActionEnum::MeterValues)
        } else if str_eq(name, "RemoteStartTransaction") {
            Some(OcppActionEnum::RemoteStartTransaction)
        } else if str_eq(name, "RemoteStopTransaction") {
            Some(OcppActionEnum::RemoteStopTransaction)
        } else if str_eq(name, "Reset") {
            Some(OcppActionEnum::Reset)
        } else if str_eq(name, "StatusNotification") {
            Some(OcppActionEnum::StatusNotification)
        } else if str_eq(name, "StartTransaction") {
            Some(OcppActionEnum::StartTransaction)
        } else if str_eq(name, "StopTransaction") {
            Some(OcppActionEnum::StopTransaction)
        } else if str_eq(name, "UnlockConnector") {
            Some(OcppActionEnum::UnlockConnector)
        } else {
            None
        }
    }

    /// The side that may send the Call of this action.
    pub fn direction(&self) -> (direction: Direction)
        ensures
            direction == action_direction(*self),
    {
        match self {
            OcppActionEnum::Authorize => Direction::StationToServer,
            OcppActionEnum::BootNotification => Direction::StationToServer,
            OcppActionEnum::ChangeAvailability => Direction::ServerToStation,
            OcppActionEnum::ChangeConfiguration => Direction::ServerToStation,
            OcppActionEnum::DataTransfer => Direction::Both,
            OcppActionEnum::ClearCache => Direction::ServerToStation,
            OcppActionEnum::GetConfiguration => Direction::ServerToStation,
            OcppActionEnum::Heartbeat => Direction::StationToServer,
            OcppActionEnum::MeterValues => Direction::StationToServer,
            OcppActionEnum::RemoteStartTransaction => Direction::ServerToStation,
            OcppActionEnum::RemoteStopTransaction => Direction::ServerToStation,
            OcppActionEnum::Reset => Direction::ServerToStation,
            OcppActionEnum::StatusNotification => Direction::StationToServer,
            OcppActionEnum::StartTransaction => Direction::StationToServer,
            OcppActionEnum::StopTransaction => Direction::StationToServer,
            OcppActionEnum::UnlockConnector => Direction::ServerToStation,
        }
    }
}

/// The text of the error for a name that is no action.
pub open spec fn unknown_action_text(name: Seq<char>) -> Seq<char> {
    "Unknown OCPP action: "@ + name
}

impl core::str::FromStr for OcppActionEnum {
    type Err = String;

    /// The action with the given name, or the error text for a name that is
    /// no action.
    fn from_str(str: &str) -> (parsed: Result<OcppActionEnum, String>)
        ensures
            parsed matches Ok(action) ==> action_named(str@) == Some(action),
            parsed matches Err(text) ==> action_named(str@) is None && text@
                == unknown_action_text(str@),
    {
        match OcppActionEnum::from_name(str) {
            Some(action) => Ok(action),
            None => {
                let mut text = "Unknown OCPP action: ".to_owned();
                text.append(str);
                Err(text)
            },
        }
    }
}

fn field(name: &'static str, kind: FieldKind, required: bool) -> (spec: FieldSpec)
    ensures
        spec@ == (FieldRule { name: name@, kind, required }),
{
    FieldSpec { name, kind, required }
}

/// Builds the shape of the payload of an action's Call.
pub fn request_fields(action: OcppActionEnum) -> (fields: Vec<FieldSpec>)
    ensures
        rules_view(fields@) == request_rules(action),
{
    let mut fields: Vec<FieldSpec> = Vec::new();
    match action {
        OcppActionEnum::Authorize => {
            fields.push(field("idTag", FieldKind::Text, true));
        },
        OcppActionEnum::BootNotification => {
            fields.push(field("chargeBoxSerialNumber", FieldKind::Text, false));
            fields.push(field("chargePointModel", FieldKind::Text, true));
            fields.push(field("chargePointSerialNumber", FieldKind::Text, false));
            fields.push(field("chargePointVendor", FieldKind::Text, true));
            fields.push(field("firmwareVersion", FieldKind::Text, false));
            fields.push(field("iccid", FieldKind::Text, false));
            fields.push(field("imsi", FieldKind::Text, false));
            fields.push(field("meterSerialNumber", FieldKind::Text, false));
            fields.push(field("meterType", FieldKind::Text, false));
        },
        OcppActionEnum::ChangeAvailability => {
            fields.push(field("connectorId", FieldKind::Integer, true));
            fields.push(field("type", FieldKind::Text, true));
        },
        OcppActionEnum::ChangeConfiguration => {
            fields.push(field("key", FieldKind::Text, true));
            fields.push(field("value", FieldKind::Text, true));
        },
        OcppActionEnum::DataTransfer => {
            fields.push(field("vendorId", FieldKind::Text, true));
            fields.push(field("messageId", FieldKind::Text, false));
            fields.push(field("data", FieldKind::Text, false));
        },
        OcppActionEnum::ClearCache => {},
        OcppActionEnum::GetConfiguration => {
            fields.push(field("key", FieldKind::List, false));
        },
        OcppActionEnum::Heartbeat => {},
        OcppActionEnum::MeterValues => {
            fields.push(field("connectorId", FieldKind::Integer, true));
            fields.push(field("transactionId", FieldKind::Integer, false));
            fields.push(field("meterValue", FieldKind::List, true));
        },
        OcppActionEnum::RemoteStartTransaction => {
            fields.push(field("connectorId", FieldKind::Integer, false));
            fields.push(field("idTag", FieldKind::Text, true));
            fields.push(field("chargingProfile", FieldKind::Object, false));
        },
        OcppActionEnum::RemoteStopTransaction => {
            fields.push(field("transactionId", FieldKind::Integer, true));
        },
        OcppActionEnum::Reset => {
            fields.push(field("type", FieldKind::Text, true));
        },
        OcppActionEnum::StatusNotification => {
            fields.push(field("connectorId", FieldKind::Integer, true));
            fields.push(field("errorCode", FieldKind::Text, true));
            fields.push(field("info", FieldKind::Text, false));
            fields.push(field("status", FieldKind::Text, true));
            fields.push(field("timestamp", FieldKind::Text, false));
            fields.push(field("vendorId", FieldKind::Text, false));
            fields.push(field("vendorErrorCode", FieldKind::Text, false));
        },
        OcppActionEnum::StartTransaction => {
            fields.push(field("connectorId", FieldKind::Integer, true));
            fields.push(field("idTag", FieldKind::Text, true));
            fields.push(field("meterStart", FieldKind::Integer, true));
            fields.push(field("reservationId", FieldKind::Integer, false));
            fields.push(field("timestamp", FieldKind::Text, true));
        },
        OcppActionEnum::StopTransaction => {
            fields.push(field("idTag", FieldKind::Text, false));
            fields.push(field("meterStop", FieldKind::Integer, true));
            fields.push(field("timestamp", FieldKind::Text, true));
            fields.push(field("transactionId", FieldKind::Integer, true));
            fields.push(field("reason", FieldKind::Text, false));
            fields.push(field("transactionData", FieldKind::List, false));
        },
        OcppActionEnum::UnlockConnector => {
            fields.push(field("connectorId", FieldKind::Integer, true));
        },
    }
    assert(rules_view(fields@) =~= request_rules(action));
    fields
}

/// Builds the shape of the payload of an action's CallResult.
pub fn response_fields(action: OcppActionEnum) -> (fields: Vec<FieldSpec>)
    ensures
        rules_view(fields@) == response_rules(action),
{
    let mut fields: Vec<FieldSpec> = Vec::new();
    match action {
        OcppActionEnum::Authorize => {
            fields.push(field("idTagInfo", FieldKind::Object, true));
        },
        OcppActionEnum::BootNotification => {
            fields.push(field("currentTime", FieldKind::Text, true));
            fields.push(field("interval", FieldKind::Integer, true));
            fields.push(field("status", FieldKind::Text, true));
        },
        OcppActionEnum::ChangeAvailability => {
            fields.push(field("status", FieldKind::Text, true));
        },
        OcppActionEnum::ChangeConfiguration => {
            fields.push(field("status", FieldKind::Text, true));
        },
        OcppActionEnum::DataTransfer => {
            fields.push(field("status", FieldKind::Text, true));
            fields.push(field("data", FieldKind::Text, false));
        },
        OcppActionEnum::ClearCache => {
            fields.push(field("status", FieldKind::Text, true));
        },
        OcppActionEnum::GetConfiguration => {
            fields.push(field("configurationKey", FieldKind::List, false));
            fields.push(field("unknownKey", FieldKind::List, false));
        },
        OcppActionEnum::Heartbeat => {
            fields.push(field("currentTime", FieldKind::Text, true));
        },
        OcppActionEnum::MeterValues => {},
        OcppActionEnum::RemoteStartTransaction => {
            fields.push(field("status", FieldKind::Text, true));
        },
        OcppActionEnum::RemoteStopTransaction => {
            fields.push(field("status", FieldKind::Text, true));
        },
        OcppActionEnum::Reset => {
            fields.push(field("status", FieldKind::Text, true));
        },
        OcppActionEnum::StatusNotification => {},
        OcppActionEnum::StartTransaction => {
            fields.push(field("idTagInfo", FieldKind::Object, true));
            fields.push(field("transactionId", FieldKind::Integer, true));
        },
        OcppActionEnum::StopTransaction => {
            fields.push(field("idTagInfo", FieldKind::Object, false));
        },
        OcppActionEnum::UnlockConnector => {
            fields.push(field("status", FieldKind::Text, true));
        },
    }
    assert(rules_view(fields@) =~= response_rules(action));
    fields
}

/// A registry entry: an action, who may send its Call, and the shapes of
/// its two payloads.
#[derive(Clone, Debug)]
pub struct ActionSpec {
    pub action: OcppActionEnum,
    pub direction: Direction,
    pub request: Vec<FieldSpec>,
    pub response: Vec<FieldSpec>,
}

impl ActionSpec {
    /// The entry is the registry's entry for its action.
    pub open spec fn wf(&self) -> bool {
        &&& self.direction == action_direction(self.action)
        &&& rules_view(self.request@) == request_rules(self.action)
        &&& rules_view(self.response@) == response_rules(self.action)
    }

    /// The registry's entry for an action.
    pub fn of(action: OcppActionEnum) -> (spec: ActionSpec)
        ensures
            spec.action == action,
            spec.wf(),
    {
        ActionSpec {
            action,
            direction: action.direction(),
            request: request_fields(action),
            response: response_fields(action),
        }
    }
}

/// The name that was looked up and is no action of the registry.
#[derive(Clone, Debug, PartialEq, Eq)]
pub struct UnknownAction {
    pub name: String,
}

/// Looks an action up by its name: exact match against the registry's
/// names, case-sensitive. Any other name is reported back as unknown.
pub fn lookup(action_name: &str) -> (found: Result<ActionSpec, UnknownAction>)
    ensures
        found matches Ok(spec) ==> action_named(action_name@) == Some(spec.action) && spec.wf(),
        found matches Err(unknown) ==> action_named(action_name@) is None && unknown.name@
            == action_name@,
{
    match OcppActionEnum::from_name(action_name) {
        Some(action) => Ok(ActionSpec::of(action)),
        None => Err(UnknownAction { name: action_name.to_owned() }),
    }
}

} // verus!
