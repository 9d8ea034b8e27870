//! Typed payloads and the payload validator: a payload is read against the
//! shape of the action it belongs to, never guessed from its members.

use vstd::prelude::*;
use crate::action::{ActionSpec, FieldKind, FieldRule, FieldSpec, OcppActionEnum, rules_view};
use crate::json::{find_member, has_member, members_view, Json, JsonValue};
use crate::text::{is_integer_literal, is_integer_text, str_eq};

verus! {

/// The side of an exchange that a payload belongs to: the request that a
/// Call carries, or the response that its CallResult carries.
#[derive(Clone, Copy, Debug, PartialEq, Eq, Structural)]
pub enum PayloadKind {
    Request,
    Response,
}

/// A payload of `Authorize`, whose Call is sent by the station.
#[derive(Clone, Debug, PartialEq)]
pub enum AuthorizeKind {
    Request(Json),
    Response(Json),
}

/// A payload of `BootNotification`, whose Call is sent by the station.
#[derive(Clone, Debug, PartialEq)]
pub enum BootNotificationKind {
    Request(Json),
    Response(Json),
}

/// A payload of `ChangeAvailability`, whose Call is sent by the server.
#[derive(Clone, Debug, PartialEq)]
pub enum ChangeAvailabilityKind {
    Request(Json),
    Response(Json),
}

/// A payload of `ChangeConfiguration`, whose Call is sent by the server.
#[derive(Clone, Debug, PartialEq)]
pub enum ChangeConfigurationKind {
    Request(Json),
    Response(Json),
}

/// A payload of `ClearCache`, whose Call is sent by the server.
#[derive(Clone, Debug, PartialEq)]
pub enum ClearCacheKind {
    Request(Json),
    Response(Json),
}

/// A payload of `DataTransfer`, whose Call is sent by either side.
#[derive(Clone, Debug, PartialEq)]
pub enum DataTransferKind {
    Request(Json),
    Response(Json),
}

/// A payload of `GetConfiguration`, whose Call is sent by the server.
#[derive(Clone, Debug, PartialEq)]
pub enum GetConfigurationKind {
    Request(Json),
    Response(Json),
}

/// A payload of `Heartbeat`, whose Call is sent by the station.
#[derive(Clone, Debug, PartialEq)]
pub enum HeartbeatKind {
    Request(Json),
    Response(Json),
}

/// A payload of `MeterValues`, whose Call is sent by the station.
#[derive(Clone, Debug, PartialEq)]
pub enum MeterValuesKind {
    Request(Json),
    Response(Json),
}

/// A payload of `RemoteStartTransaction`, whose Call is sent by the server.
#[derive(Clone, Debug, PartialEq)]
pub enum RemoteStartTransactionKind {
    Request(Json),
    Response(Json),
}

/// A payload of `RemoteStopTransaction`, whose Call is sent by the server.
#[derive(Clone, Debug, PartialEq)]
pub enum RemoteStopTransactionKind {
    Request(Json),
    Response(Json),
}

/// A payload of `Reset`, whose Call is sent by the server.
#[derive(Clone, Debug, PartialEq)]
pub enum ResetKind {
    Request(Json),
    Response(Json),
}

/// A payload of `StartTransaction`, whose Call is sent by the station.
#[derive(Clone, Debug, PartialEq)]
pub enum StartTransactionKind {
    Request(Json),
    Response(Json),
}

/// A payload of `StatusNotification`, whose Call is sent by the station.
#[derive(Clone, Debug, PartialEq)]
pub enum StatusNotificationKind {
    Request(Json),
    Response(Json),
}

/// A payload of `StopTransaction`, whose Call is sent by the station.
#[derive(Clone, Debug, PartialEq)]
pub enum StopTransactionKind {
    Request(Json),
    Response(Json),
}

/// A payload of `UnlockConnector`, whose Call is sent by the server.
#[derive(Clone, Debug, PartialEq)]
pub enum UnlockConnectorKind {
    Request(Json),
    Response(Json),
}

/// A payload that passed validation, tagged by the action it belongs to
/// and by its side of the exchange.
#[derive(Clone, Debug, PartialEq)]
pub enum OcppPayload {
    Authorize(AuthorizeKind),
    BootNotification(BootNotificationKind),
    ChangeAvailability(ChangeAvailabilityKind),
    ChangeConfiguration(ChangeConfigurationKind),
    ClearCache(ClearCacheKind),
    DataTransfer(DataTransferKind),
    GetConfiguration(GetConfigurationKind),
    Heartbeat(HeartbeatKind),
    MeterValues(MeterValuesKind),
    RemoteStartTransaction(RemoteStartTransactionKind),
    RemoteStopTransaction(RemoteStopTransactionKind),
    Reset(ResetKind),
    StartTransaction(StartTransactionKind),
    StatusNotification(StatusNotificationKind),
    StopTransaction(StopTransactionKind),
    UnlockConnector(UnlockConnectorKind),
}

/// A typed payload as a mathematical value.
pub struct PayloadView {
    pub action: OcppActionEnum,
    pub kind: PayloadKind,
    pub body: JsonValue,
}

impl OcppPayload {
    /// The action that the payload belongs to.
    pub open spec fn spec_action(&self) -> OcppActionEnum {
        match self {
            OcppPayload::Authorize(_) => OcppActionEnum::Authorize,
            OcppPayload::BootNotification(_) => OcppActionEnum::BootNotification,
            OcppPayload::ChangeAvailability(_) => OcppActionEnum::ChangeAvailability,
            OcppPayload::ChangeConfiguration(_) => OcppActionEnum::ChangeConfiguration,
            OcppPayload::ClearCache(_) => OcppActionEnum::ClearCache,
            OcppPayload::DataTransfer(_) => OcppActionEnum::DataTransfer,
            OcppPayload::GetConfiguration(_) => OcppActionEnum::GetConfiguration,
            OcppPayload::Heartbeat(_) => OcppActionEnum::Heartbeat,
            OcppPayload::MeterValues(_) => OcppActionEnum::MeterValues,
            OcppPayload::RemoteStartTransaction(_) => OcppActionEnum::RemoteStartTransaction,
            OcppPayload::RemoteStopTransaction(_) => OcppActionEnum::RemoteStopTransaction,
            OcppPayload::Reset(_) => OcppActionEnum::Reset,
            OcppPayload::StartTransaction(_) => OcppActionEnum::StartTransaction,
            OcppPayload::StatusNotification(_) => OcppActionEnum::StatusNotification,
            OcppPayload::StopTransaction(_) => OcppActionEnum::StopTransaction,
            OcppPayload::UnlockConnector(_) => OcppActionEnum::UnlockConnector,
        }
    }

    /// The side of the exchange that the payload belongs to.
    pub open spec fn spec_kind(&self) -> PayloadKind {
        match self {
            OcppPayload::Authorize(AuthorizeKind::Request(_)) => PayloadKind::Request,
            OcppPayload::Authorize(AuthorizeKind::Response(_)) => PayloadKind::Response,
            OcppPayload::BootNotification(BootNotificationKind::Request(_)) => PayloadKind::Request,
            OcppPayload::BootNotification(BootNotificationKind::Response(_)) => PayloadKind::Response,
            OcppPayload::ChangeAvailability(ChangeAvailabilityKind::Request(_)) => PayloadKind::Request,
            OcppPayload::ChangeAvailability(ChangeAvailabilityKind::Response(_)) => PayloadKind::Response,
            OcppPayload::ChangeConfiguration(ChangeConfigurationKind::Request(_)) => PayloadKind::Request,
            OcppPayload::ChangeConfiguration(ChangeConfigurationKind::Response(_)) => PayloadKind::Response,
            OcppPayload::ClearCache(ClearCacheKind::Request(_)) => PayloadKind::Request,
            OcppPayload::ClearCache(ClearCacheKind::Response(_)) => PayloadKind::Response,
            OcppPayload::DataTransfer(DataTransferKind::Request(_)) => PayloadKind::Request,
            OcppPayload::DataTransfer(DataTransferKind::Response(_)) => PayloadKind::Response,
            OcppPayload::GetConfiguration(GetConfigurationKind::Request(_)) => PayloadKind::Request,
            OcppPayload::GetConfiguration(GetConfigurationKind::Response(_)) => PayloadKind::Response,
            OcppPayload::Heartbeat(HeartbeatKind::Request(_)) => PayloadKind::Request,
            OcppPayload::Heartbeat(HeartbeatKind::Response(_)) => PayloadKind::Response,
            OcppPayload::MeterValues(MeterValuesKind::Request(_)) => PayloadKind::Request,
            OcppPayload::MeterValues(MeterValuesKind::Response(_)) => PayloadKind::Response,
            OcppPayload::RemoteStartTransaction(RemoteStartTransactionKind::Request(_)) => PayloadKind::Request,
            OcppPayload::RemoteStartTransaction(RemoteStartTransactionKind::Response(_)) => PayloadKind::Response,
            OcppPayload::RemoteStopTransaction(RemoteStopTransactionKind::Request(_)) => PayloadKind::Request,
            OcppPayload::RemoteStopTransaction(RemoteStopTransactionKind::Response(_)) => PayloadKind::Response,
            OcppPayload::Reset(ResetKind::Request(_)) => PayloadKind::Request,
            OcppPayload::Reset(ResetKind::Response(_)) => PayloadKind::Response,
            OcppPayload::StartTransaction(StartTransactionKind::Request(_)) => PayloadKind::Request,
            OcppPayload::StartTransaction(StartTransactionKind::Response(_)) => PayloadKind::Response,
            OcppPayload::StatusNotification(StatusNotificationKind::Request(_)) => PayloadKind::Request,
            OcppPayload::StatusNotification(StatusNotificationKind::Response(_)) => PayloadKind::Response,
            OcppPayload::StopTransaction(StopTransactionKind::Request(_)) => PayloadKind::Request,
            OcppPayload::StopTransaction(StopTransactionKind::Response(_)) => PayloadKind::Response,
            OcppPayload::UnlockConnector(UnlockConnectorKind::Request(_)) => PayloadKind::Request,
            OcppPayload::UnlockConnector(UnlockConnectorKind::Response(_)) => PayloadKind::Response,
        }
    }

    /// The document that the payload holds.
    pub open spec fn spec_body(&self) -> Json {
        match self {
            OcppPayload::Authorize(AuthorizeKind::Request(body)) => *body,
            OcppPayload::Authorize(AuthorizeKind::Response(body)) => *body,
            OcppPayload::BootNotification(BootNotificationKind::Request(body)) => *body,
            OcppPayload::BootNotification(BootNotificationKind::Response(body)) => *body,
            OcppPayload::ChangeAvailability(ChangeAvailabilityKind::Request(body)) => *body,
            OcppPayload::ChangeAvailability(ChangeAvailabilityKind::Response(body)) => *body,
            OcppPayload::ChangeConfiguration(ChangeConfigurationKind::Request(body)) => *body,
            OcppPayload::ChangeConfiguration(ChangeConfigurationKind::Response(body)) => *body,
            OcppPayload::ClearCache(ClearCacheKind::Request(body)) => *body,
            OcppPayload::ClearCache(ClearCacheKind::Response(body)) => *body,
            OcppPayload::DataTransfer(DataTransferKind::Request(body)) => *body,
            OcppPayload::DataTransfer(DataTransferKind::Response(body)) => *body,
            OcppPayload::GetConfiguration(GetConfigurationKind::Request(body)) => *body,
            OcppPayload::GetConfiguration(GetConfigurationKind::Response(body)) => *body,
            OcppPayload::Heartbeat(HeartbeatKind::Request(body)) => *body,
            OcppPayload::Heartbeat(HeartbeatKind::Response(body)) => *body,
            OcppPayload::MeterValues(MeterValuesKind::Request(body)) => *body,
            OcppPayload::MeterValues(MeterValuesKind::Response(body)) => *body,
            OcppPayload::RemoteStartTransaction(RemoteStartTransactionKind::Request(body)) => *body,
            OcppPayload::RemoteStartTransaction(RemoteStartTransactionKind::Response(body)) => *body,
            OcppPayload::RemoteStopTransaction(RemoteStopTransactionKind::Request(body)) => *body,
            OcppPayload::RemoteStopTransaction(RemoteStopTransactionKind::Response(body)) => *body,
            OcppPayload::Reset(ResetKind::Request(body)) => *body,
            OcppPayload::Reset(ResetKind::Response(body)) => *body,
            OcppPayload::StartTransaction(StartTransactionKind::Request(body)) => *body,
            OcppPayload::StartTransaction(StartTransactionKind::Response(body)) => *body,
            OcppPayload::StatusNotification(StatusNotificationKind::Request(body)) => *body,
            OcppPayload::StatusNotification(StatusNotificationKind::Response(body)) => *body,
            OcppPayload::StopTransaction(StopTransactionKind::Request(body)) => *body,
            OcppPayload::StopTransaction(StopTransactionKind::Response(body)) => *body,
            OcppPayload::UnlockConnector(UnlockConnectorKind::Request(body)) => *body,
            OcppPayload::UnlockConnector(UnlockConnectorKind::Response(body)) => *body,
        }
    }

    /// The action that the payload belongs to.
    #[verifier::when_used_as_spec(spec_action)]
    pub fn action(&self) -> (action: OcppActionEnum)
        ensures
            action == self.spec_action(),
    {
        match self {
            OcppPayload::Authorize(_) => OcppActionEnum::Authorize,
            OcppPayload::BootNotification(_) => OcppActionEnum::BootNotification,
            OcppPayload::ChangeAvailability(_) => OcppActionEnum::ChangeAvailability,
            OcppPayload::ChangeConfiguration(_) => OcppActionEnum::ChangeConfiguration,
            OcppPayload::ClearCache(_) => OcppActionEnum::ClearCache,
            OcppPayload::DataTransfer(_) => OcppActionEnum::DataTransfer,
            OcppPayload::GetConfiguration(_) => OcppActionEnum::GetConfiguration,
            OcppPayload::Heartbeat(_) => OcppActionEnum::Heartbeat,
            OcppPayload::MeterValues(_) => OcppActionEnum::MeterValues,
            OcppPayload::RemoteStartTransaction(_) => OcppActionEnum::RemoteStartTransaction,
            OcppPayload::RemoteStopTransaction(_) => OcppActionEnum::RemoteStopTransaction,
            OcppPayload::Reset(_) => OcppActionEnum::Reset,
            OcppPayload::StartTransaction(_) => OcppActionEnum::StartTransaction,
            OcppPayload::StatusNotification(_) => OcppActionEnum::StatusNotification,
            OcppPayload::StopTransaction(_) => OcppActionEnum::StopTransaction,
            OcppPayload::UnlockConnector(_) => OcppActionEnum::UnlockConnector,
        }
    }

    /// The side of the exchange that the payload belongs to.
    #[verifier::when_used_as_spec(spec_kind)]
    pub fn kind(&self) -> (kind: PayloadKind)
        ensures
            kind == self.spec_kind(),
    {
        match self {
            OcppPayload::Authorize(AuthorizeKind::Request(_)) => PayloadKind::Request,
            OcppPayload::Authorize(AuthorizeKind::Response(_)) => PayloadKind::Response,
            OcppPayload::BootNotification(BootNotificationKind::Request(_)) => PayloadKind::Request,
            OcppPayload::BootNotification(BootNotificationKind::Response(_)) => PayloadKind::Response,
            OcppPayload::ChangeAvailability(ChangeAvailabilityKind::Request(_)) => PayloadKind::Request,
            OcppPayload::ChangeAvailability(ChangeAvailabilityKind::Response(_)) => PayloadKind::Response,
            OcppPayload::ChangeConfiguration(ChangeConfigurationKind::Request(_)) => PayloadKind::Request,
            OcppPayload::ChangeConfiguration(ChangeConfigurationKind::Response(_)) => PayloadKind::Response,
            OcppPayload::ClearCache(ClearCacheKind::Request(_)) => PayloadKind::Request,
            OcppPayload::ClearCache(ClearCacheKind::Response(_)) => PayloadKind::Response,
            OcppPayload::DataTransfer(DataTransferKind::Request(_)) => PayloadKind::Request,
            OcppPayload::DataTransfer(DataTransferKind::Response(_)) => PayloadKind::Response,
            OcppPayload::GetConfiguration(GetConfigurationKind::Request(_)) => PayloadKind::Request,
            OcppPayload::GetConfiguration(GetConfigurationKind::Response(_)) => PayloadKind::Response,
            OcppPayload::Heartbeat(HeartbeatKind::Request(_)) => PayloadKind::Request,
            OcppPayload::Heartbeat(HeartbeatKind::Response(_)) => PayloadKind::Response,
            OcppPayload::MeterValues(MeterValuesKind::Request(_)) => PayloadKind::Request,
            OcppPayload::MeterValues(MeterValuesKind::Response(_)) => PayloadKind::Response,
            OcppPayload::RemoteStartTransaction(RemoteStartTransactionKind::Request(_)) => PayloadKind::Request,
            OcppPayload::RemoteStartTransaction(RemoteStartTransactionKind::Response(_)) => PayloadKind::Response,
            OcppPayload::RemoteStopTransaction(RemoteStopTransactionKind::Request(_)) => PayloadKind::Request,
            OcppPayload::RemoteStopTransaction(RemoteStopTransactionKind::Response(_)) => PayloadKind::Response,
            OcppPayload::Reset(ResetKind::Request(_)) => PayloadKind::Request,
            OcppPayload::Reset(ResetKind::Response(_)) => PayloadKind::Response,
            OcppPayload::StartTransaction(StartTransactionKind::Request(_)) => PayloadKind::Request,
            OcppPayload::StartTransaction(StartTransactionKind::Response(_)) => PayloadKind::Response,
            OcppPayload::StatusNotification(StatusNotificationKind::Request(_)) => PayloadKind::Request,
            OcppPayload::StatusNotification(StatusNotificationKind::Response(_)) => PayloadKind::Response,
            OcppPayload::StopTransaction(StopTransactionKind::Request(_)) => PayloadKind::Request,
            OcppPayload::StopTransaction(StopTransactionKind::Response(_)) => PayloadKind::Response,
            OcppPayload::UnlockConnector(UnlockConnectorKind::Request(_)) => PayloadKind::Request,
            OcppPayload::UnlockConnector(UnlockConnectorKind::Response(_)) => PayloadKind::Response,
        }
    }

    /// The document that the payload holds.
    pub fn body(&self) -> (body: &Json)
        ensures
            *body == self.spec_body(),
    {
        match self {
            OcppPayload::Authorize(AuthorizeKind::Request(body)) => body,
            OcppPayload::Authorize(AuthorizeKind::Response(body)) => body,
            OcppPayload::BootNotification(BootNotificationKind::Request(body)) => body,
            OcppPayload::BootNotification(BootNotificationKind::Response(body)) => body,
            OcppPayload::ChangeAvailability(ChangeAvailabilityKind::Request(body)) => body,
            OcppPayload::ChangeAvailability(ChangeAvailabilityKind::Response(body)) => body,
            OcppPayload::ChangeConfiguration(ChangeConfigurationKind::Request(body)) => body,
            OcppPayload::ChangeConfiguration(ChangeConfigurationKind::Response(body)) => body,
            OcppPayload::ClearCache(ClearCacheKind::Request(body)) => body,
            OcppPayload::ClearCache(ClearCacheKind::Response(body)) => body,
            OcppPayload::DataTransfer(DataTransferKind::Request(body)) => body,
            OcppPayload::DataTransfer(DataTransferKind::Response(body)) => body,
            OcppPayload::GetConfiguration(GetConfigurationKind::Request(body)) => body,
            OcppPayload::GetConfiguration(GetConfigurationKind::Response(body)) => body,
            OcppPayload::Heartbeat(HeartbeatKind::Request(body)) => body,
            OcppPayload::Heartbeat(HeartbeatKind::Response(body)) => body,
            OcppPayload::MeterValues(MeterValuesKind::Request(body)) => body,
            OcppPayload::MeterValues(MeterValuesKind::Response(body)) => body,
            OcppPayload::RemoteStartTransaction(RemoteStartTransactionKind::Request(body)) => body,
            OcppPayload::RemoteStartTransaction(RemoteStartTransactionKind::Response(body)) => body,
            OcppPayload::RemoteStopTransaction(RemoteStopTransactionKind::Request(body)) => body,
            OcppPayload::RemoteStopTransaction(RemoteStopTransactionKind::Response(body)) => body,
            OcppPayload::Reset(ResetKind::Request(body)) => body,
            OcppPayload::Reset(ResetKind::Response(body)) => body,
            OcppPayload::StartTransaction(StartTransactionKind::Request(body)) => body,
            OcppPayload::StartTransaction(StartTransactionKind::Response(body)) => body,
            OcppPayload::StatusNotification(StatusNotificationKind::Request(body)) => body,
            OcppPayload::StatusNotification(StatusNotificationKind::Response(body)) => body,
            OcppPayload::StopTransaction(StopTransactionKind::Request(body)) => body,
            OcppPayload::StopTransaction(StopTransactionKind::Response(body)) => body,
            OcppPayload::UnlockConnector(UnlockConnectorKind::Request(body)) => body,
            OcppPayload::UnlockConnector(UnlockConnectorKind::Response(body)) => body,
        }
    }

    /// Gives up the document that the payload holds.
    pub fn into_body(self) -> (body: Json)
        ensures
            body == self.spec_body(),
    {
        match self {
            OcppPayload::Authorize(AuthorizeKind::Request(body)) => body,
            OcppPayload::Authorize(AuthorizeKind::Response(body)) => body,
            OcppPayload::BootNotification(BootNotificationKind::Request(body)) => body,
            OcppPayload::BootNotification(BootNotificationKind::Response(body)) => body,
            OcppPayload::ChangeAvailability(ChangeAvailabilityKind::Request(body)) => body,
            OcppPayload::ChangeAvailability(ChangeAvailabilityKind::Response(body)) => body,
            OcppPayload::ChangeConfiguration(ChangeConfigurationKind::Request(body)) => body,
            OcppPayload::ChangeConfiguration(ChangeConfigurationKind::Response(body)) => body,
            OcppPayload::ClearCache(ClearCacheKind::Request(body)) => body,
            OcppPayload::ClearCache(ClearCacheKind::Response(body)) => body,
            OcppPayload::DataTransfer(DataTransferKind::Request(body)) => body,
            OcppPayload::DataTransfer(DataTransferKind::Response(body)) => body,
            OcppPayload::GetConfiguration(GetConfigurationKind::Request(body)) => body,
            OcppPayload::GetConfiguration(GetConfigurationKind::Response(body)) => body,
            OcppPayload::Heartbeat(HeartbeatKind::Request(body)) => body,
            OcppPayload::Heartbeat(HeartbeatKind::Response(body)) => body,
            OcppPayload::MeterValues(MeterValuesKind::Request(body)) => body,
            OcppPayload::MeterValues(MeterValuesKind::Response(body)) => body,
            OcppPayload::RemoteStartTransaction(RemoteStartTransactionKind::Request(body)) => body,
            OcppPayload::RemoteStartTransaction(RemoteStartTransactionKind::Response(body)) => body,
            OcppPayload::RemoteStopTransaction(RemoteStopTransactionKind::Request(body)) => body,
            OcppPayload::RemoteStopTransaction(RemoteStopTransactionKind::Response(body)) => body,
            OcppPayload::Reset(ResetKind::Request(body)) => body,
            OcppPayload::Reset(ResetKind::Response(body)) => body,
            OcppPayload::StartTransaction(StartTransactionKind::Request(body)) => body,
            OcppPayload::StartTransaction(StartTransactionKind::Response(body)) => body,
            OcppPayload::StatusNotification(StatusNotificationKind::Request(body)) => body,
            OcppPayload::StatusNotification(StatusNotificationKind::Response(body)) => body,
            OcppPayload::StopTransaction(StopTransactionKind::Request(body)) => body,
            OcppPayload::StopTransaction(StopTransactionKind::Response(body)) => body,
            OcppPayload::UnlockConnector(UnlockConnectorKind::Request(body)) => body,
            OcppPayload::UnlockConnector(UnlockConnectorKind::Response(body)) => body,
        }
    }

    /// Tags a document as a payload of an action. Nothing is checked here:
    /// [`validate`] is the way to a payload that has its action's shape.
    pub fn tagged(action: OcppActionEnum, kind: PayloadKind, body: Json) -> (payload: OcppPayload)
        ensures
            payload.spec_action() == action,
            payload.spec_kind() == kind,
            payload.spec_body() == body,
    {
        match (action, kind) {
            (OcppActionEnum::Authorize, PayloadKind::Request) => OcppPayload::Authorize(
                AuthorizeKind::Request(body),
            ),
            (OcppActionEnum::Authorize, PayloadKind::Response) => OcppPayload::Authorize(
                AuthorizeKind::Response(body),
            ),
            (OcppActionEnum::BootNotification, PayloadKind::Request) => OcppPayload::BootNotification(
                BootNotificationKind::Request(body),
            ),
            (OcppActionEnum::BootNotification, PayloadKind::Response) => OcppPayload::BootNotification(
                BootNotificationKind::Response(body),
            ),
            (OcppActionEnum::ChangeAvailability, PayloadKind::Request) => OcppPayload::ChangeAvailability(
                ChangeAvailabilityKind::Request(body),
            ),
            (OcppActionEnum::ChangeAvailability, PayloadKind::Response) => OcppPayload::ChangeAvailability(
                ChangeAvailabilityKind::Response(body),
            ),
            (OcppActionEnum::ChangeConfiguration, PayloadKind::Request) => OcppPayload::ChangeConfiguration(
                ChangeConfigurationKind::Request(body),
            ),
            (OcppActionEnum::ChangeConfiguration, PayloadKind::Response) => OcppPayload::ChangeConfiguration(
                ChangeConfigurationKind::Response(body),
            ),
            (OcppActionEnum::ClearCache, PayloadKind::Request) => OcppPayload::ClearCache(
                ClearCacheKind::Request(body),
            ),
            (OcppActionEnum::ClearCache, PayloadKind::Response) => OcppPayload::ClearCache(
                ClearCacheKind::Response(body),
            ),
            (OcppActionEnum::DataTransfer, PayloadKind::Request) => OcppPayload::DataTransfer(
                DataTransferKind::Request(body),
            ),
            (OcppActionEnum::DataTransfer, PayloadKind::Response) => OcppPayload::DataTransfer(
                DataTransferKind::Response(body),
            ),
            (OcppActionEnum::GetConfiguration, PayloadKind::Request) => OcppPayload::GetConfiguration(
                GetConfigurationKind::Request(body),
            ),
            (OcppActionEnum::GetConfiguration, PayloadKind::Response) => OcppPayload::GetConfiguration(
                GetConfigurationKind::Response(body),
            ),
            (OcppActionEnum::Heartbeat, PayloadKind::Request) => OcppPayload::Heartbeat(
                HeartbeatKind::Request(body),
            ),
            (OcppActionEnum::Heartbeat, PayloadKind::Response) => OcppPayload::Heartbeat(
                HeartbeatKind::Response(body),
            ),
            (OcppActionEnum::MeterValues, PayloadKind::Request) => OcppPayload::MeterValues(
                MeterValuesKind::Request(body),
            ),
            (OcppActionEnum::MeterValues, PayloadKind::Response) => OcppPayload::MeterValues(
                MeterValuesKind::Response(body),
            ),
            (OcppActionEnum::RemoteStartTransaction, PayloadKind::Request) => OcppPayload::RemoteStartTransaction(
                RemoteStartTransactionKind::Request(body),
            ),
            (OcppActionEnum::RemoteStartTransaction, PayloadKind::Response) => OcppPayload::RemoteStartTransaction(
                RemoteStartTransactionKind::Response(body),
            ),
            (OcppActionEnum::RemoteStopTransaction, PayloadKind::Request) => OcppPayload::RemoteStopTransaction(
                RemoteStopTransactionKind::Request(body),
            ),
            (OcppActionEnum::RemoteStopTransaction, PayloadKind::Response) => OcppPayload::RemoteStopTransaction(
                RemoteStopTransactionKind::Response(body),
            ),
            (OcppActionEnum::Reset, PayloadKind::Request) => OcppPayload::Reset(
                ResetKind::Request(body),
            ),
            (OcppActionEnum::Reset, PayloadKind::Response) => OcppPayload::Reset(
                ResetKind::Response(body),
            ),
            (OcppActionEnum::StartTransaction, PayloadKind::Request) => OcppPayload::StartTransaction(
                StartTransactionKind::Request(body),
            ),
            (OcppActionEnum::StartTransaction, PayloadKind::Response) => OcppPayload::StartTransaction(
                StartTransactionKind::Response(body),
            ),
            (OcppActionEnum::StatusNotification, PayloadKind::Request) => OcppPayload::StatusNotification(
                StatusNotificationKind::Request(body),
            ),
            (OcppActionEnum::StatusNotification, PayloadKind::Response) => OcppPayload::StatusNotification(
                StatusNotificationKind::Response(body),
            ),
            (OcppActionEnum::StopTransaction, PayloadKind::Request) => OcppPayload::StopTransaction(
                StopTransactionKind::Request(body),
            ),
            (OcppActionEnum::StopTransaction, PayloadKind::Response) => OcppPayload::StopTransaction(
                StopTransactionKind::Response(body),
            ),
            (OcppActionEnum::UnlockConnector, PayloadKind::Request) => OcppPayload::UnlockConnector(
                UnlockConnectorKind::Request(body),
            ),
            (OcppActionEnum::UnlockConnector, PayloadKind::Response) => OcppPayload::UnlockConnector(
                UnlockConnectorKind::Response(body),
            ),
        }
    }
}

impl View for OcppPayload {
    type V = PayloadView;

    open spec fn view(&self) -> PayloadView {
        PayloadView { action: self.spec_action(), kind: self.spec_kind(), body: self.spec_body()@ }
    }
}

/// Why a payload does not have the shape of its action.
#[derive(Clone, Debug, PartialEq, Eq)]
pub enum ValidationError {
    /// The member `field` is missing, has the wrong JSON type, or is not a
    /// member of the shape; `expected` names what the shape asks for there.
    /// For a payload that is no object, `field` is empty.
    SchemaMismatch { field: String, expected: String },
}

/// A schema mismatch as a mathematical value.
pub struct MismatchView {
    pub field: Seq<char>,
    pub expected: Seq<char>,
}

impl View for ValidationError {
    type V = MismatchView;

    open spec fn view(&self) -> MismatchView {
        match self {
            ValidationError::SchemaMismatch { field, expected } => MismatchView {
                field: field@,
                expected: expected@,
            },
        }
    }
}

/// The name of a JSON type in a schema mismatch.
pub open spec fn kind_name(kind: FieldKind) -> Seq<char> {
    match kind {
        FieldKind::Boolean => "boolean"@,
        FieldKind::Integer => "integer"@,
        FieldKind::Text => "string"@,
        FieldKind::List => "array"@,
        FieldKind::Object => "object"@,
    }
}

/// What a schema mismatch expects of a member that the shape does not have.
pub open spec fn nothing_expected() -> Seq<char> {
    "no such member"@
}

/// Tells whether a document has the JSON type that a member must have.
pub open spec fn kind_matches(value: JsonValue, kind: FieldKind) -> bool {
    match kind {
        FieldKind::Boolean => value is Bool,
        FieldKind::Integer => value matches JsonValue::Number(text) && is_integer_literal(text),
        FieldKind::Text => value is Str,
        FieldKind::List => value is Array,
        FieldKind::Object => value is Object,
    }
}

/// Tells whether the shape has a member of the given name.
pub open spec fn has_rule(rules: Seq<FieldRule>, name: Seq<char>) -> bool {
    exists|i: int| 0 <= i < rules.len() && (#[trigger] rules[i]).name == name
}

/// Tells whether the shape has a member of the given name whose type the
/// value has.
pub open spec fn member_conforms(rules: Seq<FieldRule>, name: Seq<char>, value: JsonValue) -> bool {
    exists|i: int|
        0 <= i < rules.len() && (#[trigger] rules[i]).name == name && kind_matches(
            value,
            rules[i].kind,
        )
}

/// Tells whether a payload has a shape: it is an object, every required
/// member of the shape is there, and every member it has is a member of
/// the shape with the type asked for. The shape is closed.
pub open spec fn conforms(value: JsonValue, rules: Seq<FieldRule>) -> bool {
    &&& value matches JsonValue::Object(members)
    &&& forall|i: int|
        0 <= i < rules.len() && (#[trigger] rules[i]).required ==> has_member(
            members,
            rules[i].name,
        )
    &&& forall|k: int|
        0 <= k < members.len() ==> member_conforms(
            rules,
            (#[trigger] members[k]).0,
            members[k].1,
        )
}

/// Tells whether `field` and `expected` report a true fault of the payload
/// against the shape: a payload that is no object; a required member that
/// is missing; a member of the wrong type; or a member that the shape does
/// not have.
pub open spec fn is_violation(
    value: JsonValue,
    rules: Seq<FieldRule>,
    field: Seq<char>,
    expected: Seq<char>,
) -> bool {
    match value {
        JsonValue::Object(members) => {
            ||| exists|i: int|
                0 <= i < rules.len() && (#[trigger] rules[i]).required && rules[i].name == field
                    && !has_member(members, field) && expected == kind_name(rules[i].kind)
            ||| exists|k: int, i: int|
                0 <= k < members.len() && (#[trigger] members[k]).0 == field && !member_conforms(
                    rules,
                    field,
                    members[k].1,
                ) && 0 <= i < rules.len() && (#[trigger] rules[i]).name == field && expected
                    == kind_name(rules[i].kind)
            ||| exists|k: int|
                0 <= k < members.len() && (#[trigger] members[k]).0 == field && !has_rule(
                    rules,
                    field,
                ) && expected == nothing_expected()
        },
        _ => field.len() == 0 && expected == kind_name(FieldKind::Object),
    }
}

/// Tells whether the member at the place `i` of the shape is the first
/// with the given name.
pub open spec fn is_first_rule(rules: Seq<FieldRule>, name: Seq<char>, i: int) -> bool {
    &&& 0 <= i < rules.len()
    &&& rules[i].name == name
    &&& forall|j: int| 0 <= j < i ==> (#[trigger] rules[j]).name != name
}

/// What is wrong with one member of a payload, in the words of a schema
/// mismatch: nothing where the shape has a member of its name whose type
/// the value has; the type of the shape's first member of that name where
/// the value has the type of none; and that there is no such member
/// where the shape has none of that name.
pub open spec fn member_fault(rules: Seq<FieldRule>, name: Seq<char>, value: JsonValue) -> Option<
    Seq<char>,
> {
    if member_conforms(rules, name, value) {
        None
    } else if has_rule(rules, name) {
        Some(kind_name(rules[choose|i: int| is_first_rule(rules, name, i)].kind))
    } else {
        Some(nothing_expected())
    }
}

/// Tells whether the member at the place `k` of a payload is the first
/// with which something is wrong.
pub open spec fn is_first_faulty(
    members: Seq<(Seq<char>, JsonValue)>,
    rules: Seq<FieldRule>,
    k: int,
) -> bool {
    &&& 0 <= k < members.len()
    &&& member_fault(rules, members[k].0, members[k].1) is Some
    &&& forall|j: int|
        0 <= j < k ==> member_fault(rules, (#[trigger] members[j]).0, members[j].1) is None
}

/// Tells whether a member of the shape is required and missing from a
/// payload.
pub open spec fn is_missing(members: Seq<(Seq<char>, JsonValue)>, rule: FieldRule) -> bool {
    rule.required && !has_member(members, rule.name)
}

/// Tells whether the member at the place `i` of the shape is the first
/// that is required and missing from a payload.
pub open spec fn is_first_missing(
    members: Seq<(Seq<char>, JsonValue)>,
    rules: Seq<FieldRule>,
    i: int,
) -> bool {
    &&& 0 <= i < rules.len()
    &&& is_missing(members, rules[i])
    &&& forall|j: int| 0 <= j < i ==> !is_missing(members, #[trigger] rules[j])
}

/// The fault that validation reports of a payload against a shape, or
/// nothing where the payload has the shape. A payload that is no object
/// is reported as such, with no member named. Otherwise the first member
/// of the payload with which something is wrong is reported; and where
/// there is none, the first member of the shape that is required and
/// missing.
pub open spec fn first_fault(value: JsonValue, rules: Seq<FieldRule>) -> Option<MismatchView> {
    match value {
        JsonValue::Object(members) => {
            if exists|k: int| is_first_faulty(members, rules, k) {
                let k = choose|k: int| is_first_faulty(members, rules, k);
                Some(
                    MismatchView {
                        field: members[k].0,
                        expected: member_fault(rules, members[k].0, members[k].1)->Some_0,
                    },
                )
            } else if exists|i: int| is_first_missing(members, rules, i) {
                let i = choose|i: int| is_first_missing(members, rules, i);
                Some(MismatchView { field: rules[i].name, expected: kind_name(rules[i].kind) })
            } else {
                None
            }
        },
        _ => Some(MismatchView { field: Seq::empty(), expected: kind_name(FieldKind::Object) }),
    }
}

/// Where something is wrong with some member up to the place `k`, some
/// member is the first with which something is wrong.
proof fn lemma_some_member_is_first_faulty(
    members: Seq<(Seq<char>, JsonValue)>,
    rules: Seq<FieldRule>,
    k: int,
)
    requires
        0 <= k < members.len(),
        member_fault(rules, members[k].0, members[k].1) is Some,
    ensures
        exists|first: int| is_first_faulty(members, rules, first),
    decreases k,
{
    if exists|j: int| 0 <= j < k && member_fault(rules, members[j].0, members[j].1) is Some {
        let j = choose|j: int|
            0 <= j < k && member_fault(rules, members[j].0, members[j].1) is Some;
        lemma_some_member_is_first_faulty(members, rules, j);
    } else {
        assert(is_first_faulty(members, rules, k));
    }
}

/// Where some member of the shape up to the place `i` is required and
/// missing, some member is the first that is.
proof fn lemma_some_rule_is_first_missing(
    members: Seq<(Seq<char>, JsonValue)>,
    rules: Seq<FieldRule>,
    i: int,
)
    requires
        0 <= i < rules.len(),
        is_missing(members, rules[i]),
    ensures
        exists|first: int| is_first_missing(members, rules, first),
    decreases i,
{
    if exists|j: int| 0 <= j < i && is_missing(members, rules[j]) {
        let j = choose|j: int| 0 <= j < i && is_missing(members, rules[j]);
        lemma_some_rule_is_first_missing(members, rules, j);
    } else {
        assert(is_first_missing(members, rules, i));
    }
}

/// Validation reports nothing exactly of the payloads that have the
/// shape, and what it reports is a fault that the payload truly has.
pub proof fn lemma_first_fault(value: JsonValue, rules: Seq<FieldRule>)
    ensures
        first_fault(value, rules) is None <==> conforms(value, rules),
        first_fault(value, rules) matches Some(fault) ==> is_violation(
            value,
            rules,
            fault.field,
            fault.expected,
        ),
{
    if value is Object {
        let members = value->Object_0;
        if exists|k: int| is_first_faulty(members, rules, k) {
            let k = choose|k: int| is_first_faulty(members, rules, k);
            let name = members[k].0;
            assert(!member_conforms(rules, members[k].0, members[k].1));
            if has_rule(rules, name) {
                let at = choose|i: int| 0 <= i < rules.len() && (#[trigger] rules[i]).name == name;
                lemma_some_rule_is_first(rules, name, at);
                let i = choose|i: int| is_first_rule(rules, name, i);
                assert(rules[i].name == name);
            }
        } else if exists|i: int| is_first_missing(members, rules, i) {
            let i = choose|i: int| is_first_missing(members, rules, i);
            assert(rules[i].required && !has_member(members, rules[i].name));
        } else {
            assert forall|k: int| 0 <= k < members.len() implies member_conforms(
                rules,
                (#[trigger] members[k]).0,
                members[k].1,
            ) by {
                if member_fault(rules, members[k].0, members[k].1) is Some {
                    lemma_some_member_is_first_faulty(members, rules, k);
                }
            }
            assert forall|i: int| 0 <= i < rules.len() && (#[trigger] rules[i]).required implies has_member(
                members,
                rules[i].name,
            ) by {
                if is_missing(members, rules[i]) {
                    lemma_some_rule_is_first_missing(members, rules, i);
                }
            }
        }
    }
}

/// Where the shape has a member of a name up to the place `i`, some
/// member is the first of that name.
proof fn lemma_some_rule_is_first(rules: Seq<FieldRule>, name: Seq<char>, i: int)
    requires
        0 <= i < rules.len(),
        rules[i].name == name,
    ensures
        exists|first: int| is_first_rule(rules, name, first),
    decreases i,
{
    if exists|j: int| 0 <= j < i && (#[trigger] rules[j]).name == name {
        let j = choose|j: int| 0 <= j < i && (#[trigger] rules[j]).name == name;
        lemma_some_rule_is_first(rules, name, j);
    } else {
        assert(is_first_rule(rules, name, i));
    }
}

/// The name of a JSON type in a schema mismatch.
fn kind_name_of(kind: FieldKind) -> (name: String)
    ensures
        name@ == kind_name(kind),
{
    match kind {
        FieldKind::Boolean => "boolean".to_owned(),
        FieldKind::Integer => "integer".to_owned(),
        FieldKind::Text => "string".to_owned(),
        FieldKind::List => "array".to_owned(),
        FieldKind::Object => "object".to_owned(),
    }
}

/// Tells whether a document has the JSON type that a member must have.
pub fn has_kind(value: &Json, kind: FieldKind) -> (matches: bool)
    ensures
        matches == kind_matches(value@, kind),
{
    match kind {
        FieldKind::Boolean => match value {
            Json::Bool(_) => true,
            _ => false,
        },
        FieldKind::Integer => match value {
            Json::Number(text) => is_integer_text(text.as_str()),
            _ => false,
        },
        FieldKind::Text => match value {
            Json::Str(_) => true,
            _ => false,
        },
        FieldKind::List => match value {
            Json::Array(_) => true,
            _ => false,
        },
        FieldKind::Object => match value {
            Json::Object(_) => true,
            _ => false,
        },
    }
}

/// How one member of a payload stands against a shape.
enum MemberCheck {
    /// The shape has a member of that name and the value has its type.
    Conforms,
    /// The shape has members of that name, the first at the index given,
    /// and the value has the type of none of them.
    WrongKind(usize),
    /// The shape has no member of that name.
    Unknown,
}

/// Holds one member of a payload against a shape.
fn check_member(rules: &Vec<FieldSpec>, name: &str, value: &Json) -> (check: MemberCheck)
    ensures
        check is Conforms == member_conforms(rules_view(rules@), name@, value@),
        check is Unknown == !has_rule(rules_view(rules@), name@),
        check matches MemberCheck::WrongKind(i) ==> is_first_rule(
            rules_view(rules@),
            name@,
            i as int,
        ),
{
    let mut first: Option<usize> = None;
    let mut i: usize = 0;
    while i < rules.len()
        invariant
            i <= rules.len(),
            first matches Some(f) ==> f < i && rules[f as int]@.name == name@ && forall|k: int|
                0 <= k < f ==> rules[k]@.name != name@,
            first is None ==> forall|k: int| 0 <= k < i ==> rules[k]@.name != name@,
            forall|k: int|
                0 <= k < i ==> !(rules[k]@.name == name@ && kind_matches(value@, rules[k]@.kind)),
        decreases rules.len() - i,
    {
        if str_eq(rules[i].name, name) {
            if has_kind(value, rules[i].kind) {
                assert(rules_view(rules@)[i as int] == rules[i as int]@);
                return MemberCheck::Conforms;
            }
            if first.is_none() {
                first = Some(i);
            }
        }
        i = i + 1;
    }
    assert forall|k: int| 0 <= k < rules.len() implies rules_view(rules@)[k] == rules[k]@ by {}
    match first {
        Some(f) => {
            assert(rules_view(rules@)[f as int].name == name@);
            MemberCheck::WrongKind(f)
        },
        None => MemberCheck::Unknown,
    }
}

/// The shape that a registry entry gives to one side of its exchange.
pub open spec fn rules_of(spec: ActionSpec, kind: PayloadKind) -> Seq<FieldRule> {
    match kind {
        PayloadKind::Request => rules_view(spec.request@),
        PayloadKind::Response => rules_view(spec.response@),
    }
}

/// The first member of the shape with a given name is one member only.
proof fn lemma_first_rule_is_one(rules: Seq<FieldRule>, name: Seq<char>, i: int)
    requires
        is_first_rule(rules, name, i),
    ensures
        (choose|first: int| is_first_rule(rules, name, first)) == i,
{
    let first = choose|first: int| is_first_rule(rules, name, first);
    if first < i {
        assert(rules[first].name != name);
    } else if i < first {
        assert(rules[i].name != name);
    }
}

/// The first member of a payload with which something is wrong is one
/// member only.
proof fn lemma_first_faulty_is_one(
    members: Seq<(Seq<char>, JsonValue)>,
    rules: Seq<FieldRule>,
    k: int,
)
    requires
        is_first_faulty(members, rules, k),
    ensures
        (choose|first: int| is_first_faulty(members, rules, first)) == k,
{
    let first = choose|first: int| is_first_faulty(members, rules, first);
    if first < k {
        assert(member_fault(rules, members[first].0, members[first].1) is None);
    } else if k < first {
        assert(member_fault(rules, members[k].0, members[k].1) is None);
    }
}

/// The first member of the shape that is required and missing is one
/// member only.
proof fn lemma_first_missing_is_one(
    members: Seq<(Seq<char>, JsonValue)>,
    rules: Seq<FieldRule>,
    i: int,
)
    requires
        is_first_missing(members, rules, i),
    ensures
        (choose|first: int| is_first_missing(members, rules, first)) == i,
{
    let first = choose|first: int| is_first_missing(members, rules, first);
    if first < i {
        assert(!is_missing(members, rules[first]));
    } else if i < first {
        assert(!is_missing(members, rules[i]));
    }
}

/// Holds a document against a shape. `Ok` exactly where the document has
/// the shape; otherwise the first fault of the document against it.
pub fn check_shape(value: &Json, rules: &Vec<FieldSpec>) -> (checked: Result<(), ValidationError>)
    ensures
        checked is Ok == conforms(value@, rules_view(rules@)),
        checked is Ok == first_fault(value@, rules_view(rules@)) is None,
        checked matches Err(error) ==> first_fault(value@, rules_view(rules@)) == Some(error@),
{
    let members = match value {
        Json::Object(members) => members,
        _ => {
            return Err(
                ValidationError::SchemaMismatch {
                    field: String::new(),
                    expected: kind_name_of(FieldKind::Object),
                },
            );
        },
    };
    let ghost shape = rules_view(rules@);
    let ghost all = members_view(members@);
    assert(value@ == JsonValue::Object(all));
    proof {
        lemma_first_fault(value@, shape);
    }
    let mut k: usize = 0;
    while k < members.len()
        invariant
            k <= members.len(),
            shape == rules_view(rules@),
            all == members_view(members@),
            value@ == JsonValue::Object(all),
            forall|j: int| 0 <= j < k ==> member_conforms(shape, (#[trigger] all[j]).0, all[j].1),
        decreases members.len() - k,
    {
        assert(all[k as int] == (members[k as int].0@, members[k as int].1@));
        match check_member(rules, members[k].0.as_str(), &members[k].1) {
            MemberCheck::Conforms => {},
            MemberCheck::WrongKind(i) => {
                assert(shape[i as int] == rules[i as int]@);
                proof {
                    lemma_first_rule_is_one(shape, all[k as int].0, i as int);
                    assert(is_first_faulty(all, shape, k as int));
                    lemma_first_faulty_is_one(all, shape, k as int);
                }
                return Err(
                    ValidationError::SchemaMismatch {
                        field: members[k].0.clone(),
                        expected: kind_name_of(rules[i].kind),
                    },
                );
            },
            MemberCheck::Unknown => {
                proof {
                    assert(is_first_faulty(all, shape, k as int));
                    lemma_first_faulty_is_one(all, shape, k as int);
                }
                return Err(
                    ValidationError::SchemaMismatch {
                        field: members[k].0.clone(),
                        expected: "no such member".to_owned(),
                    },
                );
            },
        }
        k = k + 1;
    }
    let mut i: usize = 0;
    while i < rules.len()
        invariant
            i <= rules.len(),
            shape == rules_view(rules@),
            all == members_view(members@),
            value@ == JsonValue::Object(all),
            forall|j: int|
                0 <= j < all.len() ==> member_conforms(shape, (#[trigger] all[j]).0, all[j].1),
            forall|j: int| 0 <= j < i ==> !is_missing(all, #[trigger] shape[j]),
        decreases rules.len() - i,
    {
        assert(shape[i as int] == rules[i as int]@);
        if rules[i].required && find_member(members, rules[i].name).is_none() {
            proof {
                assert(is_first_missing(all, shape, i as int));
                lemma_first_missing_is_one(all, shape, i as int);
                assert(!exists|k: int| is_first_faulty(all, shape, k));
            }
            return Err(
                ValidationError::SchemaMismatch {
                    field: rules[i].name.to_owned(),
                    expected: kind_name_of(rules[i].kind),
                },
            );
        }
        i = i + 1;
    }
    assert(conforms(value@, shape)) by {
        assert forall|i: int| 0 <= i < shape.len() && (#[trigger] shape[i]).required implies has_member(
            all,
            shape[i].name,
        ) by {
            assert(!is_missing(all, shape[i]));
        }
    }
    Ok(())
}

/// Validates a raw payload as one side of an action's exchange. The shape
/// is chosen by the action, which the caller already knows: from the Call
/// that named it, or from the pending call that a response answers.
///
/// `Ok` exactly where the payload has the shape; the typed payload then
/// holds the document, tagged by the action and the side. Otherwise the
/// error is the first fault of the payload against the shape.
pub fn validate(action: &ActionSpec, kind: PayloadKind, raw: Json) -> (validated: Result<
    OcppPayload,
    ValidationError,
>)
    ensures
        validated is Ok == conforms(raw@, rules_of(*action, kind)),
        validated matches Ok(payload) ==> payload@ == (PayloadView {
            action: action.action,
            kind,
            body: raw@,
        }),
        validated matches Err(error) ==> first_fault(raw@, rules_of(*action, kind)) == Some(
            error@,
        ),
{
    let checked = match kind {
        PayloadKind::Request => check_shape(&raw, &action.request),
        PayloadKind::Response => check_shape(&raw, &action.response),
    };
    match checked {
        Ok(()) => Ok(OcppPayload::tagged(action.action, kind, raw)),
        Err(error) => Err(error),
    }
}

/// Tells whether a fault is one of type: the payload has the member that
/// the fault names, and the shape has a member of that name too. Any other
/// fault is one of form: no object, a member missing, a member that the
/// shape does not have.
pub open spec fn is_type_fault(value: JsonValue, rules: Seq<FieldRule>, field: Seq<char>) -> bool {
    value matches JsonValue::Object(members) && has_member(members, field) && has_rule(
        rules,
        field,
    )
}

/// Tells whether the shape has a member of the given name.
pub fn rule_named(rules: &Vec<FieldSpec>, name: &str) -> (found: bool)
    ensures
        found == has_rule(rules_view(rules@), name@),
{
    let mut i: usize = 0;
    while i < rules.len()
        invariant
            i <= rules.len(),
            forall|k: int| 0 <= k < i ==> rules[k]@.name != name@,
        decreases rules.len() - i,
    {
        if str_eq(rules[i].name, name) {
            assert(rules_view(rules@)[i as int] == rules[i as int]@);
            return true;
        }
        i = i + 1;
    }
    assert forall|k: int| 0 <= k < rules.len() implies (#[trigger] rules_view(rules@)[k]).name
        != name@ by {
        assert(rules[k]@.name != name@);
    }
    false
}

/// Tells whether a fault of a payload against a shape is one of type.
pub fn type_fault(value: &Json, rules: &Vec<FieldSpec>, field: &str) -> (of_type: bool)
    ensures
        of_type == is_type_fault(value@, rules_view(rules@), field@),
{
    match value {
        Json::Object(members) => find_member(members, field).is_some() && rule_named(rules, field),
        _ => false,
    }
}

} // verus!
