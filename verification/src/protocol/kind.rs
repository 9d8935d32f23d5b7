//! The kinds of message, and the numbers that stand for them in a frame.
use crate::protocol::error::{WireError, WireFault};
use vstd::prelude::*;

verus! {

/// The kind of a message.
#[derive(Clone, Copy, Debug, PartialEq, Eq, Structural)]
pub enum MessageKind {
    GetDaemonInfoRequest,
    ShutdownDaemonRequest,
    CreateSessionRequest,
    CreateWorktreeRequest,
    CleanupWorktreeRequest,
    KillSessionRequest,
    AttachSessionRequest,
    AttachInputRequest,
    SendInputRequest,
    DiffSessionRequest,
    GetSessionRequest,
    ListSessionsRequest,
    AppendSessionEventsRequest,
    StreamLogsRequest,
    StreamEventsRequest,
    SwitchAttachedSessionRequest,
    DetachSessionRequest,
    DaemonInfoResponse,
    CreateSessionResponse,
    KillSessionResponse,
    AttachedResponse,
    InputAcceptedResponse,
    WorktreeResponse,
    DiffResponse,
    SessionResponse,
    SessionsResponse,
    EventResponse,
    LogChunkResponse,
    PtyOutputResponse,
    EndOfStreamResponse,
    ErrorResponse,
    OkResponse,
    SwitchSessionResponse,
    SessionEndedResponse,
}

/// The number of a kind.
pub open spec fn kind_code(kind: MessageKind) -> u16 {
    match kind {
        MessageKind::GetDaemonInfoRequest => 1,
        MessageKind::ShutdownDaemonRequest => 2,
        MessageKind::CreateSessionRequest => 3,
        MessageKind::CreateWorktreeRequest => 4,
        MessageKind::CleanupWorktreeRequest => 5,
        MessageKind::KillSessionRequest => 6,
        MessageKind::AttachSessionRequest => 7,
        MessageKind::AttachInputRequest => 8,
        MessageKind::SendInputRequest => 9,
        MessageKind::DiffSessionRequest => 10,
        MessageKind::GetSessionRequest => 11,
        MessageKind::ListSessionsRequest => 12,
        MessageKind::AppendSessionEventsRequest => 13,
        MessageKind::StreamLogsRequest => 14,
        MessageKind::StreamEventsRequest => 15,
        MessageKind::SwitchAttachedSessionRequest => 16,
        MessageKind::DetachSessionRequest => 17,
        MessageKind::DaemonInfoResponse => 101,
        MessageKind::CreateSessionResponse => 102,
        MessageKind::KillSessionResponse => 103,
        MessageKind::AttachedResponse => 104,
        MessageKind::InputAcceptedResponse => 105,
        MessageKind::WorktreeResponse => 106,
        MessageKind::DiffResponse => 107,
        MessageKind::SessionResponse => 108,
        MessageKind::SessionsResponse => 109,
        MessageKind::EventResponse => 110,
        MessageKind::LogChunkResponse => 111,
        MessageKind::PtyOutputResponse => 112,
        MessageKind::EndOfStreamResponse => 113,
        MessageKind::ErrorResponse => 114,
        MessageKind::OkResponse => 115,
        MessageKind::SwitchSessionResponse => 116,
        MessageKind::SessionEndedResponse => 117,
    }
}

/// The name of a kind.
pub open spec fn kind_name(kind: MessageKind) -> Seq<char> {
    match kind {
        MessageKind::GetDaemonInfoRequest => "GetDaemonInfoRequest"@,
        MessageKind::ShutdownDaemonRequest => "ShutdownDaemonRequest"@,
        MessageKind::CreateSessionRequest => "CreateSessionRequest"@,
        MessageKind::CreateWorktreeRequest => "CreateWorktreeRequest"@,
        MessageKind::CleanupWorktreeRequest => "CleanupWorktreeRequest"@,
        MessageKind::KillSessionRequest => "KillSessionRequest"@,
        MessageKind::AttachSessionRequest => "AttachSessionRequest"@,
        MessageKind::AttachInputRequest => "AttachInputRequest"@,
        MessageKind::SendInputRequest => "SendInputRequest"@,
        MessageKind::DiffSessionRequest => "DiffSessionRequest"@,
        MessageKind::GetSessionRequest => "GetSessionRequest"@,
        MessageKind::ListSessionsRequest => "ListSessionsRequest"@,
        MessageKind::AppendSessionEventsRequest => "AppendSessionEventsRequest"@,
        MessageKind::StreamLogsRequest => "StreamLogsRequest"@,
        MessageKind::StreamEventsRequest => "StreamEventsRequest"@,
        MessageKind::SwitchAttachedSessionRequest => "SwitchAttachedSessionRequest"@,
        MessageKind::DetachSessionRequest => "DetachSessionRequest"@,
        MessageKind::DaemonInfoResponse => "DaemonInfoResponse"@,
        MessageKind::CreateSessionResponse => "CreateSessionResponse"@,
        MessageKind::KillSessionResponse => "KillSessionResponse"@,
        MessageKind::AttachedResponse => "AttachedResponse"@,
        MessageKind::InputAcceptedResponse => "InputAcceptedResponse"@,
        MessageKind::WorktreeResponse => "WorktreeResponse"@,
        MessageKind::DiffResponse => "DiffResponse"@,
        MessageKind::SessionResponse => "SessionResponse"@,
        MessageKind::SessionsResponse => "SessionsResponse"@,
        MessageKind::EventResponse => "EventResponse"@,
        MessageKind::LogChunkResponse => "LogChunkResponse"@,
        MessageKind::PtyOutputResponse => "PtyOutputResponse"@,
        MessageKind::EndOfStreamResponse => "EndOfStreamResponse"@,
        MessageKind::ErrorResponse => "ErrorResponse"@,
        MessageKind::OkResponse => "OkResponse"@,
        MessageKind::SwitchSessionResponse => "SwitchSessionResponse"@,
        MessageKind::SessionEndedResponse => "SessionEndedResponse"@,
    }
}

/// The kind that a number stands for, if any.
pub open spec fn code_kind(value: u16) -> Option<MessageKind> {
    match value {
        1 => Some(MessageKind::GetDaemonInfoRequest),
        2 => Some(MessageKind::ShutdownDaemonRequest),
        3 => Some(MessageKind::CreateSessionRequest),
        4 => Some(MessageKind::CreateWorktreeRequest),
        5 => Some(MessageKind::CleanupWorktreeRequest),
        6 => Some(MessageKind::KillSessionRequest),
        7 => Some(MessageKind::AttachSessionRequest),
        8 => Some(MessageKind::AttachInputRequest),
        9 => Some(MessageKind::SendInputRequest),
        10 => Some(MessageKind::DiffSessionRequest),
        11 => Some(MessageKind::GetSessionRequest),
        12 => Some(MessageKind::ListSessionsRequest),
        13 => Some(MessageKind::AppendSessionEventsRequest),
        14 => Some(MessageKind::StreamLogsRequest),
        15 => Some(MessageKind::StreamEventsRequest),
        16 => Some(MessageKind::SwitchAttachedSessionRequest),
        17 => Some(MessageKind::DetachSessionRequest),
        101 => Some(MessageKind::DaemonInfoResponse),
        102 => Some(MessageKind::CreateSessionResponse),
        103 => Some(MessageKind::KillSessionResponse),
        104 => Some(MessageKind::AttachedResponse),
        105 => Some(MessageKind::InputAcceptedResponse),
        106 => Some(MessageKind::WorktreeResponse),
        107 => Some(MessageKind::DiffResponse),
        108 => Some(MessageKind::SessionResponse),
        109 => Some(MessageKind::SessionsResponse),
        110 => Some(MessageKind::EventResponse),
        111 => Some(MessageKind::LogChunkResponse),
        112 => Some(MessageKind::PtyOutputResponse),
        113 => Some(MessageKind::EndOfStreamResponse),
        114 => Some(MessageKind::ErrorResponse),
        115 => Some(MessageKind::OkResponse),
        116 => Some(MessageKind::SwitchSessionResponse),
        117 => Some(MessageKind::SessionEndedResponse),
        _ => None,
    }
}

/// Every kind has a number, no two have the same, and a number leads back to its kind.
pub proof fn kind_codes_are_distinct(a: MessageKind, b: MessageKind)
    ensures
        code_kind(kind_code(a)) == Some(a),
        kind_code(a) == kind_code(b) ==> a == b,
{
}

/// A number that stands for a kind is the number of that kind.
pub proof fn codes_lead_back(value: u16)
    ensures
        code_kind(value) matches Some(kind) ==> kind_code(kind) == value,
{
}

impl MessageKind {
    /// The number of this kind.
    pub fn to_u16(self) -> (r: u16)
        ensures
            r == kind_code(self),
    {
        match self {
            MessageKind::GetDaemonInfoRequest => 1,
            MessageKind::ShutdownDaemonRequest => 2,
            MessageKind::CreateSessionRequest => 3,
            MessageKind::CreateWorktreeRequest => 4,
            MessageKind::CleanupWorktreeRequest => 5,
            MessageKind::KillSessionRequest => 6,
            MessageKind::AttachSessionRequest => 7,
            MessageKind::AttachInputRequest => 8,
            MessageKind::SendInputRequest => 9,
            MessageKind::DiffSessionRequest => 10,
            MessageKind::GetSessionRequest => 11,
            MessageKind::ListSessionsRequest => 12,
            MessageKind::AppendSessionEventsRequest => 13,
            MessageKind::StreamLogsRequest => 14,
            MessageKind::StreamEventsRequest => 15,
            MessageKind::SwitchAttachedSessionRequest => 16,
            MessageKind::DetachSessionRequest => 17,
            MessageKind::DaemonInfoResponse => 101,
            MessageKind::CreateSessionResponse => 102,
            MessageKind::KillSessionResponse => 103,
            MessageKind::AttachedResponse => 104,
            MessageKind::InputAcceptedResponse => 105,
            MessageKind::WorktreeResponse => 106,
            MessageKind::DiffResponse => 107,
            MessageKind::SessionResponse => 108,
            MessageKind::SessionsResponse => 109,
            MessageKind::EventResponse => 110,
            MessageKind::LogChunkResponse => 111,
            MessageKind::PtyOutputResponse => 112,
            MessageKind::EndOfStreamResponse => 113,
            MessageKind::ErrorResponse => 114,
            MessageKind::OkResponse => 115,
            MessageKind::SwitchSessionResponse => 116,
            MessageKind::SessionEndedResponse => 117,
        }
    }

    /// The name of this kind.
    pub fn name(self) -> (r: &'static str)
        ensures
            r@ == kind_name(self),
    {
        match self {
            MessageKind::GetDaemonInfoRequest => "GetDaemonInfoRequest",
            MessageKind::ShutdownDaemonRequest => "ShutdownDaemonRequest",
            MessageKind::CreateSessionRequest => "CreateSessionRequest",
            MessageKind::CreateWorktreeRequest => "CreateWorktreeRequest",
            MessageKind::CleanupWorktreeRequest => "CleanupWorktreeRequest",
            MessageKind::KillSessionRequest => "KillSessionRequest",
            MessageKind::AttachSessionRequest => "AttachSessionRequest",
            MessageKind::AttachInputRequest => "AttachInputRequest",
            MessageKind::SendInputRequest => "SendInputRequest",
            MessageKind::DiffSessionRequest => "DiffSessionRequest",
            MessageKind::GetSessionRequest => "GetSessionRequest",
            MessageKind::ListSessionsRequest => "ListSessionsRequest",
            MessageKind::AppendSessionEventsRequest => "AppendSessionEventsRequest",
            MessageKind::StreamLogsRequest => "StreamLogsRequest",
            MessageKind::StreamEventsRequest => "StreamEventsRequest",
            MessageKind::SwitchAttachedSessionRequest => "SwitchAttachedSessionRequest",
            MessageKind::DetachSessionRequest => "DetachSessionRequest",
            MessageKind::DaemonInfoResponse => "DaemonInfoResponse",
            MessageKind::CreateSessionResponse => "CreateSessionResponse",
            MessageKind::KillSessionResponse => "KillSessionResponse",
            MessageKind::AttachedResponse => "AttachedResponse",
            MessageKind::InputAcceptedResponse => "InputAcceptedResponse",
            MessageKind::WorktreeResponse => "WorktreeResponse",
            MessageKind::DiffResponse => "DiffResponse",
            MessageKind::SessionResponse => "SessionResponse",
            MessageKind::SessionsResponse => "SessionsResponse",
            MessageKind::EventResponse => "EventResponse",
            MessageKind::LogChunkResponse => "LogChunkResponse",
            MessageKind::PtyOutputResponse => "PtyOutputResponse",
            MessageKind::EndOfStreamResponse => "EndOfStreamResponse",
            MessageKind::ErrorResponse => "ErrorResponse",
            MessageKind::OkResponse => "OkResponse",
            MessageKind::SwitchSessionResponse => "SwitchSessionResponse",
            MessageKind::SessionEndedResponse => "SessionEndedResponse",
        }
    }

    /// The kind that a number stands for.
    pub fn from_u16(value: u16) -> (r: Result<MessageKind, WireError>)
        ensures
            match code_kind(value) {
                Some(kind) => r == Ok::<MessageKind, WireError>(kind),
                None => r is Err && r->Err_0@ == WireFault::UnknownKind(value),
            },
    {
        Ok(
            match value {
                1 => MessageKind::GetDaemonInfoRequest,
                2 => MessageKind::ShutdownDaemonRequest,
                3 => MessageKind::CreateSessionRequest,
                4 => MessageKind::CreateWorktreeRequest,
                5 => MessageKind::CleanupWorktreeRequest,
                6 => MessageKind::KillSessionRequest,
                7 => MessageKind::AttachSessionRequest,
                8 => MessageKind::AttachInputRequest,
                9 => MessageKind::SendInputRequest,
                10 => MessageKind::DiffSessionRequest,
                11 => MessageKind::GetSessionRequest,
                12 => MessageKind::ListSessionsRequest,
                13 => MessageKind::AppendSessionEventsRequest,
                14 => MessageKind::StreamLogsRequest,
                15 => MessageKind::StreamEventsRequest,
                16 => MessageKind::SwitchAttachedSessionRequest,
                17 => MessageKind::DetachSessionRequest,
                101 => MessageKind::DaemonInfoResponse,
                102 => MessageKind::CreateSessionResponse,
                103 => MessageKind::KillSessionResponse,
                104 => MessageKind::AttachedResponse,
                105 => MessageKind::InputAcceptedResponse,
                106 => MessageKind::WorktreeResponse,
                107 => MessageKind::DiffResponse,
                108 => MessageKind::SessionResponse,
                109 => MessageKind::SessionsResponse,
                110 => MessageKind::EventResponse,
                111 => MessageKind::LogChunkResponse,
                112 => MessageKind::PtyOutputResponse,
                113 => MessageKind::EndOfStreamResponse,
                114 => MessageKind::ErrorResponse,
                115 => MessageKind::OkResponse,
                116 => MessageKind::SwitchSessionResponse,
                117 => MessageKind::SessionEndedResponse,
                other => {
                    return Err(WireError::UnknownKind(other));
                },
            },
        )
    }
}

} // verus!
