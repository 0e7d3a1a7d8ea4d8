use vstd::prelude::*;

verus! {

/// Seconds without a new message after which the event stream sends a
/// keep-alive.
pub const SSE_KEEPALIVE_SECS: u64 = 10;

/// Number of concurrent web server tasks.
pub const WEB_TASK_POOL_SIZE: usize = 6;

/// A server-sent event stream of the dashboard's message.
#[derive(Debug, Clone, Copy, PartialEq, Eq, Structural)]
pub struct SseEvents {}

impl SseEvents {
    pub fn new() -> (r: SseEvents)
        ensures
            r == (SseEvents {}),
    {
        SseEvents {  }
    }

    /// What the stream does when it wakes: a new message is sent, silence is
    /// answered with a keep-alive, and an empty change notice closes it.
    pub fn on_wake(&self, wake: SseWake) -> (r: SseAction)
        ensures
            wake == SseWake::TimedOut ==> r == SseAction::KeepAlive,
            wake == (SseWake::Changed { empty: true }) ==> r == SseAction::Close,
            wake == (SseWake::Changed { empty: false }) ==> r == SseAction::SendMessage,
    {
        match wake {
            SseWake::TimedOut => SseAction::KeepAlive,
            SseWake::Changed { empty } => if empty {
                SseAction::Close
            } else {
                SseAction::SendMessage
            },
        }
    }
}

/// A fresh event stream for a new subscriber.
pub fn create_sse_events() -> (r: SseEvents)
    ensures
        r == (SseEvents {}),
{
    SseEvents::new()
}

/// Why the event stream woke up.
#[derive(Debug, Clone, Copy, PartialEq, Eq, Structural)]
pub enum SseWake {
    Changed { empty: bool },
    TimedOut,
}

#[derive(Debug, Clone, Copy, PartialEq, Eq, Structural)]
pub enum SseAction {
    SendMessage,
    KeepAlive,
    Close,
}

/// What went wrong reading a websocket message.
#[derive(Debug, Clone, Copy, PartialEq, Eq, Structural)]
pub enum WsReadFault {
    Io,
    ReadFrame,
    MessageStartsWithContinuation,
    UnexpectedMessageStart,
    ReservedOpcode,
    TextIsNotUtf8,
}

/// The close code the echo socket sends for a read fault; an I/O fault gets
/// none, since the connection itself is gone.
pub fn ws_close_code(fault: WsReadFault) -> (r: Option<u16>)
    ensures
        fault == WsReadFault::Io ==> r is None,
        fault == WsReadFault::ReadFrame || fault == WsReadFault::MessageStartsWithContinuation
            || fault == WsReadFault::UnexpectedMessageStart ==> r == Some(1002u16),
        fault == WsReadFault::ReservedOpcode ==> r == Some(1003u16),
        fault == WsReadFault::TextIsNotUtf8 ==> r == Some(1007u16),
{
    match fault {
        WsReadFault::Io => None,
        WsReadFault::ReadFrame => Some(1002),
        WsReadFault::MessageStartsWithContinuation => Some(1002),
        WsReadFault::UnexpectedMessageStart => Some(1002),
        WsReadFault::ReservedOpcode => Some(1003),
        WsReadFault::TextIsNotUtf8 => Some(1007),
    }
}

} // verus!
