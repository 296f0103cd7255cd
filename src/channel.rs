//! The controller's side of the signalling channel.
//!
//! The server owns a single-client channel. While the observed process is
//! running it accepts one client, then polls for bytes and reads them one at
//! a time; a byte equal to [`NEW_MSG`] publishes the current time as the last
//! signal time. Any failure on the connection drops the client, and the
//! server goes back to accepting.

use crate::common::NEW_MSG;
use vstd::prelude::*;

verus! {

/// What the server loop observed since its last action.
#[derive(Clone, Copy, Debug, PartialEq, Eq, Structural)]
pub enum ServerEvent {
    /// Nothing new: the loop starts an iteration (also after any pause).
    Poll,
    /// A client connected.
    Accepted,
    /// Accepting a client failed.
    AcceptFailed,
    /// Peeking at the connection failed.
    PeekFailed,
    /// Peeking found no bytes.
    PeekEmpty,
    /// Peeking found bytes to read.
    PeekAvailable,
    /// Reading a byte failed.
    ReadFailed,
    /// One byte was read.
    ReadByte(u8),
}

/// What the server loop does next.
#[derive(Clone, Copy, Debug, PartialEq, Eq, Structural)]
pub enum ServerAction {
    /// The exit flag is set: leave the loop.
    Stop,
    /// The observed process is not running: pause, then poll again.
    WaitForTarget,
    /// Wait for one client to connect.
    Accept,
    /// Look for available bytes without blocking.
    Peek,
    /// No bytes: pause, then poll again.
    WaitForData,
    /// Read exactly one byte.
    Read,
    /// Publish the current time as the last signal time and ask the consumer
    /// to re-evaluate, then poll again.
    Publish,
    /// Release the client, pause, then poll again.
    Disconnect,
}

/// State of the server: whether it holds a client connection.
#[derive(Clone, Copy, Debug, PartialEq, Eq, Structural)]
pub struct Server {
    pub connected: bool,
}

impl Server {
    /// The next action of the server and its state after taking it, given
    /// the exit flag, the running flag and the last event.
    pub open spec fn step_spec(self, exit: bool, running: bool, event: ServerEvent) -> (Server, ServerAction) {
        if exit {
            (self, ServerAction::Stop)
        } else if !self.connected {
            match event {
                ServerEvent::Accepted => (Server { connected: true }, ServerAction::Peek),
                ServerEvent::AcceptFailed => (self, ServerAction::WaitForTarget),
                _ => if running {
                    (self, ServerAction::Accept)
                } else {
                    (self, ServerAction::WaitForTarget)
                },
            }
        } else {
            match event {
                ServerEvent::PeekFailed => (Server { connected: false }, ServerAction::Disconnect),
                ServerEvent::ReadFailed => (Server { connected: false }, ServerAction::Disconnect),
                ServerEvent::PeekEmpty => (self, ServerAction::WaitForData),
                ServerEvent::PeekAvailable => (self, ServerAction::Read),
                ServerEvent::ReadByte(b) => if b == NEW_MSG {
                    (self, ServerAction::Publish)
                } else {
                    (self, ServerAction::Peek)
                },
                _ => (self, ServerAction::Peek),
            }
        }
    }

    /// A server that holds no client.
    pub fn new() -> (r: Server)
        ensures
            !r.connected,
    {
        Server { connected: false }
    }

    /// Takes one event and chooses the next action.
    pub fn step(&mut self, exit: bool, running: bool, event: ServerEvent) -> (r: ServerAction)
        ensures
            (*final(self), r) == old(self).step_spec(exit, running, event),
    {
        if exit {
            return ServerAction::Stop;
        }
        if !self.connected {
            match event {
                ServerEvent::Accepted => {
                    self.connected = true;
                    ServerAction::Peek
                },
                ServerEvent::AcceptFailed => ServerAction::WaitForTarget,
                _ => if running {
                    ServerAction::Accept
                } else {
                    ServerAction::WaitForTarget
                },
            }
        } else {
            match event {
                ServerEvent::PeekFailed | ServerEvent::ReadFailed => {
                    self.connected = false;
                    ServerAction::Disconnect
                },
                ServerEvent::PeekEmpty => ServerAction::WaitForData,
                ServerEvent::PeekAvailable => ServerAction::Read,
                ServerEvent::ReadByte(b) => if is_new_event(b) {
                    ServerAction::Publish
                } else {
                    ServerAction::Peek
                },
                _ => ServerAction::Peek,
            }
        }
    }
}

/// Whether a byte read from the channel means "new event".
pub fn is_new_event(byte: u8) -> (r: bool)
    ensures
        r == (byte == NEW_MSG),
{
    byte == NEW_MSG
}

/// The last signal time after reading `byte` at time `now`.
pub open spec fn signal_time_spec(byte: u8, now: u64, last: Option<u64>) -> Option<u64> {
    if byte == NEW_MSG {
        Some(now)
    } else {
        last
    }
}

/// The last signal time after reading `byte` at time `now`: `now` for a
/// "new event" byte; any other byte is reserved and changes nothing.
pub fn signal_time(byte: u8, now: u64, last: Option<u64>) -> (r: Option<u64>)
    ensures
        r == signal_time_spec(byte, now, last),
{
    if is_new_event(byte) {
        Some(now)
    } else {
        last
    }
}

/// Single client: the server asks to accept a client only while it holds
/// none, and it comes to hold one only through an accepted connection; so it
/// never holds two at once.
pub proof fn lemma_single_client(s: Server, exit: bool, running: bool, event: ServerEvent)
    ensures
        s.step_spec(exit, running, event).1 == ServerAction::Accept ==> !s.connected
            && !s.step_spec(exit, running, event).0.connected,
        (!s.connected && s.step_spec(exit, running, event).0.connected) ==> event
            == ServerEvent::Accepted,
        s.step_spec(exit, running, event).1 == ServerAction::Disconnect ==> s.connected
            && !s.step_spec(exit, running, event).0.connected,
{
}

/// Round trip: the byte that the agent writes for a signal, read back by a
/// connected server, is published as a new event at the time it was read;
/// any other byte leaves both the server and the last signal time as they
/// were.
pub proof fn lemma_round_trip(s: Server, byte: u8, now: u64, last: Option<u64>)
    requires
        s.connected,
    ensures
        s.step_spec(false, true, ServerEvent::ReadByte(NEW_MSG)) == (s, ServerAction::Publish),
        signal_time_spec(NEW_MSG, now, last) == Some(now),
        byte != NEW_MSG ==> s.step_spec(false, true, ServerEvent::ReadByte(byte)) == (
            s,
            ServerAction::Peek,
        ),
        byte != NEW_MSG ==> signal_time_spec(byte, now, last) == last,
{
}

} // verus!
