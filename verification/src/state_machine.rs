//! The operator's connection state machine and the status events it emits
//! for the display surface.
//!
//! The machine itself is pure: it decides transitions and events, while
//! the surrounding worker owns the socket and performs the connection
//! attempt, the write, and the shutdown. Each transition consumes the old
//! machine and returns the new one, so a stale state can never be read
//! after a transition; the I/O outcome of the step comes in as a plain
//! boolean argument, and the contract states the next state and event for
//! both outcomes.

use vstd::prelude::*;
use crate::protocol::CmdData;

verus! {

/// Whether the machine currently holds a live connection. The socket
/// itself lives with the caller, which keeps it exactly while the machine
/// is in `Connected`.
#[derive(Debug, Clone, Copy, PartialEq, Eq, Structural)]
enum State {
    Connected,
    Disconnected,
}

/// The operator-side connection state machine.
#[derive(Debug, Clone, Copy)]
pub struct ConnectionMachine {
    state: State,
}

/// A status event for the display surface to render; produced on every
/// transition, never persisted.
#[derive(Debug, Clone, PartialEq, Eq)]
pub enum GuiStatus {
    /// A connection to the given address was just opened.
    Connected(String),
    /// No connection is held (also reported for a redundant connect; see
    /// [`ConnectionMachine::connect`]).
    Disconnected,
    /// The connection attempt failed; still disconnected.
    ErrorConnecting,
    /// The command was encoded and written out.
    Sent(CmdData),
    /// The write failed, or there was no connection to write to; an
    /// existing connection is kept either way.
    ErrorSending,
}

impl ConnectionMachine {
    /// The machine holds a live connection.
    pub closed spec fn is_connected_spec(self) -> bool {
        self.state is Connected
    }

    /// A fresh machine, disconnected.
    pub fn new() -> (m: Self)
        ensures
            !m.is_connected_spec(),
    {
        ConnectionMachine { state: State::Disconnected }
    }

    /// Whether the caller should currently be holding a socket for this
    /// machine.
    pub fn is_connected(&self) -> (b: bool)
        ensures
            b == self.is_connected_spec(),
    {
        match self.state {
            State::Connected => true,
            State::Disconnected => false,
        }
    }

    /// One `Connect` intent. The caller attempts to open a connection to
    /// `addr` only when the machine is disconnected, and passes the
    /// outcome in as `attempt_ok`; success moves to `Connected`, failure
    /// stays put and reports it.
    ///
    /// While already connected no second connection is attempted and the
    /// state is unchanged, yet the emitted event is `Disconnected`: the
    /// event contradicts the actual state. That mismatch is deliberate
    /// behaviour of this machine, kept as-is rather than silently mended;
    /// resolving it is a product decision.
    pub fn connect(self, addr: String, attempt_ok: bool) -> (r: (Self, GuiStatus))
        ensures
            !self.is_connected_spec() && attempt_ok ==> r.0.is_connected_spec() && r.1
                == GuiStatus::Connected(addr),
            !self.is_connected_spec() && !attempt_ok ==> r.0 == self && r.1
                == GuiStatus::ErrorConnecting,
            self.is_connected_spec() ==> r.0 == self && r.1 == GuiStatus::Disconnected,
    {
        match self.state {
            State::Disconnected => {
                if attempt_ok {
                    (ConnectionMachine { state: State::Connected }, GuiStatus::Connected(addr))
                } else {
                    (self, GuiStatus::ErrorConnecting)
                }
            },
            State::Connected => (self, GuiStatus::Disconnected),
        }
    }

    /// One `Disconnect` intent. The caller shuts its socket down (both
    /// directions) before calling when the machine is connected; from
    /// either state the machine ends disconnected and reports
    /// `Disconnected`.
    pub fn disconnect(self) -> (r: (Self, GuiStatus))
        ensures
            !r.0.is_connected_spec(),
            r.1 == GuiStatus::Disconnected,
    {
        (ConnectionMachine { state: State::Disconnected }, GuiStatus::Disconnected)
    }

    /// One `Send` intent. The caller encodes `data` and writes the frame
    /// only when the machine is connected, passing the write outcome in as
    /// `write_ok`. The state never changes: a failed send keeps the
    /// connection open (no automatic reconnect), and sending while
    /// disconnected only reports `ErrorSending`.
    pub fn send_data(self, data: CmdData, write_ok: bool) -> (r: (Self, GuiStatus))
        ensures
            r.0 == self,
            self.is_connected_spec() && write_ok ==> r.1 == GuiStatus::Sent(data),
            self.is_connected_spec() && !write_ok ==> r.1 == GuiStatus::ErrorSending,
            !self.is_connected_spec() ==> r.1 == GuiStatus::ErrorSending,
    {
        match self.state {
            State::Connected => {
                if write_ok {
                    (self, GuiStatus::Sent(data))
                } else {
                    (self, GuiStatus::ErrorSending)
                }
            },
            State::Disconnected => (self, GuiStatus::ErrorSending),
        }
    }
}

/// The display surface's read-only mirror of the latest status events:
/// whether the link is up and whether the sweep was started. It exists so
/// the UI can decide when to poll for telemetry without reaching into the
/// worker's state.
#[derive(Debug, Clone, Copy, PartialEq, Eq, Structural)]
pub struct SensorState {
    pub connection: bool,
    pub status: crate::protocol::Status,
}

impl SensorState {
    /// Telemetry is worth polling for exactly when the link is up and the
    /// sweep was started.
    pub fn ready(&self) -> (b: bool)
        ensures
            b == (self.connection && self.status is Start),
    {
        if self.connection && self.status == crate::protocol::Status::Start {
            return true;
        }
        false
    }
}

} // verus!
