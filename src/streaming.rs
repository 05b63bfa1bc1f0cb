//! One session of either role, and the controller that owns it.
use vstd::prelude::*;

use crate::address::valid_ipv4;
use crate::client::{ClientView, StreamingClient, StreamingClientError};
use crate::command::{Command, SessionState, SetupError};
use crate::server::{ServerView, StreamingServer, StreamingServerError};

verus! {

/// A session of either role; the role is fixed for the session's life.
pub enum Streaming {
    Client(StreamingClient),
    Server(StreamingServer),
}

/// Why an operation on a session of either role did not go through.
#[derive(Clone, Debug, PartialEq, Eq)]
pub enum StreamingError {
    Client(StreamingClientError),
    Server(StreamingServerError),
    /// No role has been chosen yet.
    NoSessionConfigured,
    /// The held session is running; stop it first.
    Busy,
}

pub open spec fn client_result(r: Result<(), StreamingClientError>) -> Result<(), StreamingError> {
    match r {
        Ok(()) => Ok(()),
        Err(e) => Err(StreamingError::Client(e)),
    }
}

pub open spec fn server_result(r: Result<(), StreamingServerError>) -> Result<(), StreamingError> {
    match r {
        Ok(()) => Ok(()),
        Err(e) => Err(StreamingError::Server(e)),
    }
}

/// An idle receiver of the caster at `address`.
pub open spec fn fresh_client(v: ClientView, address: Seq<char>, record: bool) -> bool {
    v == ClientView { state: SessionState::Idle, address, record }
}

/// An idle caster for a screen of the given size.
pub open spec fn fresh_server(v: ServerView, width: u32, height: u32) -> bool {
    v == ServerView {
        state: SessionState::Idle,
        paused: false,
        viewers: Set::empty(),
        region: None,
        source: crate::command::ScreenSource::Live,
        width,
        height,
    }
}

impl Streaming {
    pub open spec fn wf(&self) -> bool {
        match self {
            Streaming::Client(c) => c.wf(),
            Streaming::Server(s) => s.wf(),
        }
    }

    pub open spec fn state_of(&self) -> SessionState {
        match self {
            Streaming::Client(c) => c@.state,
            Streaming::Server(s) => s@.state,
        }
    }

    /// A receiver session; see `StreamingClient::new`.
    pub fn new_client(ip: &str, save_stream: bool) -> (r: Result<Streaming, StreamingClientError>)
        ensures
            !valid_ipv4(ip@) ==> r == Err::<Streaming, _>(StreamingClientError::InvalidAddress),
            valid_ipv4(ip@) ==> (r matches Ok(Streaming::Client(c)) && c.wf() && fresh_client(
                c@,
                ip@,
                save_stream,
            )),
    {
        match StreamingClient::new(ip, save_stream) {
            Ok(c) => Ok(Streaming::Client(c)),
            Err(e) => Err(e),
        }
    }

    /// A caster session for a screen of the given size.
    pub fn new_server(width: u32, height: u32) -> (r: Streaming)
        ensures
            r matches Streaming::Server(s) && s.wf() && fresh_server(s@, width, height),
    {
        Streaming::Server(StreamingServer::new(width, height))
    }

    pub fn state(&self) -> (r: SessionState)
        ensures
            r == self.state_of(),
    {
        match self {
            Streaming::Client(c) => c.state(),
            Streaming::Server(s) => s.state(),
        }
    }

    /// The commands that `start` needs carried out first.
    pub fn start_commands(&self) -> (r: Vec<Command>)
        ensures
            self matches Streaming::Server(s) ==> r@ == s@.start_plan(),
            self matches Streaming::Client(c) ==> (if c@.receiving() {
                r@ == Seq::<Command>::empty()
            } else {
                c@.is_start_plan(r@)
            }),
    {
        match self {
            Streaming::Client(c) => c.start_commands(),
            Streaming::Server(s) => s.start_commands(),
        }
    }

    /// Settles a start of whichever session is held; see the two roles' `start`.
    pub fn start(&mut self, outcome: Result<(), SetupError>) -> (r: (
        Result<(), StreamingError>,
        Vec<Command>,
    ))
        requires
            old(self).wf(),
        ensures
            final(self).wf(),
            *old(self) matches Streaming::Server(s) ==> (*final(self) matches Streaming::Server(t)
                && t@ == s@.after_start(outcome) && r.0 == server_result(s@.start_result(outcome))
                && r.1@ == s@.start_cleanup(outcome)),
            *old(self) matches Streaming::Client(c) ==> (*final(self) matches Streaming::Client(d)
                && d@ == c@.after_start(outcome) && r.0 == client_result(c@.start_result(outcome))
                && r.1@ == c@.start_cleanup(outcome)),
    {
        match self {
            Streaming::Client(c) => {
                let (res, cleanup) = c.start(outcome);
                match res {
                    Ok(()) => (Ok(()), cleanup),
                    Err(e) => (Err(StreamingError::Client(e)), cleanup),
                }
            },
            Streaming::Server(s) => {
                let (res, cleanup) = s.start(outcome);
                match res {
                    Ok(()) => (Ok(()), cleanup),
                    Err(e) => (Err(StreamingError::Server(e)), cleanup),
                }
            },
        }
    }

    /// Stops whichever session is held; see the two roles' `stop`.
    pub fn stop(&mut self) -> (r: Vec<Command>)
        requires
            old(self).wf(),
        ensures
            final(self).wf(),
            final(self).state_of() == SessionState::Idle,
            *old(self) matches Streaming::Server(s) ==> (*final(self) matches Streaming::Server(t)
                && t@ == s@.idle() && r@ == s@.stop_plan()),
            *old(self) matches Streaming::Client(c) ==> (*final(self) matches Streaming::Client(d)
                && d@ == c@.after_disconnect() && r@ == c@.disconnect_plan()),
    {
        match self {
            Streaming::Client(c) => c.stop(),
            Streaming::Server(s) => s.stop(),
        }
    }
}

/// Holds the one session of this process, if a role has been chosen.
pub struct SessionController {
    pub session: Option<Streaming>,
}

impl SessionController {
    pub open spec fn wf(&self) -> bool {
        self.session matches Some(s) ==> s.wf()
    }

    pub open spec fn state_of(&self) -> SessionState {
        match self.session {
            Some(s) => s.state_of(),
            None => SessionState::Idle,
        }
    }

    /// A controller with no role chosen.
    pub fn new() -> (r: SessionController)
        ensures
            r.wf(),
            r.session is None,
    {
        SessionController { session: None }
    }

    pub fn state(&self) -> (r: SessionState)
        requires
            self.wf(),
        ensures
            r == self.state_of(),
    {
        match &self.session {
            Some(s) => s.state(),
            None => SessionState::Idle,
        }
    }

    /// Makes the held session a caster. A caster already held stays as it
    /// is; a receiver is replaced by a fresh caster, unless it is running.
    pub fn ensure_caster(&mut self, width: u32, height: u32) -> (r: Result<(), StreamingError>)
        requires
            old(self).wf(),
        ensures
            final(self).wf(),
            old(self).session matches Some(Streaming::Server(_)) ==> r is Ok && *final(self)
                == *old(self),
            old(self).session matches Some(Streaming::Client(c)) && c@.receiving() ==> r == Err::<
                (),
                _,
            >(StreamingError::Busy) && *final(self) == *old(self),
            !(old(self).session matches Some(Streaming::Server(_))) && old(self).state_of()
                == SessionState::Idle ==> (final(self).session matches Some(Streaming::Server(s))
                && fresh_server(s@, width, height) && r is Ok),
    {
        if let Some(Streaming::Server(_)) = &self.session {
            return Ok(());
        }
        if let Some(Streaming::Client(c)) = &self.session {
            if c.is_connected() {
                return Err(StreamingError::Busy);
            }
        }
        self.session = Some(Streaming::new_server(width, height));
        Ok(())
    }

    /// Makes the held session a fresh receiver of the caster at `ip`,
    /// unless the held session is running or `ip` is not an IPv4 literal.
    pub fn ensure_receiver(&mut self, ip: &str, save_stream: bool) -> (r: Result<(), StreamingError>)
        requires
            old(self).wf(),
        ensures
            final(self).wf(),
            old(self).state_of() != SessionState::Idle ==> r == Err::<(), _>(StreamingError::Busy)
                && *final(self) == *old(self),
            old(self).state_of() == SessionState::Idle && !valid_ipv4(ip@) ==> r == Err::<(), _>(
                StreamingError::Client(StreamingClientError::InvalidAddress),
            ) && *final(self) == *old(self),
            old(self).state_of() == SessionState::Idle && valid_ipv4(ip@) ==> (final(self).session matches Some(Streaming::Client(c)) && fresh_client(c@, ip@, save_stream)
                && r is Ok),
    {
        if let Some(s) = &self.session {
            match s.state() {
                SessionState::Idle => {},
                _ => {
                    return Err(StreamingError::Busy);
                },
            }
        }
        match Streaming::new_client(ip, save_stream) {
            Ok(s) => {
                self.session = Some(s);
                Ok(())
            },
            Err(e) => Err(StreamingError::Client(e)),
        }
    }

    /// The commands that `start` needs carried out first; none without a session.
    pub fn start_commands(&self) -> (r: Vec<Command>)
        requires
            self.wf(),
        ensures
            self.session is None ==> r@ == Seq::<Command>::empty(),
            self.session matches Some(Streaming::Server(s)) ==> r@ == s@.start_plan(),
            self.session matches Some(Streaming::Client(c)) ==> (if c@.receiving() {
                r@ == Seq::<Command>::empty()
            } else {
                c@.is_start_plan(r@)
            }),
    {
        match &self.session {
            Some(s) => s.start_commands(),
            None => Vec::new(),
        }
    }

    /// Settles a start of the held session; refused when there is none.
    pub fn start(&mut self, outcome: Result<(), SetupError>) -> (r: (
        Result<(), StreamingError>,
        Vec<Command>,
    ))
        requires
            old(self).wf(),
        ensures
            final(self).wf(),
            old(self).session is None ==> r.0 == Err::<(), _>(StreamingError::NoSessionConfigured)
                && r.1@ == Seq::<Command>::empty() && final(self).session is None,
            old(self).session matches Some(Streaming::Server(s)) ==> (final(self).session matches Some(
                Streaming::Server(t),
            ) && t@ == s@.after_start(outcome) && r.0 == server_result(s@.start_result(outcome))
                && r.1@ == s@.start_cleanup(outcome)),
            old(self).session matches Some(Streaming::Client(c)) ==> (final(self).session matches Some(
                Streaming::Client(d),
            ) && d@ == c@.after_start(outcome) && r.0 == client_result(c@.start_result(outcome))
                && r.1@ == c@.start_cleanup(outcome)),
    {
        match self.session.take() {
            Some(mut s) => {
                let r = s.start(outcome);
                self.session = Some(s);
                r
            },
            None => (Err(StreamingError::NoSessionConfigured), Vec::new()),
        }
    }

    /// Stops the held session, whatever its state; nothing to do without one.
    pub fn stop(&mut self) -> (r: Vec<Command>)
        requires
            old(self).wf(),
        ensures
            final(self).wf(),
            final(self).state_of() == SessionState::Idle,
            old(self).session is None ==> r@ == Seq::<Command>::empty() && final(self).session is None,
            old(self).session matches Some(Streaming::Server(s)) ==> (final(self).session matches Some(
                Streaming::Server(t),
            ) && t@ == s@.idle() && r@ == s@.stop_plan()),
            old(self).session matches Some(Streaming::Client(c)) ==> (final(self).session matches Some(
                Streaming::Client(d),
            ) && d@ == c@.after_disconnect() && r@ == c@.disconnect_plan()),
    {
        match self.session.take() {
            Some(mut s) => {
                let r = s.stop();
                self.session = Some(s);
                r
            },
            None => Vec::new(),
        }
    }
}

} // verus!
