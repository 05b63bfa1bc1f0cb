//! The receiver's session: follows one caster, and stops when it goes away.
use vstd::prelude::*;

use crate::address::{is_valid_ipv4, valid_ipv4};
use crate::command::{Command, SessionState, SetupError};

verus! {

/// Why a receiver operation did not go through.
#[derive(Clone, Debug, PartialEq, Eq)]
pub enum StreamingClientError {
    /// The caster's address is not an IPv4 literal.
    InvalidAddress,
    /// Connecting to the caster or driving the pipeline failed.
    Setup(SetupError),
}

/// What a receiver session is, as seen from outside.
pub struct ClientView {
    pub state: SessionState,
    /// The caster's address.
    pub address: Seq<char>,
    /// Whether the incoming stream is also recorded to a file.
    pub record: bool,
}

impl ClientView {
    pub open spec fn wf(self) -> bool {
        &&& self.state != SessionState::Casting
        &&& valid_ipv4(self.address)
    }

    pub open spec fn receiving(self) -> bool {
        self.state == SessionState::Receiving
    }

    /// The session after a start settled with `outcome`.
    pub open spec fn after_start(self, outcome: Result<(), SetupError>) -> ClientView {
        if !self.receiving() && outcome is Ok {
            ClientView { state: SessionState::Receiving, ..self }
        } else {
            self
        }
    }

    pub open spec fn start_result(self, outcome: Result<(), SetupError>) -> Result<(), StreamingClientError> {
        match outcome {
            Err(e) if !self.receiving() => Err(StreamingClientError::Setup(e)),
            _ => Ok(()),
        }
    }

    pub open spec fn start_cleanup(self, outcome: Result<(), SetupError>) -> Seq<Command> {
        if !self.receiving() && outcome is Err {
            seq![Command::Stop { drain: false }, Command::CloseEndpoint]
        } else {
            seq![]
        }
    }

    /// `r` is the start sequence for this session: connect to the caster,
    /// build the pipeline with the recording choice, play.
    pub open spec fn is_start_plan(self, r: Seq<Command>) -> bool {
        &&& r.len() == 3
        &&& r[0] matches Command::Dial(a) && a@ == self.address
        &&& r[1] == Command::OpenPlayback { record: self.record }
        &&& r[2] == Command::Play
    }

    /// The session after the caster went away, or after a stop: idle.
    pub open spec fn after_disconnect(self) -> ClientView {
        ClientView { state: SessionState::Idle, ..self }
    }

    /// Teardown for the disconnect or stop: drain and close, if receiving.
    pub open spec fn disconnect_plan(self) -> Seq<Command> {
        if self.receiving() {
            seq![Command::Stop { drain: true }, Command::CloseEndpoint]
        } else {
            seq![]
        }
    }
}

/// A receiver session. The control connection and the pipeline live
/// outside; this value holds the bookkeeping and decides what they are told.
pub struct StreamingClient {
    receiving: bool,
    address: String,
    save_stream: bool,
}

impl View for StreamingClient {
    type V = ClientView;

    closed spec fn view(&self) -> ClientView {
        ClientView {
            state: if self.receiving {
                SessionState::Receiving
            } else {
                SessionState::Idle
            },
            address: self.address@,
            record: self.save_stream,
        }
    }
}

impl StreamingClient {
    pub closed spec fn wf(&self) -> bool {
        valid_ipv4(self.address@)
    }

    /// An idle receiver for the caster at `ip`; refused, before anything is
    /// opened, unless `ip` is an IPv4 literal. `save_stream` is fixed for
    /// the session's life.
    pub fn new(ip: &str, save_stream: bool) -> (r: Result<StreamingClient, StreamingClientError>)
        ensures
            !valid_ipv4(ip@) ==> r == Err::<StreamingClient, _>(
                StreamingClientError::InvalidAddress,
            ),
            valid_ipv4(ip@) ==> (r matches Ok(c) && c.wf() && c@.wf() && c@ == (ClientView {
                state: SessionState::Idle,
                address: ip@,
                record: save_stream,
            })),
    {
        if !is_valid_ipv4(ip) {
            return Err(StreamingClientError::InvalidAddress);
        }
        Ok(StreamingClient { receiving: false, address: ip.to_owned(), save_stream })
    }

    pub fn state(&self) -> (r: SessionState)
        ensures
            r == self@.state,
    {
        if self.receiving {
            SessionState::Receiving
        } else {
            SessionState::Idle
        }
    }

    /// Whether the control connection to the caster is alive.
    pub fn is_connected(&self) -> (r: bool)
        ensures
            r == self@.receiving(),
    {
        self.receiving
    }

    pub fn address(&self) -> (r: &String)
        ensures
            r@ == self@.address,
    {
        &self.address
    }

    pub fn save_stream(&self) -> (r: bool)
        ensures
            r == self@.record,
    {
        self.save_stream
    }

    /// The commands that `start` needs carried out first: connect to the
    /// caster, build the pipeline with the recording choice, play.
    pub fn start_commands(&self) -> (r: Vec<Command>)
        ensures
            self@.receiving() ==> r@ == Seq::<Command>::empty(),
            !self@.receiving() ==> self@.is_start_plan(r@),
    {
        if self.receiving {
            Vec::new()
        } else {
            let r = vec![
                Command::Dial(self.address.clone()),
                Command::OpenPlayback { record: self.save_stream },
                Command::Play,
            ];
            r
        }
    }

    /// Settles a start once its commands were carried out with `outcome`.
    /// Receiving already: nothing changes. Otherwise success starts the
    /// reception and a failure leaves the session idle, with the cleanup to issue.
    pub fn start(&mut self, outcome: Result<(), SetupError>) -> (r: (
        Result<(), StreamingClientError>,
        Vec<Command>,
    ))
        requires
            old(self).wf(),
        ensures
            final(self).wf(),
            final(self)@.wf(),
            final(self)@ == old(self)@.after_start(outcome),
            r.0 == old(self)@.start_result(outcome),
            r.1@ == old(self)@.start_cleanup(outcome),
    {
        if self.receiving {
            return (Ok(()), Vec::new());
        }
        match outcome {
            Ok(()) => {
                self.receiving = true;
                (Ok(()), Vec::new())
            },
            Err(e) => {
                let c = vec![Command::Stop { drain: false }, Command::CloseEndpoint];
                assert(c@ =~= seq![Command::Stop { drain: false }, Command::CloseEndpoint]);
                (Err(StreamingClientError::Setup(e)), c)
            },
        }
    }

    /// The caster went away: the session drains, tears down and goes idle
    /// by itself. A second report of the same loss changes nothing.
    pub fn on_disconnect(&mut self) -> (r: Vec<Command>)
        requires
            old(self).wf(),
        ensures
            final(self).wf(),
            final(self)@.wf(),
            final(self)@ == old(self)@.after_disconnect(),
            r@ == old(self)@.disconnect_plan(),
    {
        if !self.receiving {
            return Vec::new();
        }
        self.receiving = false;
        let c = vec![Command::Stop { drain: true }, Command::CloseEndpoint];
        assert(c@ =~= seq![Command::Stop { drain: true }, Command::CloseEndpoint]);
        c
    }

    /// Ends the reception from any state, as a disconnect does.
    pub fn stop(&mut self) -> (r: Vec<Command>)
        requires
            old(self).wf(),
        ensures
            final(self).wf(),
            final(self)@.wf(),
            final(self)@ == old(self)@.after_disconnect(),
            r@ == old(self)@.disconnect_plan(),
    {
        self.on_disconnect()
    }
}

} // verus!
