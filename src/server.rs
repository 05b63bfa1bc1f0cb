//! The caster's session: broadcasts the screen to every connected receiver.
use vstd::prelude::*;

use crate::command::{CaptureRegion, Command, ScreenSource, SessionState, SetupError};

verus! {

broadcast use vstd::seq_lib::group_seq_properties;

/// Why a caster operation did not go through.
#[derive(Clone, Debug, PartialEq, Eq)]
pub enum StreamingServerError {
    /// Opening the listener or driving the pipeline failed.
    Setup(SetupError),
    /// The operation needs a running broadcast.
    NotCasting,
    /// The rectangle is empty or leaves the screen.
    InvalidRegion,
}

/// The addresses held in a list of strings.
pub open spec fn names(v: Seq<String>) -> Seq<Seq<char>> {
    v.map_values(|s: String| s@)
}

/// What a caster session is, as seen from outside.
pub struct ServerView {
    pub state: SessionState,
    pub paused: bool,
    /// Addresses of the receivers currently connected.
    pub viewers: Set<Seq<char>>,
    /// Region applied on the next start, or at once while casting.
    pub region: Option<CaptureRegion>,
    pub source: ScreenSource,
    pub width: u32,
    pub height: u32,
}

/// The teardown commands for a broadcast pipeline and its listener.
pub open spec fn teardown(drain: bool) -> Seq<Command> {
    seq![Command::Stop { drain }, Command::CloseEndpoint]
}

impl ServerView {
    /// The states a caster can be in: never receiving, nobody connected and
    /// nothing paused while idle, and a region that fits the screen.
    pub open spec fn wf(self) -> bool {
        &&& self.state != SessionState::Receiving
        &&& self.viewers.finite()
        &&& (self.state == SessionState::Idle ==> self.viewers == Set::<Seq<char>>::empty()
            && !self.paused)
        &&& (self.region matches Some(r) ==> r.fits(self.width, self.height))
    }

    pub open spec fn casting(self) -> bool {
        self.state == SessionState::Casting
    }

    /// The same session with pipeline and listener gone.
    pub open spec fn idle(self) -> ServerView {
        ServerView { state: SessionState::Idle, paused: false, viewers: Set::empty(), ..self }
    }

    /// What to issue to start: listener, pipeline, the cached region and source, play.
    pub open spec fn start_plan(self) -> Seq<Command> {
        if self.casting() {
            seq![]
        } else {
            seq![
                Command::OpenListener,
                Command::OpenCapture,
                Command::SetCaptureRegion(self.region),
                Command::SetSource(self.source),
                Command::Play,
            ]
        }
    }

    pub open spec fn after_start(self, outcome: Result<(), SetupError>) -> ServerView {
        if !self.casting() && outcome is Ok {
            ServerView { state: SessionState::Casting, paused: false, ..self }
        } else {
            self
        }
    }

    pub open spec fn start_result(self, outcome: Result<(), SetupError>) -> Result<(), StreamingServerError> {
        match outcome {
            Err(e) if !self.casting() => Err(StreamingServerError::Setup(e)),
            _ => Ok(()),
        }
    }

    /// Cleanup after a start that failed part way.
    pub open spec fn start_cleanup(self, outcome: Result<(), SetupError>) -> Seq<Command> {
        if !self.casting() && outcome is Err {
            teardown(false)
        } else {
            seq![]
        }
    }

    pub open spec fn after_connect(self, address: Seq<char>) -> ServerView {
        if self.casting() {
            ServerView { viewers: self.viewers.insert(address), ..self }
        } else {
            self
        }
    }

    pub open spec fn connect_plan(self, address: String) -> Seq<Command> {
        if self.casting() && !self.viewers.contains(address@) {
            seq![Command::AddTarget(address)]
        } else {
            seq![]
        }
    }

    pub open spec fn after_disconnect(self, address: Seq<char>) -> ServerView {
        ServerView { viewers: self.viewers.remove(address), ..self }
    }

    pub open spec fn disconnect_plan(self, address: String) -> Seq<Command> {
        if self.viewers.contains(address@) {
            seq![Command::RemoveTarget(address)]
        } else {
            seq![]
        }
    }

    /// After the pipeline answered a pause (`playing == false`) or a resume
    /// (`playing == true`): a failure brings the session down.
    pub open spec fn after_toggle(self, playing: bool, outcome: Result<(), SetupError>) -> ServerView {
        if !self.casting() {
            self
        } else if outcome is Ok {
            ServerView { paused: !playing, ..self }
        } else {
            self.idle()
        }
    }

    pub open spec fn toggle_result(self, outcome: Result<(), SetupError>) -> Result<(), StreamingServerError> {
        if !self.casting() {
            Err(StreamingServerError::NotCasting)
        } else {
            match outcome {
                Ok(()) => Ok(()),
                Err(e) => Err(StreamingServerError::Setup(e)),
            }
        }
    }

    pub open spec fn toggle_cleanup(self, outcome: Result<(), SetupError>) -> Seq<Command> {
        if self.casting() && outcome is Err {
            teardown(false)
        } else {
            seq![]
        }
    }

    pub open spec fn stop_plan(self) -> Seq<Command> {
        if self.casting() {
            teardown(!self.paused)
        } else {
            seq![]
        }
    }

    pub open spec fn region_accepted(self, region: Option<CaptureRegion>) -> bool {
        region matches Some(r) ==> r.fits(self.width, self.height)
    }

    pub open spec fn after_region(self, region: Option<CaptureRegion>) -> ServerView {
        if self.region_accepted(region) {
            ServerView { region, ..self }
        } else {
            self
        }
    }

    pub open spec fn region_plan(self, region: Option<CaptureRegion>) -> Seq<Command> {
        if self.casting() {
            seq![Command::SetCaptureRegion(region)]
        } else {
            seq![]
        }
    }

    pub open spec fn after_source(self, source: ScreenSource) -> ServerView {
        ServerView { source, ..self }
    }

    pub open spec fn source_plan(self, source: ScreenSource) -> Seq<Command> {
        if self.casting() {
            seq![Command::SetSource(source)]
        } else {
            seq![]
        }
    }
}

/// A caster session. The listener and the pipeline live outside; this value
/// holds the bookkeeping and decides what they are told.
pub struct StreamingServer {
    casting: bool,
    paused: bool,
    viewers: Vec<String>,
    region: Option<CaptureRegion>,
    source: ScreenSource,
    width: u32,
    height: u32,
}

impl View for StreamingServer {
    type V = ServerView;

    closed spec fn view(&self) -> ServerView {
        ServerView {
            state: if self.casting {
                SessionState::Casting
            } else {
                SessionState::Idle
            },
            paused: self.paused,
            viewers: names(self.viewers@).to_set(),
            region: self.region,
            source: self.source,
            width: self.width,
            height: self.height,
        }
    }
}

/// Index of an entry of `v` that reads `a`, if there is one.
fn position_of(v: &Vec<String>, a: &String) -> (r: Option<usize>)
    ensures
        r matches Some(i) ==> i < v.len() && v@[i as int]@ == a@,
        r is None ==> !names(v@).contains(a@),
{
    let mut i: usize = 0;
    while i < v.len()
        invariant
            i <= v.len(),
            forall|j: int| 0 <= j < i ==> v@[j]@ != a@,
        decreases v.len() - i,
    {
        if v[i] == *a {
            return Some(i);
        }
        i = i + 1;
    }
    proof {
        if names(v@).contains(a@) {
            let j = choose|j: int| 0 <= j < names(v@).len() && names(v@)[j] == a@;
            assert(v@[j]@ == a@);
        }
    }
    None
}

impl StreamingServer {
    /// The session's own consistency; every operation keeps it.
    pub closed spec fn wf(&self) -> bool {
        &&& names(self.viewers@).no_duplicates()
        &&& (!self.casting ==> self.viewers@.len() == 0 && !self.paused)
        &&& (self.region matches Some(r) ==> r.fits(self.width, self.height))
    }

    proof fn lemma_view_wf(&self)
        requires
            self.wf(),
        ensures
            self@.wf(),
    {
        if !self.casting {
            assert(names(self.viewers@) =~= Seq::empty());
            assert(names(self.viewers@).to_set() =~= Set::empty());
        }
    }

    /// An idle caster for a screen of the given size: whole screen, live feed.
    pub fn new(width: u32, height: u32) -> (r: StreamingServer)
        ensures
            r.wf(),
            r@.wf(),
            r@ == (ServerView {
                state: SessionState::Idle,
                paused: false,
                viewers: Set::empty(),
                region: None,
                source: ScreenSource::Live,
                width,
                height,
            }),
    {
        let r = StreamingServer {
            casting: false,
            paused: false,
            viewers: Vec::new(),
            region: None,
            source: ScreenSource::Live,
            width,
            height,
        };
        proof {
            r.lemma_view_wf();
        }
        r
    }

    pub fn state(&self) -> (r: SessionState)
        ensures
            r == self@.state,
    {
        if self.casting {
            SessionState::Casting
        } else {
            SessionState::Idle
        }
    }

    pub fn is_paused(&self) -> (r: bool)
        ensures
            r == self@.paused,
    {
        self.paused
    }

    /// Number of receivers connected.
    pub fn viewer_count(&self) -> (r: usize)
        requires
            self.wf(),
        ensures
            r == self@.viewers.len(),
    {
        proof {
            names(self.viewers@).unique_seq_to_set();
        }
        self.viewers.len()
    }

    /// Whether the receiver at `address` is connected.
    pub fn has_viewer(&self, address: &String) -> (r: bool)
        ensures
            r == self@.viewers.contains(address@),
    {
        let p = position_of(&self.viewers, address);
        proof {
            if let Some(i) = p {
                assert(names(self.viewers@)[i as int] == address@);
            }
        }
        p.is_some()
    }

    pub fn region(&self) -> (r: Option<CaptureRegion>)
        ensures
            r == self@.region,
    {
        self.region
    }

    pub fn source(&self) -> (r: ScreenSource)
        ensures
            r == self@.source,
    {
        self.source
    }

    /// The commands that `start` needs carried out first.
    pub fn start_commands(&self) -> (r: Vec<Command>)
        ensures
            r@ == self@.start_plan(),
    {
        if self.casting {
            Vec::new()
        } else {
            let r = vec![
                Command::OpenListener,
                Command::OpenCapture,
                Command::SetCaptureRegion(self.region),
                Command::SetSource(self.source),
                Command::Play,
            ];
            assert(r@ =~= self@.start_plan());
            r
        }
    }

    /// Settles a start once its commands were carried out with `outcome`.
    /// Casting already: nothing changes. Otherwise success starts the
    /// broadcast and a failure leaves the session idle, with the cleanup to issue.
    pub fn start(&mut self, outcome: Result<(), SetupError>) -> (r: (
        Result<(), StreamingServerError>,
        Vec<Command>,
    ))
        requires
            old(self).wf(),
        ensures
            final(self).wf(),
            final(self)@.wf(),
            final(self)@ == old(self)@.after_start(outcome),
            r.0 == old(self)@.start_result(outcome),
            r.1@ == old(self)@.start_cleanup(outcome),
    {
        if self.casting {
            proof {
                self.lemma_view_wf();
            }
            return (Ok(()), Vec::new());
        }
        match outcome {
            Ok(()) => {
                self.casting = true;
                self.paused = false;
                proof {
                    self.lemma_view_wf();
                }
                (Ok(()), Vec::new())
            },
            Err(e) => {
                proof {
                    self.lemma_view_wf();
                }
                let c = vec![Command::Stop { drain: false }, Command::CloseEndpoint];
                assert(c@ =~= teardown(false));
                (Err(StreamingServerError::Setup(e)), c)
            },
        }
    }

    /// A receiver connected: while casting, it joins the viewers and, if it
    /// is new, the pipeline sends to it too. Paused or not makes no difference.
    pub fn on_connect(&mut self, address: String) -> (r: Vec<Command>)
        requires
            old(self).wf(),
        ensures
            final(self).wf(),
            final(self)@.wf(),
            final(self)@ == old(self)@.after_connect(address@),
            r@ == old(self)@.connect_plan(address),
    {
        proof {
            self.lemma_view_wf();
        }
        if !self.casting {
            return Vec::new();
        }
        match position_of(&self.viewers, &address) {
            Some(i) => {
                proof {
                    assert(names(self.viewers@)[i as int] == address@);
                    assert(self@.viewers.insert(address@) =~= self@.viewers);
                }
                Vec::new()
            },
            None => {
                let ghost before = self.viewers@;
                self.viewers.push(address.clone());
                proof {
                    assert(names(self.viewers@) =~= names(before).push(address@));
                    assert(names(self.viewers@).to_set() =~= names(before).to_set().insert(address@));
                    self.lemma_view_wf();
                }
                vec![Command::AddTarget(address)]
            },
        }
    }

    /// A receiver dropped: it leaves the viewers and the pipeline stops
    /// sending to it. The broadcast goes on, whoever is left.
    pub fn on_disconnect(&mut self, address: String) -> (r: Vec<Command>)
        requires
            old(self).wf(),
        ensures
            final(self).wf(),
            final(self)@.wf(),
            final(self)@ == old(self)@.after_disconnect(address@),
            r@ == old(self)@.disconnect_plan(address),
    {
        proof {
            self.lemma_view_wf();
        }
        match position_of(&self.viewers, &address) {
            Some(i) => {
                let ghost before = self.viewers@;
                let ghost nb = names(before);
                self.viewers.remove(i);
                proof {
                    assert(names(self.viewers@) =~= nb.remove(i as int));
                    assert(nb[i as int] == address@);
                    assert forall|x: Seq<char>|
                        names(self.viewers@).to_set().contains(x) <==> nb.to_set().remove(
                            address@,
                        ).contains(x) by {
                        if names(self.viewers@).contains(x) {
                            let k = choose|k: int|
                                0 <= k < names(self.viewers@).len() && names(self.viewers@)[k] == x;
                            if k < i {
                                assert(nb[k] == x);
                            } else {
                                assert(nb[k + 1] == x);
                            }
                        }
                        if nb.contains(x) && x != address@ {
                            let k = choose|k: int| 0 <= k < nb.len() && nb[k] == x;
                            if k < i {
                                assert(names(self.viewers@)[k] == x);
                            } else {
                                assert(names(self.viewers@)[k - 1] == x);
                            }
                        }
                    }
                    assert(names(self.viewers@).to_set() =~= nb.to_set().remove(address@));
                    if !self.casting {
                        assert(before.len() == 0);
                    }
                    self.lemma_view_wf();
                }
                vec![Command::RemoveTarget(address)]
            },
            None => {
                proof {
                    assert(self@.viewers.remove(address@) =~= self@.viewers);
                }
                Vec::new()
            },
        }
    }

    /// The commands that `pause` needs carried out first.
    pub fn pause_commands(&self) -> (r: Vec<Command>)
        ensures
            r@ == (if self@.casting() { seq![Command::Pause] } else { seq![] }),
    {
        if self.casting {
            vec![Command::Pause]
        } else {
            Vec::new()
        }
    }

    /// The commands that `resume` needs carried out first.
    pub fn resume_commands(&self) -> (r: Vec<Command>)
        ensures
            r@ == (if self@.casting() { seq![Command::Play] } else { seq![] }),
    {
        if self.casting {
            vec![Command::Play]
        } else {
            Vec::new()
        }
    }

    fn settle_toggle(&mut self, playing: bool, outcome: Result<(), SetupError>) -> (r: (
        Result<(), StreamingServerError>,
        Vec<Command>,
    ))
        requires
            old(self).wf(),
        ensures
            final(self).wf(),
            final(self)@.wf(),
            final(self)@ == old(self)@.after_toggle(playing, outcome),
            r.0 == old(self)@.toggle_result(outcome),
            r.1@ == old(self)@.toggle_cleanup(outcome),
    {
        proof {
            self.lemma_view_wf();
        }
        if !self.casting {
            return (Err(StreamingServerError::NotCasting), Vec::new());
        }
        match outcome {
            Ok(()) => {
                self.paused = !playing;
                proof {
                    self.lemma_view_wf();
                }
                (Ok(()), Vec::new())
            },
            Err(e) => {
                self.casting = false;
                self.paused = false;
                self.viewers = Vec::new();
                proof {
                    self.lemma_view_wf();
                    assert(self@ == old(self)@.idle());
                }
                let c = vec![Command::Stop { drain: false }, Command::CloseEndpoint];
                assert(c@ =~= teardown(false));
                (Err(StreamingServerError::Setup(e)), c)
            },
        }
    }

    /// Settles a pause once the pipeline answered with `outcome`. Only a
    /// casting session pauses; a failed pause brings it down to idle, with
    /// the teardown to issue.
    pub fn pause(&mut self, outcome: Result<(), SetupError>) -> (r: (
        Result<(), StreamingServerError>,
        Vec<Command>,
    ))
        requires
            old(self).wf(),
        ensures
            final(self).wf(),
            final(self)@.wf(),
            final(self)@ == old(self)@.after_toggle(false, outcome),
            r.0 == old(self)@.toggle_result(outcome),
            r.1@ == old(self)@.toggle_cleanup(outcome),
    {
        self.settle_toggle(false, outcome)
    }

    /// Settles a resume once the pipeline answered with `outcome`, as `pause` does.
    pub fn resume(&mut self, outcome: Result<(), SetupError>) -> (r: (
        Result<(), StreamingServerError>,
        Vec<Command>,
    ))
        requires
            old(self).wf(),
        ensures
            final(self).wf(),
            final(self)@.wf(),
            final(self)@ == old(self)@.after_toggle(true, outcome),
            r.0 == old(self)@.toggle_result(outcome),
            r.1@ == old(self)@.toggle_cleanup(outcome),
    {
        self.settle_toggle(true, outcome)
    }

    /// Ends the broadcast from any state: the pipeline is torn down (drained
    /// first if it is playing), the listener closed, the viewers forgotten.
    /// Region and source stay for the next start.
    pub fn stop(&mut self) -> (r: Vec<Command>)
        requires
            old(self).wf(),
        ensures
            final(self).wf(),
            final(self)@.wf(),
            final(self)@ == old(self)@.idle(),
            r@ == old(self)@.stop_plan(),
    {
        proof {
            self.lemma_view_wf();
        }
        if !self.casting {
            proof {
                assert(self@ == old(self)@.idle());
            }
            return Vec::new();
        }
        let drain = !self.paused;
        self.casting = false;
        self.paused = false;
        self.viewers = Vec::new();
        proof {
            self.lemma_view_wf();
            assert(self@ == old(self)@.idle());
        }
        let c = vec![Command::Stop { drain }, Command::CloseEndpoint];
        assert(c@ =~= teardown(drain));
        c
    }

    /// Selects the part of the screen to broadcast (`None`: all of it).
    /// Applied at once while casting, else kept for the next start.
    pub fn set_capture_region(&mut self, region: Option<CaptureRegion>) -> (r: Result<
        Vec<Command>,
        StreamingServerError,
    >)
        requires
            old(self).wf(),
        ensures
            final(self).wf(),
            final(self)@.wf(),
            final(self)@ == old(self)@.after_region(region),
            old(self)@.region_accepted(region) ==> (r matches Ok(c) && c@
                == old(self)@.region_plan(region)),
            !old(self)@.region_accepted(region) ==> r == Err::<Vec<Command>, _>(
                StreamingServerError::InvalidRegion,
            ),
    {
        proof {
            self.lemma_view_wf();
        }
        if let Some(rect) = region {
            if !rect.is_within(self.width, self.height) {
                return Err(StreamingServerError::InvalidRegion);
            }
        }
        self.region = region;
        proof {
            self.lemma_view_wf();
        }
        if self.casting {
            Ok(vec![Command::SetCaptureRegion(region)])
        } else {
            Ok(Vec::new())
        }
    }

    /// Broadcasts the rectangle from (`startx`, `starty`) up to
    /// (`endx`, `endy`), the latter excluded.
    pub fn capture_resize(&mut self, startx: u32, starty: u32, endx: u32, endy: u32) -> (r: Result<
        Vec<Command>,
        StreamingServerError,
    >)
        requires
            old(self).wf(),
        ensures
            ({
                let region = Some(
                    CaptureRegion { start_x: startx, start_y: starty, end_x: endx, end_y: endy },
                );
                &&& final(self).wf()
                &&& final(self)@ == old(self)@.after_region(region)
                &&& old(self)@.region_accepted(region) ==> (r matches Ok(c) && c@
                    == old(self)@.region_plan(region))
                &&& !old(self)@.region_accepted(region) ==> r == Err::<Vec<Command>, _>(
                    StreamingServerError::InvalidRegion,
                )
            }),
    {
        self.set_capture_region(
            Some(CaptureRegion { start_x: startx, start_y: starty, end_x: endx, end_y: endy }),
        )
    }

    /// Broadcasts the whole screen.
    pub fn capture_fullscreen(&mut self) -> (r: Vec<Command>)
        requires
            old(self).wf(),
        ensures
            final(self).wf(),
            final(self)@ == old(self)@.after_region(None),
            r@ == old(self)@.region_plan(None),
    {
        match self.set_capture_region(None) {
            Ok(c) => c,
            Err(_) => Vec::new(),
        }
    }

    /// Switches the broadcast feed without interrupting the session.
    /// Applied at once while casting, else kept for the next start.
    pub fn set_screen_source(&mut self, source: ScreenSource) -> (r: Vec<Command>)
        requires
            old(self).wf(),
        ensures
            final(self).wf(),
            final(self)@ == old(self)@.after_source(source),
            r@ == old(self)@.source_plan(source),
    {
        self.source = source;
        if self.casting {
            vec![Command::SetSource(source)]
        } else {
            Vec::new()
        }
    }

    /// Sends a blank placeholder in place of the screen.
    pub fn blank_screen(&mut self) -> (r: Vec<Command>)
        requires
            old(self).wf(),
        ensures
            final(self).wf(),
            final(self)@ == old(self)@.after_source(ScreenSource::Blank),
            r@ == old(self)@.source_plan(ScreenSource::Blank),
    {
        self.set_screen_source(ScreenSource::Blank)
    }

    /// Sends the live screen again.
    pub fn restore_screen(&mut self) -> (r: Vec<Command>)
        requires
            old(self).wf(),
        ensures
            final(self).wf(),
            final(self)@ == old(self)@.after_source(ScreenSource::Live),
            r@ == old(self)@.source_plan(ScreenSource::Live),
    {
        self.set_screen_source(ScreenSource::Live)
    }
}

} // verus!
