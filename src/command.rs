//! What a session asks of its collaborators, and what they report back.
use vstd::prelude::*;

verus! {

/// Lifecycle stage of a session.
#[derive(Clone, Copy, Debug, PartialEq, Eq, Structural)]
pub enum SessionState {
    Idle,
    Casting,
    Receiving,
}

/// The feed a caster sends: the screen itself, or a blank placeholder.
#[derive(Clone, Copy, Debug, PartialEq, Eq, Structural)]
pub enum ScreenSource {
    Live,
    Blank,
}

/// A rectangle of the screen, in pixels: top-left corner inclusive,
/// bottom-right corner exclusive.
#[derive(Clone, Copy, Debug, PartialEq, Eq, Structural)]
pub struct CaptureRegion {
    pub start_x: u32,
    pub start_y: u32,
    pub end_x: u32,
    pub end_y: u32,
}

impl CaptureRegion {
    /// A non-empty rectangle that lies on a screen of the given size.
    pub open spec fn fits(self, width: u32, height: u32) -> bool {
        &&& self.start_x < self.end_x <= width
        &&& self.start_y < self.end_y <= height
    }

    pub fn is_within(&self, width: u32, height: u32) -> (r: bool)
        ensures
            r == self.fits(width, height),
    {
        self.start_x < self.end_x && self.end_x <= width && self.start_y < self.end_y
            && self.end_y <= height
    }
}

/// One instruction for the signaling endpoint or the media pipeline.
#[derive(Clone, Debug, PartialEq, Eq)]
pub enum Command {
    /// Bind the control port and accept receivers.
    OpenListener,
    /// Connect the control channel to the caster at this address.
    Dial(String),
    /// Build the capture-and-broadcast pipeline.
    OpenCapture,
    /// Build the receive-and-decode pipeline, recording to a file or not.
    OpenPlayback { record: bool },
    /// Set the pipeline playing.
    Play,
    /// Pause the pipeline.
    Pause,
    /// Capture this part of the screen; `None` is the whole screen.
    SetCaptureRegion(Option<CaptureRegion>),
    /// Feed this source into the pipeline.
    SetSource(ScreenSource),
    /// Send the broadcast to this receiver too.
    AddTarget(String),
    /// Stop sending the broadcast to this receiver.
    RemoveTarget(String),
    /// Tear the pipeline down, first letting what is in flight drain out if asked.
    Stop { drain: bool },
    /// Close the signaling endpoint.
    CloseEndpoint,
}

/// A failure of the outside work that a session asked for.
#[derive(Clone, Debug, PartialEq, Eq)]
pub enum SetupError {
    /// The control port could not be bound.
    Bind(String),
    /// The caster refused the control connection, or could not be reached.
    ConnectRefused,
    /// The media pipeline failed, with its own message.
    Pipeline(String),
}

} // verus!
