use vstd::prelude::*;

use crate::session::{finalized_text, RecognizerSession};
use crate::message::{announcement, announcement_text, chatbox_message, chatbox_message_spec};

verus! {

/// The capture window's length, in seconds, that the pipeline uses by default.
pub const DEFAULT_WINDOW_SECS: u64 = 5;

/// Where the capture cycle stands.
#[derive(Clone, Copy, Debug, PartialEq, Eq, Structural)]
pub enum CyclePhase {
    /// Nothing has been sent yet.
    Startup,
    /// The start-up announcement is being sent.
    Announcing,
    /// The capture stream plays for one window, then is paused.
    Listening,
    /// The stream is paused; the session's transcript is awaited.
    Finalizing,
    /// A transcript is being sent.
    Delivering,
    /// The cycle was cancelled.
    Stopped,
}

/// What happened outside since the last action.
#[derive(Debug, PartialEq, Eq)]
pub enum CycleEvent {
    /// The pipeline is set up and may begin.
    Start,
    /// The last message was handed to the sink.
    Sent,
    /// The window elapsed and the capture stream is paused.
    WindowClosed,
    /// The session's transcript for the window just closed.
    Transcript(String),
    /// The caller asks the cycle to end.
    Cancel,
}

/// What the caller must do next.
#[derive(Debug, PartialEq, Eq)]
pub enum CycleAction {
    /// Send these bytes to the sink, then report `Sent`.
    Send(Vec<u8>),
    /// Play the capture stream for this many seconds, pause it, then report
    /// `WindowClosed`.
    Listen(u64),
    /// Finalize the recognizer session and report its `Transcript`.
    Finalize,
    /// End the loop.
    Stop,
}

/// Whether a transcript is worth delivering: an empty one never is.
pub open spec fn forwards(t: Seq<char>) -> bool {
    t.len() > 0
}

/// Whether `event` is one the cycle expects in `phase`.
pub open spec fn expects(phase: CyclePhase, event: CycleEvent) -> bool {
    match event {
        CycleEvent::Start => phase == CyclePhase::Startup,
        CycleEvent::Sent => phase == CyclePhase::Announcing || phase == CyclePhase::Delivering,
        CycleEvent::WindowClosed => phase == CyclePhase::Listening,
        CycleEvent::Transcript(_) => phase == CyclePhase::Finalizing,
        CycleEvent::Cancel => phase != CyclePhase::Stopped,
    }
}

/// The capture loop's decisions: announce once, then listen for a window,
/// finalize, deliver a non-empty transcript, and listen again, until cancelled.
pub struct CaptureCycle {
    pub phase: CyclePhase,
    pub window_secs: u64,
}

impl CaptureCycle {
    /// A cycle that has sent nothing yet, with windows of `window_secs` seconds.
    pub fn new(window_secs: u64) -> (r: CaptureCycle)
        ensures
            r.phase == CyclePhase::Startup,
            r.window_secs == window_secs,
    {
        CaptureCycle { phase: CyclePhase::Startup, window_secs }
    }

    /// Takes the next event and returns the action it calls for, or `None`,
    /// with the cycle unchanged, when the event is not expected now.
    pub fn step(&mut self, event: CycleEvent) -> (r: Option<CycleAction>)
        ensures
            final(self).window_secs == old(self).window_secs,
            !expects(old(self).phase, event) <==> r is None,
            !expects(old(self).phase, event) ==> final(self).phase == old(self).phase,
            expects(old(self).phase, event) && event is Cancel ==> (r == Some(CycleAction::Stop)
                && final(self).phase == CyclePhase::Stopped),
            expects(old(self).phase, event) && event is Start ==> (r matches Some(
                CycleAction::Send(b),
            ) && b@ == chatbox_message_spec(announcement_text()) && final(self).phase
                == CyclePhase::Announcing),
            expects(old(self).phase, event) && event is Sent ==> (r == Some(
                CycleAction::Listen(old(self).window_secs),
            ) && final(self).phase == CyclePhase::Listening),
            expects(old(self).phase, event) && event is WindowClosed ==> (r == Some(
                CycleAction::Finalize,
            ) && final(self).phase == CyclePhase::Finalizing),
            forall|t: String|
                expects(old(self).phase, event) && event == CycleEvent::Transcript(t) ==> {
                    &&& forwards(t@) ==> (r matches Some(CycleAction::Send(b)) && b@
                        == chatbox_message_spec(t@) && final(self).phase == CyclePhase::Delivering)
                    &&& !forwards(t@) ==> (r == Some(CycleAction::Listen(old(self).window_secs))
                        && final(self).phase == CyclePhase::Listening)
                },
    {
        match event {
            CycleEvent::Start => {
                if self.phase == CyclePhase::Startup {
                    self.phase = CyclePhase::Announcing;
                    Some(CycleAction::Send(announcement()))
                } else {
                    None
                }
            },
            CycleEvent::Sent => {
                if self.phase == CyclePhase::Announcing || self.phase == CyclePhase::Delivering {
                    self.phase = CyclePhase::Listening;
                    Some(CycleAction::Listen(self.window_secs))
                } else {
                    None
                }
            },
            CycleEvent::WindowClosed => {
                if self.phase == CyclePhase::Listening {
                    self.phase = CyclePhase::Finalizing;
                    Some(CycleAction::Finalize)
                } else {
                    None
                }
            },
            CycleEvent::Transcript(t) => {
                if self.phase != CyclePhase::Finalizing {
                    None
                } else if t.as_str().is_empty() {
                    self.phase = CyclePhase::Listening;
                    Some(CycleAction::Listen(self.window_secs))
                } else {
                    self.phase = CyclePhase::Delivering;
                    Some(CycleAction::Send(chatbox_message(t.as_str())))
                }
            },
            CycleEvent::Cancel => {
                if self.phase != CyclePhase::Stopped {
                    self.phase = CyclePhase::Stopped;
                    Some(CycleAction::Stop)
                } else {
                    None
                }
            },
        }
    }
}

/// A window in which no audio reached the session finalizes to the empty
/// transcript, whatever the decoder would say, and the cycle does not deliver it.
pub proof fn lemma_silent_window_not_forwarded(s: RecognizerSession, decoded: Seq<char>)
    requires
        s.wf(),
        !s.heard,
    ensures
        finalized_text(s, decoded).len() == 0,
        !forwards(finalized_text(s, decoded)),
{
}

} // verus!
