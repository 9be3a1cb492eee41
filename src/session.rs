use vstd::prelude::*;

verus! {

/// What the decoder reported after taking one chunk.
#[derive(Clone, Copy, Debug, PartialEq, Eq, Structural)]
pub enum DecodingState {
    /// More audio is needed; a partial hypothesis may be available.
    Running,
    /// The decoder closed an utterance on its own.
    Finalized,
    /// The decoder could not take the chunk.
    Failed,
}

/// Where a recognizer session stands between windows.
#[derive(Clone, Copy, Debug, PartialEq, Eq, Structural)]
pub enum SessionPhase {
    /// Nothing has been fed since the last finalize.
    Idle,
    /// Chunks are being fed while the capture stream plays.
    Accepting,
    /// The stream is paused and the window's transcript is being extracted.
    Finalizing,
}

/// Bookkeeping for the one long-lived decoder: which phase it is in and
/// whether any audio reached it since the last finalize.
#[derive(Clone, Copy, Debug, PartialEq, Eq, Structural)]
pub struct RecognizerSession {
    pub phase: SessionPhase,
    pub heard: bool,
}

/// The empty transcript: nothing recognised in the window.
pub open spec fn empty_text() -> Seq<char> {
    Seq::empty()
}

/// The session after a chunk of `samples` samples was fed, whatever the
/// decoder reported for it.
pub open spec fn after_accept(s: RecognizerSession, samples: nat) -> RecognizerSession {
    RecognizerSession { phase: SessionPhase::Accepting, heard: s.heard || samples > 0 }
}

/// The transcript a finalize yields: the decoder's text when audio reached it
/// since the last finalize, else the empty text.
pub open spec fn finalized_text(s: RecognizerSession, decoded: Seq<char>) -> Seq<char> {
    if s.heard {
        decoded
    } else {
        empty_text()
    }
}

impl RecognizerSession {
    /// An idle session has taken no audio.
    pub open spec fn wf(&self) -> bool {
        self.phase == SessionPhase::Idle ==> !self.heard
    }

    /// A fresh session, idle and with no audio.
    pub fn new() -> (r: RecognizerSession)
        ensures
            r.wf(),
            r.phase == SessionPhase::Idle,
            !r.heard,
    {
        RecognizerSession { phase: SessionPhase::Idle, heard: false }
    }

    /// Records that a chunk of `samples` mono samples was fed to the decoder,
    /// which answered `outcome`. Returns whether the chunk failed and should be
    /// reported; a failure changes nothing else, and the next chunk is taken
    /// as usual.
    pub fn accept(&mut self, samples: usize, outcome: DecodingState) -> (report: bool)
        requires
            old(self).wf(),
            old(self).phase != SessionPhase::Finalizing,
        ensures
            final(self).wf(),
            *final(self) == after_accept(*old(self), samples as nat),
            report == (outcome == DecodingState::Failed),
    {
        self.phase = SessionPhase::Accepting;
        self.heard = self.heard || samples > 0;
        match outcome {
            DecodingState::Failed => true,
            _ => false,
        }
    }

    /// Starts closing the window. Returns whether the decoder holds audio and
    /// must be asked for its final text.
    pub fn begin_finalize(&mut self) -> (consult_decoder: bool)
        requires
            old(self).wf(),
            old(self).phase != SessionPhase::Finalizing,
        ensures
            final(self).wf(),
            final(self).phase == SessionPhase::Finalizing,
            final(self).heard == old(self).heard,
            consult_decoder == old(self).heard,
    {
        self.phase = SessionPhase::Finalizing;
        self.heard
    }

    /// Closes the window with the decoder's final text (ignored, and best
    /// passed empty, when the decoder was not consulted) and returns the
    /// window's transcript. The session is idle again afterwards.
    pub fn end_finalize(&mut self, decoded: String) -> (transcript: String)
        requires
            old(self).wf(),
            old(self).phase == SessionPhase::Finalizing,
        ensures
            final(self).wf(),
            final(self).phase == SessionPhase::Idle,
            !final(self).heard,
            transcript@ == finalized_text(*old(self), decoded@),
    {
        let heard = self.heard;
        self.phase = SessionPhase::Idle;
        self.heard = false;
        if heard {
            decoded
        } else {
            String::new()
        }
    }
}

/// A failed chunk leaves the session exactly as a successful one would: it
/// can take the next chunk of the same window, and audio from later chunks
/// still reaches the window's transcript.
pub proof fn lemma_failure_is_recoverable(s: RecognizerSession, first: nat, next: nat, decoded: Seq<char>)
    requires
        s.wf(),
        s.phase != SessionPhase::Finalizing,
    ensures
        after_accept(s, first).wf(),
        after_accept(s, first).phase != SessionPhase::Finalizing,
        next > 0 ==> finalized_text(after_accept(after_accept(s, first), next), decoded) == decoded,
{
}

} // verus!
