//! The rules of one download session: the "downloading" flag shown by the
//! window and the engine process that may be running. Cancelling clears the
//! flag at once, so a run that ends after a cancel is not reported as
//! completed.
use vstd::prelude::*;

verus! {

/// The state of the download session.
#[derive(Debug, Clone, Copy, PartialEq, Eq, Structural)]
pub struct Session {
    /// The window shows a download in progress.
    pub downloading: bool,
    /// An engine process is held and can be stopped.
    pub running: bool,
}

/// A download was started.
pub open spec fn started(s: Session) -> Session {
    Session { downloading: true, ..s }
}

/// The engine process of the download was launched.
pub open spec fn launched(s: Session) -> Session {
    Session { running: true, ..s }
}

/// The run ended: the session is idle again, and completion is announced only
/// if the window still showed the download.
pub open spec fn finished(s: Session) -> (Session, bool) {
    (Session { downloading: false, running: false }, s.downloading)
}

/// The user cancelled: the flag is cleared, and the process, if one is held,
/// is handed over to be stopped.
pub open spec fn cancelled(s: Session) -> (Session, bool) {
    (Session { downloading: false, running: false }, s.running)
}

impl Session {
    /// An idle session.
    pub fn new() -> (r: Session)
        ensures
            r == (Session { downloading: false, running: false }),
    {
        Session { downloading: false, running: false }
    }

    /// Marks a download as started.
    pub fn start(&mut self)
        ensures
            *final(self) == started(*old(self)),
    {
        self.downloading = true;
    }

    /// Records that the engine process was launched.
    pub fn launch(&mut self)
        ensures
            *final(self) == launched(*old(self)),
    {
        self.running = true;
    }

    /// Ends the run; returns whether completion is to be announced.
    pub fn finish(&mut self) -> (announce: bool)
        ensures
            (*final(self), announce) == finished(*old(self)),
    {
        let announce = self.downloading;
        self.downloading = false;
        self.running = false;
        announce
    }

    /// Cancels the download; returns whether a process is to be stopped.
    pub fn cancel(&mut self) -> (stop: bool)
        ensures
            (*final(self), stop) == cancelled(*old(self)),
    {
        let stop = self.running;
        self.downloading = false;
        self.running = false;
        stop
    }
}

/// A run that ends after a cancel is never reported as completed.
pub proof fn law_cancel_silences_completion(s: Session)
    ensures
        !finished(cancelled(s).0).1,
{
}

/// Launching the engine changes nothing but the process flag; so a run that
/// ends after a cancel is never reported as completed, whether the cancel came
/// before or after the engine was launched.
pub proof fn law_launch_keeps_flag(s: Session)
    ensures
        launched(s).downloading == s.downloading,
        launched(s).running,
        !finished(launched(cancelled(s).0)).1,
        !finished(cancelled(launched(s)).0).1,
        !finished(launched(cancelled(started(s)).0)).1,
{
}

/// A run is reported as completed at most once.
pub proof fn law_completion_announced_once(s: Session)
    ensures
        !finished(finished(s).0).1,
{
}

/// A download that is started, launched and not cancelled is reported as
/// completed when it ends.
pub proof fn law_uncancelled_run_completes(s: Session)
    ensures
        finished(launched(started(s))).1,
{
}

/// A cancel stops a process exactly when one is running, and a second cancel
/// has nothing left to stop.
pub proof fn law_cancel_stops_running_process(s: Session)
    ensures
        cancelled(s).1 == s.running,
        !cancelled(cancelled(s).0).1,
{
}

} // verus!
