use vstd::prelude::*;

verus! {

/// Why the embedded library could not be made available.
#[derive(Debug, PartialEq, Eq)]
pub enum LoadError {
    /// The temporary file could not be created or written.
    TempFile { reason: String },
    /// The written file is not a loadable library.
    NotLoadable { reason: String },
}

/// Where the one-time initialization stands.
#[derive(Clone, Copy, Debug, PartialEq, Eq, Structural)]
pub enum LoadPhase {
    /// Nothing has been done yet.
    Uninitialized,
    /// The embedded bytes are being written to a temporary file.
    Materializing,
    /// The file is written and is being opened as a library.
    FileMaterialized,
    /// The library is open; its handle is shared by every caller.
    Loaded,
    /// Initialization failed; it is never attempted again in this process.
    Failed,
}

/// What the caller of the loader reports.
#[derive(Debug, PartialEq, Eq)]
pub enum LoaderEvent {
    /// A caller asks for the library handle.
    Request,
    /// The whole embedded blob was written to the temporary file.
    FileWritten,
    /// The temporary file could not be created or written.
    FileFailed { reason: String },
    /// The temporary file was opened as a library.
    Opened,
    /// The temporary file could not be opened as a library.
    OpenFailed { reason: String },
}

/// What the caller of the loader is to do next.
#[derive(Clone, Copy, Debug, PartialEq, Eq, Structural)]
pub enum LoaderAction {
    /// Create a private temporary file and write the embedded blob to it.
    MaterializeFile,
    /// Open the written file as a library.
    OpenLibrary,
    /// Hand out the shared library handle.
    Ready,
    /// Initialization is in progress elsewhere: wait for it.
    Wait,
    /// Initialization has failed: the handle will never be available.
    Fail,
}

/// The lazy loader's state: initialized at most once per process.
#[derive(Debug, PartialEq, Eq)]
pub struct LazyLoader {
    pub phase: LoadPhase,
    /// Why initialization failed, once it has.
    pub error: Option<LoadError>,
}

pub open spec fn next_load_phase(p: LoadPhase, e: LoaderEvent) -> LoadPhase {
    match (p, e) {
        (LoadPhase::Uninitialized, LoaderEvent::Request) => LoadPhase::Materializing,
        (LoadPhase::Materializing, LoaderEvent::FileWritten) => LoadPhase::FileMaterialized,
        (LoadPhase::Materializing, LoaderEvent::FileFailed { .. }) => LoadPhase::Failed,
        (LoadPhase::FileMaterialized, LoaderEvent::Opened) => LoadPhase::Loaded,
        (LoadPhase::FileMaterialized, LoaderEvent::OpenFailed { .. }) => LoadPhase::Failed,
        _ => p,
    }
}

pub open spec fn load_action(p: LoadPhase, e: LoaderEvent) -> LoaderAction {
    match (p, e) {
        (LoadPhase::Uninitialized, LoaderEvent::Request) => LoaderAction::MaterializeFile,
        (LoadPhase::Materializing, LoaderEvent::FileWritten) => LoaderAction::OpenLibrary,
        (LoadPhase::Materializing, LoaderEvent::FileFailed { .. }) => LoaderAction::Fail,
        (LoadPhase::FileMaterialized, LoaderEvent::Opened) => LoaderAction::Ready,
        (LoadPhase::FileMaterialized, LoaderEvent::OpenFailed { .. }) => LoaderAction::Fail,
        (LoadPhase::Loaded, LoaderEvent::Request) => LoaderAction::Ready,
        (LoadPhase::Failed, _) => LoaderAction::Fail,
        _ => LoaderAction::Wait,
    }
}

/// The error recorded when step `p` fails on event `e`.
pub open spec fn load_error_matches(err: LoadError, p: LoadPhase, e: LoaderEvent) -> bool {
    match e {
        LoaderEvent::FileFailed { reason } => p == LoadPhase::Materializing
            && (err matches LoadError::TempFile { reason: r } && r == reason),
        LoaderEvent::OpenFailed { reason } => p == LoadPhase::FileMaterialized
            && (err matches LoadError::NotLoadable { reason: r } && r == reason),
        _ => false,
    }
}

impl LazyLoader {
    /// An error is recorded exactly when initialization has failed.
    pub open spec fn wf(&self) -> bool {
        (self.phase == LoadPhase::Failed) == (self.error is Some)
    }

    /// A loader that has done nothing yet.
    pub fn new() -> (r: LazyLoader)
        ensures
            r.phase == LoadPhase::Uninitialized,
            r.error is None,
            r.wf(),
    {
        LazyLoader { phase: LoadPhase::Uninitialized, error: None }
    }

    /// Takes a request or a report on the last action and returns the next
    /// action. The file is written and opened only on the first request, a
    /// failure is recorded and final, and the handle is handed out only once
    /// the library is open.
    pub fn advance(&mut self, event: LoaderEvent) -> (r: LoaderAction)
        ensures
            final(self).phase == next_load_phase(old(self).phase, event),
            r == load_action(old(self).phase, event),
            old(self).phase != LoadPhase::Failed && final(self).phase == LoadPhase::Failed
                ==> (final(self).error matches Some(err) && load_error_matches(err, old(self).phase, event)),
            !(old(self).phase != LoadPhase::Failed && final(self).phase == LoadPhase::Failed)
                ==> final(self).error == old(self).error,
            old(self).wf() ==> final(self).wf(),
    {
        match (self.phase, event) {
            (LoadPhase::Uninitialized, LoaderEvent::Request) => {
                self.phase = LoadPhase::Materializing;
                LoaderAction::MaterializeFile
            },
            (LoadPhase::Materializing, LoaderEvent::FileWritten) => {
                self.phase = LoadPhase::FileMaterialized;
                LoaderAction::OpenLibrary
            },
            (LoadPhase::Materializing, LoaderEvent::FileFailed { reason }) => {
                self.phase = LoadPhase::Failed;
                self.error = Some(LoadError::TempFile { reason });
                LoaderAction::Fail
            },
            (LoadPhase::FileMaterialized, LoaderEvent::Opened) => {
                self.phase = LoadPhase::Loaded;
                LoaderAction::Ready
            },
            (LoadPhase::FileMaterialized, LoaderEvent::OpenFailed { reason }) => {
                self.phase = LoadPhase::Failed;
                self.error = Some(LoadError::NotLoadable { reason });
                LoaderAction::Fail
            },
            (LoadPhase::Loaded, LoaderEvent::Request) => LoaderAction::Ready,
            (LoadPhase::Failed, _) => LoaderAction::Fail,
            _ => LoaderAction::Wait,
        }
    }
}

/// How many times the run from `p` through `evs` answers with `a`.
pub open spec fn count_answers(p: LoadPhase, evs: Seq<LoaderEvent>, a: LoaderAction) -> nat
    decreases evs.len(),
{
    if evs.len() == 0 {
        0
    } else {
        (if load_action(p, evs[0]) == a {
            1nat
        } else {
            0nat
        }) + count_answers(next_load_phase(p, evs[0]), evs.drop_first(), a)
    }
}

/// The phase reached from `p` through `evs`.
pub open spec fn phase_after(p: LoadPhase, evs: Seq<LoaderEvent>) -> LoadPhase
    decreases evs.len(),
{
    if evs.len() == 0 {
        p
    } else {
        phase_after(next_load_phase(p, evs[0]), evs.drop_first())
    }
}

/// A run from `p` writes the file only if nothing has been done yet, and
/// opens the library only if it has not been opened or failed already.
pub proof fn initialization_bounded(p: LoadPhase, evs: Seq<LoaderEvent>)
    ensures
        count_answers(p, evs, LoaderAction::MaterializeFile) <= (if p == LoadPhase::Uninitialized {
            1nat
        } else {
            0nat
        }),
        count_answers(p, evs, LoaderAction::OpenLibrary) <= (if p == LoadPhase::Uninitialized || p
            == LoadPhase::Materializing {
            1nat
        } else {
            0nat
        }),
    decreases evs.len(),
{
    if evs.len() > 0 {
        initialization_bounded(next_load_phase(p, evs[0]), evs.drop_first());
    }
}

/// However many callers ask for the handle, and whatever the outcome of each
/// step, the embedded blob is written to a file at most once and the library
/// is opened at most once in a process.
pub proof fn initialization_happens_once(evs: Seq<LoaderEvent>)
    ensures
        count_answers(LoadPhase::Uninitialized, evs, LoaderAction::MaterializeFile) <= 1,
        count_answers(LoadPhase::Uninitialized, evs, LoaderAction::OpenLibrary) <= 1,
{
    initialization_bounded(LoadPhase::Uninitialized, evs);
}

/// The handle is handed out only when the step leaves the library open, so
/// no caller sees a library whose file is still being written.
pub proof fn ready_only_when_loaded(p: LoadPhase, e: LoaderEvent)
    ensures
        load_action(p, e) == LoaderAction::Ready ==> next_load_phase(p, e) == LoadPhase::Loaded,
{
}

/// Once open, the library stays open: every request is answered with the
/// same handle and nothing is written or opened again.
pub proof fn loaded_is_final(n: nat)
    ensures
        count_answers(LoadPhase::Loaded, Seq::new(n, |i: int| LoaderEvent::Request), LoaderAction::Ready)
            == n,
        phase_after(LoadPhase::Loaded, Seq::new(n, |i: int| LoaderEvent::Request)) == LoadPhase::Loaded,
    decreases n,
{
    if n > 0 {
        let evs = Seq::new(n, |i: int| LoaderEvent::Request);
        loaded_is_final((n - 1) as nat);
        assert(evs.drop_first() =~= Seq::new((n - 1) as nat, |i: int| LoaderEvent::Request));
    }
}

/// When `n` callers (at least two) ask in turn and the first one's file write
/// and library open succeed, the file is written exactly once, the library
/// opened exactly once, and every caller is handed the one handle.
pub proof fn callers_share_one_library(n: nat)
    requires
        n >= 2,
    ensures
        ({
            let evs = seq![LoaderEvent::Request, LoaderEvent::FileWritten, LoaderEvent::Opened]
                + Seq::new((n - 1) as nat, |i: int| LoaderEvent::Request);
            &&& count_answers(LoadPhase::Uninitialized, evs, LoaderAction::MaterializeFile) == 1
            &&& count_answers(LoadPhase::Uninitialized, evs, LoaderAction::OpenLibrary) == 1
            &&& count_answers(LoadPhase::Uninitialized, evs, LoaderAction::Ready) == n
            &&& phase_after(LoadPhase::Uninitialized, evs) == LoadPhase::Loaded
        }),
{
    let rest = Seq::new((n - 1) as nat, |i: int| LoaderEvent::Request);
    let evs = seq![LoaderEvent::Request, LoaderEvent::FileWritten, LoaderEvent::Opened] + rest;
    let e1 = evs.drop_first();
    let e2 = e1.drop_first();
    let e3 = e2.drop_first();
    assert(e1 =~= seq![LoaderEvent::FileWritten, LoaderEvent::Opened] + rest);
    assert(e2 =~= seq![LoaderEvent::Opened] + rest);
    assert(e3 =~= rest);
    assert(evs[0] == LoaderEvent::Request && e1[0] == LoaderEvent::FileWritten && e2[0]
        == LoaderEvent::Opened);
    loaded_is_final((n - 1) as nat);
    initialization_bounded(LoadPhase::Loaded, rest);
    reveal_with_fuel(count_answers, 4);
    reveal_with_fuel(phase_after, 4);
}

/// Once initialization has failed, it stays failed and no later request is
/// ever handed a library.
pub proof fn load_failure_is_final(evs: Seq<LoaderEvent>)
    ensures
        count_answers(LoadPhase::Failed, evs, LoaderAction::Ready) == 0,
        phase_after(LoadPhase::Failed, evs) == LoadPhase::Failed,
    decreases evs.len(),
{
    if evs.len() > 0 {
        load_failure_is_final(evs.drop_first());
    }
}

/// If the written blob is not a loadable library, initialization fails and
/// no request, then or later, is ever handed a library.
pub proof fn corrupt_blob_never_ready(evs: Seq<LoaderEvent>)
    requires
        evs.len() > 0,
        evs[0] is OpenFailed,
    ensures
        count_answers(LoadPhase::FileMaterialized, evs, LoaderAction::Ready) == 0,
        phase_after(LoadPhase::FileMaterialized, evs) == LoadPhase::Failed,
{
    load_failure_is_final(evs.drop_first());
}

} // verus!
