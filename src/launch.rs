//! The decisions of one launch run, as a state machine: the caller performs
//! each action it returns (probing the disk, spawning, attaching, waiting) and
//! feeds the outcome back as the next event.
use vstd::prelude::*;
use vstd::string::*;
use windows_sys::Win32::Foundation::HANDLE;

verus! {

/// One program to start.
#[derive(Clone, Debug)]
pub struct LaunchEntry {
    pub path: String,
    pub work_dir: String,
    /// Started without a console, a window or inherited standard streams.
    pub detached: bool,
    /// The run waits for this program to exit.
    pub wait_for_exit: bool,
}

impl LaunchEntry {
    /// A helper program: started detached, never waited for.
    pub fn helper(path: String, work_dir: String) -> (r: LaunchEntry)
        ensures
            r.path@ == path@,
            r.work_dir@ == work_dir@,
            r.detached,
            !r.wait_for_exit,
    {
        LaunchEntry { path, work_dir, detached: true, wait_for_exit: false }
    }

    /// The primary program: started with the default console behaviour; the
    /// run waits for its exit when `wait_for_exit` is set.
    pub fn primary(path: String, work_dir: String, wait_for_exit: bool) -> (r: LaunchEntry)
        ensures
            r.path@ == path@,
            r.work_dir@ == work_dir@,
            !r.detached,
            r.wait_for_exit == wait_for_exit,
    {
        LaunchEntry { path, work_dir, detached: false, wait_for_exit }
    }
}

/// The programs of one run, with their paths already resolved.
#[derive(Clone, Debug)]
pub struct Manifest {
    pub primary: LaunchEntry,
    pub helpers: Vec<LaunchEntry>,
}

/// Where a run stands. `Returned`, `Exited` and `Failed` are final.
#[derive(Clone, Copy, Debug, PartialEq, Eq, Structural)]
pub enum Phase {
    Init,
    Validating,
    LaunchingHelpers,
    LaunchingPrimary,
    Waiting,
    Returned,
    Exited,
    Failed,
}

/// What the caller reports back to the run.
#[derive(Debug)]
pub enum Event {
    /// The run is to start.
    Begin,
    /// Which of the paths exist: the primary's working directory, the primary
    /// program, and each helper program by its index.
    Checked { dir_exists: bool, primary_exists: bool, helpers_present: Vec<bool> },
    /// The helper launches have been set going (not necessarily finished).
    HelpersStarted,
    /// The primary program was spawned; `process` is its handle.
    PrimarySpawned { process: HANDLE },
    /// Spawning the primary program failed.
    PrimarySpawnFailed,
    /// The waited-for primary program has exited.
    PrimaryExited,
}

/// What the run asks the caller to do next.
#[derive(Debug)]
pub enum Action {
    /// Probe the paths of the manifest and answer with `Event::Checked`.
    CheckPaths,
    /// Launch these helpers (indices into the manifest's helpers), each on its
    /// own, attaching each spawned process to the job and ignoring failures;
    /// then answer with `Event::HelpersStarted`.
    StartHelpers { indices: Vec<usize> },
    /// Spawn the primary program in its working directory.
    SpawnPrimary,
    /// Attach the primary to the job and wait for its exit.
    AttachAndWait { process: HANDLE },
    /// Attach the primary to the job; the run is over.
    AttachAndReturn { process: HANDLE },
    /// Show this fatal error to the user; the run is over.
    Report { message: String },
    /// The waited-for primary has exited; the run is over.
    Finish,
    /// The event was not expected now and changed nothing.
    Nothing,
}

/// The mathematical value of an `Action`.
pub enum ActionView {
    CheckPaths,
    StartHelpers(Seq<usize>),
    SpawnPrimary,
    AttachAndWait(HANDLE),
    AttachAndReturn(HANDLE),
    Report(Seq<char>),
    Finish,
    Nothing,
}

impl View for Action {
    type V = ActionView;

    open spec fn view(&self) -> ActionView {
        match self {
            Action::CheckPaths => ActionView::CheckPaths,
            Action::StartHelpers { indices } => ActionView::StartHelpers(indices@),
            Action::SpawnPrimary => ActionView::SpawnPrimary,
            Action::AttachAndWait { process } => ActionView::AttachAndWait(*process),
            Action::AttachAndReturn { process } => ActionView::AttachAndReturn(*process),
            Action::Report { message } => ActionView::Report(message@),
            Action::Finish => ActionView::Finish,
            Action::Nothing => ActionView::Nothing,
        }
    }
}

/// The error shown when a required path is missing ("not found").
pub open spec fn missing_message(what: Seq<char>, path: Seq<char>) -> Seq<char> {
    "未找到"@ + what + ": "@ + path
}

/// The error shown when the primary program cannot be started ("cannot start").
pub open spec fn spawn_failure_message(what: Seq<char>, path: Seq<char>) -> Seq<char> {
    "无法启动"@ + what + ": "@ + path
}

/// The fatal error that the path probe gives, if any: a missing primary
/// program first, then a missing working directory.
pub open spec fn validation_error(m: Manifest, dir_exists: bool, primary_exists: bool) -> Option<
    Seq<char>,
> {
    if !primary_exists {
        Some(missing_message("游戏文件"@, m.primary.path@))
    } else if !dir_exists {
        Some(missing_message("游戏目录"@, m.primary.work_dir@))
    } else {
        None
    }
}

/// The indices below `n` of the helpers that the probe found.
pub open spec fn present_helpers(present: Seq<bool>, n: nat) -> Seq<usize>
    decreases n,
{
    if n == 0 {
        Seq::empty()
    } else {
        let before = present_helpers(present, (n - 1) as nat);
        if n - 1 < present.len() && present[n - 1] {
            before.push((n - 1) as usize)
        } else {
            before
        }
    }
}

/// One step of a run of manifest `m`: the next phase and the action asked for.
pub open spec fn next(m: Manifest, phase: Phase, ev: Event) -> (Phase, ActionView) {
    match ev {
        Event::Begin => if phase == Phase::Init {
            (Phase::Validating, ActionView::CheckPaths)
        } else {
            (phase, ActionView::Nothing)
        },
        Event::Checked { dir_exists, primary_exists, helpers_present } => if phase
            == Phase::Validating {
            match validation_error(m, dir_exists, primary_exists) {
                Some(msg) => (Phase::Failed, ActionView::Report(msg)),
                None => (
                    Phase::LaunchingHelpers,
                    ActionView::StartHelpers(
                        present_helpers(helpers_present@, m.helpers@.len()),
                    ),
                ),
            }
        } else {
            (phase, ActionView::Nothing)
        },
        Event::HelpersStarted => if phase == Phase::LaunchingHelpers {
            (Phase::LaunchingPrimary, ActionView::SpawnPrimary)
        } else {
            (phase, ActionView::Nothing)
        },
        Event::PrimarySpawned { process } => if phase == Phase::LaunchingPrimary {
            if m.primary.wait_for_exit {
                (Phase::Waiting, ActionView::AttachAndWait(process))
            } else {
                (Phase::Returned, ActionView::AttachAndReturn(process))
            }
        } else {
            (phase, ActionView::Nothing)
        },
        Event::PrimarySpawnFailed => if phase == Phase::LaunchingPrimary {
            (Phase::Failed, ActionView::Report(spawn_failure_message("游戏文件"@, m.primary.path@)))
        } else {
            (phase, ActionView::Nothing)
        },
        Event::PrimaryExited => if phase == Phase::Waiting {
            (Phase::Exited, ActionView::Finish)
        } else {
            (phase, ActionView::Nothing)
        },
    }
}

/// The final phase and the actions of a run of `m` fed the events `evs` from `phase`.
pub open spec fn run(m: Manifest, phase: Phase, evs: Seq<Event>) -> (Phase, Seq<ActionView>)
    decreases evs.len(),
{
    if evs.len() == 0 {
        (phase, Seq::empty())
    } else {
        let (mid, first) = next(m, phase, evs[0]);
        let (last, rest) = run(m, mid, evs.drop_first());
        (last, seq![first] + rest)
    }
}

/// How many of `acts` report a fatal error to the user.
pub open spec fn reports(acts: Seq<ActionView>) -> nat
    decreases acts.len(),
{
    if acts.len() == 0 {
        0
    } else {
        (if acts[0] is Report {
            1nat
        } else {
            0nat
        }) + reports(acts.drop_first())
    }
}

/// The phases in which a run has ended.
pub open spec fn is_final(phase: Phase) -> bool {
    phase == Phase::Returned || phase == Phase::Exited || phase == Phase::Failed
}

proof fn lemma_run_cons(m: Manifest, phase: Phase, ev: Event, rest: Seq<Event>)
    ensures
        run(m, phase, seq![ev] + rest) == ({
            let (mid, first) = next(m, phase, ev);
            let (last, acts) = run(m, mid, rest);
            (last, seq![first] + acts)
        }),
{
    let evs = seq![ev] + rest;
    assert(evs[0] == ev);
    assert(evs.drop_first() =~= rest);
}

proof fn lemma_reports_cons(a: ActionView, acts: Seq<ActionView>)
    ensures
        reports(seq![a] + acts) == (if a is Report {
            1nat
        } else {
            0nat
        }) + reports(acts),
{
    let all = seq![a] + acts;
    assert(all[0] == a);
    assert(all.drop_first() =~= acts);
}

/// A run that has ended stays where it is and asks for nothing more,
/// whatever events follow: in particular it reports no further error.
pub proof fn lemma_final_phase_is_kept(m: Manifest, phase: Phase, evs: Seq<Event>)
    requires
        is_final(phase),
    ensures
        run(m, phase, evs).0 == phase,
        run(m, phase, evs).1.len() == evs.len(),
        reports(run(m, phase, evs).1) == 0,
        forall|i: int| 0 <= i < evs.len() ==> run(m, phase, evs).1[i] is Nothing,
    decreases evs.len(),
{
    if evs.len() > 0 {
        lemma_final_phase_is_kept(m, phase, evs.drop_first());
        let acts = run(m, phase, evs).1;
        let tail = run(m, phase, evs.drop_first()).1;
        assert(acts == seq![ActionView::Nothing] + tail);
        lemma_reports_cons(ActionView::Nothing, tail);
        assert forall|i: int| 0 <= i < evs.len() implies acts[i] is Nothing by {
            if i > 0 {
                assert(acts[i] == tail[i - 1]);
            }
        }
    }
}

/// A run whose primary program is missing fails, reports exactly one error,
/// and that error ends with the primary's path; nothing that follows changes
/// the outcome.
pub proof fn lemma_missing_primary_fails(
    m: Manifest,
    dir_exists: bool,
    helpers_present: Vec<bool>,
    rest: Seq<Event>,
)
    ensures
        ({
            let evs = seq![Event::Begin] + (seq![
                Event::Checked { dir_exists, primary_exists: false, helpers_present },
            ] + rest);
            let (last, acts) = run(m, Phase::Init, evs);
            let msg = missing_message("游戏文件"@, m.primary.path@);
            &&& last == Phase::Failed
            &&& reports(acts) == 1
            &&& acts[1] == ActionView::Report(msg)
            &&& msg.subrange(msg.len() - m.primary.path@.len(), msg.len() as int) == m.primary.path@
        }),
{
    let checked = Event::Checked { dir_exists, primary_exists: false, helpers_present };
    lemma_run_cons(m, Phase::Init, Event::Begin, seq![checked] + rest);
    lemma_run_cons(m, Phase::Validating, checked, rest);
    lemma_final_phase_is_kept(m, Phase::Failed, rest);
    let tail = run(m, Phase::Failed, rest).1;
    let msg = missing_message("游戏文件"@, m.primary.path@);
    lemma_reports_cons(ActionView::Report(msg), tail);
    lemma_reports_cons(ActionView::CheckPaths, seq![ActionView::Report(msg)] + tail);
    assert(seq![ActionView::CheckPaths] + (seq![ActionView::Report(msg)] + tail) =~= run(
        m,
        Phase::Init,
        seq![Event::Begin] + (seq![checked] + rest),
    ).1);
    let prefix = "未找到"@ + "游戏文件"@ + ": "@;
    assert(msg == prefix + m.primary.path@);
    assert(msg.subrange(prefix.len() as int, msg.len() as int) =~= m.primary.path@);
}

/// Whichever helpers are missing, a run whose primary program and directory
/// exist and whose primary spawns ends in success without reporting an error:
/// `Exited` after the primary's exit when it is waited for, `Returned` at once
/// otherwise.
pub proof fn lemma_missing_helpers_do_not_fail(
    m: Manifest,
    helpers_present: Vec<bool>,
    process: HANDLE,
)
    ensures
        ({
            let start = seq![
                Event::Begin,
                Event::Checked { dir_exists: true, primary_exists: true, helpers_present },
                Event::HelpersStarted,
                Event::PrimarySpawned { process },
            ];
            let evs = if m.primary.wait_for_exit {
                start.push(Event::PrimaryExited)
            } else {
                start
            };
            let (last, acts) = run(m, Phase::Init, evs);
            &&& last == (if m.primary.wait_for_exit {
                Phase::Exited
            } else {
                Phase::Returned
            })
            &&& reports(acts) == 0
        }),
{
    let checked = Event::Checked { dir_exists: true, primary_exists: true, helpers_present };
    let spawned = Event::PrimarySpawned { process };
    let e: Seq<Event> = Seq::empty();
    let tail: Seq<Event> = if m.primary.wait_for_exit {
        seq![Event::PrimaryExited]
    } else {
        e
    };
    let evs = seq![Event::Begin] + (seq![checked] + (seq![Event::HelpersStarted] + (seq![spawned]
        + tail)));
    let start = seq![Event::Begin, checked, Event::HelpersStarted, spawned];
    if m.primary.wait_for_exit {
        assert(evs =~= start.push(Event::PrimaryExited));
    } else {
        assert(evs =~= start);
    }
    let after_spawn = if m.primary.wait_for_exit {
        Phase::Waiting
    } else {
        Phase::Returned
    };
    lemma_run_cons(m, Phase::Init, Event::Begin, seq![checked] + (seq![Event::HelpersStarted] + (
    seq![spawned] + tail)));
    lemma_run_cons(m, Phase::Validating, checked, seq![Event::HelpersStarted] + (seq![spawned]
        + tail));
    lemma_run_cons(m, Phase::LaunchingHelpers, Event::HelpersStarted, seq![spawned] + tail);
    lemma_run_cons(m, Phase::LaunchingPrimary, spawned, tail);
    let a_spawn = next(m, Phase::LaunchingPrimary, spawned).1;
    let a_checked = next(m, Phase::Validating, checked).1;
    let t4 = run(m, after_spawn, tail).1;
    if m.primary.wait_for_exit {
        lemma_run_cons(m, Phase::Waiting, Event::PrimaryExited, e);
        lemma_reports_cons(ActionView::Finish, Seq::empty());
    }
    assert(reports(t4) == 0);
    lemma_reports_cons(a_spawn, t4);
    lemma_reports_cons(ActionView::SpawnPrimary, seq![a_spawn] + t4);
    lemma_reports_cons(a_checked, seq![ActionView::SpawnPrimary] + (seq![a_spawn] + t4));
    lemma_reports_cons(
        ActionView::CheckPaths,
        seq![a_checked] + (seq![ActionView::SpawnPrimary] + (seq![a_spawn] + t4)),
    );
}

/// Builds `<prefix><what>: <path>`.
fn message(prefix: &str, what: &str, path: &String) -> (r: String)
    ensures
        r@ == prefix@ + what@ + ": "@ + path@,
{
    let mut r = String::from_str(prefix);
    r.append(what);
    r.append(": ");
    r.append(path.as_str());
    r
}

/// The indices, in order, of the first `n` helpers that `present` marks as
/// found; a helper with no mark is taken as missing.
pub fn select_present_helpers(present: &Vec<bool>, n: usize) -> (r: Vec<usize>)
    ensures
        r@ == present_helpers(present@, n as nat),
{
    let mut r: Vec<usize> = Vec::new();
    let mut i: usize = 0;
    while i < n
        invariant
            i <= n,
            r@ == present_helpers(present@, i as nat),
        decreases n - i,
    {
        if i < present.len() && present[i] {
            r.push(i);
        }
        i = i + 1;
    }
    r
}

/// One launch run over a manifest.
#[derive(Debug)]
pub struct ApplicationContext {
    manifest: Manifest,
    phase: Phase,
}

impl ApplicationContext {
    pub closed spec fn spec_manifest(&self) -> Manifest {
        self.manifest
    }

    pub closed spec fn spec_phase(&self) -> Phase {
        self.phase
    }

    /// A run that has not begun.
    pub fn new(manifest: Manifest) -> (r: ApplicationContext)
        ensures
            r.spec_manifest() == manifest,
            r.spec_phase() == Phase::Init,
    {
        ApplicationContext { manifest, phase: Phase::Init }
    }

    pub fn manifest(&self) -> (r: &Manifest)
        ensures
            *r == self.spec_manifest(),
    {
        &self.manifest
    }

    pub fn phase(&self) -> (r: Phase)
        ensures
            r == self.spec_phase(),
    {
        self.phase
    }

    /// Checks the probe of the primary's paths: `Err` with the message to show
    /// when the primary program or its working directory is missing.
    pub fn validate_game_paths(&self, dir_exists: bool, game_exists: bool) -> (r: Result<
        (),
        String,
    >)
        ensures
            r is Ok <==> validation_error(self.spec_manifest(), dir_exists, game_exists) is None,
            r is Err ==> validation_error(self.spec_manifest(), dir_exists, game_exists)
                == Some(r->Err_0@),
    {
        if !game_exists {
            Err(message("未找到", "游戏文件", &self.manifest.primary.path))
        } else if !dir_exists {
            Err(message("未找到", "游戏目录", &self.manifest.primary.work_dir))
        } else {
            Ok(())
        }
    }

    /// Advances the run by one event and returns the action the caller is to
    /// perform. An event that does not fit the current phase changes nothing.
    pub fn step(&mut self, ev: Event) -> (r: Action)
        ensures
            final(self).spec_manifest() == old(self).spec_manifest(),
            (final(self).spec_phase(), r@) == next(old(self).spec_manifest(), old(self).spec_phase(), ev),
    {
        let phase = self.phase;
        match ev {
            Event::Begin => {
                if phase == Phase::Init {
                    self.phase = Phase::Validating;
                    Action::CheckPaths
                } else {
                    Action::Nothing
                }
            },
            Event::Checked { dir_exists, primary_exists, helpers_present } => {
                if phase == Phase::Validating {
                    match self.validate_game_paths(dir_exists, primary_exists) {
                        Err(message) => {
                            self.phase = Phase::Failed;
                            Action::Report { message }
                        },
                        Ok(()) => {
                            let indices = select_present_helpers(
                                &helpers_present,
                                self.manifest.helpers.len(),
                            );
                            self.phase = Phase::LaunchingHelpers;
                            Action::StartHelpers { indices }
                        },
                    }
                } else {
                    Action::Nothing
                }
            },
            Event::HelpersStarted => {
                if phase == Phase::LaunchingHelpers {
                    self.phase = Phase::LaunchingPrimary;
                    Action::SpawnPrimary
                } else {
                    Action::Nothing
                }
            },
            Event::PrimarySpawned { process } => {
                if phase == Phase::LaunchingPrimary {
                    if self.manifest.primary.wait_for_exit {
                        self.phase = Phase::Waiting;
                        Action::AttachAndWait { process }
                    } else {
                        self.phase = Phase::Returned;
                        Action::AttachAndReturn { process }
                    }
                } else {
                    Action::Nothing
                }
            },
            Event::PrimarySpawnFailed => {
                if phase == Phase::LaunchingPrimary {
                    self.phase = Phase::Failed;
                    Action::Report {
                        message: message("无法启动", "游戏文件", &self.manifest.primary.path),
                    }
                } else {
                    Action::Nothing
                }
            },
            Event::PrimaryExited => {
                if phase == Phase::Waiting {
                    self.phase = Phase::Exited;
                    Action::Finish
                } else {
                    Action::Nothing
                }
            },
        }
    }
}

} // verus!
