use vstd::prelude::*;

use crate::args::{ArgsModel, UserArgs};
use crate::config::{command_dir, join_spec, manifest_name, manifest_path};
use crate::error::DxError;
use crate::plan::{
    build_argv,
    build_argv_spec,
    publishes_ports,
    publishes_ports_spec,
    run_argv,
    run_argv_spec,
    strs,
};

verus! {

/// Where an invocation stands.
#[derive(Debug, Clone, Copy, PartialEq, Eq, Structural)]
pub enum Phase {
    /// Waiting to hear whether the command directory exists.
    CheckingDir,
    /// Waiting to hear whether the manifest exists.
    CheckingManifest,
    /// Waiting for the compose tool to be located.
    Locating,
    /// The build child is running.
    Building,
    /// Waiting for the manifest text, read for the ports heuristic.
    ReadingManifest,
    /// The run child is running.
    Running,
    /// The run child was asked to terminate after an interrupt.
    Terminating,
    /// The invocation is over.
    Finished,
}

/// The order in which the phases are passed through.
pub open spec fn rank(p: Phase) -> nat {
    match p {
        Phase::CheckingDir => 0,
        Phase::CheckingManifest => 1,
        Phase::Locating => 2,
        Phase::Building => 3,
        Phase::ReadingManifest => 4,
        Phase::Running => 5,
        Phase::Terminating => 6,
        Phase::Finished => 7,
    }
}

/// What the surrounding program reports back after performing an action.
#[derive(Debug, PartialEq, Eq)]
pub enum Event {
    /// The path asked about exists, or not.
    Exists(bool),
    /// The outcome of locating the compose tool.
    Located(Result<String, DxError>),
    /// The manifest text, or `None` when it could not be read.
    ManifestText(Option<String>),
    /// The child could not be started.
    SpawnFailed,
    /// The child exited, with its exit code when it has one.
    Exited(Option<i32>),
    /// The user interrupted.
    Interrupt,
}

pub enum EventModel {
    Exists(bool),
    Located(Result<Seq<char>, DxError>),
    ManifestText(Option<Seq<char>>),
    SpawnFailed,
    Exited(Option<i32>),
    Interrupt,
}

impl View for Event {
    type V = EventModel;

    open spec fn view(&self) -> EventModel {
        match self {
            Event::Exists(b) => EventModel::Exists(*b),
            Event::Located(Ok(c)) => EventModel::Located(Ok(c@)),
            Event::Located(Err(e)) => EventModel::Located(Err(*e)),
            Event::ManifestText(Some(t)) => EventModel::ManifestText(Some(t@)),
            Event::ManifestText(None) => EventModel::ManifestText(None),
            Event::SpawnFailed => EventModel::SpawnFailed,
            Event::Exited(c) => EventModel::Exited(*c),
            Event::Interrupt => EventModel::Interrupt,
        }
    }
}

/// A child to start: the program, its working directory and its arguments.
/// Its standard streams and environment are the parent's.
#[derive(Debug, PartialEq, Eq)]
pub struct ChildSpec {
    pub program: String,
    pub cwd: String,
    pub args: Vec<String>,
}

/// What the surrounding program is to do next.
#[derive(Debug, PartialEq, Eq)]
pub enum Action {
    /// Report with `Exists` whether this path exists.
    CheckExists(String),
    /// Report with `Located` the compose tool found on the search path.
    LocateComposer,
    /// Report with `ManifestText` the text of this file.
    ReadManifest(String),
    /// Start this child and report `Exited` or `SpawnFailed`.
    Spawn(ChildSpec),
    /// Ask the running child to terminate, then report `Exited`.
    Kill,
    /// Nothing to do: the event did not apply here.
    Wait,
    /// The invocation is over: a run-phase exit code, or an error.
    Finish(Result<Option<i32>, DxError>),
}

pub enum ActionModel {
    CheckExists(Seq<char>),
    LocateComposer,
    ReadManifest(Seq<char>),
    Spawn { program: Seq<char>, cwd: Seq<char>, args: Seq<Seq<char>> },
    Kill,
    Wait,
    Finish(Result<Option<i32>, DxError>),
}

impl View for Action {
    type V = ActionModel;

    open spec fn view(&self) -> ActionModel {
        match self {
            Action::CheckExists(p) => ActionModel::CheckExists(p@),
            Action::LocateComposer => ActionModel::LocateComposer,
            Action::ReadManifest(p) => ActionModel::ReadManifest(p@),
            Action::Spawn(c) => ActionModel::Spawn {
                program: c.program@,
                cwd: c.cwd@,
                args: strs(c.args@),
            },
            Action::Kill => ActionModel::Kill,
            Action::Wait => ActionModel::Wait,
            Action::Finish(o) => ActionModel::Finish(*o),
        }
    }
}

/// One invocation of a command: build, then run, in the command directory.
pub struct Dispatch {
    phase: Phase,
    name: String,
    dir: String,
    manifest: String,
    composer: String,
    no_cache: bool,
    environ: Vec<String>,
    volume: Vec<String>,
    outcome: Result<Option<i32>, DxError>,
}

pub struct DispatchModel {
    pub phase: Phase,
    pub name: Seq<char>,
    pub dir: Seq<char>,
    pub manifest: Seq<char>,
    pub composer: Seq<char>,
    pub no_cache: bool,
    pub environ: Seq<Seq<char>>,
    pub volume: Seq<Seq<char>>,
    pub outcome: Result<Option<i32>, DxError>,
}

impl View for Dispatch {
    type V = DispatchModel;

    closed spec fn view(&self) -> DispatchModel {
        DispatchModel {
            phase: self.phase,
            name: self.name@,
            dir: self.dir@,
            manifest: self.manifest@,
            composer: self.composer@,
            no_cache: self.no_cache,
            environ: strs(self.environ@),
            volume: strs(self.volume@),
            outcome: self.outcome,
        }
    }
}

/// An invocation of command `name` with the given flags, under `config_dir`,
/// before anything has been checked.
pub open spec fn start_spec(a: ArgsModel, name: Seq<char>, config_dir: Seq<char>) -> DispatchModel {
    let dir = join_spec(config_dir, name);
    DispatchModel {
        phase: Phase::CheckingDir,
        name,
        dir,
        manifest: join_spec(dir, manifest_name()),
        composer: Seq::empty(),
        no_cache: a.no_cache,
        environ: a.environ,
        volume: a.volume,
        outcome: Ok(None),
    }
}

/// The invocation ends with outcome `o`.
pub open spec fn finish_spec(s: DispatchModel, o: Result<Option<i32>, DxError>) -> (
    DispatchModel,
    ActionModel,
) {
    (DispatchModel { phase: Phase::Finished, outcome: o, ..s }, ActionModel::Finish(o))
}

/// Whether the ports heuristic fires on what was read of the manifest.
pub open spec fn ports_of(t: Option<Seq<char>>) -> bool {
    match t {
        Some(x) => publishes_ports_spec(x),
        None => false,
    }
}

/// The next state and action after event `e` in state `s`. An event that
/// does not apply to the phase changes nothing and asks for nothing; an
/// interrupt applies in the run phase alone.
pub open spec fn step_spec(s: DispatchModel, e: EventModel) -> (DispatchModel, ActionModel) {
    let ignore = (s, ActionModel::Wait);
    match s.phase {
        Phase::CheckingDir => match e {
            EventModel::Exists(true) => (
                DispatchModel { phase: Phase::CheckingManifest, ..s },
                ActionModel::CheckExists(s.manifest),
            ),
            EventModel::Exists(false) => finish_spec(s, Err(DxError::CommandNotFound)),
            _ => ignore,
        },
        Phase::CheckingManifest => match e {
            EventModel::Exists(true) => (
                DispatchModel { phase: Phase::Locating, ..s },
                ActionModel::LocateComposer,
            ),
            EventModel::Exists(false) => finish_spec(s, Err(DxError::ManifestMissing)),
            _ => ignore,
        },
        Phase::Locating => match e {
            EventModel::Located(Ok(c)) => (
                DispatchModel { phase: Phase::Building, composer: c, ..s },
                ActionModel::Spawn { program: c, cwd: s.dir, args: build_argv_spec(s.no_cache) },
            ),
            EventModel::Located(Err(err)) => finish_spec(s, Err(err)),
            _ => ignore,
        },
        Phase::Building => match e {
            EventModel::Exited(Some(0i32)) => (
                DispatchModel { phase: Phase::ReadingManifest, ..s },
                ActionModel::ReadManifest(s.manifest),
            ),
            EventModel::Exited(_) => finish_spec(s, Err(DxError::BuildFailed)),
            EventModel::SpawnFailed => finish_spec(s, Err(DxError::SpawnFailed)),
            _ => ignore,
        },
        Phase::ReadingManifest => match e {
            EventModel::ManifestText(t) => (
                DispatchModel { phase: Phase::Running, ..s },
                ActionModel::Spawn {
                    program: s.composer,
                    cwd: s.dir,
                    args: run_argv_spec(s.environ, s.volume, ports_of(t), s.name),
                },
            ),
            _ => ignore,
        },
        Phase::Running => match e {
            EventModel::Exited(c) => finish_spec(s, Ok(c)),
            EventModel::SpawnFailed => finish_spec(s, Err(DxError::SpawnFailed)),
            EventModel::Interrupt => (
                DispatchModel { phase: Phase::Terminating, ..s },
                ActionModel::Kill,
            ),
            _ => ignore,
        },
        Phase::Terminating => match e {
            EventModel::Exited(_) => finish_spec(s, Err(DxError::Interrupted)),
            _ => ignore,
        },
        Phase::Finished => (s, ActionModel::Finish(s.outcome)),
    }
}

/// Starts the invocation of the command named in `args`, under
/// `config_dir`. Without a command name this is `CommandNotFound`. The first
/// action asks whether the command directory exists.
pub fn run_command(args: UserArgs, config_dir: &str) -> (r: Result<(Dispatch, Action), DxError>)
    ensures
        match args.command {
            None => r is Err && r->Err_0 == DxError::CommandNotFound,
            Some(n) => r is Ok && r->Ok_0.0@ == start_spec(args@, n@, config_dir@)
                && r->Ok_0.1@ == ActionModel::CheckExists(join_spec(config_dir@, n@)),
        },
{
    let UserArgs { environ, volume, no_cache, command } = args;
    let name = match command {
        Some(n) => n,
        None => {
            return Err(DxError::CommandNotFound);
        },
    };
    let dir = command_dir(config_dir, name.as_str());
    let manifest = manifest_path(dir.as_str());
    let first = Action::CheckExists(dir.clone());
    let d = Dispatch {
        phase: Phase::CheckingDir,
        name,
        dir,
        manifest,
        composer: String::new(),
        no_cache,
        environ,
        volume,
        outcome: Ok(None),
    };
    proof {
        assert(d@.composer =~= Seq::<char>::empty());
    }
    Ok((d, first))
}

impl Dispatch {
    /// The phase the invocation is in.
    pub fn phase(&self) -> (r: Phase)
        ensures
            r == self@.phase,
    {
        self.phase
    }

    /// Ends the invocation with outcome `o`.
    fn finish(&mut self, o: Result<Option<i32>, DxError>) -> (a: Action)
        ensures
            (final(self)@, a@) == finish_spec(old(self)@, o),
    {
        self.phase = Phase::Finished;
        self.outcome = o;
        Action::Finish(o)
    }

    /// Takes in what the surrounding program reports and says what it is to
    /// do next.
    pub fn step(&mut self, e: Event) -> (a: Action)
        ensures
            (final(self)@, a@) == step_spec(old(self)@, e@),
    {
        match self.phase {
            Phase::CheckingDir => match e {
                Event::Exists(true) => {
                    self.phase = Phase::CheckingManifest;
                    Action::CheckExists(self.manifest.clone())
                },
                Event::Exists(false) => self.finish(Err(DxError::CommandNotFound)),
                _ => Action::Wait,
            },
            Phase::CheckingManifest => match e {
                Event::Exists(true) => {
                    self.phase = Phase::Locating;
                    Action::LocateComposer
                },
                Event::Exists(false) => self.finish(Err(DxError::ManifestMissing)),
                _ => Action::Wait,
            },
            Phase::Locating => match e {
                Event::Located(Ok(c)) => {
                    self.phase = Phase::Building;
                    self.composer = c;
                    Action::Spawn(
                        ChildSpec {
                            program: self.composer.clone(),
                            cwd: self.dir.clone(),
                            args: build_argv(self.no_cache),
                        },
                    )
                },
                Event::Located(Err(err)) => self.finish(Err(err)),
                _ => Action::Wait,
            },
            Phase::Building => match e {
                Event::Exited(Some(0i32)) => {
                    self.phase = Phase::ReadingManifest;
                    Action::ReadManifest(self.manifest.clone())
                },
                Event::Exited(_) => self.finish(Err(DxError::BuildFailed)),
                Event::SpawnFailed => self.finish(Err(DxError::SpawnFailed)),
                _ => Action::Wait,
            },
            Phase::ReadingManifest => match e {
                Event::ManifestText(t) => {
                    let ports = match t {
                        Some(x) => publishes_ports(x.as_str()),
                        None => false,
                    };
                    self.phase = Phase::Running;
                    Action::Spawn(
                        ChildSpec {
                            program: self.composer.clone(),
                            cwd: self.dir.clone(),
                            args: run_argv(&self.environ, &self.volume, ports, &self.name),
                        },
                    )
                },
                _ => Action::Wait,
            },
            Phase::Running => match e {
                Event::Exited(c) => self.finish(Ok(c)),
                Event::SpawnFailed => self.finish(Err(DxError::SpawnFailed)),
                Event::Interrupt => {
                    self.phase = Phase::Terminating;
                    Action::Kill
                },
                _ => Action::Wait,
            },
            Phase::Terminating => match e {
                Event::Exited(_) => self.finish(Err(DxError::Interrupted)),
                _ => Action::Wait,
            },
            Phase::Finished => Action::Finish(self.outcome),
        }
    }
}

/// A finished invocation stays finished, repeats its outcome and starts no
/// child, whatever is reported to it.
pub proof fn lemma_finished_is_final(s: DispatchModel, e: EventModel)
    requires
        s.phase == Phase::Finished,
    ensures
        step_spec(s, e) == (s, ActionModel::Finish(s.outcome)),
{
}

/// Every step keeps the command, its directory and its manifest, and never
/// moves back to an earlier phase. A child is started in two steps only: the
/// build child, on leaving `Locating` for `Building`, and the run child, on
/// leaving `ReadingManifest` for `Running`. Both run the located compose tool
/// in the command directory. So one invocation starts the tool at most
/// twice, build first, then run.
pub proof fn lemma_spawns_build_then_run(s: DispatchModel, e: EventModel)
    ensures
        ({
            let (t, a) = step_spec(s, e);
            &&& t.name == s.name && t.dir == s.dir && t.manifest == s.manifest
            &&& t.no_cache == s.no_cache && t.environ == s.environ && t.volume == s.volume
            &&& rank(s.phase) <= rank(t.phase)
            &&& a is Spawn ==> {
                &&& a->Spawn_cwd == s.dir
                &&& a->Spawn_program == t.composer
                &&& rank(s.phase) < rank(t.phase)
                &&& (s.phase == Phase::Locating && t.phase == Phase::Building && a->Spawn_args
                    == build_argv_spec(s.no_cache)) || (s.phase == Phase::ReadingManifest
                    && t.phase == Phase::Running && exists|ports: bool|
                    a->Spawn_args == run_argv_spec(s.environ, s.volume, ports, s.name))
            }
        }),
{
    let (t, a) = step_spec(s, e);
    if s.phase == Phase::ReadingManifest {
        if let EventModel::ManifestText(x) = e {
            let ports = ports_of(x);
            assert(a->Spawn_args == run_argv_spec(s.environ, s.volume, ports, s.name));
        }
    }
}

/// On the usual path (the directory and manifest exist, the tool is found,
/// the build succeeds) the invocation asks, in this order, to check the
/// manifest, locate the tool, start the build child, read the manifest,
/// start the run child, and then ends with the run child's exit code. Both
/// children run in the command directory `<config dir>/<name>`.
pub proof fn lemma_usual_path(
    a: ArgsModel,
    name: Seq<char>,
    config_dir: Seq<char>,
    composer: Seq<char>,
    text: Option<Seq<char>>,
    code: Option<i32>,
)
    ensures
        ({
            let s0 = start_spec(a, name, config_dir);
            let dir = join_spec(config_dir, name);
            let (s1, a1) = step_spec(s0, EventModel::Exists(true));
            let (s2, a2) = step_spec(s1, EventModel::Exists(true));
            let (s3, a3) = step_spec(s2, EventModel::Located(Ok(composer)));
            let (s4, a4) = step_spec(s3, EventModel::Exited(Some(0i32)));
            let (s5, a5) = step_spec(s4, EventModel::ManifestText(text));
            let (s6, a6) = step_spec(s5, EventModel::Exited(code));
            &&& a1 == ActionModel::CheckExists(join_spec(dir, manifest_name()))
            &&& a2 == ActionModel::LocateComposer
            &&& a3 == ActionModel::Spawn {
                program: composer,
                cwd: dir,
                args: build_argv_spec(a.no_cache),
            }
            &&& a4 == ActionModel::ReadManifest(join_spec(dir, manifest_name()))
            &&& a5 == ActionModel::Spawn {
                program: composer,
                cwd: dir,
                args: run_argv_spec(a.environ, a.volume, ports_of(text), name),
            }
            &&& a6 == ActionModel::Finish(Ok(code))
            &&& s6.phase == Phase::Finished
        }),
{
}

/// A missing manifest ends the invocation with `ManifestMissing`, and no
/// child is started then or later.
pub proof fn lemma_manifest_missing(s: DispatchModel, later: EventModel)
    requires
        s.phase == Phase::CheckingManifest,
    ensures
        ({
            let (t, a) = step_spec(s, EventModel::Exists(false));
            &&& a == ActionModel::Finish(Err(DxError::ManifestMissing))
            &&& t.phase == Phase::Finished
            &&& step_spec(t, later) == (t, a)
        }),
{
}

/// A build child that ends without success ends the invocation with
/// `BuildFailed`, and the run child is never started.
pub proof fn lemma_build_failure(s: DispatchModel, code: Option<i32>, later: EventModel)
    requires
        s.phase == Phase::Building,
        code != Some(0i32),
    ensures
        ({
            let (t, a) = step_spec(s, EventModel::Exited(code));
            &&& a == ActionModel::Finish(Err(DxError::BuildFailed))
            &&& t.phase == Phase::Finished
            &&& step_spec(t, later) == (t, a)
        }),
{
}

/// An interrupt while the run child runs asks for the child to be killed;
/// once it has exited, whatever its exit code, the invocation ends with
/// `Interrupted`.
pub proof fn lemma_interrupt(s: DispatchModel, code: Option<i32>)
    requires
        s.phase == Phase::Running,
    ensures
        ({
            let (t, a) = step_spec(s, EventModel::Interrupt);
            &&& a == ActionModel::Kill
            &&& t.phase == Phase::Terminating
            &&& step_spec(t, EventModel::Exited(code)).1 == ActionModel::Finish(
                Err(DxError::Interrupted),
            )
        }),
{
}

/// How many children an invocation in phase `p` may still start.
pub open spec fn budget(p: Phase) -> nat {
    if rank(p) <= 2 {
        2
    } else if rank(p) <= 4 {
        1
    } else {
        0
    }
}

/// How many of the actions start a child.
pub open spec fn spawns(acts: Seq<ActionModel>) -> nat
    decreases acts.len(),
{
    if acts.len() == 0 {
        0
    } else {
        (if acts[0] is Spawn {
            1nat
        } else {
            0nat
        }) + spawns(acts.drop_first())
    }
}

/// The actions asked for when the events are reported one after the other,
/// starting in state `s`.
pub open spec fn actions_of(s: DispatchModel, es: Seq<EventModel>) -> Seq<ActionModel>
    decreases es.len(),
{
    if es.len() == 0 {
        Seq::empty()
    } else {
        let (t, a) = step_spec(s, es[0]);
        seq![a] + actions_of(t, es.drop_first())
    }
}

proof fn lemma_spawns_cons(a: ActionModel, rest: Seq<ActionModel>)
    ensures
        spawns(seq![a] + rest) == (if a is Spawn {
            1nat
        } else {
            0nat
        }) + spawns(rest),
{
    assert((seq![a] + rest).drop_first() =~= rest);
}

proof fn lemma_no_spawns(acts: Seq<ActionModel>)
    requires
        spawns(acts) == 0,
    ensures
        forall|i: int| 0 <= i < acts.len() ==> !(#[trigger] acts[i] is Spawn),
    decreases acts.len(),
{
    if acts.len() > 0 {
        lemma_no_spawns(acts.drop_first());
        assert forall|i: int| 0 <= i < acts.len() implies !(#[trigger] acts[i] is Spawn) by {
            if i > 0 {
                assert(acts[i] == acts.drop_first()[i - 1]);
            }
        }
    }
}

proof fn lemma_step_budget(s: DispatchModel, e: EventModel)
    ensures
        ({
            let (t, a) = step_spec(s, e);
            &&& a is Spawn ==> budget(t.phase) + 1 == budget(s.phase)
            &&& !(a is Spawn) ==> budget(t.phase) == budget(s.phase) || t.phase == Phase::Finished
        }),
{
}

proof fn lemma_trace_spawns(s: DispatchModel, es: Seq<EventModel>)
    ensures
        ({
            let acts = actions_of(s, es);
            &&& spawns(acts) <= budget(s.phase)
            &&& forall|i: int|
                0 <= i < acts.len() && #[trigger] acts[i] is Spawn ==> {
                    &&& acts[i]->Spawn_cwd == s.dir
                    &&& 2 - budget(s.phase) + spawns(acts.take(i)) == 0 ==> acts[i]->Spawn_args
                        == build_argv_spec(s.no_cache)
                    &&& 2 - budget(s.phase) + spawns(acts.take(i)) > 0 ==> exists|ports: bool|
                        acts[i]->Spawn_args == run_argv_spec(s.environ, s.volume, ports, s.name)
                }
        }),
    decreases es.len(),
{
    if es.len() > 0 {
        let (t, a) = step_spec(s, es[0]);
        let rest = es.drop_first();
        let tail = actions_of(t, rest);
        let acts = actions_of(s, es);
        lemma_trace_spawns(t, rest);
        lemma_spawns_build_then_run(s, es[0]);
        lemma_step_budget(s, es[0]);
        lemma_spawns_cons(a, tail);
        assert(acts == seq![a] + tail);
        if !(a is Spawn) && t.phase == Phase::Finished {
            lemma_no_spawns(tail);
        }
        assert forall|i: int| 0 <= i < acts.len() && #[trigger] acts[i] is Spawn implies {
            &&& acts[i]->Spawn_cwd == s.dir
            &&& 2 - budget(s.phase) + spawns(acts.take(i)) == 0 ==> acts[i]->Spawn_args
                == build_argv_spec(s.no_cache)
            &&& 2 - budget(s.phase) + spawns(acts.take(i)) > 0 ==> exists|ports: bool|
                acts[i]->Spawn_args == run_argv_spec(s.environ, s.volume, ports, s.name)
        } by {
            if i == 0 {
                assert(acts.take(0) =~= Seq::<ActionModel>::empty());
            } else {
                assert(acts[i] == tail[i - 1]);
                assert(acts.take(i) =~= seq![a] + tail.take(i - 1));
                lemma_spawns_cons(a, tail.take(i - 1));
            }
        }
    }
}

/// Whatever is reported to it, an invocation started for command `name`
/// starts at most two children, all of them in the command directory
/// `<config dir>/<name>`: the first child is the build, and any child after
/// it is the run of `name` with the passthrough lists.
pub proof fn lemma_at_most_build_then_run(
    a: ArgsModel,
    name: Seq<char>,
    config_dir: Seq<char>,
    es: Seq<EventModel>,
)
    ensures
        ({
            let acts = actions_of(start_spec(a, name, config_dir), es);
            &&& spawns(acts) <= 2
            &&& forall|i: int|
                0 <= i < acts.len() && #[trigger] acts[i] is Spawn ==> {
                    &&& acts[i]->Spawn_cwd == join_spec(config_dir, name)
                    &&& spawns(acts.take(i)) == 0 ==> acts[i]->Spawn_args == build_argv_spec(
                        a.no_cache,
                    )
                    &&& spawns(acts.take(i)) > 0 ==> exists|ports: bool|
                        acts[i]->Spawn_args == run_argv_spec(a.environ, a.volume, ports, name)
                }
        }),
{
    lemma_trace_spawns(start_spec(a, name, config_dir), es);
}

} // verus!
