use vstd::prelude::*;

use crate::naming::{unix_now, version_name, version_name_of};
use crate::remote::{activation_argv, copy_argv, copy_call, ensure_dir_argv, make_dir_call, restart_call};
use crate::request::{build_output_root, default_restart_command, path_join, DeployArgs};

verus! {

/// Why a deployment stopped; each carries the failure's own message.
#[derive(Debug, PartialEq, Eq)]
pub enum DeployError {
    /// The local binary could not be opened or read.
    Io(String),
    /// The current commit could not be read from source control.
    SourceControl(String),
    /// A remote command (directory, copy, link or restart) failed.
    RemoteCommand(String),
}

pub enum ErrorModel {
    Io(Seq<char>),
    SourceControl(Seq<char>),
    RemoteCommand(Seq<char>),
}

impl View for DeployError {
    type V = ErrorModel;

    open spec fn view(&self) -> ErrorModel {
        match self {
            DeployError::Io(m) => ErrorModel::Io(m@),
            DeployError::SourceControl(m) => ErrorModel::SourceControl(m@),
            DeployError::RemoteCommand(m) => ErrorModel::RemoteCommand(m@),
        }
    }
}

impl DeployError {
    /// The failure's message.
    pub fn message(&self) -> (r: String)
        ensures
            r@ == match self@ {
                ErrorModel::Io(m) => m,
                ErrorModel::SourceControl(m) => m,
                ErrorModel::RemoteCommand(m) => m,
            },
    {
        match self {
            DeployError::Io(m) => m.clone(),
            DeployError::SourceControl(m) => m.clone(),
            DeployError::RemoteCommand(m) => m.clone(),
        }
    }
}

/// Where a deployment stands. The stages follow one another in this order;
/// any of them may end in `Failed`, and `Done` and `Failed` are final.
#[derive(Debug, PartialEq, Eq)]
pub enum Stage {
    Start,
    Hashing,
    Naming { digest: String },
    PreparingDir { name: String },
    Copying { name: String },
    Activating { name: String },
    Done { name: String },
    Failed { error: DeployError },
}

pub enum StageModel {
    Start,
    Hashing,
    Naming { digest: Seq<char> },
    PreparingDir { name: Seq<char> },
    Copying { name: Seq<char> },
    Activating { name: Seq<char> },
    Done { name: Seq<char> },
    Failed { error: ErrorModel },
}

impl View for Stage {
    type V = StageModel;

    open spec fn view(&self) -> StageModel {
        match self {
            Stage::Start => StageModel::Start,
            Stage::Hashing => StageModel::Hashing,
            Stage::Naming { digest } => StageModel::Naming { digest: digest@ },
            Stage::PreparingDir { name } => StageModel::PreparingDir { name: name@ },
            Stage::Copying { name } => StageModel::Copying { name: name@ },
            Stage::Activating { name } => StageModel::Activating { name: name@ },
            Stage::Done { name } => StageModel::Done { name: name@ },
            Stage::Failed { error } => StageModel::Failed { error: error@ },
        }
    }
}

/// What the caller reports back after carrying out an action.
#[derive(Debug, PartialEq, Eq)]
pub enum Event {
    /// Begin the deployment.
    Begin,
    /// The local binary was hashed to `digest`.
    Hashed { digest: String },
    /// The local binary could not be hashed.
    HashFailed { reason: String },
    /// Source control reported the current commit.
    CommitRead { commit: String },
    /// Source control could not report the current commit.
    CommitFailed { reason: String },
    /// The remote command that was asked for succeeded.
    StepSucceeded,
    /// The remote command that was asked for failed.
    StepFailed { reason: String },
}

pub enum EventModel {
    Begin,
    Hashed { digest: Seq<char> },
    HashFailed { reason: Seq<char> },
    CommitRead { commit: Seq<char> },
    CommitFailed { reason: Seq<char> },
    StepSucceeded,
    StepFailed { reason: Seq<char> },
}

impl View for Event {
    type V = EventModel;

    open spec fn view(&self) -> EventModel {
        match self {
            Event::Begin => EventModel::Begin,
            Event::Hashed { digest } => EventModel::Hashed { digest: digest@ },
            Event::HashFailed { reason } => EventModel::HashFailed { reason: reason@ },
            Event::CommitRead { commit } => EventModel::CommitRead { commit: commit@ },
            Event::CommitFailed { reason } => EventModel::CommitFailed { reason: reason@ },
            Event::StepSucceeded => EventModel::StepSucceeded,
            Event::StepFailed { reason } => EventModel::StepFailed { reason: reason@ },
        }
    }
}

/// What the caller is to do next.
#[derive(Debug, PartialEq, Eq)]
pub enum Action {
    /// Hash the local file at `path`.
    HashFile { path: String },
    /// Read the current commit from source control.
    ReadCommit,
    /// Run `argv` to make sure the remote versions directory exists.
    EnsureRemoteDir { argv: Vec<String> },
    /// Run `argv` to copy the binary to the remote host.
    CopyFile { argv: Vec<String> },
    /// Run `argv` to repoint the link and restart the service.
    Activate { argv: Vec<String> },
    /// The deployment succeeded; `name` is the deployed version.
    Finish { name: String },
    /// The deployment failed with `error`.
    Abort { error: DeployError },
    /// Nothing is left to do for this event.
    Idle,
}

pub enum ActionModel {
    HashFile { path: Seq<char> },
    ReadCommit,
    EnsureRemoteDir { argv: Seq<Seq<char>> },
    CopyFile { argv: Seq<Seq<char>> },
    Activate { argv: Seq<Seq<char>> },
    Finish { name: Seq<char> },
    Abort { error: ErrorModel },
    Idle,
}

impl View for Action {
    type V = ActionModel;

    open spec fn view(&self) -> ActionModel {
        match self {
            Action::HashFile { path } => ActionModel::HashFile { path: path@ },
            Action::ReadCommit => ActionModel::ReadCommit,
            Action::EnsureRemoteDir { argv } => ActionModel::EnsureRemoteDir { argv: argv.deep_view() },
            Action::CopyFile { argv } => ActionModel::CopyFile { argv: argv.deep_view() },
            Action::Activate { argv } => ActionModel::Activate { argv: argv.deep_view() },
            Action::Finish { name } => ActionModel::Finish { name: name@ },
            Action::Abort { error } => ActionModel::Abort { error: error@ },
            Action::Idle => ActionModel::Idle,
        }
    }
}

/// One step of a deployment of `args` whose service restarts with `restart`:
/// the stage after event `e` in stage `s`, and the action it asks for. `now`
/// is the clock's reading in seconds, used only when the version is named.
pub open spec fn step(
    args: DeployArgs,
    restart: Seq<char>,
    s: StageModel,
    e: EventModel,
    now: int,
) -> (StageModel, ActionModel) {
    let ssh = args.server_ssh@;
    let path = args.server_path@;
    let binary = args.binary_name@;
    match s {
        StageModel::Start => match e {
            EventModel::Begin => (
                StageModel::Hashing,
                ActionModel::HashFile { path: path_join(build_output_root(), binary) },
            ),
            _ => (s, ActionModel::Idle),
        },
        StageModel::Hashing => match e {
            EventModel::Hashed { digest } => (StageModel::Naming { digest }, ActionModel::ReadCommit),
            EventModel::HashFailed { reason } => (
                StageModel::Failed { error: ErrorModel::Io(reason) },
                ActionModel::Abort { error: ErrorModel::Io(reason) },
            ),
            _ => (s, ActionModel::Idle),
        },
        StageModel::Naming { digest } => match e {
            EventModel::CommitRead { commit } => (
                StageModel::PreparingDir { name: version_name_of(binary, now, commit, digest) },
                ActionModel::EnsureRemoteDir { argv: ensure_dir_argv(ssh, path) },
            ),
            EventModel::CommitFailed { reason } => (
                StageModel::Failed { error: ErrorModel::SourceControl(reason) },
                ActionModel::Abort { error: ErrorModel::SourceControl(reason) },
            ),
            _ => (s, ActionModel::Idle),
        },
        StageModel::PreparingDir { name } => match e {
            EventModel::StepSucceeded => (
                StageModel::Copying { name },
                ActionModel::CopyFile {
                    argv: copy_argv(path_join(build_output_root(), binary), ssh, path, name),
                },
            ),
            EventModel::StepFailed { reason } => (
                StageModel::Failed { error: ErrorModel::RemoteCommand(reason) },
                ActionModel::Abort { error: ErrorModel::RemoteCommand(reason) },
            ),
            _ => (s, ActionModel::Idle),
        },
        StageModel::Copying { name } => match e {
            EventModel::StepSucceeded => (
                StageModel::Activating { name },
                ActionModel::Activate { argv: activation_argv(ssh, path, name, binary, restart) },
            ),
            EventModel::StepFailed { reason } => (
                StageModel::Failed { error: ErrorModel::RemoteCommand(reason) },
                ActionModel::Abort { error: ErrorModel::RemoteCommand(reason) },
            ),
            _ => (s, ActionModel::Idle),
        },
        StageModel::Activating { name } => match e {
            EventModel::StepSucceeded => (StageModel::Done { name }, ActionModel::Finish { name }),
            EventModel::StepFailed { reason } => (
                StageModel::Failed { error: ErrorModel::RemoteCommand(reason) },
                ActionModel::Abort { error: ErrorModel::RemoteCommand(reason) },
            ),
            _ => (s, ActionModel::Idle),
        },
        StageModel::Done { .. } => (s, ActionModel::Idle),
        StageModel::Failed { .. } => (s, ActionModel::Idle),
    }
}

/// The stage reached and the actions asked for when `events` arrive one after
/// the other from stage `s`, the clock reading `times[i]` at the `i`-th.
pub open spec fn run(
    args: DeployArgs,
    restart: Seq<char>,
    s: StageModel,
    events: Seq<EventModel>,
    times: Seq<int>,
) -> (StageModel, Seq<ActionModel>)
    decreases events.len(),
{
    if events.len() == 0 || times.len() == 0 {
        (s, Seq::empty())
    } else {
        let (s1, a) = step(args, restart, s, events[0], times[0]);
        let (s2, rest) = run(args, restart, s1, events.drop_first(), times.drop_first());
        (s2, seq![a] + rest)
    }
}

/// The position of a stage in the order in which a deployment passes through
/// them; both final stages come last.
pub open spec fn stage_rank(s: StageModel) -> nat {
    match s {
        StageModel::Start => 0,
        StageModel::Hashing => 1,
        StageModel::Naming { .. } => 2,
        StageModel::PreparingDir { .. } => 3,
        StageModel::Copying { .. } => 4,
        StageModel::Activating { .. } => 5,
        StageModel::Done { .. } => 6,
        StageModel::Failed { .. } => 6,
    }
}

/// A step that asks for nothing leaves the stage as it was; any other moves
/// strictly forward. No stage is entered twice and nothing is retried.
pub proof fn lemma_steps_only_move_forward(
    args: DeployArgs,
    restart: Seq<char>,
    s: StageModel,
    e: EventModel,
    now: int,
)
    ensures
        step(args, restart, s, e, now).1 is Idle ==> step(args, restart, s, e, now).0 == s,
        !(step(args, restart, s, e, now).1 is Idle) ==> stage_rank(s) < stage_rank(step(args, restart, s, e, now).0),
{
}

/// The activation command is asked for only right after the copy succeeded,
/// and the copy only right after the versions directory was made.
pub proof fn lemma_each_step_needs_the_one_before(
    args: DeployArgs,
    restart: Seq<char>,
    s: StageModel,
    e: EventModel,
    now: int,
)
    ensures
        step(args, restart, s, e, now).1 is Activate ==> (s is Copying && e is StepSucceeded),
        step(args, restart, s, e, now).1 is CopyFile ==> (s is PreparingDir && e is StepSucceeded),
        step(args, restart, s, e, now).1 is EnsureRemoteDir ==> (s is Naming && e is CommitRead),
        step(args, restart, s, e, now).1 is ReadCommit ==> (s is Hashing && e is Hashed),
{
}

/// Once a deployment is done or has failed, whatever arrives changes nothing
/// and asks for nothing.
pub proof fn lemma_final_stages_stay(
    args: DeployArgs,
    restart: Seq<char>,
    s: StageModel,
    events: Seq<EventModel>,
    times: Seq<int>,
)
    requires
        s is Done || s is Failed,
    ensures
        run(args, restart, s, events, times).0 == s,
        forall|i: int|
            0 <= i < run(args, restart, s, events, times).1.len()
                ==> #[trigger] run(args, restart, s, events, times).1[i] == ActionModel::Idle,
    decreases events.len(),
{
    if events.len() > 0 && times.len() > 0 {
        lemma_final_stages_stay(args, restart, s, events.drop_first(), times.drop_first());
        let rest = run(args, restart, s, events.drop_first(), times.drop_first()).1;
        assert forall|i: int| 0 <= i < run(args, restart, s, events, times).1.len()
            implies #[trigger] run(args, restart, s, events, times).1[i] == ActionModel::Idle by {
            if i > 0 {
                assert(run(args, restart, s, events, times).1[i] == rest[i - 1]);
            }
        }
    }
}

/// When the binary cannot be hashed the deployment fails with an I/O error at
/// once, and whatever arrives afterwards asks for nothing: the commit is not
/// read and no remote command runs.
pub proof fn lemma_hash_failure_stops_everything(
    args: DeployArgs,
    restart: Seq<char>,
    reason: Seq<char>,
    later: Seq<EventModel>,
    times: Seq<int>,
)
    requires
        times.len() == later.len() + 1,
    ensures
        ({
            let (last, actions) = run(args, restart, StageModel::Hashing,
                seq![EventModel::HashFailed { reason }] + later, times);
            &&& last == StageModel::Failed { error: ErrorModel::Io(reason) }
            &&& actions.len() == times.len()
            &&& actions[0] == ActionModel::Abort { error: ErrorModel::Io(reason) }
            &&& forall|i: int| 1 <= i < actions.len() ==> #[trigger] actions[i] == ActionModel::Idle
        }),
{
    lemma_failure_stops_everything(args, restart, StageModel::Hashing, EventModel::HashFailed { reason },
        ErrorModel::Io(reason), later, times);
}

/// When the copy to the remote host fails the deployment fails with a remote
/// command error at once, and the activation command is never asked for.
pub proof fn lemma_copy_failure_never_activates(
    args: DeployArgs,
    restart: Seq<char>,
    name: Seq<char>,
    reason: Seq<char>,
    later: Seq<EventModel>,
    times: Seq<int>,
)
    requires
        times.len() == later.len() + 1,
    ensures
        ({
            let (last, actions) = run(args, restart, StageModel::Copying { name },
                seq![EventModel::StepFailed { reason }] + later, times);
            &&& last == StageModel::Failed { error: ErrorModel::RemoteCommand(reason) }
            &&& actions[0] == ActionModel::Abort { error: ErrorModel::RemoteCommand(reason) }
            &&& forall|i: int| 0 <= i < actions.len() ==> !(#[trigger] actions[i] is Activate)
        }),
{
    lemma_failure_stops_everything(args, restart, StageModel::Copying { name }, EventModel::StepFailed { reason },
        ErrorModel::RemoteCommand(reason), later, times);
}

proof fn lemma_failure_stops_everything(
    args: DeployArgs,
    restart: Seq<char>,
    s: StageModel,
    e: EventModel,
    error: ErrorModel,
    later: Seq<EventModel>,
    times: Seq<int>,
)
    requires
        times.len() == later.len() + 1,
        step(args, restart, s, e, times[0]) == (StageModel::Failed { error }, ActionModel::Abort { error }),
    ensures
        ({
            let (last, actions) = run(args, restart, s, seq![e] + later, times);
            &&& last == StageModel::Failed { error }
            &&& actions.len() == times.len()
            &&& actions[0] == ActionModel::Abort { error }
            &&& forall|i: int| 1 <= i < actions.len() ==> #[trigger] actions[i] == ActionModel::Idle
        }),
{
    let events = seq![e] + later;
    assert(events[0] == e);
    assert(events.drop_first() =~= later);
    let failed = StageModel::Failed { error };
    lemma_final_stages_stay(args, restart, failed, later, times.drop_first());
    lemma_run_length(args, restart, failed, later, times.drop_first());
    let rest = run(args, restart, failed, later, times.drop_first()).1;
    let actions = run(args, restart, s, events, times).1;
    assert(actions == seq![ActionModel::Abort { error }] + rest);
    assert forall|i: int| 1 <= i < actions.len() implies #[trigger] actions[i] == ActionModel::Idle by {
        assert(actions[i] == rest[i - 1]);
    }
}

proof fn lemma_run_length(
    args: DeployArgs,
    restart: Seq<char>,
    s: StageModel,
    events: Seq<EventModel>,
    times: Seq<int>,
)
    requires
        times.len() == events.len(),
    ensures
        run(args, restart, s, events, times).1.len() == events.len(),
    decreases events.len(),
{
    if events.len() > 0 {
        let s1 = step(args, restart, s, events[0], times[0]).0;
        lemma_run_length(args, restart, s1, events.drop_first(), times.drop_first());
    }
}

/// One deployment of one binary, advanced one event at a time.
pub struct Deployment {
    pub args: DeployArgs,
    pub restart: String,
    pub stage: Stage,
}

impl Deployment {
    /// A deployment of `args` that has not begun, restarting the service with
    /// the default command.
    pub fn new(args: DeployArgs) -> (r: Self)
        ensures
            r.args == args,
            r.restart@ == default_restart_command(args.binary_name@),
            r.stage@ == StageModel::Start,
    {
        let restart = args.restart_command();
        Deployment { args, restart, stage: Stage::Start }
    }

    /// Takes `event` in the current stage, with the clock reading `now`, and
    /// says what to do next.
    pub fn advance_at(&mut self, event: Event, now: i64) -> (r: Action)
        ensures
            final(self).args == old(self).args,
            final(self).restart == old(self).restart,
            (final(self).stage@, r@) == step(old(self).args, old(self).restart@, old(self).stage@, event@, now as int),
    {
        let ssh = self.args.server_ssh.as_str();
        let path = self.args.server_path.as_str();
        let binary = self.args.binary_name.as_str();
        let (next, action) = match &self.stage {
            Stage::Start => match event {
                Event::Begin => (Stage::Hashing, Action::HashFile { path: self.args.output_file_path() }),
                _ => { return Action::Idle; },
            },
            Stage::Hashing => match event {
                Event::Hashed { digest } => (Stage::Naming { digest }, Action::ReadCommit),
                Event::HashFailed { reason } => {
                    let copy = reason.clone();
                    (Stage::Failed { error: DeployError::Io(reason) }, Action::Abort { error: DeployError::Io(copy) })
                },
                _ => { return Action::Idle; },
            },
            Stage::Naming { digest } => match event {
                Event::CommitRead { commit } => {
                    let name = version_name(binary, now, commit.as_str(), digest.as_str());
                    (Stage::PreparingDir { name }, Action::EnsureRemoteDir { argv: make_dir_call(ssh, path) })
                },
                Event::CommitFailed { reason } => {
                    let copy = reason.clone();
                    (
                        Stage::Failed { error: DeployError::SourceControl(reason) },
                        Action::Abort { error: DeployError::SourceControl(copy) },
                    )
                },
                _ => { return Action::Idle; },
            },
            Stage::PreparingDir { name } => match event {
                Event::StepSucceeded => {
                    let local = self.args.output_file_path();
                    let argv = copy_call(local.as_str(), ssh, path, name.as_str());
                    (Stage::Copying { name: name.clone() }, Action::CopyFile { argv })
                },
                Event::StepFailed { reason } => {
                    let copy = reason.clone();
                    (
                        Stage::Failed { error: DeployError::RemoteCommand(reason) },
                        Action::Abort { error: DeployError::RemoteCommand(copy) },
                    )
                },
                _ => { return Action::Idle; },
            },
            Stage::Copying { name } => match event {
                Event::StepSucceeded => {
                    let argv = restart_call(ssh, path, name.as_str(), binary, self.restart.as_str());
                    (Stage::Activating { name: name.clone() }, Action::Activate { argv })
                },
                Event::StepFailed { reason } => {
                    let copy = reason.clone();
                    (
                        Stage::Failed { error: DeployError::RemoteCommand(reason) },
                        Action::Abort { error: DeployError::RemoteCommand(copy) },
                    )
                },
                _ => { return Action::Idle; },
            },
            Stage::Activating { name } => match event {
                Event::StepSucceeded => (Stage::Done { name: name.clone() }, Action::Finish { name: name.clone() }),
                Event::StepFailed { reason } => {
                    let copy = reason.clone();
                    (
                        Stage::Failed { error: DeployError::RemoteCommand(reason) },
                        Action::Abort { error: DeployError::RemoteCommand(copy) },
                    )
                },
                _ => { return Action::Idle; },
            },
            Stage::Done { .. } => { return Action::Idle; },
            Stage::Failed { .. } => { return Action::Idle; },
        };
        self.stage = next;
        action
    }

    /// Takes `event` in the current stage, reading the clock for the version
    /// name, and says what to do next: a step at whatever time the clock gave.
    pub fn advance(&mut self, event: Event) -> (r: Action)
        ensures
            final(self).args == old(self).args,
            final(self).restart == old(self).restart,
            exists|t: i64|
                (final(self).stage@, r@) == step(old(self).args, old(self).restart@, old(self).stage@, event@, t as int),
    {
        let now = unix_now();
        self.advance_at(event, now)
    }
}

} // verus!
