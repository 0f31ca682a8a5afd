//! Running a command on a target, as a chain of steps.
//!
//! The library decides; files are looked at and processes are started by its caller.
//! `VmServer::run_command` gives the first [`RunStep`], [`CredentialCheck::checked`] the step
//! after a look at a file, and [`Launch::finished`] the answer once the process has ended.

use crate::error::{ErrorView, ToolError};
use crate::output::{render_output, rendered, utf8_lossy, ResultView, ToolResult};
use crate::plan::{planned, CommandPlan, PlanView};
use crate::targets::TargetView;
use crate::text::{join, joined};
use vstd::prelude::*;
use vstd::string::StringExecFns;
use vstd::utf8::{decode_utf8, valid_utf8};

verus! {

/// A request to run a command.
#[derive(Debug)]
pub struct RunArgs {
    /// The command line to run on the target, written for the target's native shell
    /// (PowerShell for `hyperv` targets, bash for `ssh`/`wsl` targets).
    pub command: String,
    /// The target's name; without one, the active target is meant.
    pub target: Option<String>,
}

/// The name of the target that a request means.
pub open spec fn chosen_name(
    requested: Option<Seq<char>>,
    current: Option<Seq<char>>,
) -> Result<Seq<char>, ErrorView> {
    match (requested, current) {
        (Some(t), _) => Ok(t),
        (None, Some(c)) => Ok(c),
        (None, None) => Err(
            ErrorView::InvalidParams(
                "no target given and no active target is configured; pass `target` or set a `current` target in .vm-targets.json"@,
            ),
        ),
    }
}

/// The complaint about a name that no target has.
pub open spec fn unknown(name: Seq<char>, known: Seq<Seq<char>>) -> ErrorView {
    ErrorView::InvalidParams(
        "unknown target '"@ + name + "'. Known: "@ + joined(known, ", "@),
    )
}

/// Decides which target a request means: the requested one, or else the active one.
pub fn choose_name(requested: &Option<String>, current: &Option<String>) -> (res: Result<
    String,
    ToolError,
>)
    ensures
        match res {
            Ok(n) => chosen_name(requested.deep_view(), current.deep_view()) == Ok::<
                _,
                ErrorView,
            >(n@),
            Err(e) => chosen_name(requested.deep_view(), current.deep_view()) == Err::<
                Seq<char>,
                _,
            >(e@),
        },
{
    match requested {
        Some(t) => Ok(t.clone()),
        None => match current {
            Some(c) => Ok(c.clone()),
            None => Err(
                ToolError::InvalidParams(
                    "no target given and no active target is configured; pass `target` or set a `current` target in .vm-targets.json".to_owned(),
                ),
            ),
        },
    }
}

/// Complains that no target is called `name`, and names those that there are.
pub fn unknown_target(name: &str, known: &Vec<&String>) -> (res: ToolError)
    ensures
        res@ == unknown(name@, known.deep_view()),
{
    let mut message = "unknown target '".to_owned();
    message.append(name);
    message.append("'. Known: ");
    message.append(join(known, ", ").as_str());
    ToolError::InvalidParams(message)
}

/// A process to be started: what runs, and on whose behalf.
#[derive(Debug, PartialEq, Eq)]
pub struct Launch {
    /// The name of the target.
    pub name: String,
    /// The command as it was requested.
    pub command: String,
    /// The process that runs it.
    pub plan: CommandPlan,
}

/// What a [`Launch`] says.
pub struct LaunchView {
    pub name: Seq<char>,
    pub command: Seq<char>,
    pub plan: PlanView,
}

impl View for Launch {
    type V = LaunchView;

    open spec fn view(&self) -> LaunchView {
        LaunchView { name: self.name@, command: self.command@, plan: self.plan@ }
    }
}

/// A launch that needs a credential file to be there.
#[derive(Debug, PartialEq, Eq)]
pub struct CredentialCheck {
    /// The credential file.
    pub path: String,
    /// What follows if the file exists.
    pub launch: Launch,
}

/// What is to be done next for a request.
#[derive(Debug, PartialEq, Eq)]
pub enum RunStep {
    /// Look whether the credential file exists.
    CheckCredential(CredentialCheck),
    /// Start the process.
    Launch(Launch),
    /// Answer with this error.
    Refuse(ToolError),
}

/// What a [`RunStep`] says.
pub enum StepView {
    CheckCredential { path: Seq<char>, launch: LaunchView },
    Launch(LaunchView),
    Refuse(ErrorView),
}

impl View for RunStep {
    type V = StepView;

    open spec fn view(&self) -> StepView {
        match self {
            RunStep::CheckCredential(c) => StepView::CheckCredential {
                path: c.path@,
                launch: c.launch@,
            },
            RunStep::Launch(l) => StepView::Launch(l@),
            RunStep::Refuse(e) => StepView::Refuse(e@),
        }
    }
}

/// What came of starting a process.
#[derive(Debug)]
pub enum LaunchOutcome {
    /// It ran and ended; without a code where it was ended by something else.
    Exited { stdout: Vec<u8>, stderr: Vec<u8>, code: Option<i32> },
    /// It could not be started; the system's message.
    NotStarted(String),
}

/// What a [`LaunchOutcome`] says.
pub enum OutcomeView {
    Exited { stdout: Seq<u8>, stderr: Seq<u8>, code: Option<i32> },
    NotStarted(Seq<char>),
}

impl View for LaunchOutcome {
    type V = OutcomeView;

    open spec fn view(&self) -> OutcomeView {
        match self {
            LaunchOutcome::Exited { stdout, stderr, code } => OutcomeView::Exited {
                stdout: stdout@,
                stderr: stderr@,
                code: *code,
            },
            LaunchOutcome::NotStarted(e) => OutcomeView::NotStarted(e@),
        }
    }
}

/// The step that runs `command` on `target`. A Hyper-V target with a credential file is not
/// launched before the file is known to be there.
pub open spec fn started(
    pwsh: Seq<char>,
    name: Seq<char>,
    target: TargetView,
    command: Seq<char>,
) -> StepView {
    let launch = LaunchView { name, command, plan: planned(pwsh, target, command) };
    match target {
        TargetView::Hyperv { cred_path: Some(path), .. } => StepView::CheckCredential {
            path,
            launch,
        },
        _ => StepView::Launch(launch),
    }
}

/// The first step for a request that means `name`, where `found` is the target of that name and
/// `known` are the names of all targets.
pub open spec fn begun(
    pwsh: Seq<char>,
    name: Seq<char>,
    found: Option<TargetView>,
    known: Seq<Seq<char>>,
    command: Seq<char>,
) -> StepView {
    match found {
        Some(target) => started(pwsh, name, target, command),
        None => StepView::Refuse(unknown(name, known)),
    }
}

/// The complaint about a credential file that is not there.
pub open spec fn missing_credential(path: Seq<char>) -> ErrorView {
    ErrorView::Internal(
        "credential file '"@ + path
            + "' missing. Create it interactively with `Get-Credential | Export-Clixml '"@ + path
            + "'`."@,
    )
}

/// The answer once the process of `launch` has ended, or has not started.
pub open spec fn concluded(launch: LaunchView, outcome: OutcomeView) -> Result<
    ResultView,
    ErrorView,
> {
    match outcome {
        OutcomeView::Exited { stdout, stderr, code } => Ok(
            rendered(launch.command, launch.name, utf8_lossy(stdout), utf8_lossy(stderr), code),
        ),
        OutcomeView::NotStarted(e) => Err(
            ErrorView::Internal("failed to launch '"@ + launch.plan.program + "': "@ + e),
        ),
    }
}

/// A result as what its two sides say.
pub open spec fn answer_view(r: Result<ToolResult, ToolError>) -> Result<ResultView, ErrorView> {
    match r {
        Ok(t) => Ok(t@),
        Err(e) => Err(e@),
    }
}

impl CredentialCheck {
    /// Goes on once it is known whether the credential file exists. Hyper-V is unusable
    /// non-interactively without it, so a missing file is answered with a clear message.
    pub fn checked(self, present: bool) -> (res: RunStep)
        ensures
            res@ == (if present {
                StepView::Launch(self.launch@)
            } else {
                StepView::Refuse(missing_credential(self.path@))
            }),
    {
        if present {
            RunStep::Launch(self.launch)
        } else {
            let mut message = "credential file '".to_owned();
            message.append(self.path.as_str());
            message.append(
                "' missing. Create it interactively with `Get-Credential | Export-Clixml '",
            );
            message.append(self.path.as_str());
            message.append("'`.");
            RunStep::Refuse(ToolError::Internal(message))
        }
    }
}

impl Launch {
    /// Answers the request once the process has ended, or has not started.
    pub fn finished(&self, outcome: &LaunchOutcome) -> (res: Result<ToolResult, ToolError>)
        ensures
            answer_view(res) == concluded(self@, outcome@),
            outcome@ matches OutcomeView::Exited { stdout, stderr, code } ==> valid_utf8(stdout)
                && valid_utf8(stderr) ==> answer_view(res) == Ok::<_, ErrorView>(
                rendered(self.command@, self.name@, decode_utf8(stdout), decode_utf8(stderr), code),
            ),
    {
        match outcome {
            LaunchOutcome::Exited { stdout, stderr, code } => Ok(
                render_output(
                    self.command.as_str(),
                    self.name.as_str(),
                    stdout.as_slice(),
                    stderr.as_slice(),
                    *code,
                ),
            ),
            LaunchOutcome::NotStarted(e) => {
                let mut message = "failed to launch '".to_owned();
                message.append(self.plan.program.as_str());
                message.append("': ");
                message.append(e.as_str());
                Err(ToolError::Internal(message))
            },
        }
    }
}

/// A requested name is taken as it is; without one the active name is; without either the request
/// is refused.
pub proof fn request_means_its_target_or_the_active_one(
    requested: Seq<char>,
    current: Option<Seq<char>>,
    active: Seq<char>,
)
    ensures
        chosen_name(Some(requested), current) == Ok::<_, ErrorView>(requested),
        chosen_name(None, Some(active)) == Ok::<_, ErrorView>(active),
        chosen_name(None, None) == Err::<Seq<char>, _>(
            ErrorView::InvalidParams(
                "no target given and no active target is configured; pass `target` or set a `current` target in .vm-targets.json"@,
            ),
        ),
{
}

/// The refusal of an unknown name spells that name and the known ones, with commas between.
pub proof fn refusal_of_an_unknown_name(name: Seq<char>, known: Seq<Seq<char>>)
    ensures
        unknown(name, known) == ErrorView::InvalidParams(
            "unknown target '"@ + name + "'. Known: "@ + joined(known, ", "@),
        ),
{
}

/// The refusal for want of a credential file tells the file twice: as missing, and in the command
/// that creates it.
pub proof fn refusal_for_want_of_a_credential(path: Seq<char>)
    ensures
        missing_credential(path) == ErrorView::Internal(
            "credential file '"@ + path
                + "' missing. Create it interactively with `Get-Credential | Export-Clixml '"@
                + path + "'`."@,
        ),
{
}

/// Only a Hyper-V target with a credential path has a file checked, namely that one, before it is
/// launched; every other target is launched at once. What is launched is the target's plan for the
/// command, on behalf of the request.
pub proof fn credential_is_checked_where_there_is_one(
    pwsh: Seq<char>,
    name: Seq<char>,
    target: TargetView,
    command: Seq<char>,
    vm_name: Seq<char>,
    path: Seq<char>,
)
    ensures
        started(
            pwsh,
            name,
            TargetView::Hyperv { vm_name, cred_path: Some(path) },
            command,
        ) == (StepView::CheckCredential {
            path,
            launch: LaunchView {
                name,
                command,
                plan: planned(
                    pwsh,
                    TargetView::Hyperv { vm_name, cred_path: Some(path) },
                    command,
                ),
            },
        }),
        started(pwsh, name, TargetView::Hyperv { vm_name, cred_path: None }, command)
            == StepView::Launch(
            LaunchView {
                name,
                command,
                plan: planned(pwsh, TargetView::Hyperv { vm_name, cred_path: None }, command),
            },
        ),
        !(target is Hyperv) ==> started(pwsh, name, target, command) == StepView::Launch(
            LaunchView { name, command, plan: planned(pwsh, target, command) },
        ),
{
}

/// A target that was found is started, and a name without a target is refused.
pub proof fn found_is_started_and_unknown_is_refused(
    pwsh: Seq<char>,
    name: Seq<char>,
    target: TargetView,
    known: Seq<Seq<char>>,
    command: Seq<char>,
)
    ensures
        begun(pwsh, name, Some(target), known, command) == started(pwsh, name, target, command),
        begun(pwsh, name, None, known, command) == StepView::Refuse(unknown(name, known)),
{
}

/// A process that ended is reported under the request's target and command, each stream as what it
/// is; a process that did not start is an error that tells the program and the cause.
pub proof fn outcome_is_answered(
    launch: LaunchView,
    stdout: Seq<u8>,
    stderr: Seq<u8>,
    code: Option<i32>,
    cause: Seq<char>,
)
    ensures
        concluded(launch, OutcomeView::Exited { stdout, stderr, code }) == Ok::<_, ErrorView>(
            rendered(launch.command, launch.name, utf8_lossy(stdout), utf8_lossy(stderr), code),
        ),
        concluded(launch, OutcomeView::NotStarted(cause)) == Err::<ResultView, _>(
            ErrorView::Internal("failed to launch '"@ + launch.plan.program + "': "@ + cause),
        ),
{
}

/// The model of an answer is the result or the error that it holds.
pub proof fn answer_model_is_the_answer(result: ToolResult, error: ToolError)
    ensures
        answer_view(Ok(result)) == Ok::<_, ErrorView>(result@),
        answer_view(Err(error)) == Err::<ResultView, _>(error@),
{
}

/// The model of a launch is its name, its command and its plan.
pub proof fn launch_model_is_the_launch(launch: Launch)
    ensures
        launch@.name == launch.name@,
        launch@.command == launch.command@,
        launch@.plan == launch.plan@,
{
}

/// The model of a step tells what is to be done and with what.
pub proof fn step_model_is_the_step(check: CredentialCheck, launch: Launch, error: ToolError)
    ensures
        RunStep::CheckCredential(check)@ == (StepView::CheckCredential {
            path: check.path@,
            launch: check.launch@,
        }),
        RunStep::Launch(launch)@ == StepView::Launch(launch@),
        RunStep::Refuse(error)@ == StepView::Refuse(error@),
{
}

/// The model of an outcome tells the two streams and the exit code, or the cause.
pub proof fn outcome_model_is_the_outcome(
    stdout: Vec<u8>,
    stderr: Vec<u8>,
    code: Option<i32>,
    cause: String,
)
    ensures
        (LaunchOutcome::Exited { stdout, stderr, code })@ == (OutcomeView::Exited {
            stdout: stdout@,
            stderr: stderr@,
            code,
        }),
        LaunchOutcome::NotStarted(cause)@ == OutcomeView::NotStarted(cause@),
{
}

} // verus!
