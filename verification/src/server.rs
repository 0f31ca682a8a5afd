//! The server behind the tools: what it takes from its environment and from the targets file,
//! and how it answers the two tools, listing the targets and running a command on one of them.

use crate::error::{ErrorView, ToolError};
use crate::listing::{listing, render_list};
use crate::output::{ResultView, ToolResult};
use crate::paths::{config_dir, path_displayed, path_text, picked, targets_file, UserDirs};
use crate::plan::{plan_command, planned, PlanView};
use crate::run::{
    answer_view, begun, choose_name, chosen_name, concluded, missing_credential, started, unknown,
    unknown_target, CredentialCheck, Launch, LaunchView, OutcomeView, RunArgs, RunStep, StepView,
};
use crate::targets::{
    lemma_lookup_found, lemma_lookup_missing, lookup, names, Config, ConfigView, Target, TargetView,
};
use crate::text::{joined, joined_holds_every_piece};
use std::path::PathBuf;
use vstd::prelude::*;
use vstd::string::StringExecFns;

verus! {

/// What came of reading the targets file.
#[derive(Debug)]
pub enum ConfigRead {
    /// The file was read and parsed.
    Parsed(Config),
    /// The file was read, but its contents are not a configuration; the parser's message.
    Unparsable(String),
    /// There is no such file.
    Missing,
    /// The file could not be read; the system's message.
    Unreadable(String),
}

/// What a [`ConfigRead`] says.
pub enum ReadView {
    Parsed(ConfigView),
    Unparsable(Seq<char>),
    Missing,
    Unreadable(Seq<char>),
}

impl View for ConfigRead {
    type V = ReadView;

    open spec fn view(&self) -> ReadView {
        match self {
            ConfigRead::Parsed(c) => ReadView::Parsed(c@),
            ConfigRead::Unparsable(e) => ReadView::Unparsable(e@),
            ConfigRead::Missing => ReadView::Missing,
            ConfigRead::Unreadable(e) => ReadView::Unreadable(e@),
        }
    }
}

/// A configuration without targets.
pub open spec fn no_targets() -> ConfigView {
    ConfigView { current: None, targets: Seq::empty() }
}

/// The configuration that a read gives, where `path` is the text of the file's path. A missing
/// file counts as one without targets.
pub open spec fn loaded(path: Seq<char>, read: ReadView) -> Result<ConfigView, ErrorView> {
    match read {
        ReadView::Parsed(c) => Ok(c),
        ReadView::Unparsable(e) => Err(
            ErrorView::Internal("failed to parse "@ + path + ": "@ + e),
        ),
        ReadView::Missing => Ok(no_targets()),
        ReadView::Unreadable(e) => Err(ErrorView::Internal("failed to read "@ + path + ": "@ + e)),
    }
}

/// A result as what its two sides say.
pub open spec fn loaded_view(r: Result<Config, ToolError>) -> Result<ConfigView, ErrorView> {
    match r {
        Ok(c) => Ok(c@),
        Err(e) => Err(e@),
    }
}

/// Takes the configuration from what came of reading the file at `path`.
pub fn config_from(path: &str, read: ConfigRead) -> (res: Result<Config, ToolError>)
    ensures
        loaded_view(res) == loaded(path@, read@),
        read matches ConfigRead::Parsed(c) ==> res == Ok::<_, ToolError>(c),
{
    match read {
        ConfigRead::Parsed(c) => Ok(c),
        ConfigRead::Unparsable(e) => {
            let mut message = "failed to parse ".to_owned();
            message.append(path);
            message.append(": ");
            message.append(e.as_str());
            Err(ToolError::Internal(message))
        },
        ConfigRead::Missing => Ok(Config::default()),
        ConfigRead::Unreadable(e) => {
            let mut message = "failed to read ".to_owned();
            message.append(path);
            message.append(": ");
            message.append(e.as_str());
            Err(ToolError::Internal(message))
        },
    }
}

/// The answer to a request for the list of targets.
pub open spec fn list_answer(path: Seq<char>, config: ConfigView) -> ResultView {
    ResultView {
        text: if config.targets.len() == 0 {
            "No targets configured. Add some to "@ + path + "."@
        } else {
            listing(config)
        },
        is_error: false,
    }
}

/// Answers with the list of targets, or with a hint at the file at `path` where there are none.
pub fn list_config(path: &str, cfg: &Config) -> (res: ToolResult)
    ensures
        res@ == list_answer(path@, cfg@),
{
    let text = if cfg.is_empty() {
        let mut hint = "No targets configured. Add some to ".to_owned();
        hint.append(path);
        hint.append(".");
        hint
    } else {
        render_list(cfg)
    };
    ToolResult { text, is_error: false }
}

/// The first step of a request under the configuration `config`.
pub open spec fn first_step(
    pwsh: Seq<char>,
    config: ConfigView,
    command: Seq<char>,
    requested: Option<Seq<char>>,
) -> StepView {
    match chosen_name(requested, config.current) {
        Err(e) => StepView::Refuse(e),
        Ok(name) => begun(
            pwsh,
            name,
            lookup(config.targets, name),
            names(config.targets),
            command,
        ),
    }
}

/// The first step of a request, given what came of reading the file at `path`.
pub open spec fn run_step(
    pwsh: Seq<char>,
    path: Seq<char>,
    read: ReadView,
    command: Seq<char>,
    requested: Option<Seq<char>>,
) -> StepView {
    match loaded(path, read) {
        Err(e) => StepView::Refuse(e),
        Ok(config) => first_step(pwsh, config, command, requested),
    }
}

/// What the process environment and the working directory say.
#[derive(Debug)]
pub struct Environment {
    /// `VM_PWSH`.
    pub pwsh: Option<String>,
    /// `VM_TARGETS_FILE`.
    pub targets_file: Option<PathBuf>,
    /// `VM_CONFIG_DIR`.
    pub config_dir: Option<PathBuf>,
    /// The targets file of the working directory, if it exists.
    pub cwd_config: Option<PathBuf>,
    /// The user's directories.
    pub dirs: UserDirs,
}

/// The server: which PowerShell it uses, and where its targets are written down.
#[derive(Debug)]
pub struct VmServer {
    /// PowerShell executable, used for `hyperv` targets only.
    pub pwsh: String,
    /// The targets file.
    pub targets_file: PathBuf,
}

impl VmServer {
    /// A server set up from its environment; `pwsh` is the PowerShell executable unless another
    /// is given.
    pub fn new(env: Environment) -> (res: VmServer)
        ensures
            res.pwsh@ == (match env.pwsh {
                Some(p) => p@,
                None => "pwsh"@,
            }),
            res.targets_file == picked(
                env.targets_file,
                env.config_dir,
                env.cwd_config,
                config_dir(env.dirs),
            ),
    {
        let pwsh = match env.pwsh {
            Some(p) => p,
            None => "pwsh".to_owned(),
        };
        VmServer {
            pwsh,
            targets_file: targets_file(
                env.targets_file,
                env.config_dir,
                env.cwd_config,
                &env.dirs,
            ),
        }
    }

    /// The targets config, from what came of reading it. A missing file is treated as
    /// "no targets".
    pub fn load_config(&self, read: ConfigRead) -> (res: Result<Config, ToolError>)
        ensures
            loaded_view(res) == loaded(path_displayed(self.targets_file), read@),
            read matches ConfigRead::Parsed(c) ==> res == Ok::<_, ToolError>(c),
    {
        config_from(path_text(&self.targets_file).as_str(), read)
    }

    /// Lists the configured remoting targets. The active target is marked with `*`.
    pub fn list_targets(&self, read: ConfigRead) -> (res: Result<ToolResult, ToolError>)
        ensures
            answer_view(res) == (match loaded(path_displayed(self.targets_file), read@) {
                Ok(config) => Ok::<_, ErrorView>(
                    list_answer(path_displayed(self.targets_file), config),
                ),
                Err(e) => Err(e),
            }),
    {
        match self.load_config(read) {
            Ok(cfg) => Ok(list_config(path_text(&self.targets_file).as_str(), &cfg)),
            Err(e) => Err(e),
        }
    }

    /// The step that runs `command` on `target`, which is called `name`.
    pub fn run_on(&self, name: String, target: &Target, command: String) -> (res: RunStep)
        ensures
            res@ == started(self.pwsh@, name@, target@, command@),
    {
        let plan = plan_command(self.pwsh.as_str(), target, command.as_str());
        let launch = Launch { name, command, plan };
        match target {
            Target::Hyperv { cred_path: Some(path), .. } => RunStep::CheckCredential(
                CredentialCheck { path: path.clone(), launch },
            ),
            _ => RunStep::Launch(launch),
        }
    }

    /// The first step for a request that means `name`: run the command on the target found under
    /// that name, or refuse the request if there is none and tell the names that are `known`.
    pub fn run_found(
        &self,
        name: String,
        found: Option<&Target>,
        known: &Vec<&String>,
        command: String,
    ) -> (res: RunStep)
        ensures
            res@ == begun(
                self.pwsh@,
                name@,
                match found {
                    Some(t) => Some(t@),
                    None => None,
                },
                known.deep_view(),
                command@,
            ),
    {
        match found {
            Some(target) => self.run_on(name, target, command),
            None => RunStep::Refuse(unknown_target(name.as_str(), known)),
        }
    }

    /// The first step of a request under the configuration `cfg`.
    pub fn run_configured(&self, args: RunArgs, cfg: &Config) -> (res: RunStep)
        ensures
            res@ == first_step(self.pwsh@, cfg@, args.command@, args.target.deep_view()),
    {
        match choose_name(&args.target, &cfg.current) {
            Err(e) => RunStep::Refuse(e),
            Ok(name) => {
                let found = cfg.get(name.as_str());
                let known = cfg.names();
                self.run_found(name, found, &known, args.command)
            },
        }
    }

    /// The first step of a request to run a command. Defaults to the configured active target.
    pub fn run_command(&self, args: RunArgs, read: ConfigRead) -> (res: RunStep)
        ensures
            res@ == run_step(
                self.pwsh@,
                path_displayed(self.targets_file),
                read@,
                args.command@,
                args.target.deep_view(),
            ),
    {
        match self.load_config(read) {
            Ok(cfg) => self.run_configured(args, &cfg),
            Err(e) => RunStep::Refuse(e),
        }
    }
}

/// A missing targets file is as good as one without targets.
pub proof fn missing_file_is_no_targets(path: Seq<char>)
    ensures
        loaded(path, ReadView::Missing) == loaded(path, ReadView::Parsed(no_targets())),
{
}

/// Without targets the list is a hint at the file, and every request is refused.
pub proof fn no_targets_serve_nothing(
    pwsh: Seq<char>,
    path: Seq<char>,
    command: Seq<char>,
    requested: Option<Seq<char>>,
)
    ensures
        list_answer(path, no_targets()).text == "No targets configured. Add some to "@ + path
            + "."@,
        first_step(pwsh, no_targets(), command, requested) is Refuse,
{
}

/// A requested target is taken whatever the active one is.
pub proof fn requested_target_overrides_current(
    pwsh: Seq<char>,
    config1: ConfigView,
    config2: ConfigView,
    command: Seq<char>,
    requested: Seq<char>,
)
    requires
        config1.targets == config2.targets,
    ensures
        first_step(pwsh, config1, command, Some(requested)) == first_step(
            pwsh,
            config2,
            command,
            Some(requested),
        ),
{
}

/// A request that names no target is a request for the active one.
pub proof fn current_target_is_the_default(
    pwsh: Seq<char>,
    config: ConfigView,
    command: Seq<char>,
    current: Seq<char>,
)
    requires
        config.current == Some(current),
    ensures
        first_step(pwsh, config, command, None) == first_step(
            pwsh,
            config,
            command,
            Some(current),
        ),
{
}

/// Every target can be requested by its name, and is then the one that the command runs on.
pub proof fn every_target_is_reached_by_its_name(
    pwsh: Seq<char>,
    config: ConfigView,
    command: Seq<char>,
    i: int,
)
    requires
        config.names_distinct(),
        0 <= i < config.targets.len(),
    ensures
        first_step(pwsh, config, command, Some(config.targets[i].0)) == started(
            pwsh,
            config.targets[i].0,
            config.targets[i].1,
            command,
        ),
{
    let (name, target) = config.targets[i];
    assert forall|j: int|
        0 <= j < config.targets.len() && (#[trigger] config.targets[j]).0
            == name implies config.targets[j].1 == target by {
        if j < i {
            assert(config.targets[j].0 != config.targets[i].0);
        } else if i < j {
            assert(config.targets[i].0 != config.targets[j].0);
        }
    }
    lemma_lookup_found(config.targets, name, target);
}

/// What is launched for a step, if anything is launched at all.
pub open spec fn launch_of(step: StepView) -> Option<LaunchView> {
    match step {
        StepView::CheckCredential { launch, .. } => Some(launch),
        StepView::Launch(launch) => Some(launch),
        StepView::Refuse(_) => None,
    }
}

/// Nothing is launched but the requested command, on a configured target, in the way of that
/// target: the requested one, or else the active one.
pub proof fn only_configured_targets_are_launched(
    pwsh: Seq<char>,
    path: Seq<char>,
    read: ReadView,
    command: Seq<char>,
    requested: Option<Seq<char>>,
)
    ensures
        launch_of(run_step(pwsh, path, read, command, requested)) matches Some(launch) ==> {
            &&& loaded(path, read) matches Ok(config)
            &&& chosen_name(requested, config.current) == Ok::<_, ErrorView>(launch.name)
            &&& lookup(config.targets, launch.name) matches Some(target)
            &&& launch.command == command
            &&& launch.plan == planned(pwsh, target, command)
        },
{
}

/// A request is refused for one of four reasons alone: the file cannot be read, it cannot be
/// parsed, no target is meant, or no target has the name.
pub proof fn requests_are_refused_for_cause(
    pwsh: Seq<char>,
    path: Seq<char>,
    read: ReadView,
    command: Seq<char>,
    requested: Option<Seq<char>>,
)
    ensures
        run_step(pwsh, path, read, command, requested) is Refuse <==> match loaded(path, read) {
            Err(_) => true,
            Ok(config) => match chosen_name(requested, config.current) {
                Err(_) => true,
                Ok(name) => lookup(config.targets, name) is None,
            },
        },
{
}

/// The refusal of an unknown name tells that name and every name that there is.
pub proof fn refusal_tells_every_known_name(name: Seq<char>, known: Seq<Seq<char>>, i: int) -> (at:
    (int, int))
    requires
        0 <= i < known.len(),
    ensures
        unknown(name, known) matches ErrorView::InvalidParams(message) && {
            &&& 0 <= at.0 <= at.0 + name.len() <= at.1
            &&& at.1 + known[i].len() <= message.len()
            &&& message.subrange(at.0, at.0 + name.len()) == name
            &&& message.subrange(at.1, at.1 + known[i].len()) == known[i]
        },
{
    let inner = joined_holds_every_piece(known, ", "@, i);
    let list = joined(known, ", "@);
    let before = "unknown target '"@;
    let between = "'. Known: "@;
    let message = before + name + between + list;
    let start = before.len() as int;
    let list_start = start + name.len() + between.len();
    assert(message.subrange(start, start + name.len()) =~= name);
    assert(message.subrange(list_start + inner, list_start + inner + known[i].len())
        =~= list.subrange(inner, inner + known[i].len()));
    (start, list_start + inner)
}

/// The answer that a chain of steps comes to, where `present` tells which files there are and
/// `outcome` what comes of starting a process.
pub open spec fn answered(
    step: StepView,
    present: spec_fn(Seq<char>) -> bool,
    outcome: spec_fn(PlanView) -> OutcomeView,
) -> Result<ResultView, ErrorView> {
    match step {
        StepView::Refuse(e) => Err(e),
        StepView::Launch(launch) => concluded(launch, outcome(launch.plan)),
        StepView::CheckCredential { path, launch } => if present(path) {
            concluded(launch, outcome(launch.plan))
        } else {
            Err(missing_credential(path))
        },
    }
}

/// A Hyper-V target whose credential file is not there is answered with a message that tells the
/// file, and nothing is started: the answer is the same whatever starting a process would give.
pub proof fn missing_credential_is_refused(
    pwsh: Seq<char>,
    name: Seq<char>,
    vm_name: Seq<char>,
    path: Seq<char>,
    command: Seq<char>,
    present: spec_fn(Seq<char>) -> bool,
    outcome: spec_fn(PlanView) -> OutcomeView,
)
    requires
        !present(path),
    ensures
        answered(
            started(pwsh, name, TargetView::Hyperv { vm_name, cred_path: Some(path) }, command),
            present,
            outcome,
        ) == Err::<ResultView, _>(missing_credential(path)),
{
}

/// Where no credential file is missing, the answer is that of the target's own plan.
pub proof fn answer_is_that_of_the_plan(
    pwsh: Seq<char>,
    name: Seq<char>,
    target: TargetView,
    command: Seq<char>,
    present: spec_fn(Seq<char>) -> bool,
    outcome: spec_fn(PlanView) -> OutcomeView,
)
    requires
        target matches TargetView::Hyperv { cred_path: Some(path), .. } ==> present(path),
    ensures
        answered(started(pwsh, name, target, command), present, outcome) == concluded(
            LaunchView { name, command, plan: planned(pwsh, target, command) },
            outcome(planned(pwsh, target, command)),
        ),
{
}

/// A file that was read and parsed gives the configuration that it holds, whichever that is; a
/// missing one gives a configuration without targets and without an active name; any other is an
/// error that tells the file and the cause.
pub proof fn file_gives_the_configuration_it_holds(
    path: Seq<char>,
    config: ConfigView,
    cause: Seq<char>,
)
    ensures
        loaded(path, ReadView::Parsed(config)) == Ok::<_, ErrorView>(config),
        loaded(path, ReadView::Missing) matches Ok(none) && none.current is None
            && none.targets.len() == 0,
        loaded(path, ReadView::Unparsable(cause)) == Err::<ConfigView, _>(
            ErrorView::Internal("failed to parse "@ + path + ": "@ + cause),
        ),
        loaded(path, ReadView::Unreadable(cause)) == Err::<ConfigView, _>(
            ErrorView::Internal("failed to read "@ + path + ": "@ + cause),
        ),
{
}

/// The model of a read tells what was read, or why not.
pub proof fn read_model_is_the_read(config: Config, cause: String)
    ensures
        ConfigRead::Parsed(config)@ == ReadView::Parsed(config@),
        ConfigRead::Unparsable(cause)@ == ReadView::Unparsable(cause@),
        ConfigRead::Missing@ == ReadView::Missing,
        ConfigRead::Unreadable(cause)@ == ReadView::Unreadable(cause@),
{
}

/// The model of a loaded configuration is the configuration or the error.
pub proof fn loaded_model_is_what_was_loaded(config: Config, error: ToolError)
    ensures
        loaded_view(Ok(config)) == Ok::<_, ErrorView>(config@),
        loaded_view(Err(error)) == Err::<ConfigView, _>(error@),
{
}

/// The list of a configuration with targets is its listing, and without targets a hint at the
/// file; neither is a failure.
pub proof fn list_shows_the_listing_or_a_hint(
    path: Seq<char>,
    config: ConfigView,
    current: Option<Seq<char>>,
)
    ensures
        config.targets.len() > 0 ==> list_answer(path, config).text == listing(config),
        list_answer(path, ConfigView { current, targets: Seq::empty() }).text
            == "No targets configured. Add some to "@ + path + "."@,
        !list_answer(path, config).is_error,
{
}

/// A request under a configuration file starts the target that it means: each target by its name,
/// and the active one without a name.
pub proof fn request_starts_the_target_it_means(
    pwsh: Seq<char>,
    path: Seq<char>,
    config: ConfigView,
    command: Seq<char>,
    i: int,
)
    requires
        config.names_distinct(),
        0 <= i < config.targets.len(),
    ensures
        ({
            let (name, target) = config.targets[i];
            let step = started(pwsh, name, target, command);
            let read = ReadView::Parsed(config);
            &&& run_step(pwsh, path, read, command, Some(name)) == step
            &&& config.current == Some(name) ==> run_step(pwsh, path, read, command, None) == step
        }),
{
    every_target_is_reached_by_its_name(pwsh, config, command, i);
}

/// A request under a configuration file that means no target, or a name that no target has, is
/// refused with a message about that.
pub proof fn request_for_nothing_known_is_refused(
    pwsh: Seq<char>,
    path: Seq<char>,
    config: ConfigView,
    command: Seq<char>,
    name: Seq<char>,
)
    requires
        forall|i: int| 0 <= i < config.targets.len() ==> (#[trigger] config.targets[i]).0 != name,
    ensures
        ({
            let read = ReadView::Parsed(config);
            let refusal = StepView::Refuse(
                ErrorView::InvalidParams(
                    "unknown target '"@ + name + "'. Known: "@ + joined(
                        names(config.targets),
                        ", "@,
                    ),
                ),
            );
            &&& run_step(pwsh, path, read, command, Some(name)) == refusal
            &&& config.current == Some(name) ==> run_step(pwsh, path, read, command, None)
                == refusal
            &&& config.current is None ==> run_step(pwsh, path, read, command, None)
                == StepView::Refuse(
                ErrorView::InvalidParams(
                    "no target given and no active target is configured; pass `target` or set a `current` target in .vm-targets.json"@,
                ),
            )
        }),
{
    lemma_lookup_missing(config.targets, name);
}

/// A request is answered with the error of the file where there is no configuration to be had, and
/// as under no targets where the file is missing.
pub proof fn request_without_a_configuration_is_refused(
    pwsh: Seq<char>,
    path: Seq<char>,
    command: Seq<char>,
    requested: Option<Seq<char>>,
    cause: Seq<char>,
)
    ensures
        run_step(pwsh, path, ReadView::Unparsable(cause), command, requested) == StepView::Refuse(
            ErrorView::Internal("failed to parse "@ + path + ": "@ + cause),
        ),
        run_step(pwsh, path, ReadView::Unreadable(cause), command, requested) == StepView::Refuse(
            ErrorView::Internal("failed to read "@ + path + ": "@ + cause),
        ),
        run_step(pwsh, path, ReadView::Missing, command, requested) == run_step(
            pwsh,
            path,
            ReadView::Parsed(ConfigView { current: None, targets: Seq::empty() }),
            command,
            requested,
        ),
{
}

/// What a file that was parsed holds decides about a request as it stands.
pub proof fn request_goes_by_the_configuration(
    pwsh: Seq<char>,
    path: Seq<char>,
    config: ConfigView,
    command: Seq<char>,
    requested: Option<Seq<char>>,
)
    ensures
        run_step(pwsh, path, ReadView::Parsed(config), command, requested) == first_step(
            pwsh,
            config,
            command,
            requested,
        ),
{
}

} // verus!
