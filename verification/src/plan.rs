//! How a command is launched on each type of target.

use crate::targets::{Target, TargetView};
use crate::text::{append_decimal, decimal};
use vstd::prelude::*;
use vstd::string::StringExecFns;

verus! {

/// Fixed PowerShell program used for Hyper-V targets. All per-call values (VM name, guest
/// command, credential path) are passed via environment variables, never interpolated into
/// the script text, so there is no command-injection surface. Native guest exit codes do
/// not cross PowerShell Direct on their own, so the guest emits a trailing sentinel that the
/// script strips and turns back into the process exit code.
pub const HYPERV_PS: &'static str = r#"
$ErrorActionPreference = 'Stop'
if ($PSStyle) { $PSStyle.OutputRendering = 'PlainText' }  # no ANSI codes in captured output
$script:code = 0
$params = @{ VMName = $env:VM_VMNAME }
if ($env:VM_CREDPATH) { $params.Credential = Import-Clixml $env:VM_CREDPATH }
Invoke-Command @params -ScriptBlock {
    param($cmd)
    $global:LASTEXITCODE = 0
    Invoke-Expression $cmd
    "__VMEXIT__:$LASTEXITCODE"
} -ArgumentList $env:VM_GUEST_CMD | ForEach-Object {
    if ($_ -is [string] -and $_ -match '^__VMEXIT__:(\d+)$') { $script:code = [int]$Matches[1] } else { $_ }
}
exit $script:code
"#;

/// A fully-resolved external command: program, arguments, and environment overrides
/// (`None` means "remove this variable from the child").
#[derive(Debug, PartialEq, Eq)]
pub struct CommandPlan {
    pub program: String,
    pub args: Vec<String>,
    pub env: Vec<(String, Option<String>)>,
}

/// What a [`CommandPlan`] says, with every text as its characters.
#[verifier::ext_equal]
pub struct PlanView {
    pub program: Seq<char>,
    pub args: Seq<Seq<char>>,
    pub env: Seq<(Seq<char>, Option<Seq<char>>)>,
}

impl View for CommandPlan {
    type V = PlanView;

    open spec fn view(&self) -> PlanView {
        PlanView {
            program: self.program@,
            args: self.args.deep_view(),
            env: self.env.deep_view(),
        }
    }
}

/// A flag with its value, or nothing where there is no value.
pub open spec fn flagged(flag: Seq<char>, value: Option<Seq<char>>) -> Seq<Seq<char>> {
    match value {
        Some(v) => seq![flag, v],
        None => seq![],
    }
}

/// `-o` and the option, for each of `options` in order.
pub open spec fn ssh_options(options: Seq<Seq<char>>) -> Seq<Seq<char>>
    decreases options.len(),
{
    if options.len() == 0 {
        seq![]
    } else {
        ssh_options(options.drop_last()) + seq!["-o"@, options.last()]
    }
}

/// The SSH destination: `user@host`, or the host alone.
pub open spec fn ssh_destination(user: Option<Seq<char>>, host: Seq<char>) -> Seq<char> {
    match user {
        Some(u) => u + "@"@ + host,
        None => host,
    }
}

/// The invocation of `command` on `target`, with `pwsh` as the PowerShell executable.
pub open spec fn planned(pwsh: Seq<char>, target: TargetView, command: Seq<char>) -> PlanView {
    match target {
        TargetView::Wsl { distro, user } => PlanView {
            program: "wsl.exe"@,
            args: flagged("-d"@, distro) + flagged("-u"@, user) + seq![
                "--"@,
                "bash"@,
                "-lc"@,
                command,
            ],
            env: seq![],
        },
        TargetView::Ssh { host, user, key, port, options } => PlanView {
            program: "ssh"@,
            args: flagged("-i"@, key) + flagged(
                "-p"@,
                match port {
                    Some(p) => Some(decimal(p as nat)),
                    None => None,
                },
            ) + seq!["-o"@, "BatchMode=yes"@] + ssh_options(options) + seq![
                ssh_destination(user, host),
                command,
            ],
            env: seq![],
        },
        TargetView::Hyperv { vm_name, cred_path } => PlanView {
            program: pwsh,
            args: seq!["-NoProfile"@, "-NonInteractive"@, "-Command"@, HYPERV_PS@],
            env: seq![
                ("VM_VMNAME"@, Some(vm_name)),
                ("VM_GUEST_CMD"@, Some(command)),
                ("VM_CREDPATH"@, cred_path),
            ],
        },
    }
}

/// Appends a copy of `s` to `args`.
fn push_text(args: &mut Vec<String>, s: &str)
    ensures
        final(args).deep_view() == old(args).deep_view().push(s@),
{
    args.push(s.to_owned());
    assert(args.deep_view() =~= old(args).deep_view().push(s@));
}

/// Appends `flag` and its value to `args` where there is a value.
fn push_flagged(args: &mut Vec<String>, flag: &str, value: &Option<String>)
    ensures
        final(args).deep_view() == old(args).deep_view() + flagged(flag@, value.deep_view()),
{
    if let Some(v) = value {
        push_text(args, flag);
        push_text(args, v.as_str());
    }
    assert(args.deep_view() =~= old(args).deep_view() + flagged(flag@, value.deep_view()));
}

/// Decides how to invoke `command` on `target`. `pwsh` is the PowerShell executable used for
/// Hyper-V targets.
pub fn plan_command(pwsh: &str, target: &Target, command: &str) -> (res: CommandPlan)
    ensures
        res@ == planned(pwsh@, target@, command@),
{
    match target {
        Target::Wsl { distro, user } => {
            let mut args: Vec<String> = Vec::new();
            push_flagged(&mut args, "-d", distro);
            push_flagged(&mut args, "-u", user);
            push_text(&mut args, "--");
            push_text(&mut args, "bash");
            push_text(&mut args, "-lc");
            push_text(&mut args, command);
            let plan = CommandPlan { program: "wsl.exe".to_owned(), args, env: Vec::new() };
            assert(plan@ =~= planned(pwsh@, target@, command@));
            plan
        },
        Target::Ssh { host, user, key, port, options } => {
            let mut args: Vec<String> = Vec::new();
            push_flagged(&mut args, "-i", key);
            if let Some(p) = port {
                let mut number = String::new();
                append_decimal(&mut number, *p as u64);
                assert(number@ =~= decimal(*p as nat));
                push_text(&mut args, "-p");
                push_text(&mut args, number.as_str());
            }
            // Never hang on a password prompt.
            push_text(&mut args, "-o");
            push_text(&mut args, "BatchMode=yes");
            let ghost fixed = args.deep_view();
            assert(fixed =~= flagged("-i"@, key.deep_view()) + flagged(
                "-p"@,
                match *port {
                    Some(p) => Some(decimal(p as nat)),
                    None => None,
                },
            ) + seq!["-o"@, "BatchMode=yes"@]);
            for i in 0..options.len()
                invariant
                    args.deep_view() == fixed + ssh_options(options.deep_view().take(i as int)),
            {
                let ghost shorter = options.deep_view().take(i as int);
                assert(options.deep_view().take(i + 1).drop_last() =~= shorter);
                push_text(&mut args, "-o");
                push_text(&mut args, options[i].as_str());
                assert(args.deep_view() =~= fixed + ssh_options(
                    options.deep_view().take(i + 1),
                ));
            }
            assert(options.deep_view().take(options@.len() as int) =~= options.deep_view());
            let destination = match user {
                Some(u) => {
                    let mut d = u.clone();
                    d.append("@");
                    d.append(host.as_str());
                    d
                },
                None => host.clone(),
            };
            push_text(&mut args, destination.as_str());
            push_text(&mut args, command);
            let plan = CommandPlan { program: "ssh".to_owned(), args, env: Vec::new() };
            assert(plan@ =~= planned(pwsh@, target@, command@));
            plan
        },
        Target::Hyperv { vm_name, cred_path } => {
            let mut args: Vec<String> = Vec::new();
            push_text(&mut args, "-NoProfile");
            push_text(&mut args, "-NonInteractive");
            push_text(&mut args, "-Command");
            push_text(&mut args, HYPERV_PS);
            // Values flow in via the environment so they are never parsed as PowerShell.
            let mut env: Vec<(String, Option<String>)> = Vec::new();
            env.push(("VM_VMNAME".to_owned(), Some(vm_name.clone())));
            env.push(("VM_GUEST_CMD".to_owned(), Some(command.to_owned())));
            env.push(("VM_CREDPATH".to_owned(), cred_path.clone()));
            let plan = CommandPlan { program: pwsh.to_owned(), args, env };
            assert(plan@ =~= planned(pwsh@, target@, command@));
            plan
        },
    }
}

/// Nothing of a request to a Hyper-V target is ever parsed as PowerShell: the arguments are the
/// same whatever the guest command, the VM name and the credential path are.
pub proof fn hyperv_arguments_are_fixed(
    pwsh1: Seq<char>,
    pwsh2: Seq<char>,
    target1: TargetView,
    target2: TargetView,
    command1: Seq<char>,
    command2: Seq<char>,
)
    requires
        target1 is Hyperv,
        target2 is Hyperv,
    ensures
        planned(pwsh1, target1, command1).args == planned(pwsh2, target2, command2).args,
{
}

/// A Hyper-V plan sets the three variables that the script reads, each once, so none is left to
/// inherit; without a credential path the variable for it is removed.
pub proof fn hyperv_variables_are_overridden(
    pwsh: Seq<char>,
    vm_name: Seq<char>,
    cred_path: Option<Seq<char>>,
    command: Seq<char>,
)
    ensures
        ({
            let env = planned(pwsh, TargetView::Hyperv { vm_name, cred_path }, command).env;
            &&& env.len() == 3
            &&& env.contains(("VM_VMNAME"@, Some(vm_name)))
            &&& env.contains(("VM_GUEST_CMD"@, Some(command)))
            &&& env.contains(("VM_CREDPATH"@, cred_path))
            &&& env[0].0 != env[1].0
            &&& env[0].0 != env[2].0
            &&& env[1].0 != env[2].0
        }),
{
    reveal_strlit("VM_VMNAME");
    reveal_strlit("VM_GUEST_CMD");
    reveal_strlit("VM_CREDPATH");
    let env = planned(pwsh, TargetView::Hyperv { vm_name, cred_path }, command).env;
    assert(env[0] == ("VM_VMNAME"@, Some(vm_name)));
    assert(env[1] == ("VM_GUEST_CMD"@, Some(command)));
    assert(env[2] == ("VM_CREDPATH"@, cred_path));
    assert(env[0].0.len() == 9 && env[1].0.len() == 12 && env[2].0.len() == 11);
}

/// On SSH and WSL targets the command is the last argument as a whole, no other argument depends
/// on it, and the environment is left alone.
pub proof fn command_is_the_last_argument(
    pwsh: Seq<char>,
    target: TargetView,
    command1: Seq<char>,
    command2: Seq<char>,
)
    requires
        target is Ssh || target is Wsl,
    ensures
        planned(pwsh, target, command1).args.len() > 0,
        planned(pwsh, target, command1).args.last() == command1,
        planned(pwsh, target, command1).args.drop_last() == planned(
            pwsh,
            target,
            command2,
        ).args.drop_last(),
        planned(pwsh, target, command1).program == planned(pwsh, target, command2).program,
        planned(pwsh, target, command1).env.len() == 0,
{
    assert(planned(pwsh, target, command1).args.drop_last() =~= planned(
        pwsh,
        target,
        command2,
    ).args.drop_last());
}

/// Two commands never share a plan.
pub proof fn plan_tells_the_command(
    pwsh: Seq<char>,
    target: TargetView,
    command1: Seq<char>,
    command2: Seq<char>,
)
    requires
        planned(pwsh, target, command1) == planned(pwsh, target, command2),
    ensures
        command1 == command2,
{
    match target {
        TargetView::Hyperv { .. } => {
            assert(planned(pwsh, target, command1).env[1].1 == Some(command1));
            assert(planned(pwsh, target, command2).env[1].1 == Some(command2));
        },
        _ => {
            command_is_the_last_argument(pwsh, target, command1, command2);
            command_is_the_last_argument(pwsh, target, command2, command1);
        },
    }
}

/// The PowerShell executable is the program for Hyper-V targets and means nothing for others.
pub proof fn pwsh_is_for_hyperv_alone(
    pwsh1: Seq<char>,
    pwsh2: Seq<char>,
    target: TargetView,
    command: Seq<char>,
)
    ensures
        target is Hyperv ==> planned(pwsh1, target, command).program == pwsh1,
        !(target is Hyperv) ==> planned(pwsh1, target, command) == planned(pwsh2, target, command),
{
}

/// Every option takes two arguments.
proof fn lemma_ssh_options_len(options: Seq<Seq<char>>)
    ensures
        ssh_options(options).len() == 2 * options.len(),
    decreases options.len(),
{
    if options.len() > 0 {
        lemma_ssh_options_len(options.drop_last());
    }
}

/// The option at `j` stands behind its `-o`, after those before it.
proof fn lemma_ssh_options_at(options: Seq<Seq<char>>, j: int)
    requires
        0 <= j < options.len(),
    ensures
        ssh_options(options)[2 * j] == "-o"@,
        ssh_options(options)[2 * j + 1] == options[j],
    decreases options.len(),
{
    let shorter = options.drop_last();
    lemma_ssh_options_len(shorter);
    if j < shorter.len() {
        lemma_ssh_options_at(shorter, j);
    }
}

/// Whether the option at `j` stands behind an `-o` in `args`, where the options begin at `first`.
pub open spec fn option_stands(
    args: Seq<Seq<char>>,
    first: int,
    options: Seq<Seq<char>>,
    j: int,
) -> bool {
    &&& args[first + 2 * j] == "-o"@
    &&& args[first + 2 * j + 1] == options[j]
}

/// Every SSH plan turns password prompts off, and does so in front of the configured options:
/// behind `-o BatchMode=yes` come the options in their order, then the destination, then the
/// command, and nothing else.
pub proof fn ssh_never_prompts(
    pwsh: Seq<char>,
    host: Seq<char>,
    user: Option<Seq<char>>,
    key: Option<Seq<char>>,
    port: Option<u16>,
    options: Seq<Seq<char>>,
    command: Seq<char>,
)
    ensures
        ({
            let args = planned(
                pwsh,
                TargetView::Ssh { host, user, key, port, options },
                command,
            ).args;
            let k = (if key is Some { 2int } else { 0 }) + (if port is Some { 2int } else { 0 });
            &&& args.len() == k + 2 * options.len() + 4
            &&& args[k] == "-o"@
            &&& args[k + 1] == "BatchMode=yes"@
            &&& forall|j: int|
                0 <= j < options.len() ==> #[trigger] option_stands(args, k + 2, options, j)
            &&& args[args.len() - 2] == ssh_destination(user, host)
        }),
{
    lemma_ssh_options_len(options);
    let args = planned(pwsh, TargetView::Ssh { host, user, key, port, options }, command).args;
    let k = (if key is Some { 2int } else { 0 }) + (if port is Some { 2int } else { 0 });
    assert forall|j: int| 0 <= j < options.len() implies #[trigger] option_stands(
        args,
        k + 2,
        options,
        j,
    ) by {
        lemma_ssh_options_at(options, j);
        assert(args[k + 2 + 2 * j] == ssh_options(options)[2 * j]);
        assert(args[k + 2 + 2 * j + 1] == ssh_options(options)[2 * j + 1]);
    }
}

/// An SSH plan in full: the key behind `-i` and the port in decimal behind `-p`, where they are
/// given, then `-o BatchMode=yes`, then each option behind an `-o`, then the destination, which is
/// `user@host` where there is a user, then the command. Nothing else is there.
pub proof fn ssh_plan_in_full(
    pwsh: Seq<char>,
    host: Seq<char>,
    user: Option<Seq<char>>,
    key: Option<Seq<char>>,
    port: Option<u16>,
    options: Seq<Seq<char>>,
    command: Seq<char>,
    j: int,
)
    ensures
        ({
            let plan = planned(pwsh, TargetView::Ssh { host, user, key, port, options }, command);
            let k0 = if key is Some { 2int } else { 0 };
            let k = k0 + if port is Some { 2int } else { 0 };
            let end = k + 2 + 2 * options.len();
            &&& plan.program == "ssh"@
            &&& plan.env.len() == 0
            &&& plan.args.len() == end + 2
            &&& key matches Some(file) ==> plan.args[0] == "-i"@ && plan.args[1] == file
            &&& port matches Some(p) ==> plan.args[k0] == "-p"@ && plan.args[k0 + 1] == decimal(
                p as nat,
            )
            &&& plan.args[k] == "-o"@
            &&& plan.args[k + 1] == "BatchMode=yes"@
            &&& 0 <= j < options.len() ==> plan.args[k + 2 + 2 * j] == "-o"@ && plan.args[k + 3 + 2
                * j] == options[j]
            &&& user is None ==> plan.args[end] == host
            &&& user matches Some(u) ==> plan.args[end] == u + "@"@ + host
            &&& plan.args[end + 1] == command
        }),
{
    lemma_ssh_options_len(options);
    if 0 <= j < options.len() {
        lemma_ssh_options_at(options, j);
        let args = planned(pwsh, TargetView::Ssh { host, user, key, port, options }, command).args;
        let k0 = if key is Some { 2int } else { 0 };
        let k = k0 + if port is Some { 2int } else { 0 };
        assert(args[k + 2 + 2 * j] == ssh_options(options)[2 * j]);
        assert(args[k + 3 + 2 * j] == ssh_options(options)[2 * j + 1]);
    }
}

/// A WSL plan in full: the distro behind `-d` and the user behind `-u`, where they are given, then
/// `-- bash -lc` and the command. Nothing else is there.
pub proof fn wsl_plan_in_full(
    pwsh: Seq<char>,
    distro: Option<Seq<char>>,
    user: Option<Seq<char>>,
    command: Seq<char>,
)
    ensures
        ({
            let plan = planned(pwsh, TargetView::Wsl { distro, user }, command);
            let k0 = if distro is Some { 2int } else { 0 };
            let k = k0 + if user is Some { 2int } else { 0 };
            &&& plan.program == "wsl.exe"@
            &&& plan.env.len() == 0
            &&& plan.args.len() == k + 4
            &&& distro matches Some(d) ==> plan.args[0] == "-d"@ && plan.args[1] == d
            &&& user matches Some(u) ==> plan.args[k0] == "-u"@ && plan.args[k0 + 1] == u
            &&& plan.args[k] == "--"@
            &&& plan.args[k + 1] == "bash"@
            &&& plan.args[k + 2] == "-lc"@
            &&& plan.args[k + 3] == command
        }),
{
}

/// A Hyper-V plan in full: PowerShell with the fixed script, and the VM name, the guest command
/// and the credential path in the environment. Nothing else is there.
pub proof fn hyperv_plan_in_full(
    pwsh: Seq<char>,
    vm_name: Seq<char>,
    cred_path: Option<Seq<char>>,
    command: Seq<char>,
)
    ensures
        ({
            let plan = planned(pwsh, TargetView::Hyperv { vm_name, cred_path }, command);
            &&& plan.program == pwsh
            &&& plan.args.len() == 4
            &&& plan.args[0] == "-NoProfile"@
            &&& plan.args[1] == "-NonInteractive"@
            &&& plan.args[2] == "-Command"@
            &&& plan.args[3] == HYPERV_PS@
            &&& plan.env.len() == 3
            &&& plan.env[0] == ("VM_VMNAME"@, Some(vm_name))
            &&& plan.env[1] == ("VM_GUEST_CMD"@, Some(command))
            &&& plan.env[2] == ("VM_CREDPATH"@, cred_path)
        }),
{
}

/// The model of a plan is the plan: program, arguments and variables, each in its place.
pub proof fn plan_model_is_the_plan(plan: CommandPlan, i: int)
    ensures
        plan@.program == plan.program@,
        plan@.args.len() == plan.args@.len(),
        0 <= i < plan.args@.len() ==> plan@.args[i] == plan.args@[i]@,
        plan@.env.len() == plan.env@.len(),
        0 <= i < plan.env@.len() ==> plan@.env[i].0 == plan.env@[i].0@,
        0 <= i < plan.env@.len() ==> (plan@.env[i].1 is Some <==> plan.env@[i].1 is Some),
        0 <= i < plan.env@.len() && plan.env@[i].1 is Some ==> plan@.env[i].1->0
            == plan.env@[i].1->0@,
{
}

/// What the script does, in its order: any error stops it and its output is plain; it takes the VM
/// name and, where there is one, the credential from the environment; in the guest it runs the
/// command from the environment, followed by a line that tells the exit code; it takes that line
/// out of the output; and it exits with that code.
pub proof fn script_runs_the_guest_command()
    ensures
        HYPERV_PS@.len() == 583,
        HYPERV_PS@.subrange(1, 32) == "$ErrorActionPreference = 'Stop'"@,
        HYPERV_PS@.subrange(33, 125) == "if ($PSStyle) { $PSStyle.OutputRendering = 'PlainText' }  # no ANSI codes in captured output"@,
        HYPERV_PS@.subrange(126, 142) == "$script:code = 0"@,
        HYPERV_PS@.subrange(143, 181) == "$params = @{ VMName = $env:VM_VMNAME }"@,
        HYPERV_PS@.subrange(182, 259) == "if ($env:VM_CREDPATH) { $params.Credential = Import-Clixml $env:VM_CREDPATH }"@,
        HYPERV_PS@.subrange(260, 297) == "Invoke-Command @params -ScriptBlock {"@,
        HYPERV_PS@.subrange(302, 313) == "param($cmd)"@,
        HYPERV_PS@.subrange(318, 342) == "$global:LASTEXITCODE = 0"@,
        HYPERV_PS@.subrange(347, 369) == "Invoke-Expression $cmd"@,
        HYPERV_PS@.subrange(374, 400) == "\"__VMEXIT__:$LASTEXITCODE\""@,
        HYPERV_PS@.subrange(401, 453) == "} -ArgumentList $env:VM_GUEST_CMD | ForEach-Object {"@,
        HYPERV_PS@.subrange(458, 562) == "if ($_ -is [string] -and $_ -match '^__VMEXIT__:(\\d+)$') { $script:code = [int]$Matches[1] } else { $_ }"@,
        HYPERV_PS@.subrange(563, 564) == "}"@,
        HYPERV_PS@.subrange(565, 582) == "exit $script:code"@,
{
    reveal_strlit(
        r#"
$ErrorActionPreference = 'Stop'
if ($PSStyle) { $PSStyle.OutputRendering = 'PlainText' }  # no ANSI codes in captured output
$script:code = 0
$params = @{ VMName = $env:VM_VMNAME }
if ($env:VM_CREDPATH) { $params.Credential = Import-Clixml $env:VM_CREDPATH }
Invoke-Command @params -ScriptBlock {
    param($cmd)
    $global:LASTEXITCODE = 0
    Invoke-Expression $cmd
    "__VMEXIT__:$LASTEXITCODE"
} -ArgumentList $env:VM_GUEST_CMD | ForEach-Object {
    if ($_ -is [string] -and $_ -match '^__VMEXIT__:(\d+)$') { $script:code = [int]$Matches[1] } else { $_ }
}
exit $script:code
"#,
    );
    reveal_strlit("$ErrorActionPreference = 'Stop'");
    reveal_strlit("if ($PSStyle) { $PSStyle.OutputRendering = 'PlainText' }  # no ANSI codes in captured output");
    reveal_strlit("$script:code = 0");
    reveal_strlit("$params = @{ VMName = $env:VM_VMNAME }");
    reveal_strlit("if ($env:VM_CREDPATH) { $params.Credential = Import-Clixml $env:VM_CREDPATH }");
    reveal_strlit("Invoke-Command @params -ScriptBlock {");
    reveal_strlit("param($cmd)");
    reveal_strlit("$global:LASTEXITCODE = 0");
    reveal_strlit("Invoke-Expression $cmd");
    reveal_strlit("\"__VMEXIT__:$LASTEXITCODE\"");
    reveal_strlit("} -ArgumentList $env:VM_GUEST_CMD | ForEach-Object {");
    reveal_strlit("if ($_ -is [string] -and $_ -match '^__VMEXIT__:(\\d+)$') { $script:code = [int]$Matches[1] } else { $_ }");
    reveal_strlit("}");
    reveal_strlit("exit $script:code");
}

} // verus!
