use vm_remoting_mcp::plan::{plan_command, CommandPlan, HYPERV_PS};
use vm_remoting_mcp::targets::Target;

fn args_of(plan: &CommandPlan) -> Vec<&str> {
    plan.args.iter().map(String::as_str).collect()
}

fn ssh(key: Option<&str>, port: Option<u16>, options: Vec<&str>) -> Target {
    Target::Ssh {
        host: "host".into(),
        user: Some("me".into()),
        key: key.map(|k| k.to_string()),
        port,
        options: options.into_iter().map(|o| o.to_string()).collect(),
    }
}

fn hyperv(vm_name: &str, cred_path: Option<&str>) -> Target {
    Target::Hyperv {
        vm_name: vm_name.into(),
        cred_path: cred_path.map(|p| p.to_string()),
    }
}

#[test]
fn plan_wsl_with_distro_and_user() {
    let t = Target::Wsl {
        distro: Some("Ubuntu-24.04".into()),
        user: Some("dev".into()),
    };
    let plan = plan_command("pwsh", &t, "uname -a");
    assert_eq!(plan.program, "wsl.exe");
    assert_eq!(
        args_of(&plan),
        [
            "-d",
            "Ubuntu-24.04",
            "-u",
            "dev",
            "--",
            "bash",
            "-lc",
            "uname -a"
        ]
    );
    assert!(plan.env.is_empty());
}

#[test]
fn plan_wsl_defaults_to_default_distro() {
    let t = Target::Wsl {
        distro: None,
        user: None,
    };
    let plan = plan_command("pwsh", &t, "echo hi");
    assert_eq!(args_of(&plan), ["--", "bash", "-lc", "echo hi"]);
}

#[test]
fn plan_ssh_with_all_options() {
    let t = Target::Ssh {
        host: "1.2.3.4".into(),
        user: Some("ubuntu".into()),
        key: Some("k.pem".into()),
        port: Some(2222),
        options: vec!["StrictHostKeyChecking=accept-new".into()],
    };
    let plan = plan_command("pwsh", &t, "ls -la");
    assert_eq!(plan.program, "ssh");
    assert_eq!(
        args_of(&plan),
        [
            "-i",
            "k.pem",
            "-p",
            "2222",
            "-o",
            "BatchMode=yes",
            "-o",
            "StrictHostKeyChecking=accept-new",
            "ubuntu@1.2.3.4",
            "ls -la"
        ]
    );
}

#[test]
fn plan_ssh_minimal_uses_host_only() {
    let t = Target::Ssh {
        host: "host".into(),
        user: None,
        key: None,
        port: None,
        options: vec![],
    };
    let plan = plan_command("pwsh", &t, "whoami");
    assert_eq!(args_of(&plan), ["-o", "BatchMode=yes", "host", "whoami"]);
}

#[test]
fn plan_hyperv_passes_values_via_env_not_args() {
    let t = Target::Hyperv {
        vm_name: "Win 11".into(),
        cred_path: Some("c.xml".into()),
    };
    let plan = plan_command("pwsh-7", &t, "whoami");
    assert_eq!(plan.program, "pwsh-7");
    assert_eq!(
        args_of(&plan),
        ["-NoProfile", "-NonInteractive", "-Command", HYPERV_PS]
    );
    // The guest command is never an argument — only an env var — so it can't be parsed
    // as PowerShell.
    assert!(!args_of(&plan).contains(&"whoami"));
    assert_eq!(
        plan.env,
        vec![
            ("VM_VMNAME".to_string(), Some("Win 11".to_string())),
            ("VM_GUEST_CMD".to_string(), Some("whoami".to_string())),
            ("VM_CREDPATH".to_string(), Some("c.xml".to_string())),
        ]
    );
}

#[test]
fn plan_hyperv_without_cred_clears_credpath() {
    let t = Target::Hyperv {
        vm_name: "VM".into(),
        cred_path: None,
    };
    let plan = plan_command("pwsh", &t, "hostname");
    assert_eq!(
        plan.env.last(),
        Some(&("VM_CREDPATH".to_string(), None)),
        "VM_CREDPATH must be removed, not left to inherit"
    );
}

#[test]
fn hyperv_arguments_do_not_depend_on_the_request() {
    let a = plan_command("pwsh", &hyperv("A", None), "exit 1");
    let b = plan_command("pwsh-7", &hyperv("B", Some("c.xml")), "'; rm -r *");
    assert_eq!(a.args, b.args);
}

#[test]
fn hyperv_plan_overrides_three_variables() {
    let plan = plan_command("pwsh", &hyperv("VM", None), "hostname");
    assert_eq!(
        plan.env,
        vec![
            ("VM_VMNAME".to_string(), Some("VM".to_string())),
            ("VM_GUEST_CMD".to_string(), Some("hostname".to_string())),
            ("VM_CREDPATH".to_string(), None),
        ]
    );
}

#[test]
fn hyperv_script_is_kept_as_written() {
    assert!(HYPERV_PS.starts_with("\n$ErrorActionPreference = 'Stop'\n"));
    assert!(HYPERV_PS.ends_with("\nexit $script:code\n"));
    assert!(HYPERV_PS.contains("'^__VMEXIT__:(\\d+)$'"));
    assert_eq!(HYPERV_PS.lines().count(), 15);
}

#[test]
fn command_is_the_last_argument_as_a_whole() {
    for t in [
        ssh(None, Some(22), vec!["A=b"]),
        Target::Wsl {
            distro: None,
            user: Some("dev".into()),
        },
    ] {
        let a = plan_command("pwsh", &t, "ls -la; echo 'x y'");
        let b = plan_command("pwsh", &t, "");
        assert_eq!(a.args.last().unwrap(), "ls -la; echo 'x y'");
        assert_eq!(b.args.last().unwrap(), "");
        assert_eq!(a.args[..a.args.len() - 1], b.args[..b.args.len() - 1]);
        assert!(a.env.is_empty());
    }
}

#[test]
fn two_commands_do_not_share_a_plan() {
    for t in [
        hyperv("VM", None),
        ssh(None, None, vec![]),
        Target::Wsl {
            distro: None,
            user: None,
        },
    ] {
        assert_ne!(plan_command("pwsh", &t, "a"), plan_command("pwsh", &t, "b"));
        assert_eq!(plan_command("pwsh", &t, "a"), plan_command("pwsh", &t, "a"));
    }
}

#[test]
fn pwsh_matters_for_hyperv_alone() {
    let t = ssh(None, None, vec![]);
    assert_eq!(plan_command("x", &t, "a"), plan_command("y", &t, "a"));
    assert_eq!(plan_command("x", &hyperv("VM", None), "a").program, "x");
}

#[test]
fn batch_mode_stands_before_the_options() {
    let t = ssh(Some("k"), Some(0), vec!["A=1", "BatchMode=no"]);
    assert_eq!(
        args_of(&plan_command("pwsh", &t, "c")),
        [
            "-i",
            "k",
            "-p",
            "0",
            "-o",
            "BatchMode=yes",
            "-o",
            "A=1",
            "-o",
            "BatchMode=no",
            "me@host",
            "c"
        ]
    );
}

#[test]
fn ports_are_written_in_decimal() {
    for port in [0u16, 9, 10, 22, 99, 100, 2222, 9999, 10000, 65535] {
        let plan = plan_command("pwsh", &ssh(None, Some(port), vec![]), "c");
        assert_eq!(plan.args[1], port.to_string());
    }
}
