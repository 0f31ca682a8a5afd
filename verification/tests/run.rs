use indexmap::IndexMap;
use std::path::PathBuf;
use vm_remoting_mcp::error::ToolError;
use vm_remoting_mcp::paths::UserDirs;
use vm_remoting_mcp::plan::plan_command;
use vm_remoting_mcp::run::{Launch, LaunchOutcome, RunArgs, RunStep};
use vm_remoting_mcp::server::{ConfigRead, Environment, VmServer};
use vm_remoting_mcp::targets::{Config, Target};

fn ssh(host: &str) -> Target {
    Target::Ssh {
        host: host.into(),
        user: None,
        key: None,
        port: None,
        options: vec![],
    }
}

fn hyperv(cred_path: Option<&str>) -> Target {
    Target::Hyperv {
        vm_name: "VM".into(),
        cred_path: cred_path.map(|p| p.to_string()),
    }
}

fn config(current: Option<&str>) -> Config {
    let mut targets = IndexMap::new();
    targets.insert("box".to_string(), ssh("h"));
    targets.insert("win".to_string(), hyperv(Some("c.xml")));
    targets.insert("bare".to_string(), hyperv(None));
    Config {
        current: current.map(|c| c.to_string()),
        targets,
    }
}

fn read(current: Option<&str>) -> ConfigRead {
    ConfigRead::Parsed(config(current))
}

fn server() -> VmServer {
    VmServer {
        pwsh: "pwsh".into(),
        targets_file: PathBuf::from("t.json"),
    }
}

fn args(target: Option<&str>) -> RunArgs {
    RunArgs {
        command: "cmd".into(),
        target: target.map(|t| t.to_string()),
    }
}

fn launch(name: &str, target: &Target) -> Launch {
    Launch {
        name: name.into(),
        command: "cmd".into(),
        plan: plan_command("pwsh", target, "cmd"),
    }
}

fn environment() -> Environment {
    Environment {
        pwsh: None,
        targets_file: None,
        config_dir: None,
        cwd_config: None,
        dirs: UserDirs {
            windows: false,
            appdata: None,
            xdg_config_home: None,
            home: Some("home".into()),
            temp_dir: "tmp".into(),
        },
    }
}

#[test]
fn server_takes_its_environment() {
    let s = VmServer::new(environment());
    assert_eq!(s.pwsh, "pwsh");
    assert_eq!(
        s.targets_file,
        PathBuf::from("home")
            .join(".config")
            .join("vm-remoting")
            .join(".vm-targets.json")
    );
    let mut env = environment();
    env.pwsh = Some("pwsh-7".into());
    env.cwd_config = Some(".vm-targets.json".into());
    let s = VmServer::new(env);
    assert_eq!(s.pwsh, "pwsh-7");
    assert_eq!(s.targets_file, PathBuf::from(".vm-targets.json"));
}

#[test]
fn missing_file_means_no_targets() {
    let cfg = server().load_config(ConfigRead::Missing).unwrap();
    assert!(cfg.current.is_none());
    assert!(cfg.targets.is_empty());
    let r = server().list_targets(ConfigRead::Missing).unwrap();
    assert_eq!(r.text, "No targets configured. Add some to t.json.");
    assert!(!r.is_error);
    assert_eq!(
        server().run_command(args(Some("x")), ConfigRead::Missing),
        RunStep::Refuse(ToolError::InvalidParams(
            "unknown target 'x'. Known: ".into()
        ))
    );
}

#[test]
fn unusable_files_are_internal_errors() {
    assert_eq!(
        server()
            .load_config(ConfigRead::Unparsable("bad at 1".into()))
            .unwrap_err(),
        ToolError::Internal("failed to parse t.json: bad at 1".into())
    );
    let denied = ToolError::Internal("failed to read t.json: denied".into());
    assert_eq!(
        server()
            .list_targets(ConfigRead::Unreadable("denied".into()))
            .unwrap_err(),
        denied
    );
    assert_eq!(
        server().run_command(args(None), ConfigRead::Unreadable("denied".into())),
        RunStep::Refuse(denied)
    );
}

#[test]
fn list_is_that_of_the_configuration() {
    let r = server().list_targets(read(Some("box"))).unwrap();
    assert_eq!(
        r.text,
        "* box            ssh     h\n  win            hyperv  VM\n  bare           hyperv  VM"
    );
    assert!(!r.is_error);
}

#[test]
fn requested_target_is_taken_whatever_is_active() {
    let expected = RunStep::Launch(launch("box", &ssh("h")));
    assert_eq!(server().run_command(args(Some("box")), read(Some("win"))), expected);
    assert_eq!(server().run_command(args(Some("box")), read(None)), expected);
}

#[test]
fn active_target_is_the_default() {
    assert_eq!(
        server().run_command(args(None), read(Some("box"))),
        server().run_command(args(Some("box")), read(None))
    );
}

#[test]
fn no_target_at_all_is_refused() {
    assert_eq!(
        server().run_command(args(None), read(None)),
        RunStep::Refuse(ToolError::InvalidParams(
            "no target given and no active target is configured; pass `target` or set a \
             `current` target in .vm-targets.json"
                .into()
        ))
    );
}

#[test]
fn unknown_target_is_refused_with_the_known_names() {
    let refusal = |name: &str| {
        RunStep::Refuse(ToolError::InvalidParams(format!(
            "unknown target '{name}'. Known: box, win, bare"
        )))
    };
    assert_eq!(
        server().run_command(args(Some("nope")), read(Some("box"))),
        refusal("nope")
    );
    assert_eq!(
        server().run_command(args(None), read(Some("gone"))),
        refusal("gone")
    );
}

#[test]
fn every_target_is_found_by_name() {
    for (name, target) in &config(None).targets {
        let step = server().run_command(args(Some(name)), read(None));
        let got = match step {
            RunStep::CheckCredential(check) => check.launch,
            RunStep::Launch(l) => l,
            RunStep::Refuse(e) => panic!("refused: {e:?}"),
        };
        assert_eq!(got, launch(name, target));
    }
}

#[test]
fn credential_file_is_checked_first() {
    let check = match server().run_command(args(Some("win")), read(None)) {
        RunStep::CheckCredential(check) => check,
        other => panic!("expected a check, got {other:?}"),
    };
    assert_eq!(check.path, "c.xml");
    assert_eq!(
        check.checked(true),
        RunStep::Launch(launch("win", &hyperv(Some("c.xml"))))
    );
}

#[test]
fn missing_credential_file_is_refused() {
    let check = match server().run_on("win".into(), &hyperv(Some("c.xml")), "cmd".into()) {
        RunStep::CheckCredential(check) => check,
        other => panic!("expected a check, got {other:?}"),
    };
    assert_eq!(
        check.checked(false),
        RunStep::Refuse(ToolError::Internal(
            "credential file 'c.xml' missing. Create it interactively with `Get-Credential \
             | Export-Clixml 'c.xml'`."
                .into()
        ))
    );
}

#[test]
fn without_a_credential_file_nothing_is_checked() {
    assert_eq!(
        server().run_on("bare".into(), &hyperv(None), "cmd".into()),
        RunStep::Launch(launch("bare", &hyperv(None)))
    );
}

#[test]
fn finished_process_is_reported() {
    let l = launch("box", &ssh("h"));
    let r = l
        .finished(&LaunchOutcome::Exited {
            stdout: b"hi\n".to_vec(),
            stderr: vec![],
            code: Some(0),
        })
        .unwrap();
    assert_eq!(r.text, "box$ cmd\n\nhi\n\n[exit code: 0]");
    assert!(!r.is_error);
}

#[test]
fn process_that_does_not_start_is_an_error() {
    let l = launch("box", &ssh("h"));
    assert_eq!(
        l.finished(&LaunchOutcome::NotStarted("not found".into()))
            .unwrap_err(),
        ToolError::Internal("failed to launch 'ssh': not found".into())
    );
}
