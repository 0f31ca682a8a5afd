use indexmap::IndexMap;
use vm_remoting_mcp::listing::{render_entries, render_list};
use vm_remoting_mcp::targets::{Config, Target};

fn hyperv(vm_name: &str) -> Target {
    Target::Hyperv {
        vm_name: vm_name.into(),
        cred_path: None,
    }
}

fn wsl(distro: Option<&str>) -> Target {
    Target::Wsl {
        distro: distro.map(|d| d.to_string()),
        user: None,
    }
}

fn ssh(host: &str) -> Target {
    Target::Ssh {
        host: host.into(),
        user: None,
        key: None,
        port: None,
        options: vec![],
    }
}

fn config(current: Option<&str>, targets: Vec<(&str, Target)>) -> Config {
    let mut map = IndexMap::new();
    for (name, target) in targets {
        map.insert(name.to_string(), target);
    }
    Config {
        current: current.map(|c| c.to_string()),
        targets: map,
    }
}

#[test]
fn summary_labels_per_type() {
    let hv = Target::Hyperv {
        vm_name: "VM".into(),
        cred_path: None,
    };
    let ssh = Target::Ssh {
        host: "h".into(),
        user: None,
        key: None,
        port: None,
        options: vec![],
    };
    let wsl = Target::Wsl {
        distro: Some("U".into()),
        user: None,
    };
    let wsl_def = Target::Wsl {
        distro: None,
        user: None,
    };
    assert_eq!(hv.summary(), ("hyperv", "VM"));
    assert_eq!(ssh.summary(), ("ssh", "h"));
    assert_eq!(wsl.summary(), ("wsl", "U"));
    assert_eq!(wsl_def.summary(), ("wsl", "(default)"));
}

#[test]
fn render_list_marks_active_and_lists_all() {
    let cfg = config(
        Some("ubuntu"),
        vec![
            ("winvm", hyperv("Win 11")),
            ("ubuntu", wsl(Some("Ubuntu-24.04"))),
        ],
    );
    let listing = render_list(&cfg);
    let lines: Vec<&str> = listing.lines().collect();
    assert_eq!(lines.len(), 2);
    assert!(lines[0].starts_with("  winvm"), "got {:?}", lines[0]);
    assert!(lines[0].contains("hyperv") && lines[0].contains("Win 11"));
    assert!(lines[1].starts_with("* ubuntu"), "got {:?}", lines[1]);
    assert!(lines[1].contains("wsl") && lines[1].contains("Ubuntu-24.04"));
}

#[test]
fn listing_is_laid_out_in_columns() {
    let cfg = config(
        Some("ec2"),
        vec![
            ("winvm", hyperv("Win 11")),
            ("ec2", ssh("1.2.3.4")),
            ("a-rather-long-name", wsl(None)),
        ],
    );
    assert_eq!(
        render_list(&cfg),
        "  winvm          hyperv  Win 11\n* ec2            ssh     1.2.3.4\n  a-rather-long-name wsl     (default)"
    );
}

#[test]
fn columns_count_characters() {
    let cfg = config(None, vec![("äöü", ssh("h"))]);
    assert_eq!(render_list(&cfg), format!("  {:<14} {:<7} {}", "äöü", "ssh", "h"));
}

#[test]
fn order_is_that_of_the_configuration() {
    let cfg = config(
        None,
        vec![("z", ssh("1")), ("a", ssh("2")), ("m", ssh("3"))],
    );
    let listing = render_list(&cfg);
    let names: Vec<&str> = listing.lines().map(|l| l[2..].split(' ').next().unwrap()).collect();
    assert_eq!(names, ["z", "a", "m"]);
}

#[test]
fn only_the_end_is_trimmed() {
    let cfg = config(None, vec![("a", ssh("h  ")), ("b", ssh(" \t\u{3000}\u{85}"))]);
    assert_eq!(
        render_list(&cfg),
        "  a              ssh     h  \n  b              ssh"
    );
}

#[test]
fn nothing_is_marked_without_a_configured_current() {
    let cfg = config(Some("gone"), vec![("a", ssh("h")), ("b", ssh("h"))]);
    assert!(render_list(&cfg).lines().all(|l| l.starts_with("  ")));
}

#[test]
fn at_most_one_line_is_marked() {
    let cfg = config(
        Some("a"),
        vec![("a", ssh("h")), ("b", ssh("h")), ("a", ssh("k"))],
    );
    let listing = render_list(&cfg);
    assert_eq!(listing.lines().filter(|l| l.starts_with('*')).count(), 1);
    assert_eq!(
        listing,
        "* a              ssh     k\n  b              ssh     h"
    );
}

#[test]
fn listing_of_nothing_is_empty() {
    assert_eq!(render_list(&Config::default()), "");
    assert_eq!(render_entries(&vec![], &Some("x".to_string())), "");
}

#[test]
fn groups_of_entries_follow_each_other() {
    let names = ["a".to_string(), "b".to_string()];
    let targets = [ssh("1"), wsl(None)];
    let both = render_entries(
        &vec![(&names[0], &targets[0]), (&names[1], &targets[1])],
        &None,
    );
    let first = render_entries(&vec![(&names[0], &targets[0])], &None);
    let second = render_entries(&vec![(&names[1], &targets[1])], &None);
    assert_eq!(both, format!("{first}\n{second}"));
}

#[test]
fn configuration_is_read_through_its_map() {
    let cfg = config(None, vec![("b", ssh("1")), ("a", ssh("2"))]);
    assert!(!cfg.is_empty());
    assert!(Config::default().is_empty());
    assert!(Config::default().current.is_none());
    assert_eq!(cfg.names(), [&"b".to_string(), &"a".to_string()]);
    let entries: Vec<(&str, &str)> = cfg
        .entries()
        .into_iter()
        .map(|(n, t)| (n.as_str(), t.summary().1))
        .collect();
    assert_eq!(entries, [("b", "1"), ("a", "2")]);
    assert_eq!(cfg.get("a").unwrap().summary(), ("ssh", "2"));
    assert!(cfg.get("c").is_none());
}
