use clusterctl::ansible::{get_verbose_arguments_from_settings, list_hosts_arguments, AnsibleCommand, Module};
use clusterctl::dispatch::{run_update, Plan};
use clusterctl::settings::{
    ClusterSettings, CopyCommand, GenericCommand, InventoryCommand, InventoryCommandOptions,
    InventorySubCommand, RunCommand, SubCommand,
};

fn settings(verbose: u64, inventory: Option<&str>, host_pattern: Option<&str>, subcommand: SubCommand) -> ClusterSettings {
    ClusterSettings {
        inventory: inventory.map(|s| s.to_string()),
        verbose,
        host_pattern: host_pattern.map(|s| s.to_string()),
        subcommand,
    }
}

fn plain(subcommand: SubCommand) -> ClusterSettings {
    settings(0, None, None, subcommand)
}

fn strings(items: &[&str]) -> Vec<String> {
    items.iter().map(|s| s.to_string()).collect()
}

fn adhoc(s: &ClusterSettings) -> AnsibleCommand {
    match s.plan() {
        Ok(Plan::Adhoc(c)) => c,
        other => panic!("not an ad-hoc command: {:?}", other),
    }
}

#[test]
fn verbosity_flags() {
    let flag = |n: u64| get_verbose_arguments_from_settings(&settings(n, None, None, SubCommand::Ping(GenericCommand)));
    assert_eq!(flag(0), None);
    assert_eq!(flag(1), Some("-v".to_string()));
    assert_eq!(flag(2), Some("-vv".to_string()));
    assert_eq!(flag(3), Some("-vvv".to_string()));
    assert_eq!(flag(4), Some("-vvvv".to_string()));
}

#[test]
fn verbosity_saturates_at_four() {
    let flag = |n: u64| get_verbose_arguments_from_settings(&settings(n, None, None, SubCommand::Ping(GenericCommand)));
    assert_eq!(flag(5), flag(4));
    assert_eq!(flag(9), flag(4));
    assert_eq!(flag(u64::MAX), Some("-vvvv".to_string()));
}

#[test]
fn uptime_runs_the_command_module() {
    let s = plain(SubCommand::Uptime(GenericCommand));
    let c = adhoc(&s);
    assert_eq!(c.module(), &Module::RawCommand("uptime".to_string()));
    assert!(!c.needs_become());
    assert_eq!(c.arguments(&s), strings(&["-m", "command", "-a", "uptime", "all"]));
}

#[test]
fn run_command_without_directory() {
    let s = plain(SubCommand::Run(RunCommand { command: "uptime".to_string(), needs_become: false, chdir: None }));
    let c = adhoc(&s);
    assert_eq!(c.arguments(&s), strings(&["-m", "command", "-a", "uptime", "all"]));
}

#[test]
fn run_command_with_directory_and_privileges() {
    let s = settings(
        0,
        None,
        Some("workers"),
        SubCommand::Run(RunCommand { command: "ls -la".to_string(), needs_become: true, chdir: Some("/srv".to_string()) }),
    );
    let c = adhoc(&s);
    assert_eq!(
        c.arguments(&s),
        strings(&["-K", "-b", "-m", "command", "-a", "ls -la chdir=\"/srv\"", "workers"])
    );
}

#[test]
fn copy_to_the_machines() {
    let s = plain(SubCommand::Copy(CopyCommand { src: "/tmp/a".to_string(), dest: "/tmp/b".to_string() }));
    let c = adhoc(&s);
    assert_eq!(c.module(), &Module::Named("copy".to_string()));
    assert_eq!(c.arguments(&s), strings(&["-m", "copy", "-a", "src=\"/tmp/a\" dest=\"/tmp/b\"", "all"]));
}

#[test]
fn fetch_from_the_machines() {
    let s = plain(SubCommand::Fetch(CopyCommand { src: "/var/log/syslog".to_string(), dest: "logs/".to_string() }));
    let c = adhoc(&s);
    assert_eq!(
        c.arguments(&s),
        strings(&["-m", "fetch", "-a", "src=\"/var/log/syslog\" dest=\"logs/\"", "all"])
    );
}

#[test]
fn arguments_come_in_fixed_order() {
    let s = settings(2, Some("/tmp/inventory.yaml"), Some("web*"), SubCommand::Reboot(GenericCommand));
    let c = adhoc(&s);
    assert!(c.needs_become());
    assert_eq!(
        c.arguments(&s),
        strings(&["-vv", "--inventory", "/tmp/inventory.yaml", "-K", "-b", "-m", "reboot", "web*"])
    );
}

#[test]
fn simple_modules() {
    let ping = plain(SubCommand::Ping(GenericCommand));
    assert_eq!(adhoc(&ping).arguments(&ping), strings(&["-m", "ping", "all"]));
    let ssh = plain(SubCommand::Ssh(GenericCommand));
    assert_eq!(adhoc(&ssh).arguments(&ssh), strings(&["-m", "ssh", "all"]));
    let shutdown = plain(SubCommand::Shutdown(GenericCommand));
    assert_eq!(
        adhoc(&shutdown).arguments(&shutdown),
        strings(&["-K", "-b", "-m", "community.general.shutdown", "all"])
    );
}

#[test]
fn update_uses_the_package_manager() {
    let s = settings(1, Some("inv"), None, SubCommand::Update(GenericCommand));
    let expected = strings(&[
        "-v",
        "--inventory",
        "inv",
        "-K",
        "-b",
        "-m",
        "apt",
        "-a",
        "update_cache=\"yes\" autoremove=\"yes\" force_apt_get=\"yes\" upgrade=\"yes\"",
        "all",
    ]);
    assert_eq!(adhoc(&s).arguments(&s), expected);
    assert_eq!(run_update(&s), expected);
}

#[test]
fn inventory_listing() {
    let s = settings(
        3,
        Some("/tmp/inventory.yaml"),
        None,
        SubCommand::Inventory(InventoryCommand { subcommand: InventorySubCommand::List(InventoryCommandOptions) }),
    );
    assert!(matches!(s.plan(), Ok(Plan::ListInventory)));
    assert_eq!(list_hosts_arguments(&s), strings(&["--graph", "--vars", "--inventory", "/tmp/inventory.yaml"]));
    let bare = settings(0, None, None, SubCommand::Ping(GenericCommand));
    assert_eq!(list_hosts_arguments(&bare), strings(&["--graph", "--vars"]));
}

fn commands_with_parameters_are_correctly_built(optional_parameter: Option<String>, needs_become: bool) {
    let command = AnsibleCommand::new("my_command", needs_become, None)
        .with_parameter("param1", "param1_value")
        .with_parameter("param2", "param2_value")
        .with_optional_parameter("opt_param1", &optional_parameter);

    assert_eq!(command.module(), &Module::Named("my_command".to_string()));
    assert_eq!(command.needs_become(), needs_become);
    assert_eq!(command.parameter("param1").unwrap(), "param1_value");
    assert_eq!(command.parameter("param2").unwrap(), "param2_value");

    if let Some(v) = optional_parameter {
        assert_eq!(command.parameter("opt_param1").unwrap(), v);
    } else {
        assert_eq!(command.parameter("opt_param1"), None);
    }
}

#[test]
fn command_without_optional_parameter() {
    commands_with_parameters_are_correctly_built(None, false);
    commands_with_parameters_are_correctly_built(None, true);
}

#[test]
fn command_with_empty_optional_parameter() {
    commands_with_parameters_are_correctly_built(Some(String::new()), false);
    commands_with_parameters_are_correctly_built(Some(String::new()), true);
}

#[test]
fn parameters_keep_insertion_order() {
    let c = AnsibleCommand::new("m", false, Some("db".to_string()))
        .with_parameter("b", "1")
        .with_parameter("a", "")
        .with_parameter("b", "2");
    let expected: Vec<(String, String)> = vec![("b".to_string(), "2".to_string()), ("a".to_string(), String::new())];
    assert_eq!(c.parameters(), &expected);
    assert_eq!(c.host_pattern(), &Some("db".to_string()));
    let s = plain(SubCommand::Ping(GenericCommand));
    assert_eq!(c.arguments(&s), strings(&["-m", "m", "-a", "b=\"2\" a", "db"]));
}
