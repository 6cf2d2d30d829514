use offsetup::cli::{parse_string_list, Action, Command};
use offsetup::install::{InstallError, Progress, ShellCommand};
use offsetup::manifest::{Dependencies, Platform};
use offsetup::scanning::platform::{Architecture, Platform as CurrentPlatform, PlatformName};
use offsetup::{OffSetup, OffSetupCli};

fn entry(script: Vec<&str>) -> Platform {
    Platform {
        versions: vec!["18.04".to_string()],
        arch: None,
        source: None,
        system: None,
        pre_install: Some(script.into_iter().map(|line| line.to_string()).collect()),
        install_priority: None,
        skip_install: None,
        fail_silently: None,
    }
}

fn manifest(dry_run: Option<bool>) -> OffSetup {
    OffSetup {
        name: "redis".to_string(),
        version: "5.0.3".to_string(),
        dependencies: Some(Dependencies {
            applications: None,
            platforms: Some(vec![
                ("ubuntu".to_string(), entry(vec!["apt-get update", "apt-get install -y redis"])),
                ("unknown".to_string(), entry(vec!["true"])),
            ]),
        }),
        exposes: None,
        debug: None,
        dry_run,
    }
}

fn cli(cmd: Command) -> OffSetupCli {
    OffSetupCli {
        debug: false,
        dry_run: false,
        verbose: 0,
        install_priority: None,
        config_file: "offsetup.yml".to_string(),
        cmd,
    }
}

fn host(name: PlatformName) -> CurrentPlatform {
    CurrentPlatform { arch: Architecture::X86_64, name, versions: Vec::new() }
}

/// Stands in for the shell: counts the commands handed to it.
struct CountingShell {
    invocations: usize,
}

impl CountingShell {
    fn perform(&mut self, action: &Action) {
        match action {
            Action::Report(_) => {}
            Action::Run(plan) => {
                let mut progress = Progress::start(plan);
                while let Some(place) = progress.to_run() {
                    self.execute(&plan[place]);
                    progress = progress.advance(plan, true);
                }
            }
        }
    }

    fn execute(&mut self, _command: &ShellCommand) {
        self.invocations += 1;
    }
}

#[test]
fn dry_run_of_install_invokes_no_command() {
    let action = cli(Command::Install)
        .process_command(&manifest(Some(true)), &host(PlatformName::Ubuntu))
        .unwrap();
    let mut shell = CountingShell { invocations: 0 };
    shell.perform(&action);
    assert_eq!(0, shell.invocations);
    match action {
        Action::Report(lines) => {
            assert_eq!(vec!["DRY-RUN: what would be installed", "..."], lines)
        }
        Action::Run(_) => panic!("a dry run must not run anything"),
    }
}

#[test]
fn install_invokes_the_commands_of_the_host() {
    for dry_run in [None, Some(false)] {
        let action = cli(Command::Install)
            .process_command(&manifest(dry_run), &host(PlatformName::Ubuntu))
            .unwrap();
        let mut shell = CountingShell { invocations: 0 };
        shell.perform(&action);
        assert_eq!(2, shell.invocations);
    }
}

#[test]
fn install_without_dependencies_runs_nothing() {
    let mut config = manifest(None);
    config.dependencies = None;
    let action = OffSetupCli::run_install_command(&config, &host(PlatformName::Ubuntu)).unwrap();
    match action {
        Action::Run(plan) => assert_eq!(0, plan.len()),
        Action::Report(_) => panic!("no dry run was asked for"),
    }
}

#[test]
fn install_on_an_unknown_host_fails() {
    let planned =
        cli(Command::Install).process_command(&manifest(None), &host(PlatformName::Unknown));
    assert_eq!(Some(InstallError::UnknownPlatform), planned.err());

    let dry = cli(Command::Install)
        .process_command(&manifest(Some(true)), &host(PlatformName::Unknown));
    assert!(dry.is_ok());
}

#[test]
fn dry_run_of_every_subcommand_reports_and_runs_nothing() {
    let cases = [
        (Command::Init, "DRY-RUN: output to offsetup.yml"),
        (Command::Install, "DRY-RUN: what would be installed"),
        (Command::Uninstall { remove_shared: false }, "DRY-RUN: what would be removed"),
        (Command::Uninstall { remove_shared: true }, "DRY-RUN: what would be removed"),
        (Command::Start, "DRY-RUN: what would be started"),
        (Command::Stop, "DRY-RUN: what would be stopped"),
    ];
    for (cmd, first) in cases {
        let config = manifest(Some(true));
        let action = cli(cmd).process_command(&config, &host(PlatformName::Ubuntu)).unwrap();
        let mut shell = CountingShell { invocations: 0 };
        shell.perform(&action);
        assert_eq!(0, shell.invocations);
        match action {
            Action::Report(lines) => assert_eq!(vec![first, "..."], lines),
            Action::Run(_) => panic!("a dry run must not run anything"),
        }
    }
    let config = manifest(Some(true));
    assert_eq!(
        vec!["DRY-RUN: output to offsetup.yml", "..."],
        OffSetupCli::run_new_command(&config)
    );
    assert_eq!(
        vec!["DRY-RUN: what would be removed", "..."],
        OffSetupCli::run_uninstall_command(&config, true)
    );
    assert_eq!(
        vec!["DRY-RUN: what would be started", "..."],
        OffSetupCli::run_start_command(&config)
    );
    assert_eq!(
        vec!["DRY-RUN: what would be stopped", "..."],
        OffSetupCli::run_stop_command(&config)
    );
}

#[test]
fn list_of_priorities_is_split_at_its_commas() {
    assert_eq!(Ok(vec!["a".to_string(), "b".to_string()]), parse_string_list("a,b"));
    assert_eq!(Ok(vec!["a".to_string(), "b".to_string()]), parse_string_list("  a,b\n"));
    assert_eq!(Ok(vec!["apt".to_string()]), parse_string_list("apt"));
    assert_eq!(Ok(vec!["".to_string()]), parse_string_list(""));
    assert_eq!(Ok(vec!["".to_string()]), parse_string_list("   "));
    assert_eq!(
        Ok(vec!["a".to_string(), " b".to_string(), "".to_string(), "c ".to_string(), "".to_string()]),
        parse_string_list(" a, b,,c ,")
    );
}
