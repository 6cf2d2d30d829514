use offsetup::install::{
    install_platform, process_bash, process_cmd, process_pre_install_unix_like,
    process_pre_install_windows, InstallError, Progress, Shell, ShellCommand,
};
use offsetup::manifest::{Dependencies, Platform};
use offsetup::scanning::platform::{Architecture, Platform as CurrentPlatform, PlatformName};

fn entry(script: Option<Vec<&str>>) -> Platform {
    Platform {
        versions: vec!["18.04".to_string()],
        arch: None,
        source: None,
        system: None,
        pre_install: script.map(|lines| lines.into_iter().map(|line| line.to_string()).collect()),
        install_priority: None,
        skip_install: None,
        fail_silently: None,
    }
}

fn host(name: PlatformName) -> CurrentPlatform {
    CurrentPlatform { arch: Architecture::X86_64, name, versions: vec!["1".to_string()] }
}

fn lines(commands: &Vec<ShellCommand>) -> Vec<(Shell, String)> {
    commands.iter().map(|command| (command.shell, command.line.clone())).collect()
}

fn manifest_entries() -> Dependencies {
    Dependencies {
        applications: None,
        platforms: Some(vec![
            ("windows".to_string(), entry(Some(vec!["choco install redis"]))),
            ("ubuntu".to_string(), entry(Some(vec!["apt-get update", "apt-get install -y redis"]))),
            ("macos".to_string(), entry(Some(vec!["brew install redis"]))),
            ("arch".to_string(), entry(None)),
            ("unknown".to_string(), entry(Some(vec!["true"]))),
        ]),
    }
}

#[test]
fn line_for_the_posix_shell() {
    let command = process_bash("apt-get install -y redis");
    assert_eq!(Shell::Sh, command.shell);
    assert_eq!("sh", command.shell.program());
    assert_eq!("apt-get install -y redis", command.line);
    assert_eq!(vec!["apt-get", "install", "-y", "redis"], command.args);
}

#[test]
fn line_for_the_command_interpreter() {
    let command = process_cmd("choco  install redis");
    assert_eq!(Shell::Cmd, command.shell);
    assert_eq!("cmd", command.shell.program());
    assert_eq!("choco  install redis", command.line);
    assert_eq!(vec!["choco", "", "install", "redis"], command.args);
}

#[test]
fn empty_line_has_one_empty_argument() {
    let command = process_bash("");
    assert_eq!(vec![""], command.args);
}

#[test]
fn script_gives_one_command_for_each_line() {
    let script = Some(vec!["a b".to_string(), "c".to_string()]);
    let unix = process_pre_install_unix_like(&script);
    assert_eq!(vec![(Shell::Sh, "a b".to_string()), (Shell::Sh, "c".to_string())], lines(&unix));
    assert_eq!(vec!["a", "b"], unix[0].args);
    let windows = process_pre_install_windows(&script);
    assert_eq!(
        vec![(Shell::Cmd, "a b".to_string()), (Shell::Cmd, "c".to_string())],
        lines(&windows)
    );
    assert_eq!(0, process_pre_install_unix_like(&None).len());
    assert_eq!(0, process_pre_install_windows(&None).len());
    assert_eq!(0, process_pre_install_unix_like(&Some(Vec::new())).len());
}

#[test]
fn entry_of_the_host_runs_its_script() {
    let ubuntu = entry(Some(vec!["apt-get update"]));
    let planned = install_platform("ubuntu", &ubuntu, &host(PlatformName::Ubuntu)).unwrap();
    assert_eq!(vec![(Shell::Sh, "apt-get update".to_string())], lines(&planned));

    let planned = install_platform("windows", &ubuntu, &host(PlatformName::Windows)).unwrap();
    assert_eq!(vec![(Shell::Cmd, "apt-get update".to_string())], lines(&planned));

    let planned = install_platform("macos", &ubuntu, &host(PlatformName::MacOSX)).unwrap();
    assert_eq!(vec![(Shell::Sh, "apt-get update".to_string())], lines(&planned));
}

#[test]
fn entry_of_another_platform_runs_nothing() {
    let ubuntu = entry(Some(vec!["apt-get update"]));
    for name in [PlatformName::Debian, PlatformName::Windows, PlatformName::Unknown] {
        let planned = install_platform("ubuntu", &ubuntu, &host(name)).unwrap();
        assert_eq!(0, planned.len());
    }
    let planned = install_platform("Ubuntu", &ubuntu, &host(PlatformName::Ubuntu)).unwrap();
    assert_eq!(0, planned.len());
    let planned = install_platform("unknown", &ubuntu, &host(PlatformName::Ubuntu)).unwrap();
    assert_eq!(0, planned.len());
}

#[test]
fn entry_of_the_unknown_platform_on_an_unknown_host_fails() {
    let unknown = entry(Some(vec!["true"]));
    let planned = install_platform("unknown", &unknown, &host(PlatformName::Unknown));
    assert_eq!(Some(InstallError::UnknownPlatform), planned.err());
}

#[test]
fn installation_is_that_of_the_host_among_the_entries() {
    let dependencies = manifest_entries();
    let planned = dependencies.install(&host(PlatformName::Ubuntu)).unwrap();
    assert_eq!(
        vec![
            (Shell::Sh, "apt-get update".to_string()),
            (Shell::Sh, "apt-get install -y redis".to_string()),
        ],
        lines(&planned)
    );
    let planned = dependencies.install(&host(PlatformName::Windows)).unwrap();
    assert_eq!(vec![(Shell::Cmd, "choco install redis".to_string())], lines(&planned));
    let planned = dependencies.install_platforms(&host(PlatformName::MacOSX)).unwrap();
    assert_eq!(vec![(Shell::Sh, "brew install redis".to_string())], lines(&planned));
    assert_eq!(0, dependencies.install(&host(PlatformName::Arch)).unwrap().len());
    assert_eq!(0, dependencies.install(&host(PlatformName::Debian)).unwrap().len());
    assert_eq!(0, dependencies.install_applications().len());
}

#[test]
fn installation_on_an_unknown_host() {
    let dependencies = manifest_entries();
    let planned = dependencies.install(&host(PlatformName::Unknown));
    assert_eq!(Some(InstallError::UnknownPlatform), planned.err());

    let without = Dependencies {
        applications: None,
        platforms: Some(vec![("ubuntu".to_string(), entry(Some(vec!["true"])))]),
    };
    assert_eq!(0, without.install(&host(PlatformName::Unknown)).unwrap().len());
    let none = Dependencies { applications: None, platforms: None };
    assert_eq!(0, none.install(&host(PlatformName::Unknown)).unwrap().len());
}

fn run(plan: &Vec<ShellCommand>, fails_at: Option<usize>) -> (Vec<usize>, Progress) {
    let mut ran = Vec::new();
    let mut progress = Progress::start(plan);
    while let Some(place) = progress.to_run() {
        ran.push(place);
        progress = progress.advance(plan, Some(place) != fails_at);
    }
    (ran, progress)
}

#[test]
fn commands_run_in_the_order_of_the_plan() {
    let plan = vec![process_bash("a"), process_bash("b"), process_bash("c")];
    assert_eq!((vec![0, 1, 2], Progress::Finished), run(&plan, None));
    assert_eq!((Vec::new(), Progress::Finished), run(&Vec::new(), None));
}

#[test]
fn first_failure_ends_the_installation() {
    let plan = vec![process_bash("a"), process_bash("b"), process_bash("c")];
    assert_eq!((vec![0], Progress::Aborted(0)), run(&plan, Some(0)));
    assert_eq!((vec![0, 1], Progress::Aborted(1)), run(&plan, Some(1)));
    assert_eq!((vec![0, 1, 2], Progress::Aborted(2)), run(&plan, Some(2)));
    let aborted = Progress::Aborted(1);
    assert_eq!(None, aborted.to_run());
    assert_eq!(Progress::Aborted(1), aborted.advance(&plan, true));
    assert_eq!(Progress::Finished, Progress::Finished.advance(&plan, false));
}

#[test]
fn place_of_an_entry_in_the_manifest_does_not_matter() {
    let dependencies = manifest_entries();
    let mut turned = manifest_entries();
    turned.platforms.as_mut().unwrap().reverse();
    for name in [
        PlatformName::Arch,
        PlatformName::CentOS,
        PlatformName::Debian,
        PlatformName::MacOSX,
        PlatformName::Manjaro,
        PlatformName::Redhat,
        PlatformName::Ubuntu,
        PlatformName::Windows,
    ] {
        let one = dependencies.install(&host(name)).unwrap();
        let other = turned.install(&host(name)).unwrap();
        assert_eq!(lines(&one), lines(&other));
    }
    assert!(turned.install(&host(PlatformName::Unknown)).is_err());
}
