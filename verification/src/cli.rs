//! The command line: what it holds once parsed, and what each subcommand has
//! the caller do.

use std::string::ParseError;
use vstd::prelude::*;
use vstd::string::*;
use crate::install::{install_plan, InstallError, Invocation, ShellCommand};
use crate::manifest::OffSetup;
use crate::scanning::platform::{Platform as CurrentPlatform, PlatformName};
use crate::text::{split, split_str, trim, trimmed};

verus! {

/// The subcommands.
#[derive(Clone, Copy, Debug, PartialEq, Eq, Structural)]
pub enum Command {
    /// Generate a basic manifest for the host.
    Init,
    /// Install the project and all that it depends on.
    Install,
    /// Remove the project, and with `remove_shared` also the dependencies
    /// that it shares with others.
    Uninstall { remove_shared: bool },
    /// Run the project.
    Start,
    /// Stop the project.
    Stop,
}

/// The command line, parsed.
#[derive(Clone, Debug)]
pub struct OffSetupCli {
    /// Whether debug mode is on.
    pub debug: bool,
    /// Whether to show what would be done without doing it.
    pub dry_run: bool,
    /// How often the verbose flag was given.
    pub verbose: u8,
    /// The install priority that overrides that of the manifest.
    pub install_priority: Option<Vec<String>>,
    /// The path of the manifest file.
    pub config_file: String,
    /// The subcommand.
    pub cmd: Command,
}

/// What a subcommand has the caller do.
#[derive(Clone, Debug)]
pub enum Action {
    /// Print these lines, and do nothing else.
    Report(Vec<String>),
    /// Run these commands, one after the other.
    Run(Vec<ShellCommand>),
}

/// What a subcommand has the caller do, as plain values.
pub enum ActionView {
    Report(Seq<Seq<char>>),
    Run(Seq<Invocation>),
}

impl DeepView for Action {
    type V = ActionView;

    open spec fn deep_view(&self) -> ActionView {
        match self {
            Action::Report(lines) => ActionView::Report(lines.deep_view()),
            Action::Run(commands) => ActionView::Run(commands.deep_view()),
        }
    }
}

/// The lines that a subcommand prints in a dry run.
pub open spec fn dry_run_report(cmd: Command) -> Seq<Seq<char>> {
    match cmd {
        Command::Init => seq!["DRY-RUN: output to offsetup.yml"@, "..."@],
        Command::Install => seq!["DRY-RUN: what would be installed"@, "..."@],
        Command::Uninstall { .. } => seq!["DRY-RUN: what would be removed"@, "..."@],
        Command::Start => seq!["DRY-RUN: what would be started"@, "..."@],
        Command::Stop => seq!["DRY-RUN: what would be stopped"@, "..."@],
    }
}

/// What the install subcommand has the caller do on a host: in a dry run
/// print the report, and run nothing; otherwise run the installation of the
/// manifest's dependencies.
pub open spec fn install_action(config: OffSetup, host: PlatformName) -> Result<
    ActionView,
    InstallError,
> {
    if config.dry_run == Some(true) {
        Ok(ActionView::Report(dry_run_report(Command::Install)))
    } else {
        match config.dependencies {
            Some(dependencies) => match install_plan(dependencies, host) {
                Ok(commands) => Ok(ActionView::Run(commands)),
                Err(error) => Err(error),
            },
            None => Ok(ActionView::Run(Seq::<Invocation>::empty())),
        }
    }
}

/// What a subcommand has the caller do on a host. Outside a dry run this is
/// defined for the install subcommand alone.
pub open spec fn command_action(cmd: Command, config: OffSetup, host: PlatformName) -> Result<
    ActionView,
    InstallError,
> {
    if cmd is Install {
        install_action(config, host)
    } else {
        Ok(ActionView::Report(dry_run_report(cmd)))
    }
}

/// An action, or the reason why there is none, as plain values.
pub open spec fn action_view(action: Result<Action, InstallError>) -> Result<
    ActionView,
    InstallError,
> {
    match action {
        Ok(action) => Ok(action.deep_view()),
        Err(error) => Err(error),
    }
}

/// Reads a list of texts that are separated by commas. White space around
/// the whole list is left out; every comma separates, so that a list with
/// `n` commas has `n + 1` items, of which any may be empty.
pub fn parse_string_list(input: &str) -> (parsed: Result<Vec<String>, ParseError>)
    ensures
        parsed matches Ok(list) && list.deep_view() == split(trimmed(input@), ','),
{
    Ok(split_str(trim(input), ','))
}

fn report(first: &str) -> (lines: Vec<String>)
    ensures
        lines.deep_view() == seq![first@, "..."@],
{
    let mut lines: Vec<String> = Vec::new();
    lines.push(first.to_owned());
    lines.push("...".to_owned());
    lines
}

impl OffSetupCli {
    /// What the subcommand of this command line has the caller do with a
    /// manifest on a host.
    ///
    /// In a dry run every subcommand reports what it would do, and has
    /// nothing run. Outside a dry run only the install subcommand can be
    /// processed.
    pub fn process_command(&self, config: &OffSetup, current_platform: &CurrentPlatform) -> (action:
        Result<Action, InstallError>)
        requires
            self.cmd is Install || config.dry_run == Some(true),
        ensures
            action_view(action) == command_action(self.cmd, *config, current_platform.name),
            config.dry_run == Some(true) ==> action_view(action) == Ok::<ActionView, InstallError>(
                ActionView::Report(dry_run_report(self.cmd)),
            ),
    {
        match self.cmd {
            Command::Init => Ok(Action::Report(OffSetupCli::run_new_command(config))),
            Command::Install => OffSetupCli::run_install_command(config, current_platform),
            Command::Uninstall { remove_shared } => Ok(
                Action::Report(OffSetupCli::run_uninstall_command(config, remove_shared)),
            ),
            Command::Start => Ok(Action::Report(OffSetupCli::run_start_command(config))),
            Command::Stop => Ok(Action::Report(OffSetupCli::run_stop_command(config))),
        }
    }

    /// The report of the subcommand that generates a manifest, in a dry run.
    pub fn run_new_command(config: &OffSetup) -> (lines: Vec<String>)
        requires
            config.dry_run == Some(true),
        ensures
            lines.deep_view() == dry_run_report(Command::Init),
    {
        report("DRY-RUN: output to offsetup.yml")
    }

    /// What the install subcommand has the caller do on a host.
    ///
    /// In a dry run the action is a report, so that no command is run.
    /// Otherwise it is the installation of the manifest's dependencies, and
    /// fails exactly where that cannot be planned.
    pub fn run_install_command(config: &OffSetup, current_platform: &CurrentPlatform) -> (action:
        Result<Action, InstallError>)
        ensures
            action_view(action) == install_action(*config, current_platform.name),
            config.dry_run == Some(true) ==> action matches Ok(Action::Report(_)),
    {
        match config.dry_run {
            Some(true) => Ok(Action::Report(report("DRY-RUN: what would be installed"))),
            _ => match &config.dependencies {
                Some(dependencies) => match dependencies.install(current_platform) {
                    Ok(commands) => Ok(Action::Run(commands)),
                    Err(error) => Err(error),
                },
                None => {
                    let nothing: Vec<ShellCommand> = Vec::new();
                    assert(nothing.deep_view() =~= Seq::<Invocation>::empty());
                    Ok(Action::Run(nothing))
                },
            },
        }
    }

    /// The report of the subcommand that removes the project, in a dry run.
    pub fn run_uninstall_command(config: &OffSetup, _remove_shared: bool) -> (lines: Vec<String>)
        requires
            config.dry_run == Some(true),
        ensures
            lines.deep_view() == dry_run_report(Command::Uninstall { remove_shared: _remove_shared }),
    {
        report("DRY-RUN: what would be removed")
    }

    /// The report of the subcommand that runs the project, in a dry run.
    pub fn run_start_command(config: &OffSetup) -> (lines: Vec<String>)
        requires
            config.dry_run == Some(true),
        ensures
            lines.deep_view() == dry_run_report(Command::Start),
    {
        report("DRY-RUN: what would be started")
    }

    /// The report of the subcommand that stops the project, in a dry run.
    pub fn run_stop_command(config: &OffSetup) -> (lines: Vec<String>)
        requires
            config.dry_run == Some(true),
        ensures
            lines.deep_view() == dry_run_report(Command::Stop),
    {
        report("DRY-RUN: what would be stopped")
    }
}

} // verus!
