//! The install dispatcher: plans the installation of a manifest's
//! dependencies on the host, that is which commands to hand to which shell,
//! in which order, and when to give up.

use vstd::prelude::*;
use vstd::string::*;
use crate::manifest::{keys, Dependencies, Platform};
use crate::scanning::platform::{Platform as CurrentPlatform, PlatformName};
use crate::text::{split, split_str, str_eq};

verus! {

/// The shells that run a command.
#[derive(Clone, Copy, Debug, PartialEq, Eq, Structural)]
pub enum Shell {
    /// The POSIX shell of a Unix-like host.
    Sh,
    /// The command interpreter of a Windows host.
    Cmd,
}

impl Shell {
    /// The name of the program that is the shell.
    pub open spec fn program_text(self) -> Seq<char> {
        match self {
            Shell::Sh => "sh"@,
            Shell::Cmd => "cmd"@,
        }
    }

    /// The name of the program that is the shell.
    pub fn program(&self) -> (name: &'static str)
        ensures
            name@ == self.program_text(),
    {
        match self {
            Shell::Sh => "sh",
            Shell::Cmd => "cmd",
        }
    }
}

/// One command for a shell: the line as the manifest gives it, and the
/// arguments that the shell is started with, which are the pieces of the
/// line between its spaces.
#[derive(Clone, Debug)]
pub struct ShellCommand {
    pub shell: Shell,
    pub line: String,
    pub args: Vec<String>,
}

/// A command for a shell as plain values.
pub struct Invocation {
    pub shell: Shell,
    pub line: Seq<char>,
    pub args: Seq<Seq<char>>,
}

impl DeepView for ShellCommand {
    type V = Invocation;

    open spec fn deep_view(&self) -> Invocation {
        Invocation { shell: self.shell, line: self.line@, args: self.args.deep_view() }
    }
}

/// Why no installation can be planned.
#[derive(Clone, Copy, Debug, PartialEq, Eq, Structural)]
pub enum InstallError {
    /// The host's platform is not known, and the manifest holds an entry for
    /// the unknown platform.
    UnknownPlatform,
}

/// A planned installation, or the reason why there is none, as plain values.
pub open spec fn plan_view(planned: Result<Vec<ShellCommand>, InstallError>) -> Result<
    Seq<Invocation>,
    InstallError,
> {
    match planned {
        Ok(commands) => Ok(commands.deep_view()),
        Err(error) => Err(error),
    }
}

/// The command that hands one line to a shell.
pub open spec fn invocation(shell: Shell, line: Seq<char>) -> Invocation {
    Invocation { shell, line, args: split(line, ' ') }
}

/// The commands of a script: one for each of its lines, in their order, and
/// none where there is no script.
pub open spec fn script_plan(shell: Shell, script: Option<Seq<Seq<char>>>) -> Seq<Invocation> {
    match script {
        Some(lines) => lines.map_values(|line: Seq<char>| invocation(shell, line)),
        None => Seq::<Invocation>::empty(),
    }
}

/// The shell of a platform: the command interpreter on Windows, the POSIX
/// shell everywhere else.
pub open spec fn shell_of(platform: PlatformName) -> Shell {
    if platform == PlatformName::Windows {
        Shell::Cmd
    } else {
        Shell::Sh
    }
}

/// What one platform entry of a manifest adds to the installation on a host.
/// An entry whose key is not the text of the host's platform adds nothing.
/// The entry of the host's platform adds its pre-install script, for the
/// shell of that platform; but for an unknown host nothing can be planned.
/// The flags `skip_install` and `fail_silently` of an entry are not looked
/// at.
pub open spec fn platform_plan(key: Seq<char>, entry: Platform, host: PlatformName) -> Result<
    Seq<Invocation>,
    InstallError,
> {
    if key != host.text() {
        Ok(Seq::<Invocation>::empty())
    } else if host == PlatformName::Unknown {
        Err(InstallError::UnknownPlatform)
    } else {
        Ok(script_plan(shell_of(host), entry.pre_install.deep_view()))
    }
}

/// What the platform entries of a manifest add to the installation on a
/// host, entry by entry in their order; nothing can be planned where it
/// cannot be for one of them.
pub open spec fn platforms_plan(entries: Seq<(String, Platform)>, host: PlatformName) -> Result<
    Seq<Invocation>,
    InstallError,
>
    decreases entries.len(),
{
    if entries.len() == 0 {
        Ok(Seq::<Invocation>::empty())
    } else {
        match (
            platforms_plan(entries.drop_last(), host),
            platform_plan(entries.last().0@, entries.last().1, host),
        ) {
            (Ok(earlier), Ok(last)) => Ok(earlier + last),
            _ => Err(InstallError::UnknownPlatform),
        }
    }
}

/// The installation of a manifest's dependencies on a host: nothing for the
/// applications, then what the platform entries add.
pub open spec fn install_plan(dependencies: Dependencies, host: PlatformName) -> Result<
    Seq<Invocation>,
    InstallError,
> {
    match dependencies.platforms {
        Some(platforms) => platforms_plan(platforms@, host),
        None => Ok(Seq::<Invocation>::empty()),
    }
}

fn shell_command(shell: Shell, command: &str) -> (invoked: ShellCommand)
    ensures
        invoked.deep_view() == invocation(shell, command@),
{
    ShellCommand { shell, line: command.to_owned(), args: split_str(command, ' ') }
}

/// The command that hands a line to the POSIX shell.
pub fn process_bash(command: &str) -> (invoked: ShellCommand)
    ensures
        invoked.deep_view() == invocation(Shell::Sh, command@),
{
    shell_command(Shell::Sh, command)
}

/// The command that hands a line to the Windows command interpreter.
pub fn process_cmd(command: &str) -> (invoked: ShellCommand)
    ensures
        invoked.deep_view() == invocation(Shell::Cmd, command@),
{
    shell_command(Shell::Cmd, command)
}

fn process_pre_install(shell: Shell, pre_install: &Option<Vec<String>>) -> (commands: Vec<
    ShellCommand,
>)
    ensures
        commands.deep_view() == script_plan(shell, pre_install.deep_view()),
{
    let mut commands: Vec<ShellCommand> = Vec::new();
    match pre_install {
        Some(script) => {
            let mut i: usize = 0;
            while i < script.len()
                invariant
                    i <= script.len(),
                    commands.deep_view() == script.deep_view().take(i as int).map_values(
                        |line: Seq<char>| invocation(shell, line),
                    ),
                decreases script.len() - i,
            {
                let ghost planned = commands.deep_view();
                commands.push(shell_command(shell, script[i].as_str()));
                assert(commands.deep_view() =~= planned.push(invocation(shell, script[i as int]@)));
                i += 1;
            }
        },
        None => {},
    }
    commands
}

/// The commands of a pre-install script on a Windows host.
pub fn process_pre_install_windows(pre_install: &Option<Vec<String>>) -> (commands: Vec<
    ShellCommand,
>)
    ensures
        commands.deep_view() == script_plan(Shell::Cmd, pre_install.deep_view()),
{
    process_pre_install(Shell::Cmd, pre_install)
}

/// The commands of a pre-install script on a Unix-like host.
pub fn process_pre_install_unix_like(pre_install: &Option<Vec<String>>) -> (commands: Vec<
    ShellCommand,
>)
    ensures
        commands.deep_view() == script_plan(Shell::Sh, pre_install.deep_view()),
{
    process_pre_install(Shell::Sh, pre_install)
}

/// Plans what one platform entry of a manifest, found under the key `name`,
/// adds to the installation on the host.
///
/// Fails exactly where the host's platform is unknown and `name` is the key
/// of the unknown platform.
pub fn install_platform(name: &str, platform: &Platform, current_platform: &CurrentPlatform) -> (
    planned: Result<Vec<ShellCommand>, InstallError>
)
    ensures
        plan_view(planned) == platform_plan(name@, *platform, current_platform.name),
        planned is Err <==> current_platform.name == PlatformName::Unknown && name@
            == PlatformName::Unknown.text(),
{
    let key = current_platform.name.to_string();
    if !str_eq(name, key.as_str()) {
        let nothing: Vec<ShellCommand> = Vec::new();
        assert(nothing.deep_view() =~= Seq::<Invocation>::empty());
        return Ok(nothing);
    }
    match current_platform.name {
        PlatformName::Unknown => Err(InstallError::UnknownPlatform),
        PlatformName::Windows => Ok(process_pre_install_windows(&platform.pre_install)),
        _ => Ok(process_pre_install_unix_like(&platform.pre_install)),
    }
}

impl Dependencies {
    /// Plans the installation of the applications: there is nothing to run
    /// for them.
    pub fn install_applications(&self) -> (commands: Vec<ShellCommand>)
        ensures
            commands@.len() == 0,
    {
        Vec::new()
    }

    /// Plans what the platform entries add to the installation on the host.
    pub fn install_platforms(&self, current_platform: &CurrentPlatform) -> (planned: Result<
        Vec<ShellCommand>,
        InstallError,
    >)
        ensures
            plan_view(planned) == install_plan(*self, current_platform.name),
    {
        let mut commands: Vec<ShellCommand> = Vec::new();
        assert(commands.deep_view() =~= Seq::<Invocation>::empty());
        match &self.platforms {
            Some(platforms) => {
                let mut i: usize = 0;
                while i < platforms.len()
                    invariant
                        i <= platforms.len(),
                        self.platforms == Some(*platforms),
                        platforms_plan(platforms@.take(i as int), current_platform.name) == Ok::<
                            Seq<Invocation>,
                            InstallError,
                        >(commands.deep_view()),
                    decreases platforms.len() - i,
                {
                    assert(platforms@.take(i + 1).drop_last() =~= platforms@.take(i as int));
                    let ghost host = current_platform.name;
                    match install_platform(
                        platforms[i].0.as_str(),
                        &platforms[i].1,
                        current_platform,
                    ) {
                        Ok(mut more) => {
                            let ghost earlier = commands.deep_view();
                            let ghost last = more.deep_view();
                            commands.append(&mut more);
                            assert(commands.deep_view() =~= earlier + last);
                        },
                        Err(error) => {
                            proof {
                                lemma_plan_fails_for_good(platforms@, i + 1, host);
                            }
                            return Err(error);
                        },
                    }
                    i += 1;
                }
                assert(platforms@.take(i as int) =~= platforms@);
                Ok(commands)
            },
            None => Ok(commands),
        }
    }

    /// Plans the installation of the dependencies on the host: the
    /// applications first, then the platform entries.
    pub fn install(&self, current_platform: &CurrentPlatform) -> (planned: Result<
        Vec<ShellCommand>,
        InstallError,
    >)
        ensures
            plan_view(planned) == install_plan(*self, current_platform.name),
    {
        let mut commands = self.install_applications();
        match self.install_platforms(current_platform) {
            Ok(mut more) => {
                commands.append(&mut more);
                Ok(commands)
            },
            Err(error) => Err(error),
        }
    }
}

/// Once the plan fails for the first entries of a list, it fails for the
/// whole list.
proof fn lemma_plan_fails_for_good(entries: Seq<(String, Platform)>, n: int, host: PlatformName)
    requires
        0 <= n <= entries.len(),
        platforms_plan(entries.take(n), host) is Err,
    ensures
        platforms_plan(entries, host) is Err,
    decreases entries.len() - n,
{
    if n == entries.len() {
        assert(entries.take(n) =~= entries);
    } else {
        assert(entries.take(n + 1).drop_last() =~= entries.take(n));
        lemma_plan_fails_for_good(entries, n + 1, host);
    }
}

/// Where no platform entry has the text of the host's platform as its key,
/// the installation runs no command.
pub proof fn lemma_no_entry_of_the_host(entries: Seq<(String, Platform)>, host: PlatformName)
    requires
        forall|i: int| 0 <= i < entries.len() ==> (#[trigger] entries[i]).0@ != host.text(),
    ensures
        platforms_plan(entries, host) == Ok::<Seq<Invocation>, InstallError>(
            Seq::<Invocation>::empty(),
        ),
    decreases entries.len(),
{
    if entries.len() > 0 {
        let earlier = entries.drop_last();
        assert forall|i: int| 0 <= i < earlier.len() implies (#[trigger] earlier[i]).0@
            != host.text() by {
            assert(earlier[i] == entries[i]);
        }
        lemma_no_entry_of_the_host(earlier, host);
    }
}

/// Where the platform entries form a mapping, the installation on a host is
/// what the entry of the host's platform adds, and nothing of any other
/// entry, wherever that entry stands in the list.
pub proof fn lemma_only_the_entry_of_the_host(
    entries: Seq<(String, Platform)>,
    host: PlatformName,
    at: int,
)
    requires
        keys(entries).no_duplicates(),
        0 <= at < entries.len(),
        entries[at].0@ == host.text(),
    ensures
        platforms_plan(entries, host) == platform_plan(entries[at].0@, entries[at].1, host),
    decreases entries.len(),
{
    let earlier = entries.drop_last();
    assert forall|i: int| 0 <= i < entries.len() && i != at implies (#[trigger] entries[i]).0@
        != host.text() by {
        assert(keys(entries)[i] == entries[i].0@);
        assert(keys(entries)[at] == entries[at].0@);
    }
    if at == entries.len() - 1 {
        assert forall|i: int| 0 <= i < earlier.len() implies (#[trigger] earlier[i]).0@
            != host.text() by {
            assert(earlier[i] == entries[i]);
        }
        lemma_no_entry_of_the_host(earlier, host);
    } else {
        assert(keys(earlier) =~= keys(entries).drop_last());
        lemma_only_the_entry_of_the_host(earlier, host, at);
    }
}

/// How far the caller has come with the commands of an installation.
#[derive(Clone, Copy, Debug, PartialEq, Eq, Structural)]
pub enum Progress {
    /// The command at this place of the plan is the next to run.
    Next(usize),
    /// Every command of the plan has run.
    Finished,
    /// The command at this place of the plan failed, and none after it was
    /// run.
    Aborted(usize),
}

impl Progress {
    /// Whether the progress fits a plan of `commands` commands.
    pub open spec fn fits(self, commands: nat) -> bool {
        match self {
            Progress::Next(at) => at < commands,
            Progress::Finished => true,
            Progress::Aborted(at) => at < commands,
        }
    }

    /// The progress before any command has run.
    pub open spec fn initial(commands: nat) -> Progress {
        if commands == 0 {
            Progress::Finished
        } else {
            Progress::Next(0)
        }
    }

    /// The progress once the command that was next has ended: a failure
    /// ends the installation there and then; a success leads to the command
    /// after it, or to the end of the plan. A progress that has no next
    /// command stays as it is.
    pub open spec fn followed_by(self, commands: nat, succeeded: bool) -> Progress {
        match self {
            Progress::Next(at) => if !succeeded {
                Progress::Aborted(at)
            } else if at + 1 < commands {
                Progress::Next((at + 1) as usize)
            } else {
                Progress::Finished
            },
            _ => self,
        }
    }

    /// The progress after each of the given commands has ended in its turn.
    pub open spec fn after(commands: nat, outcomes: Seq<bool>) -> Progress
        decreases outcomes.len(),
    {
        if outcomes.len() == 0 {
            Progress::initial(commands)
        } else {
            Progress::after(commands, outcomes.drop_last()).followed_by(commands, outcomes.last())
        }
    }

    /// The place in the plan of the command to run next, if there is one.
    pub open spec fn spec_to_run(&self) -> Option<usize> {
        match self {
            Progress::Next(at) => Some(*at),
            _ => None,
        }
    }

    /// The progress before any command of `plan` has run.
    pub fn start(plan: &Vec<ShellCommand>) -> (progress: Progress)
        ensures
            progress == Progress::initial(plan@.len()),
            progress.fits(plan@.len()),
    {
        if plan.len() == 0 {
            Progress::Finished
        } else {
            Progress::Next(0)
        }
    }

    /// The place in the plan of the command to run next, if there is one.
    #[verifier::when_used_as_spec(spec_to_run)]
    pub fn to_run(&self) -> (place: Option<usize>)
        ensures
            place == self.spec_to_run(),
    {
        match self {
            Progress::Next(at) => Some(*at),
            _ => None,
        }
    }

    /// The progress once the command that was next has ended.
    pub fn advance(self, plan: &Vec<ShellCommand>, succeeded: bool) -> (progress: Progress)
        requires
            self.fits(plan@.len()),
        ensures
            progress == self.followed_by(plan@.len(), succeeded),
            progress.fits(plan@.len()),
    {
        let commands = plan.len();
        match self {
            Progress::Next(at) => if !succeeded {
                Progress::Aborted(at)
            } else if at + 1 < commands {
                Progress::Next(at + 1)
            } else {
                Progress::Finished
            },
            _ => self,
        }
    }
}

/// While every command succeeds, the commands run in the order of the plan:
/// after `done` of them the next to run is the one at place `done`, and
/// after all of them the installation is finished.
pub proof fn lemma_successes_run_the_plan(commands: nat, outcomes: Seq<bool>)
    requires
        outcomes.len() <= commands <= usize::MAX,
        forall|i: int| 0 <= i < outcomes.len() ==> outcomes[i],
    ensures
        Progress::after(commands, outcomes) == (if outcomes.len() < commands {
            Progress::Next(outcomes.len() as usize)
        } else {
            Progress::Finished
        }),
    decreases outcomes.len(),
{
    if outcomes.len() > 0 {
        lemma_successes_run_the_plan(commands, outcomes.drop_last());
    }
}

/// The first failure ends the installation: whatever is reported after it,
/// no further command is run.
pub proof fn lemma_failure_aborts(commands: nat, outcomes: Seq<bool>, failed: int)
    requires
        outcomes.len() <= commands <= usize::MAX,
        0 <= failed < outcomes.len(),
        !outcomes[failed],
        forall|i: int| 0 <= i < failed ==> outcomes[i],
    ensures
        Progress::after(commands, outcomes) == Progress::Aborted(failed as usize),
        Progress::after(commands, outcomes).spec_to_run() is None,
    decreases outcomes.len(),
{
    let earlier = outcomes.drop_last();
    if failed == outcomes.len() - 1 {
        lemma_successes_run_the_plan(commands, earlier);
    } else {
        lemma_failure_aborts(commands, earlier, failed);
    }
}

} // verus!
