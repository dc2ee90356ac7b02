//! How the three outside tools are started: the command line of each and the
//! way the host launches it.

use crate::s2g::error::{ErrorKind, ErrorView, S2GError};
use crate::s2g::model::{
    crowbar_commands, gathered, lemma_gathered_failure_stays, studiomdl_commands,
};
use crate::s2g::{S2GSettings, SettingsView};
use crate::text::texts;
use vstd::prelude::*;

verus! {

/// The host that the job runs on, as far as launching a tool goes.
#[derive(Clone, Copy, PartialEq, Eq, Structural, Debug)]
pub enum Platform {
    /// The tools' own platform.
    Windows,
    /// Any other host: Windows binaries need Wine there.
    Unix,
}

/// The way a command is launched.
#[derive(Debug)]
pub enum Launch {
    /// Directly, on the tools' own platform.
    Native,
    /// Through Wine, with this prefix.
    Wine(String),
    /// Directly, on a host that is not the tools' own: the binary is the
    /// host's.
    Transparent,
}

/// A way to launch as a value of specifications.
pub enum LaunchView {
    Native,
    Wine(Seq<char>),
    Transparent,
}

impl View for Launch {
    type V = LaunchView;

    open spec fn view(&self) -> LaunchView {
        match self {
            Launch::Native => LaunchView::Native,
            Launch::Wine(prefix) => LaunchView::Wine(prefix@),
            Launch::Transparent => LaunchView::Transparent,
        }
    }
}

/// One invocation of a tool: the way to launch it, the executable and its
/// arguments.
#[derive(Debug)]
pub struct ToolCommand {
    pub launch: Launch,
    /// The executable, then its arguments.
    pub argv: Vec<String>,
}

/// An invocation as a value of specifications.
pub struct CommandView {
    pub launch: LaunchView,
    pub argv: Seq<Seq<char>>,
}

impl View for ToolCommand {
    type V = CommandView;

    open spec fn view(&self) -> CommandView {
        CommandView { launch: self.launch@, argv: texts(self.argv@) }
    }
}

/// The invocations of a list, in order.
pub open spec fn commands(v: Seq<ToolCommand>) -> Seq<CommandView> {
    v.map_values(|c: ToolCommand| c@)
}

/// The invocations of a list with one more command are those of the list,
/// then that command.
pub proof fn lemma_commands_push(v: Seq<ToolCommand>, c: ToolCommand)
    ensures
        commands(v.push(c)) == commands(v).push(c@),
{
}

/// The text of the failure to launch a Windows tool without a Wine prefix.
pub open spec fn no_prefix() -> ErrorView {
    ErrorView { kind: ErrorKind::Configuration, text: "No WINEPREFIX supplied"@ }
}

/// How a Windows binary is launched with these settings: natively on
/// Windows, through Wine elsewhere, which takes a prefix.
pub open spec fn windows_launch(settings: SettingsView) -> Result<LaunchView, ErrorView> {
    match settings.platform {
        Platform::Windows => Ok(LaunchView::Native),
        Platform::Unix => match settings.wine_prefix {
            Some(prefix) => Ok(LaunchView::Wine(prefix)),
            None => Err(no_prefix()),
        },
    }
}

/// How a binary of the host is launched with these settings.
pub open spec fn host_launch(settings: SettingsView) -> LaunchView {
    match settings.platform {
        Platform::Windows => LaunchView::Native,
        Platform::Unix => LaunchView::Transparent,
    }
}

/// The decompiler's invocation on the model `mdl`.
pub open spec fn crowbar_command(settings: SettingsView, mdl: Seq<char>) -> Result<
    CommandView,
    ErrorView,
> {
    match windows_launch(settings) {
        Ok(launch) => Ok(CommandView { launch, argv: seq![settings.crowbar, "-p"@, mdl] }),
        Err(e) => Err(e),
    }
}

/// The compiler's invocation on the descriptor `qc`.
pub open spec fn studiomdl_command(settings: SettingsView, qc: Seq<char>) -> Result<
    CommandView,
    ErrorView,
> {
    match windows_launch(settings) {
        Ok(launch) => Ok(CommandView { launch, argv: seq![settings.studiomdl, qc] }),
        Err(e) => Err(e),
    }
}

/// The texture converter's invocation on `folder`: it converts what it
/// finds there, in place, to PNG files of at most 512 pixels a side.
pub open spec fn no_vtf_command(settings: SettingsView, folder: Seq<char>) -> CommandView {
    CommandView {
        launch: host_launch(settings),
        argv: seq![
            settings.no_vtf,
            folder,
            "--output-dir"@,
            folder,
            "--ldr-format"@,
            "png"@,
            "--max-resolution"@,
            "512"@,
        ],
    }
}

fn launch_windows_binary(settings: &S2GSettings) -> (r: Result<Launch, S2GError>)
    ensures
        match r {
            Ok(launch) => windows_launch(settings@) == Ok::<LaunchView, ErrorView>(launch@),
            Err(e) => windows_launch(settings@) == Err::<LaunchView, ErrorView>(e@),
        },
{
    match settings.platform {
        Platform::Windows => Ok(Launch::Native),
        Platform::Unix => match &settings.wine_prefix {
            Some(prefix) => Ok(Launch::Wine(prefix.clone())),
            None => Err(S2GError::new(ErrorKind::Configuration, "No WINEPREFIX supplied")),
        },
    }
}

/// The decompiler's invocation on the model `mdl`, or the failure to launch
/// it: off Windows it takes a Wine prefix.
pub fn run_crowbar(mdl: &str, settings: &S2GSettings) -> (r: Result<ToolCommand, S2GError>)
    ensures
        match r {
            Ok(c) => crowbar_command(settings@, mdl@) == Ok::<CommandView, ErrorView>(c@),
            Err(e) => crowbar_command(settings@, mdl@) == Err::<CommandView, ErrorView>(e@),
        },
{
    match launch_windows_binary(settings) {
        Ok(launch) => {
            let mut argv: Vec<String> = Vec::new();
            argv.push(settings.crowbar.clone());
            argv.push(String::from_str("-p"));
            argv.push(String::from_str(mdl));
            assert(texts(argv@) =~= seq![settings@.crowbar, "-p"@, mdl@]);
            Ok(ToolCommand { launch, argv })
        },
        Err(e) => Err(e),
    }
}

/// The compiler's invocation on the descriptor `qc`, or the failure to
/// launch it: off Windows it takes a Wine prefix.
pub fn run_studiomdl(qc: &str, settings: &S2GSettings) -> (r: Result<ToolCommand, S2GError>)
    ensures
        match r {
            Ok(c) => studiomdl_command(settings@, qc@) == Ok::<CommandView, ErrorView>(c@),
            Err(e) => studiomdl_command(settings@, qc@) == Err::<CommandView, ErrorView>(e@),
        },
{
    match launch_windows_binary(settings) {
        Ok(launch) => {
            let mut argv: Vec<String> = Vec::new();
            argv.push(settings.studiomdl.clone());
            argv.push(String::from_str(qc));
            assert(texts(argv@) =~= seq![settings@.studiomdl, qc@]);
            Ok(ToolCommand { launch, argv })
        },
        Err(e) => Err(e),
    }
}

/// The texture converter's invocation on `folder`.
pub fn run_no_vtf(folder: &str, settings: &S2GSettings) -> (c: ToolCommand)
    ensures
        c@ == no_vtf_command(settings@, folder@),
{
    let launch = match settings.platform {
        Platform::Windows => Launch::Native,
        Platform::Unix => Launch::Transparent,
    };
    let mut argv: Vec<String> = Vec::new();
    argv.push(settings.no_vtf.clone());
    argv.push(String::from_str(folder));
    argv.push(String::from_str("--output-dir"));
    argv.push(String::from_str(folder));
    argv.push(String::from_str("--ldr-format"));
    argv.push(String::from_str("png"));
    argv.push(String::from_str("--max-resolution"));
    argv.push(String::from_str("512"));
    assert(texts(argv@) =~= no_vtf_command(settings@, folder@).argv);
    ToolCommand { launch, argv }
}

/// The decompiler's invocation on each model, in order; or the failure to
/// launch the first.
pub fn crowbar_all(settings: &S2GSettings, inputs: &Vec<String>) -> (r: Result<
    Vec<ToolCommand>,
    S2GError,
>)
    ensures
        match r {
            Ok(list) => crowbar_commands(settings@, texts(inputs@)) == Ok::<
                Seq<CommandView>,
                ErrorView,
            >(commands(list@)),
            Err(e) => crowbar_commands(settings@, texts(inputs@)) == Err::<
                Seq<CommandView>,
                ErrorView,
            >(e@),
        },
{
    let ghost attempts = texts(inputs@).map_values(|m: Seq<char>| crowbar_command(settings@, m));
    let mut list: Vec<ToolCommand> = Vec::new();
    let mut i: usize = 0;
    assert(commands(list@) =~= Seq::empty());
    while i < inputs.len()
        invariant
            i <= inputs.len(),
            attempts == texts(inputs@).map_values(|m: Seq<char>| crowbar_command(settings@, m)),
            gathered(attempts.take(i as int)) == Ok::<Seq<CommandView>, ErrorView>(
                commands(list@),
            ),
        decreases inputs.len() - i,
    {
        assert(attempts.take(i + 1).drop_last() =~= attempts.take(i as int));
        match run_crowbar(inputs[i].as_str(), settings) {
            Ok(command) => {
                proof {
                    lemma_commands_push(list@, command);
                }
                list.push(command);
            },
            Err(e) => {
                proof {
                    lemma_gathered_failure_stays(attempts, i + 1);
                }
                return Err(e);
            },
        }
        i = i + 1;
    }
    assert(attempts.take(inputs.len() as int) =~= attempts);
    Ok(list)
}

/// The compiler's invocation on each descriptor, in order; or the failure
/// to launch the first.
pub fn studiomdl_all(settings: &S2GSettings, qcs: &Vec<String>) -> (r: Result<
    Vec<ToolCommand>,
    S2GError,
>)
    ensures
        match r {
            Ok(list) => studiomdl_commands(settings@, texts(qcs@)) == Ok::<
                Seq<CommandView>,
                ErrorView,
            >(commands(list@)),
            Err(e) => studiomdl_commands(settings@, texts(qcs@)) == Err::<
                Seq<CommandView>,
                ErrorView,
            >(e@),
        },
{
    let ghost attempts = texts(qcs@).map_values(|q: Seq<char>| studiomdl_command(settings@, q));
    let mut list: Vec<ToolCommand> = Vec::new();
    let mut i: usize = 0;
    assert(commands(list@) =~= Seq::empty());
    while i < qcs.len()
        invariant
            i <= qcs.len(),
            attempts == texts(qcs@).map_values(|q: Seq<char>| studiomdl_command(settings@, q)),
            gathered(attempts.take(i as int)) == Ok::<Seq<CommandView>, ErrorView>(
                commands(list@),
            ),
        decreases qcs.len() - i,
    {
        assert(attempts.take(i + 1).drop_last() =~= attempts.take(i as int));
        match run_studiomdl(qcs[i].as_str(), settings) {
            Ok(command) => {
                proof {
                    lemma_commands_push(list@, command);
                }
                list.push(command);
            },
            Err(e) => {
                proof {
                    lemma_gathered_failure_stays(attempts, i + 1);
                }
                return Err(e);
            },
        }
        i = i + 1;
    }
    assert(attempts.take(qcs.len() as int) =~= attempts);
    Ok(list)
}

} // verus!
