//! The conversion job: its settings, its options, and the decisions it takes
//! between one piece of outside work and the next.

pub mod compile;
pub mod constants;
pub mod decompile;
pub mod descriptor;
pub mod discovery;
pub mod error;
pub mod laws;
pub mod messages;
pub mod model;
pub mod protocol;
pub mod rewrite;
pub mod smd_stuffs;
pub mod textures;
pub mod tools;

use crate::path::{join, joined};
use crate::s2g::constants::{
    CROWBAR_BINARY, MDL_EXTENSION, NO_VTF_BINARY, NO_VTF_BINARY_WINDOWS, NO_VTF_FOLDER,
    STUDIOMDL_BINARY,
};
use crate::s2g::descriptor::{links, LinkedMesh, ModelDescriptor};
use crate::s2g::discovery::find_file_with_ext_in_folder;
use crate::s2g::error::{ErrorKind, ErrorView, S2GError};
use crate::s2g::model::{
    checked, discovered, failed, finished, fresh, halts, logged, started, step, JobView,
};
use crate::s2g::protocol::{stage_of, Action, Discovery, Event, Phase, Stage};
use crate::s2g::tools::{no_prefix, Platform};
use crate::text::{appended, copy_texts, lemma_texts_push, texts};
use vstd::prelude::*;

verus! {

/// Where the three tools are, and how the host launches them.
pub struct S2GSettings {
    studiomdl: String,
    crowbar: String,
    no_vtf: String,
    wine_prefix: Option<String>,
    platform: Platform,
}

/// The settings as a value of specifications.
pub struct SettingsView {
    pub studiomdl: Seq<char>,
    pub crowbar: Seq<char>,
    pub no_vtf: Seq<char>,
    pub wine_prefix: Option<Seq<char>>,
    pub platform: Platform,
}

impl View for S2GSettings {
    type V = SettingsView;

    closed spec fn view(&self) -> SettingsView {
        SettingsView {
            studiomdl: self.studiomdl@,
            crowbar: self.crowbar@,
            no_vtf: self.no_vtf@,
            wine_prefix: match self.wine_prefix {
                Some(prefix) => Some(prefix@),
                None => None,
            },
            platform: self.platform,
        }
    }
}

/// What was found on disk of a directory of binaries.
pub struct Installed {
    /// The directory itself.
    pub folder: bool,
    /// The model compiler in it.
    pub studiomdl: bool,
    /// The model decompiler in it.
    pub crowbar: bool,
    /// The texture converter in its own directory in it.
    pub no_vtf: bool,
}

/// The name of the texture converter's binary on `platform`.
pub open spec fn no_vtf_binary(platform: Platform) -> Seq<char> {
    match platform {
        Platform::Windows => NO_VTF_BINARY_WINDOWS@,
        Platform::Unix => NO_VTF_BINARY@,
    }
}

/// The settings that a directory of binaries at `path_to_bin` stands for:
/// the compiler and the decompiler in it, the texture converter in a
/// directory of its own in it, and no Wine prefix.
pub open spec fn layout(path_to_bin: Seq<char>, platform: Platform) -> SettingsView {
    SettingsView {
        studiomdl: joined(path_to_bin, STUDIOMDL_BINARY@),
        crowbar: joined(path_to_bin, CROWBAR_BINARY@),
        no_vtf: joined(joined(path_to_bin, NO_VTF_FOLDER@), no_vtf_binary(platform)),
        wine_prefix: None,
        platform,
    }
}

/// What is wrong with a directory of binaries, if anything: the first of
/// the directory, the compiler, the decompiler and the texture converter
/// that is missing.
pub open spec fn missing_tool(
    path_to_bin: Seq<char>,
    platform: Platform,
    installed: Installed,
) -> Option<Seq<char>> {
    if !installed.folder {
        Some(path_to_bin + " containing binaries for S2G does not exist."@)
    } else if !installed.studiomdl {
        Some("Cannot find "@ + STUDIOMDL_BINARY@ + " in "@ + path_to_bin)
    } else if !installed.crowbar {
        Some("Cannot find "@ + CROWBAR_BINARY@ + " in "@ + path_to_bin)
    } else if !installed.no_vtf {
        Some("Cannot find "@ + no_vtf_binary(platform) + " in "@ + path_to_bin)
    } else {
        None
    }
}

fn cannot_find(binary: &str, path_to_bin: &str) -> (e: S2GError)
    ensures
        e@ == (ErrorView {
            kind: ErrorKind::Configuration,
            text: "Cannot find "@ + binary@ + " in "@ + path_to_bin@,
        }),
{
    let mut text = appended("Cannot find ", binary);
    text.append(" in ");
    text.append(path_to_bin);
    S2GError { kind: ErrorKind::Configuration, text }
}

fn no_vtf_binary_name(platform: Platform) -> (name: &'static str)
    ensures
        name@ == no_vtf_binary(platform),
{
    match platform {
        Platform::Windows => NO_VTF_BINARY_WINDOWS,
        Platform::Unix => NO_VTF_BINARY,
    }
}

/// Where the tools of a directory of binaries are expected.
#[derive(Debug)]
pub struct ToolPaths {
    pub studiomdl: String,
    pub crowbar: String,
    pub no_vtf: String,
}

/// Where the tools of the directory of binaries at `path_to_bin` are
/// expected, whether or not they are there.
pub fn tool_paths(path_to_bin: &str, platform: Platform) -> (tools: ToolPaths)
    ensures
        tools.studiomdl@ == layout(path_to_bin@, platform).studiomdl,
        tools.crowbar@ == layout(path_to_bin@, platform).crowbar,
        tools.no_vtf@ == layout(path_to_bin@, platform).no_vtf,
{
    let folder = join(path_to_bin, NO_VTF_FOLDER);
    ToolPaths {
        studiomdl: join(path_to_bin, STUDIOMDL_BINARY),
        crowbar: join(path_to_bin, CROWBAR_BINARY),
        no_vtf: join(folder.as_str(), no_vtf_binary_name(platform)),
    }
}

impl S2GSettings {
    /// The settings for the directory of binaries at `path_to_bin`, where
    /// `installed` says that all of it was found; else the failure that
    /// names the first thing missing.
    pub fn new(path_to_bin: &str, platform: Platform, installed: &Installed) -> (r: Result<
        S2GSettings,
        S2GError,
    >)
        ensures
            match r {
                Ok(settings) => missing_tool(path_to_bin@, platform, *installed) is None
                    && settings@ == layout(path_to_bin@, platform),
                Err(e) => e@.kind == ErrorKind::Configuration && missing_tool(
                    path_to_bin@,
                    platform,
                    *installed,
                ) == Some(e@.text),
            },
    {
        if !installed.folder {
            let text = appended(path_to_bin, " containing binaries for S2G does not exist.");
            return Err(S2GError { kind: ErrorKind::Configuration, text });
        }
        if !installed.studiomdl {
            return Err(cannot_find(STUDIOMDL_BINARY, path_to_bin));
        }
        if !installed.crowbar {
            return Err(cannot_find(CROWBAR_BINARY, path_to_bin));
        }
        if !installed.no_vtf {
            return Err(cannot_find(no_vtf_binary_name(platform), path_to_bin));
        }
        let tools = tool_paths(path_to_bin, platform);
        Ok(
            S2GSettings {
                studiomdl: tools.studiomdl,
                crowbar: tools.crowbar,
                no_vtf: tools.no_vtf,
                wine_prefix: None,
                platform,
            },
        )
    }

    /// Takes the model compiler from `path`.
    pub fn studiomdl(&mut self, path: &str) -> (ret: &mut Self)
        ensures
            ret@ == (SettingsView { studiomdl: path@, ..old(self)@ }),
            *final(self) == *final(ret),
    {
        self.studiomdl = String::from_str(path);
        self
    }

    /// Takes the model decompiler from `path`.
    pub fn crowbar(&mut self, path: &str) -> (ret: &mut Self)
        ensures
            ret@ == (SettingsView { crowbar: path@, ..old(self)@ }),
            *final(self) == *final(ret),
    {
        self.crowbar = String::from_str(path);
        self
    }

    /// Takes the texture converter from `path`.
    pub fn no_vtf(&mut self, path: &str) -> (ret: &mut Self)
        ensures
            ret@ == (SettingsView { no_vtf: path@, ..old(self)@ }),
            *final(self) == *final(ret),
    {
        self.no_vtf = String::from_str(path);
        self
    }

    /// Launches Windows binaries through Wine with the prefix `path`.
    pub fn wine_prefix(&mut self, path: &str) -> (ret: &mut Self)
        ensures
            ret@ == (SettingsView { wine_prefix: Some(path@), ..old(self)@ }),
            *final(self) == *final(ret),
    {
        self.wine_prefix = Some(String::from_str(path));
        self
    }

    /// Fails where the host is not Windows and no Wine prefix is set.
    pub fn check_wine_prefix(&self) -> (r: Result<(), S2GError>)
        ensures
            match r {
                Ok(_) => self@.platform == Platform::Windows || self@.wine_prefix is Some,
                Err(e) => self@.platform != Platform::Windows && self@.wine_prefix is None && e@
                    == no_prefix(),
            },
    {
        match self.platform {
            Platform::Windows => Ok(()),
            Platform::Unix => match &self.wine_prefix {
                Some(_) => Ok(()),
                None => Err(S2GError::new(ErrorKind::Configuration, "No WINEPREFIX supplied")),
            },
        }
    }
}

/// A conversion job: what to convert, which stages to go through, whether
/// to go on after a failure, and how far the job has come.
///
/// A job does no outside work itself. It is started with [`Event::Start`]
/// and from then on handed, by [`S2GOptions::work`], the event that tells
/// how the last action went; each time it answers with the next action,
/// until that is [`Action::Finish`].
pub struct S2GOptions {
    settings: S2GSettings,
    path: String,
    decompile: bool,
    vtf: bool,
    smd_and_qc: bool,
    compile: bool,
    force: bool,
    pseudo_stdout: String,
    phase: Phase,
    root_is_file: bool,
    input_files: Vec<String>,
    qc_paths: Vec<String>,
    next: usize,
    current: String,
    linked: Vec<LinkedMesh>,
    draft: ModelDescriptor,
    skipped: Vec<String>,
    compile_able_qcs: Vec<String>,
    issues: Vec<String>,
}

impl View for S2GOptions {
    type V = JobView;

    closed spec fn view(&self) -> JobView {
        JobView {
            settings: self.settings@,
            path: self.path@,
            decompile: self.decompile,
            vtf: self.vtf,
            smd_and_qc: self.smd_and_qc,
            compile: self.compile,
            force: self.force,
            log: self.pseudo_stdout@,
            phase: self.phase,
            root_is_file: self.root_is_file,
            inputs: texts(self.input_files@),
            descriptors: texts(self.qc_paths@),
            next: self.next as nat,
            current: self.current@,
            links: links(self.linked@),
            draft: self.draft@,
            skipped: texts(self.skipped@),
            compilable: texts(self.compile_able_qcs@),
            issues: texts(self.issues@),
        }
    }
}

impl S2GOptions {
    /// A job for the root `path`, a model or a directory of models, with
    /// every stage enabled and not forced.
    pub fn new(path: &str, settings: S2GSettings) -> (job: S2GOptions)
        ensures
            job@ == fresh(path@, settings@),
    {
        let job = S2GOptions {
            settings,
            path: String::from_str(path),
            decompile: true,
            vtf: true,
            smd_and_qc: true,
            compile: true,
            force: false,
            pseudo_stdout: String::new(),
            phase: Phase::Created,
            root_is_file: false,
            input_files: Vec::new(),
            qc_paths: Vec::new(),
            next: 0,
            current: String::new(),
            linked: Vec::new(),
            draft: ModelDescriptor::new(),
            skipped: Vec::new(),
            compile_able_qcs: Vec::new(),
            issues: Vec::new(),
        };
        assert(job@.links =~= fresh(path@, settings@).links);
        assert(job@.issues =~= fresh(path@, settings@).issues);
        job
    }

    /// A job for the root `path` with the tools of the directory of
    /// binaries at `path_to_bin`, where `installed` says that all of them
    /// were found; else the failure that names the first thing missing.
    pub fn new_with_path_to_bin(
        path: &str,
        path_to_bin: &str,
        platform: Platform,
        installed: &Installed,
    ) -> (r: Result<S2GOptions, S2GError>)
        ensures
            match r {
                Ok(job) => missing_tool(path_to_bin@, platform, *installed) is None && job@
                    == fresh(path@, layout(path_to_bin@, platform)),
                Err(e) => e@.kind == ErrorKind::Configuration && missing_tool(
                    path_to_bin@,
                    platform,
                    *installed,
                ) == Some(e@.text),
            },
    {
        match S2GSettings::new(path_to_bin, platform, installed) {
            Ok(settings) => Ok(S2GOptions::new(path, settings)),
            Err(e) => Err(e),
        }
    }

    /// Whether the models are decompiled.
    pub fn decompile(&mut self, decompile: bool) -> (ret: &mut Self)
        ensures
            ret@ == (JobView { decompile, ..old(self)@ }),
            *final(self) == *final(ret),
    {
        self.decompile = decompile;
        self
    }

    /// Whether the textures are converted.
    pub fn vtf(&mut self, vtf: bool) -> (ret: &mut Self)
        ensures
            ret@ == (JobView { vtf, ..old(self)@ }),
            *final(self) == *final(ret),
    {
        self.vtf = vtf;
        self
    }

    /// Whether descriptors and meshes are rewritten.
    pub fn smd_and_qc(&mut self, smd_and_qc: bool) -> (ret: &mut Self)
        ensures
            ret@ == (JobView { smd_and_qc, ..old(self)@ }),
            *final(self) == *final(ret),
    {
        self.smd_and_qc = smd_and_qc;
        self
    }

    /// Whether the rewritten descriptors are compiled.
    pub fn compile(&mut self, compile: bool) -> (ret: &mut Self)
        ensures
            ret@ == (JobView { compile, ..old(self)@ }),
            *final(self) == *final(ret),
    {
        self.compile = compile;
        self
    }

    /// Launches Windows binaries through Wine with the prefix
    /// `wine_prefix`.
    pub fn set_wine_prefix(&mut self, wine_prefix: &str) -> (ret: &mut Self)
        ensures
            ret@ == (JobView {
                settings: SettingsView { wine_prefix: Some(wine_prefix@), ..old(self)@.settings },
                ..old(self)@
            }),
            *final(self) == *final(ret),
    {
        self.settings.wine_prefix(wine_prefix);
        self
    }

    /// Whether the job goes on after a failure.
    pub fn force(&mut self, force: bool) -> (ret: &mut Self)
        ensures
            ret@ == (JobView { force, ..old(self)@ }),
            *final(self) == *final(ret),
    {
        self.force = force;
        self
    }

    /// The stage that the job is in.
    pub fn stage(&self) -> (stage: Stage)
        ensures
            stage == stage_of(self@.phase),
    {
        match self.phase {
            Phase::Created => Stage::Created,
            Phase::Discovering => Stage::Discovering,
            Phase::ProbingSidecars => Stage::Decompiling,
            Phase::Decompiling => Stage::Decompiling,
            Phase::TextureConverting => Stage::TextureConverting,
            Phase::ProbingDescriptors => Stage::Rewriting,
            Phase::LoadingDescriptor => Stage::Rewriting,
            Phase::LoadingMeshes => Stage::Rewriting,
            Phase::WritingMeshes => Stage::Rewriting,
            Phase::WritingDescriptor => Stage::Rewriting,
            Phase::Recompiling => Stage::Recompiling,
            Phase::Done => Stage::Done,
            Phase::Failed => Stage::Failed,
        }
    }

    /// What the job waits for.
    pub fn phase(&self) -> (phase: Phase)
        ensures
            phase == self@.phase,
    {
        self.phase
    }

    /// All that the job has logged, end to end.
    pub fn pseudo_stdout(&self) -> (log: &String)
        ensures
            log@ == self@.log,
    {
        &self.pseudo_stdout
    }

    /// The failures that the job went on after, in the order they came.
    pub fn issues(&self) -> (list: Vec<String>)
        ensures
            texts(list@) == self@.issues,
    {
        copy_texts(&self.issues)
    }

    /// Whether the job went on after a failure.
    pub fn degraded(&self) -> (yes: bool)
        ensures
            yes == (self@.issues.len() > 0),
    {
        self.issues.len() > 0
    }

    /// Adds `what` to the log.
    pub(crate) fn log(&mut self, what: &str)
        ensures
            final(self)@ == logged(old(self)@, what@),
    {
        self.pseudo_stdout.append(what);
    }

    /// Takes note of what a check found wrong, and tells whether that ends
    /// the job.
    pub(crate) fn check(&mut self, text: &String) -> (halt: bool)
        ensures
            final(self)@ == checked(old(self)@, text@),
            halt == halts(old(self)@, text@),
    {
        if text.as_str().is_empty() {
            return false;
        }
        self.pseudo_stdout.append(text.as_str());
        if self.force {
            proof {
                lemma_texts_push(self.issues@, *text);
            }
            self.issues.push(text.clone());
            false
        } else {
            true
        }
    }

    /// Ends the job in failure.
    pub(crate) fn fail(&mut self, error: S2GError) -> (action: Action)
        ensures
            (final(self)@, action@) == failed(old(self)@, error@),
    {
        self.phase = Phase::Failed;
        Action::Finish { result: Err(error) }
    }

    /// Ends the job with the models it compiled.
    pub(crate) fn finish(&mut self, models: Vec<String>) -> (action: Action)
        ensures
            (final(self)@, action@) == finished(old(self)@, texts(models@)),
    {
        self.phase = Phase::Done;
        Action::Finish { result: Ok(models) }
    }

    /// Begins the job: fails where a stage needs a Wine prefix and none is
    /// set, else asks what is at the root.
    fn start(&mut self) -> (action: Action)
        ensures
            (final(self)@, action@) == started(old(self)@),
    {
        if self.decompile || self.compile {
            match self.settings.check_wine_prefix() {
                Ok(_) => {},
                Err(e) => {
                    return self.fail(e);
                },
            }
        }
        self.phase = Phase::Discovering;
        Action::Discover { root: self.path.clone() }
    }

    /// Takes the models to convert from what is at the root, and enters
    /// the first stage.
    fn discovered(&mut self, found: Discovery) -> (action: Action)
        ensures
            (final(self)@, action@) == discovered(old(self)@, found@),
    {
        match found {
            Discovery::File => {
                let mut inputs: Vec<String> = Vec::new();
                inputs.push(self.path.clone());
                assert(texts(inputs@) =~= seq![self.path@]);
                self.input_files = inputs;
                self.root_is_file = true;
            },
            Discovery::Directory(files) => {
                self.input_files = find_file_with_ext_in_folder(&files, MDL_EXTENSION);
                self.root_is_file = false;
            },
        }
        self.enter_decompile()
    }

    /// Takes one step: given how the last action went, tells what to do
    /// next. An event that the job does not wait for changes nothing and
    /// is answered with [`Action::Rejected`].
    pub fn work(&mut self, event: Event) -> (action: Action)
        ensures
            (final(self)@, action@) == step(old(self)@, event@),
    {
        match event {
            Event::Start => {
                if self.phase == Phase::Created {
                    self.start()
                } else {
                    Action::Rejected
                }
            },
            Event::Discovered(found) => {
                if self.phase == Phase::Discovering {
                    self.discovered(found)
                } else {
                    Action::Rejected
                }
            },
            Event::Probed(found) => {
                if self.phase == Phase::ProbingSidecars && found.len() % 2 == 0 && found.len() / 2
                    == self.input_files.len() {
                    self.work_decompile(&found)
                } else if self.phase == Phase::ProbingDescriptors && found.len()
                    == self.input_files.len() {
                    self.work_smd_and_qc(&found)
                } else {
                    Action::Rejected
                }
            },
            Event::Ran(outcomes) => {
                if self.phase == Phase::Decompiling && outcomes.len() == self.input_files.len() {
                    self.decompiled(&outcomes)
                } else if self.phase == Phase::TextureConverting && outcomes.len() == 1 {
                    self.textures_converted(&outcomes)
                } else if self.phase == Phase::Recompiling && outcomes.len()
                    == self.compile_able_qcs.len() {
                    self.recompiled(&outcomes)
                } else {
                    Action::Rejected
                }
            },
            Event::DescriptorLoaded(loaded) => {
                if self.phase == Phase::LoadingDescriptor {
                    self.descriptor_loaded(loaded)
                } else {
                    Action::Rejected
                }
            },
            Event::MeshesLoaded(loaded) => {
                let fits = match &loaded {
                    Ok(counts) => counts.len() == self.linked.len(),
                    Err(failure) => failure.index < self.linked.len(),
                };
                if self.phase == Phase::LoadingMeshes && fits {
                    self.meshes_loaded(loaded)
                } else {
                    Action::Rejected
                }
            },
            Event::Written(written) => {
                if self.phase == Phase::WritingMeshes {
                    self.meshes_written(written)
                } else if self.phase == Phase::WritingDescriptor {
                    self.descriptor_written(written)
                } else {
                    Action::Rejected
                }
            },
        }
    }
}

} // verus!
