//! What passes between the job and whoever does its outside work: the job
//! hands out an action, and is handed back the event that tells how the
//! action went.

use crate::s2g::descriptor::{
    writes, DescriptorView, MeshWrite, ModelDescriptor, WriteView,
};
use crate::s2g::error::{ErrorView, S2GError};
use crate::s2g::tools::{commands, CommandView, ToolCommand};
use crate::text::{optional_texts, texts};
use vstd::prelude::*;

verus! {

/// The stages of a job, in the order a job goes through them. `Done` and
/// `Failed` are where it ends.
#[derive(Clone, Copy, PartialEq, Eq, Structural, Debug)]
pub enum Stage {
    Created,
    Discovering,
    Decompiling,
    TextureConverting,
    Rewriting,
    Recompiling,
    Done,
    Failed,
}

/// What a job is waiting for: a step within a stage.
#[derive(Clone, Copy, PartialEq, Eq, Structural, Debug)]
pub enum Phase {
    /// Not started.
    Created,
    /// For the models under the root.
    Discovering,
    /// For word on the files that go with each model.
    ProbingSidecars,
    /// For the decompilers to end.
    Decompiling,
    /// For the texture converter to end.
    TextureConverting,
    /// For word on the descriptor of each model.
    ProbingDescriptors,
    /// For the descriptor at hand.
    LoadingDescriptor,
    /// For the meshes that the descriptor at hand links.
    LoadingMeshes,
    /// For the converted meshes to be on disk.
    WritingMeshes,
    /// For the converted descriptor to be on disk.
    WritingDescriptor,
    /// For the compilers to end.
    Recompiling,
    /// Ended with a result.
    Done,
    /// Ended with a failure.
    Failed,
}

/// The stage that a phase belongs to.
pub open spec fn stage_of(phase: Phase) -> Stage {
    match phase {
        Phase::Created => Stage::Created,
        Phase::Discovering => Stage::Discovering,
        Phase::ProbingSidecars => Stage::Decompiling,
        Phase::Decompiling => Stage::Decompiling,
        Phase::TextureConverting => Stage::TextureConverting,
        Phase::ProbingDescriptors => Stage::Rewriting,
        Phase::LoadingDescriptor => Stage::Rewriting,
        Phase::LoadingMeshes => Stage::Rewriting,
        Phase::WritingMeshes => Stage::Rewriting,
        Phase::WritingDescriptor => Stage::Rewriting,
        Phase::Recompiling => Stage::Recompiling,
        Phase::Done => Stage::Done,
        Phase::Failed => Stage::Failed,
    }
}

/// What was found at the root of a job.
#[derive(Debug)]
pub enum Discovery {
    /// The root is a file.
    File,
    /// The root is a directory: every file below it, at any depth.
    Directory(Vec<String>),
}

/// A mesh that could not be loaded: its place among the meshes asked for,
/// and why.
#[derive(Debug)]
pub struct MeshFailure {
    pub index: usize,
    pub reason: String,
}

/// How an action went.
#[derive(Debug)]
pub enum Event {
    /// The job is to begin.
    Start,
    /// What is at the root.
    Discovered(Discovery),
    /// Whether each file asked about exists, in the order asked.
    Probed(Vec<bool>),
    /// How each command ended, in the order given: `None` for success, the
    /// reason for a failure.
    Ran(Vec<Option<String>>),
    /// The descriptor asked for, or why it could not be loaded.
    DescriptorLoaded(Result<ModelDescriptor, String>),
    /// How many pieces each mesh asked for became when converted, in the
    /// order asked; or the first mesh that could not be loaded.
    MeshesLoaded(Result<Vec<usize>, MeshFailure>),
    /// That all of what was to be written is on disk, or why the first
    /// write that failed did.
    Written(Result<(), String>),
}

/// What is to be done next outside the job.
#[derive(Debug)]
pub enum Action {
    /// Tell what is at `root`; if a directory, list every file below it.
    Discover { root: String },
    /// Tell of each file whether it exists.
    Probe { paths: Vec<String> },
    /// Run the commands and wait for all of them: side by side where
    /// `parallel` is set, else one after the other.
    Run { commands: Vec<ToolCommand>, parallel: bool },
    /// Load the descriptor at `path`.
    LoadDescriptor { path: String },
    /// Load each mesh and convert it, in order, up to the first that fails.
    LoadMeshes { paths: Vec<String> },
    /// Write each converted piece, in order, up to the first that fails.
    WriteMeshes { meshes: Vec<MeshWrite> },
    /// Write `descriptor` to `path`.
    WriteDescriptor { path: String, descriptor: ModelDescriptor },
    /// The job has ended: with the models it compiled, or with a failure.
    Finish { result: Result<Vec<String>, S2GError> },
    /// The event was not the one the job waits for; the job is unchanged.
    Rejected,
}

/// What was found at the root, as a value of specifications.
pub enum DiscoveryView {
    File,
    Directory(Seq<Seq<char>>),
}

/// A mesh that could not be loaded, as a value of specifications.
pub struct MeshFailureView {
    pub index: nat,
    pub reason: Seq<char>,
}

/// An event as a value of specifications.
pub enum EventView {
    Start,
    Discovered(DiscoveryView),
    Probed(Seq<bool>),
    Ran(Seq<Option<Seq<char>>>),
    DescriptorLoaded(Result<DescriptorView, Seq<char>>),
    MeshesLoaded(Result<Seq<usize>, MeshFailureView>),
    Written(Result<(), Seq<char>>),
}

/// An action as a value of specifications.
pub enum ActionView {
    Discover { root: Seq<char> },
    Probe { paths: Seq<Seq<char>> },
    Run { commands: Seq<CommandView>, parallel: bool },
    LoadDescriptor { path: Seq<char> },
    LoadMeshes { paths: Seq<Seq<char>> },
    WriteMeshes { meshes: Seq<WriteView> },
    WriteDescriptor { path: Seq<char>, descriptor: DescriptorView },
    Finish { result: Result<Seq<Seq<char>>, ErrorView> },
    Rejected,
}

impl View for Discovery {
    type V = DiscoveryView;

    open spec fn view(&self) -> DiscoveryView {
        match self {
            Discovery::File => DiscoveryView::File,
            Discovery::Directory(files) => DiscoveryView::Directory(texts(files@)),
        }
    }
}

impl View for MeshFailure {
    type V = MeshFailureView;

    open spec fn view(&self) -> MeshFailureView {
        MeshFailureView { index: self.index as nat, reason: self.reason@ }
    }
}

impl View for Event {
    type V = EventView;

    open spec fn view(&self) -> EventView {
        match self {
            Event::Start => EventView::Start,
            Event::Discovered(found) => EventView::Discovered(found@),
            Event::Probed(found) => EventView::Probed(found@),
            Event::Ran(outcomes) => EventView::Ran(optional_texts(outcomes@)),
            Event::DescriptorLoaded(loaded) => EventView::DescriptorLoaded(
                match loaded {
                    Ok(descriptor) => Ok(descriptor@),
                    Err(reason) => Err(reason@),
                },
            ),
            Event::MeshesLoaded(loaded) => EventView::MeshesLoaded(
                match loaded {
                    Ok(counts) => Ok(counts@),
                    Err(failure) => Err(failure@),
                },
            ),
            Event::Written(written) => EventView::Written(
                match written {
                    Ok(_) => Ok(()),
                    Err(reason) => Err(reason@),
                },
            ),
        }
    }
}

impl View for Action {
    type V = ActionView;

    open spec fn view(&self) -> ActionView {
        match self {
            Action::Discover { root } => ActionView::Discover { root: root@ },
            Action::Probe { paths } => ActionView::Probe { paths: texts(paths@) },
            Action::Run { commands: list, parallel } => ActionView::Run {
                commands: commands(list@),
                parallel: *parallel,
            },
            Action::LoadDescriptor { path } => ActionView::LoadDescriptor { path: path@ },
            Action::LoadMeshes { paths } => ActionView::LoadMeshes { paths: texts(paths@) },
            Action::WriteMeshes { meshes } => ActionView::WriteMeshes { meshes: writes(meshes@) },
            Action::WriteDescriptor { path, descriptor } => ActionView::WriteDescriptor {
                path: path@,
                descriptor: descriptor@,
            },
            Action::Finish { result } => ActionView::Finish {
                result: match result {
                    Ok(models) => Ok(texts(models@)),
                    Err(e) => Err(e@),
                },
            },
            Action::Rejected => ActionView::Rejected,
        }
    }
}

} // verus!
