//! The job as mathematics: a state, and the function that takes a state and
//! an event to the next state and the action to perform. The job's code is
//! held to this function; the laws of the job are proved of it.

use crate::path::{extension_of, extension_replaced, parent_of};
use crate::s2g::constants::{
    COMPILE_HEADING, MDL_EXTENSION, QC_EXTENSION, VTX_EXTENSION, VVD_EXTENSION,
};
use crate::s2g::descriptor::{
    blank, converted, files_of, goldsrc_name, links_of, writes_of, DescriptorView, LinkView,
};
use crate::s2g::error::{ErrorKind, ErrorView};
use crate::s2g::protocol::{ActionView, DiscoveryView, EventView, MeshFailureView, Phase};
use crate::s2g::tools::{
    crowbar_command, no_prefix, no_vtf_command, studiomdl_command, CommandView, Platform,
};
use crate::s2g::SettingsView;
use crate::text::decimal;
use vstd::prelude::*;

verus! {

/// The state of a job.
pub struct JobView {
    pub settings: SettingsView,
    /// The root: a model, or a directory of models.
    pub path: Seq<char>,
    /// Whether the models are decompiled.
    pub decompile: bool,
    /// Whether the textures are converted.
    pub vtf: bool,
    /// Whether descriptors and meshes are rewritten.
    pub smd_and_qc: bool,
    /// Whether the rewritten descriptors are compiled.
    pub compile: bool,
    /// Whether the job goes on after a failure.
    pub force: bool,
    /// All that the job has logged, end to end.
    pub log: Seq<char>,
    pub phase: Phase,
    /// Whether the root is a file.
    pub root_is_file: bool,
    /// The models to convert.
    pub inputs: Seq<Seq<char>>,
    /// The descriptors to rewrite.
    pub descriptors: Seq<Seq<char>>,
    /// How many of `descriptors` have been taken up.
    pub next: nat,
    /// The descriptor at hand.
    pub current: Seq<char>,
    /// The meshes that the descriptor at hand links.
    pub links: Seq<LinkView>,
    /// What the descriptor at hand becomes.
    pub draft: DescriptorView,
    /// The descriptors that could not be rewritten.
    pub skipped: Seq<Seq<char>>,
    /// The descriptors written, ready to compile.
    pub compilable: Seq<Seq<char>>,
    /// The failures that the job went on after.
    pub issues: Seq<Seq<char>>,
}

/// A job as it is made: for the root `path`, with every stage enabled, not
/// forced, with nothing logged and nothing done.
pub open spec fn fresh(path: Seq<char>, settings: SettingsView) -> JobView {
    JobView {
        settings,
        path,
        decompile: true,
        vtf: true,
        smd_and_qc: true,
        compile: true,
        force: false,
        log: Seq::empty(),
        phase: Phase::Created,
        root_is_file: false,
        inputs: Seq::empty(),
        descriptors: Seq::empty(),
        next: 0,
        current: Seq::empty(),
        links: Seq::empty(),
        draft: blank(),
        skipped: Seq::empty(),
        compilable: Seq::empty(),
        issues: Seq::empty(),
    }
}

/// The job with `text` added to its log.
pub open spec fn logged(job: JobView, text: Seq<char>) -> JobView {
    JobView { log: job.log + text, ..job }
}

/// The job with `text` logged and kept as a failure it went on after.
pub open spec fn noted(job: JobView, text: Seq<char>) -> JobView {
    JobView { log: job.log + text, issues: job.issues.push(text), ..job }
}

/// Whether a check that found `text` wrong ends the job: it does where
/// there is anything wrong and the job is not forced.
pub open spec fn halts(job: JobView, text: Seq<char>) -> bool {
    text.len() > 0 && !job.force
}

/// The job after a check that found `text` wrong: unchanged where nothing
/// is, else with the text logged, and kept if the job goes on.
pub open spec fn checked(job: JobView, text: Seq<char>) -> JobView {
    if text.len() == 0 {
        job
    } else if job.force {
        noted(job, text)
    } else {
        logged(job, text)
    }
}

/// The end of a job in failure.
pub open spec fn failed(job: JobView, error: ErrorView) -> (JobView, ActionView) {
    (JobView { phase: Phase::Failed, ..job }, ActionView::Finish { result: Err(error) })
}

/// The end of a job with the models it compiled.
pub open spec fn finished(job: JobView, models: Seq<Seq<char>>) -> (JobView, ActionView) {
    (JobView { phase: Phase::Done, ..job }, ActionView::Finish { result: Ok(models) })
}

/// An event that the job does not wait for leaves it as it is.
pub open spec fn rejected(job: JobView) -> (JobView, ActionView) {
    (job, ActionView::Rejected)
}

/// Whether some stage of the job launches a Windows binary off Windows.
pub open spec fn needs_prefix(job: JobView) -> bool {
    job.settings.platform != Platform::Windows && (job.decompile || job.compile)
}

/// The start: a job that needs a Wine prefix and has none fails before any
/// stage; any other asks what is at its root.
pub open spec fn started(job: JobView) -> (JobView, ActionView) {
    if needs_prefix(job) && job.settings.wine_prefix is None {
        failed(job, no_prefix())
    } else {
        (
            JobView { phase: Phase::Discovering, ..job },
            ActionView::Discover { root: job.path },
        )
    }
}

/// The files of `files` with the extension `ext`, in order.
pub open spec fn with_ext(files: Seq<Seq<char>>, ext: Seq<char>) -> Seq<Seq<char>> {
    files.filter(|f: Seq<char>| extension_of(f) == Some(ext))
}

/// The models to convert: a root that is a file, whatever its extension;
/// below a root that is a directory, the compiled models.
pub open spec fn candidates(path: Seq<char>, found: DiscoveryView) -> Seq<Seq<char>> {
    match found {
        DiscoveryView::File => seq![path],
        DiscoveryView::Directory(files) => with_ext(files, MDL_EXTENSION@),
    }
}

/// With the models known, the job goes to its first stage.
pub open spec fn discovered(job: JobView, found: DiscoveryView) -> (JobView, ActionView) {
    decompile_entered(
        JobView {
            inputs: candidates(job.path, found),
            root_is_file: found is File,
            ..job
        },
    )
}

/// The two files that go with each model, model by model: the vertex data,
/// then the mesh strips.
pub open spec fn sidecars_of(inputs: Seq<Seq<char>>) -> Seq<Seq<char>> {
    Seq::new(
        2 * inputs.len(),
        |k: int|
            extension_replaced(
                inputs[k / 2],
                if k % 2 == 0 {
                    VVD_EXTENSION@
                } else {
                    VTX_EXTENSION@
                },
            ),
    )
}

/// The decompile stage begins by asking for the files that go with each
/// model; a job that does not decompile goes on to the textures.
pub open spec fn decompile_entered(job: JobView) -> (JobView, ActionView) {
    if job.decompile {
        (
            JobView { phase: Phase::ProbingSidecars, ..job },
            ActionView::Probe { paths: sidecars_of(job.inputs) },
        )
    } else {
        texture_entered(job)
    }
}

/// That the vertex data of `model` is missing, in words.
pub open spec fn missing_vvd(model: Seq<char>) -> Seq<char> {
    "Cannot find VVD file for "@ + model
}

/// That the mesh strips of `model` are missing, in words.
pub open spec fn missing_vtx(model: Seq<char>) -> Seq<char> {
    "Cannot find VTX file for "@ + model
}

/// What is missing beside one model, in words, given whether each of its
/// two files was found.
pub open spec fn missing_beside(model: Seq<char>, vvd: bool, vtx: bool) -> Seq<char> {
    (if vvd {
        Seq::empty()
    } else {
        missing_vvd(model)
    }) + (if vtx {
        Seq::empty()
    } else {
        missing_vtx(model)
    })
}

/// What is missing beside the models, in one text: model by model, in
/// order.
pub open spec fn missing_sidecars(inputs: Seq<Seq<char>>, found: Seq<bool>) -> Seq<char> {
    Seq::new(
        inputs.len(),
        |i: int| missing_beside(inputs[i], found[2 * i], found[2 * i + 1]),
    ).flatten()
}

/// The commands of a list of attempts, in order, where every attempt gave
/// one; else the first failure.
pub open spec fn gathered(attempts: Seq<Result<CommandView, ErrorView>>) -> Result<
    Seq<CommandView>,
    ErrorView,
>
    decreases attempts.len(),
{
    if attempts.len() == 0 {
        Ok(Seq::empty())
    } else {
        match gathered(attempts.drop_last()) {
            Ok(commands) => match attempts.last() {
                Ok(command) => Ok(commands.push(command)),
                Err(e) => Err(e),
            },
            Err(e) => Err(e),
        }
    }
}

/// The decompiler's invocation on each model, in order; or the failure to
/// launch the first.
pub open spec fn crowbar_commands(settings: SettingsView, inputs: Seq<Seq<char>>) -> Result<
    Seq<CommandView>,
    ErrorView,
> {
    gathered(inputs.map_values(|m: Seq<char>| crowbar_command(settings, m)))
}

/// The compiler's invocation on each descriptor, in order; or the failure
/// to launch the first.
pub open spec fn studiomdl_commands(settings: SettingsView, qcs: Seq<Seq<char>>) -> Result<
    Seq<CommandView>,
    ErrorView,
> {
    gathered(qcs.map_values(|q: Seq<char>| studiomdl_command(settings, q)))
}

/// Once a run of attempts has failed, more attempts do not change the
/// failure.
pub proof fn lemma_gathered_failure_stays(attempts: Seq<Result<CommandView, ErrorView>>, k: int)
    requires
        0 <= k <= attempts.len(),
        gathered(attempts.take(k)) is Err,
    ensures
        gathered(attempts) == gathered(attempts.take(k)),
    decreases attempts.len() - k,
{
    if k < attempts.len() {
        assert(attempts.take(k + 1).drop_last() =~= attempts.take(k));
        lemma_gathered_failure_stays(attempts, k + 1);
    } else {
        assert(attempts.take(k) =~= attempts);
    }
}

/// With word on the files beside each model: what is missing is logged as
/// one text, and ends a job that is not forced; else one decompiler runs
/// for each model, all side by side.
pub open spec fn sidecars_probed(job: JobView, found: Seq<bool>) -> (JobView, ActionView) {
    let text = missing_sidecars(job.inputs, found);
    if halts(job, text) {
        failed(checked(job, text), ErrorView { kind: ErrorKind::Validation, text })
    } else {
        decompiling(checked(job, text))
    }
}

/// The decompilers are handed out.
pub open spec fn decompiling(job: JobView) -> (JobView, ActionView) {
    match crowbar_commands(job.settings, job.inputs) {
        Ok(commands) => (
            JobView { phase: Phase::Decompiling, ..job },
            ActionView::Run { commands, parallel: true },
        ),
        Err(e) => failed(job, e),
    }
}

/// How one command ended, in words: nothing for a success.
pub open spec fn tool_failure(outcome: Option<Seq<char>>) -> Seq<char> {
    match outcome {
        Some(reason) => "External tool failed: "@ + reason + "\n"@,
        None => Seq::empty(),
    }
}

/// How the commands of a stage ended, in one text: the failures, in order.
pub open spec fn tool_failures(outcomes: Seq<Option<Seq<char>>>) -> Seq<char> {
    outcomes.map_values(|o: Option<Seq<char>>| tool_failure(o)).flatten()
}

/// With all decompilers ended: their failures are logged as one text, and
/// end a job that is not forced; else the job goes on to the textures.
pub open spec fn decompiled(job: JobView, outcomes: Seq<Option<Seq<char>>>) -> (
    JobView,
    ActionView,
) {
    let text = tool_failures(outcomes);
    if halts(job, text) {
        failed(checked(job, text), ErrorView { kind: ErrorKind::Process, text })
    } else {
        texture_entered(checked(job, text))
    }
}

/// The directory whose textures are converted: the root, or the directory
/// that holds it.
pub open spec fn texture_folder(job: JobView) -> Seq<char> {
    if job.root_is_file {
        parent_of(job.path)
    } else {
        job.path
    }
}

/// The texture stage is one run of the converter over the whole
/// directory; a job that does not convert textures goes on to rewrite.
pub open spec fn texture_entered(job: JobView) -> (JobView, ActionView) {
    if job.vtf {
        (
            JobView { phase: Phase::TextureConverting, ..job },
            ActionView::Run {
                commands: seq![no_vtf_command(job.settings, texture_folder(job))],
                parallel: false,
            },
        )
    } else {
        rewrite_entered(job)
    }
}

/// With the converter ended, the job goes on to rewrite, whether or not it
/// is forced and however the converter ended: the stage only waits for the
/// converter. Its failure is logged, and a forced job keeps it among the
/// failures it went on after.
pub open spec fn textures_converted(job: JobView, outcomes: Seq<Option<Seq<char>>>) -> (
    JobView,
    ActionView,
) {
    rewrite_entered(checked(job, tool_failures(outcomes)))
}

/// The descriptor that goes with each model.
pub open spec fn descriptors_of(inputs: Seq<Seq<char>>) -> Seq<Seq<char>> {
    inputs.map_values(|m: Seq<char>| extension_replaced(m, QC_EXTENSION@))
}

/// The rewrite stage begins by asking for the descriptor of each model; a
/// job that does not rewrite goes on to compile.
pub open spec fn rewrite_entered(job: JobView) -> (JobView, ActionView) {
    if job.smd_and_qc {
        (
            JobView { phase: Phase::ProbingDescriptors, ..job },
            ActionView::Probe { paths: descriptors_of(job.inputs) },
        )
    } else {
        recompile_entered(job)
    }
}

/// Each path with what `found` reports of it.
pub open spec fn reports(paths: Seq<Seq<char>>, found: Seq<bool>) -> Seq<(Seq<char>, bool)> {
    Seq::new(paths.len(), |i: int| (paths[i], found[i]))
}

/// Whether a path is reported as `wanted`.
pub open spec fn reported_as(wanted: bool) -> spec_fn((Seq<char>, bool)) -> bool {
    |p: (Seq<char>, bool)| p.1 == wanted
}

/// The path of a report.
pub open spec fn path_of() -> spec_fn((Seq<char>, bool)) -> Seq<char> {
    |p: (Seq<char>, bool)| p.0
}

/// The members of `paths` that `found` reports as `wanted`, in order.
pub open spec fn reported(paths: Seq<Seq<char>>, found: Seq<bool>, wanted: bool) -> Seq<
    Seq<char>,
> {
    reports(paths, found).filter(reported_as(wanted)).map_values(path_of())
}

/// The descriptors that are missing, in one text: nothing where none is.
pub open spec fn missing_descriptors(absent: Seq<Seq<char>>) -> Seq<char> {
    if absent.len() == 0 {
        Seq::empty()
    } else {
        "Cannot find some correspondings .qc files: \n"@ + absent.map_values(
            |p: Seq<char>| p + "\n"@,
        ).flatten()
    }
}

/// With word on the descriptors: those missing are logged as one text, and
/// end a job that is not forced; else the job takes up, one after the
/// other, the descriptors that are there.
pub open spec fn descriptors_probed(job: JobView, found: Seq<bool>) -> (JobView, ActionView) {
    let paths = descriptors_of(job.inputs);
    let text = missing_descriptors(reported(paths, found, false));
    if halts(job, text) {
        failed(checked(job, text), ErrorView { kind: ErrorKind::Validation, text })
    } else {
        next_descriptor(
            JobView {
                descriptors: reported(paths, found, true),
                next: 0,
                skipped: Seq::empty(),
                ..checked(job, text)
            },
        )
    }
}

/// The next descriptor is taken up, or, after the last, the stage ends.
pub open spec fn next_descriptor(job: JobView) -> (JobView, ActionView) {
    if job.next < job.descriptors.len() {
        (
            JobView {
                phase: Phase::LoadingDescriptor,
                current: job.descriptors[job.next as int],
                next: job.next + 1,
                ..job
            },
            ActionView::LoadDescriptor { path: job.descriptors[job.next as int] },
        )
    } else {
        rewritten(job)
    }
}

/// How many descriptors could not be rewritten, in words: nothing where
/// all were.
pub open spec fn unprocessed(skipped: nat, all: nat) -> Seq<char> {
    if skipped == 0 {
        Seq::empty()
    } else {
        "Failed to process "@ + decimal(skipped) + "/"@ + decimal(all) + " .qc files"@
    }
}

/// With all descriptors taken up: that some could not be rewritten is
/// logged, and ends a job that is not forced; else the job goes on to
/// compile.
pub open spec fn rewritten(job: JobView) -> (JobView, ActionView) {
    let text = unprocessed(job.skipped.len(), job.descriptors.len());
    if halts(job, text) {
        failed(checked(job, text), ErrorView { kind: ErrorKind::Validation, text })
    } else {
        recompile_entered(checked(job, text))
    }
}

/// The descriptor at hand cannot be rewritten, for the reason `text`: the
/// reason is logged; a job that is not forced ends, a forced one skips the
/// descriptor and takes up the next.
pub open spec fn skipping(job: JobView, kind: ErrorKind, text: Seq<char>) -> (
    JobView,
    ActionView,
) {
    if job.force {
        next_descriptor(JobView { skipped: job.skipped.push(job.current), ..noted(job, text) })
    } else {
        failed(logged(job, text), ErrorView { kind, text })
    }
}

/// With the descriptor at hand loaded, the meshes it links are asked for,
/// as seen from the descriptor's directory.
pub open spec fn descriptor_loaded(job: JobView, loaded: Result<DescriptorView, Seq<char>>) -> (
    JobView,
    ActionView,
) {
    match loaded {
        Ok(descriptor) => {
            let links = links_of(parent_of(job.current), descriptor);
            (
                JobView { phase: Phase::LoadingMeshes, links, ..job },
                ActionView::LoadMeshes { paths: files_of(links) },
            )
        },
        Err(reason) => skipping(
            job,
            ErrorKind::Parse,
            "Cannot load QC "@ + job.current + ": "@ + reason,
        ),
    }
}

/// With the linked meshes loaded and converted, the pieces are handed out
/// to be written, and the new descriptor is drafted.
pub open spec fn meshes_loaded(job: JobView, loaded: Result<Seq<usize>, MeshFailureView>) -> (
    JobView,
    ActionView,
) {
    match loaded {
        Ok(counts) => {
            let meshes = writes_of(parent_of(job.current), job.links, counts);
            (
                JobView {
                    phase: Phase::WritingMeshes,
                    draft: converted(job.current, meshes),
                    ..job
                },
                ActionView::WriteMeshes { meshes },
            )
        },
        Err(failure) => skipping(
            job,
            ErrorKind::Parse,
            "Cannot find linked SMD for "@ + job.current + ": "@ + job.links[failure.index as int].name
                + ": "@ + failure.reason,
        ),
    }
}

/// Where the descriptor at hand is written once converted.
pub open spec fn converted_path(job: JobView) -> Seq<char> {
    goldsrc_name(job.current, Seq::empty(), QC_EXTENSION@)
}

/// With the pieces on disk, the draft is handed out to be written; the job
/// keeps none.
pub open spec fn meshes_written(job: JobView, written: Result<(), Seq<char>>) -> (
    JobView,
    ActionView,
) {
    match written {
        Ok(_) => (
            JobView { phase: Phase::WritingDescriptor, draft: blank(), ..job },
            ActionView::WriteDescriptor { path: converted_path(job), descriptor: job.draft },
        ),
        Err(reason) => skipping(job, ErrorKind::Write, "Cannot write SMD: "@ + reason),
    }
}

/// With the new descriptor on disk, it is ready to compile, and the next
/// descriptor is taken up.
pub open spec fn descriptor_written(job: JobView, written: Result<(), Seq<char>>) -> (
    JobView,
    ActionView,
) {
    match written {
        Ok(_) => next_descriptor(
            JobView { compilable: job.compilable.push(converted_path(job)), ..job },
        ),
        Err(reason) => skipping(
            job,
            ErrorKind::Write,
            "Cannot write QC "@ + converted_path(job) + ": "@ + reason,
        ),
    }
}

/// What the compile stage logs before it runs: a heading, then the
/// descriptors it compiles, end to end.
pub open spec fn compile_notice(qcs: Seq<Seq<char>>) -> Seq<char> {
    COMPILE_HEADING@ + qcs.flatten()
}

/// The model that the compiler is expected to make of each descriptor: the
/// descriptor's path with the model extension.
pub open spec fn artifacts(qcs: Seq<Seq<char>>) -> Seq<Seq<char>> {
    qcs.map_values(|q: Seq<char>| extension_replaced(q, MDL_EXTENSION@))
}

/// The compile stage logs what it compiles and runs one compiler for each
/// descriptor written, one after the other; a job that does not compile
/// ends without models.
pub open spec fn recompile_entered(job: JobView) -> (JobView, ActionView) {
    if job.compile {
        let told = logged(job, compile_notice(job.compilable));
        match studiomdl_commands(told.settings, told.compilable) {
            Ok(commands) => (
                JobView { phase: Phase::Recompiling, ..told },
                ActionView::Run { commands, parallel: false },
            ),
            Err(e) => failed(told, e),
        }
    } else {
        finished(job, Seq::empty())
    }
}

/// With all compilers ended, the job ends with the model that each
/// descriptor handed to a compiler stands for, whether or not it is forced
/// and however the compilers ended: what a compiler made is not looked at.
/// Their failures are logged as one text, and a forced job keeps it among
/// the failures it went on after.
pub open spec fn recompiled(job: JobView, outcomes: Seq<Option<Seq<char>>>) -> (
    JobView,
    ActionView,
) {
    finished(checked(job, tool_failures(outcomes)), artifacts(job.compilable))
}

/// Whether the job, as it stands, waits for this event.
pub open spec fn awaits(job: JobView, event: EventView) -> bool {
    match event {
        EventView::Start => job.phase == Phase::Created,
        EventView::Discovered(_) => job.phase == Phase::Discovering,
        EventView::Probed(found) => (job.phase == Phase::ProbingSidecars && found.len() == 2
            * job.inputs.len()) || (job.phase == Phase::ProbingDescriptors && found.len()
            == job.inputs.len()),
        EventView::Ran(outcomes) => (job.phase == Phase::Decompiling && outcomes.len()
            == job.inputs.len()) || (job.phase == Phase::TextureConverting && outcomes.len() == 1)
            || (job.phase == Phase::Recompiling && outcomes.len() == job.compilable.len()),
        EventView::DescriptorLoaded(_) => job.phase == Phase::LoadingDescriptor,
        EventView::MeshesLoaded(loaded) => job.phase == Phase::LoadingMeshes && match loaded {
            Ok(counts) => counts.len() == job.links.len(),
            Err(failure) => failure.index < job.links.len(),
        },
        EventView::Written(_) => job.phase == Phase::WritingMeshes || job.phase
            == Phase::WritingDescriptor,
    }
}

/// One step of a job: the state after `event` and the action to perform.
/// An event that the job does not wait for changes nothing.
pub open spec fn step(job: JobView, event: EventView) -> (JobView, ActionView) {
    if !awaits(job, event) {
        rejected(job)
    } else {
        match event {
            EventView::Start => started(job),
            EventView::Discovered(found) => discovered(job, found),
            EventView::Probed(found) => if job.phase == Phase::ProbingSidecars {
                sidecars_probed(job, found)
            } else {
                descriptors_probed(job, found)
            },
            EventView::Ran(outcomes) => if job.phase == Phase::Decompiling {
                decompiled(job, outcomes)
            } else if job.phase == Phase::TextureConverting {
                textures_converted(job, outcomes)
            } else {
                recompiled(job, outcomes)
            },
            EventView::DescriptorLoaded(loaded) => descriptor_loaded(job, loaded),
            EventView::MeshesLoaded(loaded) => meshes_loaded(job, loaded),
            EventView::Written(written) => if job.phase == Phase::WritingMeshes {
                meshes_written(job, written)
            } else {
                descriptor_written(job, written)
            },
        }
    }
}

/// The state of a job after a run of events, one step for each.
pub open spec fn run(job: JobView, events: Seq<EventView>) -> JobView
    decreases events.len(),
{
    if events.len() == 0 {
        job
    } else {
        step(run(job, events.drop_last()), events.last()).0
    }
}

} // verus!
