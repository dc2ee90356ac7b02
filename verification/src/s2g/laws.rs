//! What holds of every job, proved of the job's model.

use crate::path::{
    extension_of, extension_replaced, free_of, joined, lemma_plain_path, parent_of,
};
use crate::s2g::constants::{
    COMPILE_HEADING, GOLDSRC_SUFFIX, IDLE_SEQUENCE, MDL_EXTENSION, SMD_EXTENSION,
};
use crate::s2g::descriptor::{
    converted, entry_of, link_of, links_of, mesh_named, piece_name, write_of, writes_of,
    writes_of_link, BodyGroupView, BodyView, DescriptorView, EntryView, LinkView, SequenceView,
    WriteView,
};
use crate::s2g::error::{ErrorKind, ErrorView};
use crate::s2g::model::{
    artifacts, awaits, candidates, checked, compile_notice, converted_path, decompile_entered, decompiling,
    descriptor_loaded, descriptors_of, fresh, gathered, halts, logged, missing_beside,
    missing_descriptors, missing_sidecars, missing_vtx, missing_vvd, next_descriptor, noted,
    recompile_entered, reported, reported_as, reports, rewrite_entered, rewritten, run, skipping,
    step, texture_entered, tool_failures, unprocessed, with_ext, JobView,
};
use crate::s2g::protocol::{ActionView, DiscoveryView, EventView, Phase};
use crate::s2g::tools::{crowbar_command, studiomdl_command, windows_launch, CommandView};
use crate::s2g::SettingsView;
use crate::text::{
    decimal, lemma_member_occurs_in_flatten, lemma_occurs_in_itself, lemma_occurs_in_longer,
    lemma_occurs_in_middle, lemma_occurs_in_transitive, occurs_in,
};
use vstd::prelude::*;

verus! {

/// Whether every failure that the job went on after is in its log.
pub open spec fn well_logged(job: JobView) -> bool {
    forall|i: int| 0 <= i < job.issues.len() ==> occurs_in(#[trigger] job.issues[i], job.log)
}

/// Whether the tools can be launched: on Windows, or with a Wine prefix.
pub open spec fn launchable(settings: SettingsView) -> bool {
    windows_launch(settings) is Ok
}

/// What holds between a job and the job some steps later: the options and
/// settings are the same; the log has only grown; where every failure
/// passed over was in the log, it still is; and a forced job whose tools
/// can be launched has not failed, unless it had before.
pub open spec fn follows(before: JobView, after: JobView) -> bool {
    &&& after.settings == before.settings
    &&& after.force == before.force
    &&& after.decompile == before.decompile
    &&& after.vtf == before.vtf
    &&& after.smd_and_qc == before.smd_and_qc
    &&& after.compile == before.compile
    &&& before.log.is_prefix_of(after.log)
    &&& well_logged(before) ==> well_logged(after)
    &&& before.force && launchable(before.settings) && before.phase != Phase::Failed
        ==> after.phase != Phase::Failed
}

proof fn lemma_follows_chain(a: JobView, b: JobView, c: JobView)
    requires
        follows(a, b),
        follows(b, c),
    ensures
        follows(a, c),
{
}

proof fn lemma_logged_follows(job: JobView, text: Seq<char>)
    ensures
        follows(job, logged(job, text)),
{
    let after = logged(job, text);
    if well_logged(job) {
        assert forall|i: int| 0 <= i < after.issues.len() implies occurs_in(
            #[trigger] after.issues[i],
            after.log,
        ) by {
            lemma_occurs_in_longer(job.issues[i], job.log, after.log);
        }
    }
}

proof fn lemma_noted_follows(job: JobView, text: Seq<char>)
    ensures
        follows(job, noted(job, text)),
{
    let after = noted(job, text);
    if well_logged(job) {
        assert forall|i: int| 0 <= i < after.issues.len() implies occurs_in(
            #[trigger] after.issues[i],
            after.log,
        ) by {
            if i < job.issues.len() {
                lemma_occurs_in_longer(job.issues[i], job.log, after.log);
            } else {
                lemma_occurs_in_itself(text);
                lemma_occurs_in_middle(text, job.log, text, Seq::empty());
                assert(job.log + text + Seq::<char>::empty() =~= after.log);
            }
        }
    }
}

proof fn lemma_checked_follows(job: JobView, text: Seq<char>)
    ensures
        follows(job, checked(job, text)),
{
    lemma_logged_follows(job, text);
    lemma_noted_follows(job, text);
}

/// Attempts that all gave a command give all their commands.
proof fn lemma_gathered_all(attempts: Seq<Result<CommandView, ErrorView>>)
    requires
        forall|i: int| 0 <= i < attempts.len() ==> (#[trigger] attempts[i]) is Ok,
    ensures
        gathered(attempts) is Ok,
    decreases attempts.len(),
{
    if attempts.len() > 0 {
        lemma_gathered_all(attempts.drop_last());
    }
}

proof fn lemma_recompile_entered_follows(job: JobView)
    ensures
        follows(job, recompile_entered(job).0),
{
    let told = logged(job, compile_notice(job.compilable));
    lemma_logged_follows(job, compile_notice(job.compilable));
    if launchable(job.settings) {
        lemma_gathered_all(
            told.compilable.map_values(
                |q: Seq<char>| studiomdl_command(told.settings, q),
            ),
        );
    }
}

proof fn lemma_rewritten_follows(job: JobView)
    ensures
        follows(job, rewritten(job).0),
{
    let text = unprocessed(job.skipped.len(), job.descriptors.len());
    lemma_checked_follows(job, text);
    lemma_recompile_entered_follows(checked(job, text));
    if !halts(job, text) {
        lemma_follows_chain(job, checked(job, text), recompile_entered(checked(job, text)).0);
    }
}

proof fn lemma_next_descriptor_follows(job: JobView)
    ensures
        follows(job, next_descriptor(job).0),
{
    lemma_rewritten_follows(job);
}

proof fn lemma_skipping_follows(job: JobView, kind: ErrorKind, text: Seq<char>)
    ensures
        follows(job, skipping(job, kind, text).0),
{
    lemma_logged_follows(job, text);
    lemma_noted_follows(job, text);
    if job.force {
        let noted_job = noted(job, text);
        let skipped = JobView { skipped: job.skipped.push(job.current), ..noted_job };
        assert(follows(job, skipped));
        lemma_next_descriptor_follows(skipped);
        lemma_follows_chain(job, skipped, next_descriptor(skipped).0);
    }
}

proof fn lemma_rewrite_entered_follows(job: JobView)
    ensures
        follows(job, rewrite_entered(job).0),
{
    lemma_recompile_entered_follows(job);
}

proof fn lemma_texture_entered_follows(job: JobView)
    ensures
        follows(job, texture_entered(job).0),
{
    lemma_rewrite_entered_follows(job);
}

proof fn lemma_decompile_entered_follows(job: JobView)
    ensures
        follows(job, decompile_entered(job).0),
{
    lemma_texture_entered_follows(job);
}

proof fn lemma_decompiling_follows(job: JobView)
    ensures
        follows(job, decompiling(job).0),
{
    if launchable(job.settings) {
        lemma_gathered_all(
            job.inputs.map_values(
                |m: Seq<char>| crowbar_command(job.settings, m),
            ),
        );
    }
}

proof fn lemma_after_check_follows(
    job: JobView,
    text: Seq<char>,
    then: JobView,
)
    requires
        follows(checked(job, text), then),
        !halts(job, text),
    ensures
        follows(job, then),
{
    lemma_checked_follows(job, text);
    lemma_follows_chain(job, checked(job, text), then);
}

/// Every step keeps what [`follows`] says.
pub proof fn lemma_step_follows(job: JobView, event: EventView)
    ensures
        follows(job, step(job, event).0),
{
    if !awaits(job, event) {
        return ;
    }
    match event {
        EventView::Start => {},
        EventView::Discovered(found) => {
            let known = JobView {
                inputs: candidates(job.path, found),
                root_is_file: found is File,
                ..job
            };
            lemma_decompile_entered_follows(known);
        },
        EventView::Probed(found) => {
            if job.phase == Phase::ProbingSidecars {
                let text = missing_sidecars(job.inputs, found);
                lemma_checked_follows(job, text);
                if !halts(job, text) {
                    lemma_decompiling_follows(checked(job, text));
                    lemma_after_check_follows(job, text, decompiling(checked(job, text)).0);
                }
            } else {
                let paths = descriptors_of(job.inputs);
                let text = missing_descriptors(reported(paths, found, false));
                lemma_checked_follows(job, text);
                if !halts(job, text) {
                    let taken = JobView {
                        descriptors: reported(paths, found, true),
                        next: 0,
                        skipped: Seq::empty(),
                        ..checked(job, text)
                    };
                    assert(follows(checked(job, text), taken));
                    lemma_next_descriptor_follows(taken);
                    lemma_follows_chain(checked(job, text), taken, next_descriptor(taken).0);
                    lemma_after_check_follows(job, text, next_descriptor(taken).0);
                }
            }
        },
        EventView::Ran(outcomes) => {
            let text = tool_failures(outcomes);
            lemma_checked_follows(job, text);
            if job.phase == Phase::Decompiling {
                if !halts(job, text) {
                    lemma_texture_entered_follows(checked(job, text));
                    lemma_after_check_follows(job, text, texture_entered(checked(job, text)).0);
                }
            } else if job.phase == Phase::TextureConverting {
                lemma_rewrite_entered_follows(checked(job, text));
                lemma_follows_chain(
                    job,
                    checked(job, text),
                    rewrite_entered(checked(job, text)).0,
                );
            }
        },
        EventView::DescriptorLoaded(loaded) => {
            match loaded {
                Ok(_) => {},
                Err(reason) => {
                    lemma_skipping_follows(
                        job,
                        ErrorKind::Parse,
                        "Cannot load QC "@ + job.current + ": "@ + reason,
                    );
                },
            }
        },
        EventView::MeshesLoaded(loaded) => {
            match loaded {
                Ok(_) => {},
                Err(failure) => {
                    lemma_skipping_follows(
                        job,
                        ErrorKind::Parse,
                        "Cannot find linked SMD for "@ + job.current + ": "@
                            + job.links[failure.index as int].name + ": "@ + failure.reason,
                    );
                },
            }
        },
        EventView::Written(written) => {
            if job.phase == Phase::WritingMeshes {
                match written {
                    Ok(_) => {},
                    Err(reason) => {
                        lemma_skipping_follows(
                            job,
                            ErrorKind::Write,
                            "Cannot write SMD: "@ + reason,
                        );
                    },
                }
            } else {
                let path = converted_path(job);
                match written {
                    Ok(_) => {
                        let kept = JobView { compilable: job.compilable.push(path), ..job };
                        assert(follows(job, kept));
                        lemma_next_descriptor_follows(kept);
                        lemma_follows_chain(job, kept, next_descriptor(kept).0);
                    },
                    Err(reason) => {
                        lemma_skipping_follows(
                            job,
                            ErrorKind::Write,
                            "Cannot write QC "@ + path + ": "@ + reason,
                        );
                    },
                }
            }
        },
    }
}

/// Whatever the events, a job and the job after them are as [`follows`]
/// says.
pub proof fn lemma_run_follows(job: JobView, events: Seq<EventView>)
    ensures
        follows(job, run(job, events)),
    decreases events.len(),
{
    if events.len() > 0 {
        let before = run(job, events.drop_last());
        lemma_run_follows(job, events.drop_last());
        lemma_step_follows(before, events.last());
        lemma_follows_chain(job, before, step(before, events.last()).0);
    }
}

/// Whether the job has ended.
pub open spec fn ended(job: JobView) -> bool {
    job.phase == Phase::Done || job.phase == Phase::Failed
}

/// A job that has ended takes no further step: whatever the event, the job
/// stays as it is and no action is handed out. So after a failure no later
/// stage begins: nothing is probed, run, loaded or written.
pub proof fn law_ended_job_stays(job: JobView, events: Seq<EventView>)
    requires
        ended(job),
    ensures
        run(job, events) == job,
        forall|event: EventView| #[trigger] step(job, event) == (job, ActionView::Rejected),
    decreases events.len(),
{
    if events.len() > 0 {
        law_ended_job_stays(job, events.drop_last());
    }
}

/// A job that is not forced ends at the first model that lacks one of its
/// two files: the job has failed, the failure it ends with is one of
/// validation, and its text, which is also logged, says of each missing
/// file of each model that it cannot be found.
pub proof fn law_unforced_job_ends_at_missing_sidecar(job: JobView, found: Seq<bool>, i: int)
    requires
        !job.force,
        job.phase == Phase::ProbingSidecars,
        found.len() == 2 * job.inputs.len(),
        0 <= i < job.inputs.len(),
        !found[2 * i] || !found[2 * i + 1],
    ensures
        step(job, EventView::Probed(found)).0.phase == Phase::Failed,
        step(job, EventView::Probed(found)).1 == (ActionView::Finish {
            result: Err(
                ErrorView {
                    kind: ErrorKind::Validation,
                    text: missing_sidecars(job.inputs, found),
                },
            ),
        }),
        !found[2 * i] ==> occurs_in(
            missing_vvd(job.inputs[i]),
            missing_sidecars(job.inputs, found),
        ),
        !found[2 * i + 1] ==> occurs_in(
            missing_vtx(job.inputs[i]),
            missing_sidecars(job.inputs, found),
        ),
        occurs_in(missing_sidecars(job.inputs, found), step(job, EventView::Probed(found)).0.log),
{
    lemma_missing_sidecar_is_told(job.inputs, found, i);
    let text = missing_sidecars(job.inputs, found);
    lemma_occurs_in_itself(text);
    lemma_occurs_in_middle(text, job.log, text, Seq::empty());
    assert(job.log + text + Seq::<char>::empty() =~= job.log + text);
}

/// The text on what is missing beside the models names each missing file
/// of each model, and is not empty where a file is missing.
pub proof fn lemma_missing_sidecar_is_told(inputs: Seq<Seq<char>>, found: Seq<bool>, i: int)
    requires
        found.len() == 2 * inputs.len(),
        0 <= i < inputs.len(),
    ensures
        !found[2 * i] ==> occurs_in(missing_vvd(inputs[i]), missing_sidecars(inputs, found)),
        !found[2 * i + 1] ==> occurs_in(missing_vtx(inputs[i]), missing_sidecars(inputs, found)),
        !found[2 * i] || !found[2 * i + 1] ==> missing_sidecars(inputs, found).len() > 0,
{
    let parts = Seq::new(
        inputs.len(),
        |i: int| missing_beside(inputs[i], found[2 * i], found[2 * i + 1]),
    );
    let part = parts[i];
    let whole = missing_sidecars(inputs, found);
    lemma_member_occurs_in_flatten(parts, i);
    reveal_strlit("Cannot find VVD file for ");
    reveal_strlit("Cannot find VTX file for ");
    if !found[2 * i] {
        let told = missing_vvd(inputs[i]);
        let rest = if found[2 * i + 1] {
            Seq::empty()
        } else {
            missing_vtx(inputs[i])
        };
        lemma_occurs_in_itself(told);
        lemma_occurs_in_middle(told, Seq::empty(), told, rest);
        assert(Seq::<char>::empty() + told + rest =~= part);
        lemma_occurs_in_transitive(told, part, whole);
        lemma_occurs_has_room(told, whole);
    }
    if !found[2 * i + 1] {
        let told = missing_vtx(inputs[i]);
        let rest = if found[2 * i] {
            Seq::empty()
        } else {
            missing_vvd(inputs[i])
        };
        lemma_occurs_in_itself(told);
        lemma_occurs_in_middle(told, rest, told, Seq::empty());
        assert(rest + told + Seq::<char>::empty() =~= part);
        lemma_occurs_in_transitive(told, part, whole);
        lemma_occurs_has_room(told, whole);
    }
}

/// A text is at least as long as a text that occurs in it.
proof fn lemma_occurs_has_room(needle: Seq<char>, hay: Seq<char>)
    requires
        occurs_in(needle, hay),
    ensures
        needle.len() <= hay.len(),
{
}

/// The text on the missing descriptors names each of them, and is not
/// empty where one is missing.
pub proof fn lemma_missing_descriptor_is_told(paths: Seq<Seq<char>>, found: Seq<bool>, i: int)
    requires
        found.len() == paths.len(),
        0 <= i < paths.len(),
        !found[i],
    ensures
        occurs_in(paths[i], missing_descriptors(reported(paths, found, false))),
        missing_descriptors(reported(paths, found, false)).len() > 0,
{
    let pairs = reports(paths, found);
    let kept = pairs.filter(reported_as(false));
    let absent = reported(paths, found, false);
    pairs.lemma_filter_contains(reported_as(false), i);
    let j = choose|j: int| 0 <= j < kept.len() && kept[j] == pairs[i];
    assert(absent[j] == paths[i]);
    let lines = absent.map_values(|p: Seq<char>| p + "\n"@);
    let head = "Cannot find some correspondings .qc files: \n"@;
    let whole = missing_descriptors(absent);
    reveal_strlit("Cannot find some correspondings .qc files: \n");
    lemma_member_occurs_in_flatten(lines, j);
    lemma_occurs_in_itself(paths[i]);
    lemma_occurs_in_middle(paths[i], Seq::empty(), paths[i], "\n"@);
    assert(Seq::<char>::empty() + paths[i] + "\n"@ =~= lines[j]);
    lemma_occurs_in_transitive(paths[i], lines[j], lines.flatten());
    lemma_occurs_in_middle(paths[i], head, lines.flatten(), Seq::empty());
    assert(head + lines.flatten() + Seq::<char>::empty() =~= whole);
}

/// A job that is not forced ends at the first missing descriptor: the job
/// has failed, the failure it ends with is one of validation, and its
/// text, which is also logged, names each missing descriptor.
pub proof fn law_unforced_job_ends_at_missing_descriptor(job: JobView, found: Seq<bool>, i: int)
    requires
        !job.force,
        job.phase == Phase::ProbingDescriptors,
        found.len() == job.inputs.len(),
        0 <= i < job.inputs.len(),
        !found[i],
    ensures
        step(job, EventView::Probed(found)).0.phase == Phase::Failed,
        step(job, EventView::Probed(found)).1 == (ActionView::Finish {
            result: Err(
                ErrorView {
                    kind: ErrorKind::Validation,
                    text: missing_descriptors(reported(descriptors_of(job.inputs), found, false)),
                },
            ),
        }),
        occurs_in(
            descriptors_of(job.inputs)[i],
            missing_descriptors(reported(descriptors_of(job.inputs), found, false)),
        ),
        occurs_in(
            missing_descriptors(reported(descriptors_of(job.inputs), found, false)),
            step(job, EventView::Probed(found)).0.log,
        ),
{
    let paths = descriptors_of(job.inputs);
    lemma_missing_descriptor_is_told(paths, found, i);
    let text = missing_descriptors(reported(paths, found, false));
    lemma_occurs_in_itself(text);
    lemma_occurs_in_middle(text, job.log, text, Seq::empty());
    assert(job.log + text + Seq::<char>::empty() =~= job.log + text);
}

/// A job that is not forced ends when a descriptor or a mesh cannot be
/// loaded or written: the job has failed, and the failure it ends with has
/// the text that was logged.
pub proof fn law_unforced_job_ends_at_failed_descriptor(
    job: JobView,
    kind: ErrorKind,
    text: Seq<char>,
)
    requires
        !job.force,
    ensures
        skipping(job, kind, text).0.phase == Phase::Failed,
        skipping(job, kind, text).0.log == job.log + text,
        skipping(job, kind, text).1 == (ActionView::Finish {
            result: Err(ErrorView { kind, text }),
        }),
{
}

/// A forced job whose tools can be launched goes on whatever happens: no
/// step makes it fail.
pub proof fn law_forced_job_goes_on(job: JobView, event: EventView)
    requires
        job.force,
        launchable(job.settings),
        job.phase != Phase::Failed,
    ensures
        step(job, event).0.phase != Phase::Failed,
        step(job, event).0.force,
        launchable(step(job, event).0.settings),
{
    lemma_step_follows(job, event);
}

/// A forced job goes on past the models that lack a file: it hands out the
/// decompilers all the same, and what is missing is in its log and among
/// the failures it passed over.
pub proof fn law_forced_job_passes_missing_sidecar(job: JobView, found: Seq<bool>, i: int)
    requires
        job.force,
        launchable(job.settings),
        job.phase == Phase::ProbingSidecars,
        found.len() == 2 * job.inputs.len(),
        0 <= i < job.inputs.len(),
        !found[2 * i] || !found[2 * i + 1],
    ensures
        step(job, EventView::Probed(found)).0.phase == Phase::Decompiling,
        step(job, EventView::Probed(found)).1 is Run,
        step(job, EventView::Probed(found)).0.issues == job.issues.push(
            missing_sidecars(job.inputs, found),
        ),
        step(job, EventView::Probed(found)).0.log == job.log + missing_sidecars(
            job.inputs,
            found,
        ),
        !found[2 * i] ==> occurs_in(
            missing_vvd(job.inputs[i]),
            step(job, EventView::Probed(found)).0.log,
        ),
        !found[2 * i + 1] ==> occurs_in(
            missing_vtx(job.inputs[i]),
            step(job, EventView::Probed(found)).0.log,
        ),
{
    lemma_missing_sidecar_is_told(job.inputs, found, i);
    let text = missing_sidecars(job.inputs, found);
    lemma_gathered_all(
        job.inputs.map_values(|m: Seq<char>| crowbar_command(job.settings, m)),
    );
    assert(job.log + text + Seq::<char>::empty() =~= job.log + text);
    if !found[2 * i] {
        lemma_occurs_in_middle(missing_vvd(job.inputs[i]), job.log, text, Seq::empty());
    }
    if !found[2 * i + 1] {
        lemma_occurs_in_middle(missing_vtx(job.inputs[i]), job.log, text, Seq::empty());
    }
}

/// A forced job passes over a descriptor that cannot be rewritten: the
/// reason is logged and kept as a failure passed over, the descriptor is
/// kept as skipped, and the job has not failed.
pub proof fn law_forced_job_skips_failed_descriptor(
    job: JobView,
    kind: ErrorKind,
    text: Seq<char>,
)
    requires
        job.force,
        launchable(job.settings),
        job.phase != Phase::Failed,
    ensures
        skipping(job, kind, text).0.phase != Phase::Failed,
        (job.log + text).is_prefix_of(skipping(job, kind, text).0.log),
        job.issues.push(text).is_prefix_of(skipping(job, kind, text).0.issues),
        skipping(job, kind, text).0.skipped == job.skipped.push(job.current),
{
    let skipped = JobView { skipped: job.skipped.push(job.current), ..noted(job, text) };
    lemma_skipping_follows(job, kind, text);
    lemma_next_descriptor_follows(skipped);
    lemma_next_descriptor_keeps_record(skipped);
}

/// Taking up the next descriptor keeps the failures passed over, to which
/// the end of the stage may add one, and the descriptors skipped.
proof fn lemma_next_descriptor_keeps_record(job: JobView)
    ensures
        job.issues.is_prefix_of(next_descriptor(job).0.issues),
        next_descriptor(job).0.skipped == job.skipped,
{
}

/// The log only grows: whatever the events, what the job had logged
/// before them is where the log after them begins.
pub proof fn law_log_only_grows(job: JobView, events: Seq<EventView>)
    ensures
        job.log.is_prefix_of(run(job, events).log),
{
    lemma_run_follows(job, events);
}

/// Whatever happens to a job from the time it is made, every failure that
/// it passed over is in its log.
pub proof fn law_failures_passed_over_are_logged(
    path: Seq<char>,
    settings: SettingsView,
    events: Seq<EventView>,
    i: int,
)
    requires
        0 <= i < run(fresh(path, settings), events).issues.len(),
    ensures
        occurs_in(
            run(fresh(path, settings), events).issues[i],
            run(fresh(path, settings), events).log,
        ),
{
    lemma_run_follows(fresh(path, settings), events);
}

/// How converted meshes are named. For a mesh at a plain path (a directory
/// that is empty or ends in `/`, a stem without `/` or `.`, a dot, and an
/// extension without `/` or `.`): piece `piece` of a body is, in the same
/// directory, the stem, `_goldsrc`, `piece` in base ten and `.smd`; an
/// animation is the stem, `_goldsrc` and `.smd`, and the new descriptor
/// registers it as the animation `idle`, whatever the animation was called.
pub proof fn law_converted_mesh_names(
    root: Seq<char>,
    name: Seq<char>,
    dir: Seq<char>,
    stem: Seq<char>,
    ext: Seq<char>,
    mesh: nat,
    piece: nat,
)
    requires
        dir.len() == 0 || dir.last() == '/',
        stem.len() > 0,
        free_of(stem, '/'),
        free_of(stem, '.'),
        free_of(ext, '/'),
        free_of(ext, '.'),
    ensures
        ({
            let path = dir + stem + seq!['.'] + ext;
            let body = LinkView { name, is_body: true, path, file: joined(root, path) };
            let animation = LinkView { name, is_body: false, path, file: joined(root, path) };
            let body_file = dir + stem + GOLDSRC_SUFFIX@ + decimal(piece) + seq!['.']
                + SMD_EXTENSION@;
            let animation_file = dir + stem + GOLDSRC_SUFFIX@ + seq!['.'] + SMD_EXTENSION@;
            &&& piece_name(body, piece) == body_file
            &&& piece_name(animation, piece) == animation_file
            &&& write_of(root, body, mesh, piece).file == joined(root, body_file)
            &&& write_of(root, animation, mesh, piece).file == joined(root, animation_file)
            &&& entry_of(write_of(root, animation, mesh, piece)) == EntryView::Sequence(
                SequenceView { name: IDLE_SEQUENCE@, skeletal: animation_file },
            )
        }),
{
    let path = dir + stem + seq!['.'] + ext;
    lemma_plain_path(dir, stem, ext);
    assert(path.take(dir.len() as int) =~= dir);
    let body_file = dir + stem + GOLDSRC_SUFFIX@ + decimal(piece) + seq!['.'] + SMD_EXTENSION@;
    let animation_file = dir + stem + GOLDSRC_SUFFIX@ + seq!['.'] + SMD_EXTENSION@;
    assert(dir + (stem + GOLDSRC_SUFFIX@ + decimal(piece) + seq!['.'] + SMD_EXTENSION@)
        =~= body_file);
    assert(dir + (stem + GOLDSRC_SUFFIX@ + Seq::<char>::empty() + seq!['.'] + SMD_EXTENSION@)
        =~= animation_file);
}

/// A descriptor links one mesh for each of its commands, and for a group
/// of bodies that is the mesh of the group's first body.
pub proof fn law_body_group_links_its_first_body(
    root: Seq<char>,
    descriptor: DescriptorView,
    i: int,
    group: BodyGroupView,
)
    requires
        0 <= i < descriptor.commands.len(),
        descriptor.commands[i] == EntryView::BodyGroup(group),
    ensures
        links_of(root, descriptor).len() == descriptor.commands.len(),
        links_of(root, descriptor)[i] == link_of(root, EntryView::Body(group.first)),
{
}

/// The bodies of a group after the first play no part: with other bodies
/// in their place the job takes the same step, so it asks for the same
/// meshes and, later, writes the same files.
pub proof fn law_body_group_alternates_play_no_part(
    job: JobView,
    descriptor: DescriptorView,
    i: int,
    group: BodyGroupView,
    others: Seq<BodyView>,
)
    requires
        0 <= i < descriptor.commands.len(),
        descriptor.commands[i] == EntryView::BodyGroup(group),
    ensures
        descriptor_loaded(job, Ok(descriptor)) == descriptor_loaded(
            job,
            Ok(
                DescriptorView {
                    commands: descriptor.commands.update(
                        i,
                        EntryView::BodyGroup(BodyGroupView { alternates: others, ..group }),
                    ),
                    ..descriptor
                },
            ),
        ),
{
    let other = DescriptorView {
        commands: descriptor.commands.update(
            i,
            EntryView::BodyGroup(BodyGroupView { alternates: others, ..group }),
        ),
        ..descriptor
    };
    let root = parent_of(job.current);
    assert(links_of(root, descriptor) =~= links_of(root, other));
}

/// Whether the file of a write is the name that the new descriptor gives
/// it, as seen from `root`.
pub open spec fn written_where_named(root: Seq<char>, write: WriteView) -> bool {
    write.file == joined(root, write.name)
}

/// What holds of every member of every list holds of every member of the
/// lists joined end to end.
proof fn lemma_flatten_keeps(parts: Seq<Seq<WriteView>>, root: Seq<char>, i: int)
    requires
        forall|j: int, k: int|
            0 <= j < parts.len() && 0 <= k < parts[j].len() ==> written_where_named(
                root,
                #[trigger] parts[j][k],
            ),
        0 <= i < parts.flatten().len(),
    ensures
        written_where_named(root, parts.flatten()[i]),
    decreases parts.len(),
{
    if parts.len() > 0 {
        let rest = parts.drop_last();
        assert(rest.push(parts.last()) =~= parts);
        rest.lemma_flatten_push(parts.last());
        if i < rest.flatten().len() {
            assert forall|j: int, k: int|
                0 <= j < rest.len() && 0 <= k < rest[j].len() implies written_where_named(
                root,
                #[trigger] rest[j][k],
            ) by {
                assert(rest[j][k] == parts[j][k]);
            }
            lemma_flatten_keeps(rest, root, i);
        } else {
            let k = i - rest.flatten().len();
            assert(parts.flatten()[i] == parts[parts.len() - 1][k]);
        }
    }
}

/// The new descriptor and the meshes on disk agree. When the meshes of a
/// descriptor are loaded, the job hands out the pieces to write, each to
/// the file that its name stands for in the descriptor's directory. Only
/// when all of them are reported written does it hand out the new
/// descriptor, and that descriptor names, command by command, exactly the
/// pieces that were written. When a write fails, no descriptor is handed
/// out.
pub proof fn law_descriptor_names_the_meshes_written(job: JobView, counts: Seq<usize>)
    requires
        job.phase == Phase::LoadingMeshes,
        counts.len() == job.links.len(),
    ensures
        ({
            let root = parent_of(job.current);
            let meshes = writes_of(root, job.links, counts);
            let (drafted, first) = step(job, EventView::MeshesLoaded(Ok(counts)));
            let (_, second) = step(drafted, EventView::Written(Ok(())));
            &&& first == ActionView::WriteMeshes { meshes }
            &&& second == ActionView::WriteDescriptor {
                path: converted_path(job),
                descriptor: converted(job.current, meshes),
            }
            &&& converted(job.current, meshes).commands.len() == meshes.len()
            &&& forall|i: int|
                0 <= i < meshes.len() ==> mesh_named(
                    #[trigger] converted(job.current, meshes).commands[i],
                ) == meshes[i].name
            &&& forall|i: int|
                0 <= i < meshes.len() ==> written_where_named(root, #[trigger] meshes[i])
            &&& forall|reason: Seq<char>|
                !(#[trigger] step(drafted, EventView::Written(Err(reason))).1 is WriteDescriptor)
        }),
{
    let root = parent_of(job.current);
    let meshes = writes_of(root, job.links, counts);
    let parts = Seq::new(
        job.links.len(),
        |j: int| writes_of_link(root, job.links[j], j as nat, counts[j] as nat),
    );
    assert forall|i: int| 0 <= i < meshes.len() implies written_where_named(
        root,
        #[trigger] meshes[i],
    ) by {
        lemma_flatten_keeps(parts, root, i);
    }
}

/// Selecting the files of an extension is stable: what is selected from a
/// selection is the selection itself, in the same order.
pub proof fn law_selection_is_stable(files: Seq<Seq<char>>, ext: Seq<char>)
    ensures
        with_ext(with_ext(files, ext), ext) == with_ext(files, ext),
    decreases files.len(),
{
    let wanted = |f: Seq<char>| extension_of(f) == Some(ext);
    if files.len() == 0 {
        reveal(Seq::filter);
    } else {
        let rest = files.drop_last();
        let last = files.last();
        assert(rest.push(last) =~= files);
        rest.lemma_filter_push(last, wanted);
        law_selection_is_stable(rest, ext);
        rest.filter(wanted).lemma_filter_push(last, wanted);
    }
}

/// Which models a job takes up depends on its root and on what is found
/// there, and on nothing else: two jobs for the same root that are told
/// the same of it take up the same models in the same order, whatever
/// their options and whatever they have logged.
pub proof fn law_same_tree_same_models(first: JobView, second: JobView, found: DiscoveryView)
    requires
        first.path == second.path,
        first.phase == Phase::Discovering,
        second.phase == Phase::Discovering,
    ensures
        step(first, EventView::Discovered(found)).0.inputs == candidates(first.path, found),
        step(second, EventView::Discovered(found)).0.inputs == step(
            first,
            EventView::Discovered(found),
        ).0.inputs,
{
}

/// The texture stage only waits for the converter: however the converter
/// ended, the job goes on as it does after a converter that succeeded. It
/// hands out the same action and waits for the same event, forced or not;
/// only its record differs, by the failure that is logged.
pub proof fn law_texture_stage_only_waits(job: JobView, outcomes: Seq<Option<Seq<char>>>)
    requires
        job.phase == Phase::TextureConverting,
        outcomes.len() == 1,
    ensures
        step(job, EventView::Ran(outcomes)) == rewrite_entered(
            checked(job, tool_failures(outcomes)),
        ),
        step(job, EventView::Ran(outcomes)).0.phase == rewrite_entered(job).0.phase,
        rewrite_entered(job).1 is Probe ==> step(job, EventView::Ran(outcomes)).1
            == rewrite_entered(job).1,
        rewrite_entered(job).1 is Run ==> step(job, EventView::Ran(outcomes)).1
            == rewrite_entered(job).1,
        job.log.is_prefix_of(step(job, EventView::Ran(outcomes)).0.log),
{
    lemma_checked_follows(job, tool_failures(outcomes));
    lemma_rewrite_entered_follows(checked(job, tool_failures(outcomes)));
}

/// The compile stage never fails a job for what a compiler did. However
/// the compilers ended, forced or not, the job ends with one model for
/// each descriptor that was handed to a compiler, in the same order: the
/// descriptor's path with the model extension. What the compilers
/// reported is logged, and nothing else is.
pub proof fn law_compile_stage_gives_the_models(job: JobView, outcomes: Seq<Option<Seq<char>>>)
    requires
        job.phase == Phase::Recompiling,
        outcomes.len() == job.compilable.len(),
    ensures
        step(job, EventView::Ran(outcomes)).0.phase == Phase::Done,
        step(job, EventView::Ran(outcomes)).1 == (ActionView::Finish {
            result: Ok(artifacts(job.compilable)),
        }),
        artifacts(job.compilable).len() == job.compilable.len(),
        forall|i: int|
            0 <= i < job.compilable.len() ==> #[trigger] artifacts(job.compilable)[i]
                == extension_replaced(job.compilable[i], MDL_EXTENSION@),
        step(job, EventView::Ran(outcomes)).0.log == job.log + tool_failures(outcomes),
{
    assert(job.log + Seq::<char>::empty() =~= job.log);
}

/// When the compile stage begins, the log gains a notice that names every
/// descriptor to compile; and where the tools can be launched, one
/// compiler is handed out for each of them, to run one after the other.
pub proof fn law_compile_stage_names_every_descriptor(job: JobView, i: int)
    requires
        job.compile,
        0 <= i < job.compilable.len(),
    ensures
        recompile_entered(job).0.log == job.log + compile_notice(job.compilable),
        occurs_in(job.compilable[i], compile_notice(job.compilable)),
        launchable(job.settings) ==> recompile_entered(job).0.phase == Phase::Recompiling,
        launchable(job.settings) ==> (recompile_entered(job).1 matches ActionView::Run {
            commands,
            parallel,
        } && commands.len() == job.compilable.len() && !parallel),
{
    let head = COMPILE_HEADING@;
    lemma_member_occurs_in_flatten(job.compilable, i);
    lemma_occurs_in_middle(
        job.compilable[i],
        head,
        job.compilable.flatten(),
        Seq::empty(),
    );
    assert(head + job.compilable.flatten() + Seq::<char>::empty() =~= compile_notice(
        job.compilable,
    ));
    if launchable(job.settings) {
        let attempts = job.compilable.map_values(
            |q: Seq<char>| studiomdl_command(job.settings, q),
        );
        lemma_gathered_all(attempts);
        lemma_gathered_length(attempts);
    }
}

/// Attempts that all gave a command give as many commands as there were
/// attempts.
proof fn lemma_gathered_length(attempts: Seq<Result<CommandView, ErrorView>>)
    requires
        gathered(attempts) is Ok,
    ensures
        gathered(attempts)->Ok_0.len() == attempts.len(),
    decreases attempts.len(),
{
    if attempts.len() > 0 {
        lemma_gathered_length(attempts.drop_last());
    }
}

} // verus!
