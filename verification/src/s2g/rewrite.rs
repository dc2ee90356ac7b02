//! The rewrite stage: descriptor by descriptor, the meshes it links are
//! converted and written under new names, and a new descriptor that names
//! them is written beside the old one.

use crate::path::parent;
use crate::s2g::constants::QC_EXTENSION;
use crate::s2g::descriptor::{
    convert_descriptor, find_linked_smd_path, goldsrc_path, link_files, plan_writes,
    ModelDescriptor,
};
use crate::s2g::discovery::{descriptor_paths, reported_paths};
use crate::s2g::error::{ErrorKind, S2GError};
use crate::s2g::messages::{failure_text, missing_descriptors_text, unprocessed_text};
use crate::s2g::model::{
    converted_path, descriptor_loaded, descriptor_written, descriptors_probed, meshes_loaded,
    meshes_written, next_descriptor, rewrite_entered, rewritten, skipping,
};
use crate::s2g::protocol::{Action, MeshFailure, Phase};
use crate::s2g::S2GOptions;
use crate::text::{appended, lemma_texts_push, texts};
use vstd::prelude::*;

verus! {

impl S2GOptions {
    /// Enters the stage, or, where the job does not rewrite, the next.
    pub(crate) fn enter_rewrite(&mut self) -> (action: Action)
        ensures
            (final(self)@, action@) == rewrite_entered(old(self)@),
    {
        if self.smd_and_qc {
            self.phase = Phase::ProbingDescriptors;
            Action::Probe { paths: descriptor_paths(&self.input_files) }
        } else {
            self.work_compile()
        }
    }

    /// Given of each model's descriptor whether it exists: logs those
    /// missing as one text, which ends a job that is not forced, and else
    /// takes up the first descriptor that is there.
    pub(crate) fn work_smd_and_qc(&mut self, found: &Vec<bool>) -> (action: Action)
        requires
            found.len() == old(self)@.inputs.len(),
        ensures
            (final(self)@, action@) == descriptors_probed(old(self)@, found@),
    {
        let paths = descriptor_paths(&self.input_files);
        let missing = reported_paths(&paths, found, false);
        let text = missing_descriptors_text(&missing);
        if self.check(&text) {
            self.fail(S2GError { kind: ErrorKind::Validation, text })
        } else {
            self.qc_paths = reported_paths(&paths, found, true);
            self.next = 0;
            self.skipped = Vec::new();
            assert(texts(self.skipped@) =~= Seq::empty());
            self.next_descriptor()
        }
    }

    /// Takes up the next descriptor, or, after the last, ends the stage.
    fn next_descriptor(&mut self) -> (action: Action)
        ensures
            (final(self)@, action@) == next_descriptor(old(self)@),
    {
        if self.next < self.qc_paths.len() {
            let path = self.qc_paths[self.next].clone();
            self.current = path.clone();
            self.next = self.next + 1;
            self.phase = Phase::LoadingDescriptor;
            Action::LoadDescriptor { path }
        } else {
            self.rewritten()
        }
    }

    /// Ends the stage: logs how many descriptors could not be rewritten,
    /// which ends a job that is not forced, and else enters the next
    /// stage.
    fn rewritten(&mut self) -> (action: Action)
        ensures
            (final(self)@, action@) == rewritten(old(self)@),
    {
        let text = unprocessed_text(self.skipped.len(), self.qc_paths.len());
        if self.check(&text) {
            self.fail(S2GError { kind: ErrorKind::Validation, text })
        } else {
            self.work_compile()
        }
    }

    /// Gives up the descriptor at hand for the reason `text`: logs it,
    /// ends a job that is not forced, and else takes up the next
    /// descriptor.
    fn skip(&mut self, kind: ErrorKind, text: String) -> (action: Action)
        ensures
            (final(self)@, action@) == skipping(old(self)@, kind, text@),
    {
        self.pseudo_stdout.append(text.as_str());
        if self.force {
            proof {
                lemma_texts_push(self.issues@, text);
                lemma_texts_push(self.skipped@, self.current);
            }
            self.issues.push(text);
            self.skipped.push(self.current.clone());
            self.next_descriptor()
        } else {
            self.fail(S2GError { kind, text })
        }
    }

    /// Given the descriptor at hand, or why it could not be loaded: asks
    /// for the meshes it links.
    pub(crate) fn descriptor_loaded(&mut self, loaded: Result<ModelDescriptor, String>) -> (action:
        Action)
        ensures
            (final(self)@, action@) == descriptor_loaded(
                old(self)@,
                match loaded {
                    Ok(descriptor) => Ok(descriptor@),
                    Err(reason) => Err(reason@),
                },
            ),
    {
        match loaded {
            Ok(descriptor) => {
                let root = parent(self.current.as_str());
                self.linked = find_linked_smd_path(root.as_str(), &descriptor);
                self.phase = Phase::LoadingMeshes;
                Action::LoadMeshes { paths: link_files(&self.linked) }
            },
            Err(reason) => {
                let text = failure_text("Cannot load QC ", self.current.as_str(), reason.as_str());
                self.skip(ErrorKind::Parse, text)
            },
        }
    }

    /// Given how many pieces each linked mesh became, or the first mesh
    /// that could not be loaded: drafts the new descriptor and hands out
    /// the pieces to write.
    pub(crate) fn meshes_loaded(&mut self, loaded: Result<Vec<usize>, MeshFailure>) -> (action:
        Action)
        requires
            match loaded {
                Ok(counts) => counts.len() == old(self)@.links.len(),
                Err(failure) => failure.index < old(self)@.links.len(),
            },
        ensures
            (final(self)@, action@) == meshes_loaded(
                old(self)@,
                match loaded {
                    Ok(counts) => Ok(counts@),
                    Err(failure) => Err(failure@),
                },
            ),
    {
        match loaded {
            Ok(counts) => {
                let root = parent(self.current.as_str());
                let meshes = plan_writes(root.as_str(), &self.linked, &counts);
                self.draft = convert_descriptor(self.current.as_str(), &meshes);
                self.phase = Phase::WritingMeshes;
                Action::WriteMeshes { meshes }
            },
            Err(failure) => {
                let mut text = failure_text(
                    "Cannot find linked SMD for ",
                    self.current.as_str(),
                    self.linked[failure.index].name.as_str(),
                );
                text.append(": ");
                text.append(failure.reason.as_str());
                self.skip(ErrorKind::Parse, text)
            },
        }
    }

    /// Where the descriptor at hand is written once converted.
    fn converted_path(&self) -> (path: String)
        ensures
            path@ == converted_path(self@),
    {
        proof {
            reveal_strlit("");
        }
        goldsrc_path(self.current.as_str(), "", QC_EXTENSION)
    }

    /// Given that the pieces are on disk, or why the first write that
    /// failed did: hands out the draft to be written.
    pub(crate) fn meshes_written(&mut self, written: Result<(), String>) -> (action: Action)
        ensures
            (final(self)@, action@) == meshes_written(
                old(self)@,
                match written {
                    Ok(_) => Ok(()),
                    Err(reason) => Err(reason@),
                },
            ),
    {
        match written {
            Ok(_) => {
                let path = self.converted_path();
                let mut descriptor = ModelDescriptor::new();
                core::mem::swap(&mut self.draft, &mut descriptor);
                self.phase = Phase::WritingDescriptor;
                Action::WriteDescriptor { path, descriptor }
            },
            Err(reason) => {
                let text = appended("Cannot write SMD: ", reason.as_str());
                self.skip(ErrorKind::Write, text)
            },
        }
    }

    /// Given that the new descriptor is on disk, or why not: keeps it as
    /// ready to compile, and takes up the next descriptor.
    pub(crate) fn descriptor_written(&mut self, written: Result<(), String>) -> (action: Action)
        ensures
            (final(self)@, action@) == descriptor_written(
                old(self)@,
                match written {
                    Ok(_) => Ok(()),
                    Err(reason) => Err(reason@),
                },
            ),
    {
        let path = self.converted_path();
        match written {
            Ok(_) => {
                proof {
                    lemma_texts_push(self.compile_able_qcs@, path);
                }
                self.compile_able_qcs.push(path);
                self.next_descriptor()
            },
            Err(reason) => {
                let text = failure_text("Cannot write QC ", path.as_str(), reason.as_str());
                self.skip(ErrorKind::Write, text)
            },
        }
    }
}

} // verus!
