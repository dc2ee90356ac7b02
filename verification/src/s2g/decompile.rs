//! The decompile stage: every model must have its two files beside it, and
//! is then handed to a decompiler of its own.

use crate::s2g::discovery::sidecar_paths;
use crate::s2g::error::{ErrorKind, S2GError};
use crate::s2g::messages::{missing_sidecars_text, tool_failures_text};
use crate::s2g::model::{decompile_entered, decompiled, decompiling, sidecars_probed};
use crate::s2g::protocol::{Action, Phase};
use crate::s2g::tools::crowbar_all;
use crate::s2g::S2GOptions;
use crate::text::optional_texts;
use vstd::prelude::*;

verus! {

impl S2GOptions {
    /// Enters the stage, or, where the job does not decompile, the next.
    pub(crate) fn enter_decompile(&mut self) -> (action: Action)
        ensures
            (final(self)@, action@) == decompile_entered(old(self)@),
    {
        if self.decompile {
            self.phase = Phase::ProbingSidecars;
            Action::Probe { paths: sidecar_paths(&self.input_files) }
        } else {
            self.work_vtf()
        }
    }

    /// Given of each model's two files, in turn, whether it exists: logs
    /// what is missing as one text, which ends a job that is not forced,
    /// and else hands out one decompiler for each model.
    pub(crate) fn work_decompile(&mut self, found: &Vec<bool>) -> (action: Action)
        requires
            found.len() == 2 * old(self)@.inputs.len(),
        ensures
            (final(self)@, action@) == sidecars_probed(old(self)@, found@),
    {
        let text = missing_sidecars_text(&self.input_files, found);
        if self.check(&text) {
            self.fail(S2GError { kind: ErrorKind::Validation, text })
        } else {
            self.run_decompilers()
        }
    }

    /// Hands out the decompilers.
    fn run_decompilers(&mut self) -> (action: Action)
        ensures
            (final(self)@, action@) == decompiling(old(self)@),
    {
        match crowbar_all(&self.settings, &self.input_files) {
            Ok(commands) => {
                self.phase = Phase::Decompiling;
                Action::Run { commands, parallel: true }
            },
            Err(e) => self.fail(e),
        }
    }

    /// Given how each decompiler ended: logs the failures as one text,
    /// which ends a job that is not forced, and else enters the next
    /// stage.
    pub(crate) fn decompiled(&mut self, outcomes: &Vec<Option<String>>) -> (action: Action)
        ensures
            (final(self)@, action@) == decompiled(old(self)@, optional_texts(outcomes@)),
    {
        let text = tool_failures_text(outcomes);
        if self.check(&text) {
            self.fail(S2GError { kind: ErrorKind::Process, text })
        } else {
            self.work_vtf()
        }
    }
}

} // verus!
