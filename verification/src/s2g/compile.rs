//! The compile stage: every descriptor written is handed to the compiler,
//! one after the other.

use crate::s2g::discovery::artifact_paths;
use crate::s2g::messages::{compile_notice_text, tool_failures_text};
use crate::s2g::model::{recompile_entered, recompiled};
use crate::s2g::protocol::{Action, Phase};
use crate::s2g::tools::studiomdl_all;
use crate::s2g::S2GOptions;
use crate::text::{optional_texts, texts};
use vstd::prelude::*;

verus! {

impl S2GOptions {
    /// Enters the stage: logs what is compiled and hands out one compiler
    /// for each descriptor written; where the job does not compile, ends
    /// it without models.
    pub(crate) fn work_compile(&mut self) -> (action: Action)
        ensures
            (final(self)@, action@) == recompile_entered(old(self)@),
    {
        if self.compile {
            let notice = compile_notice_text(&self.compile_able_qcs);
            self.log(notice.as_str());
            match studiomdl_all(&self.settings, &self.compile_able_qcs) {
                Ok(commands) => {
                    self.phase = Phase::Recompiling;
                    Action::Run { commands, parallel: false }
                },
                Err(e) => self.fail(e),
            }
        } else {
            let none: Vec<String> = Vec::new();
            assert(texts(none@) =~= Seq::empty());
            self.finish(none)
        }
    }

    /// Given how each compiler ended: logs the failures as one text and
    /// ends the job with the model that each descriptor stands for. No
    /// failure of a compiler ends the job in failure.
    pub(crate) fn recompiled(&mut self, outcomes: &Vec<Option<String>>) -> (action: Action)
        ensures
            (final(self)@, action@) == recompiled(old(self)@, optional_texts(outcomes@)),
    {
        let text = tool_failures_text(outcomes);
        let models = artifact_paths(&self.compile_able_qcs);
        self.check(&text);
        self.finish(models)
    }
}

} // verus!
