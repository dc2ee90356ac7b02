//! The texture stage: one run of the texture converter over the directory
//! of the models.

use crate::path::parent;
use crate::s2g::messages::tool_failures_text;
use crate::s2g::model::{texture_entered, textures_converted};
use crate::s2g::protocol::{Action, Phase};
use crate::s2g::tools::{commands, run_no_vtf, ToolCommand};
use crate::s2g::S2GOptions;
use crate::text::optional_texts;
use vstd::prelude::*;

verus! {

impl S2GOptions {
    /// Enters the stage: hands out the converter's run over the root, or
    /// over the directory that holds it; where the job does not convert
    /// textures, enters the next stage.
    pub(crate) fn work_vtf(&mut self) -> (action: Action)
        ensures
            (final(self)@, action@) == texture_entered(old(self)@),
    {
        if self.vtf {
            let command = if self.root_is_file {
                let folder = parent(self.path.as_str());
                run_no_vtf(folder.as_str(), &self.settings)
            } else {
                run_no_vtf(self.path.as_str(), &self.settings)
            };
            let mut list: Vec<ToolCommand> = Vec::new();
            list.push(command);
            assert(commands(list@) =~= seq![command@]);
            self.phase = Phase::TextureConverting;
            Action::Run { commands: list, parallel: false }
        } else {
            self.enter_rewrite()
        }
    }

    /// Given how the converter ended: logs its failure and enters the next
    /// stage. No failure of the converter ends the job.
    pub(crate) fn textures_converted(&mut self, outcomes: &Vec<Option<String>>) -> (action:
        Action)
        ensures
            (final(self)@, action@) == textures_converted(old(self)@, optional_texts(outcomes@)),
    {
        let text = tool_failures_text(outcomes);
        self.check(&text);
        self.enter_rewrite()
    }
}

} // verus!
