//! The texts that a job logs and fails with.

use crate::s2g::model::{
    compile_notice, missing_beside, missing_descriptors, missing_sidecars, tool_failure,
    tool_failures, unprocessed,
};
use crate::s2g::constants::COMPILE_HEADING;
use crate::text::{appended, decimal_string, optional_texts, texts};
use vstd::prelude::*;

verus! {

/// What is missing beside the models, in one text, where `found` tells of
/// each model's two files in turn.
pub fn missing_sidecars_text(inputs: &Vec<String>, found: &Vec<bool>) -> (text: String)
    requires
        found.len() == 2 * inputs.len(),
    ensures
        text@ == missing_sidecars(texts(inputs@), found@),
{
    let ghost parts = Seq::new(
        texts(inputs@).len(),
        |i: int| missing_beside(texts(inputs@)[i], found@[2 * i], found@[2 * i + 1]),
    );
    let mut text = String::new();
    let mut i: usize = 0;
    while i < inputs.len()
        invariant
            i <= inputs.len(),
            found.len() == 2 * inputs.len(),
            parts == Seq::new(
                texts(inputs@).len(),
                |i: int| missing_beside(texts(inputs@)[i], found@[2 * i], found@[2 * i + 1]),
            ),
            text@ == parts.take(i as int).flatten(),
        decreases inputs.len() - i,
    {
        if !found[2 * i] {
            text.append("Cannot find VVD file for ");
            text.append(inputs[i].as_str());
        }
        if !found[2 * i + 1] {
            text.append("Cannot find VTX file for ");
            text.append(inputs[i].as_str());
        }
        proof {
            parts.take(i as int).lemma_flatten_push(parts[i as int]);
            assert(parts.take(i + 1) =~= parts.take(i as int).push(parts[i as int]));
        }
        i = i + 1;
    }
    assert(parts.take(inputs.len() as int) =~= parts);
    text
}

/// How the commands of a stage ended, in one text.
pub fn tool_failures_text(outcomes: &Vec<Option<String>>) -> (text: String)
    ensures
        text@ == tool_failures(optional_texts(outcomes@)),
{
    let ghost parts = optional_texts(outcomes@).map_values(
        |o: Option<Seq<char>>| tool_failure(o),
    );
    let mut text = String::new();
    let mut i: usize = 0;
    while i < outcomes.len()
        invariant
            i <= outcomes.len(),
            parts == optional_texts(outcomes@).map_values(|o: Option<Seq<char>>| tool_failure(o)),
            text@ == parts.take(i as int).flatten(),
        decreases outcomes.len() - i,
    {
        match &outcomes[i] {
            Some(reason) => {
                text.append("External tool failed: ");
                text.append(reason.as_str());
                text.append("\n");
            },
            None => {},
        }
        proof {
            parts.take(i as int).lemma_flatten_push(parts[i as int]);
            assert(parts.take(i + 1) =~= parts.take(i as int).push(parts[i as int]));
        }
        i = i + 1;
    }
    assert(parts.take(outcomes.len() as int) =~= parts);
    text
}

/// The descriptors that are missing, in one text.
pub fn missing_descriptors_text(absent: &Vec<String>) -> (text: String)
    ensures
        text@ == missing_descriptors(texts(absent@)),
{
    let mut text = String::new();
    if absent.len() == 0 {
        return text;
    }
    let ghost parts = texts(absent@).map_values(|p: Seq<char>| p + "\n"@);
    text.append("Cannot find some correspondings .qc files: \n");
    let ghost head = text@;
    let mut i: usize = 0;
    while i < absent.len()
        invariant
            i <= absent.len(),
            parts == texts(absent@).map_values(|p: Seq<char>| p + "\n"@),
            text@ == head + parts.take(i as int).flatten(),
        decreases absent.len() - i,
    {
        text.append(absent[i].as_str());
        text.append("\n");
        proof {
            parts.take(i as int).lemma_flatten_push(parts[i as int]);
            assert(parts.take(i + 1) =~= parts.take(i as int).push(parts[i as int]));
        }
        i = i + 1;
    }
    assert(parts.take(absent.len() as int) =~= parts);
    text
}

/// How many descriptors could not be rewritten, in words.
pub fn unprocessed_text(skipped: usize, all: usize) -> (text: String)
    ensures
        text@ == unprocessed(skipped as nat, all as nat),
{
    let mut text = String::new();
    if skipped == 0 {
        return text;
    }
    text.append("Failed to process ");
    text.append(decimal_string(skipped).as_str());
    text.append("/");
    text.append(decimal_string(all).as_str());
    text.append(" .qc files");
    text
}

/// What the compile stage logs before it runs.
pub fn compile_notice_text(qcs: &Vec<String>) -> (text: String)
    ensures
        text@ == compile_notice(texts(qcs@)),
{
    let mut text = String::from_str(COMPILE_HEADING);
    let ghost head = text@;
    let ghost parts = texts(qcs@);
    let mut i: usize = 0;
    while i < qcs.len()
        invariant
            i <= qcs.len(),
            parts == texts(qcs@),
            text@ == head + parts.take(i as int).flatten(),
        decreases qcs.len() - i,
    {
        text.append(qcs[i].as_str());
        proof {
            parts.take(i as int).lemma_flatten_push(parts[i as int]);
            assert(parts.take(i + 1) =~= parts.take(i as int).push(parts[i as int]));
        }
        i = i + 1;
    }
    assert(parts.take(qcs.len() as int) =~= parts);
    text
}

/// `head`, `subject`, a colon and `reason`.
pub fn failure_text(head: &str, subject: &str, reason: &str) -> (text: String)
    ensures
        text@ == head@ + subject@ + ": "@ + reason@,
{
    let mut text = appended(head, subject);
    text.append(": ");
    text.append(reason);
    text
}

} // verus!
