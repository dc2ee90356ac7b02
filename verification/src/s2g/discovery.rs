//! Which files a job works on: the models under its root, and the files
//! that each stage expects beside them.

use crate::path::{extension_of, has_extension, with_extension};
use crate::s2g::constants::{MDL_EXTENSION, QC_EXTENSION, VTX_EXTENSION, VVD_EXTENSION};
use crate::s2g::model::{
    artifacts, descriptors_of, path_of, reported, reported_as, reports, sidecars_of, with_ext,
};
use crate::text::{lemma_texts_push, texts};
use vstd::prelude::*;

verus! {

/// The files of `files` with the extension `ext`, in order.
pub fn find_file_with_ext_in_folder(files: &Vec<String>, ext: &str) -> (r: Vec<String>)
    ensures
        texts(r@) == with_ext(texts(files@), ext@),
{
    let ghost wanted = |f: Seq<char>| extension_of(f) == Some(ext@);
    let mut r: Vec<String> = Vec::new();
    let mut i: usize = 0;
    proof {
        reveal(Seq::filter);
    }
    while i < files.len()
        invariant
            i <= files.len(),
            wanted == |f: Seq<char>| extension_of(f) == Some(ext@),
            texts(r@) == texts(files@).take(i as int).filter(wanted),
        decreases files.len() - i,
    {
        proof {
            texts(files@).take(i as int).lemma_filter_push(files@[i as int]@, wanted);
            assert(texts(files@).take(i + 1) =~= texts(files@).take(i as int).push(
                files@[i as int]@,
            ));
            lemma_texts_push(r@, files@[i as int]);
        }
        if has_extension(files[i].as_str(), ext) {
            r.push(files[i].clone());
        }
        i = i + 1;
    }
    assert(texts(files@).take(files.len() as int) =~= texts(files@));
    r
}

/// The two files that go with each model, model by model.
pub fn sidecar_paths(inputs: &Vec<String>) -> (r: Vec<String>)
    ensures
        texts(r@) == sidecars_of(texts(inputs@)),
{
    let mut r: Vec<String> = Vec::new();
    let mut i: usize = 0;
    while i < inputs.len()
        invariant
            i <= inputs.len(),
            texts(r@) == sidecars_of(texts(inputs@)).take(2 * i),
        decreases inputs.len() - i,
    {
        let vvd = with_extension(inputs[i].as_str(), VVD_EXTENSION);
        let vtx = with_extension(inputs[i].as_str(), VTX_EXTENSION);
        proof {
            lemma_texts_push(r@, vvd);
            lemma_texts_push(r@.push(vvd), vtx);
            assert(sidecars_of(texts(inputs@)).take(2 * (i + 1)) =~= sidecars_of(
                texts(inputs@),
            ).take(2 * i).push(vvd@).push(vtx@));
        }
        r.push(vvd);
        r.push(vtx);
        i = i + 1;
    }
    r
}

/// The descriptor that goes with each model.
pub fn descriptor_paths(inputs: &Vec<String>) -> (r: Vec<String>)
    ensures
        texts(r@) == descriptors_of(texts(inputs@)),
{
    let mut r: Vec<String> = Vec::new();
    let mut i: usize = 0;
    while i < inputs.len()
        invariant
            i <= inputs.len(),
            texts(r@) == descriptors_of(texts(inputs@)).take(i as int),
        decreases inputs.len() - i,
    {
        let qc = with_extension(inputs[i].as_str(), QC_EXTENSION);
        proof {
            lemma_texts_push(r@, qc);
            assert(descriptors_of(texts(inputs@)).take(i + 1) =~= descriptors_of(
                texts(inputs@),
            ).take(i as int).push(qc@));
        }
        r.push(qc);
        i = i + 1;
    }
    assert(descriptors_of(texts(inputs@)).take(inputs.len() as int) =~= descriptors_of(
        texts(inputs@),
    ));
    r
}

/// The model that the compiler makes of each descriptor.
pub fn artifact_paths(qcs: &Vec<String>) -> (r: Vec<String>)
    ensures
        texts(r@) == artifacts(texts(qcs@)),
{
    let mut r: Vec<String> = Vec::new();
    let mut i: usize = 0;
    while i < qcs.len()
        invariant
            i <= qcs.len(),
            texts(r@) == artifacts(texts(qcs@)).take(i as int),
        decreases qcs.len() - i,
    {
        let mdl = with_extension(qcs[i].as_str(), MDL_EXTENSION);
        proof {
            lemma_texts_push(r@, mdl);
            assert(artifacts(texts(qcs@)).take(i + 1) =~= artifacts(texts(qcs@)).take(
                i as int,
            ).push(mdl@));
        }
        r.push(mdl);
        i = i + 1;
    }
    r
}

/// The members of `paths` that `found` reports as `wanted`, in order.
pub fn reported_paths(paths: &Vec<String>, found: &Vec<bool>, wanted: bool) -> (r: Vec<String>)
    requires
        found.len() == paths.len(),
    ensures
        texts(r@) == reported(texts(paths@), found@, wanted),
{
    let ghost pairs = reports(texts(paths@), found@);
    let ghost keep = reported_as(wanted);
    let mut r: Vec<String> = Vec::new();
    let mut i: usize = 0;
    proof {
        reveal(Seq::filter);
    }
    while i < paths.len()
        invariant
            i <= paths.len(),
            found.len() == paths.len(),
            pairs == reports(texts(paths@), found@),
            keep == reported_as(wanted),
            texts(r@) == pairs.take(i as int).filter(keep).map_values(path_of()),
        decreases paths.len() - i,
    {
        proof {
            let pair = pairs[i as int];
            pairs.take(i as int).lemma_filter_push(pair, keep);
            assert(pairs.take(i + 1) =~= pairs.take(i as int).push(pair));
            lemma_texts_push(r@, paths@[i as int]);
            assert(pairs.take(i as int).filter(keep).push(pair).map_values(path_of())
                =~= pairs.take(i as int).filter(keep).map_values(path_of()).push(pair.0));
        }
        if found[i] == wanted {
            r.push(paths[i].clone());
        }
        i = i + 1;
    }
    assert(pairs.take(paths.len() as int) =~= pairs);
    r
}

} // verus!
