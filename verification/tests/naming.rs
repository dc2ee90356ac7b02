use gchimp::path::{
    file_stem, fix_backslash, has_extension, join, maybe_add_extension_to_string, parent,
    relative_to_less_relative, with_extension, with_file_name,
};
use gchimp::s2g::descriptor::goldsrc_path;
use gchimp::text::{appended, decimal_string, to_chars};

#[test]
fn body_mesh_at_index_two_is_named_with_its_index() {
    assert_eq!(goldsrc_path("foo.smd", "2", "smd"), "foo_goldsrc2.smd");
}

#[test]
fn sequence_mesh_is_named_without_an_index() {
    assert_eq!(goldsrc_path("bar.smd", "", "smd"), "bar_goldsrc.smd");
}

#[test]
fn converted_file_stays_in_its_directory() {
    assert_eq!(goldsrc_path("meshes/sub/foo.smd", "0", "smd"), "meshes/sub/foo_goldsrc0.smd");
    assert_eq!(goldsrc_path("models/a.qc", "", "qc"), "models/a_goldsrc.qc");
    assert_eq!(goldsrc_path("models/a.qc", "", "mdl"), "models/a_goldsrc.mdl");
}

#[test]
fn converted_name_keeps_dots_of_the_stem() {
    assert_eq!(goldsrc_path("v_knife.ref.smd", "12", "smd"), "v_knife.ref_goldsrc12.smd");
}

#[test]
fn extension_is_swapped_after_the_last_dot() {
    assert_eq!(with_extension("models/a.mdl", "vvd"), "models/a.vvd");
    assert_eq!(with_extension("models/a.mdl", "vtx"), "models/a.vtx");
    assert_eq!(with_extension("a.b.mdl", "qc"), "a.b.qc");
}

#[test]
fn extension_is_added_where_there_is_none() {
    assert_eq!(with_extension("models/a", "qc"), "models/a.qc");
    assert_eq!(with_extension("mod.els/a", "qc"), "mod.els/a.qc");
    assert_eq!(with_extension(".hidden", "qc"), ".hidden.qc");
}

#[test]
fn empty_extension_leaves_the_stem() {
    assert_eq!(with_extension("models/a.mdl", ""), "models/a");
    assert_eq!(with_extension("a", ""), "a");
}

#[test]
fn stem_is_the_name_before_the_last_dot() {
    assert_eq!(file_stem("models/a.b.mdl"), "a.b");
    assert_eq!(file_stem("a.mdl"), "a");
    assert_eq!(file_stem("dir/a"), "a");
    assert_eq!(file_stem(".hidden"), ".hidden");
    assert_eq!(file_stem("a."), "a");
    assert_eq!(file_stem(""), "");
}

#[test]
fn extension_is_compared_whole() {
    assert!(has_extension("a.mdl", "mdl"));
    assert!(has_extension("dir.x/a.mdl", "mdl"));
    assert!(!has_extension("a.mdl", "md"));
    assert!(!has_extension("a.mdl", "mdl2"));
    assert!(!has_extension("a.MDL", "mdl"));
    assert!(!has_extension("mdl", "mdl"));
    assert!(!has_extension(".mdl", "mdl"));
    assert!(!has_extension("a.mdl/b", "mdl"));
    assert!(has_extension("a.", ""));
    assert!(!has_extension("a", ""));
}

#[test]
fn parent_is_what_precedes_the_last_separator() {
    assert_eq!(parent("models/sub/a.mdl"), "models/sub");
    assert_eq!(parent("a.mdl"), "");
    assert_eq!(parent("/a.mdl"), "/");
    assert_eq!(parent("models/"), "models");
}

#[test]
fn join_puts_one_separator_between() {
    assert_eq!(join("models", "a.smd"), "models/a.smd");
    assert_eq!(join("models/", "a.smd"), "models/a.smd");
    assert_eq!(join("", "a.smd"), "a.smd");
    assert_eq!(join("models", "/abs/a.smd"), "/abs/a.smd");
    assert_eq!(join("models", ""), "models/");
    assert_eq!(relative_to_less_relative("models", "sub/a.smd"), "models/sub/a.smd");
}

#[test]
fn file_name_is_replaced_in_place() {
    assert_eq!(with_file_name("models/a.qc", "b.qc"), "models/b.qc");
    assert_eq!(with_file_name("a.qc", "b.qc"), "b.qc");
}

#[test]
fn backslashes_become_slashes() {
    assert_eq!(fix_backslash("meshes\\sub\\a.smd"), "meshes/sub/a.smd");
    assert_eq!(fix_backslash("meshes/a.smd"), "meshes/a.smd");
    assert_eq!(fix_backslash(""), "");
    assert_eq!(fix_backslash("\\"), "/");
}

#[test]
fn mesh_extension_is_added_once() {
    assert_eq!(maybe_add_extension_to_string("body", "smd"), "body.smd");
    assert_eq!(maybe_add_extension_to_string("body.smd", "smd"), "body.smd");
    assert_eq!(maybe_add_extension_to_string("bodysmd", "smd"), "bodysmd.smd");
    assert_eq!(maybe_add_extension_to_string("smd", "smd"), "smd.smd");
    assert_eq!(maybe_add_extension_to_string(".smd", "smd"), ".smd");
    assert_eq!(maybe_add_extension_to_string("body.SMD", "smd"), "body.SMD.smd");
}

#[test]
fn numbers_are_written_in_base_ten() {
    assert_eq!(decimal_string(0), "0");
    assert_eq!(decimal_string(7), "7");
    assert_eq!(decimal_string(10), "10");
    assert_eq!(decimal_string(4080), "4080");
    assert_eq!(decimal_string(1234567890), "1234567890");
    assert_eq!(decimal_string(usize::MAX), usize::MAX.to_string());
}

#[test]
fn text_helpers_keep_every_character() {
    assert_eq!(to_chars("a/ü.x"), vec!['a', '/', 'ü', '.', 'x']);
    assert_eq!(appended("ab", "cd"), "abcd");
    assert_eq!(with_extension("modèles/ü.mdl", "qc"), "modèles/ü.qc");
}

#[test]
fn path_that_ends_in_a_separator_has_the_empty_file_name() {
    assert_eq!(file_stem("d/"), "");
    assert!(!has_extension("d/", ""));
    assert_eq!(with_extension("d/", "qc"), "d/.qc");
    assert_eq!(with_extension("d/", ""), "d/");
    assert_eq!(parent("a/"), "a");
    assert_eq!(parent("/"), "/");
    assert_eq!(with_file_name("a/", "b"), "a/b");
    assert_eq!(goldsrc_path("d/", "0", "smd"), "d/_goldsrc0.smd");
}

#[test]
fn two_dots_are_a_name_like_any_other() {
    assert_eq!(file_stem(".."), ".");
    assert!(has_extension("..", ""));
    assert_eq!(with_extension("..", "qc"), "..qc");
    assert_eq!(with_extension("a/..", "qc"), "a/..qc");
    assert_eq!(parent("a/.."), "a");
    assert_eq!(parent(".."), "");
    assert_eq!(with_file_name("a/..", "b"), "a/b");
    assert_eq!(join("a/..", "b"), "a/../b");
    assert_eq!(join("a", "../b"), "a/../b");
    assert_eq!(join("a", "./b"), "a/./b");
}
