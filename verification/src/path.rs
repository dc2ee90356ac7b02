//! File paths as text. A path is a run of components separated by `/`; its
//! last component is the file's name, and the name's last `.` (unless it is
//! the name's first character) parts the stem from the extension.
//!
//! These are rules on text and nothing more. What follows the last `/` is
//! the file name, whatever it is:
//! - a path that ends in `/` has the empty file name, so `d/` has the stem
//!   "" and no extension, `d/` with the extension `qc` is `d/.qc`, and the
//!   directory that holds `a/` is `a`;
//! - `..` is a name like any other: its stem is `.`, its extension is
//!   empty, `..` with the extension `qc` is `..qc`, and the directory that
//!   holds `a/..` is `a`;
//! - `.` and `..` inside a path are kept as they stand, and `\` is no
//!   separator.
//!
//! The paths of a job name files, so none of them ends in `/` or in `..`.

use crate::text::to_chars;
use vstd::prelude::*;

verus! {

/// How many leading characters of `p` name the directory, the closing `/`
/// included: 0 where `p` is a bare file name.
pub open spec fn dir_len(p: Seq<char>) -> int {
    match p.index_of_last('/') {
        Some(i) => i + 1,
        None => 0,
    }
}

/// The last component of `p`: what follows its last `/`. It is empty for a
/// path that ends in `/`, and `..` for a path that ends in `..`.
pub open spec fn file_name_of(p: Seq<char>) -> Seq<char> {
    p.skip(dir_len(p))
}

/// How many leading characters of the file name `name` are its stem: all
/// that precede its last `.`, or the whole of a name without `.` or with
/// none but the first character. Of `..` that is the first `.`.
pub open spec fn stem_len(name: Seq<char>) -> int {
    match name.index_of_last('.') {
        Some(i) => if i > 0 {
            i
        } else {
            name.len() as int
        },
        None => name.len() as int,
    }
}

/// The file name of `p` without its extension.
pub open spec fn stem_of(p: Seq<char>) -> Seq<char> {
    file_name_of(p).take(stem_len(file_name_of(p)))
}

/// The extension of `p`, without the dot, where the file name has one.
pub open spec fn extension_of(p: Seq<char>) -> Option<Seq<char>> {
    let name = file_name_of(p);
    if stem_len(name) < name.len() {
        Some(name.skip(stem_len(name) + 1))
    } else {
        None
    }
}

/// `p` up to the end of its stem: the directory and the stem.
pub open spec fn without_extension(p: Seq<char>) -> Seq<char> {
    p.take(dir_len(p) + stem_len(file_name_of(p)))
}

/// `p` with `ext` in place of its extension. An empty `ext` leaves the bare
/// stem.
///
/// The file name is what follows the last `/`, so for a path that ends in
/// `/` the extension goes after the `/`: `d/` with `qc` is `d/.qc`, not
/// `d.qc`. A path that ends in `..` is treated like one that ends in any
/// other name: `a/..` with `qc` is `a/..qc`, and `..` is not left as it is.
pub open spec fn extension_replaced(p: Seq<char>, ext: Seq<char>) -> Seq<char> {
    if ext.len() == 0 {
        without_extension(p)
    } else {
        without_extension(p) + seq!['.'] + ext
    }
}

/// The directory that holds `p`: empty for a bare file name, `/` for an
/// entry of the root.
///
/// It is what precedes the last `/`, so a closing `/` is not passed over:
/// the directory that holds `a/` is `a`, not the empty path, and that of
/// `/` is `/`. The name `..` is a name like any other: the directory that
/// holds `a/..` is `a`.
pub open spec fn parent_of(p: Seq<char>) -> Seq<char> {
    match p.index_of_last('/') {
        Some(i) => if i == 0 {
            p.take(1)
        } else {
            p.take(i)
        },
        None => Seq::empty(),
    }
}

/// `rel` as seen from `dir`. An empty `dir` and a `rel` that starts at the
/// root both give `rel` itself. Nothing is resolved: `.` and `..` stay as
/// they are written, and an empty `rel` gives `dir` with a closing `/`.
pub open spec fn joined(dir: Seq<char>, rel: Seq<char>) -> Seq<char> {
    if dir.len() == 0 || (rel.len() > 0 && rel[0] == '/') {
        rel
    } else if dir.last() == '/' {
        dir + rel
    } else {
        dir + seq!['/'] + rel
    }
}

/// `p` with another file name in the same directory: what precedes the
/// file name of `p`, then `name`. For a path that ends in `/` that is the
/// whole path, so `a/` with the name `b` is `a/b`; for one that ends in
/// `..` the `..` is replaced, so `a/..` with the name `b` is `a/b`.
pub open spec fn sibling_of(p: Seq<char>, name: Seq<char>) -> Seq<char> {
    p.take(dir_len(p)) + name
}

/// `s` with every `\` turned into `/`.
pub open spec fn slashes_fixed(s: Seq<char>) -> Seq<char> {
    s.map_values(
        |c: char|
            if c == '\\' {
                '/'
            } else {
                c
            },
    )
}

/// `s`, with `.` and `ext` added unless it ends in them already.
pub open spec fn extension_added(s: Seq<char>, ext: Seq<char>) -> Seq<char> {
    if (seq!['.'] + ext).is_suffix_of(s) {
        s
    } else {
        s + seq!['.'] + ext
    }
}

/// Where `c` last occurs in `v` at or after `from`, counted from `from`.
fn find_last(v: &Vec<char>, from: usize, c: char) -> (r: Option<usize>)
    requires
        from <= v.len(),
    ensures
        match r {
            Some(k) => v@.skip(from as int).index_of_last(c) == Some(k as int) && from + k
                < v.len(),
            None => v@.skip(from as int).index_of_last(c) is None,
        },
{
    let ghost s = v@.skip(from as int);
    let mut found: Option<usize> = None;
    let mut i: usize = from;
    while i < v.len()
        invariant
            from <= i <= v.len(),
            s == v@.skip(from as int),
            match found {
                Some(k) => from + k < i && s[k as int] == c && forall|j: int|
                    k < j < i - from ==> s[j] != c,
                None => forall|j: int| 0 <= j < i - from ==> s[j] != c,
            },
        decreases v.len() - i,
    {
        if v[i] == c {
            found = Some(i - from);
        }
        i = i + 1;
    }
    proof {
        s.index_of_last_ensures(c);
    }
    found
}

/// The two cuts of a path: where its file name starts and where the stem of
/// that name ends.
fn measure(v: &Vec<char>) -> (r: (usize, usize))
    ensures
        r.0 == dir_len(v@),
        r.1 == dir_len(v@) + stem_len(file_name_of(v@)),
        r.0 <= r.1 <= v.len(),
{
    let start: usize = match find_last(v, 0, '/') {
        Some(k) => k + 1,
        None => 0,
    };
    assert(v@.skip(0) =~= v@);
    let end: usize = match find_last(v, start, '.') {
        Some(k) => if k > 0 {
            start + k
        } else {
            v.len()
        },
        None => v.len(),
    };
    (start, end)
}

/// The file name of `p` without its extension. It is empty for a path that
/// ends in `/`, and `.` for one that ends in `..`.
pub fn file_stem(p: &str) -> (r: String)
    ensures
        r@ == stem_of(p@),
{
    let v = to_chars(p);
    let (start, end) = measure(&v);
    let r = String::from_str(p.substring_char(start, end));
    r
}

/// Whether the extension of `p` is `ext`.
pub fn has_extension(p: &str, ext: &str) -> (r: bool)
    ensures
        r == (extension_of(p@) == Some(ext@)),
{
    let v = to_chars(p);
    let e = to_chars(ext);
    let (_start, end) = measure(&v);
    if end >= v.len() {
        return false;
    }
    let from: usize = end + 1;
    let ghost found = v@.skip(from as int);
    if v.len() - from != e.len() {
        return false;
    }
    let mut i: usize = 0;
    while i < e.len()
        invariant
            i <= e.len(),
            from + e.len() == v.len(),
            found == v@.skip(from as int),
            extension_of(p@) == Some(found),
            e@ == ext@,
            forall|j: int| 0 <= j < i ==> found[j] == e@[j],
        decreases e.len() - i,
    {
        if v[from + i] != e[i] {
            return false;
        }
        i = i + 1;
    }
    assert(found =~= e@);
    true
}

/// `p` with `ext` in place of its extension. For a path that ends in `/`
/// the extension goes after the `/` (`d/` gives `d/.qc`), and a path that
/// ends in `..` gets it like any other (`..` gives `..qc`).
pub fn with_extension(p: &str, ext: &str) -> (r: String)
    ensures
        r@ == extension_replaced(p@, ext@),
{
    let v = to_chars(p);
    let (_start, end) = measure(&v);
    let mut r = String::from_str(p.substring_char(0, end));
    if ext.unicode_len() > 0 {
        proof {
            reveal_strlit(".");
        }
        r.append(".");
        r.append(ext);
    }
    r
}

/// The directory that holds `p`: what precedes its last `/`. A closing `/`
/// is not passed over (`a/` gives `a`), and `..` is a name like any other
/// (`a/..` gives `a`).
pub fn parent(p: &str) -> (r: String)
    ensures
        r@ == parent_of(p@),
{
    let v = to_chars(p);
    assert(v@.skip(0) =~= v@);
    match find_last(&v, 0, '/') {
        Some(k) => {
            let cut: usize = if k == 0 {
                1
            } else {
                k
            };
            let r = String::from_str(p.substring_char(0, cut));
            r
        },
        None => String::new(),
    }
}

/// `rel` as seen from `dir`. Nothing is resolved: `.` and `..` stay as they
/// are written.
pub fn join(dir: &str, rel: &str) -> (r: String)
    ensures
        r@ == joined(dir@, rel@),
{
    let d = to_chars(dir);
    let l = to_chars(rel);
    if d.len() == 0 || (l.len() > 0 && l[0] == '/') {
        return String::from_str(rel);
    }
    let mut r = String::from_str(dir);
    if d[d.len() - 1] != '/' {
        proof {
            reveal_strlit("/");
        }
        r.append("/");
    }
    r.append(rel);
    r
}

/// `p` with the file name `name` in place of its own. A path that ends in
/// `/` has the empty file name (`a/` gives `a/b`); one that ends in `..`
/// has the name `..` (`a/..` gives `a/b`).
pub fn with_file_name(p: &str, name: &str) -> (r: String)
    ensures
        r@ == sibling_of(p@, name@),
{
    let v = to_chars(p);
    let (start, _end) = measure(&v);
    let mut r = String::from_str(p.substring_char(0, start));
    r.append(name);
    r
}

/// `s` with every `\` turned into `/`.
pub fn fix_backslash(s: &str) -> (r: String)
    ensures
        r@ == slashes_fixed(s@),
{
    let v = to_chars(s);
    let mut r = String::new();
    let mut i: usize = 0;
    proof {
        reveal_strlit("/");
    }
    while i < v.len()
        invariant
            i <= v.len(),
            v@ == s@,
            "/"@ == seq!['/'],
            r@ == slashes_fixed(s@.take(i as int)),
        decreases v.len() - i,
    {
        if v[i] == '\\' {
            r.append("/");
        } else {
            r.append(s.substring_char(i, i + 1));
        }
        i = i + 1;
    }
    r
}

/// Whether `s` ends in `.` and `ext`.
fn ends_with_extension(s: &Vec<char>, ext: &Vec<char>) -> (r: bool)
    ensures
        r == (seq!['.'] + ext@).is_suffix_of(s@),
{
    let ghost tail = seq!['.'] + ext@;
    if ext.len() >= s.len() {
        return false;
    }
    let from: usize = s.len() - ext.len() - 1;
    let ghost end = s@.subrange(from as int, s.len() as int);
    if s[from] != '.' {
        assert(end[0] != tail[0]);
        return false;
    }
    let mut i: usize = 0;
    while i < ext.len()
        invariant
            i <= ext.len(),
            from + 1 + ext.len() == s.len(),
            tail == seq!['.'] + ext@,
            end == s@.subrange(from as int, s.len() as int),
            tail.is_suffix_of(s@) <==> tail =~= end,
            end[0] == tail[0],
            forall|j: int| 0 <= j < i ==> s@[from + 1 + j] == ext@[j],
        decreases ext.len() - i,
    {
        if s[from + 1 + i] != ext[i] {
            assert(end[1 + i] != tail[1 + i]);
            return false;
        }
        i = i + 1;
    }
    true
}

/// `s`, with `.` and `ext` added unless it ends in them already.
pub fn maybe_add_extension_to_string(s: &str, ext: &str) -> (r: String)
    ensures
        r@ == extension_added(s@, ext@),
{
    let v = to_chars(s);
    let e = to_chars(ext);
    let mut r = String::from_str(s);
    if !ends_with_extension(&v, &e) {
        proof {
            reveal_strlit(".");
        }
        r.append(".");
        r.append(ext);
    }
    r
}

/// `path` as seen from `root`.
pub fn relative_to_less_relative(root: &str, path: &str) -> (r: String)
    ensures
        r@ == joined(root@, path@),
{
    join(root, path)
}

/// Whether no character of `s` is `c`.
pub open spec fn free_of(s: Seq<char>, c: char) -> bool {
    forall|i: int| 0 <= i < s.len() ==> s[i] != c
}

/// What the cuts of a plain path are: one made of a directory that is empty or
/// ends in `/`, a stem without `/` or `.`, a dot, and an extension without `/`
/// or `.`.
pub proof fn lemma_plain_path(dir: Seq<char>, stem: Seq<char>, ext: Seq<char>)
    requires
        dir.len() == 0 || dir.last() == '/',
        stem.len() > 0,
        free_of(stem, '/'),
        free_of(stem, '.'),
        free_of(ext, '/'),
        free_of(ext, '.'),
    ensures
        dir_len(dir + stem + seq!['.'] + ext) == dir.len(),
        file_name_of(dir + stem + seq!['.'] + ext) == stem + seq!['.'] + ext,
        stem_of(dir + stem + seq!['.'] + ext) == stem,
        extension_of(dir + stem + seq!['.'] + ext) == Some(ext),
        without_extension(dir + stem + seq!['.'] + ext) == dir + stem,
{
    let p = dir + stem + seq!['.'] + ext;
    let name = stem + seq!['.'] + ext;
    p.index_of_last_ensures('/');
    assert(dir_len(p) == dir.len()) by {
        if dir.len() > 0 {
            assert(p[dir.len() - 1] == '/');
        }
    }
    assert(file_name_of(p) =~= name);
    name.index_of_last_ensures('.');
    assert(stem_len(name) == stem.len()) by {
        assert(name[stem.len() as int] == '.');
    }
}

} // verus!
