//! The model descriptor and what a conversion makes of it: which mesh files
//! it links, what the converted meshes are called, and the descriptor that
//! names them.

use crate::path::{
    extension_added, file_stem, fix_backslash, join, joined, maybe_add_extension_to_string,
    relative_to_less_relative, sibling_of, slashes_fixed, stem_of, with_file_name,
};
use crate::s2g::constants::{
    BODY_NAME, GOLDSRC_SUFFIX, IDLE_SEQUENCE, MDL_EXTENSION, SMD_EXTENSION,
};
use crate::text::{decimal, decimal_string, lemma_texts_push, texts};
use vstd::prelude::*;

verus! {

/// A static mesh of the model: its name and the mesh file.
#[derive(Debug)]
pub struct Body {
    pub name: String,
    pub mesh: String,
}

/// An animation of the model: its name and the file with the skeleton's
/// motion.
#[derive(Debug)]
pub struct Sequence {
    pub name: String,
    pub skeletal: String,
}

/// A group of bodies of which the model shows one at a time. A group has
/// at least one body, `first`; `alternates` are the others, in order.
#[derive(Debug)]
pub struct BodyGroup {
    pub name: String,
    pub first: Body,
    pub alternates: Vec<Body>,
}

/// One command of a descriptor.
#[derive(Debug)]
pub enum Entry {
    Body(Body),
    Sequence(Sequence),
    BodyGroup(BodyGroup),
}

/// A model descriptor: its commands in the order they were declared, and
/// the name of the model to compile, once set.
#[derive(Debug)]
pub struct ModelDescriptor {
    pub commands: Vec<Entry>,
    pub model_name: Option<String>,
}

/// A body as a value of specifications.
pub struct BodyView {
    pub name: Seq<char>,
    pub mesh: Seq<char>,
}

/// An animation as a value of specifications.
pub struct SequenceView {
    pub name: Seq<char>,
    pub skeletal: Seq<char>,
}

/// A group of bodies as a value of specifications.
pub struct BodyGroupView {
    pub name: Seq<char>,
    pub first: BodyView,
    pub alternates: Seq<BodyView>,
}

/// A command as a value of specifications.
pub enum EntryView {
    Body(BodyView),
    Sequence(SequenceView),
    BodyGroup(BodyGroupView),
}

/// A descriptor as a value of specifications.
pub struct DescriptorView {
    pub commands: Seq<EntryView>,
    pub model_name: Option<Seq<char>>,
}

impl View for Body {
    type V = BodyView;

    open spec fn view(&self) -> BodyView {
        BodyView { name: self.name@, mesh: self.mesh@ }
    }
}

impl View for Sequence {
    type V = SequenceView;

    open spec fn view(&self) -> SequenceView {
        SequenceView { name: self.name@, skeletal: self.skeletal@ }
    }
}

impl View for BodyGroup {
    type V = BodyGroupView;

    open spec fn view(&self) -> BodyGroupView {
        BodyGroupView {
            name: self.name@,
            first: self.first@,
            alternates: self.alternates@.map_values(|b: Body| b@),
        }
    }
}

impl View for Entry {
    type V = EntryView;

    open spec fn view(&self) -> EntryView {
        match self {
            Entry::Body(body) => EntryView::Body(body@),
            Entry::Sequence(sequence) => EntryView::Sequence(sequence@),
            Entry::BodyGroup(group) => EntryView::BodyGroup(group@),
        }
    }
}

/// The commands of a list, in order.
pub open spec fn entries(v: Seq<Entry>) -> Seq<EntryView> {
    v.map_values(|e: Entry| e@)
}

impl View for ModelDescriptor {
    type V = DescriptorView;

    open spec fn view(&self) -> DescriptorView {
        DescriptorView {
            commands: entries(self.commands@),
            model_name: match self.model_name {
                Some(name) => Some(name@),
                None => None,
            },
        }
    }
}

/// The descriptor without commands or model name.
pub open spec fn blank() -> DescriptorView {
    DescriptorView { commands: Seq::empty(), model_name: None }
}

impl ModelDescriptor {
    /// A descriptor without commands or model name.
    pub fn new() -> (d: ModelDescriptor)
        ensures
            d@ == blank(),
    {
        let d = ModelDescriptor { commands: Vec::new(), model_name: None };
        assert(d@.commands =~= Seq::empty());
        d
    }

    /// Declares, after the commands so far, the body `name` with the mesh
    /// file `mesh`.
    pub fn add_body(&mut self, name: &str, mesh: &str) -> (ret: &mut Self)
        ensures
            ret@ == (DescriptorView {
                commands: old(self)@.commands.push(
                    EntryView::Body(BodyView { name: name@, mesh: mesh@ }),
                ),
                ..old(self)@
            }),
            *final(self) == *final(ret),
    {
        let entry = Entry::Body(Body { name: String::from_str(name), mesh: String::from_str(mesh) });
        assert(entries(self.commands@.push(entry)) =~= entries(self.commands@).push(entry@));
        self.commands.push(entry);
        self
    }

    /// Declares, after the commands so far, the animation `name` with the
    /// motion file `skeletal`.
    pub fn add_sequence(&mut self, name: &str, skeletal: &str) -> (ret: &mut Self)
        ensures
            ret@ == (DescriptorView {
                commands: old(self)@.commands.push(
                    EntryView::Sequence(SequenceView { name: name@, skeletal: skeletal@ }),
                ),
                ..old(self)@
            }),
            *final(self) == *final(ret),
    {
        let entry = Entry::Sequence(
            Sequence { name: String::from_str(name), skeletal: String::from_str(skeletal) },
        );
        assert(entries(self.commands@.push(entry)) =~= entries(self.commands@).push(entry@));
        self.commands.push(entry);
        self
    }

    /// Names the model to compile.
    pub fn set_model_name(&mut self, name: &str) -> (ret: &mut Self)
        ensures
            ret@ == (DescriptorView { model_name: Some(name@), ..old(self)@ }),
            *final(self) == *final(ret),
    {
        self.model_name = Some(String::from_str(name));
        self
    }
}

/// A mesh file that a descriptor links: the name of the command that links
/// it, whether that command declares a body (or else an animation), the
/// file as the descriptor names it, with `/` and its extension, and the
/// file as seen from outside the descriptor's directory.
#[derive(Debug)]
pub struct LinkedMesh {
    pub name: String,
    pub is_body: bool,
    pub path: String,
    pub file: String,
}

/// A linked mesh as a value of specifications.
pub struct LinkView {
    pub name: Seq<char>,
    pub is_body: bool,
    pub path: Seq<char>,
    pub file: Seq<char>,
}

impl View for LinkedMesh {
    type V = LinkView;

    open spec fn view(&self) -> LinkView {
        LinkView { name: self.name@, is_body: self.is_body, path: self.path@, file: self.file@ }
    }
}

/// The linked meshes of a list, in order.
pub open spec fn links(v: Seq<LinkedMesh>) -> Seq<LinkView> {
    v.map_values(|l: LinkedMesh| l@)
}

/// The files of the linked meshes, in order.
pub open spec fn files_of(v: Seq<LinkView>) -> Seq<Seq<char>> {
    v.map_values(|l: LinkView| l.file)
}

/// A mesh reference as the conversion reads it: with the mesh extension,
/// unless it is there, and with `/` for `\`.
pub open spec fn normalized(reference: Seq<char>) -> Seq<char> {
    slashes_fixed(extension_added(reference, SMD_EXTENSION@))
}

/// The mesh that one command links, for a descriptor in the directory
/// `root`. A body links its mesh and an animation its motion file; a group
/// of bodies links the mesh of its first body and no other.
pub open spec fn link_of(root: Seq<char>, entry: EntryView) -> LinkView {
    match entry {
        EntryView::Body(body) => LinkView {
            name: body.name,
            is_body: true,
            path: normalized(body.mesh),
            file: joined(root, normalized(body.mesh)),
        },
        EntryView::Sequence(sequence) => LinkView {
            name: sequence.name,
            is_body: false,
            path: normalized(sequence.skeletal),
            file: joined(root, normalized(sequence.skeletal)),
        },
        EntryView::BodyGroup(group) => LinkView {
            name: group.first.name,
            is_body: true,
            path: normalized(group.first.mesh),
            file: joined(root, normalized(group.first.mesh)),
        },
    }
}

/// The meshes that a descriptor in the directory `root` links: one for each
/// command, in the order of the commands.
pub open spec fn links_of(root: Seq<char>, descriptor: DescriptorView) -> Seq<LinkView> {
    descriptor.commands.map_values(|e: EntryView| link_of(root, e))
}

fn link(root: &str, name: &String, reference: &String, is_body: bool) -> (l: LinkedMesh)
    ensures
        l@ == (LinkView {
            name: name@,
            is_body,
            path: normalized(reference@),
            file: joined(root@, normalized(reference@)),
        }),
{
    let with_extension = maybe_add_extension_to_string(reference.as_str(), SMD_EXTENSION);
    let path = fix_backslash(with_extension.as_str());
    let file = relative_to_less_relative(root, path.as_str());
    LinkedMesh { name: name.clone(), is_body, path, file }
}

/// The meshes that the descriptor `qc` in the directory `root` links, in
/// the order of its commands.
pub fn find_linked_smd_path(root: &str, qc: &ModelDescriptor) -> (r: Vec<LinkedMesh>)
    ensures
        links(r@) == links_of(root@, qc@),
{
    let mut r: Vec<LinkedMesh> = Vec::new();
    let mut i: usize = 0;
    while i < qc.commands.len()
        invariant
            i <= qc.commands.len(),
            links(r@) == links_of(root@, qc@).take(i as int),
        decreases qc.commands.len() - i,
    {
        let l = match &qc.commands[i] {
            Entry::Body(body) => link(root, &body.name, &body.mesh, true),
            Entry::Sequence(sequence) => link(root, &sequence.name, &sequence.skeletal, false),
            Entry::BodyGroup(group) => link(root, &group.first.name, &group.first.mesh, true),
        };
        assert(links(r@.push(l)) =~= links(r@).push(l@));
        r.push(l);
        i = i + 1;
    }
    r
}

/// The files of the linked meshes, in order.
pub fn link_files(found: &Vec<LinkedMesh>) -> (r: Vec<String>)
    ensures
        texts(r@) == files_of(links(found@)),
{
    let mut r: Vec<String> = Vec::new();
    let mut i: usize = 0;
    while i < found.len()
        invariant
            i <= found.len(),
            texts(r@) == files_of(links(found@)).take(i as int),
        decreases found.len() - i,
    {
        let file = found[i].file.clone();
        proof {
            lemma_texts_push(r@, file);
            assert(files_of(links(found@)).take(i + 1) =~= files_of(links(found@)).take(
                i as int,
            ).push(file@));
        }
        r.push(file);
        i = i + 1;
    }
    r
}

/// The file beside `path` that the conversion makes from it: the stem of
/// `path`, the mark of the conversion, `tag`, a dot and `ext`.
pub open spec fn goldsrc_name(path: Seq<char>, tag: Seq<char>, ext: Seq<char>) -> Seq<char> {
    sibling_of(path, stem_of(path) + GOLDSRC_SUFFIX@ + tag + seq!['.'] + ext)
}

/// The file beside `path` that the conversion makes from it.
pub fn goldsrc_path(path: &str, tag: &str, ext: &str) -> (r: String)
    ensures
        r@ == goldsrc_name(path@, tag@, ext@),
{
    let mut name = file_stem(path);
    name.append(GOLDSRC_SUFFIX);
    name.append(tag);
    proof {
        reveal_strlit(".");
    }
    name.append(".");
    name.append(ext);
    with_file_name(path, name.as_str())
}

/// One converted mesh to write: piece `piece` of what linked mesh `mesh`
/// became, whether it is a body, the file as the new descriptor names it,
/// and the file to write.
#[derive(Debug)]
pub struct MeshWrite {
    pub mesh: usize,
    pub piece: usize,
    pub is_body: bool,
    pub name: String,
    pub file: String,
}

/// A mesh to write as a value of specifications.
pub struct WriteView {
    pub mesh: nat,
    pub piece: nat,
    pub is_body: bool,
    pub name: Seq<char>,
    pub file: Seq<char>,
}

impl View for MeshWrite {
    type V = WriteView;

    open spec fn view(&self) -> WriteView {
        WriteView {
            mesh: self.mesh as nat,
            piece: self.piece as nat,
            is_body: self.is_body,
            name: self.name@,
            file: self.file@,
        }
    }
}

/// The meshes to write of a list, in order.
pub open spec fn writes(v: Seq<MeshWrite>) -> Seq<WriteView> {
    v.map_values(|w: MeshWrite| w@)
}

/// What a converted piece is called in the new descriptor. Piece `piece`
/// of a body `foo.smd` is `foo_goldsrc` with `piece` in base ten and
/// `.smd`; an animation `bar.smd` is `bar_goldsrc.smd`.
pub open spec fn piece_name(link: LinkView, piece: nat) -> Seq<char> {
    if link.is_body {
        goldsrc_name(link.path, decimal(piece), SMD_EXTENSION@)
    } else {
        goldsrc_name(link.path, Seq::empty(), SMD_EXTENSION@)
    }
}

/// How many of the `count` pieces that a linked mesh became are kept: all
/// of a body, the first of an animation.
pub open spec fn pieces_kept(link: LinkView, count: nat) -> nat {
    if link.is_body || count == 0 {
        count
    } else {
        1
    }
}

/// The write of piece `piece` of linked mesh `mesh`, for a descriptor in
/// the directory `root`.
pub open spec fn write_of(root: Seq<char>, link: LinkView, mesh: nat, piece: nat) -> WriteView {
    WriteView {
        mesh,
        piece,
        is_body: link.is_body,
        name: piece_name(link, piece),
        file: joined(root, piece_name(link, piece)),
    }
}

/// The writes for one linked mesh that became `count` pieces, in the order
/// of the pieces.
pub open spec fn writes_of_link(root: Seq<char>, link: LinkView, mesh: nat, count: nat) -> Seq<
    WriteView,
> {
    Seq::new(pieces_kept(link, count), |i: int| write_of(root, link, mesh, i as nat))
}

/// The writes for the linked meshes of a descriptor in the directory
/// `root`, where mesh `j` became `counts[j]` pieces: those of the first
/// mesh, then those of the second, and so on.
pub open spec fn writes_of(root: Seq<char>, links: Seq<LinkView>, counts: Seq<usize>) -> Seq<
    WriteView,
> {
    Seq::new(
        links.len(),
        |j: int| writes_of_link(root, links[j], j as nat, counts[j] as nat),
    ).flatten()
}

/// The command that registers a written mesh in the new descriptor: a body
/// called `studio` and the number of its piece, or an animation called
/// `idle`.
pub open spec fn entry_of(write: WriteView) -> EntryView {
    if write.is_body {
        EntryView::Body(BodyView { name: BODY_NAME@ + decimal(write.piece), mesh: write.name })
    } else {
        EntryView::Sequence(SequenceView { name: IDLE_SEQUENCE@, skeletal: write.name })
    }
}

/// The mesh file that a command names; for a group of bodies, that of its
/// first body.
pub open spec fn mesh_named(entry: EntryView) -> Seq<char> {
    match entry {
        EntryView::Body(body) => body.mesh,
        EntryView::Sequence(sequence) => sequence.skeletal,
        EntryView::BodyGroup(group) => group.first.mesh,
    }
}

/// The descriptor that the conversion makes of the descriptor at `path`:
/// one command for each mesh written, in that order, and the name of the
/// model to compile, which is the descriptor's own with the mark of the
/// conversion.
pub open spec fn converted(path: Seq<char>, meshes: Seq<WriteView>) -> DescriptorView {
    DescriptorView {
        commands: meshes.map_values(|w: WriteView| entry_of(w)),
        model_name: Some(goldsrc_name(path, Seq::empty(), MDL_EXTENSION@)),
    }
}

fn plan_write(root: &str, link: &LinkedMesh, mesh: usize, piece: usize) -> (w: MeshWrite)
    ensures
        w@ == write_of(root@, link@, mesh as nat, piece as nat),
{
    let name = if link.is_body {
        let tag = decimal_string(piece);
        goldsrc_path(link.path.as_str(), tag.as_str(), SMD_EXTENSION)
    } else {
        let r = goldsrc_path(link.path.as_str(), "", SMD_EXTENSION);
        proof {
            reveal_strlit("");
        }
        r
    };
    let file = join(root, name.as_str());
    MeshWrite { mesh, piece, is_body: link.is_body, name, file }
}

/// The meshes to write for the linked meshes `found` of a descriptor in
/// the directory `root`, where mesh `j` became `counts[j]` pieces.
pub fn plan_writes(root: &str, found: &Vec<LinkedMesh>, counts: &Vec<usize>) -> (r: Vec<
    MeshWrite,
>)
    requires
        counts.len() == found.len(),
    ensures
        writes(r@) == writes_of(root@, links(found@), counts@),
{
    let ghost parts = Seq::new(
        links(found@).len(),
        |j: int| writes_of_link(root@, links(found@)[j], j as nat, counts@[j] as nat),
    );
    let mut r: Vec<MeshWrite> = Vec::new();
    let mut j: usize = 0;
    while j < found.len()
        invariant
            j <= found.len(),
            counts.len() == found.len(),
            parts == Seq::new(
                links(found@).len(),
                |j: int| writes_of_link(root@, links(found@)[j], j as nat, counts@[j] as nat),
            ),
            writes(r@) == parts.take(j as int).flatten(),
        decreases found.len() - j,
    {
        let item = &found[j];
        let kept: usize = if item.is_body || counts[j] == 0 {
            counts[j]
        } else {
            1
        };
        let ghost done = writes(r@);
        let ghost part = parts[j as int];
        let mut i: usize = 0;
        while i < kept
            invariant
                i <= kept,
                j < found.len(),
                *item == found@[j as int],
                kept == pieces_kept(item@, counts@[j as int] as nat),
                part == writes_of_link(root@, item@, j as nat, counts@[j as int] as nat),
                writes(r@) == done + part.take(i as int),
            decreases kept - i,
        {
            let w = plan_write(root, item, j, i);
            r.push(w);
            i = i + 1;
            assert(done + part.take(i as int) =~= (done + part.take(i - 1)).push(part[i - 1]));
        }
        proof {
            parts.take(j as int).lemma_flatten_push(part);
            assert(parts.take(j + 1) =~= parts.take(j as int).push(part));
        }
        j = j + 1;
    }
    assert(parts.take(found.len() as int) =~= parts);
    r
}

/// The descriptor that the conversion makes of the descriptor at `path`,
/// with one command for each mesh of `meshes`.
pub fn convert_descriptor(path: &str, meshes: &Vec<MeshWrite>) -> (d: ModelDescriptor)
    ensures
        d@ == converted(path@, writes(meshes@)),
{
    let mut d = ModelDescriptor::new();
    let ghost wanted = writes(meshes@).map_values(|w: WriteView| entry_of(w));
    let mut i: usize = 0;
    while i < meshes.len()
        invariant
            i <= meshes.len(),
            wanted == writes(meshes@).map_values(|w: WriteView| entry_of(w)),
            d@.commands == wanted.take(i as int),
            d@.model_name is None,
        decreases meshes.len() - i,
    {
        let w = &meshes[i];
        if w.is_body {
            let mut name = String::from_str(BODY_NAME);
            let number = decimal_string(w.piece);
            name.append(number.as_str());
            d.add_body(name.as_str(), w.name.as_str());
        } else {
            d.add_sequence(IDLE_SEQUENCE, w.name.as_str());
        }
        i = i + 1;
    }
    assert(wanted.take(meshes.len() as int) =~= wanted);
    let model = goldsrc_path(path, "", MDL_EXTENSION);
    proof {
        reveal_strlit("");
    }
    d.set_model_name(model.as_str());
    d
}

} // verus!
