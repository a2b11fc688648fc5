//! The transform engine: the per-file verdict vocabulary, an in-memory file
//! tree, and the recursive walk that applies a transform handler to every
//! file of the tree and says exactly what ends up at the destination.
//!
//! The engine is pure: it computes the writes (destination path and content
//! for each file, plus the empty directories to create) and leaves the
//! filesystem itself to the caller.

use vstd::prelude::*;

use crate::middleware_pipeline::PipelineContext;
use crate::strutil::spec_with_file_name;
use crate::strutil::with_file_name_str;

verus! {

/// What happens to one file: drop it, write new content, keep the content
/// under a new name, replace both, or copy it unchanged.
#[derive(Debug, PartialEq, Eq, Clone)]
pub enum FileTransformKind {
    Skip,
    Transform(String),
    Rename(String),
    Overwrite { new_content: String, new_name: String },
    NoChange,
}

/// The specification-level rendering of a verdict.
pub enum TransformVerdict {
    Skip,
    Transform(Seq<char>),
    Rename(Seq<char>),
    Overwrite { new_content: Seq<char>, new_name: Seq<char> },
    NoChange,
}

impl View for FileTransformKind {
    type V = TransformVerdict;

    open spec fn view(&self) -> TransformVerdict {
        match self {
            FileTransformKind::Skip => TransformVerdict::Skip,
            FileTransformKind::Transform(c) => TransformVerdict::Transform(c@),
            FileTransformKind::Rename(n) => TransformVerdict::Rename(n@),
            FileTransformKind::Overwrite { new_content, new_name } => TransformVerdict::Overwrite {
                new_content: new_content@,
                new_name: new_name@,
            },
            FileTransformKind::NoChange => TransformVerdict::NoChange,
        }
    }
}

/// The context handed to a transform handler for one file: where the file
/// came from, where it would be written, and its content.
#[derive(Debug, PartialEq, Eq, Clone)]
pub struct FileTransformContext {
    pub origin: String,
    pub target: String,
    pub content: String,
}

impl PipelineContext for FileTransformContext {

}

/// The specification-level rendering of a file context.
pub struct FileContextView {
    pub origin: Seq<char>,
    pub target: Seq<char>,
    pub content: Seq<char>,
}

impl View for FileTransformContext {
    type V = FileContextView;

    open spec fn view(&self) -> FileContextView {
        FileContextView { origin: self.origin@, target: self.target@, content: self.content@ }
    }
}

/// A file-tree failure.  The pure engine reports only `NotDirectory`; the
/// remaining variants carry the offending path for callers that perform
/// real reads and writes.
#[derive(Debug, PartialEq, Eq, Clone)]
pub enum FileError {
    ReadDir { path: String },
    ReadDirEntry { path: String },
    CreateDir { path: String },
    CreateFile { path: String },
    WriteFile { path: String },
    ReadFile { path: String },
    NotDirectory(String),
}

/// Something that decides a verdict for each file context.
pub trait TransformHandler: Sized {
    /// The verdict for a context with view `ctx`.
    spec fn spec_verdict(&self, ctx: FileContextView) -> TransformVerdict;

    /// Produces the verdict for one file.
    fn run(&self, ctx: FileTransformContext) -> (r: FileTransformKind)
        ensures
            r@ == self.spec_verdict(ctx@),
    ;
}

/// A handler that returns the same verdict for every file.
#[derive(Debug)]
pub struct FixedVerdict {
    pub verdict: FileTransformKind,
}

impl TransformHandler for FixedVerdict {
    open spec fn spec_verdict(&self, ctx: FileContextView) -> TransformVerdict {
        self.verdict@
    }

    fn run(&self, ctx: FileTransformContext) -> (r: FileTransformKind) {
        match &self.verdict {
            FileTransformKind::Skip => FileTransformKind::Skip,
            FileTransformKind::Transform(c) => FileTransformKind::Transform(c.clone()),
            FileTransformKind::Rename(n) => FileTransformKind::Rename(n.clone()),
            FileTransformKind::Overwrite { new_content, new_name } => FileTransformKind::Overwrite {
                new_content: new_content.clone(),
                new_name: new_name.clone(),
            },
            FileTransformKind::NoChange => FileTransformKind::NoChange,
        }
    }
}

/// The write a verdict turns into, if any: the destination path and the
/// content to put there.  `Rename` and `Overwrite` replace the final
/// component of the target path.
pub open spec fn spec_apply_verdict(
    target: Seq<char>,
    content: Seq<char>,
    v: TransformVerdict,
) -> Option<(Seq<char>, Seq<char>)> {
    match v {
        TransformVerdict::Skip => None,
        TransformVerdict::Transform(nc) => Some((target, nc)),
        TransformVerdict::Rename(nn) => Some((spec_with_file_name(target, nn), content)),
        TransformVerdict::Overwrite { new_content, new_name } => Some(
            (spec_with_file_name(target, new_name), new_content),
        ),
        TransformVerdict::NoChange => Some((target, content)),
    }
}

/// The verdict a handler (or its absence) produces for one file.
pub open spec fn spec_verdict_of<H: TransformHandler>(
    callback: Option<&H>,
    ctx: FileContextView,
) -> TransformVerdict {
    match callback {
        Some(h) => h.spec_verdict(ctx),
        None => TransformVerdict::NoChange,
    }
}

/// The write that transforming one file produces, if any.
pub open spec fn spec_copy_one<H: TransformHandler>(
    callback: Option<&H>,
    origin: Seq<char>,
    target: Seq<char>,
    content: Seq<char>,
) -> Option<(Seq<char>, Seq<char>)> {
    spec_apply_verdict(
        target,
        content,
        spec_verdict_of(callback, FileContextView { origin, target, content }),
    )
}

/// Transforms a single file: runs the handler on the file's context and
/// applies its verdict.  Returns the write to perform, or `None` when the
/// file is skipped.
pub fn copy_with_transform<H: TransformHandler>(
    origin: &String,
    target: &String,
    content: &String,
    callback: Option<&H>,
) -> (r: Option<(String, String)>)
    ensures
        match r {
            Some(w) => spec_copy_one(callback, origin@, target@, content@) == Some((w.0@, w.1@)),
            None => spec_copy_one(callback, origin@, target@, content@) is None,
        },
{
    let verdict = match callback {
        Some(h) => h.run(
            FileTransformContext {
                origin: origin.clone(),
                target: target.clone(),
                content: content.clone(),
            },
        ),
        None => FileTransformKind::NoChange,
    };
    match verdict {
        FileTransformKind::Skip => None,
        FileTransformKind::Transform(nc) => Some((target.clone(), nc)),
        FileTransformKind::Rename(nn) => Some(
            (with_file_name_str(target.as_str(), nn.as_str()), content.clone()),
        ),
        FileTransformKind::Overwrite { new_content, new_name } => Some(
            (with_file_name_str(target.as_str(), new_name.as_str()), new_content),
        ),
        FileTransformKind::NoChange => Some((target.clone(), content.clone())),
    }
}

/// An in-memory file tree: a file with its text content, or a directory
/// with its entries in walk order.
pub enum FsNode {
    File { content: String },
    Dir { entries: Vec<(String, FsNode)> },
}

/// The number of files in the tree.
pub open spec fn spec_file_count(n: FsNode) -> nat
    decreases n,
{
    match n {
        FsNode::File { .. } => 1,
        FsNode::Dir { entries } => spec_file_count_entries(entries@),
    }
}

/// The number of files under a sequence of directory entries.
pub open spec fn spec_file_count_entries(es: Seq<(String, FsNode)>) -> nat
    decreases es,
{
    if es.len() == 0 {
        0
    } else {
        spec_file_count(es[0].1) + spec_file_count_entries(es.drop_first())
    }
}

/// Counts the files of the tree.
pub fn pre_count_files(node: &FsNode) -> (r: usize)
    requires
        spec_file_count(*node) <= usize::MAX,
    ensures
        r == spec_file_count(*node),
    decreases *node,
{
    match node {
        FsNode::File { .. } => 1,
        FsNode::Dir { entries } => count_files_entries(entries),
    }
}

/// Counts the files under a list of directory entries.
fn count_files_entries(entries: &Vec<(String, FsNode)>) -> (r: usize)
    requires
        spec_file_count_entries(entries@) <= usize::MAX,
    ensures
        r == spec_file_count_entries(entries@),
    decreases entries@,
{
    let mut sum: usize = 0;
    let mut i: usize = 0;
    proof {
        assert(entries@.skip(0) =~= entries@);
    }
    while i < entries.len()
        invariant
            i <= entries@.len(),
            spec_file_count_entries(entries@) <= usize::MAX,
            sum + spec_file_count_entries(entries@.skip(i as int)) == spec_file_count_entries(
                entries@,
            ),
        decreases entries@.len() - i,
    {
        proof {
            assert(entries@.skip(i as int)[0] == entries@[i as int]);
            assert(entries@.skip(i as int).drop_first() =~= entries@.skip(i as int + 1));
        }
        let c = pre_count_files(&entries[i].1);
        sum = sum + c;
        i = i + 1;
    }
    proof {
        assert(entries@.skip(entries@.len() as int).len() == 0);
    }
    sum
}

/// What one walk step produces: the files written (destination path and
/// content, in walk order) and the empty directories created.
pub struct WalkYield {
    pub files: Seq<(Seq<char>, Seq<char>)>,
    pub dirs: Seq<Seq<char>>,
}

/// The writes that walking `node` produces.  A file yields the write its
/// verdict dictates; an empty directory yields its own creation; any other
/// directory yields whatever its entries yield, in order, with the entry
/// name appended to both the origin and the target path.
pub open spec fn spec_walk_node<H: TransformHandler>(
    callback: Option<&H>,
    origin: Seq<char>,
    target: Seq<char>,
    node: FsNode,
) -> WalkYield
    decreases node,
{
    match node {
        FsNode::File { content } => {
            match spec_copy_one(callback, origin, target, content@) {
                Some(w) => WalkYield { files: seq![w], dirs: Seq::empty() },
                None => WalkYield { files: Seq::empty(), dirs: Seq::empty() },
            }
        },
        FsNode::Dir { entries } => {
            if entries@.len() == 0 {
                WalkYield { files: Seq::empty(), dirs: seq![target] }
            } else {
                spec_walk_entries(callback, origin, target, entries@)
            }
        },
    }
}

/// The writes that walking a list of directory entries produces.
pub open spec fn spec_walk_entries<H: TransformHandler>(
    callback: Option<&H>,
    origin: Seq<char>,
    target: Seq<char>,
    es: Seq<(String, FsNode)>,
) -> WalkYield
    decreases es,
{
    if es.len() == 0 {
        WalkYield { files: Seq::empty(), dirs: Seq::empty() }
    } else {
        let name = es[0].0@;
        let sub = spec_walk_node(callback, origin + "/"@ + name, target + "/"@ + name, es[0].1);
        let rest = spec_walk_entries(callback, origin, target, es.drop_first());
        WalkYield { files: sub.files + rest.files, dirs: sub.dirs + rest.dirs }
    }
}

/// Walks one node, collecting the writes.
fn walk_node<H: TransformHandler>(
    callback: Option<&H>,
    origin: &String,
    target: &String,
    node: &FsNode,
) -> (r: (Vec<(String, String)>, Vec<String>))
    ensures
        r.0@.map_values(|w: (String, String)| (w.0@, w.1@)) == spec_walk_node(
            callback,
            origin@,
            target@,
            *node,
        ).files,
        r.1@.map_values(|d: String| d@) == spec_walk_node(callback, origin@, target@, *node).dirs,
    decreases *node,
{
    match node {
        FsNode::File { content } => {
            let mut files: Vec<(String, String)> = Vec::new();
            let dirs: Vec<String> = Vec::new();
            match copy_with_transform(origin, target, content, callback) {
                Some(w) => {
                    files.push(w);
                },
                None => {},
            }
            proof {
                assert(files@.map_values(|w: (String, String)| (w.0@, w.1@)) =~= spec_walk_node(
                    callback,
                    origin@,
                    target@,
                    *node,
                ).files);
                assert(dirs@.map_values(|d: String| d@) =~= spec_walk_node(
                    callback,
                    origin@,
                    target@,
                    *node,
                ).dirs);
            }
            (files, dirs)
        },
        FsNode::Dir { entries } => {
            if entries.len() == 0 {
                let files: Vec<(String, String)> = Vec::new();
                let mut dirs: Vec<String> = Vec::new();
                dirs.push(target.clone());
                proof {
                    assert(files@.map_values(|w: (String, String)| (w.0@, w.1@)) =~= spec_walk_node(
                        callback,
                        origin@,
                        target@,
                        *node,
                    ).files);
                    assert(dirs@.map_values(|d: String| d@) =~= spec_walk_node(
                        callback,
                        origin@,
                        target@,
                        *node,
                    ).dirs);
                }
                (files, dirs)
            } else {
                walk_entries(callback, origin, target, entries)
            }
        },
    }
}

/// Walks a list of directory entries, collecting the writes.
fn walk_entries<H: TransformHandler>(
    callback: Option<&H>,
    origin: &String,
    target: &String,
    entries: &Vec<(String, FsNode)>,
) -> (r: (Vec<(String, String)>, Vec<String>))
    ensures
        r.0@.map_values(|w: (String, String)| (w.0@, w.1@)) == spec_walk_entries(
            callback,
            origin@,
            target@,
            entries@,
        ).files,
        r.1@.map_values(|d: String| d@) == spec_walk_entries(
            callback,
            origin@,
            target@,
            entries@,
        ).dirs,
    decreases entries@,
{
    let mut files: Vec<(String, String)> = Vec::new();
    let mut dirs: Vec<String> = Vec::new();
    let mut i: usize = 0;
    proof {
        assert(entries@.skip(0) =~= entries@);
    }
    while i < entries.len()
        invariant
            i <= entries@.len(),
            spec_walk_entries(callback, origin@, target@, entries@).files == files@.map_values(
                |w: (String, String)| (w.0@, w.1@),
            ) + spec_walk_entries(callback, origin@, target@, entries@.skip(i as int)).files,
            spec_walk_entries(callback, origin@, target@, entries@).dirs == dirs@.map_values(
                |d: String| d@,
            ) + spec_walk_entries(callback, origin@, target@, entries@.skip(i as int)).dirs,
        decreases entries@.len() - i,
    {
        proof {
            assert(entries@.skip(i as int)[0] == entries@[i as int]);
            assert(entries@.skip(i as int).drop_first() =~= entries@.skip(i as int + 1));
        }
        let name = &entries[i].0;
        let mut co = origin.clone();
        co.append("/");
        co.append(name.as_str());
        let mut ct = target.clone();
        ct.append("/");
        ct.append(name.as_str());
        let (mut cf, mut cd) = walk_node(callback, &co, &ct, &entries[i].1);
        let ghost old_files = files@;
        let ghost old_dirs = dirs@;
        let ghost cfv = cf@;
        let ghost cdv = cd@;
        files.append(&mut cf);
        dirs.append(&mut cd);
        proof {
            let f = |w: (String, String)| (w.0@, w.1@);
            let g = |d: String| d@;
            assert(files@.map_values(f) =~= old_files.map_values(f) + cfv.map_values(f));
            assert(dirs@.map_values(g) =~= old_dirs.map_values(g) + cdv.map_values(g));
            assert(spec_walk_entries(callback, origin@, target@, entries@).files =~= files@
                .map_values(f) + spec_walk_entries(
                callback,
                origin@,
                target@,
                entries@.skip(i as int + 1),
            ).files);
            assert(spec_walk_entries(callback, origin@, target@, entries@).dirs =~= dirs@
                .map_values(g) + spec_walk_entries(
                callback,
                origin@,
                target@,
                entries@.skip(i as int + 1),
            ).dirs);
        }
        i = i + 1;
    }
    proof {
        assert(entries@.skip(entries@.len() as int).len() == 0);
        let f = |w: (String, String)| (w.0@, w.1@);
        let g = |d: String| d@;
        assert(files@.map_values(f) =~= files@.map_values(f) + spec_walk_entries(
            callback,
            origin@,
            target@,
            entries@.skip(entries@.len() as int),
        ).files);
        assert(dirs@.map_values(g) =~= dirs@.map_values(g) + spec_walk_entries(
            callback,
            origin@,
            target@,
            entries@.skip(entries@.len() as int),
        ).dirs);
    }
    (files, dirs)
}

/// Everything one transform run produced: the files written in walk order,
/// the empty directories created, and the number of files written.
#[derive(Debug)]
pub struct TransformOutput {
    pub files: Vec<(String, String)>,
    pub dirs: Vec<String>,
    pub count: usize,
}

/// Transforms a whole tree.  The root must be a directory; otherwise the
/// walk fails before producing any write.  On success the output lists
/// every write the verdicts dictated, in walk order, and `count` is the
/// number of files written.
pub fn copy_directory_with_transform<H: TransformHandler>(
    origin: &String,
    target: &String,
    node: &FsNode,
    callback: Option<&H>,
) -> (r: Result<TransformOutput, FileError>)
    ensures
        node is Dir ==> (r matches Ok(out) && {
            &&& out.files@.map_values(|w: (String, String)| (w.0@, w.1@)) == spec_walk_node(
                callback,
                origin@,
                target@,
                *node,
            ).files
            &&& out.dirs@.map_values(|d: String| d@) == spec_walk_node(
                callback,
                origin@,
                target@,
                *node,
            ).dirs
            &&& out.count == out.files@.len()
        }),
        node is File ==> (r matches Err(e) && e matches FileError::NotDirectory(p) && p@
            == origin@),
{
    match node {
        FsNode::File { .. } => Err(FileError::NotDirectory(origin.clone())),
        FsNode::Dir { .. } => {
            let (files, dirs) = walk_node(callback, origin, target, node);
            let count = files.len();
            Ok(TransformOutput { files, dirs, count })
        },
    }
}

/// The faithful rendering of a source tree under a destination root: every
/// file keeps its relative path and content, and every empty directory is
/// recreated.
pub open spec fn spec_tree_render(target: Seq<char>, node: FsNode) -> WalkYield
    decreases node,
{
    match node {
        FsNode::File { content } => WalkYield { files: seq![(target, content@)], dirs: Seq::empty() },
        FsNode::Dir { entries } => {
            if entries@.len() == 0 {
                WalkYield { files: Seq::empty(), dirs: seq![target] }
            } else {
                spec_tree_render_entries(target, entries@)
            }
        },
    }
}

/// The faithful rendering of a list of directory entries.
pub open spec fn spec_tree_render_entries(target: Seq<char>, es: Seq<(String, FsNode)>) -> WalkYield
    decreases es,
{
    if es.len() == 0 {
        WalkYield { files: Seq::empty(), dirs: Seq::empty() }
    } else {
        let name = es[0].0@;
        let sub = spec_tree_render(target + "/"@ + name, es[0].1);
        let rest = spec_tree_render_entries(target, es.drop_first());
        WalkYield { files: sub.files + rest.files, dirs: sub.dirs + rest.dirs }
    }
}

/// Round trip: walking a tree with no handler (every verdict `NoChange`)
/// reproduces the source tree at the destination byte for byte, empty
/// subdirectories included.
pub proof fn lemma_no_change_round_trip<H: TransformHandler>(
    origin: Seq<char>,
    target: Seq<char>,
    node: FsNode,
)
    ensures
        spec_walk_node::<H>(None, origin, target, node) == spec_tree_render(target, node),
    decreases node,
{
    match node {
        FsNode::File { content } => {},
        FsNode::Dir { entries } => {
            if entries@.len() > 0 {
                lemma_no_change_round_trip_entries::<H>(origin, target, entries@);
            }
        },
    }
}

/// Round trip, for a list of directory entries.
pub proof fn lemma_no_change_round_trip_entries<H: TransformHandler>(
    origin: Seq<char>,
    target: Seq<char>,
    es: Seq<(String, FsNode)>,
)
    ensures
        spec_walk_entries::<H>(None, origin, target, es) == spec_tree_render_entries(target, es),
    decreases es,
{
    if es.len() > 0 {
        let name = es[0].0@;
        lemma_no_change_round_trip::<H>(origin + "/"@ + name, target + "/"@ + name, es[0].1);
        lemma_no_change_round_trip_entries::<H>(origin, target, es.drop_first());
    }
}

/// A handler that skips every file produces no write at all: the
/// destination holds no files, whatever the tree.
pub proof fn lemma_skip_all_writes_nothing<H: TransformHandler>(
    h: &H,
    origin: Seq<char>,
    target: Seq<char>,
    node: FsNode,
)
    requires
        forall|ctx: FileContextView| #[trigger] h.spec_verdict(ctx) == TransformVerdict::Skip,
    ensures
        spec_walk_node(Some(h), origin, target, node).files == Seq::<(Seq<char>, Seq<char>)>::empty(),
    decreases node,
{
    match node {
        FsNode::File { content } => {},
        FsNode::Dir { entries } => {
            if entries@.len() > 0 {
                lemma_skip_all_writes_nothing_entries(h, origin, target, entries@);
            }
        },
    }
}

/// Skip-everything, for a list of directory entries.
pub proof fn lemma_skip_all_writes_nothing_entries<H: TransformHandler>(
    h: &H,
    origin: Seq<char>,
    target: Seq<char>,
    es: Seq<(String, FsNode)>,
)
    requires
        forall|ctx: FileContextView| #[trigger] h.spec_verdict(ctx) == TransformVerdict::Skip,
    ensures
        spec_walk_entries(Some(h), origin, target, es).files == Seq::<(Seq<char>, Seq<char>)>::empty(),
    decreases es,
{
    if es.len() > 0 {
        let name = es[0].0@;
        lemma_skip_all_writes_nothing(h, origin + "/"@ + name, target + "/"@ + name, es[0].1);
        lemma_skip_all_writes_nothing_entries(h, origin, target, es.drop_first());
        assert(spec_walk_entries(Some(h), origin, target, es).files =~= Seq::<
            (Seq<char>, Seq<char>),
        >::empty());
    }
}

} // verus!
