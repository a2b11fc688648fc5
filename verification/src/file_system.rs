//! The command-line layer's view of the transform engine: its own verdict
//! vocabulary and per-file and per-tree copy entry points, delegating to
//! the engine.

use vstd::prelude::*;

use crate::transform::{
    copy_directory_with_transform, copy_with_transform, spec_copy_one, spec_walk_node, FileError,
    FsNode, TransformHandler, TransformOutput, TransformVerdict,
};

verus! {

/// What happens to one file: drop it, write replaced content, keep the
/// content under a new name, replace both, or copy it unchanged.
#[derive(Debug, PartialEq, Eq, Clone)]
pub enum FileTransformKind {
    Skip,
    Replace(String),
    Rename(String),
    Overwrite { new_content: String, new_name: String },
    NoChange,
}

impl View for FileTransformKind {
    type V = TransformVerdict;

    open spec fn view(&self) -> TransformVerdict {
        match self {
            FileTransformKind::Skip => TransformVerdict::Skip,
            FileTransformKind::Replace(c) => TransformVerdict::Transform(c@),
            FileTransformKind::Rename(n) => TransformVerdict::Rename(n@),
            FileTransformKind::Overwrite { new_content, new_name } => TransformVerdict::Overwrite {
                new_content: new_content@,
                new_name: new_name@,
            },
            FileTransformKind::NoChange => TransformVerdict::NoChange,
        }
    }
}

/// Copies a single file through a handler: the write to perform, or `None`
/// when the file is skipped.
pub fn copy_with_replace<H: TransformHandler>(
    origin: &String,
    target: &String,
    content: &String,
    callback: Option<&H>,
) -> (r: Option<(String, String)>)
    ensures
        match r {
            Some(w) => spec_copy_one(callback, origin@, target@, content@) == Some((w.0@, w.1@)),
            None => spec_copy_one(callback, origin@, target@, content@) is None,
        },
{
    copy_with_transform(origin, target, content, callback)
}

/// Copies a whole tree through a handler.  The root must be a directory;
/// on success the output lists every write the verdicts dictated, in walk
/// order.
pub fn copy_directory_with_replace<H: TransformHandler>(
    origin: &String,
    target: &String,
    node: &FsNode,
    callback: Option<&H>,
) -> (r: Result<TransformOutput, FileError>)
    ensures
        node is Dir ==> (r matches Ok(out) && {
            &&& out.files@.map_values(|w: (String, String)| (w.0@, w.1@)) == spec_walk_node(
                callback,
                origin@,
                target@,
                *node,
            ).files
            &&& out.dirs@.map_values(|d: String| d@) == spec_walk_node(
                callback,
                origin@,
                target@,
                *node,
            ).dirs
            &&& out.count == out.files@.len()
        }),
        node is File ==> (r matches Err(e) && e matches FileError::NotDirectory(p) && p@
            == origin@),
{
    copy_directory_with_transform(origin, target, node, callback)
}

} // verus!
