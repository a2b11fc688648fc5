//! The variable-replace middleware: matches each file's path against an
//! ordered matcher whose payloads carry a placeholder and its replacement,
//! and turns a payload hit into a content transformation.

use vstd::prelude::*;

use crate::matcher::{first_stop, kind_valid, Matcher, MatcherResult};
use crate::middleware_pipeline::{Middleware, StageDecision, StageFlow};
use crate::strutil::{is_prefix, replace_str, spec_replace, strip_prefix_str};
use crate::transform::{
    FileContextView, FileTransformContext, FileTransformKind, TransformVerdict,
};
use std::sync::Arc;

verus! {

/// One variable binding: the placeholder text to look for, the replacement
/// collected for it, and the raw include patterns scoping it.
#[derive(Debug, Clone)]
pub struct FileMatcherItem {
    pub pattern_val: String,
    pub replace_val: String,
    pub includes: Vec<String>,
}

/// The path of `path` relative to `origin_root`, when `path` lies under it.
pub open spec fn spec_rel_path(origin_root: Seq<char>, path: Seq<char>) -> Option<Seq<char>> {
    let pre = origin_root + "/"@;
    if is_prefix(pre, path) {
        Some(path.skip(pre.len() as int))
    } else {
        None
    }
}

/// What the variable-replace middleware decides for one context: the first
/// matching exclude skips the file; the first matching include that carries
/// a payload rewrites the content; everything else, a pattern error
/// included, passes the context on unchanged.
pub open spec fn spec_transform_decision(
    m: Matcher<FileMatcherItem>,
    origin_root: Seq<char>,
    ctx: FileContextView,
) -> StageDecision<FileContextView, TransformVerdict> {
    match spec_rel_path(origin_root, ctx.origin) {
        None => StageDecision::Proceed(ctx),
        Some(rel) => match first_stop(m.excludes@, rel) {
            Some(i) => if kind_valid(m.excludes@[i].kind) {
                StageDecision::Halt(TransformVerdict::Skip)
            } else {
                StageDecision::Proceed(ctx)
            },
            None => match first_stop(m.includes@, rel) {
                Some(i) => if kind_valid(m.includes@[i].kind) {
                    match m.includes@[i].custom_data {
                        Some(item) => StageDecision::Halt(
                            TransformVerdict::Transform(
                                spec_replace(ctx.content, item.pattern_val@, item.replace_val@),
                            ),
                        ),
                        None => StageDecision::Proceed(ctx),
                    }
                } else {
                    StageDecision::Proceed(ctx)
                },
                None => StageDecision::Proceed(ctx),
            },
        },
    }
}

/// The middleware itself: the origin root that file paths are made relative
/// to, and the ordered matcher carrying the variable bindings.
pub struct FileTransformMiddleware {
    pub origin: String,
    pub matcher: Arc<Matcher<FileMatcherItem>>,
}

impl FileTransformMiddleware {
    /// Builds the middleware around a shared matcher.
    pub fn new(origin: String, matcher: Arc<Matcher<FileMatcherItem>>) -> (r: Self)
        ensures
            r.origin == origin,
            r.matcher == matcher,
    {
        FileTransformMiddleware { origin, matcher }
    }
}

impl Middleware<FileTransformContext, FileTransformKind> for FileTransformMiddleware {
    open spec fn spec_enter(&self, ctx: FileContextView) -> StageDecision<
        FileContextView,
        TransformVerdict,
    > {
        spec_transform_decision(*self.matcher, self.origin@, ctx)
    }

    open spec fn spec_exit(&self, r: TransformVerdict) -> TransformVerdict {
        r
    }

    fn enter(&self, ctx: FileTransformContext) -> (d: StageFlow<
        FileTransformContext,
        FileTransformKind,
    >) {
        let mut pre = self.origin.clone();
        pre.append("/");
        match strip_prefix_str(ctx.origin.as_str(), pre.as_str()) {
            None => StageFlow::Proceed(ctx),
            Some(rel) => {
                match self.matcher.is_match(rel.as_str()) {
                    Err(_) => StageFlow::Proceed(ctx),
                    Ok(MatcherResult::InExclude(_)) => StageFlow::Halt(FileTransformKind::Skip),
                    Ok(MatcherResult::Matched(d)) => match d {
                        Some(item) => {
                            let new_content = replace_str(
                                ctx.content.as_str(),
                                item.pattern_val.as_str(),
                                item.replace_val.as_str(),
                            );
                            StageFlow::Halt(FileTransformKind::Transform(new_content))
                        },
                        None => StageFlow::Proceed(ctx),
                    },
                    Ok(MatcherResult::NoMatched) => StageFlow::Proceed(ctx),
                }
            },
        }
    }

    fn exit(&self, r: FileTransformKind) -> (r2: FileTransformKind) {
        r
    }
}

} // verus!
