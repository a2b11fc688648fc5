//! The file-transform pipeline: concrete stages over a matcher group (a
//! filter stage that drops out-of-scope files, and a replace stage that
//! substitutes the applicable variables into the content), a pipe that
//! collects stages in order, and the composed handler the tree walk runs.

use vstd::prelude::*;

use crate::file_transform_middleware::{spec_rel_path, FileTransformMiddleware};
use crate::filter::MatchResult;
use crate::matcher_group::{matched_placeholders, spec_apply_vars, MatcherGroup};
use crate::middleware_pipeline::{
    ComposedHandler, Middleware, MiddlewarePipeline, StageDecision, StageFlow, Terminal,
};
use crate::strutil::strip_prefix_str;
use crate::transform::{
    lemma_skip_all_writes_nothing, spec_walk_node, FileContextView, FileTransformContext,
    FileTransformKind, TransformHandler, TransformVerdict,
};
use std::sync::Arc;

verus! {

/// The path a stage matches against: the file's path relative to the
/// origin root when it lies under it, the path itself otherwise.
pub open spec fn spec_match_key(origin_root: Seq<char>, path: Seq<char>) -> Seq<char> {
    match spec_rel_path(origin_root, path) {
        Some(rel) => rel,
        None => path,
    }
}

/// The path of `ctx.origin` relative to `origin`, as an owned string.
fn match_key(origin: &String, ctx_origin: &String) -> (r: String)
    ensures
        r@ == spec_match_key(origin@, ctx_origin@),
{
    let mut pre = origin.clone();
    pre.append("/");
    match strip_prefix_str(ctx_origin.as_str(), pre.as_str()) {
        Some(rel) => rel,
        None => ctx_origin.clone(),
    }
}

/// Drops every file whose relative path the group's global filter does not
/// match.
pub struct FilterStage {
    pub group: Arc<MatcherGroup>,
    pub origin: String,
}

impl Middleware<FileTransformContext, FileTransformKind> for FilterStage {
    open spec fn spec_enter(&self, ctx: FileContextView) -> StageDecision<
        FileContextView,
        TransformVerdict,
    > {
        if (*self.group).global.spec_eval(spec_match_key(self.origin@, ctx.origin))
            == MatchResult::Matched {
            StageDecision::Proceed(ctx)
        } else {
            StageDecision::Halt(TransformVerdict::Skip)
        }
    }

    open spec fn spec_exit(&self, r: TransformVerdict) -> TransformVerdict {
        r
    }

    fn enter(&self, ctx: FileTransformContext) -> (d: StageFlow<
        FileTransformContext,
        FileTransformKind,
    >) {
        let key = match_key(&self.origin, &ctx.origin);
        if matches!(self.group.global.matches(key.as_str()), MatchResult::Matched) {
            StageFlow::Proceed(ctx)
        } else {
            StageFlow::Halt(FileTransformKind::Skip)
        }
    }

    fn exit(&self, r: FileTransformKind) -> (r2: FileTransformKind) {
        r
    }
}

/// Rewrites the content of every file that at least one variable applies
/// to, substituting the applicable variables in registration order; files
/// no variable applies to pass through untouched.
pub struct ReplaceStage {
    pub group: Arc<MatcherGroup>,
    pub origin: String,
}

impl Middleware<FileTransformContext, FileTransformKind> for ReplaceStage {
    open spec fn spec_enter(&self, ctx: FileContextView) -> StageDecision<
        FileContextView,
        TransformVerdict,
    > {
        let key = spec_match_key(self.origin@, ctx.origin);
        if matched_placeholders((*self.group).variables@, key).len() == 0 {
            StageDecision::Proceed(ctx)
        } else {
            StageDecision::Halt(
                TransformVerdict::Transform(
                    spec_apply_vars((*self.group).variables@, ctx.content, key),
                ),
            )
        }
    }

    open spec fn spec_exit(&self, r: TransformVerdict) -> TransformVerdict {
        r
    }

    fn enter(&self, ctx: FileTransformContext) -> (d: StageFlow<
        FileTransformContext,
        FileTransformKind,
    >) {
        let key = match_key(&self.origin, &ctx.origin);
        let applicable = self.group.matched_vars_for_path(key.as_str());
        if applicable.len() == 0 {
            StageFlow::Proceed(ctx)
        } else {
            let new_content = self.group.apply_var_replacements(
                ctx.content.as_str(),
                key.as_str(),
            );
            StageFlow::Halt(FileTransformKind::Transform(new_content))
        }
    }

    fn exit(&self, r: FileTransformKind) -> (r2: FileTransformKind) {
        r
    }
}

/// One stage of the file-transform pipe.
pub enum TransformStage {
    Filter(FilterStage),
    Replace(ReplaceStage),
    VarMatch(FileTransformMiddleware),
}

impl Middleware<FileTransformContext, FileTransformKind> for TransformStage {
    open spec fn spec_enter(&self, ctx: FileContextView) -> StageDecision<
        FileContextView,
        TransformVerdict,
    > {
        match self {
            TransformStage::Filter(s) => s.spec_enter(ctx),
            TransformStage::Replace(s) => s.spec_enter(ctx),
            TransformStage::VarMatch(s) => s.spec_enter(ctx),
        }
    }

    open spec fn spec_exit(&self, r: TransformVerdict) -> TransformVerdict {
        match self {
            TransformStage::Filter(s) => s.spec_exit(r),
            TransformStage::Replace(s) => s.spec_exit(r),
            TransformStage::VarMatch(s) => s.spec_exit(r),
        }
    }

    fn enter(&self, ctx: FileTransformContext) -> (d: StageFlow<
        FileTransformContext,
        FileTransformKind,
    >) {
        match self {
            TransformStage::Filter(s) => s.enter(ctx),
            TransformStage::Replace(s) => s.enter(ctx),
            TransformStage::VarMatch(s) => s.enter(ctx),
        }
    }

    fn exit(&self, r: FileTransformKind) -> (r2: FileTransformKind) {
        match self {
            TransformStage::Filter(s) => s.exit(r),
            TransformStage::Replace(s) => s.exit(r),
            TransformStage::VarMatch(s) => s.exit(r),
        }
    }
}

/// Builds the stage that drops files outside the group's global scope.
pub fn filter_file_middleware(matcher_group: Arc<MatcherGroup>, origin: String) -> (r:
    TransformStage)
    ensures
        r matches TransformStage::Filter(s) && s.group == matcher_group && s.origin == origin,
{
    TransformStage::Filter(FilterStage { group: matcher_group, origin })
}

/// Builds the stage that substitutes the applicable variables into file
/// content.
pub fn replace_file_middleware(matcher_group: Arc<MatcherGroup>, origin: String) -> (r:
    TransformStage)
    ensures
        r matches TransformStage::Replace(s) && s.group == matcher_group && s.origin == origin,
{
    TransformStage::Replace(ReplaceStage { group: matcher_group, origin })
}

/// The terminal of the file-transform pipe: a file no stage decided about
/// is copied unchanged.
pub struct NoChangeTerminal {

}

impl Terminal<FileTransformContext, FileTransformKind> for NoChangeTerminal {
    open spec fn spec_call(&self, ctx: FileContextView) -> TransformVerdict {
        TransformVerdict::NoChange
    }

    fn call(&self, ctx: FileTransformContext) -> (r: FileTransformKind) {
        FileTransformKind::NoChange
    }
}

/// An ordered list of file-transform stages, not yet composed.
pub struct FileTransformPipe {
    pub middlewares: Vec<TransformStage>,
}

impl FileTransformPipe {
    /// An empty pipe.
    pub fn new() -> (r: Self)
        ensures
            r.middlewares@ == Seq::<TransformStage>::empty(),
    {
        FileTransformPipe { middlewares: Vec::new() }
    }

    /// Appends a stage; registration order is composition order.
    pub fn add(self, middleware: TransformStage) -> (r: Self)
        ensures
            r.middlewares@ == self.middlewares@.push(middleware),
    {
        let mut me = self;
        me.middlewares.push(middleware);
        me
    }

    /// Appends a stage only when `condition` holds.
    pub fn add_if(self, condition: bool, middleware: TransformStage) -> (r: Self)
        ensures
            condition ==> r.middlewares@ == self.middlewares@.push(middleware),
            !condition ==> r.middlewares@ == self.middlewares@,
    {
        if condition {
            self.add(middleware)
        } else {
            self
        }
    }

    /// Appends a stage when one is given.
    pub fn add_option(self, middleware: Option<TransformStage>) -> (r: Self)
        ensures
            match middleware {
                Some(m) => r.middlewares@ == self.middlewares@.push(m),
                None => r.middlewares@ == self.middlewares@,
            },
    {
        match middleware {
            Some(m) => self.add(m),
            None => self,
        }
    }

    /// Composes the stages around a final handler, first-registered stage
    /// outermost.
    pub fn into_handler<T: Terminal<FileTransformContext, FileTransformKind>>(
        self,
        final_handler: T,
    ) -> (h: ComposedHandler<TransformStage, T>)
        ensures
            h.stages@ == self.middlewares@,
            h.terminal == final_handler,
    {
        MiddlewarePipeline { middlewares: self.middlewares }.finalize(final_handler)
    }

    /// Composes the stages around the default terminal, which copies
    /// unchanged whatever reaches it.
    pub fn finalize(self) -> (h: ComposedHandler<TransformStage, NoChangeTerminal>)
        ensures
            h.stages@ == self.middlewares@,
            h.terminal == (NoChangeTerminal {  }),
    {
        self.into_handler(NoChangeTerminal {  })
    }
}

/// A pipeline whose filter stage excludes every path skips every file: the
/// composed handler's verdict is `Skip` for every context, so the walk
/// writes nothing and its count is zero, whatever the tree holds.
pub proof fn lemma_excluding_filter_skips_everything(
    h: &ComposedHandler<TransformStage, NoChangeTerminal>,
    fs: FilterStage,
    origin: Seq<char>,
    target: Seq<char>,
    node: crate::transform::FsNode,
)
    requires
        h.stages@ == seq![TransformStage::Filter(fs)],
        forall|p: Seq<char>|
            #[trigger] (*fs.group).global.spec_eval(p) != MatchResult::Matched,
    ensures
        spec_walk_node(Some(h), origin, target, node).files == Seq::<
            (Seq<char>, Seq<char>),
        >::empty(),
{
    assert forall|ctx: FileContextView| #[trigger] h.spec_verdict(ctx)
        == TransformVerdict::Skip by {
        let stages = h.stages@;
        assert(stages[0] == TransformStage::Filter(fs));
        let key = spec_match_key(fs.origin@, ctx.origin);
        assert((*fs.group).global.spec_eval(key) != MatchResult::Matched);
        assert(stages.drop_first().len() == 0);
    }
    lemma_skip_all_writes_nothing(h, origin, target, node);
}

impl<M: Middleware<FileTransformContext, FileTransformKind>, T: Terminal<
    FileTransformContext,
    FileTransformKind,
>> TransformHandler for ComposedHandler<M, T> {
    open spec fn spec_verdict(&self, ctx: FileContextView) -> TransformVerdict {
        crate::middleware_pipeline::spec_run(self.stages@, &self.terminal, ctx)
    }

    fn run(&self, ctx: FileTransformContext) -> (r: FileTransformKind) {
        ComposedHandler::run(self, ctx)
    }
}

} // verus!
