//! A generic, order-preserving middleware pipeline.
//!
//! Stages are composed so that the first-registered stage is outermost: it
//! sees the context first and the result last.  A stage may transform the
//! context on the way in, stop the chain with a result of its own, and
//! transform the result on the way out; the terminal sits innermost and is
//! reached only when every stage lets the context through.

use vstd::prelude::*;

verus! {

/// Marker for types that can flow through a pipeline as its context.
pub trait PipelineContext {

}

/// The decision a stage takes on entry, at specification level: hand a
/// (possibly transformed) context view to the rest of the chain, or stop
/// with a result view.
pub enum StageDecision<CV, RV> {
    Proceed(CV),
    Halt(RV),
}

/// The decision a stage takes on entry: hand a (possibly transformed)
/// context to the rest of the chain, or stop with a result.
pub enum StageFlow<C, R> {
    Proceed(C),
    Halt(R),
}

/// One stage of the chain.  `spec_enter` fixes what the stage does to an
/// incoming context; `spec_exit` fixes what it does to the result coming
/// back out.  A stage that halts skips both the rest of the chain and its
/// own exit processing, exactly as a continuation-style stage that returns
/// without calling the rest of the chain.
pub trait Middleware<C: PipelineContext + View, R: View>: Sized {
    /// The entry decision for a context with view `ctx`.
    spec fn spec_enter(&self, ctx: C::V) -> StageDecision<C::V, R::V>;

    /// The exit transformation of a result with view `r`.
    spec fn spec_exit(&self, r: R::V) -> R::V;

    /// Inspects the incoming context; either forwards a context or halts
    /// with a result.
    fn enter(&self, ctx: C) -> (d: StageFlow<C, R>)
        ensures
            match d {
                StageFlow::Proceed(c2) => self.spec_enter(ctx@) == StageDecision::<C::V,
                    R::V,
                >::Proceed(c2@),
                StageFlow::Halt(r) => self.spec_enter(ctx@) == StageDecision::<C::V, R::V>::Halt(
                    r@,
                ),
            },
    ;

    /// Post-processes the result returned by the rest of the chain.
    fn exit(&self, r: R) -> (r2: R)
        ensures
            r2@ == self.spec_exit(r@),
    ;
}

/// The innermost handler of a composed chain.
pub trait Terminal<C: PipelineContext + View, R: View>: Sized {
    /// The result the terminal produces for a context with view `ctx`.
    spec fn spec_call(&self, ctx: C::V) -> R::V;

    /// Produces the terminal result.
    fn call(&self, ctx: C) -> (r: R)
        ensures
            r@ == self.spec_call(ctx@),
    ;
}

/// The result of running the chain `stages`, terminal innermost, on a
/// context view: the first-registered stage acts first on the context and
/// last on the result; a halting stage yields its result to the stages
/// before it only.
pub open spec fn spec_run<C: PipelineContext + View, R: View, M: Middleware<C, R>, T: Terminal<
    C,
    R,
>>(stages: Seq<M>, terminal: &T, ctx: C::V) -> R::V
    decreases stages.len(),
{
    if stages.len() == 0 {
        terminal.spec_call(ctx)
    } else {
        match stages[0].spec_enter(ctx) {
            StageDecision::Proceed(c2) => stages[0].spec_exit(
                spec_run(stages.drop_first(), terminal, c2),
            ),
            StageDecision::Halt(r) => r,
        }
    }
}

/// A minimal context for pipelines that only assemble a label string; it
/// carries no data of its own.
pub struct LabelContext {

}

impl PipelineContext for LabelContext {

}

impl View for LabelContext {
    type V = ();

    open spec fn view(&self) -> () {
        ()
    }
}

/// A stage that lets the context through and appends its suffix to the
/// result on the way out; it makes the composition order observable.
pub struct AppendStage {
    pub suffix: String,
}

impl Middleware<LabelContext, String> for AppendStage {
    open spec fn spec_enter(&self, ctx: ()) -> StageDecision<(), Seq<char>> {
        StageDecision::Proceed(ctx)
    }

    open spec fn spec_exit(&self, r: Seq<char>) -> Seq<char> {
        r + self.suffix@
    }

    fn enter(&self, ctx: LabelContext) -> (d: StageFlow<LabelContext, String>) {
        StageFlow::Proceed(ctx)
    }

    fn exit(&self, r: String) -> (r2: String) {
        let mut out = r;
        out.append(self.suffix.as_str());
        out
    }
}

/// A terminal that answers with a fixed label.
pub struct LabelTerminal {
    pub label: String,
}

impl Terminal<LabelContext, String> for LabelTerminal {
    open spec fn spec_call(&self, ctx: ()) -> Seq<char> {
        self.label@
    }

    fn call(&self, ctx: LabelContext) -> (r: String) {
        self.label.clone()
    }
}

/// An ordered list of middleware stages, not yet composed.
pub struct MiddlewarePipeline<M> {
    pub middlewares: Vec<M>,
}

impl<M> MiddlewarePipeline<M> {
    /// An empty pipeline.
    pub fn new() -> (r: Self)
        ensures
            r.middlewares@ == Seq::<M>::empty(),
    {
        MiddlewarePipeline { middlewares: Vec::new() }
    }

    /// Appends a stage; registration order is composition order.
    pub fn add(self, mw: M) -> (r: Self)
        ensures
            r.middlewares@ == self.middlewares@.push(mw),
    {
        let mut me = self;
        me.middlewares.push(mw);
        me
    }

    /// Appends a stage when one is given; `None` leaves the pipeline as it
    /// is.
    pub fn add_option(self, mw: Option<M>) -> (r: Self)
        ensures
            match mw {
                Some(m) => r.middlewares@ == self.middlewares@.push(m),
                None => r.middlewares@ == self.middlewares@,
            },
    {
        match mw {
            Some(m) => self.add(m),
            None => self,
        }
    }

    /// Composes the stages around a terminal into a single handler.  The
    /// first-registered stage is outermost.
    pub fn finalize<C: PipelineContext + View, R: View, T: Terminal<C, R>>(self, terminal: T) -> (h:
        ComposedHandler<M, T>) where M: Middleware<C, R>
        ensures
            h.stages@ == self.middlewares@,
            h.terminal == terminal,
    {
        ComposedHandler { stages: self.middlewares, terminal }
    }
}

/// A finalized chain: the stages in registration order and the terminal.
pub struct ComposedHandler<M, T> {
    pub stages: Vec<M>,
    pub terminal: T,
}

impl<M, T> ComposedHandler<M, T> {
    /// Runs the whole chain on one context.
    pub fn run<C: PipelineContext + View, R: View>(&self, ctx: C) -> (r: R) where
        M: Middleware<C, R>,
        T: Terminal<C, R>,

        ensures
            r@ == spec_run(self.stages@, &self.terminal, ctx@),
    {
        proof {
            assert(self.stages@.skip(0) =~= self.stages@);
        }
        self.run_from(0, ctx)
    }

    /// Runs the chain from stage `i` on.
    fn run_from<C: PipelineContext + View, R: View>(&self, i: usize, ctx: C) -> (r: R) where
        M: Middleware<C, R>,
        T: Terminal<C, R>,

        requires
            i <= self.stages@.len(),
        ensures
            r@ == spec_run(self.stages@.skip(i as int), &self.terminal, ctx@),
        decreases self.stages@.len() - i,
    {
        if i == self.stages.len() {
            proof {
                assert(self.stages@.skip(i as int).len() == 0);
            }
            self.terminal.call(ctx)
        } else {
            proof {
                assert(self.stages@.skip(i as int)[0] == self.stages@[i as int]);
                assert(self.stages@.skip(i as int).drop_first() =~= self.stages@.skip(i as int + 1));
            }
            match self.stages[i].enter(ctx) {
                StageFlow::Proceed(c2) => {
                    let inner = self.run_from(i + 1, c2);
                    self.stages[i].exit(inner)
                },
                StageFlow::Halt(r) => r,
            }
        }
    }
}

} // verus!
