//! A matcher group: one global include/exclude filter deciding whether a
//! path participates at all, plus one filter per template variable deciding
//! which placeholder replacements apply to which paths.

use vstd::prelude::*;

use crate::filter::{all_valid, FilterMatcher, MatchResult, PatternSpec};
use crate::matcher::MatcherError;
use crate::strutil::{replace_str, spec_replace};

verus! {

/// A fully resolved template variable: placeholder text, the replacement
/// collected for it, and the pattern lists scoping where it applies.
#[derive(Debug)]
pub struct ResolvedVar {
    pub placeholder: String,
    pub replacement: String,
    pub includes: Vec<PatternSpec>,
    pub excludes: Vec<PatternSpec>,
}

/// A resolved variable with its pattern lists compiled into a filter.
#[derive(Debug)]
pub struct TemplateVarMatcher {
    pub placeholder: String,
    pub replacement: String,
    pub matcher: FilterMatcher,
}

/// The global filter plus the per-variable filters, in registration order.
#[derive(Debug)]
pub struct MatcherGroup {
    pub global: FilterMatcher,
    pub variables: Vec<TemplateVarMatcher>,
}

/// Whether every pattern list of every resolved variable compiles.
pub open spec fn vars_all_valid(vars: Seq<ResolvedVar>) -> bool {
    forall|i: int|
        0 <= i < vars.len() ==> all_valid((#[trigger] vars[i]).includes@) && all_valid(
            vars[i].excludes@,
        )
}

/// The placeholders of the variables whose filter yields `Matched` for
/// `path`, in registration order.
pub open spec fn matched_placeholders(
    vars: Seq<TemplateVarMatcher>,
    path: Seq<char>,
) -> Seq<Seq<char>>
    decreases vars.len(),
{
    if vars.len() == 0 {
        Seq::empty()
    } else {
        matched_placeholders(vars.drop_last(), path) + (if vars.last().matcher.spec_eval(path)
            == MatchResult::Matched {
            seq![vars.last().placeholder@]
        } else {
            Seq::empty()
        })
    }
}

/// Sequential substitution: each applicable variable's placeholder is
/// replaced by its replacement, in registration order, each replacement
/// seeing the output of the previous one.
pub open spec fn spec_apply_vars(
    vars: Seq<TemplateVarMatcher>,
    content: Seq<char>,
    path: Seq<char>,
) -> Seq<char>
    decreases vars.len(),
{
    if vars.len() == 0 {
        content
    } else {
        let after = if vars[0].matcher.spec_eval(path) == MatchResult::Matched {
            spec_replace(content, vars[0].placeholder@, vars[0].replacement@)
        } else {
            content
        };
        spec_apply_vars(vars.drop_first(), after, path)
    }
}

/// The paths of `files` whose global verdict is `Matched`, in order.
pub open spec fn spec_matched_paths(
    g: FilterMatcher,
    files: Seq<Seq<char>>,
) -> Seq<Seq<char>>
    decreases files.len(),
{
    if files.len() == 0 {
        Seq::empty()
    } else {
        spec_matched_paths(g, files.drop_last()) + (if g.spec_eval(files.last())
            == MatchResult::Matched {
            seq![files.last()]
        } else {
            Seq::empty()
        })
    }
}

impl MatcherGroup {
    /// Whether this group was built exactly from the given global pattern
    /// lists and resolved variables.
    pub open spec fn models(
        &self,
        global_includes: Seq<PatternSpec>,
        global_excludes: Seq<PatternSpec>,
        resolved_vars: Seq<ResolvedVar>,
    ) -> bool {
        &&& self.global.models(global_includes, global_excludes)
        &&& self.variables@.len() == resolved_vars.len()
        &&& forall|i: int|
            0 <= i < resolved_vars.len() ==> {
                &&& (#[trigger] self.variables@[i]).placeholder@ == resolved_vars[i].placeholder@
                &&& self.variables@[i].replacement@ == resolved_vars[i].replacement@
                &&& self.variables@[i].matcher.models(
                    resolved_vars[i].includes@,
                    resolved_vars[i].excludes@,
                )
            }
    }

    /// Compiles the global filter and each variable's filter.  Every pattern
    /// of every list is compiled up front: a malformed pattern anywhere
    /// fails the whole construction before any path is matched.
    pub fn from_resolved(
        global_includes: Vec<PatternSpec>,
        global_excludes: Vec<PatternSpec>,
        resolved_vars: Vec<ResolvedVar>,
    ) -> (r: Result<MatcherGroup, MatcherError>)
        ensures
            (r is Ok) <==> all_valid(global_includes@) && all_valid(global_excludes@)
                && vars_all_valid(resolved_vars@),
            r matches Ok(g) ==> g.models(global_includes@, global_excludes@, resolved_vars@),
    {
        let global = match FilterMatcher::new(global_includes, global_excludes) {
            Ok(g) => g,
            Err(e) => {
                return Err(e);
            },
        };
        let mut variables: Vec<TemplateVarMatcher> = Vec::new();
        let mut k: usize = 0;
        while k < resolved_vars.len()
            invariant
                all_valid(global_includes@) && all_valid(global_excludes@),
                global.models(global_includes@, global_excludes@),
                k <= resolved_vars@.len(),
                variables@.len() == k,
                forall|i: int|
                    0 <= i < k ==> all_valid((#[trigger] resolved_vars@[i]).includes@)
                        && all_valid(resolved_vars@[i].excludes@),
                forall|i: int|
                    0 <= i < k ==> {
                        &&& (#[trigger] variables@[i]).placeholder@ == resolved_vars@[
                            i
                        ].placeholder@
                        &&& variables@[i].replacement@ == resolved_vars@[i].replacement@
                        &&& variables@[i].matcher.models(
                            resolved_vars@[i].includes@,
                            resolved_vars@[i].excludes@,
                        )
                    },
            decreases resolved_vars@.len() - k,
        {
            let var = &resolved_vars[k];
            let matcher = match FilterMatcher::from_lists(&var.includes, &var.excludes) {
                Ok(m) => m,
                Err(e) => {
                    proof {
                        assert(!(all_valid((resolved_vars@[k as int]).includes@) && all_valid(
                            resolved_vars@[k as int].excludes@,
                        )));
                        assert(!vars_all_valid(resolved_vars@));
                    }
                    return Err(e);
                },
            };
            variables.push(
                TemplateVarMatcher {
                    placeholder: var.placeholder.clone(),
                    replacement: var.replacement.clone(),
                    matcher,
                },
            );
            k = k + 1;
        }
        proof {
            assert(vars_all_valid(resolved_vars@));
        }
        Ok(MatcherGroup { global, variables })
    }

    /// Each variable's placeholder together with its filter verdict for
    /// `path`, in registration order.
    pub fn vars_for_path_detailed(&self, path: &str) -> (r: Vec<(String, MatchResult)>)
        ensures
            r@.len() == self.variables@.len(),
            forall|i: int|
                0 <= i < r@.len() ==> (#[trigger] r@[i]).0@ == self.variables@[i].placeholder@
                    && r@[i].1 == self.variables@[i].matcher.spec_eval(path@),
    {
        let mut out: Vec<(String, MatchResult)> = Vec::new();
        let mut i: usize = 0;
        while i < self.variables.len()
            invariant
                i <= self.variables@.len(),
                out@.len() == i,
                forall|k: int|
                    0 <= k < i ==> (#[trigger] out@[k]).0@ == self.variables@[k].placeholder@
                        && out@[k].1 == self.variables@[k].matcher.spec_eval(path@),
            decreases self.variables@.len() - i,
        {
            let verdict = self.variables[i].matcher.matches(path);
            out.push((self.variables[i].placeholder.clone(), verdict));
            i = i + 1;
        }
        out
    }

    /// The placeholders of the variables that apply to `path`, in
    /// registration order.
    pub fn matched_vars_for_path(&self, path: &str) -> (r: Vec<String>)
        ensures
            r@.map_values(|s: String| s@) == matched_placeholders(self.variables@, path@),
    {
        let mut out: Vec<String> = Vec::new();
        let mut i: usize = 0;
        proof {
            assert(self.variables@.take(0) =~= Seq::<TemplateVarMatcher>::empty());
        }
        while i < self.variables.len()
            invariant
                i <= self.variables@.len(),
                out@.map_values(|s: String| s@) == matched_placeholders(
                    self.variables@.take(i as int),
                    path@,
                ),
            decreases self.variables@.len() - i,
        {
            proof {
                assert(self.variables@.take(i as int + 1).drop_last() =~= self.variables@.take(
                    i as int,
                ));
                assert(self.variables@.take(i as int + 1).last() == self.variables@[i as int]);
            }
            if matches!(self.variables[i].matcher.matches(path), MatchResult::Matched) {
                out.push(self.variables[i].placeholder.clone());
            }
            proof {
                assert(out@.map_values(|s: String| s@) =~= matched_placeholders(
                    self.variables@.take(i as int + 1),
                    path@,
                ));
            }
            i = i + 1;
        }
        proof {
            assert(self.variables@.take(self.variables@.len() as int) =~= self.variables@);
        }
        out
    }

    /// Applies every applicable variable's replacement to `content`, in
    /// registration order; later replacements see the output of earlier
    /// ones, so the order is observable and deterministic.
    pub fn apply_var_replacements(&self, content: &str, path: &str) -> (r: String)
        ensures
            r@ == spec_apply_vars(self.variables@, content@, path@),
    {
        let mut cur: String = content.to_owned();
        let mut i: usize = 0;
        proof {
            assert(self.variables@.skip(0) =~= self.variables@);
        }
        while i < self.variables.len()
            invariant
                i <= self.variables@.len(),
                spec_apply_vars(self.variables@, content@, path@) == spec_apply_vars(
                    self.variables@.skip(i as int),
                    cur@,
                    path@,
                ),
            decreases self.variables@.len() - i,
        {
            proof {
                assert(self.variables@.skip(i as int)[0] == self.variables@[i as int]);
                assert(self.variables@.skip(i as int).drop_first() =~= self.variables@.skip(
                    i as int + 1,
                ));
            }
            if matches!(self.variables[i].matcher.matches(path), MatchResult::Matched) {
                cur = replace_str(
                    cur.as_str(),
                    self.variables[i].placeholder.as_str(),
                    self.variables[i].replacement.as_str(),
                );
            }
            i = i + 1;
        }
        proof {
            assert(self.variables@.skip(self.variables@.len() as int) =~= Seq::<
                TemplateVarMatcher,
            >::empty());
        }
        cur
    }

    /// The paths that pass the global filter, in input order.
    pub fn filter_matched_paths(&self, files: &Vec<String>) -> (r: Vec<String>)
        ensures
            r@.map_values(|s: String| s@) == spec_matched_paths(
                self.global,
                files@.map_values(|s: String| s@),
            ),
    {
        let mut out: Vec<String> = Vec::new();
        let mut i: usize = 0;
        proof {
            assert(files@.map_values(|s: String| s@).take(0) =~= Seq::<Seq<char>>::empty());
            assert(spec_matched_paths(self.global, Seq::<Seq<char>>::empty()) =~= Seq::<
                Seq<char>,
            >::empty());
        }
        while i < files.len()
            invariant
                i <= files@.len(),
                out@.map_values(|s: String| s@) == spec_matched_paths(
                    self.global,
                    files@.map_values(|s: String| s@).take(i as int),
                ),
            decreases files@.len() - i,
        {
            let ghost paths = files@.map_values(|s: String| s@);
            proof {
                assert(paths.take(i as int + 1).drop_last() =~= paths.take(i as int));
                assert(paths.take(i as int + 1).last() == paths[i as int]);
            }
            if matches!(self.global.matches(files[i].as_str()), MatchResult::Matched) {
                out.push(files[i].clone());
            }
            proof {
                assert(out@.map_values(|s: String| s@) =~= spec_matched_paths(
                    self.global,
                    paths.take(i as int + 1),
                ));
            }
            i = i + 1;
        }
        proof {
            let paths = files@.map_values(|s: String| s@);
            assert(paths.take(paths.len() as int) =~= paths);
        }
        out
    }
}

} // verus!
