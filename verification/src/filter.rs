//! The strict include/exclude filter: parsed pattern specifications, a
//! compiled matcher over glob and regex sets, and the three-way filter
//! outcome with exclude-dominates-include precedence.

use vstd::prelude::*;

use crate::pattern::{glob_match, glob_valid, regex_match, regex_valid, CompiledGlob, CompiledRegex};
use crate::strutil::{is_prefix, strip_prefix_str};

verus! {

/// A unified pattern specification, either glob or regex; the stored text
/// no longer carries the `regex:` prefix.
#[derive(Debug, PartialEq, Eq, Clone)]
pub enum PatternSpec {
    Glob(String),
    Regex(String),
}

/// The raw pattern text.
pub open spec fn spec_text(p: PatternSpec) -> Seq<char> {
    match p {
        PatternSpec::Glob(s) => s@,
        PatternSpec::Regex(s) => s@,
    }
}

/// Whether the underlying engine accepts the pattern.
pub open spec fn spec_valid(p: PatternSpec) -> bool {
    match p {
        PatternSpec::Glob(s) => glob_valid(s@),
        PatternSpec::Regex(s) => regex_valid(s@),
    }
}

/// Whether the pattern accepts `path` under its engine's own semantics.
pub open spec fn spec_accepts(p: PatternSpec, path: Seq<char>) -> bool {
    match p {
        PatternSpec::Glob(s) => glob_match(s@, path),
        PatternSpec::Regex(s) => regex_match(s@, path),
    }
}

/// Whether every pattern in the list compiles.
pub open spec fn all_valid(ps: Seq<PatternSpec>) -> bool {
    forall|i: int| 0 <= i < ps.len() ==> spec_valid(#[trigger] ps[i])
}

impl PatternSpec {
    /// Parses a raw pattern string; the literal prefix `regex:` selects a
    /// regular expression, anything else is a glob.
    pub fn parse(raw: &str) -> (r: PatternSpec)
        ensures
            (r is Regex) <==> is_prefix("regex:"@, raw@),
            spec_text(r) == if is_prefix("regex:"@, raw@) {
                raw@.skip("regex:"@.len() as int)
            } else {
                raw@
            },
    {
        match strip_prefix_str(raw, "regex:") {
            Some(rest) => PatternSpec::Regex(rest),
            None => PatternSpec::Glob(raw.to_owned()),
        }
    }

    /// Parses each string of an optional list; `None` yields no patterns.
    pub fn from_option_vec(value: Option<Vec<String>>) -> (r: Vec<PatternSpec>)
        ensures
            match value {
                Some(raws) => r@.len() == raws@.len() && forall|i: int|
                    0 <= i < raws@.len() ==> ((#[trigger] r@[i] is Regex) <==> is_prefix(
                        "regex:"@,
                        raws@[i]@,
                    )) && spec_text(r@[i]) == if is_prefix("regex:"@, raws@[i]@) {
                        raws@[i]@.skip("regex:"@.len() as int)
                    } else {
                        raws@[i]@
                    },
                None => r@.len() == 0,
            },
    {
        match value {
            None => Vec::new(),
            Some(raws) => {
                let mut out: Vec<PatternSpec> = Vec::new();
                let mut i: usize = 0;
                while i < raws.len()
                    invariant
                        i <= raws@.len(),
                        out@.len() == i,
                        forall|k: int|
                            0 <= k < i ==> ((#[trigger] out@[k] is Regex) <==> is_prefix(
                                "regex:"@,
                                raws@[k]@,
                            )) && spec_text(out@[k]) == if is_prefix("regex:"@, raws@[k]@) {
                                raws@[k]@.skip("regex:"@.len() as int)
                            } else {
                                raws@[k]@
                            },
                    decreases raws@.len() - i,
                {
                    out.push(PatternSpec::parse(raws[i].as_str()));
                    i = i + 1;
                }
                out
            },
        }
    }

    /// A printable label for the pattern, `glob:` or `regex:` plus its text.
    pub fn label(&self) -> (r: String)
        ensures
            self matches PatternSpec::Glob(s) ==> r@ == "glob:"@ + s@,
            self matches PatternSpec::Regex(s) ==> r@ == "regex:"@ + s@,
    {
        match self {
            PatternSpec::Glob(s) => {
                let mut out = String::from_str("glob:");
                out.append(s.as_str());
                out
            },
            PatternSpec::Regex(s) => {
                let mut out = String::from_str("regex:");
                out.append(s.as_str());
                out
            },
        }
    }
}

/// The glob texts of a pattern list, in order.
pub open spec fn glob_texts(ps: Seq<PatternSpec>) -> Seq<Seq<char>>
    decreases ps.len(),
{
    if ps.len() == 0 {
        Seq::empty()
    } else {
        glob_texts(ps.drop_last()) + (match ps.last() {
            PatternSpec::Glob(s) => seq![s@],
            PatternSpec::Regex(_) => Seq::empty(),
        })
    }
}

/// The regex texts of a pattern list, in order.
pub open spec fn regex_texts(ps: Seq<PatternSpec>) -> Seq<Seq<char>>
    decreases ps.len(),
{
    if ps.len() == 0 {
        Seq::empty()
    } else {
        regex_texts(ps.drop_last()) + (match ps.last() {
            PatternSpec::Glob(_) => Seq::empty(),
            PatternSpec::Regex(s) => seq![s@],
        })
    }
}

/// A compiled matcher combining a glob set and a regex set; it accepts a
/// path when any of its patterns does.
#[derive(Debug)]
pub struct Matcher {
    pub globs: Vec<CompiledGlob>,
    pub regexes: Vec<CompiledRegex>,
}

impl Matcher {
    /// Whether this matcher was compiled exactly from `ps`.
    pub open spec fn models(&self, ps: Seq<PatternSpec>) -> bool {
        &&& self.globs@.map_values(|g: CompiledGlob| g.spec_pattern()) == glob_texts(ps)
        &&& self.regexes@.map_values(|r: CompiledRegex| r.spec_pattern()) == regex_texts(ps)
    }

    /// Whether any compiled pattern accepts `path`.
    pub open spec fn spec_matches(&self, path: Seq<char>) -> bool {
        ||| exists|i: int|
            0 <= i < self.globs@.len() && glob_match(
                #[trigger] self.globs@[i].spec_pattern(),
                path,
            )
        ||| exists|i: int|
            0 <= i < self.regexes@.len() && regex_match(
                #[trigger] self.regexes@[i].spec_pattern(),
                path,
            )
    }

    /// Compiles every pattern of the list; fails on the first pattern its
    /// engine rejects, before any matching can happen.
    pub fn new(patterns: &Vec<PatternSpec>) -> (r: Result<Matcher, crate::matcher::MatcherError>)
        ensures
            (r is Ok) <==> all_valid(patterns@),
            r matches Ok(m) ==> m.models(patterns@),
            r matches Err(e) ==> exists|i: int|
                0 <= i < patterns@.len() && !spec_valid(#[trigger] patterns@[i]) && (match e {
                    crate::matcher::MatcherError::NewGlob { value } => patterns@[i] is Glob
                        && value@ == spec_text(patterns@[i]),
                    crate::matcher::MatcherError::NewRegex { value } => patterns@[i] is Regex
                        && value@ == spec_text(patterns@[i]),
                }),
    {
        let mut globs: Vec<CompiledGlob> = Vec::new();
        let mut regexes: Vec<CompiledRegex> = Vec::new();
        let mut i: usize = 0;
        while i < patterns.len()
            invariant
                i <= patterns@.len(),
                forall|k: int| 0 <= k < i ==> spec_valid(#[trigger] patterns@[k]),
                globs@.map_values(|g: CompiledGlob| g.spec_pattern()) == glob_texts(
                    patterns@.take(i as int),
                ),
                regexes@.map_values(|r: CompiledRegex| r.spec_pattern()) == regex_texts(
                    patterns@.take(i as int),
                ),
            decreases patterns@.len() - i,
        {
            proof {
                assert(patterns@.take(i as int + 1).drop_last() =~= patterns@.take(i as int));
                assert(patterns@.take(i as int + 1).last() == patterns@[i as int]);
            }
            match &patterns[i] {
                PatternSpec::Glob(pat) => {
                    match CompiledGlob::compile(pat.as_str()) {
                        None => {
                            return Err(
                                crate::matcher::MatcherError::NewGlob { value: pat.clone() },
                            );
                        },
                        Some(g) => {
                            globs.push(g);
                            proof {
                                assert(globs@.map_values(|g: CompiledGlob| g.spec_pattern())
                                    =~= glob_texts(patterns@.take(i as int + 1)));
                                assert(regexes@.map_values(|r: CompiledRegex| r.spec_pattern())
                                    =~= regex_texts(patterns@.take(i as int + 1)));
                            }
                        },
                    }
                },
                PatternSpec::Regex(pat) => {
                    match CompiledRegex::compile(pat.as_str()) {
                        None => {
                            return Err(
                                crate::matcher::MatcherError::NewRegex { value: pat.clone() },
                            );
                        },
                        Some(re) => {
                            regexes.push(re);
                            proof {
                                assert(globs@.map_values(|g: CompiledGlob| g.spec_pattern())
                                    =~= glob_texts(patterns@.take(i as int + 1)));
                                assert(regexes@.map_values(|r: CompiledRegex| r.spec_pattern())
                                    =~= regex_texts(patterns@.take(i as int + 1)));
                            }
                        },
                    }
                },
            }
            i = i + 1;
        }
        proof {
            assert(patterns@.take(patterns@.len() as int) =~= patterns@);
        }
        Ok(Matcher { globs, regexes })
    }

    /// Whether any compiled pattern accepts `path`.
    pub fn matches(&self, path: &str) -> (r: bool)
        ensures
            r == self.spec_matches(path@),
    {
        let mut i: usize = 0;
        while i < self.globs.len()
            invariant
                i <= self.globs@.len(),
                forall|k: int|
                    0 <= k < i ==> !glob_match(#[trigger] self.globs@[k].spec_pattern(), path@),
            decreases self.globs@.len() - i,
        {
            if self.globs[i].is_match(path) {
                return true;
            }
            i = i + 1;
        }
        let mut i: usize = 0;
        while i < self.regexes.len()
            invariant
                i <= self.regexes@.len(),
                forall|k: int|
                    0 <= k < i ==> !regex_match(#[trigger] self.regexes@[k].spec_pattern(), path@),
                forall|k: int|
                    0 <= k < self.globs@.len() ==> !glob_match(
                        #[trigger] self.globs@[k].spec_pattern(),
                        path@,
                    ),
            decreases self.regexes@.len() - i,
        {
            if self.regexes[i].is_match(path) {
                return true;
            }
            i = i + 1;
        }
        false
    }
}

/// The three-way outcome of the include/exclude filter.
#[derive(Debug, Clone, Copy, PartialEq, Eq, Structural)]
pub enum MatchResult {
    Matched,
    Excluded,
    NotIncluded,
}

/// Ordered include and exclude sets with fixed precedence: a path matching
/// any exclude is `Excluded` no matter what the includes say; an empty
/// include set accepts everything.
#[derive(Debug)]
pub struct FilterMatcher {
    pub includes: Option<Matcher>,
    pub excludes: Option<Matcher>,
}

impl FilterMatcher {
    /// The filter verdict for `path`.
    pub open spec fn spec_eval(&self, path: Seq<char>) -> MatchResult {
        if self.excludes matches Some(ex) && ex.spec_matches(path) {
            MatchResult::Excluded
        } else {
            match self.includes {
                Some(inc) => if inc.spec_matches(path) {
                    MatchResult::Matched
                } else {
                    MatchResult::NotIncluded
                },
                None => MatchResult::Matched,
            }
        }
    }

    /// Whether this filter was built exactly from the two pattern lists: an
    /// empty list compiles to no matcher at all.
    pub open spec fn models(&self, includes: Seq<PatternSpec>, excludes: Seq<PatternSpec>) -> bool {
        &&& match self.includes {
            Some(m) => includes.len() > 0 && m.models(includes),
            None => includes.len() == 0,
        }
        &&& match self.excludes {
            Some(m) => excludes.len() > 0 && m.models(excludes),
            None => excludes.len() == 0,
        }
    }

    /// Compiles both pattern lists up front, so that a malformed pattern is
    /// reported before any path is matched.
    pub fn new(includes: Vec<PatternSpec>, excludes: Vec<PatternSpec>) -> (r: Result<
        FilterMatcher,
        crate::matcher::MatcherError,
    >)
        ensures
            (r is Ok) <==> all_valid(includes@) && all_valid(excludes@),
            r matches Ok(fm) ==> fm.models(includes@, excludes@),
    {
        FilterMatcher::from_lists(&includes, &excludes)
    }

    /// Compiles both pattern lists, borrowed.
    pub(crate) fn from_lists(includes: &Vec<PatternSpec>, excludes: &Vec<PatternSpec>) -> (r:
        Result<FilterMatcher, crate::matcher::MatcherError>)
        ensures
            (r is Ok) <==> all_valid(includes@) && all_valid(excludes@),
            r matches Ok(fm) ==> fm.models(includes@, excludes@),
    {
        let inc = if includes.is_empty() {
            None
        } else {
            match Matcher::new(includes) {
                Ok(m) => Some(m),
                Err(e) => {
                    return Err(e);
                },
            }
        };
        let exc = if excludes.is_empty() {
            None
        } else {
            match Matcher::new(excludes) {
                Ok(m) => Some(m),
                Err(e) => {
                    return Err(e);
                },
            }
        };
        Ok(FilterMatcher { includes: inc, excludes: exc })
    }

    /// The filter verdict for `path`: excludes first, then includes, with an
    /// empty include set meaning match-all.
    pub fn matches(&self, path: &str) -> (r: MatchResult)
        ensures
            r == self.spec_eval(path@),
    {
        if let Some(ex) = &self.excludes {
            if ex.matches(path) {
                return MatchResult::Excluded;
            }
        }
        match &self.includes {
            Some(inc) => {
                if inc.matches(path) {
                    MatchResult::Matched
                } else {
                    MatchResult::NotIncluded
                }
            },
            None => MatchResult::Matched,
        }
    }
}

/// Excludes dominate: whatever the include set holds, a path accepted by
/// any exclude pattern of the filter is `Excluded`.
pub proof fn lemma_excludes_dominate(fm: FilterMatcher, path: Seq<char>)
    requires
        fm.excludes matches Some(ex) && ex.spec_matches(path),
    ensures
        fm.spec_eval(path) == MatchResult::Excluded,
{
}

/// A filter with empty includes and empty excludes yields `Matched` for
/// every path: the verdict is path-independent.
pub proof fn lemma_empty_filter_matches_all(fm: FilterMatcher, path: Seq<char>)
    requires
        fm.includes is None,
        fm.excludes is None,
    ensures
        fm.spec_eval(path) == MatchResult::Matched,
{
}

} // verus!
