//! Trusted boundary around the glob and regex engines, and the compiled-
//! pattern cache.
//!
//! The names `glob_valid`, `glob_match`, `regex_valid` and `regex_match`
//! stand for what the outside engines decide; they depend on the pattern
//! text and the candidate path alone.  A compiled pattern keeps the text it
//! was compiled from, so a match result can be stated over that text.  The
//! only constructors of `CompiledGlob` and `CompiledRegex` are their
//! `compile` functions, which is what ties each stored matcher to its
//! stored pattern text.
//!
//! A glob is compiled through `GlobSetBuilder::build`, not through
//! `Glob::compile_matcher`: the latter asserts that its internal regex
//! compiles, and a large enough glob fails that regex's size limit, while
//! the set builder reports the same failure as an error.

use vstd::prelude::*;

use crate::strutil::str_eq;

verus! {

/// Whether the glob engine accepts `pattern`: `globset::Glob::new` parses
/// it and `GlobSetBuilder::build` compiles it.
pub uninterp spec fn glob_valid(pattern: Seq<char>) -> bool;

/// What `globset::GlobSet::is_match` answers for a one-pattern set
/// compiled from `pattern` when asked about `path`.
pub uninterp spec fn glob_match(pattern: Seq<char>, path: Seq<char>) -> bool;

/// Whether `regex::Regex::new` accepts `pattern`.
pub uninterp spec fn regex_valid(pattern: Seq<char>) -> bool;

/// What `regex::Regex::is_match` answers for a regex compiled from
/// `pattern` when asked about `path`.
pub uninterp spec fn regex_match(pattern: Seq<char>, path: Seq<char>) -> bool;

#[verifier::external_type_specification]
#[verifier::external_body]
pub struct ExGlobSet(globset::GlobSet);

#[verifier::external_type_specification]
#[verifier::external_body]
pub struct ExRegex(regex::Regex);

/// A glob pattern compiled once and reusable for any number of match calls.
#[derive(Debug)]
pub struct CompiledGlob {
    pattern: String,
    matcher: globset::GlobSet,
}

impl CompiledGlob {
    /// The text this glob was compiled from.
    pub closed spec fn spec_pattern(&self) -> Seq<char> {
        self.pattern@
    }

    /// Relies on `globset::Glob::new` and `GlobSetBuilder::build`: whether
    /// the pattern parses and its matcher compiles depends on the pattern
    /// text alone, and both report rejection as an error.
    #[verifier::external_body]
    pub fn compile(pattern: &str) -> (r: Option<CompiledGlob>)
        ensures
            r is Some <==> glob_valid(pattern@),
            r matches Some(c) ==> c.spec_pattern() == pattern@,
    {
        let glob = match globset::Glob::new(pattern) {
            Ok(g) => g,
            Err(_) => return None,
        };
        let mut builder = globset::GlobSetBuilder::new();
        builder.add(glob);
        match builder.build() {
            Ok(set) => Some(CompiledGlob { pattern: pattern.to_string(), matcher: set }),
            Err(_) => None,
        }
    }

    /// Relies on `globset::GlobSet::is_match`: the answer depends on the
    /// compiled pattern and the candidate path alone.
    #[verifier::external_body]
    pub fn is_match(&self, path: &str) -> (r: bool)
        ensures
            r == glob_match(self.spec_pattern(), path@),
    {
        self.matcher.is_match(path)
    }

    /// The stored pattern text.
    pub fn pattern_str(&self) -> (r: &str)
        ensures
            r@ == self.spec_pattern(),
    {
        self.pattern.as_str()
    }
}

/// A regular expression compiled once and reusable for any number of match
/// calls.
#[derive(Debug)]
pub struct CompiledRegex {
    pattern: String,
    regex: regex::Regex,
}

impl CompiledRegex {
    /// The text this regex was compiled from.
    pub closed spec fn spec_pattern(&self) -> Seq<char> {
        self.pattern@
    }

    /// Relies on `regex::Regex::new`, whose acceptance of a pattern depends
    /// on the pattern text alone; any rejection, a size limit included, is
    /// reported as an error.
    #[verifier::external_body]
    pub fn compile(pattern: &str) -> (r: Option<CompiledRegex>)
        ensures
            r is Some <==> regex_valid(pattern@),
            r matches Some(c) ==> c.spec_pattern() == pattern@,
    {
        match regex::Regex::new(pattern) {
            Ok(re) => Some(CompiledRegex { pattern: pattern.to_string(), regex: re }),
            Err(_) => None,
        }
    }

    /// Relies on `regex::Regex::is_match`: an unanchored search whose answer
    /// depends on the compiled pattern and the haystack alone.
    #[verifier::external_body]
    pub fn is_match(&self, path: &str) -> (r: bool)
        ensures
            r == regex_match(self.spec_pattern(), path@),
    {
        self.regex.is_match(path)
    }

    /// The stored pattern text.
    pub fn pattern_str(&self) -> (r: &str)
        ensures
            r@ == self.spec_pattern(),
    {
        self.pattern.as_str()
    }
}

/// A cache of compiled patterns, keyed by exact pattern text, so that the
/// same text is never compiled twice through one cache.  It never evicts.
/// Its lifecycle is explicit: a caller creates one per engine run and
/// passes it to each match call; matchers that compile their patterns up
/// front need none.  Two patterns with identical text answer through the
/// same compiled object.
pub struct PatternCache {
    globs: Vec<CompiledGlob>,
    regexes: Vec<CompiledRegex>,
}

impl PatternCache {
    /// Every cached entry was compiled successfully from its own text.
    pub closed spec fn wf(&self) -> bool {
        &&& forall|i: int|
            0 <= i < self.globs@.len() ==> glob_valid((#[trigger] self.globs@[i]).spec_pattern())
        &&& forall|i: int|
            0 <= i < self.regexes@.len() ==> regex_valid(
                (#[trigger] self.regexes@[i]).spec_pattern(),
            )
    }

    /// An empty cache.
    pub fn new() -> (r: PatternCache)
        ensures
            r.wf(),
    {
        PatternCache { globs: Vec::new(), regexes: Vec::new() }
    }

    /// Whether the glob `pattern` accepts `path`, compiling the pattern
    /// only when the cache does not hold it yet; `None` when the engine
    /// rejects the pattern.
    pub fn glob_is_match(&mut self, pattern: &str, path: &str) -> (r: Option<bool>)
        requires
            old(self).wf(),
        ensures
            final(self).wf(),
            r is Some <==> glob_valid(pattern@),
            r matches Some(b) ==> b == glob_match(pattern@, path@),
    {
        let mut i: usize = 0;
        while i < self.globs.len()
            invariant
                self.wf(),
                i <= self.globs@.len(),
            decreases self.globs@.len() - i,
        {
            if str_eq(self.globs[i].pattern_str(), pattern) {
                return Some(self.globs[i].is_match(path));
            }
            i = i + 1;
        }
        match CompiledGlob::compile(pattern) {
            Some(c) => {
                let matched = c.is_match(path);
                self.globs.push(c);
                Some(matched)
            },
            None => None,
        }
    }

    /// Whether the regex `pattern` accepts `path`, compiling the pattern
    /// only when the cache does not hold it yet; `None` when the engine
    /// rejects the pattern.
    pub fn regex_is_match(&mut self, pattern: &str, path: &str) -> (r: Option<bool>)
        requires
            old(self).wf(),
        ensures
            final(self).wf(),
            r is Some <==> regex_valid(pattern@),
            r matches Some(b) ==> b == regex_match(pattern@, path@),
    {
        let mut i: usize = 0;
        while i < self.regexes.len()
            invariant
                self.wf(),
                i <= self.regexes@.len(),
            decreases self.regexes@.len() - i,
        {
            if str_eq(self.regexes[i].pattern_str(), pattern) {
                return Some(self.regexes[i].is_match(path));
            }
            i = i + 1;
        }
        match CompiledRegex::compile(pattern) {
            Some(c) => {
                let matched = c.is_match(path);
                self.regexes.push(c);
                Some(matched)
            },
            None => None,
        }
    }
}

} // verus!
