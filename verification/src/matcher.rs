//! The generic ordered matcher: pattern kinds, match styles, pattern
//! specifications carrying an optional payload, and an ordered
//! include/exclude matcher where the first matching exclude dominates.

use vstd::prelude::*;

use crate::pattern::{
    glob_match, glob_valid, regex_match, regex_valid, CompiledGlob, CompiledRegex, PatternCache,
};
use crate::strutil::{contains_sub, is_prefix, is_substring, strip_prefix_str};

verus! {

/// A pattern is either a shell glob or a regular expression.  The stored
/// text no longer carries the `regex:` prefix that selected the kind.
#[derive(Debug, PartialEq, Eq, Clone)]
pub enum PatternKind {
    Glob(String),
    Regex(String),
}

/// `Strict` matches only per the compiled pattern; `Loose` additionally
/// accepts any path that contains the raw pattern text as a substring.
#[derive(Debug, PartialEq, Eq, Structural, Clone, Copy)]
pub enum MatcherStyle {
    Strict,
    Loose,
}

/// The raw pattern text of a kind.
pub open spec fn kind_text(kind: PatternKind) -> Seq<char> {
    match kind {
        PatternKind::Glob(p) => p@,
        PatternKind::Regex(p) => p@,
    }
}

/// Whether the underlying engine accepts the pattern.
pub open spec fn kind_valid(kind: PatternKind) -> bool {
    match kind {
        PatternKind::Glob(p) => glob_valid(p@),
        PatternKind::Regex(p) => regex_valid(p@),
    }
}

/// What the underlying engine answers for `path`, ignoring style.
pub open spec fn kind_matches(kind: PatternKind, path: Seq<char>) -> bool {
    match kind {
        PatternKind::Glob(p) => glob_match(p@, path),
        PatternKind::Regex(p) => regex_match(p@, path),
    }
}

impl PatternKind {
    /// Parses a raw pattern string; the literal prefix `regex:` selects a
    /// regular expression, anything else is a glob.
    pub fn parse(val: &str) -> (r: PatternKind)
        ensures
            (r is Regex) <==> is_prefix("regex:"@, val@),
            kind_text(r) == if is_prefix("regex:"@, val@) {
                val@.skip("regex:"@.len() as int)
            } else {
                val@
            },
    {
        match strip_prefix_str(val, "regex:") {
            Some(rest) => PatternKind::Regex(rest),
            None => PatternKind::Glob(val.to_owned()),
        }
    }
}

/// One pattern together with its match style and an optional caller payload
/// that is handed back on a match.
#[derive(Debug)]
pub struct PatternSpec<T> {
    pub kind: PatternKind,
    pub custom_data: Option<T>,
    pub style: MatcherStyle,
}

/// Whether a pattern of this kind and style accepts `path`: the engine's own
/// answer, extended under `Loose` by plain substring containment of the raw
/// pattern text.
pub open spec fn style_matches(kind: PatternKind, style: MatcherStyle, path: Seq<char>) -> bool {
    kind_matches(kind, path) || (style is Loose && is_substring(kind_text(kind), path))
}

impl<T> PatternSpec<T> {
    /// Whether this pattern accepts `path`.
    pub open spec fn spec_matches(&self, path: Seq<char>) -> bool {
        style_matches(self.kind, self.style, path)
    }

    /// Builds a pattern spec from a raw string; a missing style defaults to
    /// `Loose`.
    pub fn new(val: &str, custom_data: Option<T>, match_style: Option<MatcherStyle>) -> (r: Self)
        ensures
            (r.kind is Regex) <==> is_prefix("regex:"@, val@),
            kind_text(r.kind) == if is_prefix("regex:"@, val@) {
                val@.skip("regex:"@.len() as int)
            } else {
                val@
            },
            r.custom_data == custom_data,
            r.style == match match_style {
                Some(st) => st,
                None => MatcherStyle::Loose,
            },
    {
        let style = match match_style {
            Some(st) => st,
            None => MatcherStyle::Loose,
        };
        PatternSpec { kind: PatternKind::parse(val), custom_data, style }
    }

    /// Whether the pattern accepts `path`; an invalid pattern is reported as
    /// an error rather than a non-match.  Compiles through a cache of its
    /// own; callers that match many paths pass an explicit cache to
    /// `is_match_cached` instead.
    pub fn is_match(&self, path: &str) -> (r: Result<bool, MatcherError>)
        ensures
            (r is Ok) <==> kind_valid(self.kind),
            r matches Ok(b) ==> b == self.spec_matches(path@),
            r matches Err(e) ==> error_names_kind(e, self.kind),
    {
        let mut cache = PatternCache::new();
        self.is_match_cached(&mut cache, path)
    }

    /// Whether the pattern accepts `path`, compiling through the given
    /// cache so that repeated pattern text is compiled only once.
    pub fn is_match_cached(&self, cache: &mut PatternCache, path: &str) -> (r: Result<
        bool,
        MatcherError,
    >)
        requires
            old(cache).wf(),
        ensures
            final(cache).wf(),
            (r is Ok) <==> kind_valid(self.kind),
            r matches Ok(b) ==> b == self.spec_matches(path@),
            r matches Err(e) ==> error_names_kind(e, self.kind),
    {
        match &self.kind {
            PatternKind::Glob(pattern) => {
                match cache.glob_is_match(pattern.as_str(), path) {
                    None => Err(MatcherError::NewGlob { value: pattern.clone() }),
                    Some(matched) => match self.style {
                        MatcherStyle::Strict => Ok(matched),
                        MatcherStyle::Loose => Ok(matched || contains_sub(path, pattern.as_str())),
                    },
                }
            },
            PatternKind::Regex(pattern) => {
                match cache.regex_is_match(pattern.as_str(), path) {
                    None => Err(MatcherError::NewRegex { value: pattern.clone() }),
                    Some(matched) => match self.style {
                        MatcherStyle::Strict => Ok(matched),
                        MatcherStyle::Loose => Ok(matched || contains_sub(path, pattern.as_str())),
                    },
                }
            },
        }
    }

    /// Checks that the engine accepts the pattern, without matching
    /// anything.
    pub fn validate(&self) -> (r: Result<(), MatcherError>)
        ensures
            (r is Ok) <==> kind_valid(self.kind),
            r matches Err(e) ==> error_names_kind(e, self.kind),
    {
        match &self.kind {
            PatternKind::Glob(pattern) => {
                match CompiledGlob::compile(pattern.as_str()) {
                    Some(_) => Ok(()),
                    None => Err(MatcherError::NewGlob { value: pattern.clone() }),
                }
            },
            PatternKind::Regex(pattern) => {
                match CompiledRegex::compile(pattern.as_str()) {
                    Some(_) => Ok(()),
                    None => Err(MatcherError::NewRegex { value: pattern.clone() }),
                }
            },
        }
    }
}

/// Strict style adds nothing: a strict pattern accepts a path exactly when
/// the underlying engine does.
pub proof fn lemma_strict_matches_engine(kind: PatternKind, path: Seq<char>)
    ensures
        style_matches(kind, MatcherStyle::Strict, path) == kind_matches(kind, path),
{
}

/// Loose style is a superset of strict style: it accepts whatever strict
/// accepts, plus any path that contains the raw pattern text as a
/// substring, and nothing else.
pub proof fn lemma_loose_superset(kind: PatternKind, path: Seq<char>)
    ensures
        style_matches(kind, MatcherStyle::Strict, path) ==> style_matches(
            kind,
            MatcherStyle::Loose,
            path,
        ),
        style_matches(kind, MatcherStyle::Loose, path) == (kind_matches(kind, path)
            || is_substring(kind_text(kind), path)),
{
}

/// Pattern compilation failure, reported with the offending pattern text.
#[derive(Debug, PartialEq, Eq, Clone)]
pub enum MatcherError {
    NewRegex { value: String },
    NewGlob { value: String },
}

/// Whether the error reports exactly the pattern `kind`: the right variant
/// carrying the pattern's own text.
pub open spec fn error_names_kind(e: MatcherError, kind: PatternKind) -> bool {
    match e {
        MatcherError::NewGlob { value } => kind is Glob && value@ == kind_text(kind),
        MatcherError::NewRegex { value } => kind is Regex && value@ == kind_text(kind),
    }
}

/// Whether `ps` is the pattern spec that parsing `raw` under default style
/// `style` produces, payload aside.
pub open spec fn is_parsed_spec<T>(ps: PatternSpec<T>, raw: Seq<char>, style: MatcherStyle) -> bool {
    &&& (ps.kind is Regex) <==> is_prefix("regex:"@, raw)
    &&& kind_text(ps.kind) == if is_prefix("regex:"@, raw) {
        raw.skip("regex:"@.len() as int)
    } else {
        raw
    }
    &&& ps.style == style
}

/// Whether `b` could be the result of cloning `a`, element-wise.
pub open spec fn opt_cloned<T: Clone>(a: Option<T>, b: Option<T>) -> bool {
    &&& (a is None) <==> (b is None)
    &&& a matches Some(x) ==> b matches Some(y) && vstd::pervasive::cloned::<T>(x, y)
}

/// Builds a `Matcher` out of ordered include and exclude pattern lists.
#[derive(Debug)]
pub struct MatcherBuilder<T> {
    pub includes: Vec<PatternSpec<T>>,
    pub excludes: Vec<PatternSpec<T>>,
    pub default_style: MatcherStyle,
}

impl<T: Clone> MatcherBuilder<T> {
    /// An empty builder whose default style is `Loose`.
    pub fn new() -> (r: Self)
        ensures
            r.includes@.len() == 0,
            r.excludes@.len() == 0,
            r.default_style == MatcherStyle::Loose,
    {
        MatcherBuilder { includes: Vec::new(), excludes: Vec::new(), default_style: MatcherStyle::Loose }
    }

    /// Sets the default style used when patterns are added from raw strings.
    pub fn with_match_style(self, default_style: MatcherStyle) -> (r: Self)
        ensures
            r.includes@ == self.includes@,
            r.excludes@ == self.excludes@,
            r.default_style == default_style,
    {
        MatcherBuilder { default_style, ..self }
    }

    /// Appends one include pattern spec.
    pub fn with_include(self, pattern_spec: PatternSpec<T>) -> (r: Self)
        ensures
            r.includes@ == self.includes@.push(pattern_spec),
            r.excludes@ == self.excludes@,
            r.default_style == self.default_style,
    {
        let mut me = self;
        me.includes.push(pattern_spec);
        me
    }

    /// Appends one include pattern parsed from a raw string.
    pub fn with_include_str(self, pattern_str: &str, custom_data: Option<T>) -> (r: Self)
        ensures
            r.includes@.len() == self.includes@.len() + 1,
            r.includes@.drop_last() == self.includes@,
            is_parsed_spec(r.includes@.last(), pattern_str@, self.default_style),
            r.includes@.last().custom_data == custom_data,
            r.excludes@ == self.excludes@,
            r.default_style == self.default_style,
    {
        let style = self.default_style;
        let ps = PatternSpec::new(pattern_str, custom_data, Some(style));
        let mut me = self;
        me.includes.push(ps);
        proof {
            assert(me.includes@.drop_last() =~= self.includes@);
        }
        me
    }

    /// Appends one include pattern per raw string, each carrying a clone of
    /// the same payload.
    pub fn with_include_strs(self, patterns: Vec<String>, custom_data: Option<T>) -> (r: Self)
        ensures
            r.includes@.len() == self.includes@.len() + patterns@.len(),
            r.includes@.subrange(0, self.includes@.len() as int) == self.includes@,
            forall|k: int|
                0 <= k < patterns@.len() ==> is_parsed_spec(
                    #[trigger] r.includes@[self.includes@.len() + k],
                    patterns@[k]@,
                    self.default_style,
                ) && opt_cloned(custom_data, r.includes@[self.includes@.len() + k].custom_data),
            r.excludes@ == self.excludes@,
            r.default_style == self.default_style,
    {
        let ghost orig = self;
        let mut me = self;
        let mut idx: usize = 0;
        while idx < patterns.len()
            invariant
                idx <= patterns@.len(),
                me.includes@.len() == orig.includes@.len() + idx,
                me.includes@.subrange(0, orig.includes@.len() as int) == orig.includes@,
                forall|k: int|
                    0 <= k < idx ==> is_parsed_spec(
                        #[trigger] me.includes@[orig.includes@.len() + k],
                        patterns@[k]@,
                        orig.default_style,
                    ) && opt_cloned(custom_data, me.includes@[orig.includes@.len() + k].custom_data),
                me.excludes@ == orig.excludes@,
                me.default_style == orig.default_style,
            decreases patterns@.len() - idx,
        {
            let style = me.default_style;
            let ps = PatternSpec::new(patterns[idx].as_str(), custom_data.clone(), Some(style));
            me.includes.push(ps);
            proof {
                assert(me.includes@.subrange(0, orig.includes@.len() as int) =~= orig.includes@);
            }
            idx = idx + 1;
        }
        me
    }

    /// Like `with_include_strs`, for an optional pattern list; `None` adds
    /// nothing.
    pub fn with_include_strs_opt(self, patterns: Option<Vec<String>>, custom_data: Option<T>) -> (r:
        Self)
        ensures
            patterns matches Some(ps) ==> {
                &&& r.includes@.len() == self.includes@.len() + ps@.len()
                &&& r.includes@.subrange(0, self.includes@.len() as int) == self.includes@
                &&& forall|k: int|
                    0 <= k < ps@.len() ==> is_parsed_spec(
                        #[trigger] r.includes@[self.includes@.len() + k],
                        ps@[k]@,
                        self.default_style,
                    ) && opt_cloned(custom_data, r.includes@[self.includes@.len() + k].custom_data)
            },
            patterns is None ==> r.includes@ == self.includes@,
            r.excludes@ == self.excludes@,
            r.default_style == self.default_style,
    {
        match patterns {
            Some(ps) => self.with_include_strs(ps, custom_data),
            None => self,
        }
    }

    /// Appends one exclude pattern spec.
    pub fn with_exclude(self, pattern_spec: PatternSpec<T>) -> (r: Self)
        ensures
            r.excludes@ == self.excludes@.push(pattern_spec),
            r.includes@ == self.includes@,
            r.default_style == self.default_style,
    {
        let mut me = self;
        me.excludes.push(pattern_spec);
        me
    }

    /// Appends one exclude pattern parsed from a raw string.
    pub fn with_exclude_str(self, pattern_str: &str, custom_data: Option<T>) -> (r: Self)
        ensures
            r.excludes@.len() == self.excludes@.len() + 1,
            r.excludes@.drop_last() == self.excludes@,
            is_parsed_spec(r.excludes@.last(), pattern_str@, self.default_style),
            r.excludes@.last().custom_data == custom_data,
            r.includes@ == self.includes@,
            r.default_style == self.default_style,
    {
        let style = self.default_style;
        let ps = PatternSpec::new(pattern_str, custom_data, Some(style));
        let mut me = self;
        me.excludes.push(ps);
        proof {
            assert(me.excludes@.drop_last() =~= self.excludes@);
        }
        me
    }

    /// Appends one exclude pattern per raw string, each carrying a clone of
    /// the same payload.
    pub fn with_exclude_strs(self, patterns: Vec<String>, custom_data: Option<T>) -> (r: Self)
        ensures
            r.excludes@.len() == self.excludes@.len() + patterns@.len(),
            r.excludes@.subrange(0, self.excludes@.len() as int) == self.excludes@,
            forall|k: int|
                0 <= k < patterns@.len() ==> is_parsed_spec(
                    #[trigger] r.excludes@[self.excludes@.len() + k],
                    patterns@[k]@,
                    self.default_style,
                ) && opt_cloned(custom_data, r.excludes@[self.excludes@.len() + k].custom_data),
            r.includes@ == self.includes@,
            r.default_style == self.default_style,
    {
        let ghost orig = self;
        let mut me = self;
        let mut idx: usize = 0;
        while idx < patterns.len()
            invariant
                idx <= patterns@.len(),
                me.excludes@.len() == orig.excludes@.len() + idx,
                me.excludes@.subrange(0, orig.excludes@.len() as int) == orig.excludes@,
                forall|k: int|
                    0 <= k < idx ==> is_parsed_spec(
                        #[trigger] me.excludes@[orig.excludes@.len() + k],
                        patterns@[k]@,
                        orig.default_style,
                    ) && opt_cloned(custom_data, me.excludes@[orig.excludes@.len() + k].custom_data),
                me.includes@ == orig.includes@,
                me.default_style == orig.default_style,
            decreases patterns@.len() - idx,
        {
            let style = me.default_style;
            let ps = PatternSpec::new(patterns[idx].as_str(), custom_data.clone(), Some(style));
            me.excludes.push(ps);
            proof {
                assert(me.excludes@.subrange(0, orig.excludes@.len() as int) =~= orig.excludes@);
            }
            idx = idx + 1;
        }
        me
    }

    /// Like `with_exclude_strs`, for an optional pattern list; `None` adds
    /// nothing.
    pub fn with_exclude_strs_opt(self, patterns: Option<Vec<String>>, custom_data: Option<T>) -> (r:
        Self)
        ensures
            patterns matches Some(ps) ==> {
                &&& r.excludes@.len() == self.excludes@.len() + ps@.len()
                &&& r.excludes@.subrange(0, self.excludes@.len() as int) == self.excludes@
                &&& forall|k: int|
                    0 <= k < ps@.len() ==> is_parsed_spec(
                        #[trigger] r.excludes@[self.excludes@.len() + k],
                        ps@[k]@,
                        self.default_style,
                    ) && opt_cloned(custom_data, r.excludes@[self.excludes@.len() + k].custom_data)
            },
            patterns is None ==> r.excludes@ == self.excludes@,
            r.includes@ == self.includes@,
            r.default_style == self.default_style,
    {
        match patterns {
            Some(ps) => self.with_exclude_strs(ps, custom_data),
            None => self,
        }
    }

    /// Finishes the builder; the matcher keeps both lists in registration
    /// order.
    pub fn build(self) -> (r: Matcher<T>)
        ensures
            r.includes@ == self.includes@,
            r.excludes@ == self.excludes@,
    {
        Matcher { includes: self.includes, excludes: self.excludes }
    }
}

/// The least index at which a left-to-right scan of `specs` stops: the first
/// pattern that is invalid or that matches `path`.  `None` when every
/// pattern is valid and none matches.
pub open spec fn first_stop<T>(specs: Seq<PatternSpec<T>>, path: Seq<char>) -> Option<int>
    decreases specs.len(),
{
    if specs.len() == 0 {
        None
    } else if !kind_valid(specs[0].kind) || specs[0].spec_matches(path) {
        Some(0)
    } else {
        match first_stop(specs.drop_first(), path) {
            Some(i) => Some(i + 1),
            None => None,
        }
    }
}

pub proof fn lemma_first_stop_at<T>(specs: Seq<PatternSpec<T>>, path: Seq<char>, i: int)
    requires
        0 <= i < specs.len(),
        forall|j: int|
            0 <= j < i ==> kind_valid(#[trigger] specs[j].kind) && !specs[j].spec_matches(path),
        !kind_valid(specs[i].kind) || specs[i].spec_matches(path),
    ensures
        first_stop(specs, path) == Some(i),
    decreases specs.len(),
{
    if i > 0 {
        let rest = specs.drop_first();
        assert forall|j: int| 0 <= j < i - 1 implies kind_valid(#[trigger] rest[j].kind)
            && !rest[j].spec_matches(path) by {
            assert(rest[j] == specs[j + 1]);
        }
        assert(rest[i - 1] == specs[i]);
        lemma_first_stop_at(rest, path, i - 1);
    }
}

pub proof fn lemma_first_stop_none<T>(specs: Seq<PatternSpec<T>>, path: Seq<char>)
    requires
        forall|j: int|
            0 <= j < specs.len() ==> kind_valid(#[trigger] specs[j].kind) && !specs[
                j
            ].spec_matches(path),
    ensures
        first_stop(specs, path) is None,
    decreases specs.len(),
{
    if specs.len() > 0 {
        let rest = specs.drop_first();
        assert forall|j: int| 0 <= j < rest.len() implies kind_valid(#[trigger] rest[j].kind)
            && !rest[j].spec_matches(path) by {
            assert(rest[j] == specs[j + 1]);
        }
        lemma_first_stop_none(rest, path);
    }
}

/// Excludes dominate: when every exclude pattern compiles and some exclude
/// pattern accepts `path`, the scan of the excludes stops at a valid,
/// matching pattern — so by the contract of `is_match`, the only possible
/// answer is `InExclude`, whatever the includes hold.
pub proof fn lemma_excludes_dominate<T>(m: Matcher<T>, path: Seq<char>)
    requires
        forall|j: int| 0 <= j < m.excludes@.len() ==> kind_valid(#[trigger] m.excludes@[j].kind),
        exists|j: int| 0 <= j < m.excludes@.len() && (#[trigger] m.excludes@[j]).spec_matches(path),
    ensures
        first_stop(m.excludes@, path) matches Some(i) && 0 <= i < m.excludes@.len() && kind_valid(
            m.excludes@[i].kind,
        ) && m.excludes@[i].spec_matches(path),
    decreases m.excludes@.len(),
{
    let specs = m.excludes@;
    let w = choose|j: int| 0 <= j < specs.len() && (#[trigger] specs[j]).spec_matches(path);
    lemma_first_stop_hits(specs, path, w);
}

/// A scan with a matching pattern in it stops at a valid, matching
/// pattern, when every pattern scanned is valid.
pub proof fn lemma_first_stop_hits<T>(specs: Seq<PatternSpec<T>>, path: Seq<char>, w: int)
    requires
        forall|j: int| 0 <= j < specs.len() ==> kind_valid(#[trigger] specs[j].kind),
        0 <= w < specs.len(),
        specs[w].spec_matches(path),
    ensures
        first_stop(specs, path) matches Some(i) && 0 <= i < specs.len() && kind_valid(
            specs[i].kind,
        ) && specs[i].spec_matches(path),
    decreases specs.len(),
{
    if !specs[0].spec_matches(path) {
        let rest = specs.drop_first();
        assert(rest[w - 1] == specs[w]);
        lemma_first_stop_hits(rest, path, w - 1);
        let i2 = choose|i: int|
            first_stop(rest, path) == Some(i) && 0 <= i < rest.len() && kind_valid(rest[i].kind)
                && rest[i].spec_matches(path);
        assert(specs[i2 + 1] == rest[i2]);
    }
}

/// A matcher with no includes and no excludes answers `NoMatched` for
/// every path: both scans come up empty, so by the contract of `is_match`
/// the verdict is path-independent.
pub proof fn lemma_empty_matcher_no_match<T>(m: Matcher<T>, path: Seq<char>)
    requires
        m.includes@.len() == 0,
        m.excludes@.len() == 0,
    ensures
        first_stop(m.excludes@, path) is None,
        first_stop(m.includes@, path) is None,
{
}

/// Whether `r` is a by-reference rendering of the optional payload `o`.
pub open spec fn is_ref_of<T>(r: Option<&T>, o: Option<T>) -> bool {
    match r {
        Some(x) => o matches Some(y) && *x == y,
        None => o is None,
    }
}

/// An ordered matcher: excludes are scanned first and dominate; includes
/// are scanned next; each set in registration order.
#[derive(Debug)]
pub struct Matcher<T> {
    pub includes: Vec<PatternSpec<T>>,
    pub excludes: Vec<PatternSpec<T>>,
}

/// The outcome of matching one path: the payload of the first matching
/// include, the payload of the first matching exclude, or no match at all.
#[derive(Debug)]
pub enum MatcherResult<T> {
    Matched(Option<T>),
    InExclude(Option<T>),
    NoMatched,
}

impl<T> MatcherResult<T> {
    /// Whether the result is a match.
    pub fn is_matched(&self) -> (r: bool)
        ensures
            r == (self is Matched),
    {
        matches!(self, MatcherResult::Matched(_))
    }

    /// Whether the result is an exclusion.
    pub fn is_in_exclude(&self) -> (r: bool)
        ensures
            r == (self is InExclude),
    {
        matches!(self, MatcherResult::InExclude(_))
    }

    /// Whether the result is neither a match nor an exclusion.
    pub fn is_no_matched(&self) -> (r: bool)
        ensures
            r == (self is NoMatched),
    {
        matches!(self, MatcherResult::NoMatched)
    }
}

impl<T> Matcher<T> {
    /// Evaluates `path` against the matcher.  The first matching exclude
    /// wins and returns `InExclude`; otherwise the first matching include
    /// returns `Matched`; otherwise `NoMatched`.  The first invalid pattern
    /// reached by that scan is reported as an error instead.  Compiles
    /// through a cache of its own; callers that match many paths pass an
    /// explicit cache to `is_match_cached` instead.
    pub fn is_match<'a>(&'a self, path: &str) -> (r: Result<
        MatcherResult<&'a T>,
        MatcherError,
    >)
        ensures
            match r {
                Ok(res) => match res {
                    MatcherResult::InExclude(d) => first_stop(self.excludes@, path@) matches Some(
                        i,
                    ) && kind_valid(self.excludes@[i].kind) && is_ref_of(
                        d,
                        self.excludes@[i].custom_data,
                    ),
                    MatcherResult::Matched(d) => {
                        &&& first_stop(self.excludes@, path@) is None
                        &&& first_stop(self.includes@, path@) matches Some(i) && kind_valid(
                            self.includes@[i].kind,
                        ) && is_ref_of(d, self.includes@[i].custom_data)
                    },
                    MatcherResult::NoMatched => {
                        &&& first_stop(self.excludes@, path@) is None
                        &&& first_stop(self.includes@, path@) is None
                    },
                },
                Err(_) => {
                    ||| first_stop(self.excludes@, path@) matches Some(i) && !kind_valid(
                        self.excludes@[i].kind,
                    )
                    ||| {
                        &&& first_stop(self.excludes@, path@) is None
                        &&& first_stop(self.includes@, path@) matches Some(i) && !kind_valid(
                            self.includes@[i].kind,
                        )
                    }
                },
            },
    {
        let mut cache = PatternCache::new();
        self.is_match_cached(&mut cache, path)
    }

    /// Evaluates `path` against the matcher, compiling through the given
    /// cache so that repeated pattern text is compiled only once.
    pub fn is_match_cached<'a>(&'a self, cache: &mut PatternCache, path: &str) -> (r: Result<
        MatcherResult<&'a T>,
        MatcherError,
    >)
        requires
            old(cache).wf(),
        ensures
            final(cache).wf(),
            match r {
                Ok(res) => match res {
                    MatcherResult::InExclude(d) => first_stop(self.excludes@, path@) matches Some(
                        i,
                    ) && kind_valid(self.excludes@[i].kind) && is_ref_of(
                        d,
                        self.excludes@[i].custom_data,
                    ),
                    MatcherResult::Matched(d) => {
                        &&& first_stop(self.excludes@, path@) is None
                        &&& first_stop(self.includes@, path@) matches Some(i) && kind_valid(
                            self.includes@[i].kind,
                        ) && is_ref_of(d, self.includes@[i].custom_data)
                    },
                    MatcherResult::NoMatched => {
                        &&& first_stop(self.excludes@, path@) is None
                        &&& first_stop(self.includes@, path@) is None
                    },
                },
                Err(_) => {
                    ||| first_stop(self.excludes@, path@) matches Some(i) && !kind_valid(
                        self.excludes@[i].kind,
                    )
                    ||| {
                        &&& first_stop(self.excludes@, path@) is None
                        &&& first_stop(self.includes@, path@) matches Some(i) && !kind_valid(
                            self.includes@[i].kind,
                        )
                    }
                },
            },
    {
        let mut i: usize = 0;
        while i < self.excludes.len()
            invariant
                cache.wf(),
                i <= self.excludes@.len(),
                forall|j: int|
                    0 <= j < i ==> kind_valid(#[trigger] self.excludes@[j].kind)
                        && !self.excludes@[j].spec_matches(path@),
            decreases self.excludes@.len() - i,
        {
            match self.excludes[i].is_match_cached(cache, path) {
                Err(e) => {
                    proof {
                        lemma_first_stop_at(self.excludes@, path@, i as int);
                    }
                    return Err(e);
                },
                Ok(true) => {
                    proof {
                        lemma_first_stop_at(self.excludes@, path@, i as int);
                    }
                    let d = match &self.excludes[i].custom_data {
                        Some(x) => Some(x),
                        None => None,
                    };
                    return Ok(MatcherResult::InExclude(d));
                },
                Ok(false) => {},
            }
            i = i + 1;
        }
        proof {
            lemma_first_stop_none(self.excludes@, path@);
        }
        let mut i: usize = 0;
        while i < self.includes.len()
            invariant
                cache.wf(),
                i <= self.includes@.len(),
                first_stop(self.excludes@, path@) is None,
                forall|j: int|
                    0 <= j < i ==> kind_valid(#[trigger] self.includes@[j].kind)
                        && !self.includes@[j].spec_matches(path@),
            decreases self.includes@.len() - i,
        {
            match self.includes[i].is_match_cached(cache, path) {
                Err(e) => {
                    proof {
                        lemma_first_stop_at(self.includes@, path@, i as int);
                    }
                    return Err(e);
                },
                Ok(true) => {
                    proof {
                        lemma_first_stop_at(self.includes@, path@, i as int);
                    }
                    let d = match &self.includes[i].custom_data {
                        Some(x) => Some(x),
                        None => None,
                    };
                    return Ok(MatcherResult::Matched(d));
                },
                Ok(false) => {},
            }
            i = i + 1;
        }
        proof {
            lemma_first_stop_none(self.includes@, path@);
        }
        Ok(MatcherResult::NoMatched)
    }

    /// Compiles every pattern once, excludes first and then includes, so
    /// that a malformed pattern is reported at construction time, before
    /// any path is matched.
    pub fn validate(&self) -> (r: Result<(), MatcherError>)
        ensures
            (r is Ok) <==> (forall|j: int|
                0 <= j < self.excludes@.len() ==> kind_valid(
                    (#[trigger] self.excludes@[j]).kind,
                )) && (forall|j: int|
                0 <= j < self.includes@.len() ==> kind_valid((#[trigger] self.includes@[j]).kind)),
            r matches Err(e) ==> ((exists|j: int|
                0 <= j < self.excludes@.len() && !kind_valid((#[trigger] self.excludes@[j]).kind)
                    && error_names_kind(e, self.excludes@[j].kind)) || (exists|j: int|
                0 <= j < self.includes@.len() && !kind_valid((#[trigger] self.includes@[j]).kind)
                    && error_names_kind(e, self.includes@[j].kind))),
    {
        let mut i: usize = 0;
        while i < self.excludes.len()
            invariant
                i <= self.excludes@.len(),
                forall|j: int|
                    0 <= j < i ==> kind_valid((#[trigger] self.excludes@[j]).kind),
            decreases self.excludes@.len() - i,
        {
            if let Err(e) = self.excludes[i].validate() {
                proof {
                    assert(!kind_valid(self.excludes@[i as int].kind));
                }
                return Err(e);
            }
            i = i + 1;
        }
        let mut i: usize = 0;
        while i < self.includes.len()
            invariant
                i <= self.includes@.len(),
                forall|j: int|
                    0 <= j < self.excludes@.len() ==> kind_valid(
                        (#[trigger] self.excludes@[j]).kind,
                    ),
                forall|j: int|
                    0 <= j < i ==> kind_valid((#[trigger] self.includes@[j]).kind),
            decreases self.includes@.len() - i,
        {
            if let Err(e) = self.includes[i].validate() {
                proof {
                    assert(!kind_valid(self.includes@[i as int].kind));
                }
                return Err(e);
            }
            i = i + 1;
        }
        Ok(())
    }
}

} // verus!
