//! Repository references: building archive-download URLs and parsing both
//! full URLs and `user/repo` shorthand, with `#branch`, `@tag` and
//! `@commit` suffixes.

use vstd::prelude::*;

use crate::strutil::{
    contains_sub, find_char, first_index_of, is_prefix, is_substring,
    lemma_first_index_of_absent, lemma_first_index_of_witness, spec_trim_end, starts_with_str,
    substring_of, trim_end_matches_str,
};

verus! {

/// Whether `char::is_whitespace` holds: membership in Unicode White_Space,
/// a property of the character alone.
pub uninterp spec fn is_unicode_whitespace(c: char) -> bool;

/// Relies on `char::is_whitespace`.
#[verifier::external_body]
fn char_is_whitespace(c: char) -> (r: bool)
    ensures
        r == is_unicode_whitespace(c),
{
    c.is_whitespace()
}

/// No character of `s` is whitespace.
pub open spec fn no_ws(s: Seq<char>) -> bool {
    forall|i: int| 0 <= i < s.len() ==> !is_unicode_whitespace(#[trigger] s[i])
}

/// Whether `s` holds a whitespace character.
fn has_whitespace(s: &str) -> (r: bool)
    ensures
        r == !no_ws(s@),
{
    let n = s.unicode_len();
    let mut i: usize = 0;
    while i < n
        invariant
            n == s@.len(),
            i <= n,
            forall|j: int| 0 <= j < i ==> !is_unicode_whitespace(#[trigger] s@[j]),
        decreases n - i,
    {
        if char_is_whitespace(s.get_char(i)) {
            return true;
        }
        i = i + 1;
    }
    false
}

/// Whether `Url::parse` accepts the text.
pub uninterp spec fn url_ok(s: Seq<char>) -> bool;

/// What `Url::host_str` reports for a URL parsed from `s`.
pub uninterp spec fn url_host(s: Seq<char>) -> Option<Seq<char>>;

/// What `Url::path_segments` reports for a URL parsed from `s`; empty when
/// the URL cannot be a base.
pub uninterp spec fn url_path_segments(s: Seq<char>) -> Seq<Seq<char>>;

/// The character views of a sequence of strings.
pub open spec fn views_of(v: Seq<String>) -> Seq<Seq<char>> {
    v.map_values(|x: String| x@)
}

/// Relies on `url::Url::parse`, `Url::host_str` and `Url::path_segments`:
/// each is a function of the URL text alone.  Yields the host and the path
/// segments, or `None` when the text does not parse or has no host.
#[verifier::external_body]
fn parse_url_parts(s: &str) -> (r: Option<(String, Vec<String>)>)
    ensures
        r is Some <==> (url_ok(s@) && url_host(s@) is Some),
        r matches Some(p) ==> Some(p.0@) == url_host(s@) && views_of(p.1@) == url_path_segments(
            s@,
        ),
{
    match url::Url::parse(s) {
        Ok(u) => match u.host_str() {
            Some(h) => {
                let segs: Vec<String> = u
                    .path_segments()
                    .map(|it| it.map(|x: &str| x.to_string()).collect())
                    .unwrap_or_default();
                Some((h.to_string(), segs))
            },
            None => None,
        },
        Err(_) => None,
    }
}

/// A git reference: a branch, a tag, a commit hash, or the default branch.
#[derive(Debug, Clone, PartialEq, Eq)]
pub enum GitRef {
    Branch(String),
    Tag(String),
    Commit(String),
    Default,
}

/// The hosting platform a repository lives on.
#[derive(Debug, Clone, PartialEq, Eq)]
pub enum RepoPlatform {
    GitHub,
    GitLab,
    Gitea,
    Other(String),
}

/// A parsed repository reference.
#[derive(Debug, Clone, PartialEq, Eq)]
pub struct RepoInfo {
    pub platform: RepoPlatform,
    pub user: String,
    pub repo: String,
    pub git_ref: GitRef,
}

/// The name a reference contributes to a download URL; the default branch
/// is `main`.
pub open spec fn spec_ref_name(g: GitRef) -> Seq<char> {
    match g {
        GitRef::Branch(b) => b@,
        GitRef::Tag(t) => t@,
        GitRef::Commit(c) => c@,
        GitRef::Default => "main"@,
    }
}

/// The archive URL for a repository; platforms without a known archive
/// layout yield the empty string.
pub open spec fn spec_download_url(info: RepoInfo) -> Seq<char> {
    let r = spec_ref_name(info.git_ref);
    match info.platform {
        RepoPlatform::GitHub => "https://github.com/"@ + info.user@ + "/"@ + info.repo@
            + "/archive/refs/heads/"@ + r + ".zip"@,
        RepoPlatform::GitLab => "https://gitlab.com/"@ + info.user@ + "/"@ + info.repo@
            + "/-/archive/"@ + r + "/"@ + info.repo@ + "-"@ + r + ".zip"@,
        RepoPlatform::Gitea => "https://gitea.com/"@ + info.user@ + "/"@ + info.repo@ + "/archive/"@
            + r + ".zip"@,
        RepoPlatform::Other(_) => Seq::empty(),
    }
}

impl RepoInfo {
    /// The URL the repository's archive can be downloaded from, or the
    /// empty string for a platform without a known archive layout.
    pub fn download_url(&self) -> (r: String)
        ensures
            r@ == spec_download_url(*self),
    {
        let reference: &str = match &self.git_ref {
            GitRef::Branch(b) => b.as_str(),
            GitRef::Tag(t) => t.as_str(),
            GitRef::Commit(c) => c.as_str(),
            GitRef::Default => "main",
        };
        let mut out = String::new();
        match &self.platform {
            RepoPlatform::GitHub => {
                out.append("https://github.com/");
                out.append(self.user.as_str());
                out.append("/");
                out.append(self.repo.as_str());
                out.append("/archive/refs/heads/");
                out.append(reference);
                out.append(".zip");
            },
            RepoPlatform::GitLab => {
                out.append("https://gitlab.com/");
                out.append(self.user.as_str());
                out.append("/");
                out.append(self.repo.as_str());
                out.append("/-/archive/");
                out.append(reference);
                out.append("/");
                out.append(self.repo.as_str());
                out.append("-");
                out.append(reference);
                out.append(".zip");
            },
            RepoPlatform::Gitea => {
                out.append("https://gitea.com/");
                out.append(self.user.as_str());
                out.append("/");
                out.append(self.repo.as_str());
                out.append("/archive/");
                out.append(reference);
                out.append(".zip");
            },
            RepoPlatform::Other(_) => {},
        }
        out
    }
}

/// A failure to understand a repository reference.
#[derive(Debug, Clone, PartialEq, Eq)]
pub enum RepoError {
    InvalidUrl { input: String },
    MissingUserRepo { input: String },
    ShortFormat { input: String },
}

/// Whether a character separates a repository name from its reference.
pub open spec fn is_marker(c: char) -> bool {
    c == '@' || c == '#'
}

/// Index of the first `@` or `#` in `s`, or `-1` when absent.
pub open spec fn first_marker(s: Seq<char>) -> int
    decreases s.len(),
{
    if s.len() == 0 {
        -1
    } else if is_marker(s[0]) {
        0
    } else {
        let r = first_marker(s.drop_first());
        if r < 0 {
            -1
        } else {
            r + 1
        }
    }
}

proof fn lemma_first_marker_witness(s: Seq<char>, i: int)
    requires
        0 <= i < s.len(),
        is_marker(s[i]),
        forall|j: int| 0 <= j < i ==> !is_marker(#[trigger] s[j]),
    ensures
        first_marker(s) == i,
    decreases s.len(),
{
    if i > 0 {
        let t = s.drop_first();
        assert(is_marker(t[i - 1]));
        assert forall|j: int| 0 <= j < i - 1 implies !is_marker(#[trigger] t[j]) by {
            assert(t[j] == s[j + 1]);
        }
        lemma_first_marker_witness(t, i - 1);
    }
}

proof fn lemma_first_marker_absent(s: Seq<char>)
    requires
        forall|j: int| 0 <= j < s.len() ==> !is_marker(#[trigger] s[j]),
    ensures
        first_marker(s) == -1,
    decreases s.len(),
{
    if s.len() > 0 {
        lemma_first_marker_absent(s.drop_first());
    }
}

/// Whether a character is an ASCII hexadecimal digit.
pub open spec fn is_hex_char(c: char) -> bool {
    ||| ('0' as int) <= (c as int) <= ('9' as int)
    ||| ('a' as int) <= (c as int) <= ('f' as int)
    ||| ('A' as int) <= (c as int) <= ('F' as int)
}

/// Whether `s` looks like a full commit hash: exactly forty hexadecimal
/// digits.
pub open spec fn spec_is_commit(s: Seq<char>) -> bool {
    s.len() == 40 && forall|i: int| 0 <= i < s.len() ==> is_hex_char(#[trigger] s[i])
}

/// Whether `s` looks like a full commit hash.
fn is_probable_commit(s: &str) -> (r: bool)
    ensures
        r == spec_is_commit(s@),
{
    let n = s.unicode_len();
    if n != 40 {
        return false;
    }
    let mut i: usize = 0;
    while i < n
        invariant
            n == s@.len(),
            i <= n,
            forall|j: int| 0 <= j < i ==> is_hex_char(#[trigger] s@[j]),
        decreases n - i,
    {
        let c = s.get_char(i) as u32;
        let digit = c >= 48 && c <= 57;
        let lower = c >= 97 && c <= 102;
        let upper = c >= 65 && c <= 70;
        if !(digit || lower || upper) {
            return false;
        }
        i = i + 1;
    }
    true
}

/// Whether shorthand input matches the grammar `user/repo`, optionally
/// followed by `@ref` or `#ref`: the user part is everything before the
/// first `/`; the repository part runs to the first `@` or `#`, if any;
/// every part is non-empty and free of whitespace.
pub open spec fn short_wf(input: Seq<char>) -> bool {
    let si = first_index_of(input, '/');
    &&& si > 0
    &&& no_ws(input.take(si))
    &&& {
        let rest = input.skip(si + 1);
        let mi = first_marker(rest);
        if mi < 0 {
            rest.len() > 0 && no_ws(rest)
        } else {
            mi > 0 && no_ws(rest.take(mi)) && rest.len() - mi - 1 > 0 && no_ws(rest.skip(mi + 1))
        }
    }
}

/// What well-formed shorthand input parses to.  The platform defaults to
/// GitHub; a `#` anywhere in the input makes the reference a branch, a
/// forty-digit hexadecimal reference is a commit, anything else a tag.
pub open spec fn short_parses_to(input: Seq<char>, info: RepoInfo) -> bool {
    let si = first_index_of(input, '/');
    let rest = input.skip(si + 1);
    let mi = first_marker(rest);
    &&& info.platform is GitHub
    &&& info.user@ == input.take(si)
    &&& if mi < 0 {
        info.repo@ == rest && info.git_ref is Default
    } else {
        let rf = rest.skip(mi + 1);
        &&& info.repo@ == rest.take(mi)
        &&& if first_index_of(input, '#') >= 0 {
            info.git_ref matches GitRef::Branch(b) && b@ == rf
        } else if spec_is_commit(rf) {
            info.git_ref matches GitRef::Commit(c) && c@ == rf
        } else {
            info.git_ref matches GitRef::Tag(t) && t@ == rf
        }
    }
}

/// Parses GitHub-style shorthand such as `user/repo`, `user/repo#branch`,
/// `user/repo@v1.2.3` or `user/repo@<40-digit-commit>`.
pub fn parse_from_short(input: &String) -> (r: Result<RepoInfo, RepoError>)
    ensures
        (r is Ok) <==> short_wf(input@),
        r matches Ok(info) ==> short_parses_to(input@, info),
        r matches Err(e) ==> e matches RepoError::ShortFormat { input: v } && v@ == input@,
{
    let n = input.unicode_len();
    let si = match find_char(input.as_str(), '/') {
        None => {
            proof {
                lemma_first_index_of_absent(input@, '/');
            }
            return Err(RepoError::ShortFormat { input: input.clone() });
        },
        Some(i) => i,
    };
    proof {
        lemma_first_index_of_witness(input@, '/', si as int);
    }
    if si == 0 {
        return Err(RepoError::ShortFormat { input: input.clone() });
    }
    let user = substring_of(input.as_str(), 0, si);
    if has_whitespace(user.as_str()) {
        proof {
            assert(user@ =~= input@.take(si as int));
        }
        return Err(RepoError::ShortFormat { input: input.clone() });
    }
    let rest = substring_of(input.as_str(), si + 1, n);
    proof {
        assert(user@ =~= input@.take(si as int));
        assert(rest@ =~= input@.skip(si as int + 1));
    }
    let apos = find_char(rest.as_str(), '@');
    let hpos = find_char(rest.as_str(), '#');
    let mpos: Option<usize> = match (apos, hpos) {
        (None, None) => None,
        (Some(a), None) => Some(a),
        (None, Some(h)) => Some(h),
        (Some(a), Some(h)) => Some(
            if a < h {
                a
            } else {
                h
            },
        ),
    };
    match mpos {
        None => {
            proof {
                lemma_first_marker_absent(rest@);
            }
            let m = rest.unicode_len();
            if m == 0 || has_whitespace(rest.as_str()) {
                return Err(RepoError::ShortFormat { input: input.clone() });
            }
            Ok(
                RepoInfo {
                    platform: RepoPlatform::GitHub,
                    user,
                    repo: rest,
                    git_ref: GitRef::Default,
                },
            )
        },
        Some(mi) => {
            proof {
                lemma_first_marker_witness(rest@, mi as int);
            }
            let m = rest.unicode_len();
            if mi == 0 {
                return Err(RepoError::ShortFormat { input: input.clone() });
            }
            let repo = substring_of(rest.as_str(), 0, mi);
            let rf = substring_of(rest.as_str(), mi + 1, m);
            proof {
                assert(repo@ =~= rest@.take(mi as int));
                assert(rf@ =~= rest@.skip(mi as int + 1));
            }
            if has_whitespace(repo.as_str()) || rf.unicode_len() == 0 || has_whitespace(
                rf.as_str(),
            ) {
                return Err(RepoError::ShortFormat { input: input.clone() });
            }
            let git_ref = match find_char(input.as_str(), '#') {
                Some(h) => {
                    proof {
                        lemma_first_index_of_witness(input@, '#', h as int);
                    }
                    GitRef::Branch(rf)
                },
                None => {
                    proof {
                        lemma_first_index_of_absent(input@, '#');
                    }
                    if is_probable_commit(rf.as_str()) {
                        GitRef::Commit(rf)
                    } else {
                        GitRef::Tag(rf)
                    }
                },
            };
            Ok(RepoInfo { platform: RepoPlatform::GitHub, user, repo, git_ref })
        },
    }
}

/// The part of a URL input before its `#` or `@` suffix, if any; a `#`
/// suffix is found first.
pub open spec fn spec_base(input: Seq<char>) -> Seq<char> {
    let h = first_index_of(input, '#');
    if h >= 0 {
        input.take(h)
    } else {
        let a = first_index_of(input, '@');
        if a >= 0 {
            input.take(a)
        } else {
            input
        }
    }
}

/// Whether the URL form is well-formed: the base parses as a URL with a
/// host, and its path holds at least a user and a repository segment.
pub open spec fn url_wf(input: Seq<char>) -> bool {
    &&& url_ok(spec_base(input))
    &&& url_host(spec_base(input)) is Some
    &&& url_path_segments(spec_base(input)).len() >= 2
}

/// Which platform a host name selects.
pub open spec fn platform_matches(host: Seq<char>, p: RepoPlatform) -> bool {
    if host == "github.com"@ {
        p is GitHub
    } else if host == "gitlab.com"@ {
        p is GitLab
    } else if is_substring("gitea"@, host) {
        p is Gitea
    } else {
        p matches RepoPlatform::Other(h) && h@ == host
    }
}

/// Which reference the input's suffix selects: `#` means a branch, `@`
/// means a commit when it looks like one and a tag otherwise, and no
/// suffix means the default branch.
pub open spec fn ref_matches(input: Seq<char>, g: GitRef) -> bool {
    let h = first_index_of(input, '#');
    let a = first_index_of(input, '@');
    if h >= 0 {
        g matches GitRef::Branch(b) && b@ == input.skip(h + 1)
    } else if a >= 0 {
        if spec_is_commit(input.skip(a + 1)) {
            g matches GitRef::Commit(c) && c@ == input.skip(a + 1)
        } else {
            g matches GitRef::Tag(t) && t@ == input.skip(a + 1)
        }
    } else {
        g is Default
    }
}

/// What a well-formed URL input parses to: platform from the host, user
/// and repository from the first two path segments with any number of
/// trailing `.git` suffixes removed from the repository, and the reference
/// from the suffix.
pub open spec fn url_parses_to(input: Seq<char>, info: RepoInfo) -> bool {
    let base = spec_base(input);
    &&& url_host(base) matches Some(h) && platform_matches(h, info.platform)
    &&& info.user@ == url_path_segments(base)[0]
    &&& info.repo@ == spec_trim_end(url_path_segments(base)[1], ".git"@)
    &&& ref_matches(input, info.git_ref)
}

/// Parses a full URL such as `https://github.com/user/repo`, with an
/// optional `#branch`, `@tag` or `@commit` suffix.
pub fn parse_from_url(input: &String) -> (r: Result<RepoInfo, RepoError>)
    ensures
        (r is Ok) <==> url_wf(input@),
        r matches Ok(info) ==> url_parses_to(input@, info),
        r matches Err(e) ==> match e {
            RepoError::InvalidUrl { input: v } => v@ == input@ && !(url_ok(spec_base(input@))
                && url_host(spec_base(input@)) is Some),
            RepoError::MissingUserRepo { input: v } => v@ == input@ && url_ok(spec_base(input@))
                && url_host(spec_base(input@)) is Some && url_path_segments(
                spec_base(input@),
            ).len() < 2,
            RepoError::ShortFormat { .. } => false,
        },
{
    let n = input.unicode_len();
    let mut is_hash_suffix = false;
    let mut suffix: Option<String> = None;
    let base: String = match find_char(input.as_str(), '#') {
        Some(h) => {
            proof {
                lemma_first_index_of_witness(input@, '#', h as int);
            }
            is_hash_suffix = true;
            suffix = Some(substring_of(input.as_str(), h + 1, n));
            substring_of(input.as_str(), 0, h)
        },
        None => {
            proof {
                lemma_first_index_of_absent(input@, '#');
            }
            match find_char(input.as_str(), '@') {
                Some(a) => {
                    proof {
                        lemma_first_index_of_witness(input@, '@', a as int);
                    }
                    suffix = Some(substring_of(input.as_str(), a + 1, n));
                    substring_of(input.as_str(), 0, a)
                },
                None => {
                    proof {
                        lemma_first_index_of_absent(input@, '@');
                    }
                    input.clone()
                },
            }
        },
    };
    proof {
        assert(base@ =~= spec_base(input@));
    }
    match parse_url_parts(base.as_str()) {
        None => Err(RepoError::InvalidUrl { input: input.clone() }),
        Some((host, segments)) => {
            if segments.len() < 2 {
                proof {
                    assert(views_of(segments@).len() == segments@.len());
                }
                return Err(RepoError::MissingUserRepo { input: input.clone() });
            }
            proof {
                assert(views_of(segments@).len() == segments@.len());
                assert(views_of(segments@)[0] == segments@[0]@);
                assert(views_of(segments@)[1] == segments@[1]@);
            }
            let user = segments[0].clone();
            let repo = trim_end_matches_str(segments[1].as_str(), ".git");
            let platform = if crate::strutil::str_eq(host.as_str(), "github.com") {
                RepoPlatform::GitHub
            } else if crate::strutil::str_eq(host.as_str(), "gitlab.com") {
                RepoPlatform::GitLab
            } else if contains_sub(host.as_str(), "gitea") {
                RepoPlatform::Gitea
            } else {
                RepoPlatform::Other(host)
            };
            let git_ref = match suffix {
                None => GitRef::Default,
                Some(v) => {
                    if is_hash_suffix {
                        GitRef::Branch(v)
                    } else if is_probable_commit(v.as_str()) {
                        GitRef::Commit(v)
                    } else {
                        GitRef::Tag(v)
                    }
                },
            };
            Ok(RepoInfo { platform, user, repo, git_ref })
        },
    }
}

/// Parses a repository reference: a full `http://` or `https://` URL, or
/// GitHub shorthand.
pub fn parse_repo_input(input: &String) -> (r: Result<RepoInfo, RepoError>)
    ensures
        (is_prefix("http://"@, input@) || is_prefix("https://"@, input@)) ==> {
            &&& (r is Ok) <==> url_wf(input@)
            &&& r matches Ok(info) ==> url_parses_to(input@, info)
        },
        !(is_prefix("http://"@, input@) || is_prefix("https://"@, input@)) ==> {
            &&& (r is Ok) <==> short_wf(input@)
            &&& r matches Ok(info) ==> short_parses_to(input@, info)
        },
{
    if starts_with_str(input.as_str(), "http://") || starts_with_str(input.as_str(), "https://") {
        parse_from_url(input)
    } else {
        parse_from_short(input)
    }
}

} // verus!
