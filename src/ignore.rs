//! Ignore rules of a build context: an ordered list of glob patterns, each of
//! which excludes or re-includes the paths it matches. The last matching rule
//! decides.
//!
//! Dialect: a pattern is a glob over the whole relative path, `/`-separated.
//! A rule also covers every path below a directory that it matches, so
//! `build` (or `build/`: trailing slashes are dropped) excludes `build/a/b.txt`,
//! while `node_modules` does not touch `node_modules.log`.
use vstd::prelude::*;

use crate::text::{
    chars_of, is_space, lemma_trim_start_at, string_of, trim, trim_bounds, trim_start,
};

verus! {

/// The longest pattern, in characters, that a rule may have.
pub const MAX_PATTERN_LEN: usize = 65536;

/// Whether globset accepts `pattern` and compiles it into a matcher.
pub uninterp spec fn glob_valid(pattern: Seq<char>) -> bool;

/// Whether the glob `pattern` matches the whole of `path`.
pub uninterp spec fn glob_match(pattern: Seq<char>, path: Seq<char>) -> bool;

#[verifier::external_type_specification]
#[verifier::external_body]
pub struct ExGlobSet(globset::GlobSet);

#[verifier::external_type_specification]
#[verifier::external_body]
pub struct ExGlobError(globset::Error);

/// Relies on `globset::Glob::new` and `GlobSetBuilder::build`: the pattern is
/// accepted or refused, a too large automaton included, by its text alone,
/// and the refusal comes back as an error. The length bound keeps the literal
/// matchers that `build` makes far below the size at which they would fail.
#[verifier::external_body]
fn compile_glob(pattern: &str) -> (r: Result<globset::GlobSet, globset::Error>)
    requires
        pattern@.len() <= MAX_PATTERN_LEN,
    ensures
        r is Ok <==> glob_valid(pattern@),
{
    match globset::Glob::new(pattern) {
        Ok(glob) => globset::GlobSetBuilder::new().add(glob).build(),
        Err(e) => Err(e),
    }
}

/// Relies on `globset::GlobSet::is_match`: whether the one compiled glob
/// matches `text`. The matcher of every `IgnoreRule` is compiled from its
/// `pattern` by `IgnoreRule::new`, the one place that builds a rule.
#[verifier::external_body]
fn glob_is_match(rule: &IgnoreRule, text: &str) -> (r: bool)
    ensures
        r == glob_match(rule.pattern@, text@),
{
    rule.matcher.is_match(text)
}

/// Whether `pattern` can be a rule: it is not too long and globset takes it.
pub open spec fn pattern_ok(pattern: Seq<char>) -> bool {
    pattern.len() <= MAX_PATTERN_LEN && glob_valid(pattern)
}

/// `s` without the slashes that end it.
pub open spec fn strip_trailing_slashes(s: Seq<char>) -> Seq<char>
    decreases s.len(),
{
    if s.len() > 0 && s.last() == '/' {
        strip_trailing_slashes(s.drop_last())
    } else {
        s
    }
}

/// The rule `(pattern, exclude)` that one line of an ignore file states:
/// none for a blank line or a `#` comment; a leading `!` re-includes.
pub open spec fn rule_of_line(line: Seq<char>) -> Option<(Seq<char>, bool)> {
    let t = trim(line);
    if t.len() == 0 || t[0] == '#' {
        None
    } else if t[0] == '!' {
        Some((strip_trailing_slashes(trim_start(t.drop_first())), false))
    } else {
        Some((strip_trailing_slashes(t), true))
    }
}

/// The lines of `s`, split at each `\n`; a `\r` before it is white space to
/// the rules.
pub open spec fn lines_of(s: Seq<char>) -> Seq<Seq<char>>
    decreases s.len(),
{
    if s.len() == 0 {
        seq![Seq::<char>::empty()]
    } else {
        let prev = lines_of(s.drop_last());
        if s.last() == '\n' {
            prev.push(Seq::<char>::empty())
        } else {
            prev.update(prev.len() - 1, prev.last().push(s.last()))
        }
    }
}

/// The rules that `lines` state, in order.
pub open spec fn rules_of(lines: Seq<Seq<char>>) -> Seq<(Seq<char>, bool)>
    decreases lines.len(),
{
    if lines.len() == 0 {
        Seq::empty()
    } else {
        match rule_of_line(lines.last()) {
            Some(r) => rules_of(lines.drop_last()).push(r),
            None => rules_of(lines.drop_last()),
        }
    }
}

/// Whether `line` states a rule whose pattern globset refuses.
pub open spec fn bad_line(line: Seq<char>) -> bool {
    match rule_of_line(line) {
        Some(r) => !pattern_ok(r.0),
        None => false,
    }
}

/// Whether `k` ends `path` or one of its ancestor directories.
pub open spec fn segment_end(path: Seq<char>, k: int) -> bool {
    0 < k <= path.len() && (k == path.len() || path[k] == '/')
}

/// Whether the rule with `pattern` applies to `path`: it matches the path
/// itself or a directory that holds it.
pub open spec fn rule_hits(pattern: Seq<char>, path: Seq<char>) -> bool {
    exists|k: int| segment_end(path, k) && #[trigger] glob_match(pattern, path.subrange(0, k))
}

/// Whether `rules` exclude `path`: the polarity of the last rule that
/// applies, and no exclusion when none does.
pub open spec fn excluded_by(rules: Seq<(Seq<char>, bool)>, path: Seq<char>) -> bool
    decreases rules.len(),
{
    if rules.len() == 0 {
        false
    } else if rule_hits(rules.last().0, path) {
        rules.last().1
    } else {
        excluded_by(rules.drop_last(), path)
    }
}

/// For every rule list and path, the last rule that applies decides, and a
/// path that no rule applies to is kept.
pub proof fn lemma_last_match_decides(rules: Seq<(Seq<char>, bool)>, path: Seq<char>)
    ensures
        (forall|i: int| 0 <= i < rules.len() ==> !rule_hits(#[trigger] rules[i].0, path))
            ==> !excluded_by(rules, path),
        forall|i: int|
            0 <= i < rules.len() && rule_hits(#[trigger] rules[i].0, path) && (forall|j: int|
                i < j < rules.len() ==> !rule_hits(#[trigger] rules[j].0, path))
                ==> excluded_by(rules, path) == rules[i].1,
    decreases rules.len(),
{
    if rules.len() > 0 {
        let prev = rules.drop_last();
        lemma_last_match_decides(prev, path);
        assert forall|i: int| 0 <= i < prev.len() implies prev[i] == rules[i] by {}
        let n = rules.len() - 1;
        assert forall|i: int|
            0 <= i < rules.len() && rule_hits(#[trigger] rules[i].0, path) && (forall|j: int|
                i < j < rules.len() ==> !rule_hits(#[trigger] rules[j].0, path)) implies excluded_by(
            rules,
            path,
        ) == rules[i].1 by {
            if i < n {
                assert(!rule_hits(rules[n].0, path));
                assert(prev[i] == rules[i]);
                assert forall|j: int| i < j < prev.len() implies !rule_hits(
                    #[trigger] prev[j].0,
                    path,
                ) by {
                    assert(prev[j] == rules[j]);
                }
            }
        }
        if forall|i: int| 0 <= i < rules.len() ==> !rule_hits(#[trigger] rules[i].0, path) {
            assert(!rule_hits(rules[n].0, path));
            assert forall|i: int| 0 <= i < prev.len() implies !rule_hits(
                #[trigger] prev[i].0,
                path,
            ) by {
                assert(prev[i] == rules[i]);
            }
        }
    }
}

/// A path below a directory that an excluding rule matches is excluded,
/// unless a later rule applies to the path.
pub proof fn lemma_directory_rule_covers_descendants(
    rules: Seq<(Seq<char>, bool)>,
    i: int,
    dir: Seq<char>,
    rest: Seq<char>,
)
    requires
        0 <= i < rules.len(),
        rules[i].1,
        dir.len() > 0,
        glob_match(rules[i].0, dir),
        forall|j: int|
            i < j < rules.len() ==> !rule_hits(#[trigger] rules[j].0, dir + seq!['/'] + rest),
    ensures
        excluded_by(rules, dir + seq!['/'] + rest),
{
    let path = dir + seq!['/'] + rest;
    let k = dir.len() as int;
    assert(path[k] == '/');
    assert(path.subrange(0, k) =~= dir);
    assert(segment_end(path, k));
    assert(rule_hits(rules[i].0, path));
    lemma_last_match_decides(rules, path);
}

/// One compiled ignore rule.
pub struct IgnoreRule {
    pattern: String,
    exclude: bool,
    matcher: globset::GlobSet,
}

impl View for IgnoreRule {
    type V = (Seq<char>, bool);

    closed spec fn view(&self) -> (Seq<char>, bool) {
        (self.pattern@, self.exclude)
    }
}

impl IgnoreRule {
    /// Compiles `pattern`; `exclude` false makes it a re-including rule.
    pub fn new(pattern: String, exclude: bool) -> (r: Result<IgnoreRule, PatternFault>)
        ensures
            r is Ok <==> pattern_ok(pattern@),
            r matches Err(PatternFault::TooLong) <==> pattern@.len() > MAX_PATTERN_LEN,
            r matches Ok(rule) ==> rule@ == (pattern@, exclude),
    {
        if pattern.as_str().unicode_len() > MAX_PATTERN_LEN {
            return Err(PatternFault::TooLong);
        }
        match compile_glob(pattern.as_str()) {
            Ok(matcher) => Ok(IgnoreRule { pattern, exclude, matcher }),
            Err(e) => Err(PatternFault::Refused(e)),
        }
    }

    /// Whether the rule applies to the path `path`.
    pub fn hits(&self, path: &Vec<char>) -> (r: bool)
        ensures
            r == rule_hits(self@.0, path@),
    {
        let n = path.len();
        if n == 0 {
            return false;
        }
        let mut k: usize = 1;
        while k < n
            invariant
                n == path@.len(),
                1 <= k <= n,
                forall|m: int|
                    0 < m < k && segment_end(path@, m) ==> !#[trigger] glob_match(
                        self.pattern@,
                        path@.subrange(0, m),
                    ),
            decreases n - k,
        {
            if path[k] == '/' {
                let prefix = string_of(path, 0, k);
                if glob_is_match(self, prefix.as_str()) {
                    assert(segment_end(path@, k as int));
                    return true;
                }
            }
            k = k + 1;
        }
        let whole = string_of(path, 0, n);
        let r = glob_is_match(self, whole.as_str());
        proof {
            if r {
                assert(segment_end(path@, n as int));
            }
            if !r && rule_hits(self@.0, path@) {
                let m = choose|m: int|
                    segment_end(path@, m) && #[trigger] glob_match(self.pattern@, path@.subrange(0, m));
                assert(0 < m < k);
            }
        }
        r
    }
}

/// Why a pattern cannot be a rule.
#[derive(Debug)]
pub enum PatternFault {
    /// It is longer than `MAX_PATTERN_LEN` characters.
    TooLong,
    /// globset refuses it.
    Refused(globset::Error),
}

/// The error of an ignore file with a pattern that cannot be a rule.
#[derive(Debug)]
pub struct PatternError {
    /// The line, counted from 1.
    pub line_number: usize,
    /// The line as the file holds it.
    pub line: String,
    pub cause: PatternFault,
}

/// The rules of an ignore file, in file order.
pub struct Dockerignore {
    rules: Vec<IgnoreRule>,
}

impl View for Dockerignore {
    type V = Seq<(Seq<char>, bool)>;

    closed spec fn view(&self) -> Seq<(Seq<char>, bool)> {
        self.rules@.map_values(|r: IgnoreRule| r@)
    }
}

/// The bounds in `cs` of each of its lines, in order.
fn line_bounds(cs: &Vec<char>) -> (r: Vec<(usize, usize)>)
    ensures
        r@.len() == lines_of(cs@).len(),
        forall|k: int|
            0 <= k < r@.len() ==> {
                let (lo, hi) = #[trigger] r@[k];
                &&& lo <= hi <= cs@.len()
                &&& cs@.subrange(lo as int, hi as int) == lines_of(cs@)[k]
            },
{
    let mut out: Vec<(usize, usize)> = Vec::new();
    let mut start: usize = 0;
    let mut i: usize = 0;
    while i < cs.len()
        invariant
            start <= i <= cs@.len(),
            lines_of(cs@.subrange(0, i as int)).len() == out@.len() + 1,
            lines_of(cs@.subrange(0, i as int)).last() == cs@.subrange(start as int, i as int),
            forall|k: int|
                0 <= k < out@.len() ==> {
                    let (lo, hi) = #[trigger] out@[k];
                    &&& lo <= hi <= i
                    &&& cs@.subrange(lo as int, hi as int) == lines_of(cs@.subrange(0, i as int))[k]
                },
        decreases cs@.len() - i,
    {
        let ghost pre = cs@.subrange(0, i as int);
        let ghost next = cs@.subrange(0, i + 1);
        assert(next.drop_last() =~= pre);
        assert(next.last() == cs@[i as int]);
        if cs[i] == '\n' {
            out.push((start, i));
            start = i + 1;
            assert(cs@.subrange(start as int, i + 1) =~= Seq::<char>::empty());
        } else {
            assert(cs@.subrange(start as int, i + 1) =~= cs@.subrange(start as int, i as int).push(
                cs@[i as int],
            ));
        }
        i = i + 1;
    }
    assert(cs@.subrange(0, cs@.len() as int) =~= cs@);
    out.push((start, i));
    out
}

/// The rule that `cs[lo..hi]` states, as pattern text and polarity.
fn rule_in_line(cs: &Vec<char>, lo: usize, hi: usize) -> (r: Option<(String, bool)>)
    requires
        lo <= hi <= cs@.len(),
    ensures
        match rule_of_line(cs@.subrange(lo as int, hi as int)) {
            Some(rule) => r matches Some(p) && p.0@ == rule.0 && p.1 == rule.1,
            None => r is None,
        },
{
    let (i, j) = trim_bounds(cs, lo, hi);
    if i == j || cs[i] == '#' {
        return None;
    }
    let ghost t = cs@.subrange(i as int, j as int);
    assert(t[0] == cs@[i as int]);
    let exclude = cs[i] != '!';
    let mut a = i;
    if !exclude {
        a = i + 1;
        while a < j && crate::text::space(cs[a])
            invariant
                i < a <= j <= cs@.len(),
                forall|k: int| i < k < a ==> is_space(#[trigger] cs@[k]),
            decreases j - a,
        {
            a = a + 1;
        }
        proof {
            let u = t.drop_first();
            assert forall|k: int| 0 <= k < a - i - 1 implies is_space(#[trigger] u[k]) by {
                assert(u[k] == cs@[k + i + 1]);
            }
            if a < j {
                assert(u[a - i - 1] == cs@[a as int]);
            }
            lemma_trim_start_at(u, a - i - 1);
            assert(u.subrange(a - i - 1, u.len() as int) =~= cs@.subrange(a as int, j as int));
        }
    } else {
        assert(t =~= cs@.subrange(a as int, j as int));
    }
    let mut b = j;
    while b > a && cs[b - 1] == '/'
        invariant
            a <= b <= j,
            j <= cs@.len(),
            strip_trailing_slashes(cs@.subrange(a as int, j as int)) == strip_trailing_slashes(
                cs@.subrange(a as int, b as int),
            ),
        decreases b - a,
    {
        assert(cs@.subrange(a as int, b - 1) =~= cs@.subrange(a as int, b as int).drop_last());
        b = b - 1;
    }
    assert(strip_trailing_slashes(cs@.subrange(a as int, b as int)) == cs@.subrange(
        a as int,
        b as int,
    ));
    Some((string_of(cs, a, b), exclude))
}

impl Dockerignore {
    /// Parses the text of an ignore file. A line that states a pattern that
    /// globset refuses fails the whole file, at the first such line; a file
    /// that states no rule gives `None`.
    pub fn parse(contents: &str) -> (r: Result<Option<Dockerignore>, PatternError>)
        ensures
            r is Err <==> exists|k: int|
                0 <= k < lines_of(contents@).len() && bad_line(#[trigger] lines_of(contents@)[k]),
            r matches Err(e) ==> {
                let k = e.line_number - 1;
                &&& 0 <= k < lines_of(contents@).len()
                &&& bad_line(lines_of(contents@)[k])
                &&& forall|m: int| 0 <= m < k ==> !bad_line(#[trigger] lines_of(contents@)[m])
                &&& e.line@ == lines_of(contents@)[k]
            },
            r matches Ok(None) ==> rules_of(lines_of(contents@)).len() == 0,
            r matches Ok(Some(d)) ==> d@ == rules_of(lines_of(contents@)) && d@.len() > 0,
    {
        let cs = chars_of(contents);
        let bounds = line_bounds(&cs);
        let ghost lines = lines_of(cs@);
        let mut rules: Vec<IgnoreRule> = Vec::new();
        let mut k: usize = 0;
        while k < bounds.len()
            invariant
                lines == lines_of(contents@),
                bounds@.len() == lines.len(),
                forall|m: int|
                    0 <= m < bounds@.len() ==> {
                        let (lo, hi) = #[trigger] bounds@[m];
                        &&& lo <= hi <= cs@.len()
                        &&& cs@.subrange(lo as int, hi as int) == lines[m]
                    },
                k <= bounds@.len(),
                forall|m: int| 0 <= m < k ==> !bad_line(#[trigger] lines[m]),
                rules@.map_values(|r: IgnoreRule| r@) == rules_of(lines.subrange(0, k as int)),
            decreases bounds@.len() - k,
        {
            let (lo, hi) = bounds[k];
            assert(lines.subrange(0, k + 1).drop_last() =~= lines.subrange(0, k as int));
            assert(lines.subrange(0, k + 1).last() == lines[k as int]);
            match rule_in_line(&cs, lo, hi) {
                Some((pattern, exclude)) => {
                    match IgnoreRule::new(pattern, exclude) {
                        Ok(rule) => {
                            let ghost before = rules@;
                            rules.push(rule);
                            assert(rules@.map_values(|r: IgnoreRule| r@) =~= before.map_values(
                                |r: IgnoreRule| r@,
                            ).push(rule@));
                        },
                        Err(cause) => {
                            let line = string_of(&cs, lo, hi);
                            return Err(PatternError { line_number: k + 1, line, cause });
                        },
                    }
                },
                None => {},
            }
            k = k + 1;
        }
        assert(lines.subrange(0, k as int) =~= lines);
        if rules.len() == 0 {
            Ok(None)
        } else {
            Ok(Some(Dockerignore { rules }))
        }
    }

    /// Whether the rules exclude the relative path `rel_path` (`/`-separated).
    pub fn is_ignored(&self, rel_path: &str) -> (r: bool)
        ensures
            r == excluded_by(self@, rel_path@),
    {
        let path = chars_of(rel_path);
        let mut excluded = false;
        let mut i: usize = 0;
        while i < self.rules.len()
            invariant
                i <= self@.len(),
                self@.len() == self.rules@.len(),
                path@ == rel_path@,
                excluded == excluded_by(self@.subrange(0, i as int), rel_path@),
            decreases self.rules@.len() - i,
        {
            let rule = &self.rules[i];
            assert(self@.subrange(0, i + 1).drop_last() =~= self@.subrange(0, i as int));
            assert(self@.subrange(0, i + 1).last() == rule@);
            if rule.hits(&path) {
                excluded = rule.exclude;
            }
            i = i + 1;
        }
        assert(self@.subrange(0, i as int) =~= self@);
        excluded
    }
}

} // verus!
