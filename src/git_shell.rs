//! The SSH git shell: which git service a forced command asks for, and the
//! repository path it may touch.
use vstd::prelude::*;

use crate::text::{chars_of, string_of, trim, trim_bounds};

verus! {

/// Why a forced command is refused.
#[derive(Debug)]
pub enum GitShellError {
    /// The command is none of the served git services.
    UnsupportedCommand(String),
    /// The service names no repository.
    MissingRepoPath(String),
    /// The repository path holds `..`.
    PathTraversal(String),
    /// The repository path is empty once leading slashes are dropped.
    InvalidRepoPath(String),
}

/// The git services that the shell serves, in the order they are tried.
pub open spec fn services() -> Seq<Seq<char>> {
    seq!["git-receive-pack"@, "git-upload-pack"@, "git-upload-archive"@]
}

/// What follows `name` and one space at the start of `cmd`, if `cmd` starts so.
pub open spec fn after_service(cmd: Seq<char>, name: Seq<char>) -> Option<Seq<char>> {
    if cmd.len() > name.len() && cmd.subrange(0, name.len() as int) == name && cmd[name.len() as int]
        == ' ' {
        Some(cmd.subrange(name.len() as int + 1, cmd.len() as int))
    } else {
        None
    }
}

/// The first service that `cmd` starts with.
pub open spec fn service_of(cmd: Seq<char>) -> Option<int> {
    if after_service(cmd, services()[0]) is Some {
        Some(0)
    } else if after_service(cmd, services()[1]) is Some {
        Some(1)
    } else if after_service(cmd, services()[2]) is Some {
        Some(2)
    } else {
        None
    }
}

/// `s` without one pair of surrounding single or double quotes.
pub open spec fn unquote(s: Seq<char>) -> Seq<char> {
    if s.len() >= 2 && s[0] == '\'' && s.last() == '\'' {
        s.subrange(1, s.len() - 1)
    } else if s.len() >= 2 && s[0] == '"' && s.last() == '"' {
        s.subrange(1, s.len() - 1)
    } else {
        s
    }
}

/// The repository argument of `cmd` for the service at `k`.
pub open spec fn repo_arg(cmd: Seq<char>, k: int) -> Seq<char> {
    unquote(trim(after_service(trim(cmd), services()[k])->Some_0))
}

/// Where `name` followed by one space starts `cs[lo..hi]`: the index after the space.
fn after_name(cs: &Vec<char>, lo: usize, hi: usize, name: &str) -> (r: Option<usize>)
    requires
        lo <= hi <= cs@.len(),
    ensures
        match after_service(cs@.subrange(lo as int, hi as int), name@) {
            Some(rest) => r matches Some(i) && lo <= i <= hi && cs@.subrange(i as int, hi as int)
                == rest && i == lo + name@.len() + 1,
            None => r is None,
        },
{
    let ghost s = cs@.subrange(lo as int, hi as int);
    let ns = chars_of(name);
    let n = ns.len();
    if hi - lo <= n {
        return None;
    }
    let mut k: usize = 0;
    while k < n
        invariant
            n == ns@.len(),
            ns@ == name@,
            lo + n < hi <= cs@.len(),
            s == cs@.subrange(lo as int, hi as int),
            k <= n,
            forall|m: int| 0 <= m < k ==> cs@[lo + m] == #[trigger] ns@[m],
        decreases n - k,
    {
        if cs[lo + k] != ns[k] {
            assert(s[k as int] == cs@[lo + k]);
            assert(s.subrange(0, n as int)[k as int] != name@[k as int]);
            return None;
        }
        k = k + 1;
    }
    assert(s.subrange(0, n as int) =~= name@) by {
        assert forall|m: int| 0 <= m < n implies s.subrange(0, n as int)[m] == name@[m] by {
            assert(s[m] == cs@[lo + m]);
        }
    }
    assert(s[n as int] == cs@[lo + n]);
    if cs[lo + n] != ' ' {
        return None;
    }
    assert(s.subrange(n + 1, s.len() as int) =~= cs@.subrange(lo + n + 1, hi as int));
    Some(lo + n + 1)
}

/// Reads a forced command such as `git-receive-pack '/org/team/app.git'`:
/// the service, and the repository path without surrounding quotes.
pub fn parse_git_command(cmd: &str) -> (r: Result<(&'static str, String), GitShellError>)
    ensures
        match service_of(trim(cmd@)) {
            None => r matches Err(GitShellError::UnsupportedCommand(_)),
            Some(k) => if repo_arg(cmd@, k).len() == 0 {
                r matches Err(GitShellError::MissingRepoPath(_))
            } else {
                r matches Ok((name, repo)) && name@ == services()[k] && repo@ == repo_arg(cmd@, k)
            },
        },
{
    let cs = chars_of(cmd);
    let (lo, hi) = trim_bounds(&cs, 0, cs.len());
    assert(cs@.subrange(0, cs@.len() as int) =~= cs@);
    let ghost t = trim(cmd@);
    let mut service: &'static str = "git-receive-pack";
    let mut found = after_name(&cs, lo, hi, service);
    if found.is_none() {
        service = "git-upload-pack";
        found = after_name(&cs, lo, hi, service);
        if found.is_none() {
            service = "git-upload-archive";
            found = after_name(&cs, lo, hi, service);
        }
    }
    let start = match found {
        Some(start) => start,
        None => {
            let text = string_of(&cs, lo, hi);
            return Err(GitShellError::UnsupportedCommand(text));
        },
    };
    let ghost k = service_of(t)->Some_0;
    assert(service@ == services()[k]);
    let (a, b) = trim_bounds(&cs, start, hi);
    let ghost u = cs@.subrange(a as int, b as int);
    let mut x = a;
    let mut y = b;
    if b - a >= 2 && ((cs[a] == '\'' && cs[b - 1] == '\'') || (cs[a] == '"' && cs[b - 1] == '"')) {
        assert(u[0] == cs@[a as int] && u.last() == cs@[b - 1]);
        assert(u.subrange(1, u.len() - 1) =~= cs@.subrange(a + 1, b - 1));
        x = a + 1;
        y = b - 1;
    } else if b - a >= 2 {
        assert(u[0] == cs@[a as int] && u.last() == cs@[b - 1]);
    }
    if x == y {
        let text = string_of(&cs, lo, hi);
        return Err(GitShellError::MissingRepoPath(text));
    }
    Ok((service, string_of(&cs, x, y)))
}

/// Whether `s` holds `..`.
pub open spec fn has_dot_dot(s: Seq<char>) -> bool {
    exists|i: int| 0 <= i && i + 1 < s.len() && #[trigger] s[i] == '.' && s[i + 1] == '.'
}

/// `s` without the slashes that start it.
pub open spec fn strip_leading_slashes(s: Seq<char>) -> Seq<char>
    decreases s.len(),
{
    if s.len() > 0 && s[0] == '/' {
        strip_leading_slashes(s.drop_first())
    } else {
        s
    }
}

proof fn lemma_strip_leading_at(s: Seq<char>, i: int)
    requires
        0 <= i <= s.len(),
        forall|k: int| 0 <= k < i ==> #[trigger] s[k] == '/',
        i == s.len() || s[i] != '/',
    ensures
        strip_leading_slashes(s) == s.subrange(i, s.len() as int),
    decreases i,
{
    if i == 0 {
        assert(s.subrange(0, s.len() as int) =~= s);
    } else {
        let t = s.drop_first();
        assert forall|k: int| 0 <= k < i - 1 implies #[trigger] t[k] == '/' by {
            assert(t[k] == s[k + 1]);
        }
        lemma_strip_leading_at(t, i - 1);
        assert(t.subrange(i - 1, t.len() as int) =~= s.subrange(i, s.len() as int));
    }
}

/// The repository path relative to the git root: refused when it holds
/// `..`, and without its leading slashes.
pub fn sanitize_repo_path(raw: &str) -> (r: Result<String, GitShellError>)
    ensures
        has_dot_dot(raw@) ==> r matches Err(GitShellError::PathTraversal(_)),
        !has_dot_dot(raw@) && strip_leading_slashes(raw@).len() == 0 ==> r matches Err(
            GitShellError::InvalidRepoPath(_),
        ),
        !has_dot_dot(raw@) && strip_leading_slashes(raw@).len() > 0 ==> (r matches Ok(p) && p@
            == strip_leading_slashes(raw@)),
{
    let cs = chars_of(raw);
    let n = cs.len();
    let mut i: usize = 0;
    while n > 0 && i < n - 1
        invariant
            i <= n,
            n == cs@.len(),
            cs@ == raw@,
            forall|k: int| 0 <= k < i && k + 1 < n ==> !(#[trigger] cs@[k] == '.' && cs@[k + 1] == '.'),
        decreases n - i,
    {
        if cs[i] == '.' && cs[i + 1] == '.' {
            return Err(GitShellError::PathTraversal(string_of(&cs, 0, n)));
        }
        i = i + 1;
    }
    let mut a: usize = 0;
    while a < n && cs[a] == '/'
        invariant
            a <= n == cs@.len(),
            forall|k: int| 0 <= k < a ==> #[trigger] cs@[k] == '/',
        decreases n - a,
    {
        a = a + 1;
    }
    proof {
        lemma_strip_leading_at(cs@, a as int);
    }
    if a == n {
        return Err(GitShellError::InvalidRepoPath(string_of(&cs, 0, n)));
    }
    Ok(string_of(&cs, a, n))
}

} // verus!
