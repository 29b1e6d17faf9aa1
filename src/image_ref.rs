//! Splitting an image reference `repository[:tag]` into its two parts.
use vstd::prelude::*;

use crate::text::{chars_of, string_of};

verus! {

/// The index of the last `c` in `s`, or -1 when `s` holds none.
pub open spec fn last_pos(s: Seq<char>, c: char) -> int
    decreases s.len(),
{
    if s.len() == 0 {
        -1
    } else if s.last() == c {
        s.len() - 1
    } else {
        last_pos(s.drop_last(), c)
    }
}

/// The tag given to a reference that names none.
pub open spec fn default_tag() -> Seq<char> {
    seq!['l', 'a', 't', 'e', 's', 't']
}

/// Where the tag separator of `s` stands: the last `:` when it comes after the
/// last `/` (so it is no `host:port` separator) and leaves both sides non-empty.
pub open spec fn tag_colon(s: Seq<char>) -> Option<int> {
    let c = last_pos(s, ':');
    if c > last_pos(s, '/') && 0 < c && c + 1 < s.len() {
        Some(c)
    } else {
        None
    }
}

/// The pair `(repository, tag)` that `s` denotes. A reference without a tag
/// separator is all repository, with the default tag.
pub open spec fn split_spec(s: Seq<char>) -> (Seq<char>, Seq<char>) {
    match tag_colon(s) {
        Some(c) => (s.subrange(0, c), s.subrange(c + 1, s.len() as int)),
        None => (s, default_tag()),
    }
}

proof fn lemma_last_pos_bounds(s: Seq<char>, c: char)
    ensures
        -1 <= last_pos(s, c) < s.len(),
        last_pos(s, c) >= 0 ==> s[last_pos(s, c)] == c,
    decreases s.len(),
{
    if s.len() > 0 && s.last() != c {
        lemma_last_pos_bounds(s.drop_last(), c);
    }
}

/// The position of the last `c` in `cs`.
fn last_index(cs: &Vec<char>, c: char) -> (r: Option<usize>)
    ensures
        match r {
            Some(k) => k == last_pos(cs@, c),
            None => last_pos(cs@, c) == -1,
        },
{
    let mut found: Option<usize> = None;
    let mut i: usize = 0;
    while i < cs.len()
        invariant
            i <= cs@.len(),
            match found {
                Some(k) => k == last_pos(cs@.subrange(0, i as int), c),
                None => last_pos(cs@.subrange(0, i as int), c) == -1,
            },
        decreases cs@.len() - i,
    {
        assert(cs@.subrange(0, i + 1).drop_last() =~= cs@.subrange(0, i as int));
        if cs[i] == c {
            found = Some(i);
        }
        i = i + 1;
    }
    assert(cs@.subrange(0, cs@.len() as int) =~= cs@);
    found
}

/// Splits a full image reference into `(repository, tag)`.
///
/// The tag follows the last `:` when that `:` comes after the last `/`;
/// a `:` before the last `/` belongs to a registry `host:port`. A reference
/// with no tag, or whose tag or repository would be empty, is taken whole as
/// the repository, with the tag `latest`.
pub fn split_image(image: &str) -> (r: (String, String))
    ensures
        r.0@ == split_spec(image@).0,
        r.1@ == split_spec(image@).1,
        image@.len() > 0 ==> r.0@.len() > 0,
        r.1@.len() > 0,
{
    let cs = chars_of(image);
    let colon = last_index(&cs, ':');
    let slash = last_index(&cs, '/');
    proof {
        lemma_last_pos_bounds(cs@, ':');
        lemma_last_pos_bounds(cs@, '/');
    }
    let split_at: Option<usize> = match colon {
        Some(c) => {
            assert(c < cs@.len());
            let after_slash = match slash {
                Some(s) => c > s,
                None => true,
            };
            if after_slash && 0 < c && c < cs.len() - 1 {
                Some(c)
            } else {
                None
            }
        },
        None => None,
    };
    match split_at {
        Some(c) => (string_of(&cs, 0, c), string_of(&cs, c + 1, cs.len())),
        None => {
            assert(cs@.subrange(0, cs@.len() as int) =~= cs@);
            let mut tag = String::new();
            crate::text::push_char(&mut tag, 'l');
            crate::text::push_char(&mut tag, 'a');
            crate::text::push_char(&mut tag, 't');
            crate::text::push_char(&mut tag, 'e');
            crate::text::push_char(&mut tag, 's');
            crate::text::push_char(&mut tag, 't');
            assert(tag@ =~= default_tag());
            (string_of(&cs, 0, cs.len()), tag)
        },
    }
}

} // verus!
