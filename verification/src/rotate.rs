//! Daily-rotation filenames: insert `_YYYYMMDD` between a recognizable stem
//! and extension, or append `_YYYYMMDD.log` to a path without one.

use vstd::prelude::*;
use vstd::string::StrSliceExecFns;
use crate::civil::CivilDate;
use crate::fmt_num::{padded_dec, push_padded};

verus! {

/// The index of the last occurrence of `c` in `p`, or -1 when there is none.
pub open spec fn last_pos(p: Seq<char>, c: char) -> int
    decreases p.len(),
{
    if p.len() == 0 {
        -1
    } else if p.last() == c {
        p.len() - 1
    } else {
        last_pos(p.drop_last(), c)
    }
}

/// What `last_pos` returns: a valid index of `c` with nothing but other
/// characters after it, or -1 when `c` does not occur.
pub proof fn lemma_last_pos(p: Seq<char>, c: char)
    ensures
        -1 <= last_pos(p, c) < p.len(),
        last_pos(p, c) >= 0 ==> p[last_pos(p, c)] == c,
        forall|j: int| last_pos(p, c) < j < p.len() ==> p[j] != c,
    decreases p.len(),
{
    if p.len() > 0 && p.last() != c {
        lemma_last_pos(p.drop_last(), c);
        assert forall|j: int| last_pos(p, c) < j < p.len() implies p[j] != c by {
            if j < p.len() - 1 {
                assert(p.drop_last()[j] == p[j]);
            }
        }
    }
}

/// The date tag inserted into rotated filenames: `_YYYYMMDD`.
pub open spec fn date_suffix(d: CivilDate) -> Seq<char> {
    "_"@ + padded_dec(d.year as nat, 4) + padded_dec(d.month as nat, 2) + padded_dec(
        d.day as nat,
        2,
    )
}

/// Whether the path has a recognizable stem/extension pair: a dot in the
/// final path component that is not its first character.
pub open spec fn has_ext(p: Seq<char>) -> bool {
    last_pos(p, '.') > last_pos(p, '/') + 1
}

/// The filename a sink rotated on date `d` writes to: with a recognizable
/// extension the date tag goes between stem and extension, otherwise
/// `_YYYYMMDD.log` is appended to the raw path.
pub open spec fn rotated_path_spec(p: Seq<char>, d: CivilDate) -> Seq<char> {
    if has_ext(p) {
        p.subrange(0, last_pos(p, '.')) + date_suffix(d) + "."@ + p.subrange(
            last_pos(p, '.') + 1,
            p.len() as int,
        )
    } else {
        p + date_suffix(d) + ".log"@
    }
}

/// The index of the last occurrence of `c` in `s`, if any.
fn last_index_of(s: &str, c: char) -> (r: Option<usize>)
    ensures
        match r {
            Some(i) => i == last_pos(s@, c) && i < s@.len(),
            None => last_pos(s@, c) == -1,
        },
{
    proof {
        lemma_last_pos(s@, c);
    }
    let n = s.unicode_len();
    let mut i = n;
    while i > 0
        invariant
            i <= n == s@.len(),
            forall|j: int| i <= j < s@.len() ==> s@[j] != c,
        decreases i,
    {
        i = i - 1;
        if s.get_char(i) == c {
            proof {
                lemma_last_pos(s@, c);
                if last_pos(s@, c) > i as int {
                    assert(s@[last_pos(s@, c)] != c);
                }
                if last_pos(s@, c) < i as int {
                    assert(s@[i as int] != c);
                }
            }
            return Some(i);
        }
    }
    None
}

/// Append the `_YYYYMMDD` tag for `d` to `out`.
fn push_date_suffix(out: &mut String, d: CivilDate)
    ensures
        final(out)@ == old(out)@ + date_suffix(d),
{
    out.append("_");
    push_padded(out, d.year as u64, 4);
    push_padded(out, d.month as u64, 2);
    push_padded(out, d.day as u64, 2);
    proof {
        assert(out@ =~= old(out)@ + date_suffix(d));
    }
}

/// Derive the rotated filename for `path` on date `d`.
pub fn rotated_path(path: &str, d: CivilDate) -> (r: String)
    ensures
        r@ == rotated_path_spec(path@, d),
{
    let n = path.unicode_len();
    let dot = last_index_of(path, '.');
    let slash = last_index_of(path, '/');
    let mut out = String::new();
    let ext_dot: Option<usize> = match (dot, slash) {
        (Some(di), Some(si)) => if di > si && di - si > 1 {
            Some(di)
        } else {
            None
        },
        (Some(di), None) => if di > 0 {
            Some(di)
        } else {
            None
        },
        _ => None,
    };
    match ext_dot {
        Some(di) => {
            out.append(path.substring_char(0, di));
            push_date_suffix(&mut out, d);
            out.append(".");
            out.append(path.substring_char(di + 1, n));
        },
        None => {
            out.append(path);
            push_date_suffix(&mut out, d);
            out.append(".log");
        },
    }
    proof {
        assert(out@ =~= rotated_path_spec(path@, d));
    }
    out
}

} // verus!
