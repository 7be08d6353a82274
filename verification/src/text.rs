//! Verified text helpers: substring search, removal of a pattern, and the
//! file-name / stem / extension decomposition of a path written as a string.

use vstd::prelude::*;

verus! {

/// The pattern `p` occurs in `s` starting at position `i`.
pub open spec fn is_substring_at(s: Seq<char>, p: Seq<char>, i: int) -> bool {
    0 <= i && i + p.len() <= s.len() && s.subrange(i, i + p.len()) == p
}

/// The pattern `p` occurs somewhere in `s`.
pub open spec fn contains_seq(s: Seq<char>, p: Seq<char>) -> bool {
    exists|i: int| is_substring_at(s, p, i)
}

/// `s` with every occurrence of `p` removed, scanning left to right and
/// never rescanning the removed region (the semantics of `str::replace`
/// with an empty replacement).
pub open spec fn remove_all_spec(s: Seq<char>, p: Seq<char>) -> Seq<char>
    decreases s.len(),
{
    if p.len() == 0 || s.len() < p.len() {
        s
    } else if s.subrange(0, p.len() as int) == p {
        remove_all_spec(s.skip(p.len() as int), p)
    } else {
        seq![s[0]] + remove_all_spec(s.skip(1), p)
    }
}

/// Index of the last occurrence of `c` in `s`, or -1 if `c` does not occur.
pub open spec fn last_index_of(s: Seq<char>, c: char) -> int
    decreases s.len(),
{
    if s.len() == 0 {
        -1
    } else if s.last() == c {
        s.len() - 1
    } else {
        last_index_of(s.drop_last(), c)
    }
}

/// What `last_index_of` returns: a position of `c` with no later occurrence,
/// or -1 when `c` is absent.
pub proof fn lemma_last_index_of(s: Seq<char>, c: char)
    ensures
        ({
            let i = last_index_of(s, c);
            &&& -1 <= i < s.len()
            &&& i >= 0 ==> s[i] == c
            &&& forall|j: int| i < j < s.len() ==> s[j] != c
        }),
    decreases s.len(),
{
    if s.len() == 0 {
    } else if s.last() == c {
    } else {
        lemma_last_index_of(s.drop_last(), c);
        assert forall|j: int| last_index_of(s, c) < j < s.len() implies s[j] != c by {
            if j < s.len() - 1 {
                assert(s.drop_last()[j] == s[j]);
            }
        }
    }
}

/// The part of `path` after its last `/`; the whole of `path` if it has none.
pub open spec fn file_name_spec(p: Seq<char>) -> Seq<char> {
    p.skip(last_index_of(p, '/') + 1)
}

/// The part of a file name before its last `.`, the whole name when there is
/// no `.` or only a leading one.
pub open spec fn stem_spec(name: Seq<char>) -> Seq<char> {
    let d = last_index_of(name, '.');
    if d <= 0 {
        name
    } else {
        name.take(d)
    }
}

/// The part of a file name after its last `.`, absent when there is no `.`
/// or only a leading one.
pub open spec fn ext_spec(name: Seq<char>) -> Option<Seq<char>> {
    let d = last_index_of(name, '.');
    if d <= 0 {
        None
    } else {
        Some(name.skip(d + 1))
    }
}

/// Character-wise string equality.
pub fn str_eq(a: &str, b: &str) -> (r: bool)
    ensures
        r == (a@ == b@),
{
    let alen = a.unicode_len();
    let blen = b.unicode_len();
    if alen != blen {
        return false;
    }
    let mut i: usize = 0;
    while i < alen
        invariant
            i <= alen,
            alen == a@.len(),
            alen == b@.len(),
            forall|j: int| 0 <= j < i ==> a@[j] == b@[j],
        decreases alen - i,
    {
        if a.get_char(i) != b.get_char(i) {
            return false;
        }
        i = i + 1;
    }
    proof {
        assert(a@ =~= b@);
    }
    true
}

/// Whether `p` occurs in `s` at position `i`.
pub fn match_at(s: &str, p: &str, i: usize) -> (r: bool)
    requires
        i + p@.len() <= s@.len(),
    ensures
        r == (s@.subrange(i as int, i + p@.len()) == p@),
{
    let slen = s.unicode_len();
    let plen = p.unicode_len();
    let mut j: usize = 0;
    while j < plen
        invariant
            j <= plen,
            plen == p@.len(),
            slen == s@.len(),
            i + p@.len() <= s@.len(),
            forall|k: int| 0 <= k < j ==> s@[i + k] == p@[k],
        decreases plen - j,
    {
        if s.get_char(i + j) != p.get_char(j) {
            proof {
                assert(s@.subrange(i as int, i + p@.len())[j as int] == s@[i + j]);
            }
            return false;
        }
        j = j + 1;
    }
    proof {
        assert(s@.subrange(i as int, i + p@.len()) =~= p@);
    }
    true
}

/// Whether `p` occurs anywhere in `s`.
pub fn contains_str(s: &str, p: &str) -> (r: bool)
    ensures
        r == contains_seq(s@, p@),
{
    let slen = s.unicode_len();
    let plen = p.unicode_len();
    if plen > slen {
        return false;
    }
    if plen == 0 {
        proof {
            assert(s@.subrange(0, 0) =~= p@);
            assert(is_substring_at(s@, p@, 0));
        }
        return true;
    }
    let limit = slen - plen;
    let mut i: usize = 0;
    while i <= limit
        invariant
            1 <= plen <= slen,
            slen == s@.len(),
            plen == p@.len(),
            limit == slen - plen,
            i <= limit + 1,
            forall|k: int| 0 <= k < i ==> !is_substring_at(s@, p@, k),
        decreases limit - i + 1,
    {
        if match_at(s, p, i) {
            proof {
                assert(is_substring_at(s@, p@, i as int));
            }
            return true;
        }
        i = i + 1;
    }
    false
}

/// `s` with every occurrence of `p` removed.
pub fn remove_all(s: &str, p: &str) -> (r: String)
    requires
        p@.len() > 0,
    ensures
        r@ == remove_all_spec(s@, p@),
{
    let slen = s.unicode_len();
    let plen = p.unicode_len();
    let mut out = String::new();
    let mut i: usize = 0;
    proof {
        assert(s@.skip(0) =~= s@);
    }
    while i < slen
        invariant
            i <= slen,
            slen == s@.len(),
            plen == p@.len(),
            p@.len() > 0,
            out@ + remove_all_spec(s@.skip(i as int), p@) == remove_all_spec(s@, p@),
        decreases slen - i,
    {
        if plen <= slen - i && match_at(s, p, i) {
            proof {
                let tail = s@.skip(i as int);
                assert(tail.subrange(0, p@.len() as int) =~= s@.subrange(i as int, i + p@.len()));
                assert(tail.skip(p@.len() as int) =~= s@.skip(i + p@.len()));
            }
            i = i + plen;
        } else {
            let ch = s.substring_char(i, i + 1);
            let ghost old_out = out@;
            out.append(ch);
            proof {
                let tail = s@.skip(i as int);
                assert(ch@ =~= seq![s@[i as int]]);
                if tail.len() < p@.len() {
                    // Both the remainder and its tail are shorter than the
                    // pattern, so the removal leaves them unchanged.
                    assert(remove_all_spec(tail, p@) == tail);
                    assert(s@.skip(i as int + 1).len() < p@.len());
                    assert(remove_all_spec(s@.skip(i as int + 1), p@) == s@.skip(i as int + 1));
                    assert(tail =~= seq![s@[i as int]] + s@.skip(i as int + 1));
                } else {
                    assert(tail.subrange(0, p@.len() as int) =~= s@.subrange(i as int, i + p@.len()));
                    assert(tail[0] == s@[i as int]);
                    assert(tail.skip(1) =~= s@.skip(i as int + 1));
                    assert(remove_all_spec(tail, p@) == seq![s@[i as int]]
                        + remove_all_spec(s@.skip(i as int + 1), p@));
                }
                assert((old_out + ch@) + remove_all_spec(s@.skip(i as int + 1), p@) =~= old_out
                    + (ch@ + remove_all_spec(s@.skip(i as int + 1), p@)));
            }
            i = i + 1;
        }
    }
    proof {
        assert(s@.skip(slen as int) =~= Seq::<char>::empty());
        assert(out@ + Seq::<char>::empty() =~= out@);
    }
    out
}

/// Position of the last occurrence of `c` in `s`, if any.
pub fn rfind_char(s: &str, c: char) -> (r: Option<usize>)
    ensures
        ({
            let l = last_index_of(s@, c);
            &&& -1 <= l < s@.len()
            &&& r == (if l >= 0 {
                Some(l as usize)
            } else {
                None::<usize>
            })
        }),
{
    let mut i = s.unicode_len();
    while i > 0
        invariant
            i <= s@.len(),
            forall|j: int| i <= j < s@.len() ==> s@[j] != c,
        decreases i,
    {
        i = i - 1;
        if s.get_char(i) == c {
            proof {
                lemma_last_index_of(s@, c);
                let l = last_index_of(s@, c);
                if l < i {
                    assert(s@[i as int] != c);
                }
                if l > i {
                    assert(s@[l] != c);
                }
                assert(l == i);
            }
            return Some(i);
        }
    }
    proof {
        lemma_last_index_of(s@, c);
        let l = last_index_of(s@, c);
        if l >= 0 {
            assert(s@[l] != c);
        }
    }
    None
}

/// The part of `path` after its last `/`, or all of it if it has none.
pub fn file_name(path: &str) -> (r: String)
    ensures
        r@ == file_name_spec(path@),
{
    let n = path.unicode_len();
    match rfind_char(path, '/') {
        Some(i) => {
            let r = path.substring_char(i + 1, n);
            proof {
                assert(path@.skip(i + 1) =~= path@.subrange(i + 1, path@.len() as int));
            }
            String::from_str(r)
        },
        None => {
            proof {
                assert(path@.skip(0) =~= path@);
            }
            String::from_str(path)
        },
    }
}

/// Split a file name into its stem and its extension.
pub fn split_name(name: &str) -> (r: (String, Option<String>))
    ensures
        r.0@ == stem_spec(name@),
        r.1 matches Some(e) ==> ext_spec(name@) == Some(e@),
        r.1 is None ==> ext_spec(name@) is None,
{
    let n = name.unicode_len();
    match rfind_char(name, '.') {
        Some(d) if d > 0 => {
            let stem = name.substring_char(0, d);
            let ext = name.substring_char(d + 1, n);
            proof {
                assert(name@.take(d as int) =~= name@.subrange(0, d as int));
                assert(name@.skip(d + 1) =~= name@.subrange(d + 1, name@.len() as int));
            }
            (String::from_str(stem), Some(String::from_str(ext)))
        },
        _ => (String::from_str(name), None),
    }
}

} // verus!
