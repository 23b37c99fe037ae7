//! White-space trimming over character sequences, with an exact
//! specification.  The filename printed by the extraction tool arrives with a
//! trailing newline; the resolver trims it before deciding whether the tool
//! recognized any media at all.

use vstd::prelude::*;

verus! {

/// The Unicode white-space characters, the set `char::is_whitespace` accepts.
pub open spec fn is_space_char(c: char) -> bool {
    let u = c as u32;
    ||| u == 0x20
    ||| (0x09 <= u && u <= 0x0d)
    ||| u == 0x85
    ||| u == 0xa0
    ||| u == 0x1680
    ||| (0x2000 <= u && u <= 0x200a)
    ||| u == 0x2028
    ||| u == 0x2029
    ||| u == 0x202f
    ||| u == 0x205f
    ||| u == 0x3000
}

/// What remains of `s` after removing every leading white-space character.
pub open spec fn trim_front(s: Seq<char>) -> Seq<char>
    decreases s.len(),
{
    if s.len() > 0 && is_space_char(s[0]) {
        trim_front(s.drop_first())
    } else {
        s
    }
}

/// What remains of `s` after removing every trailing white-space character.
pub open spec fn trim_back(s: Seq<char>) -> Seq<char>
    decreases s.len(),
{
    if s.len() > 0 && is_space_char(s[s.len() - 1]) {
        trim_back(s.drop_last())
    } else {
        s
    }
}

/// What remains of `s` after removing leading and trailing white space.
pub open spec fn trim_spec(s: Seq<char>) -> Seq<char> {
    trim_back(trim_front(s))
}

/// Whether `c` is a white-space character.
pub fn is_space(c: char) -> (r: bool)
    ensures
        r == is_space_char(c),
{
    let u = c as u32;
    u == 0x20 || (0x09 <= u && u <= 0x0d) || u == 0x85 || u == 0xa0 || u == 0x1680 || (0x2000 <= u
        && u <= 0x200a) || u == 0x2028 || u == 0x2029 || u == 0x202f || u == 0x205f || u == 0x3000
}

/// Removes leading and trailing white space from `s`.
pub fn trim_str(s: &str) -> (r: String)
    ensures
        r@ == trim_spec(s@),
{
    let n = s.unicode_len();
    proof {
        assert(s@.subrange(0, n as int) =~= s@);
    }
    let mut start: usize = 0;
    while start < n && is_space(s.get_char(start))
        invariant
            n == s@.len(),
            start <= n,
            trim_front(s@) == trim_front(s@.subrange(start as int, n as int)),
        decreases n - start,
    {
        proof {
            let t = s@.subrange(start as int, n as int);
            assert(t.drop_first() =~= s@.subrange(start as int + 1, n as int));
        }
        start = start + 1;
    }
    if start == n {
        proof {
            assert(s@.subrange(start as int, n as int) =~= Seq::<char>::empty());
        }
        let r = String::new();
        return r;
    }
    let mut end: usize = n;
    while end > start && is_space(s.get_char(end - 1))
        invariant
            n == s@.len(),
            start <= end <= n,
            trim_back(s@.subrange(start as int, n as int)) == trim_back(
                s@.subrange(start as int, end as int),
            ),
        decreases end,
    {
        proof {
            let t = s@.subrange(start as int, end as int);
            assert(t.drop_last() =~= s@.subrange(start as int, end as int - 1));
        }
        end = end - 1;
    }
    if end == start {
        proof {
            assert(s@.subrange(start as int, end as int) =~= Seq::<char>::empty());
        }
        let r = String::new();
        return r;
    }
    let piece = s.substring_char(start, end);
    String::from_str(piece)
}

/// The trimmed sequence is empty exactly when every character of `s` is
/// white space; in particular an all-white-space tool output counts as no
/// output at all.
pub proof fn lemma_trim_empty_iff_all_space(s: Seq<char>)
    ensures
        trim_spec(s).len() == 0 <==> (forall|i: int| 0 <= i < s.len() ==> is_space_char(s[i])),
    decreases s.len(),
{
    if s.len() > 0 && is_space_char(s[0]) {
        let rest = s.drop_first();
        lemma_trim_empty_iff_all_space(rest);
        if forall|i: int| 0 <= i < rest.len() ==> is_space_char(rest[i]) {
            assert forall|i: int| 0 <= i < s.len() implies is_space_char(s[i]) by {
                if i > 0 {
                    assert(rest[i - 1] == s[i]);
                }
            }
        } else {
            let j = choose|i: int| 0 <= i < rest.len() && !is_space_char(rest[i]);
            assert(s[j + 1] == rest[j]);
        }
    } else if s.len() > 0 {
        lemma_trim_back_keeps_head(s);
        assert(!is_space_char(s[0]));
    }
}

/// Trimming an already trimmed sequence changes nothing: a resolved filename
/// is a fixed point of the trimming.
pub proof fn lemma_trim_idempotent(s: Seq<char>)
    ensures
        trim_spec(trim_spec(s)) == trim_spec(s),
{
    let t = trim_front(s);
    lemma_trim_front_head(s);
    if t.len() == 0 {
        assert(trim_spec(s) =~= Seq::<char>::empty());
    } else {
        lemma_trim_back_keeps_head(t);
        lemma_trim_back_last(t);
        let u = trim_back(t);
        assert(trim_front(u) == u);
        assert(trim_back(u) == u);
    }
}

/// After front trimming, a non-empty remainder never starts with white space.
pub proof fn lemma_trim_front_head(s: Seq<char>)
    ensures
        trim_front(s).len() > 0 ==> !is_space_char(trim_front(s)[0]),
    decreases s.len(),
{
    if s.len() > 0 && is_space_char(s[0]) {
        lemma_trim_front_head(s.drop_first());
    }
}

/// After back trimming, a non-empty remainder never ends with white space.
pub proof fn lemma_trim_back_last(s: Seq<char>)
    ensures
        trim_back(s).len() > 0 ==> !is_space_char(trim_back(s)[trim_back(s).len() - 1]),
    decreases s.len(),
{
    if s.len() > 0 && is_space_char(s[s.len() - 1]) {
        lemma_trim_back_last(s.drop_last());
    }
}

/// Back trimming a sequence whose head is not white space keeps that head and
/// never empties the sequence.
pub proof fn lemma_trim_back_keeps_head(s: Seq<char>)
    requires
        s.len() > 0,
        !is_space_char(s[0]),
    ensures
        trim_back(s).len() > 0,
        trim_back(s)[0] == s[0],
    decreases s.len(),
{
    if s.len() > 1 && is_space_char(s[s.len() - 1]) {
        lemma_trim_back_keeps_head(s.drop_last());
    }
}

} // verus!
