//! Draft handling of the ask box beneath the history list.
//!
//! The ask box keeps a local draft; on submit the draft is trimmed of
//! leading and trailing whitespace, an empty result is ignored, and a
//! non-empty result is emitted upward (upon which the caller clears the
//! draft). The primary ask control has no such step: it emits its text
//! unmodified.

use vstd::prelude::*;

verus! {

/// Whitespace as trimming understands it: the characters with the Unicode
/// White_Space property.
pub open spec fn is_space_char(c: char) -> bool {
    let u = c as u32;
    (9 <= u && u <= 13) || u == 32 || u == 0x85 || u == 0xA0 || u == 0x1680 || (0x2000 <= u && u
        <= 0x200A) || u == 0x2028 || u == 0x2029 || u == 0x202F || u == 0x205F || u == 0x3000
}

/// `s` with its leading whitespace removed.
pub open spec fn trim_front(s: Seq<char>) -> Seq<char>
    decreases s.len(),
{
    if s.len() > 0 && is_space_char(s[0]) {
        trim_front(s.drop_first())
    } else {
        s
    }
}

/// `s` with its trailing whitespace removed.
pub open spec fn trim_back(s: Seq<char>) -> Seq<char>
    decreases s.len(),
{
    if s.len() > 0 && is_space_char(s.last()) {
        trim_back(s.drop_last())
    } else {
        s
    }
}

/// `s` with both leading and trailing whitespace removed.
pub open spec fn trimmed(s: Seq<char>) -> Seq<char> {
    trim_back(trim_front(s))
}

fn is_space(c: char) -> (b: bool)
    ensures
        b == is_space_char(c),
{
    let u = c as u32;
    (9 <= u && u <= 13) || u == 32 || u == 0x85 || u == 0xA0 || u == 0x1680 || (0x2000 <= u && u
        <= 0x200A) || u == 0x2028 || u == 0x2029 || u == 0x202F || u == 0x205F || u == 0x3000
}

/// When everything before `i` is whitespace and `i` is the end or a
/// non-whitespace character, trimming the front keeps exactly the suffix
/// from `i` on.
proof fn lemma_trim_front_subrange(s: Seq<char>, i: int)
    requires
        0 <= i <= s.len(),
        forall|k: int| 0 <= k < i ==> is_space_char(s[k]),
        i < s.len() ==> !is_space_char(s[i]),
    ensures
        trim_front(s) == s.subrange(i, s.len() as int),
    decreases i,
{
    if i == 0 {
        assert(s.subrange(0, s.len() as int) =~= s);
    } else {
        let t = s.drop_first();
        lemma_trim_front_subrange(t, i - 1);
        assert(t.subrange(i - 1, t.len() as int) =~= s.subrange(i, s.len() as int));
    }
}

/// When everything from `j` on is whitespace and `j` is the start or sits
/// right after a non-whitespace character, trimming the back keeps exactly
/// the prefix up to `j`.
proof fn lemma_trim_back_subrange(s: Seq<char>, j: int)
    requires
        0 <= j <= s.len(),
        forall|k: int| j <= k < s.len() ==> is_space_char(s[k]),
        j > 0 ==> !is_space_char(s[j - 1]),
    ensures
        trim_back(s) == s.subrange(0, j),
    decreases s.len(),
{
    if j == s.len() {
        assert(s.subrange(0, j) =~= s);
    } else {
        let t = s.drop_last();
        lemma_trim_back_subrange(t, j);
        assert(t.subrange(0, j) =~= s.subrange(0, j));
    }
}

/// The ask box's submit step: the draft is trimmed; an all-whitespace draft
/// yields nothing (the submission is ignored and the draft kept), anything
/// else yields exactly the trimmed text for the caller to emit upward and
/// clear the draft on.
pub fn prepare_submission(draft: &str) -> (r: Option<String>)
    ensures
        trimmed(draft@).len() == 0 ==> r is None,
        trimmed(draft@).len() > 0 ==> (r matches Some(s) && s@ == trimmed(draft@)),
{
    let n = draft.unicode_len();
    let mut start: usize = 0;
    while start < n && is_space(draft.get_char(start))
        invariant
            n == draft@.len(),
            start <= n,
            forall|k: int| 0 <= k < start ==> is_space_char(draft@[k]),
        decreases n - start,
    {
        start += 1;
    }
    let mut end: usize = n;
    while end > start && is_space(draft.get_char(end - 1))
        invariant
            n == draft@.len(),
            start <= end <= n,
            forall|k: int| end <= k < n ==> is_space_char(draft@[k]),
        decreases end,
    {
        end -= 1;
    }
    proof {
        lemma_trim_front_subrange(draft@, start as int);
        let sub = draft@.subrange(start as int, n as int);
        lemma_trim_back_subrange(sub, end - start);
        assert(sub.subrange(0, end - start) =~= draft@.subrange(start as int, end as int));
    }
    if start == end {
        None
    } else {
        Some(draft.substring_char(start, end).to_owned())
    }
}

} // verus!
