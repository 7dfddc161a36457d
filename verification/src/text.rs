//! Trimming and comparing the address strings.
//!
//! An address is never parsed: two addresses are the same when they are the
//! same text once the whitespace at both ends is gone.

use vstd::prelude::*;
use vstd::string::*;

verus! {

/// Whether `char::is_whitespace` holds of `c`: whether `c` has the Unicode
/// property White_Space.
pub uninterp spec fn is_whitespace(c: char) -> bool;

/// Calls `char::is_whitespace`, whose answer depends on the character alone.
#[verifier::external_body]
fn is_space(c: char) -> (b: bool)
    ensures
        b == is_whitespace(c),
{
    c.is_whitespace()
}

/// Every character of `s` is whitespace.
pub open spec fn all_whitespace(s: Seq<char>) -> bool {
    forall|i: int| 0 <= i < s.len() ==> is_whitespace(#[trigger] s[i])
}

/// `s` without the whitespace at its front.
pub open spec fn strip_leading(s: Seq<char>) -> Seq<char>
    decreases s.len(),
{
    if s.len() > 0 && is_whitespace(s.first()) {
        strip_leading(s.drop_first())
    } else {
        s
    }
}

/// `s` without the whitespace at its back.
pub open spec fn strip_trailing(s: Seq<char>) -> Seq<char>
    decreases s.len(),
{
    if s.len() > 0 && is_whitespace(s.last()) {
        strip_trailing(s.drop_last())
    } else {
        s
    }
}

/// `s` without the whitespace at either end.
pub open spec fn trimmed(s: Seq<char>) -> Seq<char> {
    strip_trailing(strip_leading(s))
}

/// Two texts name the same address.
pub open spec fn same_text(a: Seq<char>, b: Seq<char>) -> bool {
    trimmed(a) == trimmed(b)
}

/// Whitespace put in front of a text is stripped with the rest.
pub proof fn lemma_strip_leading_prefix(lead: Seq<char>, x: Seq<char>)
    requires
        all_whitespace(lead),
    ensures
        strip_leading(lead + x) == strip_leading(x),
    decreases lead.len(),
{
    if lead.len() == 0 {
        assert(lead + x =~= x);
    } else {
        let whole = lead + x;
        assert(whole.first() == lead[0]);
        assert(whole.drop_first() =~= lead.drop_first() + x);
        assert forall|i: int| 0 <= i < lead.drop_first().len() implies is_whitespace(
            #[trigger] lead.drop_first()[i],
        ) by {
            assert(lead.drop_first()[i] == lead[i + 1]);
        }
        lemma_strip_leading_prefix(lead.drop_first(), x);
    }
}

/// Whitespace put behind a text is stripped with the rest.
pub proof fn lemma_strip_trailing_suffix(x: Seq<char>, trail: Seq<char>)
    requires
        all_whitespace(trail),
    ensures
        strip_trailing(x + trail) == strip_trailing(x),
    decreases trail.len(),
{
    if trail.len() == 0 {
        assert(x + trail =~= x);
    } else {
        let whole = x + trail;
        assert(whole.last() == trail[trail.len() - 1]);
        assert(whole.drop_last() =~= x + trail.drop_last());
        assert forall|i: int| 0 <= i < trail.drop_last().len() implies is_whitespace(
            #[trigger] trail.drop_last()[i],
        ) by {
            assert(trail.drop_last()[i] == trail[i]);
        }
        lemma_strip_trailing_suffix(x, trail.drop_last());
    }
}

/// Whitespace behind a text does not change what is left of it once both
/// ends are stripped.
proof fn lemma_trimmed_suffix(x: Seq<char>, trail: Seq<char>)
    requires
        all_whitespace(trail),
    ensures
        trimmed(x + trail) == trimmed(x),
    decreases x.len(),
{
    let whole = x + trail;
    if x.len() == 0 {
        assert(whole =~= trail + Seq::<char>::empty());
        lemma_strip_leading_prefix(trail, Seq::<char>::empty());
        assert(x =~= Seq::<char>::empty());
    } else if is_whitespace(x.first()) {
        assert(whole.first() == x.first());
        assert(whole.drop_first() =~= x.drop_first() + trail);
        lemma_trimmed_suffix(x.drop_first(), trail);
    } else {
        assert(whole.first() == x.first());
        lemma_strip_trailing_suffix(x, trail);
    }
}

/// Trimming does not see whitespace round a text: whatever whitespace
/// stands before and behind `x`, the result is that of `x` alone.
pub proof fn lemma_trimmed_ignores_surrounding_whitespace(
    lead: Seq<char>,
    x: Seq<char>,
    trail: Seq<char>,
)
    requires
        all_whitespace(lead),
        all_whitespace(trail),
    ensures
        trimmed(lead + x + trail) == trimmed(x),
        same_text(lead + x + trail, x),
{
    assert(lead + x + trail =~= lead + (x + trail));
    lemma_strip_leading_prefix(lead, x + trail);
    lemma_trimmed_suffix(x, trail);
}

/// `s` with the whitespace at both ends removed.
pub fn trim(s: &str) -> (t: &str)
    ensures
        t@ == trimmed(s@),
{
    let n = s.unicode_len();
    let mut start: usize = 0;
    assert(s@.subrange(0, n as int) =~= s@);
    while start < n && is_space(s.get_char(start))
        invariant
            start <= n,
            n == s@.len(),
            strip_leading(s@) == strip_leading(s@.subrange(start as int, n as int)),
        decreases n - start,
    {
        proof {
            let rest = s@.subrange(start as int, n as int);
            assert(rest.first() == s@[start as int]);
            assert(rest.drop_first() == s@.subrange(start + 1, n as int));
        }
        start += 1;
    }
    let mut end: usize = n;
    while end > start && is_space(s.get_char(end - 1))
        invariant
            start <= end <= n,
            n == s@.len(),
            strip_trailing(s@.subrange(start as int, n as int)) == strip_trailing(
                s@.subrange(start as int, end as int),
            ),
        decreases end - start,
    {
        proof {
            let rest = s@.subrange(start as int, end as int);
            assert(rest.last() == s@[end - 1]);
            assert(rest.drop_last() == s@.subrange(start as int, end - 1));
        }
        end -= 1;
    }
    proof {
        let tail = s@.subrange(start as int, n as int);
        if start < n {
            assert(tail.first() == s@[start as int]);
        }
        assert(strip_leading(tail) == tail);
        let kept = s@.subrange(start as int, end as int);
        if end > start {
            assert(kept.last() == s@[end - 1]);
        }
        assert(strip_trailing(kept) == kept);
    }
    s.substring_char(start, end)
}

/// Whether two texts name the same address.
pub fn same_address(a: &str, b: &str) -> (same: bool)
    ensures
        same == same_text(a@, b@),
{
    let left = trim(a).to_owned();
    let right = trim(b).to_owned();
    left == right
}

} // verus!
