//! Comma-separated header lists, as RFC 6455 reads the `Upgrade` and
//! `Connection` headers: a value names a token when one of its
//! comma-separated entries, stripped of surrounding blanks, equals the token
//! under ASCII case-insensitive comparison.

use vstd::prelude::*;
use crate::ascii::{eq_ascii_ci, is_list_ws, eq_ignore_ascii_case};
use vstd::slice::slice_subrange;

verus! {

/// The comma byte `,` that separates the entries of a header list.
pub const LIST_SEP: u8 = 44;

/// The entries of a comma-separated value, in order, blanks kept.
/// An empty value has one empty entry; each comma opens a new entry.
pub open spec fn split_commas(s: Seq<u8>) -> Seq<Seq<u8>>
    decreases s.len(),
{
    if s.len() == 0 {
        seq![Seq::<u8>::empty()]
    } else if s[0] == LIST_SEP {
        seq![Seq::<u8>::empty()] + split_commas(s.drop_first())
    } else {
        let t = split_commas(s.drop_first());
        seq![seq![s[0]] + t[0]] + t.drop_first()
    }
}

/// A value stripped of leading and trailing blanks (space, horizontal tab).
pub open spec fn trim_ws(s: Seq<u8>) -> Seq<u8>
    decreases s.len(),
{
    if s.len() == 0 {
        s
    } else if is_list_ws(s[0]) {
        trim_ws(s.drop_first())
    } else if is_list_ws(s.last()) {
        trim_ws(s.drop_last())
    } else {
        s
    }
}

/// RFC 6455 containment: some comma-separated entry of `s`, trimmed,
/// equals `tok` ASCII case-insensitively.
pub open spec fn list_has_token(s: Seq<u8>, tok: Seq<u8>) -> bool {
    exists|i: int|
        0 <= i < split_commas(s).len() && eq_ascii_ci(
            trim_ws(#[trigger] split_commas(s)[i]),
            tok,
        )
}

/// A split always has at least one entry.
proof fn lemma_split_commas_len(s: Seq<u8>)
    ensures
        split_commas(s).len() >= 1,
    decreases s.len(),
{
    if s.len() != 0 {
        lemma_split_commas_len(s.drop_first());
    }
}

/// A value without commas is one entry: itself.
proof fn lemma_split_no_comma(s: Seq<u8>)
    requires
        forall|j: int| 0 <= j < s.len() ==> s[j] != LIST_SEP,
    ensures
        split_commas(s) == seq![s],
    decreases s.len(),
{
    if s.len() == 0 {
        assert(split_commas(s) =~~= seq![s]);
    } else {
        lemma_split_no_comma(s.drop_first());
        assert(seq![s[0]] + s.drop_first() =~= s);
        assert(split_commas(s) =~~= seq![s]);
    }
}

/// Splitting at the first comma: the head entry, then the split of the rest.
proof fn lemma_split_at_comma(s: Seq<u8>, i: int)
    requires
        0 <= i < s.len(),
        s[i] == LIST_SEP,
        forall|j: int| 0 <= j < i ==> s[j] != LIST_SEP,
    ensures
        split_commas(s) == seq![s.subrange(0, i)] + split_commas(
            s.subrange(i + 1, s.len() as int),
        ),
    decreases s.len(),
{
    if i == 0 {
        assert(s.drop_first() =~= s.subrange(1, s.len() as int));
        assert(s.subrange(0, 0) =~= Seq::<u8>::empty());
        assert(split_commas(s) =~~= seq![s.subrange(0, 0)] + split_commas(
            s.subrange(1, s.len() as int),
        ));
    } else {
        let d = s.drop_first();
        assert(d[i - 1] == LIST_SEP);
        assert(forall|j: int| 0 <= j < i - 1 ==> d[j] != LIST_SEP);
        lemma_split_at_comma(d, i - 1);
        lemma_split_commas_len(d.subrange(i, d.len() as int));
        let t = split_commas(d);
        assert(t[0] == d.subrange(0, i - 1));
        assert(seq![s[0]] + d.subrange(0, i - 1) =~= s.subrange(0, i));
        assert(t.drop_first() =~~= split_commas(d.subrange(i, d.len() as int)));
        assert(d.subrange(i, d.len() as int) =~= s.subrange(i + 1, s.len() as int));
        assert(split_commas(s) =~~= seq![s.subrange(0, i)] + split_commas(
            s.subrange(i + 1, s.len() as int),
        ));
    }
}

/// Containment in a comma-free value is a match against the value itself.
proof fn lemma_has_token_no_comma(s: Seq<u8>, tok: Seq<u8>)
    requires
        forall|j: int| 0 <= j < s.len() ==> s[j] != LIST_SEP,
    ensures
        list_has_token(s, tok) == eq_ascii_ci(trim_ws(s), tok),
{
    lemma_split_no_comma(s);
    if eq_ascii_ci(trim_ws(s), tok) {
        assert(split_commas(s)[0] == s);
        assert(list_has_token(s, tok));
    }
    if list_has_token(s, tok) {
        let i = choose|i: int|
            0 <= i < split_commas(s).len() && eq_ascii_ci(
                trim_ws(#[trigger] split_commas(s)[i]),
                tok,
            );
        assert(i == 0);
        assert(split_commas(s)[0] == s);
    }
}

/// Containment distributes over the first comma: a match in the head entry,
/// or containment in the rest.
proof fn lemma_has_token_step(s: Seq<u8>, i: int, tok: Seq<u8>)
    requires
        0 <= i < s.len(),
        s[i] == LIST_SEP,
        forall|j: int| 0 <= j < i ==> s[j] != LIST_SEP,
    ensures
        list_has_token(s, tok) == (eq_ascii_ci(trim_ws(s.subrange(0, i)), tok)
            || list_has_token(s.subrange(i + 1, s.len() as int), tok)),
{
    lemma_split_at_comma(s, i);
    let head = s.subrange(0, i);
    let tail = s.subrange(i + 1, s.len() as int);
    let sp = split_commas(s);
    assert(sp[0] == head);
    if list_has_token(s, tok) {
        let k = choose|k: int|
            0 <= k < sp.len() && eq_ascii_ci(trim_ws(#[trigger] sp[k]), tok);
        if k > 0 {
            assert(sp[k] == split_commas(tail)[k - 1]);
            assert(list_has_token(tail, tok));
        }
    }
    if eq_ascii_ci(trim_ws(head), tok) {
        assert(list_has_token(s, tok));
    }
    if list_has_token(tail, tok) {
        let k = choose|k: int|
            0 <= k < split_commas(tail).len() && eq_ascii_ci(
                trim_ws(#[trigger] split_commas(tail)[k]),
                tok,
            );
        assert(sp[k + 1] == split_commas(tail)[k]);
        assert(list_has_token(s, tok));
    }
}

/// A value of blanks alone trims to nothing.
proof fn lemma_trim_all_ws(s: Seq<u8>)
    requires
        forall|j: int| 0 <= j < s.len() ==> is_list_ws(s[j]),
    ensures
        trim_ws(s) == Seq::<u8>::empty(),
    decreases s.len(),
{
    if s.len() == 0 {
        assert(trim_ws(s) =~= Seq::<u8>::empty());
    } else {
        lemma_trim_all_ws(s.drop_first());
    }
}

/// Trimming keeps exactly the span from the first to the last non-blank byte.
proof fn lemma_trim_span(s: Seq<u8>, lo: int, hi: int)
    requires
        0 <= lo < hi <= s.len(),
        forall|j: int| 0 <= j < lo ==> is_list_ws(s[j]),
        forall|j: int| hi <= j < s.len() ==> is_list_ws(s[j]),
        !is_list_ws(s[lo]),
        !is_list_ws(s[hi - 1]),
    ensures
        trim_ws(s) == s.subrange(lo, hi),
    decreases s.len(),
{
    if lo > 0 {
        let d = s.drop_first();
        lemma_trim_span(d, lo - 1, hi - 1);
        assert(d.subrange(lo - 1, hi - 1) =~= s.subrange(lo, hi));
    } else if hi < s.len() {
        let d = s.drop_last();
        assert(is_list_ws(s.last()));
        lemma_trim_span(d, lo, hi);
        assert(d.subrange(lo, hi) =~= s.subrange(lo, hi));
    } else {
        assert(s.subrange(0, s.len() as int) =~= s);
    }
}

/// Does the trimmed segment equal the token, ASCII case-insensitively?
fn trimmed_matches(seg: &[u8], token: &[u8]) -> (r: bool)
    ensures
        r == eq_ascii_ci(trim_ws(seg@), token@),
{
    let n = seg.len();
    let mut lo: usize = 0;
    while lo < n && (seg[lo] == 32 || seg[lo] == 9)
        invariant
            n == seg@.len(),
            0 <= lo <= n,
            forall|j: int| 0 <= j < lo ==> is_list_ws(seg@[j]),
        decreases n - lo,
    {
        lo = lo + 1;
    }
    if lo == n {
        proof {
            lemma_trim_all_ws(seg@);
        }
        return token.len() == 0;
    }
    let mut hi: usize = n;
    while hi > lo + 1 && (seg[hi - 1] == 32 || seg[hi - 1] == 9)
        invariant
            n == seg@.len(),
            0 <= lo < hi <= n,
            forall|j: int| hi <= j < n ==> is_list_ws(seg@[j]),
        decreases hi,
    {
        hi = hi - 1;
    }
    proof {
        lemma_trim_span(seg@, lo as int, hi as int);
    }
    let sub = slice_subrange(seg, lo, hi);
    eq_ignore_ascii_case(sub, token)
}

/// Does the comma-separated value `value` name `token`, in the RFC 6455
/// sense stated by [`list_has_token`]?
pub fn list_contains_token(value: &[u8], token: &[u8]) -> (r: bool)
    ensures
        r == list_has_token(value@, token@),
    decreases value@.len(),
{
    let n = value.len();
    let mut i: usize = 0;
    while i < n && value[i] != 44
        invariant
            n == value@.len(),
            0 <= i <= n,
            forall|j: int| 0 <= j < i ==> value@[j] != LIST_SEP,
        decreases n - i,
    {
        i = i + 1;
    }
    if i == n {
        proof {
            lemma_has_token_no_comma(value@, token@);
        }
        trimmed_matches(value, token)
    } else {
        let head = slice_subrange(value, 0, i);
        proof {
            lemma_has_token_step(value@, i as int, token@);
        }
        if trimmed_matches(head, token) {
            true
        } else {
            let tail = slice_subrange(value, i + 1, n);
            list_contains_token(tail, token)
        }
    }
}

} // verus!
