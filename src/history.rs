//! The order in which the history shows the recorded days: by date, and
//! days of the same date in the order they were appended.

use crate::record::Worktime;
use vstd::prelude::*;
use vstd::string::StrSliceExecFns;

verus! {

/// Whether text `a` comes before text `b`, character by character, a proper
/// prefix coming first.
pub open spec fn text_lt(a: Seq<char>, b: Seq<char>) -> bool
    decreases a.len(),
{
    if a.len() == 0 {
        b.len() > 0
    } else if b.len() == 0 {
        false
    } else if a[0] != b[0] {
        a[0] < b[0]
    } else {
        text_lt(a.drop_first(), b.drop_first())
    }
}

/// Whether record `x` of `records` comes before record `y` in the history:
/// an earlier date, or the same date and appended earlier.
pub open spec fn shown_before(records: Seq<Worktime>, x: int, y: int) -> bool {
    let dx = records[x].date@;
    let dy = records[y].date@;
    text_lt(dx, dy) || (dx == dy && x < y)
}

/// `order` lists each index of `records` once, in history order.
pub open spec fn is_history_order(order: Seq<usize>, records: Seq<Worktime>) -> bool {
    &&& order.len() == records.len()
    &&& forall|i: int| 0 <= i < order.len() ==> #[trigger] order[i] < records.len()
    &&& forall|i: int, j: int| 0 <= i < j < order.len() ==> order[i] != order[j]
    &&& forall|i: int, j: int|
        0 <= i < j < order.len() ==> shown_before(records, #[trigger] order[i] as int, #[trigger] order[j] as int)
}

proof fn lemma_text_lt_irreflexive(a: Seq<char>)
    ensures
        !text_lt(a, a),
    decreases a.len(),
{
    if a.len() > 0 {
        lemma_text_lt_irreflexive(a.drop_first());
    }
}

proof fn lemma_text_lt_transitive(a: Seq<char>, b: Seq<char>, c: Seq<char>)
    requires
        text_lt(a, b),
        text_lt(b, c),
    ensures
        text_lt(a, c),
    decreases a.len(),
{
    if a.len() > 0 && b.len() > 0 && c.len() > 0 && a[0] == b[0] && b[0] == c[0] {
        lemma_text_lt_transitive(a.drop_first(), b.drop_first(), c.drop_first());
    }
}

proof fn lemma_text_lt_total(a: Seq<char>, b: Seq<char>)
    requires
        !text_lt(a, b),
        a != b,
    ensures
        text_lt(b, a),
    decreases a.len(),
{
    if a.len() == 0 {
        assert(b.len() == 0);
        assert(a =~= b);
    } else if b.len() == 0 {
    } else if a[0] != b[0] {
    } else {
        if a.drop_first() == b.drop_first() {
            assert(a =~= seq![a[0]] + a.drop_first());
            assert(b =~= seq![b[0]] + b.drop_first());
        }
        lemma_text_lt_total(a.drop_first(), b.drop_first());
    }
}

/// Whether the text of `a` comes before that of `b`.
pub fn text_before(a: &str, b: &str) -> (r: bool)
    ensures
        r == text_lt(a@, b@),
{
    let n = a.unicode_len();
    let m = b.unicode_len();
    let mut i: usize = 0;
    assert(a@.subrange(0, n as int) =~= a@);
    assert(b@.subrange(0, m as int) =~= b@);
    while i < n && i < m && a.get_char(i) == b.get_char(i)
        invariant
            i <= n == a@.len(),
            i <= m == b@.len(),
            text_lt(a@, b@) == text_lt(
                a@.subrange(i as int, n as int),
                b@.subrange(i as int, m as int),
            ),
        decreases n - i,
    {
        proof {
            let sa = a@.subrange(i as int, n as int);
            let sb = b@.subrange(i as int, m as int);
            assert(sa.drop_first() =~= a@.subrange(i + 1, n as int));
            assert(sb.drop_first() =~= b@.subrange(i + 1, m as int));
        }
        i = i + 1;
    }
    if i == n {
        i < m
    } else if i == m {
        false
    } else {
        let ca = a.get_char(i);
        let cb = b.get_char(i);
        ca < cb
    }
}

/// The indices of `records` in history order: by date, and records of one
/// date in the order they were appended.
pub fn history_order(records: &Vec<Worktime>) -> (order: Vec<usize>)
    ensures
        is_history_order(order@, records@),
{
    let n = records.len();
    let mut order: Vec<usize> = Vec::new();
    let mut i: usize = 0;
    while i < n
        invariant
            i <= n == records@.len(),
            order@.len() == i,
            forall|k: int| 0 <= k < order@.len() ==> #[trigger] order@[k] < i,
            forall|k: int, l: int| 0 <= k < l < order@.len() ==> order@[k] != order@[l],
            forall|k: int, l: int|
                0 <= k < l < order@.len() ==> shown_before(
                    records@,
                    #[trigger] order@[k] as int,
                    #[trigger] order@[l] as int,
                ),
        decreases n - i,
    {
        let mut p: usize = 0;
        while p < order.len() && !text_before(
            records[i].date.as_str(),
            records[order[p]].date.as_str(),
        )
            invariant
                i < n == records@.len(),
                p <= order@.len() == i,
                forall|k: int| 0 <= k < order@.len() ==> #[trigger] order@[k] < i,
                forall|k: int|
                    0 <= k < p ==> !text_lt(records@[i as int].date@, records@[#[trigger] order@[k] as int].date@),
            decreases order@.len() - p,
        {
            p = p + 1;
        }
        let ghost old_order = order@;
        proof {
            assert forall|k: int| 0 <= k < p implies shown_before(
                records@,
                #[trigger] old_order[k] as int,
                i as int,
            ) by {
                let dk = records@[old_order[k] as int].date@;
                let di = records@[i as int].date@;
                if dk != di {
                    lemma_text_lt_total(di, dk);
                }
            }
            assert forall|k: int| p <= k < old_order.len() implies shown_before(
                records@,
                i as int,
                #[trigger] old_order[k] as int,
            ) by {
                let dp = records@[old_order[p as int] as int].date@;
                let dk = records@[old_order[k] as int].date@;
                let di = records@[i as int].date@;
                assert(text_lt(di, dp));
                if k > p {
                    assert(shown_before(records@, old_order[p as int] as int, old_order[k] as int));
                    if text_lt(dp, dk) {
                        lemma_text_lt_transitive(di, dp, dk);
                    }
                }
            }
        }
        order.insert(p, i);
        proof {
            assert forall|k: int, l: int| 0 <= k < l < order@.len() implies shown_before(
                records@,
                #[trigger] order@[k] as int,
                #[trigger] order@[l] as int,
            ) by {
                if k < p && l == p {
                } else if k < p && l > p {
                    assert(order@[l] == old_order[l - 1]);
                } else if k == p {
                    assert(order@[l] == old_order[l - 1]);
                } else if l < p {
                } else {
                    assert(order@[k] == old_order[k - 1]);
                    assert(order@[l] == old_order[l - 1]);
                }
            }
        }
        i = i + 1;
    }
    order
}

} // verus!
