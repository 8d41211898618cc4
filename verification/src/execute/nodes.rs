//! The nodes that may serve a request, and which of them is tried next.

use vstd::prelude::*;
use crate::entity::AccountId;

verus! {

/// A list without its repetitions: of each node the first occurrence, in
/// the order of the list.
pub open spec fn distinct(list: Seq<AccountId>) -> Seq<AccountId>
    decreases list.len(),
{
    if list.len() == 0 {
        Seq::empty()
    } else {
        let front = distinct(list.drop_last());
        if front.contains(list.last()) {
            front
        } else {
            front.push(list.last())
        }
    }
}

/// `distinct` names every node of the list, and none twice.
pub proof fn lemma_distinct(list: Seq<AccountId>)
    ensures
        distinct(list).no_duplicates(),
        distinct(list).len() <= list.len(),
        forall|node: AccountId| distinct(list).contains(node) <==> list.contains(node),
        list.len() > 0 ==> distinct(list).len() > 0 && distinct(list)[0] == list[0],
    decreases list.len(),
{
    if list.len() > 0 {
        let front_list = list.drop_last();
        let front = distinct(front_list);
        lemma_distinct(front_list);
        assert forall|node: AccountId| distinct(list).contains(node) <==> list.contains(
            node,
        ) by {
            if list.contains(node) {
                let i = choose|i: int| 0 <= i < list.len() && list[i] == node;
                if i < list.len() - 1 {
                    assert(front_list[i] == node);
                    assert(front_list.contains(node));
                    assert(distinct(front_list).contains(node) <==> front_list.contains(node));
                    let j = choose|j: int| 0 <= j < front.len() && front[j] == node;
                    assert(distinct(list)[j] == node);
                } else {
                    if front.contains(node) {
                    } else {
                        assert(distinct(list)[front.len() as int] == node);
                    }
                }
            }
            if distinct(list).contains(node) {
                let j = choose|j: int| 0 <= j < distinct(list).len() && distinct(list)[j] == node;
                if j < front.len() {
                    assert(front[j] == node);
                    assert(front.contains(node));
                    assert(distinct(front_list).contains(node) <==> front_list.contains(node));
                    assert(front_list.contains(node));
                    let i = choose|i: int| 0 <= i < front_list.len() && front_list[i] == node;
                    assert(list[i] == node);
                } else {
                    assert(list[list.len() - 1] == node);
                }
            }
        }
        if front_list.len() > 0 {
            assert(front_list[0] == list[0]);
        }
    }
}

/// The nodes that may serve a request, in the order in which they are
/// tried: those that the request is pinned to, else those that the client
/// knows; either list without its repetitions.
pub open spec fn eligible(pinned: Option<Vec<AccountId>>, known: Seq<AccountId>) -> Seq<AccountId> {
    match pinned {
        Some(list) => distinct(list@),
        None => distinct(known),
    }
}

/// Whether the list names the node.
pub fn contains_node(list: &Vec<AccountId>, node: AccountId) -> (found: bool)
    ensures
        found == list@.contains(node),
{
    let mut i: usize = 0;
    while i < list.len()
        invariant
            i <= list.len(),
            forall|j: int| 0 <= j < i ==> list@[j] != node,
        decreases list.len() - i,
    {
        if list[i] == node {
            return true;
        }
        i = i + 1;
    }
    false
}

/// A list without its repetitions.
pub fn distinct_nodes(list: &Vec<AccountId>) -> (nodes: Vec<AccountId>)
    ensures
        nodes@ == distinct(list@),
{
    let mut nodes: Vec<AccountId> = Vec::new();
    let mut i: usize = 0;
    assert(list@.subrange(0, 0) =~= Seq::<AccountId>::empty());
    while i < list.len()
        invariant
            i <= list.len(),
            nodes@ == distinct(list@.subrange(0, i as int)),
        decreases list.len() - i,
    {
        let node = list[i];
        proof {
            let next = list@.subrange(0, i + 1);
            assert(next.drop_last() =~= list@.subrange(0, i as int));
            assert(next.last() == node);
        }
        if !contains_node(&nodes, node) {
            nodes.push(node);
        }
        i = i + 1;
    }
    assert(list@.subrange(0, list.len() as int) =~= list@);
    nodes
}

/// The nodes that may serve a request, in the order in which they are
/// tried.
pub fn eligible_nodes(pinned: &Option<Vec<AccountId>>, known: &Vec<AccountId>) -> (nodes: Vec<
    AccountId,
>)
    ensures
        nodes@ == eligible(*pinned, known@),
{
    match pinned {
        Some(list) => distinct_nodes(list),
        None => distinct_nodes(known),
    }
}

/// The position after `i` in a round of `n` positions.
pub open spec fn after(i: int, n: int) -> int {
    if i + 1 >= n {
        0
    } else {
        i + 1
    }
}

/// The first position without a mark among `left` positions of the round
/// that starts at `i`.
pub open spec fn first_unmarked(marks: Seq<bool>, i: int, left: nat) -> Option<int>
    decreases left,
{
    if left == 0 {
        None
    } else if !marks[i] {
        Some(i)
    } else {
        first_unmarked(marks, after(i, marks.len() as int), (left - 1) as nat)
    }
}

/// The node to try after the one at `from`: the next one in the round that
/// is not marked as unreachable. The round ends with `from` itself, so where
/// only that node is left it is tried again; where every node is marked
/// there is none.
pub open spec fn next_reachable(marks: Seq<bool>, from: int) -> Option<int> {
    first_unmarked(marks, after(from, marks.len() as int), marks.len())
}

/// How many positions the round takes from the one after `from` up to `to`:
/// between 1, for the next position, and `n`, for `from` itself.
pub open spec fn steps_to(from: int, to: int, n: int) -> int {
    if to > from {
        to - from
    } else {
        to - from + n
    }
}

proof fn lemma_first_unmarked(marks: Seq<bool>, from: int, i: int, left: nat)
    requires
        0 <= from < marks.len(),
        0 <= i < marks.len(),
        1 <= left <= marks.len(),
        steps_to(from, i, marks.len() as int) == marks.len() - left + 1,
        forall|j: int|
            0 <= j < marks.len() && steps_to(from, j, marks.len() as int) < steps_to(
                from,
                i,
                marks.len() as int,
            ) ==> marks[j],
    ensures
        match first_unmarked(marks, i, left) {
            Some(next) => {
                &&& 0 <= next < marks.len()
                &&& !marks[next]
                &&& forall|j: int|
                    0 <= j < marks.len() && steps_to(from, j, marks.len() as int) < steps_to(
                        from,
                        next,
                        marks.len() as int,
                    ) ==> marks[j]
            },
            None => forall|j: int| 0 <= j < marks.len() ==> marks[j],
        },
    decreases left,
{
    let n = marks.len() as int;
    if !marks[i] {
    } else if left == 1 {
        assert(i == from);
        assert forall|j: int| 0 <= j < marks.len() implies marks[j] by {
            if j != from {
                assert(steps_to(from, j, n) < steps_to(from, i, n));
            }
        }
    } else {
        let next = after(i, n);
        assert(steps_to(from, next, n) == steps_to(from, i, n) + 1);
        assert forall|j: int|
            0 <= j < marks.len() && steps_to(from, j, n) < steps_to(from, next, n) implies marks[j] by {
            if steps_to(from, j, n) == steps_to(from, i, n) {
                assert(j == i);
            }
        }
        lemma_first_unmarked(marks, from, next, (left - 1) as nat);
    }
}

/// The node that is tried next is not marked, and every node that the round
/// passes before it is. There is no next node only where every node is
/// marked.
pub proof fn lemma_next_reachable(marks: Seq<bool>, from: int)
    requires
        0 <= from < marks.len(),
    ensures
        match next_reachable(marks, from) {
            Some(next) => {
                &&& 0 <= next < marks.len()
                &&& !marks[next]
                &&& forall|j: int|
                    0 <= j < marks.len() && steps_to(from, j, marks.len() as int) < steps_to(
                        from,
                        next,
                        marks.len() as int,
                    ) ==> marks[j]
            },
            None => forall|j: int| 0 <= j < marks.len() ==> marks[j],
        },
{
    let n = marks.len() as int;
    let first = after(from, n);
    assert forall|j: int|
        0 <= j < marks.len() && steps_to(from, j, n) < steps_to(from, first, n) implies marks[j] by {
        assert(steps_to(from, j, n) >= 1);
    }
    lemma_first_unmarked(marks, from, first, marks.len());
}

/// The node to try after the one at `from`.
pub fn find_next_reachable(marks: &Vec<bool>, from: usize) -> (next: Option<usize>)
    ensures
        match next {
            Some(i) => next_reachable(marks@, from as int) == Some(i as int),
            None => next_reachable(marks@, from as int) is None,
        },
        next matches Some(i) ==> i < marks.len() && !marks@[i as int],
        next is None ==> forall|j: int| 0 <= j < marks.len() ==> marks@[j],
{
    let n = marks.len();
    if n == 0 {
        return None;
    }
    proof {
        // a position beyond the round stands for the last one of the round
        let start: int = if from < n {
            from as int
        } else {
            n - 1
        };
        lemma_next_reachable(marks@, start);
    }
    let mut i: usize = if from >= n - 1 {
        0
    } else {
        from + 1
    };
    let mut left: usize = n;
    while left > 0
        invariant
            n == marks.len(),
            i < n,
            left <= n,
            first_unmarked(marks@, i as int, left as nat) == next_reachable(marks@, from as int),
        decreases left,
    {
        if !marks[i] {
            return Some(i);
        }
        i = if i + 1 >= n {
            0
        } else {
            i + 1
        };
        left = left - 1;
    }
    None
}

/// How many nodes are not marked as unreachable.
pub open spec fn unmarked(marks: Seq<bool>) -> nat
    decreases marks.len(),
{
    if marks.len() == 0 {
        0
    } else {
        unmarked(marks.drop_last()) + if marks.last() {
            0nat
        } else {
            1nat
        }
    }
}

/// Marking a node that was not marked leaves one node less to try.
pub proof fn lemma_mark_one(marks: Seq<bool>, i: int)
    requires
        0 <= i < marks.len(),
        !marks[i],
    ensures
        unmarked(marks.update(i, true)) + 1 == unmarked(marks),
    decreases marks.len(),
{
    let marked = marks.update(i, true);
    if i == marks.len() - 1 {
        assert(marked.drop_last() =~= marks.drop_last());
    } else {
        assert(marked.drop_last() =~= marks.drop_last().update(i, true));
        lemma_mark_one(marks.drop_last(), i);
    }
}

} // verus!
