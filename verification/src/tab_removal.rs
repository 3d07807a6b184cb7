//! Deferred-removal records.
//!
//! Removing a tab, an emptied leaf node, or a whole floating surface cannot
//! happen while the layout tree is being traversed — it would invalidate the
//! indices the traversal is iterating over. A [`TabRemoval`] records exactly
//! one such target; the records collected during a traversal are applied
//! afterwards. Within one node, tab removals must be applied from the highest
//! tab index down, so that removing one tab does not shift the index any
//! later record points at: [`apply_tab_removals`] is that compaction step,
//! and its contract is what makes the discipline checkable.

use vstd::prelude::*;

verus! {

/// Index of a floating surface within the layout.
#[derive(Clone, Copy, Debug, PartialEq, Eq)]
pub struct SurfaceIndex(pub usize);

/// Index of a node within one surface's layout tree.
#[derive(Clone, Copy, Debug, PartialEq, Eq)]
pub struct NodeIndex(pub usize);

/// Index of a tab within one node.
#[derive(Clone, Copy, Debug, PartialEq, Eq)]
pub struct TabIndex(pub usize);

/// One pending deletion target, recorded during traversal and applied after
/// it: a single tab within a node, an (emptied) leaf node, or an entire
/// floating surface together with its window state.
#[derive(Clone, Copy, Debug, PartialEq, Eq)]
pub enum TabRemoval {
    /// One tab within one node on one surface.
    Node(SurfaceIndex, NodeIndex, TabIndex),
    /// An entire node/leaf on one surface.
    Leaf(SurfaceIndex, NodeIndex),
    /// An entire floating surface.
    Window(SurfaceIndex),
}

impl From<SurfaceIndex> for TabRemoval {
    fn from(index: SurfaceIndex) -> (r: TabRemoval) {
        TabRemoval::Window(index)
    }
}

impl vstd::std_specs::convert::FromSpecImpl<SurfaceIndex> for TabRemoval {
    open spec fn obeys_from_spec() -> bool {
        true
    }

    open spec fn from_spec(index: SurfaceIndex) -> TabRemoval {
        TabRemoval::Window(index)
    }
}

impl From<(SurfaceIndex, NodeIndex)> for TabRemoval {
    fn from(address: (SurfaceIndex, NodeIndex)) -> (r: TabRemoval) {
        TabRemoval::Leaf(address.0, address.1)
    }
}

impl vstd::std_specs::convert::FromSpecImpl<(SurfaceIndex, NodeIndex)> for TabRemoval {
    open spec fn obeys_from_spec() -> bool {
        true
    }

    open spec fn from_spec(address: (SurfaceIndex, NodeIndex)) -> TabRemoval {
        TabRemoval::Leaf(address.0, address.1)
    }
}

impl From<(SurfaceIndex, NodeIndex, TabIndex)> for TabRemoval {
    fn from(address: (SurfaceIndex, NodeIndex, TabIndex)) -> (r: TabRemoval) {
        TabRemoval::Node(address.0, address.1, address.2)
    }
}

impl vstd::std_specs::convert::FromSpecImpl<(SurfaceIndex, NodeIndex, TabIndex)> for TabRemoval {
    open spec fn obeys_from_spec() -> bool {
        true
    }

    open spec fn from_spec(address: (SurfaceIndex, NodeIndex, TabIndex)) -> TabRemoval {
        TabRemoval::Node(address.0, address.1, address.2)
    }
}

/// Each address shape constructs exactly its variant, fields kept in order
/// and untransposed: a surface alone builds a `Window` removal, a surface
/// and node pair builds a `Leaf` removal, and a surface, node and tab triple
/// builds a `Node` removal.
pub proof fn lemma_from_preserves_address(s: SurfaceIndex, n: NodeIndex, t: TabIndex)
    ensures
        <TabRemoval as vstd::std_specs::convert::FromSpec<SurfaceIndex>>::from_spec(s)
            == TabRemoval::Window(s),
        <TabRemoval as vstd::std_specs::convert::FromSpec<(SurfaceIndex, NodeIndex)>>::from_spec((s, n))
            == TabRemoval::Leaf(s, n),
        <TabRemoval as vstd::std_specs::convert::FromSpec<
            (SurfaceIndex, NodeIndex, TabIndex),
        >>::from_spec((s, n, t)) == TabRemoval::Node(s, n, t),
{
}

/// True when `r` addresses a tab within node `node` on surface `surface`.
pub open spec fn addresses_tab_in(r: TabRemoval, surface: SurfaceIndex, node: NodeIndex) -> bool {
    match r {
        TabRemoval::Node(s, n, _) => s == surface && n == node,
        _ => false,
    }
}

/// For a record addressing a tab, the recorded tab index. The compaction
/// pass only asks this of tab records; any other record maps to an index
/// that is never in bounds.
pub open spec fn removal_tab_index(r: TabRemoval) -> int {
    match r {
        TabRemoval::Node(_, _, t) => t.0 as int,
        _ => -1,
    }
}

/// The tabs left after applying `removals` front to back: each record
/// removes the tab at its recorded index from what the records before it
/// left behind. This is what the compaction pass computes, so it is correct
/// only for records ordered from the highest tab index down.
pub open spec fn applied_removals(tabs: Seq<u64>, removals: Seq<TabRemoval>) -> Seq<u64>
    decreases removals.len(),
{
    if removals.len() == 0 {
        tabs
    } else {
        applied_removals(
            tabs.remove(removal_tab_index(removals[0])),
            removals.subrange(1, removals.len() as int),
        )
    }
}

/// The entries of `s` whose positions are not in `dropped`, in their
/// original order.
pub open spec fn drop_positions(s: Seq<u64>, dropped: Set<int>) -> Seq<u64>
    decreases s.len(),
{
    if s.len() == 0 {
        Seq::empty()
    } else {
        let prefix = drop_positions(s.drop_last(), dropped);
        if dropped.contains(s.len() - 1) {
            prefix
        } else {
            prefix.push(s.last())
        }
    }
}

/// The set of tab indices the records carry.
pub open spec fn recorded_indices(removals: Seq<TabRemoval>) -> Set<int> {
    Set::new(
        |i: int|
            exists|k: int|
                0 <= k < removals.len() && removal_tab_index(#[trigger] removals[k]) == i,
    )
}

/// A position at or past the end of `s` never matters to [`drop_positions`].
proof fn lemma_drop_positions_unaffected(s: Seq<u64>, dropped: Set<int>, p: int)
    requires
        p >= s.len(),
    ensures
        drop_positions(s, dropped.insert(p)) == drop_positions(s, dropped),
    decreases s.len(),
{
    if s.len() > 0 {
        lemma_drop_positions_unaffected(s.drop_last(), dropped, p);
        assert(dropped.insert(p).contains(s.len() - 1) == dropped.contains(s.len() - 1));
    }
}

/// Dropping no position within range keeps the sequence whole.
proof fn lemma_drop_positions_disjoint(s: Seq<u64>, dropped: Set<int>)
    requires
        forall|p: int| 0 <= p < s.len() ==> !dropped.contains(p),
    ensures
        drop_positions(s, dropped) == s,
    decreases s.len(),
{
    if s.len() > 0 {
        lemma_drop_positions_disjoint(s.drop_last(), dropped);
        assert(drop_positions(s, dropped) =~= s);
    }
}

/// Removing position `i` first and then dropping a set of positions that all
/// lie below `i` is the same as dropping them all at once.
proof fn lemma_remove_then_drop(s: Seq<u64>, i: int, dropped: Set<int>)
    requires
        0 <= i < s.len(),
        forall|d: int| dropped.contains(d) ==> 0 <= d < i,
    ensures
        drop_positions(s.remove(i), dropped) == drop_positions(s, dropped.insert(i)),
    decreases s.len(),
{
    let n = s.len() - 1;
    if i == n {
        assert(s.remove(i) =~= s.drop_last());
        lemma_drop_positions_unaffected(s.drop_last(), dropped, i);
    } else {
        s.remove_ensures(i);
        assert(s.remove(i).drop_last() =~= s.drop_last().remove(i));
        assert(s.remove(i).last() == s.last());
        assert(!dropped.contains(n - 1) && !dropped.insert(i).contains(n));
        lemma_remove_then_drop(s.drop_last(), i, dropped);
    }
}

/// The generalized ordering law of the compaction pass: applying records
/// ordered from the highest tab index down removes exactly the recorded
/// positions of the original list — every other tab survives, in its
/// original order. This is why descending application never deletes a wrong
/// tab, while an ascending application would be measured against shifted
/// positions.
pub proof fn lemma_applied_removals_drop_recorded(tabs: Seq<u64>, removals: Seq<TabRemoval>)
    requires
        forall|k: int|
            0 <= k < removals.len() ==> 0 <= removal_tab_index(#[trigger] removals[k])
                < tabs.len(),
        forall|a: int, b: int|
            0 <= a < b < removals.len() ==> removal_tab_index(removals[b]) < removal_tab_index(
                removals[a],
            ),
    ensures
        applied_removals(tabs, removals) == drop_positions(tabs, recorded_indices(removals)),
    decreases removals.len(),
{
    if removals.len() == 0 {
        assert(forall|p: int| 0 <= p < tabs.len() ==> !recorded_indices(removals).contains(p));
        lemma_drop_positions_disjoint(tabs, recorded_indices(removals));
    } else {
        let i0 = removal_tab_index(removals[0]);
        let rest = removals.subrange(1, removals.len() as int);
        assert forall|k: int|
            0 <= k < rest.len() implies 0 <= removal_tab_index(#[trigger] rest[k]) < tabs.remove(
            i0,
        ).len() by {
            assert(rest[k] == removals[k + 1]);
            assert(removal_tab_index(removals[k + 1]) < removal_tab_index(removals[0]));
        }
        assert forall|a: int, b: int|
            0 <= a < b < rest.len() implies removal_tab_index(rest[b]) < removal_tab_index(
            rest[a],
        ) by {
            assert(rest[a] == removals[a + 1] && rest[b] == removals[b + 1]);
        }
        lemma_applied_removals_drop_recorded(tabs.remove(i0), rest);
        assert forall|d: int| recorded_indices(rest).contains(d) implies 0 <= d < i0 by {
            let k = choose|k: int|
                0 <= k < rest.len() && removal_tab_index(#[trigger] rest[k]) == d;
            assert(rest[k] == removals[k + 1]);
            assert(removal_tab_index(removals[k + 1]) < removal_tab_index(removals[0]));
        }
        lemma_remove_then_drop(tabs, i0, recorded_indices(rest));
        assert forall|i: int|
            recorded_indices(removals).contains(i) implies recorded_indices(rest).insert(
            i0,
        ).contains(i) by {
            let k = choose|k: int|
                0 <= k < removals.len() && removal_tab_index(#[trigger] removals[k]) == i;
            if k > 0 {
                assert(rest[k - 1] == removals[k]);
            }
        }
        assert forall|i: int|
            recorded_indices(rest).insert(i0).contains(i) implies recorded_indices(
            removals,
        ).contains(i) by {
            if i == i0 {
                assert(removal_tab_index(removals[0]) == i);
            } else {
                let k = choose|k: int|
                    0 <= k < rest.len() && removal_tab_index(#[trigger] rest[k]) == i;
                assert(removals[k + 1] == rest[k]);
            }
        }
        assert(recorded_indices(rest).insert(i0) =~= recorded_indices(removals));
    }
}

/// The compaction step for one node: apply every recorded tab removal for
/// `node` on `surface` to that node's tab list.
///
/// The records must be ordered from the highest tab index down (strictly
/// descending), each index within the original list: applying a removal then
/// shifts only tabs above every index still to be removed, so every later
/// record still addresses the tab it was recorded against. Applying in
/// ascending order without recomputing indices would delete the wrong tabs.
pub fn apply_tab_removals(tabs: &mut Vec<u64>, removals: &Vec<TabRemoval>, surface: SurfaceIndex, node: NodeIndex)
    requires
        forall|k: int|
            0 <= k < removals@.len() ==> addresses_tab_in(#[trigger] removals@[k], surface, node),
        forall|k: int|
            0 <= k < removals@.len() ==> 0 <= removal_tab_index(#[trigger] removals@[k])
                < old(tabs)@.len(),
        forall|a: int, b: int|
            0 <= a < b < removals@.len() ==> removal_tab_index(removals@[b]) < removal_tab_index(
                removals@[a],
            ),
    ensures
        final(tabs)@ == applied_removals(old(tabs)@, removals@),
        final(tabs)@ == drop_positions(old(tabs)@, recorded_indices(removals@)),
        final(tabs)@.len() == old(tabs)@.len() - removals@.len(),
{
    proof {
        lemma_applied_removals_drop_recorded(old(tabs)@, removals@);
    }
    let ghost tabs0 = tabs@;
    proof {
        assert(removals@.subrange(0, removals@.len() as int) =~= removals@);
    }
    let mut k: usize = 0;
    while k < removals.len()
        invariant
            0 <= k <= removals@.len(),
            tabs@.len() == tabs0.len() - k,
            applied_removals(tabs0, removals@) == applied_removals(
                tabs@,
                removals@.subrange(k as int, removals@.len() as int),
            ),
            forall|j: int|
                k <= j < removals@.len() ==> 0 <= removal_tab_index(#[trigger] removals@[j])
                    < tabs@.len(),
            forall|a: int, b: int|
                0 <= a < b < removals@.len() ==> removal_tab_index(removals@[b])
                    < removal_tab_index(removals@[a]),
            forall|j: int|
                0 <= j < removals@.len() ==> addresses_tab_in(
                    #[trigger] removals@[j],
                    surface,
                    node,
                ),
        decreases removals@.len() - k,
    {
        let ghost pre = tabs@;
        let ghost rest = removals@.subrange(k as int, removals@.len() as int);
        match removals[k] {
            TabRemoval::Node(_, _, t) => {
                tabs.remove(t.0);
                proof {
                    assert(rest[0] == removals@[k as int]);
                    assert(rest.subrange(1, rest.len() as int) =~= removals@.subrange(
                        k as int + 1,
                        removals@.len() as int,
                    ));
                    assert forall|j: int|
                        k + 1 <= j < removals@.len() implies 0 <= removal_tab_index(
                        #[trigger] removals@[j],
                    ) < tabs@.len() by {
                        assert(removal_tab_index(removals@[j]) < removal_tab_index(
                            removals@[k as int],
                        ));
                    }
                }
            },
            _ => {
                proof {
                    assert(addresses_tab_in(removals@[k as int], surface, node));
                    assert(false);
                }
            },
        }
        k = k + 1;
    }
    proof {
        assert(removals@.subrange(removals@.len() as int, removals@.len() as int)
            =~= Seq::<TabRemoval>::empty());
    }
}

} // verus!
