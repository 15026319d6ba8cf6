//! Which scripts a run applies, and where it leaves the store.
//!
//! A run against a store at version `current` applies, in the order given,
//! the scripts whose version is above `current`, and stops at the first
//! that fails. Each committed script moves the store to its own version.

use vstd::prelude::*;
use crate::migration::order::{is_ordered, script_le};
use crate::migration::script::ScriptModel;

verus! {

/// The scripts that a store at version `current` still lacks, in the order
/// given.
pub open spec fn pending(scripts: Seq<ScriptModel>, current: u32) -> Seq<ScriptModel> {
    scripts.filter(|s: ScriptModel| s.version > current)
}

/// The versions of the scripts, in the order given.
pub open spec fn versions(scripts: Seq<ScriptModel>) -> Seq<u32> {
    scripts.map_values(|s: ScriptModel| s.version)
}

/// The version of a store that was at `current` once the first `count` of
/// its pending scripts are committed.
pub open spec fn version_reached(scripts: Seq<ScriptModel>, current: u32, count: int) -> u32 {
    if count <= 0 {
        current
    } else {
        pending(scripts, current)[count - 1].version
    }
}

/// The version of a store that was at `current` after a run in which no
/// script fails.
pub open spec fn target_version(scripts: Seq<ScriptModel>, current: u32) -> u32 {
    version_reached(scripts, current, pending(scripts, current).len() as int)
}

/// Every pending script is one of the scripts and lies above `current`;
/// every script above `current` is pending.
pub proof fn lemma_pending_members(scripts: Seq<ScriptModel>, current: u32)
    ensures
        pending(scripts, current).len() <= scripts.len(),
        forall|k: int|
            0 <= k < pending(scripts, current).len() ==> (#[trigger] pending(
                scripts,
                current,
            )[k]).version > current && scripts.contains(pending(scripts, current)[k]),
        forall|i: int|
            0 <= i < scripts.len() && scripts[i].version > current ==> pending(
                scripts,
                current,
            ).contains(#[trigger] scripts[i]),
{
    let above = |s: ScriptModel| s.version > current;
    let p = scripts.filter(above);
    scripts.lemma_filter_len(above);
    assert forall|k: int| 0 <= k < p.len() implies (#[trigger] p[k]).version > current
        && scripts.contains(p[k]) by {
        scripts.lemma_filter_pred(above, k);
        assert(p.contains(p[k]));
        scripts.lemma_filter_contains_rev(above, p[k]);
    }
    assert forall|i: int| 0 <= i < scripts.len() && scripts[i].version > current implies p.contains(
        #[trigger] scripts[i],
    ) by {
        scripts.lemma_filter_contains(above, i);
    }
}

/// Around the script at position `at`, the pending scripts are those
/// pending before it, the script itself if it is pending, and those pending
/// after it.
pub proof fn lemma_pending_split(scripts: Seq<ScriptModel>, current: u32, at: int)
    requires
        0 <= at < scripts.len(),
    ensures
        pending(scripts, current) == pending(scripts.take(at), current) + (if scripts[at].version
            > current {
            seq![scripts[at]]
        } else {
            Seq::<ScriptModel>::empty()
        }) + pending(scripts.skip(at + 1), current),
        pending(scripts.take(at + 1), current) == pending(scripts.take(at), current) + (
        if scripts[at].version > current {
            seq![scripts[at]]
        } else {
            Seq::<ScriptModel>::empty()
        }),
{
    let above = |s: ScriptModel| s.version > current;
    let one = seq![scripts[at]];
    assert(one.filter(above) == if scripts[at].version > current {
        one
    } else {
        Seq::<ScriptModel>::empty()
    }) by {
        reveal_with_fuel(Seq::filter, 2);
        assert(one.drop_last() =~= Seq::<ScriptModel>::empty());
        assert(one.drop_last().filter(above) =~= Seq::<ScriptModel>::empty());
        assert(one.last() == scripts[at]);
        assert(Seq::<ScriptModel>::empty().push(scripts[at]) =~= one);
    }
    assert(scripts.take(at + 1) =~= scripts.take(at) + one);
    assert(scripts =~= scripts.take(at + 1) + scripts.skip(at + 1));
    Seq::filter_distributes_over_add(scripts.take(at), one, above);
    Seq::filter_distributes_over_add(scripts.take(at + 1), scripts.skip(at + 1), above);
}

/// Leaving scripts out does not disturb the order of the others.
pub proof fn lemma_pending_keeps_order(scripts: Seq<ScriptModel>, current: u32)
    requires
        is_ordered(scripts),
    ensures
        is_ordered(pending(scripts, current)),
    decreases scripts.len(),
{
    let above = |s: ScriptModel| s.version > current;
    reveal(Seq::filter);
    if scripts.len() > 0 {
        let front = scripts.drop_last();
        lemma_pending_keeps_order(front, current);
        let kept = pending(front, current);
        lemma_pending_members(front, current);
        assert forall|i: int, j: int| 0 <= i < j < pending(scripts, current).len() implies script_le(
            pending(scripts, current)[i],
            pending(scripts, current)[j],
        ) by {
            if j == kept.len() {
                let x = kept[i];
                assert(front.contains(x));
                let k = choose|k: int| 0 <= k < front.len() && front[k] == x;
                assert(script_le(scripts[k], scripts[scripts.len() - 1]));
            }
        }
    }
}

/// In an ordered sequence versions never fall.
pub proof fn lemma_ordered_versions_ascend(scripts: Seq<ScriptModel>, i: int, j: int)
    requires
        is_ordered(scripts),
        0 <= i <= j < scripts.len(),
    ensures
        scripts[i].version <= scripts[j].version,
{
    if i < j {
        assert(script_le(scripts[i], scripts[j]));
    }
}

/// A run in which no script fails leaves the store at the highest version
/// there is: no script lies above it, and it is the version the store had
/// or that of one of the scripts.
pub proof fn lemma_target_is_highest(scripts: Seq<ScriptModel>, current: u32)
    requires
        is_ordered(scripts),
    ensures
        current <= target_version(scripts, current),
        forall|i: int|
            0 <= i < scripts.len() ==> (#[trigger] scripts[i]).version <= target_version(
                scripts,
                current,
            ),
        target_version(scripts, current) == current || exists|i: int|
            0 <= i < scripts.len() && (#[trigger] scripts[i]).version == target_version(
                scripts,
                current,
            ),
{
    let p = pending(scripts, current);
    let target = target_version(scripts, current);
    lemma_pending_members(scripts, current);
    lemma_pending_keeps_order(scripts, current);
    if p.len() > 0 {
        let last = p[p.len() - 1];
        assert(scripts.contains(last));
        let w = choose|w: int| 0 <= w < scripts.len() && scripts[w] == last;
        assert(scripts[w].version == target);
    }
    assert forall|i: int| 0 <= i < scripts.len() implies (#[trigger] scripts[i]).version
        <= target by {
        if scripts[i].version > current {
            assert(p.contains(scripts[i]));
            let k = choose|k: int| 0 <= k < p.len() && p[k] == scripts[i];
            lemma_ordered_versions_ascend(p, k, p.len() - 1);
        }
    }
}

/// Running again after a run in which no script failed applies nothing and
/// leaves the version where it is.
pub proof fn lemma_rerun_applies_nothing(scripts: Seq<ScriptModel>, current: u32)
    requires
        is_ordered(scripts),
    ensures
        pending(scripts, target_version(scripts, current)) == Seq::<ScriptModel>::empty(),
        target_version(scripts, target_version(scripts, current)) == target_version(
            scripts,
            current,
        ),
{
    let target = target_version(scripts, current);
    lemma_target_is_highest(scripts, current);
    lemma_pending_members(scripts, target);
    let again = pending(scripts, target);
    if again.len() > 0 {
        assert(scripts.contains(again[0]));
        let w = choose|w: int| 0 <= w < scripts.len() && scripts[w] == again[0];
        assert(scripts[w].version <= target);
    }
    assert(again =~= Seq::<ScriptModel>::empty());
}

/// No script is applied twice: wherever a run stopped, a script that it
/// committed is not pending for a store at the version that the run reached.
pub proof fn lemma_committed_never_pending_again(
    scripts: Seq<ScriptModel>,
    current: u32,
    count: int,
)
    requires
        is_ordered(scripts),
        0 <= count <= pending(scripts, current).len(),
    ensures
        current <= version_reached(scripts, current, count),
        forall|k: int|
            0 <= k < count ==> (#[trigger] pending(scripts, current)[k]).version
                <= version_reached(scripts, current, count) && !pending(
                scripts,
                version_reached(scripts, current, count),
            ).contains(pending(scripts, current)[k]),
{
    let p = pending(scripts, current);
    let reached = version_reached(scripts, current, count);
    lemma_pending_members(scripts, current);
    lemma_pending_keeps_order(scripts, current);
    lemma_pending_members(scripts, reached);
    let again = pending(scripts, reached);
    assert forall|k: int| 0 <= k < count implies (#[trigger] p[k]).version <= reached
        && !again.contains(p[k]) by {
        lemma_ordered_versions_ascend(p, k, count - 1);
        if again.contains(p[k]) {
            let m = choose|m: int| 0 <= m < again.len() && again[m] == p[k];
            assert(again[m].version > reached);
        }
    }
}

} // verus!
