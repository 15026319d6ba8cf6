//! The order in which scripts are applied.
//!
//! Scripts are applied by ascending version. Two scripts of one version are
//! told apart by label, then by body, each compared as Rust compares strings.
//! The order is total on what a script is, so the order of application never
//! depends on the order of discovery.

use vstd::prelude::*;
use vstd::relations::*;
use vstd::seq_lib::*;
use crate::migration::script::{models, MigrationScript, ScriptModel};
use crate::text::{lemma_text_le_total_order, rank_text, text_le, Rank};

verus! {

/// `a` is applied no later than `b`.
pub open spec fn script_le(a: ScriptModel, b: ScriptModel) -> bool {
    if a.version != b.version {
        a.version < b.version
    } else if a.label != b.label {
        text_le(a.label, b.label)
    } else {
        text_le(a.body, b.body)
    }
}

/// Whether the scripts stand in the order of application.
pub open spec fn is_ordered(scripts: Seq<ScriptModel>) -> bool {
    forall|i: int, j: int| 0 <= i < j < scripts.len() ==> script_le(scripts[i], scripts[j])
}

/// The order of application is a total order on scripts: any two scripts
/// compare, and only a script and itself compare both ways.
pub proof fn lemma_script_le_total_order(a: ScriptModel, b: ScriptModel, c: ScriptModel)
    ensures
        script_le(a, a),
        script_le(a, b) || script_le(b, a),
        script_le(a, b) && script_le(b, a) ==> a == b,
        script_le(a, b) && script_le(b, c) ==> script_le(a, c),
{
    lemma_text_le_total_order(a.label, b.label, c.label);
    lemma_text_le_total_order(a.body, b.body, c.body);
    lemma_text_le_total_order(a.label, c.label, b.label);
    lemma_text_le_total_order(a.body, a.body, a.body);
    lemma_text_le_total_order(b.label, c.label, a.label);
    if script_le(a, b) && script_le(b, a) {
        assert(a.label == b.label);
        assert(a.body == b.body);
    }
}

/// However a set of scripts was discovered, it has one order of
/// application: two ordered sequences that hold the same scripts, each as
/// often as the other, are the same sequence.
pub proof fn lemma_order_is_unique(a: Seq<ScriptModel>, b: Seq<ScriptModel>)
    requires
        is_ordered(a),
        is_ordered(b),
        a.to_multiset() == b.to_multiset(),
    ensures
        a == b,
{
    let le = |x: ScriptModel, y: ScriptModel| script_le(x, y);
    lemma_script_le_is_total_ordering();
    assert(sorted_by(a, le));
    assert(sorted_by(b, le));
    lemma_sorted_unique(a, b, le);
}

/// The scripts in the order of application.
pub open spec fn in_order(scripts: Seq<ScriptModel>) -> Seq<ScriptModel> {
    choose|ordered: Seq<ScriptModel>|
        is_ordered(ordered) && ordered.to_multiset() == scripts.to_multiset()
}

proof fn lemma_script_le_is_total_ordering()
    ensures
        total_ordering(|x: ScriptModel, y: ScriptModel| script_le(x, y)),
{
    let le = |x: ScriptModel, y: ScriptModel| script_le(x, y);
    assert forall|x: ScriptModel| #[trigger] le(x, x) by {
        lemma_script_le_total_order(x, x, x);
    }
    assert forall|x: ScriptModel, y: ScriptModel| #[trigger] le(x, y) && #[trigger] le(
        y,
        x,
    ) implies x == y by {
        lemma_script_le_total_order(x, y, x);
    }
    assert forall|x: ScriptModel, y: ScriptModel, z: ScriptModel| #[trigger] le(x, y)
        && #[trigger] le(y, z) implies le(x, z) by {
        lemma_script_le_total_order(x, y, z);
    }
    assert forall|x: ScriptModel, y: ScriptModel| #[trigger] le(x, y) || #[trigger] le(y, x) by {
        lemma_script_le_total_order(x, y, x);
    }
}

/// Every collection of scripts has an order of application: `in_order` is
/// ordered and holds the same scripts, each as often.
pub proof fn lemma_in_order(scripts: Seq<ScriptModel>)
    ensures
        is_ordered(in_order(scripts)),
        in_order(scripts).to_multiset() == scripts.to_multiset(),
{
    let le = |x: ScriptModel, y: ScriptModel| script_le(x, y);
    lemma_script_le_is_total_ordering();
    scripts.lemma_sort_by_ensures(le);
    let witness = scripts.sort_by(le);
    assert(is_ordered(witness)) by {
        assert forall|i: int, j: int| 0 <= i < j < witness.len() implies script_le(
            witness[i],
            witness[j],
        ) by {
            assert(le(witness[i], witness[j]));
        }
    }
    assert(witness.to_multiset() == scripts.to_multiset());
}

/// The order of application does not depend on the order of discovery:
/// two discoveries that hold the same scripts, each as often as the other,
/// are applied in one and the same order.
pub proof fn lemma_discovery_order_is_immaterial(a: Seq<ScriptModel>, b: Seq<ScriptModel>)
    requires
        a.to_multiset() == b.to_multiset(),
    ensures
        in_order(a) == in_order(b),
{
    lemma_in_order(a);
    lemma_in_order(b);
    lemma_order_is_unique(in_order(a), in_order(b));
}

impl MigrationScript {
    /// Whether this script is applied no later than the other.
    pub fn applies_no_later_than(&self, other: &MigrationScript) -> (le: bool)
        ensures
            le == script_le(self@, other@),
    {
        if self.version != other.version {
            return self.version < other.version;
        }
        match rank_text(self.label.as_str(), other.label.as_str()) {
            Rank::Before => true,
            Rank::After => false,
            Rank::Same => match rank_text(self.body.as_str(), other.body.as_str()) {
                Rank::After => false,
                _ => true,
            },
        }
    }
}

/// Puts scripts in the order of application.
pub fn order(scripts: Vec<MigrationScript>) -> (ordered: Vec<MigrationScript>)
    ensures
        models(ordered@) == in_order(models(scripts@)),
        is_ordered(models(ordered@)),
        models(ordered@).to_multiset() == models(scripts@).to_multiset(),
{
    broadcast use {group_to_multiset_ensures, vstd::multiset::group_multiset_axioms};

    let ghost all = models(scripts@);
    let mut rest = scripts;
    let mut ordered: Vec<MigrationScript> = Vec::new();
    assert(models(ordered@) =~= Seq::<ScriptModel>::empty());
    assert(models(ordered@).to_multiset().add(all.to_multiset()) =~= all.to_multiset());
    loop
        invariant
            is_ordered(models(ordered@)),
            models(ordered@).to_multiset().add(models(rest@).to_multiset()) == all.to_multiset(),
        ensures
            is_ordered(models(ordered@)),
            models(ordered@).to_multiset() == all.to_multiset(),
        decreases rest.len(),
    {
        let ghost before = models(rest@);
        let ghost placed = models(ordered@);
        let script = match rest.pop() {
            Some(script) => script,
            None => {
                proof {
                    assert(before.len() == 0);
                    before.to_multiset_ensures();
                    vstd::multiset::lemma_multiset_empty_len(before.to_multiset());
                    assert(before.to_multiset() =~= vstd::multiset::Multiset::empty());
                    assert(placed.to_multiset().add(before.to_multiset()) =~= placed.to_multiset());
                }
                break ;
            },
        };
        assert(before =~= models(rest@).push(script@));
        let mut at: usize = 0;
        while at < ordered.len() && ordered[at].applies_no_later_than(&script)
            invariant
                at <= ordered.len(),
                forall|k: int| 0 <= k < at ==> script_le(#[trigger] models(ordered@)[k], script@),
            decreases ordered.len() - at,
        {
            at = at + 1;
        }
        proof {
            assert forall|k: int| at <= k < placed.len() implies script_le(
                script@,
                #[trigger] placed[k],
            ) by {
                lemma_script_le_total_order(script@, placed[at as int], placed[k]);
            }
        }
        ordered.insert(at, script);
        assert(models(ordered@) =~= placed.insert(at as int, script@));
        proof {
            to_multiset_insert(placed, at as int, script@);
            to_multiset_build(models(rest@), script@);
        }
        assert(placed.insert(at as int, script@).to_multiset().add(models(rest@).to_multiset())
            =~= placed.to_multiset().add(before.to_multiset()));
    }
    proof {
        lemma_in_order(all);
        lemma_order_is_unique(models(ordered@), in_order(all));
    }
    ordered
}

} // verus!
