use crate::modz::{Mod, ModView};
use vstd::prelude::*;

verus! {

/// The records of `mods` as plain values.
pub open spec fn views(mods: Seq<Mod>) -> Seq<ModView> {
    mods.map_values(|m: Mod| m@)
}

/// Whether a record of `s` has the id `id`.
pub open spec fn contains_id(s: Seq<ModView>, id: nat) -> bool {
    exists|i: int| 0 <= i < s.len() && #[trigger] s[i].id == id
}

/// Whether no two records of `s` have the same id.
pub open spec fn unique_ids(s: Seq<ModView>) -> bool {
    forall|i: int, j: int|
        0 <= i < s.len() && 0 <= j < s.len() && i != j ==> #[trigger] s[i].id != #[trigger] s[j].id
}

/// The position of the first record of `s`, not before `from`, that has the id `id`.
pub open spec fn position_from(s: Seq<ModView>, id: nat, from: int) -> Option<int>
    decreases s.len() - from,
{
    if from < 0 || from >= s.len() {
        None
    } else if s[from].id == id {
        Some(from)
    } else {
        position_from(s, id, from + 1)
    }
}

/// The position of the first record of `s` that has the id `id`.
pub open spec fn position_of(s: Seq<ModView>, id: nat) -> Option<int> {
    position_from(s, id, 0)
}

/// The records of `s` that do not have the id `id`, in their order.
pub open spec fn without(s: Seq<ModView>, id: nat) -> Seq<ModView>
    decreases s.len(),
{
    if s.len() == 0 {
        s
    } else {
        let rest = without(s.drop_last(), id);
        if s.last().id == id {
            rest
        } else {
            rest.push(s.last())
        }
    }
}

/// The records of `s` whose staged flag is `staged`, in their order.
pub open spec fn with_staged(s: Seq<ModView>, staged: bool) -> Seq<ModView>
    decreases s.len(),
{
    if s.len() == 0 {
        s
    } else {
        let rest = with_staged(s.drop_last(), staged);
        if s.last().staged == staged {
            rest.push(s.last())
        } else {
            rest
        }
    }
}

/// The records of `s` without those whose id an earlier record has already.
pub open spec fn deduped(s: Seq<ModView>) -> Seq<ModView>
    decreases s.len(),
{
    if s.len() == 0 {
        s
    } else {
        let rest = deduped(s.drop_last());
        if contains_id(rest, s.last().id) {
            rest
        } else {
            rest.push(s.last())
        }
    }
}

/// The records of `s` at the positions where `kept` holds `true`, in their order.
pub open spec fn picked(s: Seq<ModView>, kept: Seq<bool>) -> Seq<ModView>
    decreases s.len(),
{
    if s.len() == 0 || kept.len() != s.len() {
        Seq::empty()
    } else {
        let rest = picked(s.drop_last(), kept.drop_last());
        if kept.last() {
            rest.push(s.last())
        } else {
            rest
        }
    }
}

/// `position_from` finds the first record with the id at or after `from`, and finds
/// none only where there is none.
pub proof fn lemma_position_from(s: Seq<ModView>, id: nat, from: int)
    requires
        0 <= from <= s.len(),
    ensures
        match position_from(s, id, from) {
            Some(i) => from <= i < s.len() && s[i].id == id && forall|j: int|
                from <= j < i ==> (#[trigger] s[j]).id != id,
            None => forall|j: int| from <= j < s.len() ==> (#[trigger] s[j]).id != id,
        },
    decreases s.len() - from,
{
    if from < s.len() && s[from].id != id {
        lemma_position_from(s, id, from + 1);
    }
}

/// A record with the id is found exactly where the records contain the id.
pub proof fn lemma_position_of(s: Seq<ModView>, id: nat)
    ensures
        position_of(s, id) is Some <==> contains_id(s, id),
        position_of(s, id) matches Some(i) ==> 0 <= i < s.len() && s[i].id == id,
{
    lemma_position_from(s, id, 0);
}

/// Taking out an id that no record has changes nothing.
pub proof fn lemma_without_absent(s: Seq<ModView>, id: nat)
    requires
        !contains_id(s, id),
    ensures
        without(s, id) == s,
    decreases s.len(),
{
    if s.len() > 0 {
        assert(s.last().id != id) by {
            assert(s[s.len() - 1].id != id);
        }
        assert(!contains_id(s.drop_last(), id)) by {
            if contains_id(s.drop_last(), id) {
                let i = choose|i: int| 0 <= i < s.drop_last().len() && s.drop_last()[i].id == id;
                assert(s[i].id == id);
            }
        }
        lemma_without_absent(s.drop_last(), id);
        assert(s.drop_last().push(s.last()) == s);
    }
}

/// Among records with unique ids, taking out an id takes out the one record that has
/// it.
pub proof fn lemma_without_unique(s: Seq<ModView>, id: nat, i: int)
    requires
        unique_ids(s),
        0 <= i < s.len(),
        s[i].id == id,
    ensures
        without(s, id) == s.remove(i),
    decreases s.len(),
{
    let front = s.drop_last();
    if i == s.len() - 1 {
        assert(!contains_id(front, id)) by {
            if contains_id(front, id) {
                let j = choose|j: int| 0 <= j < front.len() && front[j].id == id;
                assert(s[j].id == id);
            }
        }
        lemma_without_absent(front, id);
        assert(s.remove(i) == front);
    } else {
        assert(s.last().id != id) by {
            assert(s[s.len() - 1].id != s[i].id);
        }
        assert(unique_ids(front)) by {
            assert forall|a: int, b: int|
                0 <= a < front.len() && 0 <= b < front.len() && a != b implies #[trigger] front[a].id
                != #[trigger] front[b].id by {
                assert(s[a].id != s[b].id);
            }
        }
        lemma_without_unique(front, id, i);
        assert(front.remove(i).push(s.last()) == s.remove(i));
    }
}

/// What is left when an id is taken out does not contain it, contains every other id
/// that the records had, and keeps ids unique.
pub proof fn lemma_without_props(s: Seq<ModView>, id: nat)
    ensures
        !contains_id(without(s, id), id),
        unique_ids(s) ==> unique_ids(without(s, id)),
        forall|other: nat|
            other != id ==> (contains_id(without(s, id), other) <==> contains_id(s, other)),
        without(s, id).len() <= s.len(),
    decreases s.len(),
{
    lemma_position_of(s, id);
    match position_of(s, id) {
        Some(i) => {
            if unique_ids(s) {
                lemma_without_unique(s, id, i);
                lemma_remove_unique(s, i);
            }
        },
        None => {
            lemma_without_absent(s, id);
        },
    }
    if s.len() > 0 {
        let front = s.drop_last();
        let rest = without(front, id);
        let w = without(s, id);
        lemma_without_props(front, id);
        assert(!contains_id(w, id)) by {
            if contains_id(w, id) {
                let k = choose|k: int| 0 <= k < w.len() && w[k].id == id;
                if k < rest.len() {
                    assert(rest[k].id == id);
                }
            }
        }
        assert forall|other: nat| other != id implies (contains_id(w, other) <==> contains_id(
            s,
            other,
        )) by {
            if contains_id(w, other) {
                let k = choose|k: int| 0 <= k < w.len() && w[k].id == other;
                if k < rest.len() {
                    assert(rest[k].id == other);
                    assert(contains_id(rest, other));
                    assert(contains_id(front, other));
                    let j = choose|j: int| 0 <= j < front.len() && front[j].id == other;
                    assert(s[j].id == other);
                } else {
                    assert(s[s.len() - 1].id == other);
                }
            }
            if contains_id(s, other) {
                let j = choose|j: int| 0 <= j < s.len() && s[j].id == other;
                if j < front.len() {
                    assert(front[j].id == other);
                    assert(contains_id(front, other));
                    assert(contains_id(rest, other));
                    let k = choose|k: int| 0 <= k < rest.len() && rest[k].id == other;
                    assert(w[k].id == other);
                } else {
                    assert(w[rest.len() as int].id == other);
                }
            }
        }
    }
}

/// Removing a record keeps ids unique.
pub proof fn lemma_remove_unique(s: Seq<ModView>, i: int)
    requires
        unique_ids(s),
        0 <= i < s.len(),
    ensures
        unique_ids(s.remove(i)),
        !contains_id(s.remove(i), s[i].id),
{
    let r = s.remove(i);
    assert forall|a: int, b: int| 0 <= a < r.len() && 0 <= b < r.len() && a != b implies #[trigger] r[a].id
        != #[trigger] r[b].id by {
        let a2 = if a < i { a } else { a + 1 };
        let b2 = if b < i { b } else { b + 1 };
        assert(r[a] == s[a2]);
        assert(r[b] == s[b2]);
        assert(s[a2].id != s[b2].id);
    }
    if contains_id(r, s[i].id) {
        let a = choose|a: int| 0 <= a < r.len() && r[a].id == s[i].id;
        let a2 = if a < i { a } else { a + 1 };
        assert(r[a] == s[a2]);
        assert(s[a2].id != s[i].id);
    }
}

/// Adding a record whose id no record has keeps ids unique.
pub proof fn lemma_push_unique(s: Seq<ModView>, m: ModView)
    requires
        unique_ids(s),
        !contains_id(s, m.id),
    ensures
        unique_ids(s.push(m)),
        contains_id(s.push(m), m.id),
{
    let r = s.push(m);
    assert forall|a: int, b: int| 0 <= a < r.len() && 0 <= b < r.len() && a != b implies #[trigger] r[a].id
        != #[trigger] r[b].id by {
        if a < s.len() && b < s.len() {
            assert(s[a].id != s[b].id);
        } else if a < s.len() {
            assert(s[a].id != m.id);
        } else {
            assert(s[b].id != m.id);
        }
    }
    assert(r[s.len() as int].id == m.id);
}

/// Replacing a record by one with the same id keeps ids unique and the set of ids.
pub proof fn lemma_update_unique(s: Seq<ModView>, i: int, m: ModView)
    requires
        unique_ids(s),
        0 <= i < s.len(),
        m.id == s[i].id,
    ensures
        unique_ids(s.update(i, m)),
        forall|id: nat| contains_id(s.update(i, m), id) <==> contains_id(s, id),
{
    let r = s.update(i, m);
    assert forall|a: int, b: int| 0 <= a < r.len() && 0 <= b < r.len() && a != b implies #[trigger] r[a].id
        != #[trigger] r[b].id by {
        assert(r[a].id == s[a].id);
        assert(r[b].id == s[b].id);
        assert(s[a].id != s[b].id);
    }
    assert forall|id: nat| contains_id(r, id) <==> contains_id(s, id) by {
        if contains_id(r, id) {
            let a = choose|a: int| 0 <= a < r.len() && r[a].id == id;
            assert(s[a].id == id);
        }
        if contains_id(s, id) {
            let a = choose|a: int| 0 <= a < s.len() && s[a].id == id;
            assert(r[a].id == id);
        }
    }
}

/// Records without repeated ids have unique ids and contain the ids they had.
pub proof fn lemma_deduped_unique(s: Seq<ModView>)
    ensures
        unique_ids(deduped(s)),
        forall|id: nat| contains_id(deduped(s), id) <==> contains_id(s, id),
    decreases s.len(),
{
    if s.len() > 0 {
        let front = s.drop_last();
        let rest = deduped(front);
        lemma_deduped_unique(front);
        if !contains_id(rest, s.last().id) {
            lemma_push_unique(rest, s.last());
        }
        let d = deduped(s);
        assert forall|id: nat| contains_id(d, id) <==> contains_id(s, id) by {
            if contains_id(d, id) {
                let a = choose|a: int| 0 <= a < d.len() && d[a].id == id;
                if a < rest.len() {
                    assert(rest[a].id == id);
                    assert(contains_id(front, id));
                    let b = choose|b: int| 0 <= b < front.len() && front[b].id == id;
                    assert(s[b].id == id);
                } else {
                    assert(s[s.len() - 1].id == id);
                }
            }
            if contains_id(s, id) {
                let b = choose|b: int| 0 <= b < s.len() && s[b].id == id;
                if b < front.len() {
                    assert(front[b].id == id);
                    assert(contains_id(front, id));
                    assert(contains_id(rest, id));
                    let a = choose|a: int| 0 <= a < rest.len() && rest[a].id == id;
                    assert(d[a].id == id);
                } else {
                    if contains_id(rest, id) {
                        let a = choose|a: int| 0 <= a < rest.len() && rest[a].id == id;
                        assert(d[a].id == id);
                    } else {
                        assert(d[rest.len() as int].id == id);
                    }
                }
            }
        }
    }
}

/// Records with unique ids lose nothing when repeated ids are dropped.
pub proof fn lemma_deduped_identity(s: Seq<ModView>)
    requires
        unique_ids(s),
    ensures
        deduped(s) == s,
    decreases s.len(),
{
    if s.len() > 0 {
        let front = s.drop_last();
        assert(unique_ids(front)) by {
            assert forall|a: int, b: int|
                0 <= a < front.len() && 0 <= b < front.len() && a != b implies #[trigger] front[a].id
                != #[trigger] front[b].id by {
                assert(s[a].id != s[b].id);
            }
        }
        lemma_deduped_identity(front);
        assert(!contains_id(front, s.last().id)) by {
            if contains_id(front, s.last().id) {
                let a = choose|a: int| 0 <= a < front.len() && front[a].id == s.last().id;
                assert(s[a].id != s[s.len() - 1].id);
            }
        }
        assert(front.push(s.last()) == s);
    }
}

} // verus!
