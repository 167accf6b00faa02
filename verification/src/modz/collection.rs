use crate::error::ModError;
use crate::gamebanana::models::modpage::GBModPage;
use crate::modz::records::{
    contains_id, deduped, lemma_deduped_identity, lemma_deduped_unique, lemma_position_of,
    lemma_push_unique, lemma_remove_unique, lemma_update_unique, lemma_without_absent,
    lemma_without_props, lemma_without_unique, picked, position_from, position_of, unique_ids,
    views, with_staged, without,
};
use crate::modz::{
    after_stage, after_toggle, after_unstage, built, staging_action_for, Mod, ModView,
    StagingAction,
};
use vstd::prelude::*;

verus! {

/// The mods that are kept on local disk, each under its own id.
#[derive(Debug)]
pub struct LocalCollection {
    mods: Vec<Mod>,
}

impl View for LocalCollection {
    type V = Seq<ModView>;

    open spec fn view(&self) -> Seq<ModView> {
        views(self.records())
    }
}

/// Whether `after` and `r` are what a mutator's result `out` for the record at
/// position `i` of `before` leads to: on success the record is replaced by the
/// mutator's, under the id it had; on failure the records stay and the error is
/// handed on.
pub open spec fn mutated(
    before: Seq<ModView>,
    i: int,
    out: Result<Mod, ModError>,
    r: Result<(), ModError>,
    after: Seq<ModView>,
) -> bool {
    match out {
        Ok(changed) => r is Ok && after == before.update(i, changed@.keyed(before[i].id)),
        Err(e) => r == Err::<(), ModError>(e) && after == before,
    }
}

/// The position of the first of `mods` that has the id `id`, if there is one.
fn position(mods: &Vec<Mod>, id: usize) -> (r: Option<usize>)
    ensures
        match r {
            Some(i) => position_of(views(mods@), id as nat) == Some(i as int) && i < mods@.len()
                && mods@[i as int].id == id,
            None => position_of(views(mods@), id as nat) is None && !contains_id(
                views(mods@),
                id as nat,
            ),
        },
{
    proof {
        lemma_position_of(views(mods@), id as nat);
    }
    let mut i: usize = 0;
    while i < mods.len()
        invariant
            i <= mods.len(),
            position_of(views(mods@), id as nat) == position_from(
                views(mods@),
                id as nat,
                i as int,
            ),
        decreases mods.len() - i,
    {
        assert(views(mods@)[i as int] == mods@[i as int]@);
        if mods[i].id == id {
            return Some(i);
        }
        i = i + 1;
    }
    None
}

impl LocalCollection {
    /// Takes the records out, leaving the collection without mods.
    fn take(&mut self) -> (mods: Vec<Mod>)
        ensures
            mods@ == old(self).records(),
            final(self).records() == Seq::<Mod>::empty(),
    {
        let mut mods: Vec<Mod> = Vec::new();
        assert(views(mods@) =~= Seq::<ModView>::empty());
        core::mem::swap(&mut self.mods, &mut mods);
        mods
    }

    /// The records of the collection, in the order in which they were added.
    pub closed spec fn records(&self) -> Seq<Mod> {
        self.mods@
    }

    /// No two records have the same id.
    pub open spec fn wf(&self) -> bool {
        unique_ids(self@)
    }

    #[verifier::type_invariant]
    pub(crate) open spec fn inv(&self) -> bool {
        self.wf()
    }

    /// A collection without mods.
    pub fn new() -> (r: LocalCollection)
        ensures
            r.wf(),
            r@ == Seq::<ModView>::empty(),
    {
        let r = LocalCollection { mods: Vec::new() };
        assert(r@ =~= Seq::<ModView>::empty());
        r
    }

    /// The collection that a registry holds. `None` stands for a registry that is
    /// absent or empty and gives a collection without mods; of records that share an
    /// id, the first is kept.
    pub fn load(registry: Option<Vec<Mod>>) -> (r: LocalCollection)
        ensures
            r.wf(),
            r@ == match registry {
                Some(stored) => deduped(views(stored@)),
                None => Seq::<ModView>::empty(),
            },
    {
        match registry {
            None => LocalCollection::new(),
            Some(stored) => {
                let mut mods: Vec<Mod> = Vec::new();
                let mut i: usize = 0;
                assert(views(mods@) =~= deduped(views(stored@.take(0))));
                while i < stored.len()
                    invariant
                        i <= stored.len(),
                        views(mods@) == deduped(views(stored@.take(i as int))),
                    decreases stored.len() - i,
                {
                    proof {
                        let before = views(stored@.take(i as int));
                        let after = views(stored@.take(i + 1));
                        assert(after.drop_last() =~= before);
                        assert(after.last() == stored@[i as int]@);
                        lemma_position_of(views(mods@), stored@[i as int].id as nat);
                    }
                    if position(&mods, stored[i].id).is_none() {
                        let m = stored[i].clone();
                        proof {
                            assert(views(mods@.push(m)) =~= views(mods@).push(m@));
                        }
                        mods.push(m);
                    }
                    i = i + 1;
                }
                proof {
                    assert(stored@.take(stored@.len() as int) == stored@);
                    lemma_deduped_unique(views(stored@));
                }
                LocalCollection { mods }
            },
        }
    }

    /// The records to write to the registry in place of all that it holds: every mod
    /// of the collection, in order.
    pub fn persist(&self) -> (r: Vec<Mod>)
        ensures
            self.wf(),
            r@ == self.records(),
            views(r@) == self@,
    {
        proof {
            use_type_invariant(self);
        }
        let mut out: Vec<Mod> = Vec::new();
        let mut i: usize = 0;
        while i < self.mods.len()
            invariant
                i <= self.mods.len(),
                out@ == self.mods@.take(i as int),
            decreases self.mods.len() - i,
        {
            out.push(self.mods[i].clone());
            proof {
                assert(self.mods@.take(i + 1) == self.mods@.take(i as int).push(
                    self.mods@[i as int],
                ));
            }
            i = i + 1;
        }
        proof {
            assert(self.mods@.take(self.mods@.len() as int) == self.mods@);
        }
        out
    }

    /// The mods of the collection.
    pub fn mods(&self) -> (r: &Vec<Mod>)
        ensures
            self.wf(),
            r@ == self.records(),
    {
        proof {
            use_type_invariant(self);
        }
        &self.mods
    }

    /// The number of mods in the collection.
    pub fn len(&self) -> (n: usize)
        ensures
            n == self@.len(),
    {
        self.mods.len()
    }

    /// The position of the mod with the id `id`, if the collection holds one.
    fn find(&self, id: usize) -> (r: Option<usize>)
        ensures
            self.wf(),
            match r {
                Some(i) => position_of(self@, id as nat) == Some(i as int) && i < self@.len()
                    && self@[i as int].id == id,
                None => position_of(self@, id as nat) is None && !contains_id(self@, id as nat),
            },
    {
        proof {
            use_type_invariant(self);
        }
        position(&self.mods, id)
    }

    /// Whether the collection holds a mod with the id `id`.
    pub fn contains(&self, id: usize) -> (r: bool)
        ensures
            r == contains_id(self@, id as nat),
    {
        self.find(id).is_some()
    }

    /// Adds the mod that the page `gbmod` describes, given the outcome `fetched` of
    /// fetching and unpacking its file variant `idx`: the directory that now holds it,
    /// or why there is none. Where the page has no variant `idx` the result is
    /// `IndexOutOfRange`, and where the fetch failed it is the fetch's error; the
    /// collection then stays as it was. Otherwise the new mod, unstaged, is added at
    /// the end, in place of any mod that had its id.
    pub fn register_online_mod(
        &mut self,
        gbmod: GBModPage,
        idx: usize,
        fetched: Result<String, ModError>,
    ) -> (r: Result<(), ModError>)
        ensures
            final(self).wf(),
            idx >= gbmod.files@.len() ==> r == Err::<(), ModError>(ModError::IndexOutOfRange)
                && final(self)@ == old(self)@,
            idx < gbmod.files@.len() ==> match fetched {
                Ok(path) => r is Ok && final(self)@ == without(old(self)@, gbmod.row as nat).push(
                    built(gbmod, path@),
                ),
                Err(e) => r == Err::<(), ModError>(e) && final(self)@ == old(self)@,
            },
            r is Ok ==> contains_id(final(self)@, gbmod.row as nat),
            r is Err ==> final(self)@.len() == old(self)@.len(),
    {
        proof {
            use_type_invariant(&*self);
        }
        if idx >= gbmod.files.len() {
            return Err(ModError::IndexOutOfRange);
        }
        match fetched {
            Err(e) => Err(e),
            Ok(path) => {
                let ghost before = self@;
                let ghost id = gbmod.row as nat;
                let found = self.find(gbmod.row);
                proof {
                    lemma_without_props(before, id);
                }
                let mut mods = self.take();
                match found {
                    Some(i) => {
                        proof {
                            lemma_without_unique(before, id, i as int);
                            assert(views(mods@.remove(i as int)) =~= before.remove(i as int));
                        }
                        mods.remove(i);
                    },
                    None => {
                        proof {
                            lemma_without_absent(before, id);
                        }
                    },
                }
                assert(views(mods@) == without(before, id));
                let new_mod = Mod::build(gbmod, path);
                proof {
                    lemma_push_unique(views(mods@), new_mod@);
                    assert(views(mods@.push(new_mod)) =~= views(mods@).push(new_mod@));
                }
                mods.push(new_mod);
                self.mods = mods;
                Ok(())
            },
        }
    }

    /// Removes the mod with the id `id` for good. Where the collection holds no such
    /// mod the result is `NotFound` and the collection stays as it was.
    pub fn remove(&mut self, id: usize) -> (r: Result<(), ModError>)
        ensures
            final(self).wf(),
            final(self)@ == without(old(self)@, id as nat),
            !contains_id(final(self)@, id as nat),
            contains_id(old(self)@, id as nat) ==> r is Ok,
            !contains_id(old(self)@, id as nat) ==> r == Err::<(), ModError>(ModError::NotFound)
                && final(self)@ == old(self)@,
    {
        proof {
            use_type_invariant(&*self);
            lemma_without_props(self@, id as nat);
        }
        let ghost before = self@;
        match self.find(id) {
            Some(i) => {
                proof {
                    lemma_without_unique(before, id as nat, i as int);
                    lemma_remove_unique(before, i as int);
                }
                let mut mods = self.take();
                proof {
                    assert(views(mods@.remove(i as int)) =~= before.remove(i as int));
                }
                mods.remove(i);
                self.mods = mods;
                Ok(())
            },
            None => {
                proof {
                    lemma_without_absent(before, id as nat);
                }
                Err(ModError::NotFound)
            },
        }
    }

    /// Lets `mutator` change the mod with the id `id`: the mod becomes what the
    /// mutator returns for it, except for its id, which stays. Where the mutator fails,
    /// its error is the result, and where the collection holds no such mod the result
    /// is `NotFound`; the collection then stays as it was.
    pub fn apply_on_mod<F: FnOnce(&Mod) -> Result<Mod, ModError>>(
        &mut self,
        id: usize,
        mutator: F,
    ) -> (r: Result<(), ModError>)
        requires
            forall|m: Mod| m.id == id ==> call_requires(mutator, (&m,)),
        ensures
            final(self).wf(),
            match position_of(old(self)@, id as nat) {
                Some(i) => exists|out: Result<Mod, ModError>|
                    {
                        &&& #[trigger] call_ensures(mutator, (&old(self).records()[i],), out)
                        &&& mutated(old(self)@, i, out, r, final(self)@)
                    },
                None => r == Err::<(), ModError>(ModError::NotFound) && final(self)@ == old(
                    self,
                )@,
            },
    {
        proof {
            use_type_invariant(&*self);
        }
        let ghost before = self@;
        match self.find(id) {
            None => Err(ModError::NotFound),
            Some(i) => {
                assert(self@[i as int] == self.mods@[i as int]@);
                let out = mutator(&self.mods[i]);
                let ghost outcome = out;
                let r = match out {
                    Err(e) => Err(e),
                    Ok(changed) => {
                        let mut kept = changed;
                        kept.id = id;
                        proof {
                            assert(kept@ == changed@.keyed(id as nat));
                            lemma_update_unique(before, i as int, kept@);
                        }
                        let mut mods = self.take();
                        proof {
                            assert(views(mods@.update(i as int, kept)) =~= before.update(
                                i as int,
                                kept@,
                            ));
                        }
                        mods.set(i, kept);
                        self.mods = mods;
                        Ok(())
                    },
                };
                proof {
                    let found = position_of(old(self)@, id as nat)->0;
                    assert(call_ensures(mutator, (&old(self).records()[found],), outcome));
                    assert(mutated(before, found, outcome, r, self@));
                }
                r
            },
        }
    }

    /// What has to be done on disk to move the mod with the id `id` to the other
    /// state; `NotFound` where the collection holds no such mod.
    pub fn staging_action(&self, id: usize) -> (r: Result<StagingAction, ModError>)
        ensures
            match position_of(self@, id as nat) {
                Some(i) => r matches Ok(action) && action@ == staging_action_for(self@[i]),
                None => r matches Err(e) && e == ModError::NotFound,
            },
    {
        match self.find(id) {
            Some(i) => {
                assert(self@[i as int] == self.mods@[i as int]@);
                Ok(self.mods[i].staging_action())
            },
            None => Err(ModError::NotFound),
        }
    }

    /// Records the outcome `copied` of copying the mod with the id `id` into the game's
    /// mod directory: the mod is staged where the copy succeeded. Where it failed the
    /// result is its error, and where the collection holds no such mod the result is
    /// `NotFound`; the collection then stays as it was.
    pub fn stage(&mut self, id: usize, copied: Result<(), ModError>) -> (r: Result<
        (),
        ModError,
    >)
        ensures
            final(self).wf(),
            match position_of(old(self)@, id as nat) {
                Some(i) => r == copied && final(self)@ == old(self)@.update(
                    i,
                    after_stage(old(self)@[i], copied),
                ),
                None => r == Err::<(), ModError>(ModError::NotFound) && final(self)@ == old(
                    self,
                )@,
            },
    {
        proof {
            use_type_invariant(&*self);
        }
        let ghost before = self@;
        match self.find(id) {
            None => Err(ModError::NotFound),
            Some(i) => {
                assert(self@[i as int] == self.mods@[i as int]@);
                let mut m = self.mods[i].clone();
                let r = m.stage(copied);
                proof {
                    lemma_update_unique(before, i as int, m@);
                }
                let mut mods = self.take();
                proof {
                    assert(views(mods@.update(i as int, m)) =~= before.update(i as int, m@));
                }
                mods.set(i, m);
                self.mods = mods;
                r
            },
        }
    }

    /// Records the outcome `removed` of removing the mod with the id `id` from the
    /// game's mod directory: the mod is unstaged where the removal succeeded. Where it
    /// failed the result is its error, and where the collection holds no such mod the
    /// result is `NotFound`; the collection then stays as it was.
    pub fn unstage(&mut self, id: usize, removed: Result<(), ModError>) -> (r: Result<
        (),
        ModError,
    >)
        ensures
            final(self).wf(),
            match position_of(old(self)@, id as nat) {
                Some(i) => r == removed && final(self)@ == old(self)@.update(
                    i,
                    after_unstage(old(self)@[i], removed),
                ),
                None => r == Err::<(), ModError>(ModError::NotFound) && final(self)@ == old(
                    self,
                )@,
            },
    {
        proof {
            use_type_invariant(&*self);
        }
        let ghost before = self@;
        match self.find(id) {
            None => Err(ModError::NotFound),
            Some(i) => {
                assert(self@[i as int] == self.mods@[i as int]@);
                let mut m = self.mods[i].clone();
                let r = m.unstage(removed);
                proof {
                    lemma_update_unique(before, i as int, m@);
                }
                let mut mods = self.take();
                proof {
                    assert(views(mods@.update(i as int, m)) =~= before.update(i as int, m@));
                }
                mods.set(i, m);
                self.mods = mods;
                r
            },
        }
    }

    /// Records the outcome of the staging action of the mod with the id `id`: an
    /// unstaged mod is staged and a staged one unstaged where the action succeeded.
    /// Where it failed the result is its error, and where the collection holds no such
    /// mod the result is `NotFound`; the collection then stays as it was.
    pub fn toggle(&mut self, id: usize, outcome: Result<(), ModError>) -> (r: Result<
        (),
        ModError,
    >)
        ensures
            final(self).wf(),
            match position_of(old(self)@, id as nat) {
                Some(i) => r == outcome && final(self)@ == old(self)@.update(
                    i,
                    after_toggle(old(self)@[i], outcome),
                ),
                None => r == Err::<(), ModError>(ModError::NotFound) && final(self)@ == old(
                    self,
                )@,
            },
    {
        proof {
            use_type_invariant(&*self);
        }
        let ghost before = self@;
        match self.find(id) {
            None => Err(ModError::NotFound),
            Some(i) => {
                assert(self@[i as int] == self.mods@[i as int]@);
                let mut m = self.mods[i].clone();
                let r = m.toggle(outcome);
                proof {
                    lemma_update_unique(before, i as int, m@);
                }
                let mut mods = self.take();
                proof {
                    assert(views(mods@.update(i as int, m)) =~= before.update(i as int, m@));
                }
                mods.set(i, m);
                self.mods = mods;
                r
            },
        }
    }

    /// Copies of the mods that `keep` accepts, in their order.
    pub fn filter_and_copy_by<F: Fn(&Mod) -> bool>(&self, keep: F) -> (r: Vec<Mod>)
        requires
            forall|m: Mod| call_requires(keep, (&m,)),
        ensures
            exists|kept: Seq<bool>|
                {
                    &&& kept.len() == self@.len()
                    &&& forall|i: int|
                        0 <= i < kept.len() ==> call_ensures(
                            keep,
                            (&self.records()[i],),
                            #[trigger] kept[i],
                        )
                    &&& views(r@) == picked(self@, kept)
                },
    {
        let mut out: Vec<Mod> = Vec::new();
        let ghost mut kept: Seq<bool> = Seq::empty();
        let mut i: usize = 0;
        while i < self.mods.len()
            invariant
                i <= self.mods.len(),
                kept.len() == i,
                forall|m: Mod| call_requires(keep, (&m,)),
                forall|j: int|
                    0 <= j < i ==> call_ensures(keep, (&self.mods@[j],), #[trigger] kept[j]),
                views(out@) == picked(views(self.mods@.take(i as int)), kept),
            decreases self.mods.len() - i,
        {
            let verdict = keep(&self.mods[i]);
            proof {
                let before = views(self.mods@.take(i as int));
                let after = views(self.mods@.take(i + 1));
                assert(after.drop_last() =~= before);
                assert(after.last() == self.mods@[i as int]@);
                assert(kept.push(verdict).drop_last() =~= kept);
            }
            if verdict {
                let m = self.mods[i].clone();
                proof {
                    assert(views(out@.push(m)) =~= views(out@).push(m@));
                }
                out.push(m);
            }
            proof {
                kept = kept.push(verdict);
            }
            i = i + 1;
        }
        proof {
            assert(self.mods@.take(self.mods@.len() as int) == self.mods@);
            assert(kept.len() == self@.len());
            assert(views(out@) == picked(self@, kept));
            assert forall|j: int| 0 <= j < kept.len() implies call_ensures(
                keep,
                (&self.records()[j],),
                #[trigger] kept[j],
            ) by {}
        }
        out
    }

    /// Copies of the mods whose staged flag is `staged`, in their order.
    pub fn by_staged(&self, staged: bool) -> (r: Vec<Mod>)
        ensures
            views(r@) == with_staged(self@, staged),
    {
        let mut out: Vec<Mod> = Vec::new();
        let mut i: usize = 0;
        while i < self.mods.len()
            invariant
                i <= self.mods.len(),
                views(out@) == with_staged(views(self.mods@.take(i as int)), staged),
            decreases self.mods.len() - i,
        {
            proof {
                let before = views(self.mods@.take(i as int));
                let after = views(self.mods@.take(i + 1));
                assert(after.drop_last() =~= before);
                assert(after.last() == self.mods@[i as int]@);
            }
            if self.mods[i].staged == staged {
                let m = self.mods[i].clone();
                proof {
                    assert(views(out@.push(m)) =~= views(out@).push(m@));
                }
                out.push(m);
            }
            i = i + 1;
        }
        proof {
            assert(self.mods@.take(self.mods@.len() as int) == self.mods@);
        }
        out
    }
}

impl Default for LocalCollection {
    fn default() -> (r: Self)
        ensures
            r@ == Seq::<ModView>::empty(),
    {
        LocalCollection::new()
    }
}

/// Writing a collection to the registry and loading it again gives the same records,
/// field for field and in the same order: what `persist` hands out is what `load`
/// makes of it.
pub proof fn lemma_registry_round_trip(collection: LocalCollection)
    requires
        collection.wf(),
    ensures
        deduped(views(collection.records())) == collection@,
{
    lemma_deduped_identity(collection@);
}

/// A mod is in the collection right after it was added, whatever was there before, and
/// is not in what is left when its id is taken out.
pub proof fn lemma_contains_after(before: Seq<ModView>, m: ModView)
    ensures
        contains_id(without(before, m.id).push(m), m.id),
        !contains_id(without(before, m.id), m.id),
{
    lemma_without_props(before, m.id);
    let after = without(before, m.id).push(m);
    assert(after[after.len() - 1].id == m.id);
}

} // verus!
