use crate::error::ModError;
use crate::gamebanana::models::modpage::GBModPage;
use crate::text::{decimal, to_decimal};
use vstd::prelude::*;

pub mod collection;
pub mod records;

pub use collection::LocalCollection;

verus! {

/// A mod of the local collection as plain values.
pub ghost struct ModView {
    pub id: nat,
    pub character: Seq<char>,
    pub path: Seq<char>,
    pub name: Seq<char>,
    pub description: Seq<char>,
    pub staged: bool,
    pub is_nsfw: bool,
}

impl ModView {
    /// The same mod with its staged flag set to `staged`.
    pub open spec fn staged_as(self, staged: bool) -> ModView {
        ModView { staged, ..self }
    }

    /// The same mod under the id `id`.
    pub open spec fn keyed(self, id: nat) -> ModView {
        ModView { id, ..self }
    }
}

/// The mod after an attempt to stage it: staged where the copy succeeded, as before
/// where it failed.
pub open spec fn after_stage(m: ModView, copied: Result<(), ModError>) -> ModView {
    if copied is Ok {
        m.staged_as(true)
    } else {
        m
    }
}

/// The mod after an attempt to unstage it: unstaged where the removal succeeded, as
/// before where it failed.
pub open spec fn after_unstage(m: ModView, removed: Result<(), ModError>) -> ModView {
    if removed is Ok {
        m.staged_as(false)
    } else {
        m
    }
}

/// The mod after an attempt to move it to the other state: staged if it was unstaged
/// and unstaged if it was staged where the attempt succeeded, as before where it
/// failed.
pub open spec fn after_toggle(m: ModView, outcome: Result<(), ModError>) -> ModView {
    if m.staged {
        after_unstage(m, outcome)
    } else {
        after_stage(m, outcome)
    }
}

/// What has to be done on disk to move a mod to the other state.
#[derive(Debug)]
pub enum StagingAction {
    /// Copy the directory `source` into the game's mod directory under the name
    /// `target`.
    Stage { source: String, target: String },
    /// Remove the directory `target` from the game's mod directory.
    Unstage { target: String },
}

/// A `StagingAction` as plain values.
pub ghost enum StagingActionView {
    Stage { source: Seq<char>, target: Seq<char> },
    Unstage { target: Seq<char> },
}

impl View for StagingAction {
    type V = StagingActionView;

    open spec fn view(&self) -> StagingActionView {
        match self {
            StagingAction::Stage { source, target } => StagingActionView::Stage {
                source: source@,
                target: target@,
            },
            StagingAction::Unstage { target } => StagingActionView::Unstage { target: target@ },
        }
    }
}

/// What has to be done on disk to move the mod `m` to the other state. The directory
/// in the game's mod directory is named by the decimal numeral of the mod's id.
pub open spec fn staging_action_for(m: ModView) -> StagingActionView {
    if m.staged {
        StagingActionView::Unstage { target: decimal(m.id) }
    } else {
        StagingActionView::Stage { source: m.path, target: decimal(m.id) }
    }
}

/// A mod that is kept on local disk.
#[derive(Debug)]
pub struct Mod {
    pub id: usize,
    pub character: String,
    pub path: String,
    pub name: String,
    pub description: String,
    pub staged: bool,
    pub is_nsfw: bool,
}

impl View for Mod {
    type V = ModView;

    open spec fn view(&self) -> ModView {
        ModView {
            id: self.id as nat,
            character: self.character@,
            path: self.path@,
            name: self.name@,
            description: self.description@,
            staged: self.staged,
            is_nsfw: self.is_nsfw,
        }
    }
}

impl Clone for Mod {
    fn clone(&self) -> (r: Self)
        ensures
            r == *self,
    {
        Mod {
            id: self.id,
            character: self.character.clone(),
            path: self.path.clone(),
            name: self.name.clone(),
            description: self.description.clone(),
            staged: self.staged,
            is_nsfw: self.is_nsfw,
        }
    }
}

/// The mod that a page of the catalog describes, unpacked at `path` and not staged.
pub open spec fn built(gbmod: GBModPage, path: Seq<char>) -> ModView {
    ModView {
        id: gbmod.row as nat,
        character: gbmod.category.name@,
        path,
        name: gbmod.name@,
        description: gbmod.description@,
        staged: false,
        is_nsfw: gbmod.is_nsfw,
    }
}

impl Mod {
    /// The mod that the page `gbmod` describes, with its chosen file unpacked at
    /// `path`; it is not staged.
    pub fn build(gbmod: GBModPage, path: String) -> (r: Mod)
        ensures
            r@ == built(gbmod, path@),
    {
        Mod {
            id: gbmod.row,
            character: gbmod.category.name,
            path,
            name: gbmod.name,
            description: gbmod.description,
            staged: false,
            is_nsfw: gbmod.is_nsfw,
        }
    }

    /// The name of the mod's directory in the game's mod directory: the decimal
    /// numeral of its id.
    pub fn staged_name(&self) -> (r: String)
        ensures
            r@ == decimal(self@.id),
    {
        to_decimal(self.id)
    }

    /// What has to be done on disk to move the mod to the other state.
    pub fn staging_action(&self) -> (r: StagingAction)
        ensures
            r@ == staging_action_for(self@),
    {
        if self.staged {
            StagingAction::Unstage { target: self.staged_name() }
        } else {
            StagingAction::Stage { source: self.path.clone(), target: self.staged_name() }
        }
    }

    /// Records the outcome `copied` of copying the mod into the game's mod directory:
    /// the mod is staged where the copy succeeded and stays as it was where it failed.
    /// The outcome is handed back.
    pub fn stage(&mut self, copied: Result<(), ModError>) -> (r: Result<(), ModError>)
        ensures
            r == copied,
            final(self)@ == after_stage(old(self)@, copied),
    {
        if copied.is_ok() {
            self.staged = true;
        }
        copied
    }

    /// Records the outcome `removed` of removing the mod from the game's mod
    /// directory: the mod is unstaged where the removal succeeded and stays as it was
    /// where it failed. The outcome is handed back.
    pub fn unstage(&mut self, removed: Result<(), ModError>) -> (r: Result<(), ModError>)
        ensures
            r == removed,
            final(self)@ == after_unstage(old(self)@, removed),
    {
        if removed.is_ok() {
            self.staged = false;
        }
        removed
    }

    /// Records the outcome of the mod's staging action: of a copy where it was
    /// unstaged, of a removal where it was staged.
    pub fn toggle(&mut self, outcome: Result<(), ModError>) -> (r: Result<(), ModError>)
        ensures
            r == outcome,
            final(self)@ == after_toggle(old(self)@, outcome),
    {
        if self.staged {
            self.unstage(outcome)
        } else {
            self.stage(outcome)
        }
    }

    /// The cells of the table row that shows the mod: name, character and
    /// description.
    pub fn cells(&self) -> (r: Vec<String>)
        ensures
            r@.len() == 3,
            r@[0]@ == self@.name,
            r@[1]@ == self@.character,
            r@[2]@ == self@.description,
    {
        let mut v = Vec::new();
        v.push(self.name.clone());
        v.push(self.character.clone());
        v.push(self.description.clone());
        v
    }
}

/// A failed attempt leaves the staged flag, and all else, as it was; a successful
/// attempt to stage an unstaged mod, or to unstage a staged one, changes the flag and
/// nothing else.
pub proof fn lemma_staged_flag(m: ModView, outcome: Result<(), ModError>)
    ensures
        outcome is Err ==> after_stage(m, outcome) == m && after_unstage(m, outcome) == m
            && after_toggle(m, outcome) == m,
        outcome is Ok && !m.staged ==> after_stage(m, outcome).staged != m.staged
            && after_stage(m, outcome) == m.staged_as(true),
        outcome is Ok && m.staged ==> after_unstage(m, outcome).staged != m.staged
            && after_unstage(m, outcome) == m.staged_as(false),
        outcome is Ok ==> after_toggle(m, outcome) == m.staged_as(!m.staged),
{
}

} // verus!
