use vstd::prelude::*;

verus! {

/// A game as the catalog describes it.
#[derive(Debug)]
pub struct GBGame {
    pub row: usize,
    pub name: String,
}

impl Clone for GBGame {
    fn clone(&self) -> (r: Self)
        ensures
            r == *self,
    {
        GBGame { row: self.row, name: self.name.clone() }
    }
}

} // verus!
