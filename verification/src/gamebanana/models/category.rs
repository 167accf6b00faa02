use crate::text::{decimal, push_decimal};
use vstd::prelude::*;
use vstd::string::StringExecFns;

verus! {

/// The category whose sub-categories are offered for browsing.
pub const ROOT_CATEGORY: usize = 12914;

/// A category of mods as the catalog describes it.
#[derive(Debug)]
pub struct GBModCategory {
    pub row: usize,
    pub icon_url: String,
    pub name: String,
}

impl Clone for GBModCategory {
    fn clone(&self) -> (r: Self)
        ensures
            r == *self,
    {
        GBModCategory { row: self.row, icon_url: self.icon_url.clone(), name: self.name.clone() }
    }
}

/// The address that lists the sub-categories of category `id`, sorted by name.
pub open spec fn categories_url(id: nat) -> Seq<char> {
    "https://gamebanana.com/apiv11/Mod/Categories?_idCategoryRow="@ + decimal(id)
        + "&_sSort=a_to_z"@
}

impl GBModCategory {
    /// Whether `self` is the entry that stands for "no category": row 0, no icon, the
    /// name `None`.
    pub open spec fn is_none_entry(&self) -> bool {
        self.row == 0 && self.icon_url@ == Seq::<char>::empty() && self.name@ == "None"@
    }

    /// The list of categories to choose from: the entry for "no category", then the
    /// categories `fetched` from the catalog, in their order.
    pub fn build(fetched: Vec<GBModCategory>) -> (r: Vec<GBModCategory>)
        ensures
            r@.len() == fetched@.len() + 1,
            r@[0].is_none_entry(),
            r@.skip(1) == fetched@,
    {
        let mut cats = fetched;
        cats.insert(
            0,
            GBModCategory {
                row: 0,
                icon_url: String::new(),
                name: String::from_str("None"),
            },
        );
        assert(cats@.skip(1) =~= fetched@);
        cats
    }

    /// The address that lists the sub-categories of category `id`, sorted by name.
    pub fn url(id: usize) -> (r: String)
        ensures
            r@ == categories_url(id as nat),
    {
        let mut s = String::from_str(
            "https://gamebanana.com/apiv11/Mod/Categories?_idCategoryRow=",
        );
        push_decimal(&mut s, id);
        s.append("&_sSort=a_to_z");
        s
    }

    /// The cells of the table row that shows the category: its name.
    pub fn cells(&self) -> (r: Vec<String>)
        ensures
            r@.len() == 1,
            r@[0]@ == self.name@,
    {
        let mut v = Vec::new();
        v.push(self.name.clone());
        v
    }
}

} // verus!
