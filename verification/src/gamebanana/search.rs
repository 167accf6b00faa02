use crate::text::{decimal, push_decimal};
use vstd::prelude::*;
use vstd::string::StringExecFns;

verus! {

/// The address under which every query of the catalog starts.
pub open spec fn catalog_root() -> Seq<char> {
    "https://gamebanana.com/apiv6/"@
}

/// What the address of a query holds to ask for page `n`.
pub open spec fn page_suffix(n: nat) -> Seq<char> {
    "&_nPage="@ + decimal(n)
}

/// A query of the remote catalog, ready but for the page number.
pub struct Search {
    url: String,
}

impl View for Search {
    type V = Seq<char>;

    closed spec fn view(&self) -> Seq<char> {
        self.url@
    }
}

impl Search {
    /// The query whose address is the catalog's root followed by `s`.
    pub fn base(s: &str) -> (r: Search)
        ensures
            r@ == catalog_root() + s@,
    {
        let mut url = String::from_str("https://gamebanana.com/apiv6/");
        url.append(s);
        Search { url }
    }

    /// The address of the query without a page number.
    pub fn url(&self) -> (r: &str)
        ensures
            r@ == self@,
    {
        self.url.as_str()
    }

    /// The address that asks for page `n` of the query.
    pub fn page(&self, n: usize) -> (r: String)
        ensures
            r@ == self@ + page_suffix(n as nat),
    {
        let mut url = self.url.clone();
        url.append("&_nPage=");
        push_decimal(&mut url, n);
        url
    }
}

} // verus!
