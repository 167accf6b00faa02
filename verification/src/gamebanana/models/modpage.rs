use crate::error::ModError;
use crate::gamebanana::models::category::GBModCategory;
use crate::gamebanana::models::file::GBFile;
use crate::text::{decimal, joined, push_decimal, push_joined, texts};
use vstd::prelude::*;
use vstd::string::StringExecFns;

verus! {

/// Whether a mod counts as not safe for work when the catalog does not say.
pub fn default_nsfw() -> (r: bool)
    ensures
        !r,
{
    false
}

/// The page of one mod in the catalog: what it is and which files it offers.
#[derive(Debug)]
pub struct GBModPage {
    pub category: GBModCategory,
    pub files: Vec<GBFile>,
    pub name: String,
    pub description: String,
    pub row: usize,
    pub is_nsfw: bool,
}

/// The fields that the page of a mod is asked for.
pub open spec fn page_properties() -> Seq<Seq<char>> {
    seq![
        "_sName"@,
        "_aGame"@,
        "_sProfileUrl"@,
        "_aPreviewMedia"@,
        "_sDescription"@,
        "_aSubmitter"@,
        "_aCategory"@,
        "_aSuperCategory"@,
        "_aFiles"@,
        "_tsDateUpdated"@,
        "_aAlternateFileSources"@,
        "_bHasUpdates"@,
        "_aLatestUpdates"@,
        "_idRow"@,
    ]
}

fn page_property_names() -> (v: Vec<&'static str>)
    ensures
        texts(v@) == page_properties(),
{
    let mut v: Vec<&'static str> = Vec::new();
    v.push("_sName");
    v.push("_aGame");
    v.push("_sProfileUrl");
    v.push("_aPreviewMedia");
    v.push("_sDescription");
    v.push("_aSubmitter");
    v.push("_aCategory");
    v.push("_aSuperCategory");
    v.push("_aFiles");
    v.push("_tsDateUpdated");
    v.push("_aAlternateFileSources");
    v.push("_bHasUpdates");
    v.push("_aLatestUpdates");
    v.push("_idRow");
    proof {
        assert(texts(v@) =~= page_properties());
    }
    v
}

/// The address of the page of mod `id`.
pub open spec fn page_url(id: nat) -> Seq<char> {
    "https://gamebanana.com/apiv6/Mod/"@ + decimal(id) + "?_csvProperties="@ + joined(
        page_properties(),
        ","@,
    )
}

impl GBModPage {
    /// The file variant `idx` of the page, which is to be fetched; `IndexOutOfRange`
    /// when the page has no such variant.
    pub fn download_file(&self, idx: usize) -> (r: Result<&GBFile, ModError>)
        ensures
            idx < self.files@.len() ==> r == Ok::<&GBFile, ModError>(&self.files@[idx as int]),
            idx >= self.files@.len() ==> r == Err::<&GBFile, ModError>(
                ModError::IndexOutOfRange,
            ),
    {
        if idx < self.files.len() {
            Ok(&self.files[idx])
        } else {
            Err(ModError::IndexOutOfRange)
        }
    }

    /// The page marked as not safe for work.
    pub fn set_nsfw(self) -> (r: Self)
        ensures
            r == (GBModPage { is_nsfw: true, ..self }),
    {
        let mut this = self;
        this.is_nsfw = true;
        this
    }

    /// The address of the page of mod `id`.
    pub fn url(id: usize) -> (r: String)
        ensures
            r@ == page_url(id as nat),
    {
        let mut s = String::from_str("https://gamebanana.com/apiv6/Mod/");
        push_decimal(&mut s, id);
        s.append("?_csvProperties=");
        let names = page_property_names();
        push_joined(&mut s, &names, ",");
        s
    }
}

} // verus!
