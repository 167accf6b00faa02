use vstd::prelude::*;
use vstd::string::StringExecFns;

verus! {

/// A preview image of a mod as the catalog describes it.
#[derive(Debug)]
pub struct GBPreviewMedia {
    pub media_type: String,
    pub base_url: String,
    pub file: String,
}

impl Clone for GBPreviewMedia {
    fn clone(&self) -> (r: Self)
        ensures
            r == *self,
    {
        GBPreviewMedia {
            media_type: self.media_type.clone(),
            base_url: self.base_url.clone(),
            file: self.file.clone(),
        }
    }
}

impl GBPreviewMedia {
    /// The address of the image: the base address, a slash, and the file's name.
    pub open spec fn address(&self) -> Seq<char> {
        self.base_url@ + "/"@ + self.file@
    }

    /// The address of the image.
    pub fn download_url(&self) -> (r: String)
        ensures
            r@ == self.address(),
    {
        let mut s = self.base_url.clone();
        s.append("/");
        s.append(self.file.as_str());
        s
    }

    /// The address from which the image has to be downloaded, or `None` where the file
    /// is in the download directory already (`present`).
    pub fn fetch(&self, present: bool) -> (r: Option<String>)
        ensures
            present ==> r is None,
            !present ==> (r matches Some(url) && url@ == self.address()),
    {
        if present {
            None
        } else {
            Some(self.download_url())
        }
    }
}

} // verus!
