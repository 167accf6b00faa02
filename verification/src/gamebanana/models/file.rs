use crate::files::{extension, has_extension, name_extension, name_has_extension, name_stem, stem};
use crate::text::{decimal, to_decimal};
use vstd::prelude::*;
use vstd::string::StringExecFns;

verus! {

/// One downloadable file of a mod as the catalog describes it.
#[derive(Debug)]
pub struct GBFile {
    pub contains_exe: bool,
    pub download_count: usize,
    pub filesize: usize,
    pub analysis_result_code: String,
    pub date_added: usize,
    pub file: String,
    pub download_url: String,
    pub description: String,
}

impl Clone for GBFile {
    fn clone(&self) -> (r: Self)
        ensures
            r == *self,
    {
        GBFile {
            contains_exe: self.contains_exe,
            download_count: self.download_count,
            filesize: self.filesize,
            analysis_result_code: self.analysis_result_code.clone(),
            date_added: self.date_added,
            file: self.file.clone(),
            download_url: self.download_url.clone(),
            description: self.description.clone(),
        }
    }
}

/// How a downloaded archive is unpacked.
#[derive(Clone, Copy, Debug, PartialEq, Eq, Structural)]
pub enum Extraction {
    /// Entry by entry, as a RAR archive.
    Unrar,
    /// As a whole, by the general archive reader.
    Uncompress,
    /// Not at all.
    Nothing,
}

/// How an archive named `file` is unpacked: as RAR when its extension is `rar`, by
/// the general reader when it has another extension, and not at all when it has none.
pub open spec fn extraction_for(file: Seq<char>) -> Extraction {
    if !has_extension(file) {
        Extraction::Nothing
    } else if extension(file) == "rar"@ {
        Extraction::Unrar
    } else {
        Extraction::Uncompress
    }
}

/// What has to be done to have a file of a mod unpacked in the download directory.
#[derive(Debug)]
pub struct FetchPlan {
    /// The name of the archive in the download directory.
    pub archive: String,
    /// The name of the directory that holds the unpacked archive.
    pub directory: String,
    /// The address from which the archive is downloaded.
    pub url: String,
    /// Whether the archive has to be downloaded.
    pub download: bool,
    /// How the archive is unpacked after the download.
    pub extraction: Extraction,
}

impl GBFile {
    /// The name of the directory that holds the unpacked file: the file's name with its
    /// extension taken off, as a path loses its extension.
    pub fn directory(&self) -> (r: String)
        ensures
            r@ == stem(self.file@),
    {
        name_stem(self.file.as_str())
    }

    /// What has to be done to have the file unpacked. Where the directory is there
    /// already (`extracted`), nothing is downloaded or unpacked; otherwise the archive
    /// is downloaded and unpacked by its extension.
    pub fn fetch(&self, extracted: bool) -> (plan: FetchPlan)
        ensures
            plan.archive@ == self.file@,
            plan.directory@ == stem(self.file@),
            plan.url@ == self.download_url@,
            plan.download == !extracted,
            plan.extraction == if extracted {
                Extraction::Nothing
            } else {
                extraction_for(self.file@)
            },
    {
        let extraction = if extracted {
            Extraction::Nothing
        } else if !name_has_extension(self.file.as_str()) {
            Extraction::Nothing
        } else if name_extension(self.file.as_str()) == String::from_str("rar") {
            Extraction::Unrar
        } else {
            Extraction::Uncompress
        };
        FetchPlan {
            archive: self.file.clone(),
            directory: self.directory(),
            url: self.download_url.clone(),
            download: !extracted,
            extraction,
        }
    }

    /// The cells of the table row that shows the file: its name, how often it was
    /// downloaded, and its description.
    pub fn cells(&self) -> (r: Vec<String>)
        ensures
            r@.len() == 3,
            r@[0]@ == self.file@,
            r@[1]@ == decimal(self.download_count as nat),
            r@[2]@ == self.description@,
    {
        let mut v = Vec::new();
        v.push(self.file.clone());
        v.push(to_decimal(self.download_count));
        v.push(self.description.clone());
        v
    }
}

} // verus!
