use crate::error::ModError;
use crate::gamebanana::models::category::GBModCategory;
use crate::gamebanana::models::game::GBGame;
use crate::gamebanana::models::modpage::GBModPage;
use crate::gamebanana::models::preview::GBPreviewMedia;
use crate::text::{decimal, padded, push_decimal, push_padded, to_decimal};
use vstd::string::StringExecFns;
use vstd::prelude::*;

verus! {

/// One result of a search in the catalog.
#[derive(Debug)]
pub struct GBSearchEntry {
    pub date_updated: usize,
    pub date_added: usize,
    pub model_name: String,
    pub name: String,
    pub is_nsfw: bool,
    pub row: usize,
    pub preview_media: Vec<GBPreviewMedia>,
    pub download_count: usize,
    pub view_count: usize,
    pub like_count: usize,
    pub text: String,
    pub description: String,
    pub category: GBModCategory,
    pub game: GBGame,
}

/// The paths of the downloads that succeeded, in the order of the attempts.
pub open spec fn successes(attempts: Seq<Result<String, ModError>>) -> Seq<String>
    decreases attempts.len(),
{
    if attempts.len() == 0 {
        Seq::empty()
    } else {
        let rest = successes(attempts.drop_last());
        match attempts.last() {
            Ok(path) => rest.push(path),
            Err(_) => rest,
        }
    }
}

impl Clone for GBSearchEntry {
    fn clone(&self) -> (r: Self)
        ensures
            r.date_updated == self.date_updated,
            r.date_added == self.date_added,
            r.model_name == self.model_name,
            r.name == self.name,
            r.is_nsfw == self.is_nsfw,
            r.row == self.row,
            r.preview_media@ == self.preview_media@,
            r.download_count == self.download_count,
            r.view_count == self.view_count,
            r.like_count == self.like_count,
            r.text == self.text,
            r.description == self.description,
            r.category == self.category,
            r.game == self.game,
    {
        let mut media: Vec<GBPreviewMedia> = Vec::new();
        let mut i: usize = 0;
        while i < self.preview_media.len()
            invariant
                i <= self.preview_media.len(),
                media@ == self.preview_media@.take(i as int),
            decreases self.preview_media.len() - i,
        {
            media.push(self.preview_media[i].clone());
            proof {
                assert(self.preview_media@.take(i + 1) == self.preview_media@.take(i as int).push(
                    self.preview_media@[i as int],
                ));
            }
            i = i + 1;
        }
        proof {
            assert(self.preview_media@.take(self.preview_media@.len() as int)
                == self.preview_media@);
        }
        GBSearchEntry {
            date_updated: self.date_updated,
            date_added: self.date_added,
            model_name: self.model_name.clone(),
            name: self.name.clone(),
            is_nsfw: self.is_nsfw,
            row: self.row,
            preview_media: media,
            download_count: self.download_count,
            view_count: self.view_count,
            like_count: self.like_count,
            text: self.text.clone(),
            description: self.description.clone(),
            category: self.category.clone(),
            game: self.game.clone(),
        }
    }
}

impl GBSearchEntry {
    /// The page of the mod behind this result, as `page` was fetched for it: marked as
    /// not safe for work where the result is.
    pub fn mod_page(&self, page: GBModPage) -> (r: GBModPage)
        ensures
            r == (GBModPage { is_nsfw: self.is_nsfw || page.is_nsfw, ..page }),
    {
        if self.is_nsfw {
            page.set_nsfw()
        } else {
            page
        }
    }

    /// The paths of the preview images that were downloaded: of the `attempts`, one
    /// for each image, those that succeeded.
    pub fn download_media(attempts: &Vec<Result<String, ModError>>) -> (r: Vec<String>)
        ensures
            r@ == successes(attempts@),
    {
        let mut collected: Vec<String> = Vec::new();
        let mut i: usize = 0;
        while i < attempts.len()
            invariant
                i <= attempts.len(),
                collected@ == successes(attempts@.take(i as int)),
            decreases attempts.len() - i,
        {
            proof {
                assert(attempts@.take(i + 1).drop_last() == attempts@.take(i as int));
            }
            match &attempts[i] {
                Ok(path) => {
                    collected.push(path.clone());
                },
                Err(_) => {},
            }
            i = i + 1;
        }
        proof {
            assert(attempts@.take(attempts@.len() as int) == attempts@);
        }
        collected
    }

    /// The label under which the result is listed: its name, padded to fifty
    /// characters, and how often it was viewed.
    pub fn label(&self) -> (r: String)
        ensures
            r@ == padded(self.name@, 50) + ": views "@ + decimal(self.view_count as nat),
    {
        let mut label = String::new();
        push_padded(&mut label, self.name.as_str(), 50);
        label.append(": views ");
        push_decimal(&mut label, self.view_count);
        proof {
            assert(label@ =~= padded(self.name@, 50) + ": views "@ + decimal(
                self.view_count as nat,
            ));
        }
        label
    }

    /// The cells of the table row that shows the result: name, category, views,
    /// likes, downloads and description.
    pub fn cells(&self) -> (r: Vec<String>)
        ensures
            r@.len() == 6,
            r@[0]@ == self.name@,
            r@[1]@ == self.category.name@,
            r@[2]@ == decimal(self.view_count as nat),
            r@[3]@ == decimal(self.like_count as nat),
            r@[4]@ == decimal(self.download_count as nat),
            r@[5]@ == self.description@,
    {
        let mut v = Vec::new();
        v.push(self.name.clone());
        v.push(self.category.name.clone());
        v.push(to_decimal(self.view_count));
        v.push(to_decimal(self.like_count));
        v.push(to_decimal(self.download_count));
        v.push(self.description.clone());
        v
    }
}

} // verus!
