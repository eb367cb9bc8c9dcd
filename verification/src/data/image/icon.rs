//! Icons.

use crate::data::image::ImageError;
use crate::utils::path::{join, joined};
use crate::utils::text::{decimal, int_to_string};
use vstd::prelude::*;
use vstd::string::StringExecFns;

verus! {

/// Finds the icons of a pack.
#[derive(Debug)]
pub struct IconService {
    icon_path: String,
}

impl View for IconService {
    type V = Seq<char>;

    /// The folder of the icons.
    closed spec fn view(&self) -> Seq<char> {
        self.icon_path@
    }
}

impl IconService {
    /// The folder below `image_root` that holds the icons.
    pub fn folder(image_root: &str) -> (path: String)
        ensures
            path@ == joined(image_root@, "icons"@),
    {
        join(image_root, "icons")
    }

    /// Sets up the service for the images below `image_root`, given
    /// whether the folder of icons is there.
    pub fn init(image_root: &str, folder_exists: bool) -> (service: Result<Self, ImageError>)
        ensures
            match service {
                Ok(s) => folder_exists && s@ == joined(image_root@, "icons"@),
                Err(e) => !folder_exists && e == ImageError::IconsFolderNotFound,
            },
    {
        if !folder_exists {
            return Err(ImageError::IconsFolderNotFound);
        }
        Ok(IconService { icon_path: Self::folder(image_root) })
    }

    /// The file in which the pack keeps the icon `icon_id`. Whether the
    /// file is there is for the caller to find out.
    pub fn get_path(&self, icon_id: u32) -> (path: String)
        ensures
            path@ == joined(self@, decimal(icon_id as int) + ".png"@),
    {
        let mut file = int_to_string(icon_id as i64);
        file.append(".png");
        join(self.icon_path.as_str(), file.as_str())
    }
}

} // verus!
