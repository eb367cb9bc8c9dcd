//! Icons and logos of the factions.

use crate::data::image::ImageError;
use crate::utils::path::{join, joined};
use crate::utils::text::{decimal, int_to_string};
use vstd::prelude::*;
use vstd::string::StringExecFns;

verus! {

/// Finds the images of factions in a pack.
#[derive(Debug)]
pub struct FactionService {
    faction_icon_path: String,
}

impl View for FactionService {
    type V = Seq<char>;

    /// The folder of the faction images.
    closed spec fn view(&self) -> Seq<char> {
        self.faction_icon_path@
    }
}

impl FactionService {
    /// The folder below `image_root` that holds the faction images.
    pub fn folder(image_root: &str) -> (path: String)
        ensures
            path@ == joined(image_root@, "factions"@),
    {
        join(image_root, "factions")
    }

    /// Sets up the service for the images below `image_root`, given
    /// whether the folder of faction images is there.
    pub fn init(image_root: &str, folder_exists: bool) -> (service: Result<Self, ImageError>)
        ensures
            match service {
                Ok(s) => folder_exists && s@ == joined(image_root@, "factions"@),
                Err(e) => !folder_exists && e == ImageError::FactionsFolderNotFound,
            },
    {
        if !folder_exists {
            return Err(ImageError::FactionsFolderNotFound);
        }
        Ok(FactionService { faction_icon_path: Self::folder(image_root) })
    }

    /// The file of the faction icon `icon_id`.
    pub fn get_icon_path(&self, icon_id: i32) -> (path: String)
        ensures
            path@ == joined(self@, "icons/"@ + decimal(icon_id as int) + ".png"@),
    {
        let mut file = "icons/".to_owned();
        file.append(int_to_string(icon_id as i64).as_str());
        file.append(".png");
        join(self.faction_icon_path.as_str(), file.as_str())
    }

    /// The file of the faction logo `logo_id`.
    pub fn get_logo_path(&self, logo_id: &str) -> (path: String)
        ensures
            path@ == joined(self@, "logos/"@ + logo_id@ + ".png"@),
    {
        let mut file = "logos/".to_owned();
        file.append(logo_id);
        file.append(".png");
        join(self.faction_icon_path.as_str(), file.as_str())
    }
}

} // verus!
