//! Materials of the skins.

use crate::data::image::ImageError;
use crate::utils::path::{join, joined};
use crate::utils::text::{decimal, int_to_string};
use vstd::prelude::*;
use vstd::string::StringExecFns;

verus! {

/// Finds the skin materials of a pack.
#[derive(Debug)]
pub struct SkinService {
    skin_path: String,
}

impl View for SkinService {
    type V = Seq<char>;

    /// The folder of the skins.
    closed spec fn view(&self) -> Seq<char> {
        self.skin_path@
    }
}

impl SkinService {
    /// The folder below `image_root` that holds the skins.
    pub fn folder(image_root: &str) -> (path: String)
        ensures
            path@ == joined(image_root@, "skins"@),
    {
        join(image_root, "skins")
    }

    /// Sets up the service for the images below `image_root`, given
    /// whether the folder of skins is there.
    pub fn init(image_root: &str, folder_exists: bool) -> (service: Result<Self, ImageError>)
        ensures
            match service {
                Ok(s) => folder_exists && s@ == joined(image_root@, "skins"@),
                Err(e) => !folder_exists && e == ImageError::SkinsFolderNotFound,
            },
    {
        if !folder_exists {
            return Err(ImageError::SkinsFolderNotFound);
        }
        Ok(SkinService { skin_path: Self::folder(image_root) })
    }

    /// The file of the skin material `skin_material_id`.
    pub fn get_material_path(&self, skin_material_id: i64) -> (path: String)
        ensures
            path@ == joined(self@, "materials/"@ + decimal(skin_material_id as int) + ".png"@),
    {
        let mut file = "materials/".to_owned();
        file.append(int_to_string(skin_material_id).as_str());
        file.append(".png");
        join(self.skin_path.as_str(), file.as_str())
    }
}

} // verus!
