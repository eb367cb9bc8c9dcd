//! Where the images of a pack are found.

pub mod faction;
pub mod graphic;
pub mod icon;
pub mod skin;

use crate::data::image::faction::FactionService;
use crate::data::image::graphic::GraphicService;
use crate::data::image::icon::IconService;
use crate::data::image::skin::SkinService;
use crate::utils::path::{join, joined};
use vstd::prelude::*;

verus! {

/// Why the images of a pack could not be set up.
#[derive(Clone, Copy, Debug, PartialEq, Eq, Structural)]
pub enum ImageError {
    /// The pack has no folder of graphics.
    GraphicsFolderNotFound,
    /// The pack has no folder of icons.
    IconsFolderNotFound,
    /// The pack has no folder of skins.
    SkinsFolderNotFound,
    /// The pack has no folder of faction images.
    FactionsFolderNotFound,
}

/// Which of the image folders of a pack are there.
#[derive(Clone, Copy, Debug)]
pub struct ImageFolders {
    /// The folder of graphics is there.
    pub graphics: bool,
    /// The folder of icons is there.
    pub icons: bool,
    /// The folder of skins is there.
    pub skins: bool,
    /// The folder of faction images is there.
    pub factions: bool,
}

/// The image services of a pack.
#[derive(Debug)]
pub struct ImageService {
    /// Graphics of items.
    pub graphic: GraphicService,
    /// Icons.
    pub icon: IconService,
    /// Skin materials.
    pub skin: SkinService,
    /// Icons and logos of factions.
    pub faction: FactionService,
}

/// The folder of a pack that holds its images.
pub open spec fn image_root(bundle_root: Seq<char>) -> Seq<char> {
    joined(bundle_root, "images"@)
}

/// What setting up the images of a pack answers where not all folders
/// are there: the first missing one, in the order graphics, icons,
/// skins, factions.
pub open spec fn missing_folder(folders: ImageFolders) -> Option<ImageError> {
    if !folders.graphics {
        Some(ImageError::GraphicsFolderNotFound)
    } else if !folders.icons {
        Some(ImageError::IconsFolderNotFound)
    } else if !folders.skins {
        Some(ImageError::SkinsFolderNotFound)
    } else if !folders.factions {
        Some(ImageError::FactionsFolderNotFound)
    } else {
        None
    }
}

impl ImageService {
    /// The folder of the pack in `bundle_root` that holds its images.
    pub fn root_of(bundle_root: &str) -> (path: String)
        ensures
            path@ == image_root(bundle_root@),
    {
        join(bundle_root, "images")
    }

    /// Sets up the image services of the pack in `bundle_root`, given which
    /// of its image folders are there. Every folder is needed.
    pub fn init(bundle_root: &str, folders: ImageFolders) -> (service: Result<Self, ImageError>)
        ensures
            match service {
                Ok(s) => {
                    &&& missing_folder(folders) is None
                    &&& s.graphic@ == joined(image_root(bundle_root@), "graphics"@)
                    &&& s.icon@ == joined(image_root(bundle_root@), "icons"@)
                    &&& s.skin@ == joined(image_root(bundle_root@), "skins"@)
                    &&& s.faction@ == joined(image_root(bundle_root@), "factions"@)
                },
                Err(e) => missing_folder(folders) == Some(e),
            },
    {
        let root = Self::root_of(bundle_root);
        let graphic = match GraphicService::init(root.as_str(), folders.graphics) {
            Ok(graphic) => graphic,
            Err(e) => {
                return Err(e);
            },
        };
        let icon = match IconService::init(root.as_str(), folders.icons) {
            Ok(icon) => icon,
            Err(e) => {
                return Err(e);
            },
        };
        let skin = match SkinService::init(root.as_str(), folders.skins) {
            Ok(skin) => skin,
            Err(e) => {
                return Err(e);
            },
        };
        let faction = match FactionService::init(root.as_str(), folders.factions) {
            Ok(faction) => faction,
            Err(e) => {
                return Err(e);
            },
        };
        Ok(ImageService { graphic, icon, skin, faction })
    }
}

} // verus!
