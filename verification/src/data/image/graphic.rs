//! Graphics of the items.

use crate::data::image::ImageError;
use crate::utils::path::{join, joined};
use crate::utils::text::{decimal, int_to_string};
use vstd::prelude::*;
use vstd::string::StringExecFns;

verus! {

/// The variant of an item's graphic.
#[derive(Clone, Copy, Debug, PartialEq, Eq, Structural)]
pub enum GraphicType {
    /// The item itself.
    Icon,
    /// The item's blueprint.
    Blueprint,
    /// A copy of the item's blueprint.
    BlueprintCopy,
}

/// What the file name of a graphic of this variant ends in, before `.png`.
pub open spec fn suffix(graphic_type: GraphicType) -> Seq<char> {
    match graphic_type {
        GraphicType::Icon => ""@,
        GraphicType::Blueprint => "_bp"@,
        GraphicType::BlueprintCopy => "_bpc"@,
    }
}

/// The variant that the number `code` stands for.
pub open spec fn graphic_type_of(code: u8) -> Option<GraphicType> {
    if code == 0 {
        Some(GraphicType::Icon)
    } else if code == 1 {
        Some(GraphicType::Blueprint)
    } else if code == 2 {
        Some(GraphicType::BlueprintCopy)
    } else {
        None
    }
}

impl GraphicType {
    /// The number that stands for the variant.
    pub open spec fn code(self) -> u8 {
        match self {
            GraphicType::Icon => 0,
            GraphicType::Blueprint => 1,
            GraphicType::BlueprintCopy => 2,
        }
    }

    /// The number that stands for the variant.
    pub fn to_u8(self) -> (code: u8)
        ensures
            code == self.code(),
            graphic_type_of(code) == Some(self),
    {
        match self {
            GraphicType::Icon => 0,
            GraphicType::Blueprint => 1,
            GraphicType::BlueprintCopy => 2,
        }
    }

    /// The variant that the number `code` stands for.
    pub fn from_u8(code: u8) -> (graphic_type: Option<Self>)
        ensures
            graphic_type == graphic_type_of(code),
    {
        if code == 0 {
            Some(GraphicType::Icon)
        } else if code == 1 {
            Some(GraphicType::Blueprint)
        } else if code == 2 {
            Some(GraphicType::BlueprintCopy)
        } else {
            None
        }
    }
}

/// Finds the graphics of items in a pack.
#[derive(Debug)]
pub struct GraphicService {
    graphic_path: String,
}

impl View for GraphicService {
    type V = Seq<char>;

    /// The folder of the graphics.
    closed spec fn view(&self) -> Seq<char> {
        self.graphic_path@
    }
}

impl GraphicService {
    /// The folder below `image_root` that holds the graphics.
    pub fn folder(image_root: &str) -> (path: String)
        ensures
            path@ == joined(image_root@, "graphics"@),
    {
        join(image_root, "graphics")
    }

    /// Sets up the service for the images below `image_root`, given
    /// whether the folder of graphics is there.
    pub fn init(image_root: &str, folder_exists: bool) -> (service: Result<Self, ImageError>)
        ensures
            match service {
                Ok(s) => folder_exists && s@ == joined(image_root@, "graphics"@),
                Err(e) => !folder_exists && e == ImageError::GraphicsFolderNotFound,
            },
    {
        if !folder_exists {
            return Err(ImageError::GraphicsFolderNotFound);
        }
        Ok(GraphicService { graphic_path: Self::folder(image_root) })
    }

    /// The file in which the pack keeps the graphic `graphic_id` of the
    /// given variant. Not every graphic has every variant: whether the file
    /// is there is for the caller to find out.
    pub fn get_path(&self, graphic_id: u32, graphic_type: GraphicType) -> (path: String)
        ensures
            path@ == joined(
                self@,
                decimal(graphic_id as int) + suffix(graphic_type) + ".png"@,
            ),
    {
        let mut file = int_to_string(graphic_id as i64);
        match graphic_type {
            GraphicType::Icon => file.append(""),
            GraphicType::Blueprint => file.append("_bp"),
            GraphicType::BlueprintCopy => file.append("_bpc"),
        }
        file.append(".png");
        join(self.graphic_path.as_str(), file.as_str())
    }
}

} // verus!
