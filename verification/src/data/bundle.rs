//! An activated pack: its descriptor with every service loaded.

use crate::bundle::{BundleDescriptor, BundleError};
use crate::data::esi::EsiService;
use crate::data::image::ImageService;
use crate::data::links::LinkService;
use crate::data::localization::LocalizationService;
use crate::data::statics::StaticsService;
use vstd::prelude::*;

verus! {

/// The runtime state of one pack: what the catalog holds while the pack is
/// the active one.
pub struct Bundle {
    /// The pack that was loaded.
    pub descriptor: BundleDescriptor,
    /// Where its images are found.
    pub images: ImageService,
    /// Its localized strings and lookups.
    pub localization: LocalizationService,
    /// Its static tables.
    pub statics: StaticsService,
    /// Its links to sites outside the client.
    pub links: LinkService,
    /// Its requests to the remote market service.
    pub esi: EsiService,
}

/// The services of a pack as far as they could be loaded: `None` stands
/// for a service whose files are missing or cannot be decoded.
pub struct LoadedServices {
    /// Where the images are found.
    pub images: Option<ImageService>,
    /// The localized strings and lookups.
    pub localization: Option<LocalizationService>,
    /// The static tables.
    pub statics: Option<StaticsService>,
    /// The links to sites outside the client.
    pub links: Option<LinkService>,
    /// The requests to the remote market service.
    pub esi: Option<EsiService>,
}

impl LoadedServices {
    /// Every service was loaded.
    pub open spec fn complete(&self) -> bool {
        self.images is Some && self.localization is Some && self.statics is Some && self.links
            is Some && self.esi is Some
    }
}

impl Bundle {
    /// The identifier of the pack.
    pub open spec fn id(&self) -> Seq<char> {
        self.descriptor.metadata.server_id@
    }

    /// Puts a loaded pack together. Loading is all or nothing: where any
    /// service could not be loaded, there is no pack, and the answer is
    /// `IndexLoadError`.
    pub fn load(descriptor: BundleDescriptor, services: LoadedServices) -> (loaded: Result<
        Self,
        BundleError,
    >)
        ensures
            match loaded {
                Ok(bundle) => {
                    &&& bundle.descriptor == descriptor
                    &&& services.images == Some(bundle.images)
                    &&& services.localization == Some(bundle.localization)
                    &&& services.statics == Some(bundle.statics)
                    &&& services.links == Some(bundle.links)
                    &&& services.esi == Some(bundle.esi)
                },
                Err(e) => e == BundleError::IndexLoadError && !services.complete(),
            },
    {
        match (
            services.images,
            services.localization,
            services.statics,
            services.links,
            services.esi,
        ) {
            (Some(images), Some(localization), Some(statics), Some(links), Some(esi)) => Ok(
                Bundle { descriptor, images, localization, statics, links, esi },
            ),
            _ => Err(BundleError::IndexLoadError),
        }
    }
}

} // verus!
