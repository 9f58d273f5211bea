//! Availability metadata of the iOS document camera area.
use vstd::prelude::*;

use crate::error::VisionKitError;
use crate::error::VisionKitErrorView;
use crate::support::{
    availability_from_support_info, unavailable_area_error, unavailable_message, AreaSupportInfo,
};

verus! {

/// Stands for the iOS document camera area, which has no macOS implementation: it carries no
/// wrapped object.
#[derive(Debug, Clone, Copy, PartialEq, Eq, Structural)]
pub struct VNDocumentCameraViewController;

impl VNDocumentCameraViewController {
    /// Whether the area is available on the current platform, from its
    /// support report or the error that came instead of it.
    pub fn is_available_on_current_platform(info: Result<AreaSupportInfo, VisionKitError>) -> (r: Result<bool, VisionKitError>)
        ensures
            match info {
                Ok(i) => r matches Ok(b) && b == i.available_on_current_platform,
                Err(e) => r matches Err(f) && f@ == e@,
            },
    {
        availability_from_support_info(info)
    }

    /// The area cannot be created on macOS: this always fails, with the
    /// error for the area's report or the error that came instead of it.
    pub fn new(info: Result<AreaSupportInfo, VisionKitError>) -> (r: Result<Self, VisionKitError>)
        ensures
            r is Err,
            r matches Err(e) ==> match info {
                Ok(i) => e@ == VisionKitErrorView::UnavailableOnThisPlatform(unavailable_message(i)),
                Err(f) => e@ == f@,
            },
    {
        Err(unavailable_area_error(info))
    }
}

} // verus!
