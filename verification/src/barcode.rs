//! Availability metadata of the iOS barcode recognition area (`RecognizedItem.Barcode`).
use vstd::prelude::*;

use crate::error::VisionKitError;
use crate::support::{availability_from_support_info, AreaSupportInfo};

verus! {

/// Stands for the iOS barcode recognition area (`RecognizedItem.Barcode`), which has no macOS implementation: it carries no
/// wrapped object.
#[derive(Debug, Clone, Copy, PartialEq, Eq, Structural)]
pub struct Barcode;

impl Barcode {
    /// Whether the area is available on the current platform, from its
    /// support report or the error that came instead of it.
    pub fn is_available_on_current_platform(info: Result<AreaSupportInfo, VisionKitError>) -> (r: Result<bool, VisionKitError>)
        ensures
            match info {
                Ok(i) => r matches Ok(b) && b == i.available_on_current_platform,
                Err(e) => r matches Err(f) && f@ == e@,
            },
    {
        availability_from_support_info(info)
    }
}

} // verus!
