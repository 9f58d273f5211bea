//! Availability metadata of VisionKit API areas.
use vstd::prelude::*;

use crate::error::{VisionKitError, VisionKitErrorView};

verus! {

/// What VisionKit reports about an API area on the current platform.
#[derive(Debug, Clone, PartialEq, Eq)]
pub struct AreaSupportInfo {
    /// The area's name.
    pub area: String,
    /// The platform the report is for.
    pub current_platform: String,
    /// Whether the area is available on the current platform.
    pub available_on_current_platform: bool,
    /// Where the area is available.
    pub availability: String,
    /// Why the area is unavailable, if VisionKit says.
    pub reason: Option<String>,
    /// The members of the area.
    pub members: Vec<String>,
    /// Further notes.
    pub notes: Vec<String>,
}

/// The message of the error for an unavailable area.
pub open spec fn unavailable_message(info: AreaSupportInfo) -> Seq<char> {
    match info.reason {
        Some(r) => r@,
        None => info.area@ + " is unavailable on "@ + info.current_platform@,
    }
}

impl AreaSupportInfo {
    /// The error for using this area where it is unavailable: VisionKit's
    /// reason, or a message naming the area and the platform.
    pub fn unavailable_error(&self) -> (e: VisionKitError)
        ensures
            e@ == VisionKitErrorView::UnavailableOnThisPlatform(unavailable_message(*self)),
    {
        let message = match &self.reason {
            Some(r) => r.clone(),
            None => {
                let mut m = self.area.clone();
                m.append(" is unavailable on ");
                m.append(self.current_platform.as_str());
                m
            },
        };
        VisionKitError::UnavailableOnThisPlatform(message)
    }
}

/// Whether an area is available, from its support report or the error
/// that came instead of it.
pub fn availability_from_support_info(info: Result<AreaSupportInfo, VisionKitError>) -> (r: Result<bool, VisionKitError>)
    ensures
        match info {
            Ok(i) => r matches Ok(b) && b == i.available_on_current_platform,
            Err(e) => r matches Err(f) && f@ == e@,
        },
{
    match info {
        Ok(i) => Ok(i.available_on_current_platform),
        Err(e) => Err(e),
    }
}

/// The error a constructor of an unavailable area returns: the error for
/// the area's report, or the error that came instead of it.
pub fn unavailable_area_error(info: Result<AreaSupportInfo, VisionKitError>) -> (e: VisionKitError)
    ensures
        match info {
            Ok(i) => e@ == VisionKitErrorView::UnavailableOnThisPlatform(unavailable_message(i)),
            Err(f) => e@ == f@,
        },
{
    match info {
        Ok(i) => i.unavailable_error(),
        Err(f) => f,
    }
}

} // verus!
