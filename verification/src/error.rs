//! Errors returned by the VisionKit wrappers.
use vstd::prelude::*;

verus! {

/// Why a live text subject is unavailable.
#[derive(Debug, Clone, Copy, PartialEq, Eq, Hash, Structural)]
pub enum LiveTextSubjectUnavailable {
    /// A subject image could not be produced.
    ImageUnavailable,
}

impl LiveTextSubjectUnavailable {
    /// The human-readable description of this reason.
    pub fn to_string(&self) -> (s: String)
        ensures
            s@ == "subject image is unavailable"@,
    {
        match self {
            LiveTextSubjectUnavailable::ImageUnavailable => String::from_str("subject image is unavailable"),
        }
    }
}


/// An error returned by the VisionKit wrappers.
#[derive(Debug, Clone, PartialEq, Eq)]
pub enum VisionKitError {
    /// VisionKit rejected an argument.
    InvalidArgument(String),
    /// The API needs a newer macOS.
    UnavailableOnThisMacOS(String),
    /// The API does not exist on this platform.
    UnavailableOnThisPlatform(String),
    /// VisionKit did not finish in time.
    TimedOut(String),
    /// The image analyzer is not supported on this Mac.
    AnalyzerNotSupported(String),
    /// A framework-level failure.
    Framework(String),
    /// A live text subject is unavailable.
    LiveTextSubjectUnavailable(LiveTextSubjectUnavailable),
    /// The main queue was not serviced while an analysis waited for it.
    MainRunLoopNotRunning(String),
    /// A main-thread-only view was created on another thread.
    NotOnMainThread(String),
    /// Any other failure.
    Unknown(String),
}

/// The mathematical model of a [`VisionKitError`]: its variant and message.
pub enum VisionKitErrorView {
    InvalidArgument(Seq<char>),
    UnavailableOnThisMacOS(Seq<char>),
    UnavailableOnThisPlatform(Seq<char>),
    TimedOut(Seq<char>),
    AnalyzerNotSupported(Seq<char>),
    Framework(Seq<char>),
    LiveTextSubjectUnavailable(LiveTextSubjectUnavailable),
    MainRunLoopNotRunning(Seq<char>),
    NotOnMainThread(Seq<char>),
    Unknown(Seq<char>),
}

impl View for VisionKitError {
    type V = VisionKitErrorView;

    open spec fn view(&self) -> VisionKitErrorView {
        match self {
            VisionKitError::InvalidArgument(m) => VisionKitErrorView::InvalidArgument(m@),
            VisionKitError::UnavailableOnThisMacOS(m) => VisionKitErrorView::UnavailableOnThisMacOS(m@),
            VisionKitError::UnavailableOnThisPlatform(m) => VisionKitErrorView::UnavailableOnThisPlatform(
                m@,
            ),
            VisionKitError::TimedOut(m) => VisionKitErrorView::TimedOut(m@),
            VisionKitError::AnalyzerNotSupported(m) => VisionKitErrorView::AnalyzerNotSupported(m@),
            VisionKitError::Framework(m) => VisionKitErrorView::Framework(m@),
            VisionKitError::LiveTextSubjectUnavailable(k) => VisionKitErrorView::LiveTextSubjectUnavailable(
                *k,
            ),
            VisionKitError::MainRunLoopNotRunning(m) => VisionKitErrorView::MainRunLoopNotRunning(m@),
            VisionKitError::NotOnMainThread(m) => VisionKitErrorView::NotOnMainThread(m@),
            VisionKitError::Unknown(m) => VisionKitErrorView::Unknown(m@),
        }
    }
}

impl VisionKitErrorView {
    /// The text that describes the error: the message it carries, or the
    /// description of the subject reason.
    pub open spec fn message(self) -> Seq<char> {
        match self {
            VisionKitErrorView::InvalidArgument(m) => m,
            VisionKitErrorView::UnavailableOnThisMacOS(m) => m,
            VisionKitErrorView::UnavailableOnThisPlatform(m) => m,
            VisionKitErrorView::TimedOut(m) => m,
            VisionKitErrorView::AnalyzerNotSupported(m) => m,
            VisionKitErrorView::Framework(m) => m,
            VisionKitErrorView::LiveTextSubjectUnavailable(_) => "subject image is unavailable"@,
            VisionKitErrorView::MainRunLoopNotRunning(m) => m,
            VisionKitErrorView::NotOnMainThread(m) => m,
            VisionKitErrorView::Unknown(m) => m,
        }
    }
}

impl VisionKitError {
    /// The human-readable description of this error.
    pub fn to_string(&self) -> (s: String)
        ensures
            s@ == self@.message(),
    {
        match self {
            VisionKitError::InvalidArgument(m) => m.clone(),
            VisionKitError::UnavailableOnThisMacOS(m) => m.clone(),
            VisionKitError::UnavailableOnThisPlatform(m) => m.clone(),
            VisionKitError::TimedOut(m) => m.clone(),
            VisionKitError::AnalyzerNotSupported(m) => m.clone(),
            VisionKitError::Framework(m) => m.clone(),
            VisionKitError::LiveTextSubjectUnavailable(k) => k.to_string(),
            VisionKitError::MainRunLoopNotRunning(m) => m.clone(),
            VisionKitError::NotOnMainThread(m) => m.clone(),
            VisionKitError::Unknown(m) => m.clone(),
        }
    }
}

} // verus!
