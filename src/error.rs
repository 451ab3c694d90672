use vstd::prelude::*;

verus! {

/// The ways a preview request can fail. Each one aborts the request.
#[derive(Debug)]
pub enum PreviewError {
    /// The platform could not list the available monitors.
    Enumeration(String),
    /// No monitor carries the requested identifier (held here).
    NotFound(String),
    /// The platform could not read the screen of the resolved monitor.
    Capture(String),
    /// The bounding box or the source bitmap has an axis of length zero.
    InvalidDimensions,
    /// The image codec failed to produce compressed bytes.
    Encoding(String),
}

} // verus!
