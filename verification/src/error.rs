//! The named causes for which setting up or running the pipeline fails.

use vstd::prelude::*;

verus! {

/// An extension by name, with the revision that is asked for or on offer.
#[derive(Debug, Clone, PartialEq, Eq)]
pub struct ExtensionProperty {
    pub name: String,
    pub spec_version: u32,
}

/// Why the device or the chain of presentable images could not be set up.
#[derive(Debug, Clone, PartialEq, Eq)]
pub enum GfxError {
    /// No physical device passes every check.
    NoSuitableDevice,
    /// The device lacks a feature that is required.
    FeatureMissing,
    /// The device has no queue family that draws, or none that presents to the surface.
    NoSuitableQueue,
    /// The driver did not say which extensions the device offers.
    ExtensionsUnknown,
    /// Required extensions that are absent, or on offer only in an older revision.
    ExtensionMissing(Vec<ExtensionProperty>),
    /// The driver refused to open the device; the native code is kept.
    DeviceCreationFailed(i32),
    /// The surface offers no format in the preferred layout and colour space.
    NoSuitableFormat,
    /// The surface offers neither of the two present modes that are used.
    NoSuitablePresentMode,
    /// The driver refused to make the chain or one of the parts that go with
    /// it; the native code is kept.
    SwapchainCreationFailed(i32),
    /// The parts handed in do not make up one whole generation of the chain.
    IncompleteGeneration,
}

} // verus!
