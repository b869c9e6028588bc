use vstd::prelude::*;

verus! {

/// The failures that tray, menu and icon operations report to their caller.
#[derive(Clone, Copy, Debug, PartialEq, Eq, Structural)]
pub enum TrayError {
    /// An image could not be read or decoded.
    DecodeFailure,
    /// A pixel buffer does not hold exactly `width * height` RGBA pixels.
    InvalidDimensions,
    /// An icon menu item was built without an icon.
    MissingIcon,
    /// The platform refused to add an item to a menu.
    NativeAppendFailure,
    /// The platform could not create the tray icon.
    NativeTrayCreationFailure,
}

} // verus!
