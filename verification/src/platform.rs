//! The platform an application instance is built for.

use vstd::prelude::*;

verus! {

/// The operating-system family an application instance is built for.
///
/// Every target that is neither `Android` nor `Ios` counts as `Desktop`.
#[derive(Clone, Copy, Debug, PartialEq, Eq, Structural)]
pub enum Platform {
    Desktop,
    Android,
    Ios,
}

impl Platform {
    /// Whether this is one of the two mobile targets.
    pub open spec fn is_mobile(self) -> bool {
        self == Platform::Android || self == Platform::Ios
    }

    /// Whether this is a desktop target: exactly the targets that are not mobile.
    pub open spec fn is_desktop(self) -> bool {
        !self.is_mobile()
    }

    /// Tells whether this is one of the two mobile targets.
    pub fn mobile(self) -> (b: bool)
        ensures
            b == self.is_mobile(),
    {
        match self {
            Platform::Desktop => false,
            Platform::Android => true,
            Platform::Ios => true,
        }
    }

    /// Tells whether this is a desktop target.
    pub fn desktop(self) -> (b: bool)
        ensures
            b == self.is_desktop(),
            b == (self == Platform::Desktop),
    {
        !self.mobile()
    }
}

} // verus!
