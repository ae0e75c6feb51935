//! The native capabilities the shell can expose, and the rule that selects them.

use crate::platform::Platform;
use vstd::prelude::*;

verus! {

/// A native facility that the shell can expose to its embedded web content.
#[derive(Clone, Copy, Debug, PartialEq, Eq, Structural)]
pub enum Capability {
    /// Clipboard read and write.
    Clipboard,
    /// Opening links and files with the system's handlers.
    Opener,
    /// Filesystem access.
    Filesystem,
    /// System-wide keyboard shortcuts.
    GlobalShortcut,
}

impl Capability {
    /// Whether the capability is exposed on every platform.
    pub open spec fn is_unconditional(self) -> bool {
        self != Capability::GlobalShortcut
    }

    /// Whether the capability is exposed on `platform`: the unconditional ones
    /// everywhere, global shortcuts on desktop targets only.
    pub open spec fn enabled_on(self, platform: Platform) -> bool {
        self.is_unconditional() || platform.is_desktop()
    }

    /// Tells whether the capability is exposed on `platform`.
    pub fn available_on(self, platform: Platform) -> (b: bool)
        ensures
            b == self.enabled_on(platform),
    {
        match self {
            Capability::GlobalShortcut => platform.desktop(),
            _ => true,
        }
    }
}

/// The capabilities exposed on `platform`, in the order in which they are
/// registered with the application builder.
pub open spec fn registration_order(platform: Platform) -> Seq<Capability> {
    if platform.is_desktop() {
        seq![
            Capability::Clipboard,
            Capability::Opener,
            Capability::Filesystem,
            Capability::GlobalShortcut,
        ]
    } else {
        seq![Capability::Clipboard, Capability::Opener, Capability::Filesystem]
    }
}

/// Assembles the capabilities to register on `platform`, in registration order.
pub fn capabilities(platform: Platform) -> (list: Vec<Capability>)
    ensures
        list@ == registration_order(platform),
{
    let mut list: Vec<Capability> = Vec::new();
    list.push(Capability::Clipboard);
    list.push(Capability::Opener);
    list.push(Capability::Filesystem);
    if platform.desktop() {
        list.push(Capability::GlobalShortcut);
    }
    list
}

/// The assembled list holds exactly the capabilities enabled on the platform,
/// each of them once.
pub proof fn lemma_registration_matches_rule(platform: Platform)
    ensures
        forall|c: Capability|
            registration_order(platform).contains(c) <==> c.enabled_on(platform),
        registration_order(platform).no_duplicates(),
{
    let order = registration_order(platform);
    assert(order[0] == Capability::Clipboard);
    assert(order[1] == Capability::Opener);
    assert(order[2] == Capability::Filesystem);
    if platform.is_desktop() {
        assert(order[3] == Capability::GlobalShortcut);
    }
}

/// Global shortcuts are part of the assembled set on desktop targets, and on
/// neither of the two mobile targets.
pub proof fn lemma_global_shortcut_iff_desktop(platform: Platform)
    ensures
        registration_order(platform).contains(Capability::GlobalShortcut)
            <==> platform.is_desktop(),
        platform == Platform::Desktop ==> registration_order(platform).contains(
            Capability::GlobalShortcut,
        ),
        platform == Platform::Android || platform == Platform::Ios
            ==> !registration_order(platform).contains(Capability::GlobalShortcut),
{
    lemma_registration_matches_rule(platform);
}

/// Clipboard, opener and filesystem are part of the assembled set on every
/// platform.
pub proof fn lemma_unconditional_on_every_platform(platform: Platform)
    ensures
        registration_order(platform).contains(Capability::Clipboard),
        registration_order(platform).contains(Capability::Opener),
        registration_order(platform).contains(Capability::Filesystem),
{
    lemma_registration_matches_rule(platform);
}

} // verus!
