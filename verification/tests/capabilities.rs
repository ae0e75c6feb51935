use shell_bootstrap::capability::{capabilities, Capability};
use shell_bootstrap::platform::Platform;

const PLATFORMS: [Platform; 3] = [Platform::Desktop, Platform::Android, Platform::Ios];

const ALL: [Capability; 4] = [
    Capability::Clipboard,
    Capability::Opener,
    Capability::Filesystem,
    Capability::GlobalShortcut,
];

#[test]
fn desktop_registers_all_four_in_order() {
    assert_eq!(
        capabilities(Platform::Desktop),
        vec![
            Capability::Clipboard,
            Capability::Opener,
            Capability::Filesystem,
            Capability::GlobalShortcut,
        ]
    );
}

#[test]
fn android_registers_the_three_unconditional_ones() {
    assert_eq!(
        capabilities(Platform::Android),
        vec![Capability::Clipboard, Capability::Opener, Capability::Filesystem]
    );
}

#[test]
fn ios_registers_the_three_unconditional_ones() {
    assert_eq!(
        capabilities(Platform::Ios),
        vec![Capability::Clipboard, Capability::Opener, Capability::Filesystem]
    );
}

#[test]
fn global_shortcut_is_registered_on_desktop_only() {
    assert!(capabilities(Platform::Desktop).contains(&Capability::GlobalShortcut));
    assert!(!capabilities(Platform::Android).contains(&Capability::GlobalShortcut));
    assert!(!capabilities(Platform::Ios).contains(&Capability::GlobalShortcut));
}

#[test]
fn unconditional_capabilities_are_registered_everywhere() {
    for platform in PLATFORMS {
        let list = capabilities(platform);
        assert!(list.contains(&Capability::Clipboard));
        assert!(list.contains(&Capability::Opener));
        assert!(list.contains(&Capability::Filesystem));
    }
}

#[test]
fn list_agrees_with_available_on() {
    for platform in PLATFORMS {
        let list = capabilities(platform);
        for capability in ALL {
            assert_eq!(list.contains(&capability), capability.available_on(platform));
        }
    }
}

#[test]
fn no_capability_is_registered_twice() {
    for platform in PLATFORMS {
        let list = capabilities(platform);
        for (i, a) in list.iter().enumerate() {
            for b in list.iter().skip(i + 1) {
                assert_ne!(a, b);
            }
        }
    }
}

#[test]
fn available_on_exact_values() {
    assert!(Capability::GlobalShortcut.available_on(Platform::Desktop));
    assert!(!Capability::GlobalShortcut.available_on(Platform::Android));
    assert!(!Capability::GlobalShortcut.available_on(Platform::Ios));
    assert!(Capability::Clipboard.available_on(Platform::Android));
    assert!(Capability::Opener.available_on(Platform::Ios));
    assert!(Capability::Filesystem.available_on(Platform::Desktop));
}

#[test]
fn mobile_and_desktop_are_complementary() {
    assert!(!Platform::Desktop.mobile());
    assert!(Platform::Android.mobile());
    assert!(Platform::Ios.mobile());
    assert!(Platform::Desktop.desktop());
    assert!(!Platform::Android.desktop());
    assert!(!Platform::Ios.desktop());
}
