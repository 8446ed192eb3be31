use trayicon::winhicon::WinHIcon;
use trayicon::{Error, Icon};

// A minimal well-formed icon directory: one 16x16 entry whose 4-byte image
// lies right after the 22 directory bytes.
fn ico() -> &'static [u8] {
    &[
    0x00, 0x00, // reserved
    0x01, 0x00, // type: icon
    0x01, 0x00, // one entry
    16,   // width
    16,   // height
    0x00, // colors
    0x00, // reserved
    0x01, 0x00, // planes
    0x20, 0x00, // bit count
    0x04, 0x00, 0x00, 0x00, // image size: 4
    0x16, 0x00, 0x00, 0x00, // image offset: 22
    0xde, 0xad, 0xbe, 0xef, // image bytes
    ]
}

#[test]
fn test_from_buffer_default_dimensions() {
    let icon = WinHIcon::from_buffer(ico(), None, None).unwrap();
    assert!(icon.alive);
    assert_eq!(icon.offset, 22);
    assert_eq!(icon.length, 4);
}

#[test]
fn test_from_buffer_matching_dimensions() {
    let icon = WinHIcon::from_buffer(ico(), Some(16), Some(16)).unwrap();
    assert_eq!(icon.offset, 22);
    assert_eq!(icon.length, 4);
}

#[test]
fn test_from_buffer_empty_fails() {
    assert_eq!(
        WinHIcon::from_buffer(&[], None, None).unwrap_err(),
        Error::IconLoadingFailed
    );
}

#[test]
fn test_from_buffer_malformed_fails() {
    // Wrong resource type.
    let bad: &[u8] = &[0x00, 0x00, 0x02, 0x00, 0x01, 0x00];
    assert_eq!(
        WinHIcon::from_buffer(bad, None, None).unwrap_err(),
        Error::IconLoadingFailed
    );
    // Truncated directory: one entry declared, no entry bytes.
    let truncated: &[u8] = &[0x00, 0x00, 0x01, 0x00, 0x01, 0x00];
    assert_eq!(
        WinHIcon::from_buffer(truncated, None, None).unwrap_err(),
        Error::IconLoadingFailed
    );
}

#[test]
fn test_from_buffer_out_of_bounds_image_fails() {
    // Same directory, but the declared image runs past the buffer end.
    let short: &[u8] = &[
        0x00, 0x00, 0x01, 0x00, 0x01, 0x00, 16, 16, 0x00, 0x00, 0x01, 0x00, 0x20, 0x00, 0x10,
        0x00, 0x00, 0x00, 0x16, 0x00, 0x00, 0x00, 0xde, 0xad,
    ];
    assert_eq!(
        WinHIcon::from_buffer(short, None, None).unwrap_err(),
        Error::IconLoadingFailed
    );
}

#[test]
fn test_icon_clones_are_independently_destructible() {
    // Dropping one duplicate leaves the other's underlying resource valid.
    let icon = Icon::from_buffer(ico(), None, None).unwrap();
    let mut duplicate = icon.clone();
    assert!(icon.sys.alive);
    assert!(duplicate.sys.alive);
    duplicate.sys.destroy();
    assert!(!duplicate.sys.alive);
    assert!(icon.sys.alive);
}
