use tray_bridge::{Icon, IconMenuItemBuilder, TrayError};

fn pixels(n: usize) -> Vec<u8> {
    (0..n).map(|i| (i * 7 % 256) as u8).collect()
}

#[test]
fn from_rgba_keeps_size_and_pixels() {
    let bytes = pixels(2 * 3 * 4);
    let icon = Icon::from_rgba(bytes.clone(), 2, 3).unwrap();
    assert_eq!(icon.width(), 2);
    assert_eq!(icon.height(), 3);
    assert_eq!(icon.rgba(), &bytes);
}

#[test]
fn from_rgba_accepts_empty_image() {
    let icon = Icon::from_rgba(Vec::new(), 0, 5).unwrap();
    assert_eq!(icon.width(), 0);
    assert_eq!(icon.height(), 5);
    assert!(icon.rgba().is_empty());
}

#[test]
fn from_rgba_rejects_wrong_length() {
    assert_eq!(Icon::from_rgba(pixels(15), 2, 2).err(), Some(TrayError::InvalidDimensions));
    assert_eq!(Icon::from_rgba(pixels(20), 2, 2).err(), Some(TrayError::InvalidDimensions));
    assert_eq!(Icon::from_rgba(pixels(12), 2, 2).err(), Some(TrayError::InvalidDimensions));
    assert_eq!(Icon::from_rgba(pixels(4), 0, 0).err(), Some(TrayError::InvalidDimensions));
}

#[test]
fn from_rgba_rejects_sizes_whose_product_overflows() {
    assert_eq!(Icon::from_rgba(pixels(4), 65536, 65536).err(), Some(TrayError::InvalidDimensions));
}

#[test]
fn icon_item_requires_an_icon() {
    let mut b = IconMenuItemBuilder::new();
    b.with_text("Open".to_string());
    assert_eq!(b.build().err(), Some(TrayError::MissingIcon));
    let icon = Icon::from_rgba(pixels(4), 1, 1).unwrap();
    assert!(b.with_icon(&icon).is_ok());
    let item = b.build().ok().unwrap();
    assert_eq!(item.text, "Open");
    assert!(item.enabled);
    assert_eq!(item.icon.rgba(), icon.rgba());
}

#[test]
fn cloned_icon_holds_the_same_pixels() {
    let icon = Icon::from_rgba(pixels(8), 2, 1).unwrap();
    let copy = icon.clone();
    assert_eq!(copy.rgba(), icon.rgba());
    assert_eq!((copy.width(), copy.height()), (2, 1));
}
