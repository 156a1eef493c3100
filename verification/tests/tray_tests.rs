use discord_imhex::{ICON, VERSION};

#[test]
fn test_version_constant() {
    assert!(!VERSION.is_empty());
    assert!(VERSION.chars().any(|c| c.is_digit(10)));
}

#[test]
fn test_icon_constant() {
    assert!(!ICON.is_empty());
}
