use alfrusco::{Arg, Item, URLItem};

#[test]
fn test_new_url_item() {
    let item: Item = URLItem::new("Rust", "https://www.rust-lang.org/").into();
    assert_eq!(item.title, "Rust");
    assert_eq!(
        item.arg,
        Some(Arg::One("https://www.rust-lang.org/".to_string()))
    );
}

#[test]
fn test_display_title_override() {
    let item: Item = URLItem::new("Rust", "https://www.rust-lang.org/")
        .display_title("Rust (Displayed in Alfred UI, but not used in links)")
        .into();
    assert_eq!(
        item.title,
        "Rust (Displayed in Alfred UI, but not used in links)"
    );
}

#[test]
fn test_short_title_override() {
    let item: Item = URLItem::new("crates.io: Rust Package Repository", "https://crates.io/")
        .short_title("crates.io")
        .into();
    assert_eq!(item.title, "crates.io: Rust Package Repository");
    let lm = item.modifiers.get("cmd+shift").unwrap().clone();
    assert_eq!(
        lm.subtitle,
        Some("Copy Markdown Link 'crates.io'".to_string())
    );
}

#[test]
fn test_long_title() {
    let item: Item = URLItem::new("Rust Blog", "https://blog.rust-lang.org/")
        .long_title("The Rust Programming Language Blog")
        .into();
    assert_eq!(item.title, "Rust Blog");
    let lm = item.modifiers.get("cmd+ctrl").unwrap().clone();
    assert_eq!(
        lm.subtitle,
        Some("Copy Markdown Link 'The Rust Programming Language Blog'".to_string()),
    );
    assert_eq!(lm.arg, Some(Arg::One("run".to_string())));
}

#[test]
fn url_item_test_copy_text() {
    let item: Item = URLItem::new("Google", "https://www.google.com")
        .copy_text("www.google.com")
        .into();
    assert_eq!(item.title, "Google");
    assert_eq!(item.text.unwrap().copy, Some("www.google.com".to_string()));
}

#[test]
fn url_item_test_icon_from_image() {
    let item: Item = URLItem::new("Adobe PDF", "https://www.adobe.com/acrobat.html")
        .icon_from_image("/Users/crayons/Documents/acrobat.png")
        .into();
    let icon = item.icon.unwrap();
    assert_eq!(icon.type_, None);
    assert_eq!(icon.path, "/Users/crayons/Documents/acrobat.png");
}

#[test]
fn url_item_test_icon_for_filetype() {
    let item: Item = URLItem::new("Adobe PDF", "https://www.adobe.com/acrobat.html")
        .icon_for_filetype("com.adobe.pdf")
        .into();
    let icon = item.icon.unwrap();
    assert_eq!(icon.type_.unwrap(), "filetype");
    assert_eq!(icon.path, "com.adobe.pdf");
}

#[test]
fn test_into_item() {
    let item: Item = URLItem::new("Rust", "https://www.rust-lang.org/").into();
    assert_eq!(item.title, "Rust");
}

#[test]
fn url_item_test_subtitle() {
    let url_item = URLItem::new("Rust", "https://www.rust-lang.org/")
        .subtitle("The Rust Programming Language");
    assert_eq!(
        url_item.subtitle,
        Some("The Rust Programming Language".to_string())
    );
    let item: Item = url_item.into();
    assert_eq!(
        item.subtitle,
        Some("The Rust Programming Language".to_string())
    );
}

#[test]
fn test_subtitle_override() {
    let item: Item = URLItem::new("Rust", "https://www.rust-lang.org/")
        .subtitle("The Rust Programming Language")
        .into();
    assert_eq!(
        item.subtitle,
        Some("The Rust Programming Language".to_string())
    );
    assert_ne!(
        item.subtitle,
        Some("https://www.rust-lang.org/".to_string())
    );
}

#[test]
fn test_custom_arg() {
    let item: Item = URLItem::new("Search Results", "https://example.com/search")
        .arg("workflow:search:advanced")
        .into();
    assert_eq!(item.title, "Search Results");
    assert_eq!(
        item.arg,
        Some(Arg::One("workflow:search:advanced".to_string()))
    );
    assert_eq!(item.subtitle, Some("https://example.com/search".to_string()));
}

#[test]
fn test_default_arg_behavior() {
    let item: Item = URLItem::new("Example", "https://example.com").into();
    assert_eq!(
        item.arg,
        Some(Arg::One("https://example.com".to_string()))
    );
}

#[test]
fn test_var_support() {
    let item: Item = URLItem::new("Test Item", "https://example.com")
        .var("CUSTOM_VAR", "custom_value")
        .var("ANOTHER_VAR", "another_value")
        .into();
    assert_eq!(item.title, "Test Item");
    assert_eq!(item.variables.get("CUSTOM_VAR"), Some(&"custom_value".to_string()));
    assert_eq!(item.variables.get("ANOTHER_VAR"), Some(&"another_value".to_string()));
}

#[test]
fn test_var_chaining() {
    let url_item = URLItem::new("Chained", "https://example.com")
        .subtitle("Test subtitle")
        .var("VAR1", "value1")
        .arg("custom_arg")
        .var("VAR2", "value2");
    let item: Item = url_item.into();
    assert_eq!(item.title, "Chained");
    assert_eq!(item.subtitle, Some("Test subtitle".to_string()));
    assert_eq!(item.arg, Some(Arg::One("custom_arg".to_string())));
    assert_eq!(item.variables.get("VAR1"), Some(&"value1".to_string()));
    assert_eq!(item.variables.get("VAR2"), Some(&"value2".to_string()));
}

#[test]
fn url_item_link_modifiers() {
    let item: Item = URLItem::new("Rust", "https://www.rust-lang.org/")
        .short_title("rs")
        .long_title("The Rust Language")
        .into();
    assert_eq!(item.modifiers.len(), 6);
    let cmd = item.modifiers.get("cmd").unwrap();
    assert_eq!(cmd.subtitle, Some("Copy Markdown Link 'Rust'".to_string()));
    assert_eq!(cmd.valid, None);
    let vars = cmd.variables.as_ref().unwrap();
    assert_eq!(vars.get("ALFRUSCO_COMMAND"), Some(&"markdown".to_string()));
    assert_eq!(vars.get("TITLE"), Some(&"Rust".to_string()));
    assert_eq!(vars.get("URL"), Some(&"https://www.rust-lang.org/".to_string()));
    let alt_shift = item.modifiers.get("alt+shift").unwrap();
    assert_eq!(alt_shift.subtitle, Some("Copy Rich Text Link 'rs'".to_string()));
    assert_eq!(alt_shift.valid, Some(true));
    let alt_ctrl = item.modifiers.get("alt+ctrl").unwrap();
    assert_eq!(
        alt_ctrl.variables.as_ref().unwrap().get("ALFRUSCO_COMMAND"),
        Some(&"richtext".to_string())
    );
    assert_eq!(item.uid, Some("https://www.rust-lang.org/".to_string()));
    assert_eq!(item.valid, Some(true));
}
