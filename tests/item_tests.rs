use alfrusco::icon::ICON_TOOLBAR_FAVORITES;
use alfrusco::{Arg, Icon, Item, Key, Modifier};

#[test]
fn item_test_copy_text() {
    let item = Item::new("Google").copy_text("www.google.com");
    assert_eq!(item.title, "Google");
    assert_eq!(item.text.unwrap().copy, Some("www.google.com".to_string()));
}

#[test]
fn test_quicklook_url() {
    let item = Item::new("Google").quicklook_url("https://www.google.com");
    assert_eq!(item.title, "Google");
    assert_eq!(
        item.quicklook_url,
        Some("https://www.google.com".to_string())
    );
}

#[test]
fn test_large_type_text() {
    let item = Item::new("Google").large_type_text("www.google.com");
    assert_eq!(item.title, "Google");
    assert_eq!(
        item.text.unwrap().large_type,
        Some("www.google.com".to_string())
    );
}

#[test]
fn item_test_icon_from_image() {
    let item = Item::new("Adobe PDF").icon_from_image("/Users/crayons/Documents/acrobat.png");
    let icon = item.icon.unwrap();
    assert_eq!(icon.type_, None);
    assert_eq!(icon.path, "/Users/crayons/Documents/acrobat.png");
}

#[test]
fn item_test_icon_for_filetype() {
    let item = Item::new("Adobe PDF").icon_for_filetype("com.adobe.pdf");
    let icon = item.icon.unwrap();
    assert_eq!(icon.type_.unwrap(), "filetype");
    assert_eq!(icon.path, "com.adobe.pdf");
}

#[test]
fn test_var_and_unset_var() {
    let item = Item::new("Test Item")
        .var("key1", "value1")
        .var("key2", "value2");
    assert_eq!(item.variables.get("key1"), Some(&"value1".to_string()));
    assert_eq!(item.variables.get("key2"), Some(&"value2".to_string()));
    let item = item.unset_var("key1");
    assert_eq!(item.variables.get("key1"), None);
    assert_eq!(item.variables.get("key2"), Some(&"value2".to_string()));
}

#[test]
fn test_unset_var_nonexistent_key() {
    let item = Item::new("Test Item").var("key1", "value1");
    assert_eq!(item.variables.get("key1"), Some(&"value1".to_string()));
    let item = item.unset_var("nonexistent_key");
    assert_eq!(item.variables.get("key1"), Some(&"value1".to_string()));
    assert_eq!(item.variables.len(), 1);
}

#[test]
fn test_sticky() {
    let item = Item::new("Test Item");
    assert!(!item.sticky);
    let item = item.sticky(true);
    assert!(item.sticky);
    let item = item.sticky(false);
    assert!(!item.sticky);
}

#[test]
fn item_builder_sets_each_field() {
    let item = Item::new("Item")
        .subtitle("sub")
        .uid("id-1")
        .arg("singlearg")
        .valid(true)
        .matches("realitemname")
        .autocomplete("auto");
    assert_eq!(item.subtitle, Some("sub".to_string()));
    assert_eq!(item.uid, Some("id-1".to_string()));
    assert_eq!(item.arg, Some(Arg::One("singlearg".to_string())));
    assert_eq!(item.valid, Some(true));
    assert_eq!(item.match_text, Some("realitemname".to_string()));
    assert_eq!(item.autocomplete, Some("auto".to_string()));
}

#[test]
fn item_args_keep_order() {
    let item = Item::new("Item").args(&["arg1", "arg2", "https://www.google.com"]);
    assert_eq!(
        item.arg,
        Some(Arg::Many(vec![
            "arg1".to_string(),
            "arg2".to_string(),
            "https://www.google.com".to_string()
        ]))
    );
}

#[test]
fn item_icon_from_constant() {
    let item = Item::new("Favorite").icon(ICON_TOOLBAR_FAVORITES.into());
    assert_eq!(item.icon, Some(Icon { type_: None, path: ICON_TOOLBAR_FAVORITES.to_string() }));
}

#[test]
fn item_copy_and_large_type_together() {
    let item = Item::new("Item").copy_text("copied").large_type_text("big");
    let text = item.text.unwrap();
    assert_eq!(text.copy, Some("copied".to_string()));
    assert_eq!(text.large_type, Some("big".to_string()));
}

#[test]
fn item_modifier_replaces_same_keys() {
    let item = Item::new("Item")
        .modifier(Modifier::new(Key::Cmd).subtitle("first"))
        .modifier(Modifier::new(Key::Alt).subtitle("other"))
        .modifier(Modifier::new(Key::Cmd).subtitle("second"));
    assert_eq!(item.modifiers.len(), 2);
    assert_eq!(
        item.modifiers.get("cmd").unwrap().subtitle,
        Some("second".to_string())
    );
}

#[test]
fn item_var_overwrites_and_keeps_order() {
    let item = Item::new("Item").var("a", "1").var("b", "2").var("a", "3");
    let keys: Vec<&str> = item.variables.entries().iter().map(|(k, _)| k.as_str()).collect();
    assert_eq!(keys, vec!["a", "b"]);
    assert_eq!(item.variables.get("a"), Some(&"3".to_string()));
}
