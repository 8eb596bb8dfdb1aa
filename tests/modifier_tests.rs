use alfrusco::icon::ICON_TOOLBAR_FAVORITES;
use alfrusco::{Arg, Icon, Key, Modifier};

#[test]
fn modifiers_test_new() {
    let modifier = Modifier::new(Key::Fn);
    assert_eq!(modifier.keys, "fn");
}

#[test]
fn modifiers_test_new_combo() {
    let cases = [
        (vec![Key::Cmd, Key::Shift], "cmd+shift"),
        (vec![Key::Ctrl, Key::Fn], "ctrl+fn"),
        (vec![Key::Ctrl], "ctrl"),
        (vec![Key::Ctrl, Key::Shift, Key::Fn], "ctrl+shift+fn"),
    ];
    for (keys, expected) in cases {
        let modifier = Modifier::new_combo(&keys);
        assert_eq!(modifier.keys, expected);
    }
}

#[test]
fn test_key_display_all_variants() {
    let cases = [
        (Key::Cmd, "cmd"),
        (Key::Ctrl, "ctrl"),
        (Key::Alt, "alt"),
        (Key::Shift, "shift"),
        (Key::Fn, "fn"),
    ];
    for (key, expected) in cases {
        assert_eq!(key.to_string(), expected);
    }
}

#[test]
fn test_modifier_default() {
    let modifier = Modifier::default();
    assert_eq!(modifier.keys, "");
    assert_eq!(modifier.subtitle, None);
    assert_eq!(modifier.arg, None);
    assert_eq!(modifier.icon, None);
    assert_eq!(modifier.variables, None);
    assert_eq!(modifier.autocomplete, None);
    assert_eq!(modifier.valid, None);
}

#[test]
fn test_modifier_clone_and_eq() {
    let modifier1 = Modifier::new(Key::Cmd).subtitle("Test").var("KEY", "value");
    let modifier2 = modifier1.clone();
    assert_eq!(modifier1, modifier2);
    let modifier3 = Modifier::new(Key::Cmd).subtitle("Different");
    assert_ne!(modifier1, modifier3);
}

#[test]
fn test_modifier_debug_format() {
    let modifier = Modifier::new(Key::Alt).subtitle("Debug test");
    let debug_str = format!("{modifier:?}");
    assert!(debug_str.contains("Modifier"));
    assert!(debug_str.contains("alt"));
}

#[test]
fn test_combo_with_empty_slice() {
    let modifier = Modifier::new_combo(&[]);
    assert_eq!(modifier.keys, "");
}

#[test]
fn test_combo_with_single_key() {
    let modifier = Modifier::new_combo(&[Key::Cmd]);
    assert_eq!(modifier.keys, "cmd");
}

#[test]
fn test_combo_with_four_keys() {
    let modifier = Modifier::new_combo(&[Key::Cmd, Key::Ctrl, Key::Alt, Key::Shift]);
    assert_eq!(modifier.keys, "cmd+ctrl+alt+shift");
}

#[test]
fn test_combo_with_all_keys() {
    let modifier = Modifier::new_combo(&[Key::Cmd, Key::Ctrl, Key::Alt, Key::Shift, Key::Fn]);
    assert_eq!(modifier.keys, "cmd+ctrl+alt+shift+fn");
}

#[test]
fn test_icon_methods_on_modifier() {
    let mod1 = Modifier::new(Key::Cmd).icon_for_filetype("public.text");
    assert_eq!(
        mod1.icon.as_ref().unwrap().type_,
        Some("filetype".to_string())
    );
    assert_eq!(mod1.icon.as_ref().unwrap().path, "public.text");

    let mod2 = Modifier::new(Key::Alt).icon_from_image("/path/to/icon.png");
    assert_eq!(mod2.icon.as_ref().unwrap().type_, None);
    assert_eq!(mod2.icon.as_ref().unwrap().path, "/path/to/icon.png");

    let icon = Icon {
        type_: Some("fileicon".to_string()),
        path: "/custom/path".to_string(),
    };
    let mod3 = Modifier::new(Key::Ctrl).icon(icon);
    assert_eq!(
        mod3.icon.as_ref().unwrap().type_,
        Some("fileicon".to_string())
    );
    assert_eq!(mod3.icon.as_ref().unwrap().path, "/custom/path");
}

#[test]
fn test_chaining_all_methods() {
    let modifier = Modifier::new_combo(&[Key::Cmd, Key::Shift])
        .subtitle("Chained subtitle")
        .arg("chained_arg")
        .icon_from_image("icon.png")
        .var("KEY1", "val1")
        .autocomplete("chain")
        .valid(false)
        .var("KEY2", "val2");
    assert_eq!(modifier.keys, "cmd+shift");
    assert_eq!(modifier.subtitle, Some("Chained subtitle".to_string()));
    assert_eq!(modifier.arg, Some(Arg::One("chained_arg".to_string())));
    assert_eq!(modifier.icon.as_ref().unwrap().path, "icon.png");
    assert_eq!(modifier.autocomplete, Some("chain".to_string()));
    assert_eq!(modifier.valid, Some(false));
    let vars = modifier.variables.as_ref().unwrap();
    assert_eq!(vars.get("KEY1"), Some(&"val1".to_string()));
    assert_eq!(vars.get("KEY2"), Some(&"val2".to_string()));
}

#[test]
fn test_var_overwrites_existing_key() {
    let modifier = Modifier::new(Key::Cmd)
        .var("KEY", "first_value")
        .var("KEY", "second_value");
    let vars = modifier.variables.as_ref().unwrap();
    assert_eq!(vars.get("KEY"), Some(&"second_value".to_string()));
    assert_eq!(vars.len(), 1);
}

#[test]
fn test_empty_string_values_in_methods() {
    let modifier = Modifier::new(Key::Shift)
        .subtitle("")
        .arg("")
        .var("", "")
        .autocomplete("");
    assert_eq!(modifier.subtitle, Some(String::new()));
    assert_eq!(modifier.arg, Some(Arg::One(String::new())));
    assert_eq!(modifier.autocomplete, Some(String::new()));
    let vars = modifier.variables.as_ref().unwrap();
    assert_eq!(vars.get(""), Some(&String::new()));
}

#[test]
fn test_modifier_partial_eq_all_fields() {
    let mod1 = Modifier::new(Key::Cmd)
        .subtitle("Sub")
        .arg("arg")
        .icon_for_filetype("type")
        .var("K", "V")
        .autocomplete("auto")
        .valid(true);
    let mod2 = Modifier::new(Key::Cmd)
        .subtitle("Sub")
        .arg("arg")
        .icon_for_filetype("type")
        .var("K", "V")
        .autocomplete("auto")
        .valid(true);
    assert_eq!(mod1, mod2);
}

#[test]
fn test_icon_from_const() {
    let modifier = Modifier::new(Key::Cmd).icon(ICON_TOOLBAR_FAVORITES.into());
    assert_eq!(modifier.icon.as_ref().unwrap().type_, None);
    assert_eq!(modifier.icon.as_ref().unwrap().path, ICON_TOOLBAR_FAVORITES);
}

#[test]
fn modifiers_test_args() {
    let modifier = Modifier::new(Key::Ctrl).args(&["arg1", "arg2", "arg3"]);
    assert_eq!(
        modifier.arg,
        Some(Arg::Many(vec!["arg1".to_string(), "arg2".to_string(), "arg3".to_string()]))
    );
}

#[test]
fn test_valid_false() {
    let modifier = Modifier::new(Key::Cmd).valid(false);
    assert_eq!(modifier.valid, Some(false));
}
