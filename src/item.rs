//! A single choice in the launcher's result list.
use vstd::prelude::*;

use crate::chars::{opt_view, strs_view, to_strings};
use crate::string_map::{str_view, StringMap};
use crate::{Arg, Icon, Modifier, Text};

verus! {

/// One entry of the result list, with the fields of the script filter
/// format. `variables` and `modifiers` keep their keys in the order of
/// first insertion; `modifiers` is keyed by each modifier's `keys`.
/// `sticky` keeps an item in front when results are filtered.
#[derive(Debug, Clone, Default, PartialEq, Eq)]
pub struct Item {
    pub title: String,
    pub subtitle: Option<String>,
    pub uid: Option<String>,
    pub arg: Option<Arg>,
    pub variables: StringMap<String>,
    pub icon: Option<Icon>,
    pub valid: Option<bool>,
    pub match_text: Option<String>,
    pub modifiers: StringMap<Modifier>,
    pub autocomplete: Option<String>,
    pub quicklook_url: Option<String>,
    pub text: Option<Text>,
    pub sticky: bool,
}

impl Item {
    /// Every field but the title is unset.
    pub open spec fn is_bare(&self) -> bool {
        &&& self.subtitle is None
        &&& self.uid is None
        &&& self.arg is None
        &&& self.variables@ == Map::<Seq<char>, String>::empty()
        &&& self.icon is None
        &&& self.valid is None
        &&& self.match_text is None
        &&& self.modifiers@ == Map::<Seq<char>, Modifier>::empty()
        &&& self.autocomplete is None
        &&& self.quicklook_url is None
        &&& self.text is None
        &&& !self.sticky
    }

    /// An item with `title` and nothing else.
    pub fn new(title: &str) -> (r: Item)
        ensures
            r.title@ == title@,
            r.is_bare(),
            r.variables.wf() && r.modifiers.wf(),
    {
        Item {
            title: title.to_owned(),
            subtitle: None,
            uid: None,
            arg: None,
            variables: StringMap::new(),
            icon: None,
            valid: None,
            match_text: None,
            modifiers: StringMap::new(),
            autocomplete: None,
            quicklook_url: None,
            text: None,
            sticky: false,
        }
    }

    /// Sets the subtitle.
    pub fn subtitle(self, subtitle: &str) -> (r: Item)
        ensures
            opt_view(r.subtitle) == Some(subtitle@),
            r == (Item { subtitle: r.subtitle, ..self }),
    {
        Item { subtitle: Some(subtitle.to_owned()), ..self }
    }

    /// Sets a single argument.
    pub fn arg(self, arg: &str) -> (r: Item)
        ensures
            r.arg matches Some(Arg::One(a)) && a@ == arg@,
            r == (Item { arg: r.arg, ..self }),
    {
        Item { arg: Some(Arg::One(arg.to_owned())), ..self }
    }

    /// Sets several arguments.
    pub fn args(self, args: &[&str]) -> (r: Item)
        ensures
            r.arg matches Some(Arg::Many(v)) && strs_view(v@) == args@.map_values(|s: &str| s@),
            r == (Item { arg: r.arg, ..self }),
    {
        Item { arg: Some(Arg::Many(to_strings(args))), ..self }
    }

    /// Sets the variable `key` to `value`, keeping the other variables.
    pub fn var(self, key: &str, value: &str) -> (r: Item)
        ensures
            str_view(r.variables) == str_view(self.variables).insert(key@, value@),
            self.variables.wf() ==> r.variables.wf(),
            r == (Item { variables: r.variables, ..self }),
    {
        let mut vars = self.variables;
        vars.put(key, value);
        Item { variables: vars, ..self }
    }

    /// Removes the variable `key`, if it is set.
    pub fn unset_var(self, key: &str) -> (r: Item)
        ensures
            r.variables@ == self.variables@.remove(key@),
            self.variables.wf() ==> r.variables.wf(),
            r == (Item { variables: r.variables, ..self }),
    {
        let mut vars = self.variables;
        vars.remove(key);
        Item { variables: vars, ..self }
    }

    /// Sets the unique identifier by which the launcher learns choices.
    pub fn uid(self, uid: &str) -> (r: Item)
        ensures
            opt_view(r.uid) == Some(uid@),
            r == (Item { uid: r.uid, ..self }),
    {
        Item { uid: Some(uid.to_owned()), ..self }
    }

    /// Sets whether the item can be run.
    pub fn valid(self, valid: bool) -> (r: Item)
        ensures
            r == (Item { valid: Some(valid), ..self }),
    {
        Item { valid: Some(valid), ..self }
    }

    /// Sets the icon.
    pub fn icon(self, icon: Icon) -> (r: Item)
        ensures
            r == (Item { icon: Some(icon), ..self }),
    {
        Item { icon: Some(icon), ..self }
    }

    /// Shows the system icon for files of type `filetype`.
    pub fn icon_for_filetype(self, filetype: &str) -> (r: Item)
        ensures
            r.icon matches Some(i) && i.type_ matches Some(t) && t@ == "filetype"@ && i.path@
                == filetype@,
            r == (Item { icon: r.icon, ..self }),
    {
        Item { icon: Some(Icon::for_filetype(filetype)), ..self }
    }

    /// Shows the image at `path_to_image`.
    pub fn icon_from_image(self, path_to_image: &str) -> (r: Item)
        ensures
            r.icon matches Some(i) && i.type_ is None && i.path@ == path_to_image@,
            r == (Item { icon: r.icon, ..self }),
    {
        Item { icon: Some(Icon::from_image(path_to_image)), ..self }
    }

    /// Adds `modifier` under its keys, replacing one with the same keys.
    pub fn modifier(self, modifier: Modifier) -> (r: Item)
        ensures
            r.modifiers@ == self.modifiers@.insert(modifier.keys@, modifier),
            self.modifiers.wf() ==> r.modifiers.wf(),
            r == (Item { modifiers: r.modifiers, ..self }),
    {
        let mut mods = self.modifiers;
        let keys = modifier.keys.clone();
        mods.insert(keys, modifier);
        Item { modifiers: mods, ..self }
    }

    /// Sets the text for autocompletion.
    pub fn autocomplete(self, autocomplete: &str) -> (r: Item)
        ensures
            opt_view(r.autocomplete) == Some(autocomplete@),
            r == (Item { autocomplete: r.autocomplete, ..self }),
    {
        Item { autocomplete: Some(autocomplete.to_owned()), ..self }
    }

    /// Sets the text that filtering matches instead of the title.
    pub fn matches(self, matches: &str) -> (r: Item)
        ensures
            opt_view(r.match_text) == Some(matches@),
            r == (Item { match_text: r.match_text, ..self }),
    {
        Item { match_text: Some(matches.to_owned()), ..self }
    }

    /// Sets the address shown in a quick look preview.
    pub fn quicklook_url(self, url: &str) -> (r: Item)
        ensures
            opt_view(r.quicklook_url) == Some(url@),
            r == (Item { quicklook_url: r.quicklook_url, ..self }),
    {
        Item { quicklook_url: Some(url.to_owned()), ..self }
    }

    /// Sets the text copied to the clipboard, keeping the large type text.
    pub fn copy_text(self, text: &str) -> (r: Item)
        ensures
            r.text matches Some(t) && opt_view(t.copy) == Some(text@) && t.large_type == (
            match self.text {
                Some(u) => u.large_type,
                None => None,
            }),
            r == (Item { text: r.text, ..self }),
    {
        let large_type = match self.text {
            Some(t) => t.large_type,
            None => None,
        };
        Item { text: Some(Text { copy: Some(text.to_owned()), large_type }), ..self }
    }

    /// Sets the text shown in large type, keeping the copied text.
    pub fn large_type_text(self, text: &str) -> (r: Item)
        ensures
            r.text matches Some(t) && opt_view(t.large_type) == Some(text@) && t.copy == (
            match self.text {
                Some(u) => u.copy,
                None => None,
            }),
            r == (Item { text: r.text, ..self }),
    {
        let copy = match self.text {
            Some(t) => t.copy,
            None => None,
        };
        Item { text: Some(Text { copy, large_type: Some(text.to_owned()) }), ..self }
    }

    /// Sets whether the item stays in front when results are filtered.
    pub fn sticky(self, is_sticky: bool) -> (r: Item)
        ensures
            r == (Item { sticky: is_sticky, ..self }),
    {
        Item { sticky: is_sticky, ..self }
    }
}

} // verus!
