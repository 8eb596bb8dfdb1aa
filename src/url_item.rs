//! Items that stand for a link, with actions that copy the link.
use vstd::prelude::*;

use crate::chars::{opt_view, push_str};
use crate::modifiers::combo_name;
use crate::string_map::{str_view, StringMap};
use crate::{Arg, Icon, Item, Key, Modifier};

verus! {

/// A link to show as an item. Copying it as a link uses `title`, or
/// `short_title` and `long_title` with more keys held; `display_title`
/// only changes what the list shows.
#[derive(Debug, Default, Clone, PartialEq, Eq)]
pub struct URLItem {
    pub title: String,
    pub subtitle: Option<String>,
    pub url: String,
    pub short_title: Option<String>,
    pub long_title: Option<String>,
    pub icon: Option<Icon>,
    pub display_title: Option<String>,
    pub copy_text: Option<String>,
    pub arg: Option<String>,
    pub variables: StringMap<String>,
}

/// The subtitle of a modifier that copies a link labelled `label`, as
/// Markdown or as rich text.
pub open spec fn copy_link_subtitle(markdown: bool, label: Seq<char>) -> Seq<char> {
    if markdown {
        "Copy Markdown Link '"@ + label + "'"@
    } else {
        "Copy Rich Text Link '"@ + label + "'"@
    }
}

/// `m` is the modifier under `keys` that copies the link to `url` labelled
/// `label`: it runs `run` with the variables that name the format, the
/// label and the address, and has `valid` as its validity.
pub open spec fn is_copy_link_modifier(
    m: Modifier,
    keys: Seq<char>,
    markdown: bool,
    label: Seq<char>,
    url: Seq<char>,
    valid: Option<bool>,
) -> bool {
    &&& m.keys@ == keys
    &&& opt_view(m.subtitle) == Some(copy_link_subtitle(markdown, label))
    &&& m.arg matches Some(Arg::One(a)) && a@ == "run"@
    &&& m.icon is None
    &&& m.autocomplete is None
    &&& m.valid == valid
    &&& m.variables matches Some(v) && v.wf() && str_view(v) == map![
        "ALFRUSCO_COMMAND"@ => if markdown { "markdown"@ } else { "richtext"@ },
        "TITLE"@ => label,
        "URL"@ => url,
    ]
}

fn copy_link_modifier(keys: &[Key], markdown: bool, label: &str, url: &str, valid: Option<bool>) -> (r: Modifier)
    ensures
        is_copy_link_modifier(r, combo_name(keys@), markdown, label@, url@, valid),
{
    let mut sub = if markdown {
        "Copy Markdown Link '".to_owned()
    } else {
        "Copy Rich Text Link '".to_owned()
    };
    push_str(&mut sub, label);
    push_str(&mut sub, "'");
    let m = Modifier::new_combo(keys).subtitle(sub.as_str()).arg("run").var(
        "ALFRUSCO_COMMAND",
        if markdown { "markdown" } else { "richtext" },
    ).var("TITLE", label).var("URL", url);
    proof {
        let v = m.variables->0;
        assert(str_view(v) =~= map![
            "ALFRUSCO_COMMAND"@ => if markdown { "markdown"@ } else { "richtext"@ },
            "TITLE"@ => label@,
            "URL"@ => url@,
        ]);
    }
    match valid {
        Some(b) => m.valid(b),
        None => m,
    }
}

impl URLItem {
    /// A link item with `title` and `url` and nothing else.
    pub fn new(title: &str, url: &str) -> (r: URLItem)
        ensures
            r.title@ == title@,
            r.url@ == url@,
            r.subtitle is None && r.short_title is None && r.long_title is None && r.icon is None
                && r.display_title is None && r.copy_text is None && r.arg is None,
            r.variables@ == Map::<Seq<char>, String>::empty(),
            r.variables.wf(),
    {
        URLItem {
            title: title.to_owned(),
            subtitle: None,
            url: url.to_owned(),
            short_title: None,
            long_title: None,
            icon: None,
            display_title: None,
            copy_text: None,
            arg: None,
            variables: StringMap::new(),
        }
    }

    /// Sets the subtitle shown instead of the address.
    pub fn subtitle(self, subtitle: &str) -> (r: URLItem)
        ensures
            opt_view(r.subtitle) == Some(subtitle@),
            r == (URLItem { subtitle: r.subtitle, ..self }),
    {
        URLItem { subtitle: Some(subtitle.to_owned()), ..self }
    }

    /// Sets the label of the links copied with shift held.
    pub fn short_title(self, short_title: &str) -> (r: URLItem)
        ensures
            opt_view(r.short_title) == Some(short_title@),
            r == (URLItem { short_title: r.short_title, ..self }),
    {
        URLItem { short_title: Some(short_title.to_owned()), ..self }
    }

    /// Shows the system icon for files of type `filetype`.
    pub fn icon_for_filetype(self, filetype: &str) -> (r: URLItem)
        ensures
            r.icon matches Some(i) && i.type_ matches Some(t) && t@ == "filetype"@ && i.path@
                == filetype@,
            r == (URLItem { icon: r.icon, ..self }),
    {
        URLItem { icon: Some(Icon::for_filetype(filetype)), ..self }
    }

    /// Shows the image at `path_to_image`.
    pub fn icon_from_image(self, path_to_image: &str) -> (r: URLItem)
        ensures
            r.icon matches Some(i) && i.type_ is None && i.path@ == path_to_image@,
            r == (URLItem { icon: r.icon, ..self }),
    {
        URLItem { icon: Some(Icon::from_image(path_to_image)), ..self }
    }

    /// Sets the title that the list shows, leaving the links' label.
    pub fn display_title(self, display_title: &str) -> (r: URLItem)
        ensures
            opt_view(r.display_title) == Some(display_title@),
            r == (URLItem { display_title: r.display_title, ..self }),
    {
        URLItem { display_title: Some(display_title.to_owned()), ..self }
    }

    /// Sets the label of the links copied with control held.
    pub fn long_title(self, long_title: &str) -> (r: URLItem)
        ensures
            opt_view(r.long_title) == Some(long_title@),
            r == (URLItem { long_title: r.long_title, ..self }),
    {
        URLItem { long_title: Some(long_title.to_owned()), ..self }
    }

    /// Sets the text copied instead of the address.
    pub fn copy_text(self, copy_text: &str) -> (r: URLItem)
        ensures
            opt_view(r.copy_text) == Some(copy_text@),
            r == (URLItem { copy_text: r.copy_text, ..self }),
    {
        URLItem { copy_text: Some(copy_text.to_owned()), ..self }
    }

    /// Sets the argument passed on instead of the address.
    pub fn arg(self, arg: &str) -> (r: URLItem)
        ensures
            opt_view(r.arg) == Some(arg@),
            r == (URLItem { arg: r.arg, ..self }),
    {
        URLItem { arg: Some(arg.to_owned()), ..self }
    }

    /// Sets the variable `key` to `value`.
    pub fn var(self, key: &str, value: &str) -> (r: URLItem)
        ensures
            str_view(r.variables) == str_view(self.variables).insert(key@, value@),
            self.variables.wf() ==> r.variables.wf(),
            r == (URLItem { variables: r.variables, ..self }),
    {
        let mut vars = self.variables;
        vars.put(key, value);
        URLItem { variables: vars, ..self }
    }

    /// The item that shows the link. Its title is the display title, else
    /// the title; subtitle, uid, argument and copied text default to the
    /// address; it can be run. Holding cmd copies a Markdown link, alt a
    /// rich text link, labelled with the title; with shift held too, or
    /// control, the label is the short or the long title, where set. The
    /// link item's own variables are the item's.
    pub fn to_item(self) -> (r: Item)
        ensures
            r.title@ == match self.display_title {
                Some(d) => d@,
                None => self.title@,
            },
            opt_view(r.subtitle) == Some(match self.subtitle {
                Some(s) => s@,
                None => self.url@,
            }),
            opt_view(r.uid) == Some(self.url@),
            r.arg matches Some(Arg::One(a)) && a@ == match self.arg {
                Some(x) => x@,
                None => self.url@,
            },
            r.text matches Some(t) && t.large_type is None && opt_view(t.copy) == Some(
                match self.copy_text {
                    Some(c) => c@,
                    None => self.url@,
                },
            ),
            r.valid == Some(true),
            r.icon == self.icon,
            r.variables == self.variables,
            r.modifiers.wf(),
            r.match_text is None && r.autocomplete is None && r.quicklook_url is None && !r.sticky,
            r.modifiers@.dom() == set!["cmd"@, "alt"@].union(
                if self.short_title is Some { set!["cmd+shift"@, "alt+shift"@] } else { Set::empty() },
            ).union(
                if self.long_title is Some { set!["cmd+ctrl"@, "alt+ctrl"@] } else { Set::empty() },
            ),
            is_copy_link_modifier(r.modifiers@["cmd"@], "cmd"@, true, self.title@, self.url@, None),
            is_copy_link_modifier(r.modifiers@["alt"@], "alt"@, false, self.title@, self.url@, None),
            self.short_title matches Some(s) ==> is_copy_link_modifier(
                r.modifiers@["cmd+shift"@],
                "cmd+shift"@,
                true,
                s@,
                self.url@,
                Some(true),
            ) && is_copy_link_modifier(
                r.modifiers@["alt+shift"@],
                "alt+shift"@,
                false,
                s@,
                self.url@,
                Some(true),
            ),
            self.long_title matches Some(l) ==> is_copy_link_modifier(
                r.modifiers@["cmd+ctrl"@],
                "cmd+ctrl"@,
                true,
                l@,
                self.url@,
                Some(true),
            ) && is_copy_link_modifier(
                r.modifiers@["alt+ctrl"@],
                "alt+ctrl"@,
                false,
                l@,
                self.url@,
                Some(true),
            ),
    {
        let url = self.url.as_str();
        let title = self.title.as_str();
        let shown = match &self.display_title {
            Some(d) => d.as_str(),
            None => title,
        };
        let subtitle = match &self.subtitle {
            Some(s) => s.as_str(),
            None => url,
        };
        let arg = match &self.arg {
            Some(a) => a.as_str(),
            None => url,
        };
        let copied = match &self.copy_text {
            Some(c) => c.as_str(),
            None => url,
        };
        let cmd_keys: Vec<Key> = vec![Key::Cmd];
        let alt_keys: Vec<Key> = vec![Key::Alt];
        proof {
            reveal_strlit("cmd");
            reveal_strlit("alt");
            assert(combo_name(cmd_keys@) =~= "cmd"@);
            assert(combo_name(alt_keys@) =~= "alt"@);
        }
        let mut item = Item::new(shown).subtitle(subtitle).uid(url).arg(arg).copy_text(copied).valid(
            true,
        ).modifier(copy_link_modifier(cmd_keys.as_slice(), true, title, url, None)).modifier(
            copy_link_modifier(alt_keys.as_slice(), false, title, url, None),
        );
        let ghost cmd_mod = item.modifiers@["cmd"@];
        let ghost alt_mod = item.modifiers@["alt"@];
        proof {
            assert("cmd"@ != "alt"@) by {
                assert("cmd"@[0] != "alt"@[0]);
            }
        }
        if let Some(s) = &self.short_title {
            let cs: Vec<Key> = vec![Key::Cmd, Key::Shift];
            let als: Vec<Key> = vec![Key::Alt, Key::Shift];
            proof {
                reveal_strlit("cmd+shift");
                reveal_strlit("alt+shift");
                reveal_strlit("shift");
                reveal_strlit("+");
                assert(cs@.drop_last() =~= seq![Key::Cmd]);
                assert(als@.drop_last() =~= seq![Key::Alt]);
                assert(combo_name(cs@.drop_last()) == "cmd"@) by {
                    reveal_strlit("cmd");
                    assert(combo_name(cs@.drop_last()) =~= "cmd"@);
                }
                assert("cmd"@ + "+"@ + "shift"@ =~= "cmd+shift"@);
                assert(combo_name(cs@) =~= "cmd+shift"@);
                assert(combo_name(als@.drop_last()) == "alt"@) by {
                    reveal_strlit("alt");
                    assert(combo_name(als@.drop_last()) =~= "alt"@);
                }
                assert("alt"@ + "+"@ + "shift"@ =~= "alt+shift"@);
                assert(combo_name(als@) =~= "alt+shift"@);
            }
            proof {
                reveal_strlit("alt+shift");
                reveal_strlit("cmd+shift");
                assert("alt+shift"@ != "cmd+shift"@) by {
                    assert("alt+shift"@[0] != "cmd+shift"@[0]);
                }
            }
            item = item.modifier(copy_link_modifier(cs.as_slice(), true, s.as_str(), url, Some(true))).modifier(
                copy_link_modifier(als.as_slice(), false, s.as_str(), url, Some(true)),
            );
        }
        let ghost before_long = item.modifiers@;
        proof {
            reveal_strlit("cmd+shift");
            reveal_strlit("alt+shift");
            reveal_strlit("cmd+ctrl");
            reveal_strlit("alt+ctrl");
            reveal_strlit("cmd");
            reveal_strlit("alt");
            assert("cmd+ctrl"@ != "cmd+shift"@ && "cmd+ctrl"@ != "alt+shift"@ && "alt+ctrl"@
                != "cmd+shift"@ && "alt+ctrl"@ != "alt+shift"@) by {
                assert("cmd+ctrl"@.len() != "cmd+shift"@.len());
            }
            assert("cmd+ctrl"@ != "cmd"@ && "cmd+ctrl"@ != "alt"@ && "alt+ctrl"@ != "cmd"@
                && "alt+ctrl"@ != "alt"@);
            assert("alt+ctrl"@ != "cmd+ctrl"@) by {
                assert("alt+ctrl"@[0] != "cmd+ctrl"@[0]);
            }
        }
        if let Some(l) = &self.long_title {
            let cc: Vec<Key> = vec![Key::Cmd, Key::Ctrl];
            let ac: Vec<Key> = vec![Key::Alt, Key::Ctrl];
            proof {
                reveal_strlit("cmd+ctrl");
                reveal_strlit("alt+ctrl");
                reveal_strlit("ctrl");
                reveal_strlit("+");
                assert(cc@.drop_last() =~= seq![Key::Cmd]);
                assert(ac@.drop_last() =~= seq![Key::Alt]);
                assert(combo_name(cc@.drop_last()) == "cmd"@) by {
                    reveal_strlit("cmd");
                    assert(combo_name(cc@.drop_last()) =~= "cmd"@);
                }
                assert("cmd"@ + "+"@ + "ctrl"@ =~= "cmd+ctrl"@);
                assert(combo_name(cc@) =~= "cmd+ctrl"@);
                assert(combo_name(ac@.drop_last()) == "alt"@) by {
                    reveal_strlit("alt");
                    assert(combo_name(ac@.drop_last()) =~= "alt"@);
                }
                assert("alt"@ + "+"@ + "ctrl"@ =~= "alt+ctrl"@);
                assert(combo_name(ac@) =~= "alt+ctrl"@);
            }
            proof {
                reveal_strlit("alt+ctrl");
                reveal_strlit("cmd+ctrl");
            }
            item = item.modifier(copy_link_modifier(cc.as_slice(), true, l.as_str(), url, Some(true))).modifier(
                copy_link_modifier(ac.as_slice(), false, l.as_str(), url, Some(true)),
            );
        }
        proof {
            if self.short_title is Some {
                assert(item.modifiers@["cmd+shift"@] == before_long["cmd+shift"@]);
                assert(item.modifiers@["alt+shift"@] == before_long["alt+shift"@]);
            }
        }
        let icon = self.icon;
        let variables = self.variables;
        let r = Item { icon, variables, ..item };
        assert(r.modifiers@.dom() =~= set!["cmd"@, "alt"@].union(
            if self.short_title is Some { set!["cmd+shift"@, "alt+shift"@] } else { Set::empty() },
        ).union(
            if self.long_title is Some { set!["cmd+ctrl"@, "alt+ctrl"@] } else { Set::empty() },
        ));
        r
    }
}

impl From<URLItem> for Item {
    fn from(url_item: URLItem) -> (r: Item) {
        url_item.to_item()
    }
}

/// The conversion is stated by `URLItem::to_item`; an item cannot be built
/// in a specification, so none is given here.
impl vstd::std_specs::convert::FromSpecImpl<URLItem> for Item {
    open spec fn obeys_from_spec() -> bool {
        false
    }

    open spec fn from_spec(url_item: URLItem) -> Item {
        choose|i: Item| i.title == url_item.title
    }
}

} // verus!
