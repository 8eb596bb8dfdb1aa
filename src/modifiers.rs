//! Alternative actions of an item, chosen with modifier keys held down.
use vstd::prelude::*;

use crate::chars::{opt_view, push_str, strs_view, to_strings};
use crate::string_map::{str_view, StringMap};
use crate::{Arg, Icon};

verus! {

/// One of the modifier keys.
#[derive(Debug, Clone, Copy, PartialEq, Eq, Hash)]
pub enum Key {
    Cmd,
    Ctrl,
    Alt,
    Shift,
    Fn,
}

/// The name under which a key stands in an item's `mods` object.
pub open spec fn key_name(k: Key) -> Seq<char> {
    match k {
        Key::Cmd => "cmd"@,
        Key::Ctrl => "ctrl"@,
        Key::Alt => "alt"@,
        Key::Shift => "shift"@,
        Key::Fn => "fn"@,
    }
}

/// The names of `keys`, joined by `+`.
pub open spec fn combo_name(keys: Seq<Key>) -> Seq<char>
    decreases keys.len(),
{
    if keys.len() == 0 {
        Seq::empty()
    } else if keys.len() == 1 {
        key_name(keys[0])
    } else {
        combo_name(keys.drop_last()) + "+"@ + key_name(keys.last())
    }
}

impl Key {
    /// The key's name.
    pub fn name(&self) -> (r: &'static str)
        ensures
            r@ == key_name(*self),
    {
        match self {
            Key::Cmd => "cmd",
            Key::Ctrl => "ctrl",
            Key::Alt => "alt",
            Key::Shift => "shift",
            Key::Fn => "fn",
        }
    }

    /// The key's name, as an owned string.
    pub fn to_string(&self) -> (r: String)
        ensures
            r@ == key_name(*self),
    {
        self.name().to_owned()
    }
}

/// The entry of an item's `mods` object for one key or combination of keys.
/// `keys` names the combination; the other fields replace those of the item
/// while the keys are held.
#[derive(Debug, Clone, Default, PartialEq, Eq)]
pub struct Modifier {
    pub keys: String,
    pub subtitle: Option<String>,
    pub arg: Option<Arg>,
    pub icon: Option<Icon>,
    pub variables: Option<StringMap<String>>,
    pub autocomplete: Option<String>,
    pub valid: Option<bool>,
}

impl Modifier {
    /// Every field but `keys` is unset.
    pub open spec fn is_bare(&self) -> bool {
        &&& self.subtitle is None
        &&& self.arg is None
        &&& self.icon is None
        &&& self.variables is None
        &&& self.autocomplete is None
        &&& self.valid is None
    }

    /// A modifier for a single key.
    pub fn new(key: Key) -> (r: Modifier)
        ensures
            r.keys@ == key_name(key),
            r.is_bare(),
    {
        Modifier {
            keys: key.to_string(),
            subtitle: None,
            arg: None,
            icon: None,
            variables: None,
            autocomplete: None,
            valid: None,
        }
    }

    /// A modifier for keys held together.
    pub fn new_combo(keys: &[Key]) -> (r: Modifier)
        ensures
            r.keys@ == combo_name(keys@),
            r.is_bare(),
    {
        let mut name = String::new();
        let mut i: usize = 0;
        while i < keys.len()
            invariant
                i <= keys@.len(),
                name@ == combo_name(keys@.take(i as int)),
            decreases keys.len() - i,
        {
            if i > 0 {
                push_str(&mut name, "+");
            }
            push_str(&mut name, keys[i].name());
            proof {
                let t = keys@.take(i + 1);
                assert(t.drop_last() =~= keys@.take(i as int));
                assert(t.last() == keys@[i as int]);
                if i == 0 {
                    assert(keys@.take(0) =~= Seq::<Key>::empty());
                    assert(name@ =~= key_name(keys@[0]));
                }
            }
            i += 1;
        }
        assert(keys@.take(keys@.len() as int) =~= keys@);
        Modifier {
            keys: name,
            subtitle: None,
            arg: None,
            icon: None,
            variables: None,
            autocomplete: None,
            valid: None,
        }
    }

    /// Sets the subtitle.
    pub fn subtitle(self, subtitle: &str) -> (r: Modifier)
        ensures
            opt_view(r.subtitle) == Some(subtitle@),
            r == (Modifier { subtitle: r.subtitle, ..self }),
    {
        Modifier { subtitle: Some(subtitle.to_owned()), ..self }
    }

    /// Sets a single argument.
    pub fn arg(self, arg: &str) -> (r: Modifier)
        ensures
            r.arg matches Some(Arg::One(a)) && a@ == arg@,
            r == (Modifier { arg: r.arg, ..self }),
    {
        Modifier { arg: Some(Arg::One(arg.to_owned())), ..self }
    }

    /// Sets several arguments.
    pub fn args(self, args: &[&str]) -> (r: Modifier)
        ensures
            r.arg matches Some(Arg::Many(v)) && strs_view(v@) == args@.map_values(|s: &str| s@),
            r == (Modifier { arg: r.arg, ..self }),
    {
        Modifier { arg: Some(Arg::Many(to_strings(args))), ..self }
    }

    /// Sets the icon.
    pub fn icon(self, icon: Icon) -> (r: Modifier)
        ensures
            r == (Modifier { icon: Some(icon), ..self }),
    {
        Modifier { icon: Some(icon), ..self }
    }

    /// Shows the system icon for files of type `filetype`.
    pub fn icon_for_filetype(self, filetype: &str) -> (r: Modifier)
        ensures
            r.icon matches Some(i) && i.type_ matches Some(t) && t@ == "filetype"@ && i.path@
                == filetype@,
            r == (Modifier { icon: r.icon, ..self }),
    {
        Modifier { icon: Some(Icon::for_filetype(filetype)), ..self }
    }

    /// Shows the image at `path_to_image`.
    pub fn icon_from_image(self, path_to_image: &str) -> (r: Modifier)
        ensures
            r.icon matches Some(i) && i.type_ is None && i.path@ == path_to_image@,
            r == (Modifier { icon: r.icon, ..self }),
    {
        Modifier { icon: Some(Icon::from_image(path_to_image)), ..self }
    }

    /// Sets the variable `key` to `value`, keeping the other variables.
    pub fn var(self, key: &str, value: &str) -> (r: Modifier)
        ensures
            r.variables matches Some(v) && str_view(v) == (match self.variables {
                Some(old_v) => str_view(old_v),
                None => Map::empty(),
            }).insert(key@, value@),
            (self.variables matches Some(v) ==> v.wf()) ==> r.variables->0.wf(),
            r == (Modifier { variables: r.variables, ..self }),
    {
        let mut vars = match self.variables {
            Some(v) => v,
            None => StringMap::new(),
        };
        proof {
            if self.variables is None {
                assert(str_view(vars) =~= Map::<Seq<char>, Seq<char>>::empty());
            }
        }
        vars.put(key, value);
        Modifier { variables: Some(vars), ..self }
    }

    /// Sets the text for autocompletion.
    pub fn autocomplete(self, autocomplete: &str) -> (r: Modifier)
        ensures
            opt_view(r.autocomplete) == Some(autocomplete@),
            r == (Modifier { autocomplete: r.autocomplete, ..self }),
    {
        Modifier { autocomplete: Some(autocomplete.to_owned()), ..self }
    }

    /// Sets whether the modifier's action can be run.
    pub fn valid(self, valid: bool) -> (r: Modifier)
        ensures
            r == (Modifier { valid: Some(valid), ..self }),
    {
        Modifier { valid: Some(valid), ..self }
    }
}

} // verus!
