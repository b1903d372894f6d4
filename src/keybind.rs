//! The keybind record and the resolution of the configuration tiers.

use vstd::prelude::*;
use vstd::string::*;

verus! {

/// One keyboard-shortcut binding: the key combination, a short name and a
/// longer description.
pub struct Keybind {
    pub keys: String,
    pub name: String,
    pub desc: String,
}

impl Keybind {
    /// A binding made of the three given texts.
    pub fn new(keys: String, name: String, desc: String) -> (r: Keybind)
        ensures
            r.keys == keys,
            r.name == name,
            r.desc == desc,
    {
        Keybind { keys, name, desc }
    }

    /// A field-by-field copy of this binding.
    pub fn copy(&self) -> (r: Keybind)
        ensures
            r == *self,
    {
        Keybind { keys: self.keys.clone(), name: self.name.clone(), desc: self.desc.clone() }
    }
}

/// Directory name of the menu's configuration, under the user's config
/// directory and under the system-wide share directory.
pub const APP_DIR: &'static str = "nebula-keybind-menu";

/// File name of the configuration inside that directory.
pub const CONFIG_FILE: &'static str = "config.toml";

/// The system-wide configuration file, tried after the user's.
pub const SYSTEM_CONFIG_PATH: &'static str = "/usr/share/nebula-keybind-menu/config.toml";

/// A tier is accepted when its file was read and parsed and holds at least
/// one binding.
pub open spec fn accepted(tier: Option<Seq<Keybind>>) -> bool {
    tier is Some && tier->Some_0.len() > 0
}

/// The bindings chosen from the user tier and the system tier, in that
/// order; `None` when neither is accepted and the built-in defaults apply.
pub open spec fn resolve_tiers(user: Option<Seq<Keybind>>, system: Option<Seq<Keybind>>) -> Option<
    Seq<Keybind>,
> {
    if accepted(user) {
        user
    } else if accepted(system) {
        system
    } else {
        None
    }
}

/// The view of a parsed tier: `None` when it could not be read or parsed.
pub open spec fn tier_view(tier: Option<Vec<Keybind>>) -> Option<Seq<Keybind>> {
    match tier {
        Some(v) => Some(v@),
        None => None,
    }
}

/// `k` has the three given texts.
pub open spec fn has_texts(k: Keybind, keys: Seq<char>, name: Seq<char>, desc: Seq<char>) -> bool {
    k.keys@ == keys && k.name@ == name && k.desc@ == desc
}

/// `s` is the built-in default set of four sample bindings.
pub open spec fn is_default_set(s: Seq<Keybind>) -> bool {
    &&& s.len() == 4
    &&& has_texts(s[0], "SUPER + SPACE"@, "Launcher"@, "Open app launcher"@)
    &&& has_texts(s[1], "SUPER + B"@, "Web Browser"@, "Open default browser"@)
    &&& has_texts(s[2], "SUPER + ENTER"@, "Terminal"@, "Open terminal"@)
    &&& has_texts(s[3], "SUPER + Q"@, "Close Window"@, "Close focused window"@)
}

/// The path of the user's configuration file, as the components to join in
/// order: under `xdg` (the `XDG_CONFIG_HOME` variable) when it is set, else
/// under `.config` in `home` (the `HOME` variable), else none.
pub open spec fn user_config_of(xdg: Option<Seq<char>>, home: Option<Seq<char>>) -> Option<
    Seq<Seq<char>>,
> {
    match xdg {
        Some(x) => Some(seq![x, APP_DIR@, CONFIG_FILE@]),
        None => match home {
            Some(h) => Some(seq![h, ".config"@, APP_DIR@, CONFIG_FILE@]),
            None => None,
        },
    }
}

/// The views of a sequence of strings.
pub open spec fn strings_view(v: Seq<String>) -> Seq<Seq<char>> {
    v.map_values(|s: String| s@)
}

/// The built-in bindings, shown when no configuration tier is accepted.
pub fn default_keybinds() -> (r: Vec<Keybind>)
    ensures
        is_default_set(r@),
{
    let mut r: Vec<Keybind> = Vec::new();
    r.push(Keybind::new(
        String::from_str("SUPER + SPACE"),
        String::from_str("Launcher"),
        String::from_str("Open app launcher"),
    ));
    r.push(Keybind::new(
        String::from_str("SUPER + B"),
        String::from_str("Web Browser"),
        String::from_str("Open default browser"),
    ));
    r.push(Keybind::new(
        String::from_str("SUPER + ENTER"),
        String::from_str("Terminal"),
        String::from_str("Open terminal"),
    ));
    r.push(Keybind::new(
        String::from_str("SUPER + Q"),
        String::from_str("Close Window"),
        String::from_str("Close focused window"),
    ));
    r
}

/// Whether a parsed tier is accepted (see `accepted`).
pub fn tier_accepted(tier: &Option<Vec<Keybind>>) -> (r: bool)
    ensures
        r == accepted(tier_view(*tier)),
{
    match tier {
        Some(v) => v.len() > 0,
        None => false,
    }
}

/// The store, from the parsed user tier and the parsed system tier (`None`
/// where the file could not be read or parsed): the first accepted tier,
/// else the built-in defaults.
pub fn resolve_keybinds(user: Option<Vec<Keybind>>, system: Option<Vec<Keybind>>) -> (r: Vec<
    Keybind,
>)
    ensures
        resolve_tiers(tier_view(user), tier_view(system)) matches Some(s) ==> r@ == s,
        resolve_tiers(tier_view(user), tier_view(system)) is None ==> is_default_set(r@),
{
    if tier_accepted(&user) {
        match user {
            Some(v) => {
                return v;
            },
            None => {},
        }
    }
    if tier_accepted(&system) {
        match system {
            Some(v) => {
                return v;
            },
            None => {},
        }
    }
    default_keybinds()
}

/// The components of the user's configuration path (see `user_config_of`).
pub fn user_config_path(xdg: Option<String>, home: Option<String>) -> (r: Option<Vec<String>>)
    ensures
        match r {
            Some(v) => user_config_of(
                match xdg {
                    Some(x) => Some(x@),
                    None => None,
                },
                match home {
                    Some(h) => Some(h@),
                    None => None,
                },
            ) == Some(strings_view(v@)),
            None => xdg is None && home is None,
        },
{
    let mut parts: Vec<String> = Vec::new();
    match xdg {
        Some(x) => {
            parts.push(x);
        },
        None => match home {
            Some(h) => {
                parts.push(h);
                parts.push(String::from_str(".config"));
            },
            None => {
                return None;
            },
        },
    }
    parts.push(String::from_str(APP_DIR));
    parts.push(String::from_str(CONFIG_FILE));
    proof {
        assert(strings_view(parts@) =~= user_config_of(
            match xdg {
                Some(x) => Some(x@),
                None => None,
            },
            match home {
                Some(h) => Some(h@),
                None => None,
            },
        )->Some_0);
    }
    Some(parts)
}

/// A user file that parses to a non-empty list wins, whatever the system
/// tier holds.
pub proof fn lemma_user_tier_wins(user: Seq<Keybind>, system: Option<Seq<Keybind>>)
    requires
        user.len() > 0,
    ensures
        resolve_tiers(Some(user), system) == Some(user),
{
}

/// When neither tier is accepted the defaults apply.
pub proof fn lemma_defaults_when_no_tier(user: Option<Seq<Keybind>>, system: Option<Seq<Keybind>>)
    requires
        !accepted(user),
        !accepted(system),
    ensures
        resolve_tiers(user, system) is None,
{
}

} // verus!
