use vstd::prelude::*;

use crate::error::PipelineError;
use crate::text::{line_views, same_text, split_on, split_text, trim, trimmed_of, upper_of, uppercase};

verus! {

/// The shortcut used when none is configured.
pub open spec fn default_shortcut() -> Seq<char> {
    "Ctrl+Shift+M"@
}

/// The configured shortcut, or `Ctrl+Shift+M` when there is none.
pub fn shortcut_or_default(configured: Option<String>) -> (r: String)
    ensures
        r@ == match configured {
            Some(s) => s@,
            None => default_shortcut(),
        },
{
    match configured {
        Some(s) => s,
        None => String::from_str("Ctrl+Shift+M"),
    }
}

pub open spec fn is_ascii_letter(c: char) -> bool {
    ('a' <= c && c <= 'z') || ('A' <= c && c <= 'Z')
}

/// A key name as the key-code table spells it: a single letter `X` becomes
/// `KeyX`; any other name stays as it is.
pub open spec fn key_code_name(k: Seq<char>) -> Seq<char> {
    if k.len() == 1 && is_ascii_letter(k[0]) {
        "Key"@ + k
    } else {
        k
    }
}

/// A shortcut token as it is compared: trimmed, then upper-cased.
pub open spec fn normalized(t: Seq<char>) -> Seq<char> {
    upper_of(trimmed_of(t))
}

/// Spells an already normalized key name as the key-code table does: a single
/// letter `X` becomes `KeyX`.
pub fn key_code_for(key: &str) -> (r: String)
    ensures
        r@ == key_code_name(key@),
{
    let n = key.unicode_len();
    if n == 1 {
        let c = key.get_char(0);
        if ('a' <= c && c <= 'z') || ('A' <= c && c <= 'Z') {
            return String::from_str("Key").concat(key);
        }
    }
    String::from_str(key)
}

/// Trims and upper-cases a key name, and prefixes a single letter with `Key`.
pub fn format_key_for_code(input_key: &str) -> (r: String)
    ensures
        r@ == key_code_name(normalized(input_key@)),
{
    let key_str = uppercase(trim(input_key));
    key_code_for(key_str.as_str())
}

/// The modifier keys of a shortcut.
#[derive(Debug, Clone, Copy, PartialEq, Eq, Structural)]
pub struct ModifierSet {
    pub control: bool,
    pub shift: bool,
    pub alt: bool,
    pub super_key: bool,
}

/// A parsed shortcut: its modifiers, and its key spelled as a key-code name.
#[derive(Debug)]
pub struct ParsedShortcut {
    pub modifiers: ModifierSet,
    pub key: String,
}

pub open spec fn no_modifiers() -> ModifierSet {
    ModifierSet { control: false, shift: false, alt: false, super_key: false }
}

/// Reads normalized tokens left to right: modifier names add to the set,
/// any other token becomes the key, the last one winning.
pub open spec fn read_tokens(tokens: Seq<Seq<char>>) -> (ModifierSet, Option<Seq<char>>)
    decreases tokens.len(),
{
    if tokens.len() == 0 {
        (no_modifiers(), None)
    } else {
        let (m, k) = read_tokens(tokens.drop_last());
        let t = tokens.last();
        if t == "CTRL"@ || t == "CONTROL"@ {
            (ModifierSet { control: true, ..m }, k)
        } else if t == "SHIFT"@ {
            (ModifierSet { shift: true, ..m }, k)
        } else if t == "ALT"@ {
            (ModifierSet { alt: true, ..m }, k)
        } else if t == "SUPER"@ || t == "WIN"@ || t == "CMD"@ || t == "COMMAND"@ {
            (ModifierSet { super_key: true, ..m }, k)
        } else {
            (m, Some(t))
        }
    }
}

/// The normalized tokens of a `+`-separated shortcut text.
pub open spec fn shortcut_tokens(s: Seq<char>) -> Seq<Seq<char>> {
    split_on(s, '+').map_values(|p: Seq<char>| normalized(p))
}

/// Reads already normalized tokens (trimmed, upper-cased): modifier names add
/// to the set, the last other token is the key.
///
/// Fails with `InvalidShortcutConfig` when no token names a key.
pub fn read_shortcut_tokens(tokens: &Vec<String>) -> (r: Result<ParsedShortcut, PipelineError>)
    ensures
        r is Err <==> read_tokens(line_views(tokens@)).1 is None,
        r is Err ==> r->Err_0 == PipelineError::InvalidShortcutConfig,
        r matches Ok(p) ==> {
            let (m, k) = read_tokens(line_views(tokens@));
            &&& p.modifiers == m
            &&& p.key@ == key_code_name(k->Some_0)
        },
{
    let ghost views = line_views(tokens@);
    let mut modifiers = ModifierSet { control: false, shift: false, alt: false, super_key: false };
    let mut key_part: Option<usize> = None;
    let mut i: usize = 0;
    while i < tokens.len()
        invariant
            i <= tokens@.len(),
            views == line_views(tokens@),
            key_part matches Some(k) ==> k < i,
            read_tokens(views.subrange(0, i as int)) == (modifiers, match key_part {
                Some(k) => Some(views[k as int]),
                None => None::<Seq<char>>,
            }),
        decreases tokens@.len() - i,
    {
        proof {
            let next = views.subrange(0, i as int + 1);
            assert(next.drop_last() =~= views.subrange(0, i as int));
            assert(next.last() == tokens@[i as int]@);
        }
        let p = tokens[i].as_str();
        if same_text(p, "CTRL") || same_text(p, "CONTROL") {
            modifiers.control = true;
        } else if same_text(p, "SHIFT") {
            modifiers.shift = true;
        } else if same_text(p, "ALT") {
            modifiers.alt = true;
        } else if same_text(p, "SUPER") || same_text(p, "WIN") || same_text(p, "CMD") || same_text(p, "COMMAND") {
            modifiers.super_key = true;
        } else {
            key_part = Some(i);
        }
        i = i + 1;
    }
    proof {
        assert(views.subrange(0, tokens@.len() as int) =~= views);
    }
    match key_part {
        Some(k) => Ok(ParsedShortcut { modifiers, key: key_code_for(tokens[k].as_str()) }),
        None => Err(PipelineError::InvalidShortcutConfig),
    }
}

/// Parses a shortcut such as `Ctrl+Shift+M` into its modifier set and key:
/// the text is split at `+` and each part trimmed and upper-cased.
///
/// Fails with `InvalidShortcutConfig` when no part names a key. Whether the
/// key names a real key code is for the caller's key table to decide.
pub fn parse_shortcut(shortcut: &str) -> (r: Result<ParsedShortcut, PipelineError>)
    ensures
        r is Err <==> read_tokens(shortcut_tokens(shortcut@)).1 is None,
        r is Err ==> r->Err_0 == PipelineError::InvalidShortcutConfig,
        r matches Ok(p) ==> {
            let (m, k) = read_tokens(shortcut_tokens(shortcut@));
            &&& p.modifiers == m
            &&& p.key@ == key_code_name(k->Some_0)
        },
{
    let parts = split_text(shortcut, '+');
    let mut tokens: Vec<String> = Vec::new();
    let mut i: usize = 0;
    while i < parts.len()
        invariant
            i <= parts@.len(),
            line_views(parts@) == split_on(shortcut@, '+'),
            tokens@.len() == i,
            forall|t: int| 0 <= t < i ==> (#[trigger] tokens@[t])@ == normalized(parts@[t]@),
        decreases parts@.len() - i,
    {
        tokens.push(uppercase(trim(parts[i].as_str())));
        i = i + 1;
    }
    proof {
        assert forall|t: int| 0 <= t < parts@.len() implies #[trigger] line_views(tokens@)[t] == shortcut_tokens(shortcut@)[t] by {
            assert(line_views(parts@)[t] == parts@[t]@);
        }
        assert(line_views(tokens@) =~= shortcut_tokens(shortcut@));
    }
    read_shortcut_tokens(&tokens)
}

} // verus!
