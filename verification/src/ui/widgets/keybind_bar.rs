//! Keybind bar: the global keybinds on the first line, and on the second the keybinds
//! of the current context, or a context message in their place.

use vstd::prelude::*;

verus! {

/// Scope of a keybind.
#[derive(Debug, Clone, Copy, PartialEq, Eq, Structural)]
pub enum KeybindScope {
    /// Available on every screen.
    Global,
    /// Available on the current screen only.
    Context,
}

/// A single keybind.
#[derive(Debug, Clone)]
pub struct Keybind {
    /// The key, as shown in brackets.
    pub key: String,
    /// What the key does.
    pub description: String,
    /// Where the key is available.
    pub scope: KeybindScope,
}

/// Keybind bar component for displaying global and context-specific keybinds.
#[derive(Debug, Clone)]
pub struct KeybindBar {
    /// Keybinds shown on the first line.
    pub global_binds: Vec<Keybind>,
    /// Keybinds shown on the second line.
    pub context_binds: Vec<Keybind>,
    /// Message shown on the second line in place of the context keybinds.
    pub context_message: Option<String>,
}

/// A keybind as its key, its description and its scope.
pub open spec fn keybind_view(k: Keybind) -> (Seq<char>, Seq<char>, KeybindScope) {
    (k.key@, k.description@, k.scope)
}

/// The views of a list of keybinds.
pub open spec fn keybind_views(v: Seq<Keybind>) -> Seq<(Seq<char>, Seq<char>, KeybindScope)> {
    v.map_values(|k: Keybind| keybind_view(k))
}

/// The five global keybinds: next, previous, window switcher, quit and back.
pub open spec fn default_global_keybinds() -> Seq<(Seq<char>, Seq<char>, KeybindScope)> {
    seq![
        ("Tab"@, "Nächster"@, KeybindScope::Global),
        ("Shift+Tab"@, "Vorheriger"@, KeybindScope::Global),
        ("^"@, "Window Switcher"@, KeybindScope::Global),
        ("Shift+Q"@, "Beenden"@, KeybindScope::Global),
        ("Esc"@, "Zurück (3x=Dashboard)"@, KeybindScope::Global),
    ]
}

/// The pieces of text a line of keybinds consists of, each with whether it is drawn
/// in the keybind colour: per keybind `[key]`, a blank and the description, and two
/// blanks between keybinds.
pub open spec fn keybind_pieces(binds: Seq<Keybind>) -> Seq<(Seq<char>, bool)>
    decreases binds.len(),
{
    if binds.len() == 0 {
        Seq::empty()
    } else {
        let k = binds.last();
        let sep: Seq<(Seq<char>, bool)> = if binds.len() > 1 { seq![("  "@, false)] } else { Seq::empty() };
        keybind_pieces(binds.drop_last()) + sep + seq![
            (seq!['['] + k.key@ + seq![']'], true),
            (" "@, false),
            (k.description@, true),
        ]
    }
}

/// A keybind available on every screen.
fn global_bind(key: &str, description: &str) -> (r: Keybind)
    ensures
        keybind_view(r) == (key@, description@, KeybindScope::Global),
{
    Keybind { key: key.to_owned(), description: description.to_owned(), scope: KeybindScope::Global }
}

impl KeybindBar {
    /// A bar with the global keybinds and no context.
    pub fn new() -> (r: Self)
        ensures
            keybind_views(r.global_binds@) == default_global_keybinds(),
            r.context_binds@.len() == 0,
            r.context_message.is_none(),
    {
        KeybindBar {
            global_binds: Self::default_global_binds(),
            context_binds: Vec::new(),
            context_message: None,
        }
    }

    /// The global keybinds that are always visible.
    pub fn default_global_binds() -> (r: Vec<Keybind>)
        ensures
            keybind_views(r@) == default_global_keybinds(),
    {
        let r = vec![
            global_bind("Tab", "Nächster"),
            global_bind("Shift+Tab", "Vorheriger"),
            global_bind("^", "Window Switcher"),
            global_bind("Shift+Q", "Beenden"),
            global_bind("Esc", "Zurück (3x=Dashboard)"),
        ];
        assert(keybind_views(r@) =~= default_global_keybinds());
        r
    }

    /// Shows `binds` on the second line, dropping any context message.
    pub fn set_context_binds(&mut self, binds: Vec<Keybind>)
        ensures
            *final(self) == (KeybindBar { context_binds: binds, context_message: None, ..*old(self) }),
    {
        self.context_binds = binds;
        self.context_message = None;
    }

    /// Shows `message` on the second line in place of the context keybinds.
    pub fn set_context_message(&mut self, message: String)
        ensures
            *final(self) == (KeybindBar { context_message: Some(message), ..*old(self) }),
    {
        self.context_message = Some(message);
    }

    /// Shows the context keybinds again.
    pub fn clear_context_message(&mut self)
        ensures
            *final(self) == (KeybindBar { context_message: None, ..*old(self) }),
    {
        self.context_message = None;
    }

    /// The pieces of text of a line of keybinds (see `keybind_pieces`).
    pub fn format_keybinds(binds: &Vec<Keybind>) -> (r: Vec<(String, bool)>)
        ensures
            r@.map_values(|p: (String, bool)| (p.0@, p.1)) == keybind_pieces(binds@),
    {
        let mut out: Vec<(String, bool)> = Vec::new();
        let mut i: usize = 0;
        while i < binds.len()
            invariant
                i <= binds.len(),
                out@.map_values(|p: (String, bool)| (p.0@, p.1)) == keybind_pieces(binds@.take(i as int)),
            decreases binds.len() - i,
        {
            let ghost before = out@;
            if i > 0 {
                out.push(("  ".to_owned(), false));
            }
            let ghost mid = out@;
            let mut key = "[".to_owned();
            key.append(binds[i].key.as_str());
            key.append("]");
            let ghost key_view = key@;
            out.push((key, true));
            out.push((" ".to_owned(), false));
            out.push((binds[i].description.clone(), true));
            proof {
                reveal_strlit("[");
                reveal_strlit("]");
                let k = binds@[i as int];
                let t = binds@.take(i + 1);
                assert(t.drop_last() =~= binds@.take(i as int));
                assert(t.last() == k);
                let sep: Seq<(Seq<char>, bool)> = if i > 0 { seq![("  "@, false)] } else { Seq::empty() };
                let added: Seq<(Seq<char>, bool)> = sep + seq![
                    (seq!['['] + k.key@ + seq![']'], true),
                    (" "@, false),
                    (k.description@, true),
                ];
                assert(keybind_pieces(t) == keybind_pieces(binds@.take(i as int)) + added);
                let f = |p: (String, bool)| (p.0@, p.1);
                assert(key_view == seq!['['] + k.key@ + seq![']']);
                assert(mid.map_values(f) =~= before.map_values(f) + sep);
                assert(out@.len() == mid.len() + 3);
                assert(out@.map_values(f) =~= before.map_values(f) + added);
            }
            i = i + 1;
        }
        assert(binds@.take(binds.len() as int) =~= binds@);
        out
    }
}

impl Default for KeybindBar {
    fn default() -> (r: Self)
        ensures
            keybind_views(r.global_binds@) == default_global_keybinds(),
            r.context_binds@.len() == 0,
            r.context_message.is_none(),
    {
        Self::new()
    }
}

} // verus!
