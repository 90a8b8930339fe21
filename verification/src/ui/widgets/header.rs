//! Header widget: the application name and version on the left, and the current
//! screen name or the window switcher (previous | [current] | next) on the right.

use vstd::prelude::*;

verus! {

/// Index of the window after `index` in a list of `len` windows, wrapping around.
pub open spec fn switcher_next(index: int, len: int) -> int {
    (index + 1) % len
}

/// Index of the window before `index` in a list of `len` windows, wrapping around.
pub open spec fn switcher_prev(index: int, len: int) -> int {
    if index == 0 { len - 1 } else { index - 1 }
}

/// The names of the four windows, in the order of the window switcher.
pub open spec fn default_window_names() -> Seq<Seq<char>> {
    seq!["Dashboard"@, "Verleih-Management"@, "Finanzen"@, "Verwaltung"@]
}

/// The views of a list of strings.
pub open spec fn string_views(v: Seq<String>) -> Seq<Seq<char>> {
    v.map_values(|s: String| s@)
}

/// The four window names as owned strings.
fn default_window_list() -> (r: Vec<String>)
    ensures
        string_views(r@) == default_window_names(),
{
    let r = vec![
        "Dashboard".to_owned(),
        "Verleih-Management".to_owned(),
        "Finanzen".to_owned(),
        "Verwaltung".to_owned(),
    ];
    assert(string_views(r@) =~= default_window_names());
    r
}

/// The Header widget displays navigation information at the top of the screen.
#[derive(Debug, Clone)]
pub struct Header {
    /// Application name.
    pub app_name: String,
    /// Application version string.
    pub version: String,
    /// Current screen name.
    pub current_screen: String,
    /// Whether the window switcher is currently active.
    pub window_switcher_active: bool,
    /// List of all available windows/screens.
    pub window_list: Vec<String>,
    /// Index of the currently selected window in the window list.
    pub selected_window_index: usize,
}

impl Default for Header {
    /// The header of version 2.1.0 on the dashboard, with the four windows.
    fn default() -> (r: Self)
        ensures
            r.app_name@ == "Schließfach-Manager"@,
            r.version@ == "2.1.0"@,
            r.current_screen@ == "Dashboard"@,
            !r.window_switcher_active,
            string_views(r.window_list@) == default_window_names(),
            r.selected_window_index == 0,
    {
        Header {
            app_name: "Schließfach-Manager".to_owned(),
            version: "2.1.0".to_owned(),
            current_screen: "Dashboard".to_owned(),
            window_switcher_active: false,
            window_list: default_window_list(),
            selected_window_index: 0,
        }
    }
}

impl Header {
    /// The default header with the given version.
    pub fn new(version: &str) -> (r: Self)
        ensures
            r.app_name@ == "Schließfach-Manager"@,
            r.version@ == version@,
            r.current_screen@ == "Dashboard"@,
            !r.window_switcher_active,
            string_views(r.window_list@) == default_window_names(),
            r.selected_window_index == 0,
    {
        Header { version: version.to_owned(), ..Header::default() }
    }

    /// Sets the application name.
    pub fn app_name(self, name: &str) -> (r: Self)
        ensures
            r.app_name@ == name@,
            r.version == self.version,
            r.current_screen == self.current_screen,
            r.window_switcher_active == self.window_switcher_active,
            r.window_list == self.window_list,
            r.selected_window_index == self.selected_window_index,
    {
        Header { app_name: name.to_owned(), ..self }
    }

    /// Sets the current screen name.
    pub fn current_screen(self, screen: &str) -> (r: Self)
        ensures
            r.current_screen@ == screen@,
            r.app_name == self.app_name,
            r.version == self.version,
            r.window_switcher_active == self.window_switcher_active,
            r.window_list == self.window_list,
            r.selected_window_index == self.selected_window_index,
    {
        Header { current_screen: screen.to_owned(), ..self }
    }

    /// Activates or deactivates the window switcher mode.
    pub fn window_switcher_active(self, active: bool) -> (r: Self)
        ensures
            r == (Header { window_switcher_active: active, ..self }),
    {
        Header { window_switcher_active: active, ..self }
    }

    /// Sets the list of available windows.
    pub fn window_list(self, list: Vec<String>) -> (r: Self)
        ensures
            r == (Header { window_list: list, ..self }),
    {
        Header { window_list: list, ..self }
    }

    /// Sets the currently selected window index.
    pub fn selected_window_index(self, index: usize) -> (r: Self)
        ensures
            r == (Header { selected_window_index: index, ..self }),
    {
        Header { selected_window_index: index, ..self }
    }

    /// The name of the window before the selected one, wrapping around; empty when
    /// there are no windows.
    pub fn prev_window(&self) -> (r: &str)
        requires
            self.window_list.len() == 0 || self.selected_window_index <= self.window_list.len(),
        ensures
            r@ == (if self.window_list.len() == 0 {
                Seq::<char>::empty()
            } else {
                self.window_list@[switcher_prev(self.selected_window_index as int, self.window_list.len() as int)]@
            }),
    {
        if self.window_list.len() == 0 {
            proof {
                reveal_strlit("");
            }
            return "";
        }
        let idx = if self.selected_window_index == 0 {
            self.window_list.len() - 1
        } else {
            self.selected_window_index - 1
        };
        self.window_list[idx].as_str()
    }

    /// The name of the selected window (the last one when the index lies past the
    /// end); empty when there are no windows.
    pub fn current_window(&self) -> (r: &str)
        ensures
            r@ == (if self.window_list.len() == 0 {
                Seq::<char>::empty()
            } else if self.selected_window_index < self.window_list.len() {
                self.window_list@[self.selected_window_index as int]@
            } else {
                self.window_list@.last()@
            }),
    {
        if self.window_list.len() == 0 {
            proof {
                reveal_strlit("");
            }
            return "";
        }
        let last = self.window_list.len() - 1;
        let idx = if self.selected_window_index < last { self.selected_window_index } else { last };
        self.window_list[idx].as_str()
    }

    /// The name of the window after the selected one, wrapping around; empty when
    /// there are no windows.
    pub fn next_window(&self) -> (r: &str)
        requires
            self.window_list.len() == 0 || self.selected_window_index < usize::MAX,
        ensures
            r@ == (if self.window_list.len() == 0 {
                Seq::<char>::empty()
            } else {
                self.window_list@[switcher_next(self.selected_window_index as int, self.window_list.len() as int)]@
            }),
    {
        if self.window_list.len() == 0 {
            proof {
                reveal_strlit("");
            }
            return "";
        }
        let idx = (self.selected_window_index + 1) % self.window_list.len();
        self.window_list[idx].as_str()
    }
}

/// Helper struct to manage window switcher state.
#[derive(Debug, Clone, Default)]
pub struct WindowSwitcherState {
    /// Whether the window switcher is currently active.
    pub active: bool,
    /// Index of the currently selected window.
    pub selected_index: usize,
    /// List of available window names.
    pub window_names: Vec<String>,
}

impl WindowSwitcherState {
    /// An inactive switcher over the four windows, with the first one selected.
    pub fn new() -> (r: Self)
        ensures
            !r.active,
            r.selected_index == 0,
            string_views(r.window_names@) == default_window_names(),
    {
        WindowSwitcherState { active: false, selected_index: 0, window_names: default_window_list() }
    }

    /// Activates the switcher at the given window index, clamped to the last window.
    pub fn activate(&mut self, current_screen_index: usize)
        ensures
            final(self).active,
            final(self).window_names == old(self).window_names,
            final(self).selected_index == (if old(self).window_names.len() == 0 {
                0
            } else if current_screen_index < old(self).window_names.len() {
                current_screen_index as int
            } else {
                old(self).window_names.len() - 1
            }),
    {
        self.active = true;
        let last = if self.window_names.len() == 0 { 0 } else { self.window_names.len() - 1 };
        self.selected_index = if current_screen_index < last { current_screen_index } else { last };
    }

    /// Deactivates the switcher.
    pub fn deactivate(&mut self)
        ensures
            *final(self) == (WindowSwitcherState { active: false, ..*old(self) }),
    {
        self.active = false;
    }

    /// Selects the next window, wrapping around; nothing changes without windows.
    pub fn select_next(&mut self)
        requires
            old(self).window_names.len() == 0 || old(self).selected_index < usize::MAX,
        ensures
            final(self).active == old(self).active,
            final(self).window_names == old(self).window_names,
            final(self).selected_index == (if old(self).window_names.len() == 0 {
                old(self).selected_index as int
            } else {
                switcher_next(old(self).selected_index as int, old(self).window_names.len() as int)
            }),
    {
        if self.window_names.len() > 0 {
            self.selected_index = (self.selected_index + 1) % self.window_names.len();
        }
    }

    /// Selects the previous window, wrapping around; nothing changes without windows.
    pub fn select_prev(&mut self)
        ensures
            final(self).active == old(self).active,
            final(self).window_names == old(self).window_names,
            final(self).selected_index == (if old(self).window_names.len() == 0 {
                old(self).selected_index as int
            } else {
                switcher_prev(old(self).selected_index as int, old(self).window_names.len() as int)
            }),
    {
        if self.window_names.len() > 0 {
            self.selected_index = if self.selected_index == 0 {
                self.window_names.len() - 1
            } else {
                self.selected_index - 1
            };
        }
    }

    /// The name of the selected window, if the index points at one.
    pub fn selected_window(&self) -> (r: Option<&str>)
        ensures
            r matches Some(s) ==> self.selected_index < self.window_names.len()
                && s@ == self.window_names@[self.selected_index as int]@,
            r is None <==> self.selected_index >= self.window_names.len(),
    {
        if self.selected_index < self.window_names.len() {
            Some(self.window_names[self.selected_index].as_str())
        } else {
            None
        }
    }
}

/// Moving the selection of a window switcher forward and then back, or back and then
/// forward, returns to the window one started from.
pub proof fn switcher_next_prev_inverse(index: int, len: int)
    requires
        0 <= index < len,
    ensures
        switcher_prev(switcher_next(index, len), len) == index,
        switcher_next(switcher_prev(index, len), len) == index,
        0 <= switcher_next(index, len) < len,
        0 <= switcher_prev(index, len) < len,
{
    if index + 1 < len {
        vstd::arithmetic::div_mod::lemma_small_mod((index + 1) as nat, len as nat);
    } else {
        vstd::arithmetic::div_mod::lemma_mod_self_0(len);
    }
    if index == 0 {
        vstd::arithmetic::div_mod::lemma_mod_self_0(len);
    } else {
        vstd::arithmetic::div_mod::lemma_small_mod(index as nat, len as nat);
    }
}

} // verus!
