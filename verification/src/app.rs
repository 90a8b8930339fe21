//! Screens and tabs of the application and how one moves between them.

use crate::ui::state::millis_between;
use crate::ui::widgets::header::{default_window_names, string_views, switcher_next, switcher_prev};
use crate::ui::widgets::status_bar::{escape_step, StatusBar, StatusLevel, StatusMessage, ESCAPES_TO_DASHBOARD};
use crate::calendar::{date_of, day_in_range, Date};
use crate::model::{BillingPeriod, Locker, Rental};
use crate::text::{nat_text, str_eq, u64_text};
use crate::ui::widgets::keybind_bar::{keybind_view, keybind_views, Keybind, KeybindBar, KeybindScope};
use crate::ui::widgets::wizard::{confirmed, moved_selection, WizardAction, WizardRenderer};
use vstd::prelude::*;

pub use crate::ui::state::InactivityState;

verus! {

/// Tabs inside the rental management screen.
#[derive(Debug, Clone, Copy, PartialEq, Eq, Structural)]
pub enum RentalTab {
    /// Search for a free locker and rent it.
    Search,
    /// All active rentals.
    List,
    /// Extend a rental.
    Extend,
    /// Return a locker.
    Return,
    /// Report damage.
    Damage,
}

/// Tabs inside the management screen.
#[derive(Debug, Clone, Copy, PartialEq, Eq, Structural)]
pub enum ManagementTab {
    /// The lockers.
    Lockers,
    /// The locations.
    Locations,
    /// The settings.
    Settings,
    /// The audit log.
    AuditLog,
}

/// Screens in the application.
#[derive(Debug, Clone, Copy, PartialEq, Eq, Structural)]
pub enum AppScreen {
    /// The start screen.
    Dashboard,
    /// Renting, extending and returning lockers, on a tab.
    RentalManagement(RentalTab),
    /// Payments and debts.
    Finances,
    /// Lockers, locations, settings and the audit log, on a tab.
    Management(ManagementTab),
    /// The screensaver.
    Screensaver,
}

/// Actions the app event loop can react to.
#[derive(Debug, Clone, Copy, PartialEq, Eq, Structural)]
pub enum AppAction {
    /// Keep running.
    Continue,
    /// Leave the application.
    Quit,
}

/// The rental tabs in the order of the tab bar.
pub open spec fn rental_tabs() -> Seq<RentalTab> {
    seq![RentalTab::Search, RentalTab::List, RentalTab::Extend, RentalTab::Return, RentalTab::Damage]
}

/// Position of a rental tab in the tab bar.
pub open spec fn rental_tab_index(t: RentalTab) -> int {
    match t {
        RentalTab::Search => 0,
        RentalTab::List => 1,
        RentalTab::Extend => 2,
        RentalTab::Return => 3,
        RentalTab::Damage => 4,
    }
}

/// The management tabs in the order of the tab bar.
pub open spec fn management_tabs() -> Seq<ManagementTab> {
    seq![ManagementTab::Lockers, ManagementTab::Locations, ManagementTab::Settings, ManagementTab::AuditLog]
}

/// Position of a management tab in the tab bar.
pub open spec fn management_tab_index(t: ManagementTab) -> int {
    match t {
        ManagementTab::Lockers => 0,
        ManagementTab::Locations => 1,
        ManagementTab::Settings => 2,
        ManagementTab::AuditLog => 3,
    }
}

impl RentalTab {
    /// Returns all rental tabs in order.
    pub fn all() -> (r: Vec<RentalTab>)
        ensures
            r@ == rental_tabs(),
    {
        let r = vec![RentalTab::Search, RentalTab::List, RentalTab::Extend, RentalTab::Return, RentalTab::Damage];
        assert(r@ =~= rental_tabs());
        r
    }

    /// Returns the display label for the tab.
    pub fn label(&self) -> (r: &'static str)
        ensures
            r@ == (match *self {
                RentalTab::Search => "Search"@,
                RentalTab::List => "List"@,
                RentalTab::Extend => "Extend"@,
                RentalTab::Return => "Return"@,
                RentalTab::Damage => "Damage"@,
            }),
    {
        match self {
            RentalTab::Search => "Search",
            RentalTab::List => "List",
            RentalTab::Extend => "Extend",
            RentalTab::Return => "Return",
            RentalTab::Damage => "Damage",
        }
    }
}

impl ManagementTab {
    /// Returns all management tabs in order.
    pub fn all() -> (r: Vec<ManagementTab>)
        ensures
            r@ == management_tabs(),
    {
        let r = vec![ManagementTab::Lockers, ManagementTab::Locations, ManagementTab::Settings, ManagementTab::AuditLog];
        assert(r@ =~= management_tabs());
        r
    }

    /// Returns the display label for the tab.
    pub fn label(&self) -> (r: &'static str)
        ensures
            r@ == (match *self {
                ManagementTab::Lockers => "Schließfächer"@,
                ManagementTab::Locations => "Standorte"@,
                ManagementTab::Settings => "Einstellungen"@,
                ManagementTab::AuditLog => "Audit Log"@,
            }),
    {
        match self {
            ManagementTab::Lockers => "Schließfächer",
            ManagementTab::Locations => "Standorte",
            ManagementTab::Settings => "Einstellungen",
            ManagementTab::AuditLog => "Audit Log",
        }
    }
}

/// Position of `current` in `tabs`, or 0 where it does not occur.
fn rental_tab_position(tabs: &Vec<RentalTab>, current: RentalTab) -> (r: usize)
    requires
        tabs.len() > 0,
    ensures
        r < tabs.len(),
        (exists|i: int| 0 <= i < tabs.len() && tabs@[i] == current) ==> tabs@[r as int] == current
            && forall|j: int| 0 <= j < r ==> tabs@[j] != current,
{
    let mut i: usize = 0;
    while i < tabs.len()
        invariant
            i <= tabs.len(),
            forall|j: int| 0 <= j < i ==> tabs@[j] != current,
        decreases tabs.len() - i,
    {
        if tabs[i] == current {
            return i;
        }
        i = i + 1;
    }
    0
}

/// Position of `current` in `tabs`, or 0 where it does not occur.
fn management_tab_position(tabs: &Vec<ManagementTab>, current: ManagementTab) -> (r: usize)
    requires
        tabs.len() > 0,
    ensures
        r < tabs.len(),
        (exists|i: int| 0 <= i < tabs.len() && tabs@[i] == current) ==> tabs@[r as int] == current
            && forall|j: int| 0 <= j < r ==> tabs@[j] != current,
{
    let mut i: usize = 0;
    while i < tabs.len()
        invariant
            i <= tabs.len(),
            forall|j: int| 0 <= j < i ==> tabs@[j] != current,
        decreases tabs.len() - i,
    {
        if tabs[i] == current {
            return i;
        }
        i = i + 1;
    }
    0
}

/// The remainder of `x` divided by `n` that lies in `0..n` (`i32::rem_euclid`).
fn rem_euclid(x: i32, n: u32) -> (r: u32)
    requires
        n > 0,
    ensures
        r == (x as int) % (n as int),
        r < n,
{
    if x >= 0 {
        (x as u32) % n
    } else {
        let a: u64 = ((0 - (x as i64)) as u64) % (n as u64);
        proof {
            let m = n as int;
            let y = -(x as int);
            vstd::arithmetic::div_mod::lemma_fundamental_div_mod(y, m);
            vstd::arithmetic::div_mod::lemma_mod_bound(y, m);
            let q = y / m;
            assert(a == y % m);
            assert(y == m * q + a);
            if a == 0 {
                assert(x == m * (-q)) by (nonlinear_arith)
                    requires
                        x == -y,
                        y == m * q + a,
                        a == 0,
                ;
                vstd::arithmetic::div_mod::lemma_mod_multiples_basic(-q, m);
            } else {
                assert(x == m * (-q - 1) + (m - a)) by (nonlinear_arith)
                    requires
                        x == -y,
                        y == m * q + a,
                ;
                vstd::arithmetic::div_mod::lemma_mod_multiples_vanish(-q - 1, m - a, m);
                vstd::arithmetic::div_mod::lemma_small_mod((m - a) as nat, m as nat);
            }
        }
        if a == 0 { 0 } else { n - (a as u32) }
    }
}

/// The rental tab `delta` places after `current` in the tab bar, wrapping around in
/// both directions.
pub fn next_rental_tab(current: RentalTab, delta: i32) -> (r: RentalTab)
    requires
        rental_tab_index(current) + delta <= i32::MAX,
    ensures
        r == rental_tabs()[(rental_tab_index(current) + delta) % 5],
{
    let tabs = RentalTab::all();
    let index = rental_tab_position(&tabs, current) as i32;
    assert(tabs@[rental_tab_index(current)] == current);
    assert(index == rental_tab_index(current));
    let next = rem_euclid(index + delta, 5);
    tabs[next as usize]
}

/// The management tab `delta` places after `current` in the tab bar, wrapping around
/// in both directions.
pub fn next_management_tab(current: ManagementTab, delta: i32) -> (r: ManagementTab)
    requires
        management_tab_index(current) + delta <= i32::MAX,
    ensures
        r == management_tabs()[(management_tab_index(current) + delta) % 4],
{
    let tabs = ManagementTab::all();
    let index = management_tab_position(&tabs, current) as i32;
    assert(tabs@[management_tab_index(current)] == current);
    assert(index == management_tab_index(current));
    let next = rem_euclid(index + delta, 4);
    tabs[next as usize]
}

/// Moving `delta` tabs forward and then `delta` tabs back returns to the tab one
/// started from, in both tab bars.
pub proof fn tab_moves_are_inverse(r: RentalTab, m: ManagementTab, delta: int)
    ensures
        rental_tabs()[((rental_tab_index(rental_tabs()[(rental_tab_index(r) + delta) % 5]) - delta) % 5)] == r,
        management_tabs()[((management_tab_index(management_tabs()[(management_tab_index(m) + delta) % 4]) - delta) % 4)] == m,
{
    let i = rental_tab_index(r);
    let j = (i + delta) % 5;
    vstd::arithmetic::div_mod::lemma_mod_bound(i + delta, 5);
    assert(rental_tab_index(rental_tabs()[j]) == j);
    vstd::arithmetic::div_mod::lemma_sub_mod_noop(i + delta, delta, 5);
    vstd::arithmetic::div_mod::lemma_mod_twice(i + delta, 5);
    vstd::arithmetic::div_mod::lemma_small_mod(i as nat, 5);
    let a = management_tab_index(m);
    let b = (a + delta) % 4;
    vstd::arithmetic::div_mod::lemma_mod_bound(a + delta, 4);
    assert(management_tab_index(management_tabs()[b]) == b);
    vstd::arithmetic::div_mod::lemma_sub_mod_noop(a + delta, delta, 4);
    vstd::arithmetic::div_mod::lemma_small_mod(a as nat, 4);
}

/// Workflow wrapper used by the rental management screen: each workflow leads through
/// its dialog with a wizard.
#[derive(Debug)]
pub enum ActiveWorkflow {
    /// Renting a locker.
    Rent(WizardRenderer),
    /// Extending a rental.
    Extend(WizardRenderer),
    /// Returning a locker.
    Return(WizardRenderer),
    /// Reporting damage.
    Damage(WizardRenderer),
}

impl ActiveWorkflow {
    /// The wizard of the workflow.
    pub open spec fn spec_renderer(&self) -> &WizardRenderer {
        match self {
            ActiveWorkflow::Rent(w) => w,
            ActiveWorkflow::Extend(w) => w,
            ActiveWorkflow::Return(w) => w,
            ActiveWorkflow::Damage(w) => w,
        }
    }

    /// Returns the renderer for the active workflow.
    pub fn renderer(&self) -> (r: &WizardRenderer)
        ensures
            r == self.spec_renderer(),
    {
        match self {
            ActiveWorkflow::Rent(w) => w,
            ActiveWorkflow::Extend(w) => w,
            ActiveWorkflow::Return(w) => w,
            ActiveWorkflow::Damage(w) => w,
        }
    }

    /// Whether two workflows are of the same kind.
    pub open spec fn same_kind(&self, other: &ActiveWorkflow) -> bool {
        &&& (self is Rent <==> other is Rent)
        &&& (self is Extend <==> other is Extend)
        &&& (self is Return <==> other is Return)
        &&& (self is Damage <==> other is Damage)
    }

    /// Handles a key in the workflow's wizard (see `wizard_key`).
    pub fn handle_key(&mut self, key: Key) -> (r: WizardAction)
        ensures
            final(self).same_kind(old(self)),
            wizard_key(*old(self).spec_renderer(), key, *final(self).spec_renderer(), r),
    {
        match self {
            ActiveWorkflow::Rent(w) => wizard_handle_key(w, key),
            ActiveWorkflow::Extend(w) => wizard_handle_key(w, key),
            ActiveWorkflow::Return(w) => wizard_handle_key(w, key),
            ActiveWorkflow::Damage(w) => wizard_handle_key(w, key),
        }
    }
}

/// What a key does to a workflow's wizard (`before` into `after`, returning `r`): Tab
/// and Shift+Tab move the highlight to the next and the previous option, Enter
/// confirms the highlighted option (see `confirmed`), and other keys change nothing.
pub open spec fn wizard_key(before: WizardRenderer, key: Key, after: WizardRenderer, r: WizardAction) -> bool {
    match key {
        Key::Tab | Key::BackTab => {
            &&& r == WizardAction::NoAction
            &&& after.spec_messages() == before.spec_messages()
            &&& after.spec_current() == before.spec_current()
            &&& after.spec_selected() == moved_selection(
                before.spec_messages(), before.spec_current(), before.spec_selected(), key == Key::Tab)
        },
        Key::Enter => confirmed(before, after, r),
        _ => r == WizardAction::NoAction && after == before,
    }
}

/// Handles a key in a wizard (see `wizard_key`).
fn wizard_handle_key(w: &mut WizardRenderer, key: Key) -> (r: WizardAction)
    ensures
        wizard_key(*old(w), key, *final(w), r),
{
    match key {
        Key::Tab => {
            w.select_next_option();
            WizardAction::NoAction
        },
        Key::BackTab => {
            w.select_previous_option();
            WizardAction::NoAction
        },
        Key::Enter => w.confirm_selection(),
        _ => WizardAction::NoAction,
    }
}

/// A key as the application distinguishes it.
#[derive(Debug, Clone, Copy, PartialEq, Eq, Structural)]
pub enum Key {
    /// A character key.
    Char(char),
    /// Escape.
    Esc,
    /// Tab.
    Tab,
    /// Shift+Tab.
    BackTab,
    /// Enter.
    Enter,
    /// Any other key.
    Other,
}

/// A key press: the key and whether Shift was held.
#[derive(Debug, Clone, Copy, PartialEq, Eq, Structural)]
pub struct KeyInput {
    /// The key.
    pub key: Key,
    /// Whether Shift was held.
    pub shift: bool,
}

/// What the caller has to do after a key press, beyond what the navigation did itself.
#[derive(Debug, Clone, Copy, PartialEq, Eq, Structural)]
pub enum NavEffect {
    /// Nothing.
    Nothing,
    /// The screen was switched to this one; a rental tab starts its workflow.
    Switched(AppScreen),
    /// Esc on the rental screen: the running workflow ends.
    ClearWorkflow,
    /// Esc on the settings tab: unsaved changes are dropped.
    ResetSettingsEditor,
    /// The key goes to the running workflow.
    ForwardToWorkflow(Key),
    /// The key goes to the settings editor.
    ForwardToSettings(Key),
    /// Export the data.
    Export,
    /// Import data.
    Import,
}

/// The answer to a key press.
#[derive(Debug, Clone, Copy, PartialEq, Eq, Structural)]
pub struct NavOutcome {
    /// Whether the application goes on.
    pub action: AppAction,
    /// What the caller has to do.
    pub effect: NavEffect,
}

/// Where the application stands: the screen, the window switcher and the tabs last
/// used on the two screens with tabs.
#[derive(Debug, Clone, Copy, PartialEq, Eq, Structural)]
pub struct NavCore {
    /// The screen shown.
    pub screen: AppScreen,
    /// Whether the window switcher is open.
    pub window_switcher_active: bool,
    /// The window highlighted in the window switcher.
    pub selected_window_index: usize,
    /// The tab last shown on the rental management screen.
    pub last_rental_tab: RentalTab,
    /// The tab last shown on the management screen.
    pub last_management_tab: ManagementTab,
}

/// Number of windows in the window switcher.
pub const WINDOW_COUNT: usize = 4;

/// Position of a screen in the window switcher; the screensaver has none.
pub open spec fn window_index_of(screen: AppScreen) -> Option<usize> {
    match screen {
        AppScreen::Dashboard => Some(0),
        AppScreen::RentalManagement(_) => Some(1),
        AppScreen::Finances => Some(2),
        AppScreen::Management(_) => Some(3),
        AppScreen::Screensaver => None,
    }
}

/// The screen a window of the switcher opens: the rental and management screens on
/// the tab last used.
pub open spec fn screen_for_window(index: usize, core: NavCore) -> AppScreen {
    if index == 0 {
        AppScreen::Dashboard
    } else if index == 1 {
        AppScreen::RentalManagement(core.last_rental_tab)
    } else if index == 2 {
        AppScreen::Finances
    } else if index == 3 {
        AppScreen::Management(core.last_management_tab)
    } else {
        AppScreen::Dashboard
    }
}

/// The navigation after switching to `screen`: the tab is remembered and the window
/// switcher highlights the screen's window.
pub open spec fn switched(core: NavCore, screen: AppScreen) -> NavCore {
    NavCore {
        screen,
        last_rental_tab: match screen {
            AppScreen::RentalManagement(t) => t,
            _ => core.last_rental_tab,
        },
        last_management_tab: match screen {
            AppScreen::Management(t) => t,
            _ => core.last_management_tab,
        },
        selected_window_index: match window_index_of(screen) {
            Some(i) => i,
            None => core.selected_window_index,
        },
        ..core
    }
}

/// Whether a key press quits: `Q`, or `q` with Shift.
pub open spec fn is_quit(input: KeyInput) -> bool {
    input.key == Key::Char('Q') || (input.key == Key::Char('q') && input.shift)
}

/// A key press while the window switcher is open: Tab and Shift+Tab move the
/// highlight, Enter opens the highlighted window, Esc closes the switcher.
pub open spec fn switcher_key(core: NavCore, key: Key) -> (NavCore, NavEffect) {
    match key {
        Key::Tab => (
            NavCore { selected_window_index: switcher_next(core.selected_window_index as int, WINDOW_COUNT as int) as usize, ..core },
            NavEffect::Nothing,
        ),
        Key::BackTab => (
            NavCore { selected_window_index: switcher_prev(core.selected_window_index as int, WINDOW_COUNT as int) as usize, ..core },
            NavEffect::Nothing,
        ),
        Key::Enter => {
            let target = screen_for_window(core.selected_window_index, core);
            (NavCore { window_switcher_active: false, ..switched(core, target) }, NavEffect::Switched(target))
        },
        Key::Esc => (NavCore { window_switcher_active: false, ..core }, NavEffect::Nothing),
        _ => (core, NavEffect::Nothing),
    }
}

/// The rental tab the dashboard's digit keys open.
pub open spec fn dashboard_tab(c: char) -> Option<RentalTab> {
    if c == '1' {
        Some(RentalTab::Search)
    } else if c == '2' {
        Some(RentalTab::List)
    } else if c == '3' {
        Some(RentalTab::Extend)
    } else if c == '4' {
        Some(RentalTab::Return)
    } else if c == '5' {
        Some(RentalTab::Damage)
    } else {
        None
    }
}

/// Switching to a screen, as a step of the navigation.
pub open spec fn switch_step(core: NavCore, screen: AppScreen) -> (NavCore, NavEffect) {
    (switched(core, screen), NavEffect::Switched(screen))
}

/// A key press handled by the screen shown: digits on the dashboard open rental tabs;
/// Tab and Shift+Tab move between the tabs of the rental and management screens,
/// unless a workflow or the settings editor takes the keys; E and I on the finance
/// screen export and import.
pub open spec fn screen_key(core: NavCore, key: Key, workflow_active: bool) -> (NavCore, NavEffect) {
    match core.screen {
        AppScreen::Dashboard => match key {
            Key::Char(c) => match dashboard_tab(c) {
                Some(t) => switch_step(core, AppScreen::RentalManagement(t)),
                None => (core, NavEffect::Nothing),
            },
            _ => (core, NavEffect::Nothing),
        },
        AppScreen::RentalManagement(tab) => if workflow_active {
            (core, NavEffect::ForwardToWorkflow(key))
        } else {
            match key {
                Key::Tab => switch_step(core, AppScreen::RentalManagement(rental_tabs()[(rental_tab_index(tab) + 1) % 5])),
                Key::BackTab => switch_step(core, AppScreen::RentalManagement(rental_tabs()[(rental_tab_index(tab) - 1) % 5])),
                _ => (core, NavEffect::Nothing),
            }
        },
        AppScreen::Finances => match key {
            Key::Char(c) => if c == 'e' || c == 'E' {
                (core, NavEffect::Export)
            } else if c == 'i' || c == 'I' {
                (core, NavEffect::Import)
            } else {
                (core, NavEffect::Nothing)
            },
            _ => (core, NavEffect::Nothing),
        },
        AppScreen::Management(tab) => if tab == ManagementTab::Settings {
            (core, NavEffect::ForwardToSettings(key))
        } else {
            match key {
                Key::Tab => switch_step(core, AppScreen::Management(management_tabs()[(management_tab_index(tab) + 1) % 4])),
                Key::BackTab => switch_step(core, AppScreen::Management(management_tabs()[(management_tab_index(tab) - 1) % 4])),
                _ => (core, NavEffect::Nothing),
            }
        },
        AppScreen::Screensaver => (core, NavEffect::Nothing),
    }
}

/// What Esc does besides counting, when it does not return to the dashboard.
pub open spec fn escape_effect(screen: AppScreen) -> NavEffect {
    match screen {
        AppScreen::RentalManagement(_) => NavEffect::ClearWorkflow,
        AppScreen::Management(ManagementTab::Settings) => NavEffect::ResetSettingsEditor,
        _ => NavEffect::Nothing,
    }
}

/// The navigation after a key press, given the escape count and the time of the last
/// counted Esc before it: quit keys quit; `^` opens the window switcher; while it is
/// open it takes the keys; the Esc that brings the count to three returns to the
/// dashboard; other keys go to the screen.
pub open spec fn nav_step(core: NavCore, input: KeyInput, workflow_active: bool, count: u8, last: Option<u64>, now: u64) -> (NavCore, NavOutcome) {
    if is_quit(input) {
        (core, NavOutcome { action: AppAction::Quit, effect: NavEffect::Nothing })
    } else if input.key == Key::Char('^') {
        (NavCore {
            window_switcher_active: true,
            selected_window_index: match window_index_of(core.screen) {
                Some(i) => i,
                None => core.selected_window_index,
            },
            ..core
        }, NavOutcome { action: AppAction::Continue, effect: NavEffect::Nothing })
    } else if core.window_switcher_active {
        let (c, e) = switcher_key(core, input.key);
        (c, NavOutcome { action: AppAction::Continue, effect: e })
    } else if input.key == Key::Esc {
        if escape_step(count, last, now).0 >= ESCAPES_TO_DASHBOARD {
            let (c, e) = switch_step(core, AppScreen::Dashboard);
            (c, NavOutcome { action: AppAction::Continue, effect: e })
        } else {
            (core, NavOutcome { action: AppAction::Continue, effect: escape_effect(core.screen) })
        }
    } else {
        let (c, e) = screen_key(core, input.key, workflow_active);
        (c, NavOutcome { action: AppAction::Continue, effect: e })
    }
}

/// The inactivity state after `inactive_ms` without activity: the screensaver once the
/// timeout and the countdown have passed; during the countdown, the whole seconds
/// left of it; before that, active.
pub open spec fn spec_inactivity(inactive_ms: u64, timeout_ms: u64, countdown_ms: u64) -> InactivityState {
    if inactive_ms >= timeout_ms + countdown_ms {
        InactivityState::ScreensaverActive
    } else if inactive_ms >= timeout_ms {
        InactivityState::Countdown(((countdown_ms - (inactive_ms - timeout_ms)) / 1000) as u64)
    } else {
        InactivityState::Active
    }
}

/// The navigation of the application between screens, with the status bar, the
/// screensaver and the inactivity timer.
#[derive(Debug)]
pub struct Navigator {
    /// Screen, window switcher and last tabs.
    pub core: NavCore,
    /// The status bar.
    pub status_bar: StatusBar,
    /// Whether the screensaver is shown.
    pub screensaver_active: bool,
    /// The status message shown when the screensaver started, shown again after it.
    pub previous_status_message: Option<StatusMessage>,
    /// Clock reading in milliseconds of the last activity.
    pub last_activity: u64,
    /// Milliseconds without activity before the countdown starts.
    pub screensaver_timeout_ms: u64,
    /// Milliseconds of the countdown before the screensaver starts.
    pub countdown_ms: u64,
}

/// Milliseconds of the countdown before the screensaver starts.
pub const COUNTDOWN_MS: u64 = 15_000;

impl Navigator {
    /// The dashboard, with the window switcher closed, the list and locker tabs as
    /// last tabs, and activity at `now`.
    pub fn new(screensaver_timeout_ms: u64, now: u64) -> (r: Self)
        ensures
            r.core == (NavCore {
                screen: AppScreen::Dashboard,
                window_switcher_active: false,
                selected_window_index: 0,
                last_rental_tab: RentalTab::List,
                last_management_tab: ManagementTab::Lockers,
            }),
            r.status_bar.spec_escape_count() == 0,
            r.status_bar.spec_message() is None,
            !r.screensaver_active,
            r.previous_status_message is None,
            r.last_activity == now,
            r.screensaver_timeout_ms == screensaver_timeout_ms,
            r.countdown_ms == COUNTDOWN_MS,
    {
        Navigator {
            core: NavCore {
                screen: AppScreen::Dashboard,
                window_switcher_active: false,
                selected_window_index: 0,
                last_rental_tab: RentalTab::List,
                last_management_tab: ManagementTab::Lockers,
            },
            status_bar: StatusBar::new(),
            screensaver_active: false,
            previous_status_message: None,
            last_activity: now,
            screensaver_timeout_ms,
            countdown_ms: COUNTDOWN_MS,
        }
    }

    /// The names of the windows of the switcher.
    pub fn window_list() -> (r: Vec<String>)
        ensures
            string_views(r@) == default_window_names(),
    {
        crate::ui::widgets::header::WindowSwitcherState::new().window_names
    }

    /// The name of the screen in the header.
    pub fn screen_label(&self) -> (r: &'static str)
        ensures
            r@ == (match self.core.screen {
                AppScreen::Dashboard => "Dashboard"@,
                AppScreen::RentalManagement(_) => "Verleih-Management"@,
                AppScreen::Finances => "Finanzen"@,
                AppScreen::Management(_) => "Verwaltung"@,
                AppScreen::Screensaver => "Screensaver"@,
            }),
    {
        match self.core.screen {
            AppScreen::Dashboard => "Dashboard",
            AppScreen::RentalManagement(_) => "Verleih-Management",
            AppScreen::Finances => "Finanzen",
            AppScreen::Management(_) => "Verwaltung",
            AppScreen::Screensaver => "Screensaver",
        }
    }

    /// Switches to `screen` (see `switched`).
    pub fn switch_screen(&mut self, screen: AppScreen)
        ensures
            final(self).core == switched(old(self).core, screen),
            final(self).status_bar == old(self).status_bar,
            final(self).screensaver_active == old(self).screensaver_active,
            final(self).previous_status_message == old(self).previous_status_message,
            final(self).last_activity == old(self).last_activity,
            final(self).screensaver_timeout_ms == old(self).screensaver_timeout_ms,
            final(self).countdown_ms == old(self).countdown_ms,
    {
        match screen {
            AppScreen::RentalManagement(t) => {
                self.core.last_rental_tab = t;
            },
            AppScreen::Management(t) => {
                self.core.last_management_tab = t;
            },
            _ => {},
        }
        self.core.screen = screen;
        self.sync_window_index();
    }

    /// Highlights the shown screen's window in the switcher; the screensaver has none.
    fn sync_window_index(&mut self)
        ensures
            final(self).core == (NavCore {
                selected_window_index: match window_index_of(old(self).core.screen) {
                    Some(i) => i,
                    None => old(self).core.selected_window_index,
                },
                ..old(self).core
            }),
            final(self).status_bar == old(self).status_bar,
            final(self).screensaver_active == old(self).screensaver_active,
            final(self).previous_status_message == old(self).previous_status_message,
            final(self).last_activity == old(self).last_activity,
            final(self).screensaver_timeout_ms == old(self).screensaver_timeout_ms,
            final(self).countdown_ms == old(self).countdown_ms,
    {
        match self.core.screen {
            AppScreen::Dashboard => {
                self.core.selected_window_index = 0;
            },
            AppScreen::RentalManagement(_) => {
                self.core.selected_window_index = 1;
            },
            AppScreen::Finances => {
                self.core.selected_window_index = 2;
            },
            AppScreen::Management(_) => {
                self.core.selected_window_index = 3;
            },
            AppScreen::Screensaver => {},
        }
    }

    /// The screen a window of the switcher opens.
    pub fn screen_for_window_index(&self, index: usize) -> (r: AppScreen)
        ensures
            r == screen_for_window(index, self.core),
    {
        match index {
            0 => AppScreen::Dashboard,
            1 => AppScreen::RentalManagement(self.core.last_rental_tab),
            2 => AppScreen::Finances,
            3 => AppScreen::Management(self.core.last_management_tab),
            _ => AppScreen::Dashboard,
        }
    }

    /// Handles a key press while the window switcher is open (see `switcher_key`).
    fn handle_window_switcher_key(&mut self, key: Key) -> (r: NavEffect)
        requires
            old(self).core.selected_window_index < WINDOW_COUNT,
        ensures
            (final(self).core, r) == switcher_key(old(self).core, key),
            final(self).status_bar == old(self).status_bar,
            final(self).screensaver_active == old(self).screensaver_active,
            final(self).previous_status_message == old(self).previous_status_message,
            final(self).last_activity == old(self).last_activity,
            final(self).screensaver_timeout_ms == old(self).screensaver_timeout_ms,
            final(self).countdown_ms == old(self).countdown_ms,
    {
        match key {
            Key::Tab => {
                self.core.selected_window_index = (self.core.selected_window_index + 1) % WINDOW_COUNT;
                NavEffect::Nothing
            },
            Key::BackTab => {
                if self.core.selected_window_index == 0 {
                    self.core.selected_window_index = WINDOW_COUNT - 1;
                } else {
                    self.core.selected_window_index = self.core.selected_window_index - 1;
                }
                NavEffect::Nothing
            },
            Key::Enter => {
                let screen = self.screen_for_window_index(self.core.selected_window_index);
                self.switch_screen(screen);
                self.core.window_switcher_active = false;
                NavEffect::Switched(screen)
            },
            Key::Esc => {
                self.core.window_switcher_active = false;
                NavEffect::Nothing
            },
            _ => NavEffect::Nothing,
        }
    }

    /// Handles a key press of the screen shown (see `screen_key`).
    fn handle_screen_key(&mut self, key: Key, workflow_active: bool) -> (r: NavEffect)
        ensures
            (final(self).core, r) == screen_key(old(self).core, key, workflow_active),
            final(self).status_bar == old(self).status_bar,
            final(self).screensaver_active == old(self).screensaver_active,
            final(self).previous_status_message == old(self).previous_status_message,
            final(self).last_activity == old(self).last_activity,
            final(self).screensaver_timeout_ms == old(self).screensaver_timeout_ms,
            final(self).countdown_ms == old(self).countdown_ms,
    {
        match self.core.screen {
            AppScreen::Dashboard => {
                let tab = match key {
                    Key::Char('1') => Some(RentalTab::Search),
                    Key::Char('2') => Some(RentalTab::List),
                    Key::Char('3') => Some(RentalTab::Extend),
                    Key::Char('4') => Some(RentalTab::Return),
                    Key::Char('5') => Some(RentalTab::Damage),
                    _ => None,
                };
                match tab {
                    Some(t) => {
                        let screen = AppScreen::RentalManagement(t);
                        self.switch_screen(screen);
                        NavEffect::Switched(screen)
                    },
                    None => NavEffect::Nothing,
                }
            },
            AppScreen::RentalManagement(tab) => {
                if workflow_active {
                    return NavEffect::ForwardToWorkflow(key);
                }
                let delta: i32 = match key {
                    Key::Tab => 1,
                    Key::BackTab => -1,
                    _ => 0,
                };
                if delta == 0 {
                    NavEffect::Nothing
                } else {
                    let screen = AppScreen::RentalManagement(next_rental_tab(tab, delta));
                    self.switch_screen(screen);
                    NavEffect::Switched(screen)
                }
            },
            AppScreen::Finances => match key {
                Key::Char('e') | Key::Char('E') => NavEffect::Export,
                Key::Char('i') | Key::Char('I') => NavEffect::Import,
                _ => NavEffect::Nothing,
            },
            AppScreen::Management(tab) => {
                if tab == ManagementTab::Settings {
                    return NavEffect::ForwardToSettings(key);
                }
                let delta: i32 = match key {
                    Key::Tab => 1,
                    Key::BackTab => -1,
                    _ => 0,
                };
                if delta == 0 {
                    NavEffect::Nothing
                } else {
                    let screen = AppScreen::Management(next_management_tab(tab, delta));
                    self.switch_screen(screen);
                    NavEffect::Switched(screen)
                }
            },
            AppScreen::Screensaver => NavEffect::Nothing,
        }
    }

    /// Handles a key press at `now` (see `nav_step`). `workflow_active` tells whether a
    /// workflow runs on the rental screen. Keys other than Esc forget the counted Esc
    /// presses; the Esc that returns to the dashboard also does, and says so in the
    /// status bar.
    pub fn handle_key(&mut self, input: KeyInput, workflow_active: bool, now: u64) -> (r: NavOutcome)
        requires
            old(self).core.selected_window_index < WINDOW_COUNT,
        ensures
            (final(self).core, r) == nav_step(
                old(self).core, input, workflow_active,
                old(self).status_bar.spec_escape_count(), old(self).status_bar.spec_last_escape(), now,
            ),
            final(self).core.selected_window_index < WINDOW_COUNT,
            final(self).screensaver_active == old(self).screensaver_active,
            final(self).previous_status_message == old(self).previous_status_message,
            final(self).last_activity == old(self).last_activity,
            final(self).screensaver_timeout_ms == old(self).screensaver_timeout_ms,
            final(self).countdown_ms == old(self).countdown_ms,
            if is_quit(input) || (input.key == Key::Esc && input.key != Key::Char('^') && old(self).core.window_switcher_active) {
                final(self).status_bar == old(self).status_bar
            } else if input.key != Key::Esc {
                &&& final(self).status_bar.spec_escape_count() == 0
                &&& final(self).status_bar.spec_last_escape() is None
                &&& final(self).status_bar.spec_message() == old(self).status_bar.spec_message()
            } else {
                let (c, l) = escape_step(old(self).status_bar.spec_escape_count(), old(self).status_bar.spec_last_escape(), now);
                if c >= ESCAPES_TO_DASHBOARD {
                    &&& final(self).status_bar.spec_escape_count() == 0
                    &&& final(self).status_bar.spec_last_escape() is None
                    &&& final(self).status_bar.spec_message() matches Some(m)
                    &&& m.text@ == "Zurück zum Dashboard"@
                    &&& m.level == StatusLevel::Info
                    &&& m.timestamp == now
                } else {
                    &&& final(self).status_bar.spec_escape_count() == c
                    &&& final(self).status_bar.spec_last_escape() == l
                    &&& final(self).status_bar.spec_message() == old(self).status_bar.spec_message()
                }
            },
    {
        let key = input.key;
        if key == Key::Char('Q') || (key == Key::Char('q') && input.shift) {
            return NavOutcome { action: AppAction::Quit, effect: NavEffect::Nothing };
        }
        if key != Key::Esc {
            self.status_bar.reset_escape_count();
        }
        if key == Key::Char('^') {
            self.core.window_switcher_active = true;
            self.sync_window_index();
            return NavOutcome { action: AppAction::Continue, effect: NavEffect::Nothing };
        }
        if self.core.window_switcher_active {
            let effect = self.handle_window_switcher_key(key);
            return NavOutcome { action: AppAction::Continue, effect };
        }
        if key == Key::Esc {
            self.status_bar.increment_escape_count_at(now);
            if self.status_bar.should_return_to_dashboard() {
                self.status_bar.reset_escape_count();
                self.switch_screen(AppScreen::Dashboard);
                self.status_bar.set_message_at("Zurück zum Dashboard".to_owned(), StatusLevel::Info, now);
                return NavOutcome { action: AppAction::Continue, effect: NavEffect::Switched(AppScreen::Dashboard) };
            }
            let effect = match self.core.screen {
                AppScreen::RentalManagement(_) => NavEffect::ClearWorkflow,
                AppScreen::Management(ManagementTab::Settings) => NavEffect::ResetSettingsEditor,
                _ => NavEffect::Nothing,
            };
            return NavOutcome { action: AppAction::Continue, effect };
        }
        let effect = self.handle_screen_key(key, workflow_active);
        NavOutcome { action: AppAction::Continue, effect }
    }

    /// Records activity at `now`; activity ends the screensaver.
    pub fn update_activity(&mut self, now: u64)
        ensures
            final(self).last_activity == now,
            !final(self).screensaver_active,
            old(self).screensaver_active ==> final(self).core == (NavCore { screen: AppScreen::Dashboard, ..old(self).core }),
            !old(self).screensaver_active ==> final(self).core == old(self).core,
    {
        self.last_activity = now;
        if self.screensaver_active {
            self.exit_screensaver(now);
        }
    }

    /// The inactivity state at `now` (see `spec_inactivity`).
    pub fn check_inactivity(&self, now: u64) -> (r: InactivityState)
        requires
            self.screensaver_timeout_ms + self.countdown_ms <= u64::MAX,
        ensures
            r == spec_inactivity(millis_between(self.last_activity, now), self.screensaver_timeout_ms, self.countdown_ms),
    {
        let inactive: u64 = if now >= self.last_activity { now - self.last_activity } else { 0 };
        if inactive >= self.screensaver_timeout_ms + self.countdown_ms {
            InactivityState::ScreensaverActive
        } else if inactive >= self.screensaver_timeout_ms {
            let remaining = self.countdown_ms - (inactive - self.screensaver_timeout_ms);
            InactivityState::Countdown(remaining / 1000)
        } else {
            InactivityState::Active
        }
    }

    /// Shows the screensaver, keeping the status message to show again after it;
    /// nothing changes while it is shown already.
    pub fn activate_screensaver(&mut self)
        ensures
            final(self).screensaver_active,
            !old(self).screensaver_active ==> {
                &&& final(self).previous_status_message == old(self).status_bar.spec_message()
                &&& final(self).core == (NavCore { screen: AppScreen::Screensaver, ..old(self).core })
            },
            old(self).screensaver_active ==> final(self).previous_status_message == old(self).previous_status_message
                && final(self).core == old(self).core,
            final(self).status_bar == old(self).status_bar,
            final(self).last_activity == old(self).last_activity,
            final(self).screensaver_timeout_ms == old(self).screensaver_timeout_ms,
            final(self).countdown_ms == old(self).countdown_ms,
    {
        if !self.screensaver_active {
            self.previous_status_message = self.status_bar.message_copy();
            self.screensaver_active = true;
            self.core.screen = AppScreen::Screensaver;
        }
    }

    /// Ends the screensaver at `now`: back to the dashboard, with the status message
    /// kept when it started; nothing changes while it is not shown.
    pub fn exit_screensaver(&mut self, now: u64)
        ensures
            !final(self).screensaver_active,
            old(self).screensaver_active ==> {
                &&& final(self).core == (NavCore { screen: AppScreen::Dashboard, ..old(self).core })
                &&& final(self).last_activity == now
                &&& final(self).previous_status_message is None
                &&& final(self).status_bar.spec_message() == (match old(self).previous_status_message {
                    Some(m) => Some(m),
                    None => old(self).status_bar.spec_message(),
                })
                &&& final(self).status_bar.spec_escape_count() == old(self).status_bar.spec_escape_count()
            },
            !old(self).screensaver_active ==> final(self).core == old(self).core
                && final(self).last_activity == old(self).last_activity
                && final(self).status_bar == old(self).status_bar,
            final(self).screensaver_timeout_ms == old(self).screensaver_timeout_ms,
            final(self).countdown_ms == old(self).countdown_ms,
    {
        if self.screensaver_active {
            self.screensaver_active = false;
            self.core.screen = AppScreen::Dashboard;
            match self.previous_status_message.take() {
                Some(m) => {
                    self.status_bar.replace_message(Some(m));
                },
                None => {},
            }
            self.last_activity = now;
        }
    }
}

/// Three presses of Esc outside the window switcher, each within a second of the
/// previous one and the first with no press counted before, return to the dashboard
/// on the third press from any screen; `Q` quits whatever the state.
pub proof fn triple_escape_returns_to_dashboard(core: NavCore, t1: u64, t2: u64, t3: u64, any: KeyInput, wa: bool, count: u8, last: Option<u64>, now: u64)
    requires
        !core.window_switcher_active,
        t1 <= t2 <= t3,
        t2 - t1 <= 1000,
        t3 - t2 <= 1000,
    ensures
        ({
            let esc = KeyInput { key: Key::Esc, shift: false };
            let s1 = escape_step(0, None, t1);
            let s2 = escape_step(s1.0, s1.1, t2);
            let (c3, o3) = nav_step(core, esc, wa, s2.0, s2.1, t3);
            &&& nav_step(core, esc, wa, 0, None, t1).0.screen == core.screen
            &&& c3.screen == AppScreen::Dashboard
            &&& o3 == NavOutcome { action: AppAction::Continue, effect: NavEffect::Switched(AppScreen::Dashboard) }
        }),
        nav_step(core, KeyInput { key: Key::Char('Q'), shift: any.shift }, wa, count, last, now).1.action == AppAction::Quit,
{
    crate::ui::widgets::status_bar::triple_escape_reaches_dashboard(t1, t2, t3, 0, 0, 1001);
}

/// The global keybinds of the application: next, previous, window switcher, quit,
/// cancel and confirm.
pub open spec fn app_global_keybinds() -> Seq<(Seq<char>, Seq<char>, KeybindScope)> {
    seq![
        ("Tab"@, "Nächster Eintrag"@, KeybindScope::Global),
        ("Shift+Tab"@, "Vorheriger Eintrag"@, KeybindScope::Global),
        ("^"@, "Window Switcher"@, KeybindScope::Global),
        ("Shift+Q"@, "Beenden"@, KeybindScope::Global),
        ("Esc"@, "Abbrechen (3x = Dashboard)"@, KeybindScope::Global),
        ("Enter"@, "Bestätigen"@, KeybindScope::Global),
    ]
}

/// The keybinds of the context: those of a running workflow, or those of the screen.
pub open spec fn app_context_keybinds(screen: AppScreen, workflow_active: bool) -> Seq<(Seq<char>, Seq<char>, KeybindScope)> {
    if workflow_active {
        seq![
            ("↑↓"@, "Auswahl"@, KeybindScope::Context),
            ("Enter"@, "Bestätigen"@, KeybindScope::Context),
            ("Esc"@, "Abbrechen"@, KeybindScope::Context),
        ]
    } else {
        match screen {
            AppScreen::Dashboard => seq![
                ("1"@, "Suchen"@, KeybindScope::Context),
                ("2"@, "Liste"@, KeybindScope::Context),
                ("3"@, "Verlängern"@, KeybindScope::Context),
                ("4"@, "Rückgabe"@, KeybindScope::Context),
                ("5"@, "Defekt melden"@, KeybindScope::Context),
            ],
            AppScreen::RentalManagement(_) => seq![("Tab"@, "Tab wechseln"@, KeybindScope::Context)],
            AppScreen::Finances => seq![
                ("↑↓"@, "Navigation"@, KeybindScope::Context),
                ("Enter"@, "Details"@, KeybindScope::Context),
                ("E"@, "Export"@, KeybindScope::Context),
                ("I"@, "Import"@, KeybindScope::Context),
            ],
            AppScreen::Management(_) => seq![("Tab"@, "Tab wechseln"@, KeybindScope::Context)],
            AppScreen::Screensaver => Seq::empty(),
        }
    }
}

/// The context message: how to use the window switcher while it is open, and how to
/// edit the settings on the settings tab.
pub open spec fn app_context_message(screen: AppScreen, switcher_active: bool, workflow_active: bool) -> Option<Seq<char>> {
    if switcher_active {
        Some("--- Wähle Fenster aus ---  [Tab] Vor  [Shift+Tab] Zurück  [Enter] Öffnen  [Esc] Abbrechen"@)
    } else if !workflow_active && screen == AppScreen::Management(ManagementTab::Settings) {
        Some("Pfeiltasten ändern Werte · Enter speichert · Esc verwirft"@)
    } else {
        None
    }
}

/// A keybind of the given scope.
fn bind(key: &str, description: &str, scope: KeybindScope) -> (r: Keybind)
    ensures
        keybind_view(r) == (key@, description@, scope),
{
    Keybind { key: key.to_owned(), description: description.to_owned(), scope }
}

/// The keybinds of a list of key and description pairs, all of the context.
fn context_binds_of(pairs: Vec<(&str, &str)>) -> (r: Vec<Keybind>)
    ensures
        keybind_views(r@) == pairs@.map_values(|p: (&str, &str)| (p.0@, p.1@, KeybindScope::Context)),
{
    let mut out: Vec<Keybind> = Vec::new();
    let mut i: usize = 0;
    while i < pairs.len()
        invariant
            i <= pairs.len(),
            keybind_views(out@) == pairs@.take(i as int).map_values(|p: (&str, &str)| (p.0@, p.1@, KeybindScope::Context)),
        decreases pairs.len() - i,
    {
        let ghost before = out@;
        out.push(bind(pairs[i].0, pairs[i].1, KeybindScope::Context));
        proof {
            assert(keybind_views(out@) =~= keybind_views(before).push(keybind_view(out@.last())));
            assert(pairs@.take(i + 1).map_values(|p: (&str, &str)| (p.0@, p.1@, KeybindScope::Context))
                =~= pairs@.take(i as int).map_values(|p: (&str, &str)| (p.0@, p.1@, KeybindScope::Context)).push(
                (pairs@[i as int].0@, pairs@[i as int].1@, KeybindScope::Context)));
        }
        i = i + 1;
    }
    assert(pairs@.take(pairs.len() as int) =~= pairs@);
    out
}

impl Navigator {
    /// The keybind bar for the current state (see `app_global_keybinds`,
    /// `app_context_keybinds` and `app_context_message`); the open window switcher
    /// shows no context keybinds.
    pub fn build_keybind_bar(&self, workflow_active: bool) -> (r: KeybindBar)
        ensures
            keybind_views(r.global_binds@) == app_global_keybinds(),
            keybind_views(r.context_binds@) == (if self.core.window_switcher_active {
                Seq::empty()
            } else {
                app_context_keybinds(self.core.screen, workflow_active)
            }),
            match r.context_message {
                Some(m) => app_context_message(self.core.screen, self.core.window_switcher_active, workflow_active) == Some(m@),
                None => app_context_message(self.core.screen, self.core.window_switcher_active, workflow_active) is None,
            },
    {
        let global_binds = vec![
            bind("Tab", "Nächster Eintrag", KeybindScope::Global),
            bind("Shift+Tab", "Vorheriger Eintrag", KeybindScope::Global),
            bind("^", "Window Switcher", KeybindScope::Global),
            bind("Shift+Q", "Beenden", KeybindScope::Global),
            bind("Esc", "Abbrechen (3x = Dashboard)", KeybindScope::Global),
            bind("Enter", "Bestätigen", KeybindScope::Global),
        ];
        assert(keybind_views(global_binds@) =~= app_global_keybinds());
        if self.core.window_switcher_active {
            let empty: Vec<Keybind> = Vec::new();
            assert(keybind_views(empty@) =~= Seq::empty());
            return KeybindBar {
                global_binds,
                context_binds: empty,
                context_message: Some(
                    "--- Wähle Fenster aus ---  [Tab] Vor  [Shift+Tab] Zurück  [Enter] Öffnen  [Esc] Abbrechen".to_owned(),
                ),
            };
        }
        let pairs: Vec<(&str, &str)> = if workflow_active {
            vec![("↑↓", "Auswahl"), ("Enter", "Bestätigen"), ("Esc", "Abbrechen")]
        } else {
            match self.core.screen {
                AppScreen::Dashboard => vec![
                    ("1", "Suchen"),
                    ("2", "Liste"),
                    ("3", "Verlängern"),
                    ("4", "Rückgabe"),
                    ("5", "Defekt melden"),
                ],
                AppScreen::RentalManagement(_) => vec![("Tab", "Tab wechseln")],
                AppScreen::Finances => vec![("↑↓", "Navigation"), ("Enter", "Details"), ("E", "Export"), ("I", "Import")],
                AppScreen::Management(_) => vec![("Tab", "Tab wechseln")],
                AppScreen::Screensaver => Vec::new(),
            }
        };
        let context_binds = context_binds_of(pairs);
        assert(keybind_views(context_binds@) =~= app_context_keybinds(self.core.screen, workflow_active));
        let context_message = if !workflow_active && self.core.screen == AppScreen::Management(ManagementTab::Settings) {
            Some("Pfeiltasten ändern Werte · Enter speichert · Esc verwirft".to_owned())
        } else {
            None
        };
        KeybindBar { global_binds, context_binds, context_message }
    }
}

/// Days a new rental or an extension lasts under a billing period: 30 for monthly,
/// 365 for yearly.
pub open spec fn period_days(period: BillingPeriod) -> int {
    match period {
        BillingPeriod::Monthly => 30,
        BillingPeriod::Yearly => 365,
    }
}

/// The day `from` plus the days of the billing period.
pub fn end_after_period(from: Date, period: BillingPeriod) -> (r: Date)
    requires
        day_in_range(from@ + period_days(period)),
    ensures
        r == date_of(from@ + period_days(period)),
{
    let days: i64 = match period {
        BillingPeriod::Monthly => 30,
        BillingPeriod::Yearly => 365,
    };
    match from.add_days(days) {
        Some(d) => d,
        None => from,
    }
}

/// A billing period from a day (see `end_after_period` and `plan_rental`) ends 30 days
/// later for monthly billing and 365 days later for yearly billing.
pub proof fn billing_period_lengths(from: Date, period: BillingPeriod)
    requires
        day_in_range(from@ + period_days(period)),
    ensures
        date_of(from@ + period_days(period))@ - from@ == (if period == BillingPeriod::Monthly { 30int } else { 365int }),
{
    crate::calendar::lemma_date_of_view(from@ + period_days(period));
}

/// Whether locker `l` can be rented for the given location and size on `today`: it
/// matches both, is not damaged and no rental is active on it that day.
pub open spec fn rentable(l: Locker, rentals: Seq<Rental>, location: Seq<char>, size: Seq<char>, today: Date) -> bool {
    &&& l.location@ == location
    &&& l.size@ == size
    &&& !l.is_damaged
    &&& forall|j: int| 0 <= j < rentals.len() ==> !(#[trigger] rentals[j].spec_active_on(today) && rentals[j].locker_id == l.id)
}

/// A locker that can be rented (such as the one `find_available_locker` finds, and
/// whose id a rental planned by `plan_rental` carries) lies at the requested location,
/// has the requested size, is not damaged, and no rental of it runs on `today`; and
/// every such locker can be rented.
pub proof fn rentable_lockers_match_the_request(l: Locker, rentals: Seq<Rental>, location: Seq<char>, size: Seq<char>, today: Date)
    ensures
        rentable(l, rentals, location, size, today) ==> l.location@ == location,
        rentable(l, rentals, location, size, today) ==> l.size@ == size,
        rentable(l, rentals, location, size, today) ==> !l.is_damaged,
        rentable(l, rentals, location, size, today) ==> forall|j: int| 0 <= j < rentals.len() && (#[trigger] rentals[j]).locker_id == l.id
            ==> !(rentals[j].start_date@ <= today@ && today@ <= rentals[j].end_date@),
        (l.location@ == location && l.size@ == size && !l.is_damaged && forall|j: int| 0 <= j < rentals.len() && (#[trigger] rentals[j]).locker_id == l.id
            ==> !(rentals[j].start_date@ <= today@ && today@ <= rentals[j].end_date@)) ==> rentable(l, rentals, location, size, today),
{
    if rentable(l, rentals, location, size, today) {
        assert forall|j: int| 0 <= j < rentals.len() && (#[trigger] rentals[j]).locker_id == l.id
            implies !(rentals[j].start_date@ <= today@ && today@ <= rentals[j].end_date@) by {
            assert(!(rentals[j].spec_active_on(today) && rentals[j].locker_id == l.id));
        }
    }
}

/// Position of the first locker that can be rented for the given location and size
/// on `today`, if there is one.
pub fn find_available_locker(lockers: &Vec<Locker>, rentals: &Vec<Rental>, location: &str, size: &str, today: Date) -> (r: Option<usize>)
    ensures
        r matches Some(i) ==> i < lockers.len() && rentable(lockers@[i as int], rentals@, location@, size@, today)
            && forall|k: int| 0 <= k < i ==> !rentable(#[trigger] lockers@[k], rentals@, location@, size@, today),
        r is None ==> forall|k: int| 0 <= k < lockers.len() ==> !rentable(#[trigger] lockers@[k], rentals@, location@, size@, today),
{
    let mut i: usize = 0;
    while i < lockers.len()
        invariant
            i <= lockers.len(),
            forall|k: int| 0 <= k < i ==> !rentable(#[trigger] lockers@[k], rentals@, location@, size@, today),
        decreases lockers.len() - i,
    {
        let l = &lockers[i];
        if str_eq(l.location.as_str(), location) && str_eq(l.size.as_str(), size) && !l.is_damaged {
            let mut j: usize = 0;
            let mut taken = false;
            while j < rentals.len() && !taken
                invariant
                    j <= rentals.len(),
                    !taken ==> forall|m: int| 0 <= m < j ==> !(#[trigger] rentals@[m].spec_active_on(today) && rentals@[m].locker_id == l.id),
                    taken ==> exists|m: int| 0 <= m < rentals.len() && #[trigger] rentals@[m].spec_active_on(today) && rentals@[m].locker_id == l.id,
                decreases rentals.len() - j + (if taken { 0int } else { 1int }),
            {
                if rentals[j].is_active_on(today) && rentals[j].locker_id == l.id {
                    taken = true;
                } else {
                    j = j + 1;
                }
            }
            if !taken {
                return Some(i);
            }
        }
        i = i + 1;
    }
    None
}

/// The rental a rent workflow creates: on the first locker that can be rented for the
/// location and size (see `find_available_locker`), for "Unbekannt", from `today` for
/// one billing period. `None` when no locker can be rented.
pub fn plan_rental(lockers: &Vec<Locker>, rentals: &Vec<Rental>, location: &str, size: &str, today: Date, period: BillingPeriod) -> (r: Option<Rental>)
    requires
        day_in_range(today@ + period_days(period)),
    ensures
        r is None <==> forall|k: int| 0 <= k < lockers.len() ==> !rentable(#[trigger] lockers@[k], rentals@, location@, size@, today),
        r matches Some(x) ==> exists|i: int| 0 <= i < lockers.len() && rentable(#[trigger] lockers@[i], rentals@, location@, size@, today)
            && (forall|k: int| 0 <= k < i ==> !rentable(#[trigger] lockers@[k], rentals@, location@, size@, today))
            && x.locker_id == lockers@[i].id,
        r matches Some(x) ==> {
            &&& x.id == 0
            &&& x.renter_name@ == "Unbekannt"@
            &&& x.start_date == today
            &&& x.end_date == date_of(today@ + period_days(period))
            &&& !x.deposit_paid
            &&& !x.deposit_returned
        },
{
    match find_available_locker(lockers, rentals, location, size, today) {
        Some(i) => {
            let end = end_after_period(today, period);
            Some(Rental::new(0, lockers[i].id, "Unbekannt", today, end))
        },
        None => None,
    }
}

/// The countdown shown in the status bar before the screensaver starts.
pub open spec fn countdown_text(seconds: u64) -> Seq<char> {
    "⏱ Screensaver in "@ + nat_text(seconds as nat) + " Sekunden..."@
}

impl Navigator {
    /// One tick of the event loop at `now`: during the countdown the status bar shows
    /// the seconds left; once it has passed the screensaver starts. Returns whether the
    /// screensaver is shown.
    pub fn on_tick(&mut self, now: u64) -> (r: bool)
        requires
            old(self).screensaver_timeout_ms + old(self).countdown_ms <= u64::MAX,
        ensures
            r == final(self).screensaver_active,
            final(self).last_activity == old(self).last_activity,
            final(self).screensaver_timeout_ms == old(self).screensaver_timeout_ms,
            final(self).countdown_ms == old(self).countdown_ms,
            match spec_inactivity(millis_between(old(self).last_activity, now), old(self).screensaver_timeout_ms, old(self).countdown_ms) {
                InactivityState::Active => {
                    &&& final(self).core == old(self).core
                    &&& final(self).status_bar == old(self).status_bar
                    &&& final(self).screensaver_active == old(self).screensaver_active
                },
                InactivityState::Countdown(secs) => {
                    &&& final(self).core == old(self).core
                    &&& final(self).screensaver_active == old(self).screensaver_active
                    &&& final(self).status_bar.spec_message() matches Some(m)
                    &&& m.text@ == countdown_text(secs)
                    &&& m.level == StatusLevel::Info
                    &&& m.timestamp == now
                    &&& final(self).status_bar.spec_escape_count() == old(self).status_bar.spec_escape_count()
                },
                InactivityState::ScreensaverActive => {
                    &&& final(self).screensaver_active
                    &&& final(self).status_bar == old(self).status_bar
                    &&& !old(self).screensaver_active ==> final(self).core == (NavCore { screen: AppScreen::Screensaver, ..old(self).core })
                    &&& old(self).screensaver_active ==> final(self).core == old(self).core
                },
            },
    {
        match self.check_inactivity(now) {
            InactivityState::Active => {},
            InactivityState::Countdown(seconds) => {
                let mut text = "⏱ Screensaver in ".to_owned();
                text.append(u64_text(seconds).as_str());
                text.append(" Sekunden...");
                self.status_bar.set_message_at(text, StatusLevel::Info, now);
            },
            InactivityState::ScreensaverActive => {
                self.activate_screensaver();
            },
        }
        self.screensaver_active
    }
}

} // verus!
