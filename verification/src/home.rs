//! The main screen: an action menu and the user's profile beside a search page
//! over the cached problem list.
//!
//! `Home` holds the screen's state and decides what every key press does. The
//! terminal, the cache, the configuration file and the network stay with the
//! caller: a key press answers with a `HomeAction` for the caller to carry
//! out, and the caller reports the outcome back (`set_results`, `lang_saved`,
//! `cache_deleted`, ...). `Tab` moves focus between the menu and the search.

use vstd::prelude::*;

use crate::models::ProfileStats;
use crate::text::{append, owned, push_char, text_eq, trim, trim_spec, usize_text, decimal_text};

verus! {

/// Which side currently receives navigation input.
#[derive(Clone, Copy, Debug, PartialEq, Eq, Structural)]
pub enum Focus {
    Menu,
    Search,
}

/// Action menu entries, in display order.
#[derive(Clone, Copy, Debug, PartialEq, Eq, Structural)]
pub enum MenuItem {
    SetLang,
    Login,
    DeleteCache,
    ResetConfig,
    Quit,
}

/// Number of menu entries.
pub const MENU_LEN: usize = 5;

pub open spec fn menu_item_spec(i: usize) -> MenuItem {
    if i == 0 {
        MenuItem::SetLang
    } else if i == 1 {
        MenuItem::Login
    } else if i == 2 {
        MenuItem::DeleteCache
    } else if i == 3 {
        MenuItem::ResetConfig
    } else {
        MenuItem::Quit
    }
}

/// The menu entry at position `i`.
pub fn menu_item_at(i: usize) -> (m: MenuItem)
    requires
        i < MENU_LEN,
    ensures
        m == menu_item_spec(i),
{
    if i == 0 {
        MenuItem::SetLang
    } else if i == 1 {
        MenuItem::Login
    } else if i == 2 {
        MenuItem::DeleteCache
    } else if i == 3 {
        MenuItem::ResetConfig
    } else {
        MenuItem::Quit
    }
}

impl MenuItem {
    pub open spec fn label_spec(self, lang: Seq<char>) -> Seq<char> {
        match self {
            MenuItem::SetLang => "Set default language ("@ + lang + ")"@,
            MenuItem::Login => "Log in / switch account"@,
            MenuItem::DeleteCache => "Delete cache"@,
            MenuItem::ResetConfig => "Reset config"@,
            MenuItem::Quit => "Quit"@,
        }
    }

    /// The text of the entry; the language entry shows the current default.
    pub fn label(self, lang: &str) -> (r: String)
        ensures
            r@ == self.label_spec(lang@),
    {
        match self {
            MenuItem::SetLang => {
                let mut out = owned("Set default language (");
                append(&mut out, lang);
                append(&mut out, ")");
                out
            },
            MenuItem::Login => owned("Log in / switch account"),
            MenuItem::DeleteCache => owned("Delete cache"),
            MenuItem::ResetConfig => owned("Reset config"),
            MenuItem::Quit => owned("Quit"),
        }
    }
}

/// A key, as far as the screen tells keys apart.
#[derive(Clone, Copy, Debug, PartialEq, Eq, Structural)]
pub enum KeyCode {
    Up,
    Down,
    Enter,
    Esc,
    Tab,
    Backspace,
    Char(char),
    /// A function key `F1`, `F2`, ...
    F(u8),
    Other,
}

/// A key event: the key, whether Control was held, and whether it is a press
/// (rather than a release or a repeat).
#[derive(Clone, Copy, Debug, PartialEq, Eq, Structural)]
pub struct KeyInput {
    pub code: KeyCode,
    pub ctrl: bool,
    pub press: bool,
}

/// Loaded state of the profile panel.
pub enum Profile {
    Loading,
    Ready(ProfileStats),
    Unavailable(String),
}

/// Work that a key press leaves to the caller.
#[derive(Clone, Copy, Debug, PartialEq, Eq, Structural)]
pub enum HomeAction {
    Nothing,
    /// The search text changed: query the cache with `search_query` and hand
    /// the result to `set_results`.
    Refilter,
    /// Fetch the whole problem list, rebuild the cache, then report with
    /// `refresh_finished`.
    Refresh,
    /// Save the configuration with the new default language (already set),
    /// then report with `lang_saved`.
    SaveLang,
    /// Delete the cache, then report with `cache_deleted`.
    DeleteCache,
    /// Reset and save the configuration, then report with `config_reset`.
    ResetConfig,
}

/// How a refresh of the problem list ended.
pub enum RefreshOutcome {
    /// The cache now holds this many problems.
    Updated(usize),
    /// No client could be built (the message says why).
    ClientError(String),
    /// Fetching the list failed.
    FetchFailed(String),
    /// Writing the cache failed.
    CacheWriteFailed(String),
}

/// The state of the main screen.
pub struct Home {
    search: String,
    /// Slugs of the listed problems, in display order.
    results: Vec<String>,
    selected: Option<usize>,
    menu_selected: usize,
    focus: Focus,
    profile: Profile,
    status: String,
    confirm: Option<MenuItem>,
    /// The languages that can be picked as default (never empty).
    langs: Vec<String>,
    /// The current default language.
    lang: String,
    /// Selection of the open language picker.
    lang_picker: Option<usize>,
    open_login: bool,
    open_solve: Option<String>,
    quit: bool,
}

/// The state of the main screen, as values.
pub struct HomeView {
    pub search: Seq<char>,
    pub results: Seq<Seq<char>>,
    pub selected: Option<usize>,
    pub menu_selected: usize,
    pub focus: Focus,
    pub status: Seq<char>,
    pub confirm: Option<MenuItem>,
    pub langs: Seq<Seq<char>>,
    pub lang: Seq<char>,
    pub lang_picker: Option<usize>,
    pub open_login: bool,
    pub open_solve: Option<Seq<char>>,
    pub quit: bool,
}

pub open spec fn views_of(v: Seq<String>) -> Seq<Seq<char>> {
    v.map_values(|s: String| s@)
}

impl View for Home {
    type V = HomeView;

    closed spec fn view(&self) -> HomeView {
        HomeView {
            search: self.search@,
            results: views_of(self.results@),
            selected: self.selected,
            menu_selected: self.menu_selected,
            focus: self.focus,
            status: self.status@,
            confirm: self.confirm,
            langs: views_of(self.langs@),
            lang: self.lang@,
            lang_picker: self.lang_picker,
            open_login: self.open_login,
            open_solve: match self.open_solve {
                Some(s) => Some(s@),
                None => None,
            },
            quit: self.quit,
        }
    }
}

impl HomeView {
    /// The selection marks a listed problem exactly when there is one: the
    /// first listed problem after a new search.
    pub open spec fn selection_fits(self) -> bool {
        &&& (self.results.len() == 0 <==> self.selected is None)
        &&& (self.selected matches Some(i) ==> i < self.results.len())
    }

    pub open spec fn wf(self) -> bool {
        &&& self.selection_fits()
        &&& self.menu_selected < MENU_LEN
        &&& self.langs.len() > 0
        &&& self.langs.len() <= usize::MAX
        &&& self.results.len() <= usize::MAX
        &&& (self.lang_picker matches Some(i) ==> i < self.langs.len())
    }
}

/// Index of the first entry equal to `x`.
pub open spec fn first_index(s: Seq<Seq<char>>, x: Seq<char>) -> Option<int>
    decreases s.len(),
{
    if s.len() == 0 {
        None
    } else if s[0] == x {
        Some(0)
    } else {
        match first_index(s.skip(1), x) {
            Some(k) => Some(k + 1),
            None => None,
        }
    }
}

proof fn lemma_first_index_at(s: Seq<Seq<char>>, x: Seq<char>, k: int)
    requires
        0 <= k <= s.len(),
        forall|j: int| 0 <= j < k ==> s[j] != x,
        k < s.len() ==> s[k] == x,
    ensures
        first_index(s, x) == (if k < s.len() {
            Some(k)
        } else {
            None::<int>
        }),
    decreases k,
{
    if k > 0 {
        assert forall|j: int| 0 <= j < k - 1 implies s.skip(1)[j] != x by {
            assert(s.skip(1)[j] == s[j + 1]);
        }
        if k < s.len() {
            assert(s.skip(1)[k - 1] == s[k]);
        }
        lemma_first_index_at(s.skip(1), x, k - 1);
    }
}

/// Where the language picker opens: at the current default language, or at
/// the top when that is not in the list.
pub open spec fn picker_start(v: HomeView) -> usize {
    match first_index(v.langs, v.lang) {
        Some(k) => k as usize,
        None => 0,
    }
}

/// Position `i` moved by `delta` in a ring of `n` entries: `(i + delta)`
/// modulo `n`, never negative (`rem_euclid`).
pub open spec fn rotated(i: usize, delta: int, n: usize) -> usize {
    ((i + delta) % (n as int)) as usize
}

/// A rotated position stays in the ring.
pub proof fn lemma_rotated_bound(i: usize, delta: int, n: usize)
    requires
        0 < n,
    ensures
        0 <= (i + delta) % (n as int) < n,
        rotated(i, delta, n) < n,
        rotated(i, delta, n) as int == (i + delta) % (n as int),
{
    vstd::arithmetic::div_mod::lemma_mod_bound(i + delta, n as int);
}

/// Moving round a ring composes: a move by `a` then by `b` is a move by
/// `a + b`, and a move by 0 stays put.
pub proof fn law_rotation_composes(i: usize, a: int, b: int, n: usize)
    requires
        i < n,
    ensures
        rotated(rotated(i, a, n), b, n) == rotated(i, a + b, n),
        rotated(i, 0, n) == i,
        rotated(i, n as int, n) == i,
{
    lemma_rotated_bound(i, a, n);
    let r = rotated(i, a, n);
    vstd::arithmetic::div_mod::lemma_add_mod_noop_right(r as int, b, n as int);
    vstd::arithmetic::div_mod::lemma_add_mod_noop(i + a, b, n as int);
    vstd::arithmetic::div_mod::lemma_add_mod_noop_right((i + a) % (n as int), b, n as int);
    vstd::arithmetic::div_mod::lemma_small_mod(i as nat, n as nat);
    vstd::arithmetic::div_mod::lemma_mod_multiples_vanish(1, i as int, n as int);
    assert(r + b == (i + a) % (n as int) + b);
    assert((i + a) + b == i + (a + b));
}

/// `i` moved by `delta` in a ring of `n` entries; see `rotated`.
pub fn wrap_index(i: usize, delta: i32, n: usize) -> (r: usize)
    requires
        i < n,
    ensures
        r == rotated(i, delta as int, n),
        r < n,
{
    proof {
        lemma_rotated_bound(i, delta as int, n);
    }
    let nn = n as u128;
    if delta >= 0 {
        let x = (i as u128) + (delta as u128);
        let r = x % nn;
        r as usize
    } else {
        let m = (-(delta as i64)) as u128;
        let d = m % nn;
        let x = (i as u128) + nn - d;
        let r = x % nn;
        proof {
            let q = (m as int) / (n as int);
            vstd::arithmetic::div_mod::lemma_fundamental_div_mod(m as int, n as int);
            vstd::arithmetic::div_mod::lemma_mod_bound(m as int, n as int);
            assert((n as int) * (-(q + 1)) == -((n as int) * q) - n) by (nonlinear_arith);
            assert(m as int == (n as int) * q + d as int);
            assert(i + delta as int == (n as int) * (-(q + 1)) + (i + n - d));
            vstd::arithmetic::div_mod::lemma_mod_multiples_vanish(
                -(q + 1),
                i + n - d,
                n as int,
            );
        }
        r as usize
    }
}

pub open spec fn delete_prompt() -> Seq<char> {
    "Delete cache? Press <y> to confirm, any other key to cancel."@
}

pub open spec fn reset_prompt() -> Seq<char> {
    "Reset config (clears session + settings)? Press <y> to confirm, any other key to cancel."@
}

pub open spec fn updating_message() -> Seq<char> {
    "Updating problem list... (fetching from LeetCode)"@
}

/// A key while the language picker is open: it captures all input.
pub open spec fn picker_next(v: HomeView, i: usize, code: KeyCode) -> (HomeView, HomeAction) {
    let n = v.langs.len() as usize;
    match code {
        KeyCode::Up | KeyCode::Char('k') => (
            HomeView { lang_picker: Some(rotated(i, -1, n)), ..v },
            HomeAction::Nothing,
        ),
        KeyCode::Down | KeyCode::Char('j') => (
            HomeView { lang_picker: Some(rotated(i, 1, n)), ..v },
            HomeAction::Nothing,
        ),
        KeyCode::Enter => (
            HomeView { lang_picker: None, lang: v.langs[i as int], ..v },
            HomeAction::SaveLang,
        ),
        KeyCode::Esc => (
            HomeView { lang_picker: None, status: "Language unchanged."@, ..v },
            HomeAction::Nothing,
        ),
        _ => (v, HomeAction::Nothing),
    }
}

/// A key while a destructive action awaits confirmation: `y` confirms it, any
/// other key cancels it.
pub open spec fn confirm_next(v: HomeView, pending: MenuItem, code: KeyCode) -> (
    HomeView,
    HomeAction,
) {
    match code {
        KeyCode::Char('y') | KeyCode::Char('Y') => (
            HomeView { confirm: None, ..v },
            match pending {
                MenuItem::DeleteCache => HomeAction::DeleteCache,
                MenuItem::ResetConfig => HomeAction::ResetConfig,
                _ => HomeAction::Nothing,
            },
        ),
        _ => (HomeView { confirm: None, status: "Cancelled."@, ..v }, HomeAction::Nothing),
    }
}

/// Enter on a menu entry.
pub open spec fn activate_next(v: HomeView) -> (HomeView, HomeAction) {
    match menu_item_spec(v.menu_selected) {
        MenuItem::SetLang => (HomeView { lang_picker: Some(picker_start(v)), ..v }, HomeAction::Nothing),
        MenuItem::Login => (HomeView { open_login: true, ..v }, HomeAction::Nothing),
        MenuItem::DeleteCache => (
            HomeView { confirm: Some(MenuItem::DeleteCache), status: delete_prompt(), ..v },
            HomeAction::Nothing,
        ),
        MenuItem::ResetConfig => (
            HomeView { confirm: Some(MenuItem::ResetConfig), status: reset_prompt(), ..v },
            HomeAction::Nothing,
        ),
        MenuItem::Quit => (HomeView { quit: true, ..v }, HomeAction::Nothing),
    }
}

/// A key with the menu focused: arrows move round the menu, Enter activates.
pub open spec fn menu_next(v: HomeView, code: KeyCode) -> (HomeView, HomeAction) {
    match code {
        KeyCode::Up => (
            HomeView { menu_selected: rotated(v.menu_selected, -1, MENU_LEN), ..v },
            HomeAction::Nothing,
        ),
        KeyCode::Down => (
            HomeView { menu_selected: rotated(v.menu_selected, 1, MENU_LEN), ..v },
            HomeAction::Nothing,
        ),
        KeyCode::Enter => activate_next(v),
        _ => (v, HomeAction::Nothing),
    }
}

/// The selection moved one row up or down, stopping at the ends of the list.
pub open spec fn moved_selection(v: HomeView, down: bool) -> Option<usize> {
    if v.results.len() == 0 {
        v.selected
    } else {
        let cur = match v.selected {
            Some(i) => i,
            None => 0,
        };
        if down {
            Some(if cur + 1 < v.results.len() {
                (cur + 1) as usize
            } else {
                (v.results.len() - 1) as usize
            })
        } else {
            Some(if cur > 0 {
                (cur - 1) as usize
            } else {
                0
            })
        }
    }
}

/// A key with the search focused: arrows move through the results, Enter
/// opens the selected problem, and typing edits the search text.
pub open spec fn search_next(v: HomeView, key: KeyInput) -> (HomeView, HomeAction) {
    match key.code {
        KeyCode::Up => (HomeView { selected: moved_selection(v, false), ..v }, HomeAction::Nothing),
        KeyCode::Down => (HomeView { selected: moved_selection(v, true), ..v }, HomeAction::Nothing),
        KeyCode::Enter => match v.selected {
            Some(i) => if i < v.results.len() {
                (HomeView { open_solve: Some(v.results[i as int]), ..v }, HomeAction::Nothing)
            } else {
                (v, HomeAction::Nothing)
            },
            None => (v, HomeAction::Nothing),
        },
        KeyCode::Backspace => (
            HomeView {
                search: if v.search.len() > 0 {
                    v.search.drop_last()
                } else {
                    v.search
                },
                ..v
            },
            HomeAction::Refilter,
        ),
        KeyCode::Char(c) => if !key.ctrl {
            (HomeView { search: v.search.push(c), ..v }, HomeAction::Refilter)
        } else {
            (v, HomeAction::Nothing)
        },
        _ => (v, HomeAction::Nothing),
    }
}

/// What a key does to the screen, and what it leaves to the caller. Releases
/// are ignored; an open language picker, then a pending confirmation, capture
/// the key; then come the global keys (Esc quits, Tab switches focus, F1 opens
/// the login, F5 refreshes the problem list); then the focused side.
pub open spec fn key_next(v: HomeView, key: KeyInput) -> (HomeView, HomeAction) {
    if !key.press {
        (v, HomeAction::Nothing)
    } else if v.lang_picker is Some {
        picker_next(v, v.lang_picker->0, key.code)
    } else if v.confirm is Some {
        confirm_next(v, v.confirm->0, key.code)
    } else {
        match key.code {
            KeyCode::Esc => (HomeView { quit: true, ..v }, HomeAction::Nothing),
            KeyCode::Tab => (
                HomeView {
                    focus: match v.focus {
                        Focus::Menu => Focus::Search,
                        Focus::Search => Focus::Menu,
                    },
                    ..v
                },
                HomeAction::Nothing,
            ),
            KeyCode::F(1) => (HomeView { open_login: true, ..v }, HomeAction::Nothing),
            KeyCode::F(5) => (HomeView { status: updating_message(), ..v }, HomeAction::Refresh),
            _ => match v.focus {
                Focus::Menu => menu_next(v, key.code),
                Focus::Search => search_next(v, key),
            },
        }
    }
}

/// String `String::pop`: drops the last character, if any.
#[verifier::external_body]
fn pop_char(s: &mut String)
    ensures
        final(s)@ == (if old(s)@.len() > 0 {
            old(s)@.drop_last()
        } else {
            old(s)@
        }),
{
    s.pop();
}

impl Home {
    pub open spec fn wf(&self) -> bool {
        self@.wf()
    }

    /// A fresh screen: empty search and results, first menu entry, search
    /// focused, profile loading. `langs` are the languages that can be picked
    /// as default, `lang` the current default. The caller then fills the
    /// results from the cache with `set_results`.
    pub fn new(langs: Vec<String>, lang: String) -> (h: Home)
        requires
            langs.len() > 0,
        ensures
            h.wf(),
            h@.search.len() == 0,
            h@.results.len() == 0,
            h@.selected is None,
            h@.menu_selected == 0,
            h@.focus == Focus::Search,
            h@.status == "Type to search \u{2022} <Tab> switches to the menu."@,
            h@.confirm is None,
            h@.langs == views_of(langs@),
            h@.lang == lang@,
            h@.lang_picker is None,
            !h@.open_login,
            h@.open_solve is None,
            !h@.quit,
            h.profile_spec() is Loading,
    {
        Home {
            search: String::new(),
            results: Vec::new(),
            selected: None,
            menu_selected: 0,
            focus: Focus::Search,
            profile: Profile::Loading,
            status: owned("Type to search \u{2022} <Tab> switches to the menu."),
            confirm: None,
            langs,
            lang,
            lang_picker: None,
            open_login: false,
            open_solve: None,
            quit: false,
        }
    }

    pub closed spec fn profile_spec(&self) -> Profile {
        self.profile
    }

    /// The search text.
    pub fn search(&self) -> (r: &str)
        ensures
            r@ == self@.search,
    {
        self.search.as_str()
    }

    /// The cache query for the search text: the trimmed text, or `None` when
    /// it is blank.
    pub fn search_query(&self) -> (r: Option<String>)
        ensures
            r matches Some(q) ==> q@ == trim_spec(self@.search) && q@.len() > 0,
            r is None <==> trim_spec(self@.search).len() == 0,
    {
        let t = trim(self.search.as_str());
        if t.is_empty() {
            None
        } else {
            Some(owned(t))
        }
    }

    /// Replace the listed problems (their slugs, in display order); the first
    /// one is selected.
    pub fn set_results(&mut self, slugs: Vec<String>)
        requires
            old(self).wf(),
        ensures
            final(self).wf(),
            final(self)@ == (HomeView {
                results: views_of(slugs@),
                selected: if slugs.len() == 0 {
                    None
                } else {
                    Some(0usize)
                },
                ..old(self)@
            }),
            final(self).profile_spec() == old(self).profile_spec(),
    {
        let empty = slugs.len() == 0;
        self.results = slugs;
        self.selected = if empty {
            None
        } else {
            Some(0)
        };
        assert(self@ =~= (HomeView {
            results: views_of(self.results@),
            selected: self.selected,
            ..old(self)@
        }));
    }

    fn move_result(&mut self, down: bool)
        requires
            old(self).wf(),
        ensures
            final(self).wf(),
            final(self)@ == (HomeView { selected: moved_selection(old(self)@, down), ..old(self)@ }),
            final(self).profile_spec() == old(self).profile_spec(),
    {
        if self.results.len() == 0 {
            return ;
        }
        let cur = match self.selected {
            Some(i) => i,
            None => 0,
        };
        let next = if down {
            if cur + 1 < self.results.len() {
                cur + 1
            } else {
                self.results.len() - 1
            }
        } else {
            if cur > 0 {
                cur - 1
            } else {
                0
            }
        };
        self.selected = Some(next);
    }

    /// Move the menu highlight by `delta` entries, wrapping round.
    fn move_menu(&mut self, delta: i32)
        requires
            old(self).wf(),
        ensures
            final(self).wf(),
            final(self)@ == (HomeView {
                menu_selected: rotated(old(self)@.menu_selected, delta as int, MENU_LEN),
                ..old(self)@
            }),
            final(self).profile_spec() == old(self).profile_spec(),
    {
        self.menu_selected = wrap_index(self.menu_selected, delta, MENU_LEN);
    }

    /// Move the open language picker from `i` by `delta` entries, wrapping
    /// round.
    fn move_lang(&mut self, i: usize, delta: i32)
        requires
            old(self).wf(),
            old(self)@.lang_picker == Some(i),
        ensures
            final(self).wf(),
            final(self)@ == (HomeView {
                lang_picker: Some(rotated(i, delta as int, old(self)@.langs.len() as usize)),
                ..old(self)@
            }),
            final(self).profile_spec() == old(self).profile_spec(),
    {
        let n = self.langs.len();
        self.lang_picker = Some(wrap_index(i, delta, n));
    }

    fn picker_key(&mut self, i: usize, code: KeyCode) -> (a: HomeAction)
        requires
            old(self).wf(),
            old(self)@.lang_picker == Some(i),
        ensures
            final(self).wf(),
            (final(self)@, a) == picker_next(old(self)@, i, code),
            final(self).profile_spec() == old(self).profile_spec(),
    {
        match code {
            KeyCode::Up | KeyCode::Char('k') => {
                self.move_lang(i, -1);
                HomeAction::Nothing
            },
            KeyCode::Down | KeyCode::Char('j') => {
                self.move_lang(i, 1);
                HomeAction::Nothing
            },
            KeyCode::Enter => {
                self.lang = owned(self.langs[i].as_str());
                self.lang_picker = None;
                HomeAction::SaveLang
            },
            KeyCode::Esc => {
                self.lang_picker = None;
                self.status = owned("Language unchanged.");
                HomeAction::Nothing
            },
            _ => HomeAction::Nothing,
        }
    }

    fn confirm_key(&mut self, pending: MenuItem, code: KeyCode) -> (a: HomeAction)
        requires
            old(self).wf(),
            old(self)@.confirm == Some(pending),
        ensures
            final(self).wf(),
            (final(self)@, a) == confirm_next(old(self)@, pending, code),
            final(self).profile_spec() == old(self).profile_spec(),
    {
        match code {
            KeyCode::Char('y') | KeyCode::Char('Y') => {
                self.confirm = None;
                match pending {
                    MenuItem::DeleteCache => HomeAction::DeleteCache,
                    MenuItem::ResetConfig => HomeAction::ResetConfig,
                    _ => HomeAction::Nothing,
                }
            },
            _ => {
                self.confirm = None;
                self.status = owned("Cancelled.");
                HomeAction::Nothing
            },
        }
    }

    fn lang_position(&self) -> (r: usize)
        requires
            self.wf(),
        ensures
            r == picker_start(self@),
            r < self@.langs.len(),
    {
        let mut k: usize = 0;
        while k < self.langs.len()
            invariant
                0 <= k <= self.langs.len(),
                forall|j: int| 0 <= j < k ==> self.langs@[j]@ != self.lang@,
            decreases self.langs.len() - k,
        {
            if text_eq(self.langs[k].as_str(), self.lang.as_str()) {
                proof {
                    assert forall|j: int| 0 <= j < k implies self@.langs[j] != self@.lang by {
                        assert(self@.langs[j] == self.langs@[j]@);
                    }
                    assert(self@.langs[k as int] == self.langs@[k as int]@);
                    lemma_first_index_at(self@.langs, self@.lang, k as int);
                }
                return k;
            }
            k = k + 1;
        }
        proof {
            assert forall|j: int| 0 <= j < k implies self@.langs[j] != self@.lang by {
                assert(self@.langs[j] == self.langs@[j]@);
            }
            lemma_first_index_at(self@.langs, self@.lang, k as int);
        }
        0
    }

    fn activate_menu(&mut self) -> (a: HomeAction)
        requires
            old(self).wf(),
        ensures
            final(self).wf(),
            (final(self)@, a) == activate_next(old(self)@),
            final(self).profile_spec() == old(self).profile_spec(),
    {
        match menu_item_at(self.menu_selected) {
            MenuItem::SetLang => {
                let p = self.lang_position();
                self.lang_picker = Some(p);
            },
            MenuItem::Login => {
                self.open_login = true;
            },
            MenuItem::DeleteCache => {
                self.confirm = Some(MenuItem::DeleteCache);
                self.status = owned("Delete cache? Press <y> to confirm, any other key to cancel.");
            },
            MenuItem::ResetConfig => {
                self.confirm = Some(MenuItem::ResetConfig);
                self.status = owned(
                    "Reset config (clears session + settings)? Press <y> to confirm, any other key to cancel.",
                );
            },
            MenuItem::Quit => {
                self.quit = true;
            },
        }
        HomeAction::Nothing
    }

    fn menu_key(&mut self, code: KeyCode) -> (a: HomeAction)
        requires
            old(self).wf(),
        ensures
            final(self).wf(),
            (final(self)@, a) == menu_next(old(self)@, code),
            final(self).profile_spec() == old(self).profile_spec(),
    {
        match code {
            KeyCode::Up => {
                self.move_menu(-1);
                HomeAction::Nothing
            },
            KeyCode::Down => {
                self.move_menu(1);
                HomeAction::Nothing
            },
            KeyCode::Enter => self.activate_menu(),
            _ => HomeAction::Nothing,
        }
    }

    fn search_key(&mut self, key: KeyInput) -> (a: HomeAction)
        requires
            old(self).wf(),
        ensures
            final(self).wf(),
            (final(self)@, a) == search_next(old(self)@, key),
            final(self).profile_spec() == old(self).profile_spec(),
    {
        match key.code {
            KeyCode::Up => {
                self.move_result(false);
                HomeAction::Nothing
            },
            KeyCode::Down => {
                self.move_result(true);
                HomeAction::Nothing
            },
            KeyCode::Enter => {
                if let Some(i) = self.selected {
                    if i < self.results.len() {
                        self.open_solve = Some(owned(self.results[i].as_str()));
                    }
                }
                HomeAction::Nothing
            },
            KeyCode::Backspace => {
                pop_char(&mut self.search);
                HomeAction::Refilter
            },
            KeyCode::Char(c) => {
                if !key.ctrl {
                    push_char(&mut self.search, c);
                    HomeAction::Refilter
                } else {
                    HomeAction::Nothing
                }
            },
            _ => HomeAction::Nothing,
        }
    }

    /// Handle one key; see `key_next`.
    pub fn handle_key(&mut self, key: KeyInput) -> (a: HomeAction)
        requires
            old(self).wf(),
        ensures
            final(self).wf(),
            (final(self)@, a) == key_next(old(self)@, key),
            final(self).profile_spec() == old(self).profile_spec(),
    {
        if !key.press {
            return HomeAction::Nothing;
        }
        if let Some(i) = self.lang_picker {
            return self.picker_key(i, key.code);
        }
        if let Some(p) = self.confirm {
            return self.confirm_key(p, key.code);
        }
        match key.code {
            KeyCode::Esc => {
                self.quit = true;
                return HomeAction::Nothing;
            },
            KeyCode::Tab => {
                self.focus = match self.focus {
                    Focus::Menu => Focus::Search,
                    Focus::Search => Focus::Menu,
                };
                return HomeAction::Nothing;
            },
            KeyCode::F(1) => {
                self.open_login = true;
                return HomeAction::Nothing;
            },
            KeyCode::F(5) => {
                self.status = owned("Updating problem list... (fetching from LeetCode)");
                return HomeAction::Refresh;
            },
            _ => {},
        }
        match self.focus {
            Focus::Menu => self.menu_key(key.code),
            Focus::Search => self.search_key(key),
        }
    }

    /// The profile panel.
    pub fn profile(&self) -> (r: &Profile)
        ensures
            *r == self.profile_spec(),
    {
        &self.profile
    }

    /// The status line.
    pub fn status(&self) -> (r: &str)
        ensures
            r@ == self@.status,
    {
        self.status.as_str()
    }

    /// Position of the selected result, if any.
    pub fn selected(&self) -> (r: Option<usize>)
        ensures
            r == self@.selected,
    {
        self.selected
    }

    /// Number of listed problems.
    pub fn results_len(&self) -> (r: usize)
        ensures
            r == self@.results.len(),
    {
        self.results.len()
    }

    /// Position of the highlighted menu entry.
    pub fn menu_selected(&self) -> (r: usize)
        ensures
            r == self@.menu_selected,
    {
        self.menu_selected
    }

    /// The focused side.
    pub fn focus(&self) -> (r: Focus)
        ensures
            r == self@.focus,
    {
        self.focus
    }

    /// The destructive action awaiting confirmation, if any.
    pub fn confirm(&self) -> (r: Option<MenuItem>)
        ensures
            r == self@.confirm,
    {
        self.confirm
    }

    /// Selection of the language picker, when it is open.
    pub fn lang_picker(&self) -> (r: Option<usize>)
        ensures
            r == self@.lang_picker,
    {
        self.lang_picker
    }

    /// The current default language.
    pub fn lang(&self) -> (r: &str)
        ensures
            r@ == self@.lang,
    {
        self.lang.as_str()
    }

    /// Whether the user asked to quit.
    pub fn quit(&self) -> (r: bool)
        ensures
            r == self@.quit,
    {
        self.quit
    }

    /// Take the request to open the login (it is cleared).
    pub fn take_open_login(&mut self) -> (r: bool)
        requires
            old(self).wf(),
        ensures
            final(self).wf(),
            r == old(self)@.open_login,
            final(self)@ == (HomeView { open_login: false, ..old(self)@ }),
            final(self).profile_spec() == old(self).profile_spec(),
    {
        let r = self.open_login;
        self.open_login = false;
        r
    }

    /// Take the request to open a problem, by slug (it is cleared).
    pub fn take_open_solve(&mut self) -> (r: Option<String>)
        requires
            old(self).wf(),
        ensures
            final(self).wf(),
            (match r {
                Some(s) => Some(s@),
                None => None,
            }) == old(self)@.open_solve,
            final(self)@ == (HomeView { open_solve: None, ..old(self)@ }),
            final(self).profile_spec() == old(self).profile_spec(),
    {
        let r = self.open_solve.take();
        r
    }

    fn set_status(&mut self, prefix: &str, detail: &str)
        requires
            old(self).wf(),
        ensures
            final(self).wf(),
            final(self)@ == (HomeView { status: prefix@ + detail@, ..old(self)@ }),
            final(self).profile_spec() == old(self).profile_spec(),
    {
        let mut m = owned(prefix);
        append(&mut m, detail);
        self.status = m;
    }

    /// Report the saving of a newly picked default language: `None` when it
    /// was saved, else the error.
    pub fn lang_saved(&mut self, error: Option<&str>)
        requires
            old(self).wf(),
        ensures
            final(self).wf(),
            final(self)@ == (HomeView {
                status: match error {
                    None => "Default language set to "@ + old(self)@.lang + "."@,
                    Some(e) => "Failed to save config: "@ + e@,
                },
                ..old(self)@
            }),
            final(self).profile_spec() == old(self).profile_spec(),
    {
        match error {
            None => {
                let mut m = owned("Default language set to ");
                append(&mut m, self.lang.as_str());
                append(&mut m, ".");
                self.status = m;
            },
            Some(e) => self.set_status("Failed to save config: ", e),
        }
    }

    /// Report the deletion of the cache: `None` when it was deleted (the
    /// results are then to be refiltered), else the error.
    pub fn cache_deleted(&mut self, error: Option<&str>) -> (a: HomeAction)
        requires
            old(self).wf(),
        ensures
            final(self).wf(),
            final(self)@ == (HomeView {
                status: match error {
                    None => "Cache deleted."@,
                    Some(e) => "Failed to delete cache: "@ + e@,
                },
                ..old(self)@
            }),
            a == (if error is None {
                HomeAction::Refilter
            } else {
                HomeAction::Nothing
            }),
            final(self).profile_spec() == old(self).profile_spec(),
    {
        match error {
            None => {
                self.status = owned("Cache deleted.");
                HomeAction::Refilter
            },
            Some(e) => {
                self.set_status("Failed to delete cache: ", e);
                HomeAction::Nothing
            },
        }
    }

    /// Report the reset of the configuration, with the default language that
    /// it now has: `None` when it was saved, else the error. The profile is to
    /// be loaded again afterwards.
    pub fn config_reset(&mut self, lang: String, error: Option<&str>)
        requires
            old(self).wf(),
        ensures
            final(self).wf(),
            final(self)@ == (HomeView {
                lang: lang@,
                status: match error {
                    None => "Config reset to defaults (session cleared)."@,
                    Some(e) => "Failed to reset config: "@ + e@,
                },
                ..old(self)@
            }),
            final(self).profile_spec() == old(self).profile_spec(),
    {
        self.lang = lang;
        match error {
            None => {
                self.status = owned("Config reset to defaults (session cleared).");
            },
            Some(e) => self.set_status("Failed to reset config: ", e),
        }
    }

    /// Report how a refresh of the problem list ended; after an update the
    /// results are to be refiltered.
    pub fn refresh_finished(&mut self, outcome: &RefreshOutcome) -> (a: HomeAction)
        requires
            old(self).wf(),
        ensures
            final(self).wf(),
            final(self)@ == (HomeView {
                status: match *outcome {
                    RefreshOutcome::Updated(n) => "Updated "@ + decimal_text(n as int)
                        + " problems."@,
                    RefreshOutcome::ClientError(e) => "Client error: "@ + e@,
                    RefreshOutcome::FetchFailed(e) => "Update failed: "@ + e@,
                    RefreshOutcome::CacheWriteFailed(e) => "Cache write failed: "@ + e@,
                },
                ..old(self)@
            }),
            a == (if outcome is Updated {
                HomeAction::Refilter
            } else {
                HomeAction::Nothing
            }),
            final(self).profile_spec() == old(self).profile_spec(),
    {
        match outcome {
            RefreshOutcome::Updated(n) => {
                let mut m = owned("Updated ");
                let t = usize_text(*n);
                append(&mut m, t.as_str());
                append(&mut m, " problems.");
                self.status = m;
                HomeAction::Refilter
            },
            RefreshOutcome::ClientError(e) => {
                self.set_status("Client error: ", e.as_str());
                HomeAction::Nothing
            },
            RefreshOutcome::FetchFailed(e) => {
                self.set_status("Update failed: ", e.as_str());
                HomeAction::Nothing
            },
            RefreshOutcome::CacheWriteFailed(e) => {
                self.set_status("Cache write failed: ", e.as_str());
                HomeAction::Nothing
            },
        }
    }

    /// Report the end of the login: the user now signed in, or `None` when the
    /// login was left. After a login the profile is to be loaded again.
    pub fn login_finished(&mut self, username: Option<&str>)
        requires
            old(self).wf(),
        ensures
            final(self).wf(),
            final(self)@ == (HomeView {
                status: match username {
                    Some(u) => "Logged in as "@ + u@ + "."@,
                    None => "Login cancelled."@,
                },
                ..old(self)@
            }),
            final(self).profile_spec() == old(self).profile_spec(),
    {
        match username {
            Some(u) => {
                let mut m = owned("Logged in as ");
                append(&mut m, u);
                append(&mut m, ".");
                self.status = m;
            },
            None => {
                self.status = owned("Login cancelled.");
            },
        }
    }

    /// Report that the selected problem could not be opened.
    pub fn solve_failed(&mut self, error: &str)
        requires
            old(self).wf(),
        ensures
            final(self).wf(),
            final(self)@ == (HomeView {
                status: "Could not open problem: "@ + error@,
                ..old(self)@
            }),
            final(self).profile_spec() == old(self).profile_spec(),
    {
        self.set_status("Could not open problem: ", error);
    }

    /// Start loading the profile. Without credentials the panel says so and
    /// there is nothing to load (`false`); else it shows loading and the
    /// caller is to fetch the profile (`true`).
    pub fn begin_profile_load(&mut self, authenticated: bool) -> (r: bool)
        requires
            old(self).wf(),
        ensures
            final(self).wf(),
            final(self)@ == old(self)@,
            r == authenticated,
            authenticated ==> final(self).profile_spec() is Loading,
            !authenticated ==> (final(self).profile_spec() matches Profile::Unavailable(m) && m@
                == "Not logged in."@),
    {
        if !authenticated {
            self.profile = Profile::Unavailable(owned("Not logged in."));
            return false;
        }
        self.profile = Profile::Loading;
        true
    }

    /// The profile has loaded.
    pub fn profile_loaded(&mut self, stats: ProfileStats)
        requires
            old(self).wf(),
        ensures
            final(self).wf(),
            final(self)@ == old(self)@,
            final(self).profile_spec() == Profile::Ready(stats),
    {
        self.profile = Profile::Ready(stats);
    }

    /// The profile could not be loaded: no client could be built
    /// (`client_error`), or the request failed; `error` says why.
    pub fn profile_failed(&mut self, client_error: bool, error: &str)
        requires
            old(self).wf(),
        ensures
            final(self).wf(),
            final(self)@ == old(self)@,
            final(self).profile_spec() matches Profile::Unavailable(m) && m@ == (if client_error {
                "Client error: "@
            } else {
                "Could not load profile: "@
            }) + error@,
    {
        let mut m = if client_error {
            owned("Client error: ")
        } else {
            owned("Could not load profile: ")
        };
        append(&mut m, error);
        self.profile = Profile::Unavailable(m);
    }

    /// Title of the result list: how many problems are listed of how many
    /// are cached.
    pub fn results_title(&self, total: usize) -> (r: String)
        ensures
            r@ == " Problems ("@ + decimal_text(self@.results.len() as int) + " / "@
                + decimal_text(total as int) + ") "@,
    {
        let mut m = owned(" Problems (");
        let n = usize_text(self.results.len());
        append(&mut m, n.as_str());
        append(&mut m, " / ");
        let t = usize_text(total);
        append(&mut m, t.as_str());
        append(&mut m, ") ");
        m
    }
}

/// Cells of a profile progress bar in a panel `width` columns wide: what is
/// left after 30 columns of labels, kept between 6 and 20.
pub fn bar_cells(width: u16) -> (r: usize)
    ensures
        r == (if width < 36 {
            6
        } else if width > 50 {
            20
        } else {
            width - 30
        }),
{
    let rest: u16 = if width > 30 {
        width - 30
    } else {
        0
    };
    let c: u16 = if rest < 6 {
        6
    } else if rest > 20 {
        20
    } else {
        rest
    };
    c as usize
}

/// A progress bar `cells` wide with `filled` of them (at most all) drawn
/// solid: `[███   ]`.
pub fn progress_bar(filled: usize, cells: usize) -> (r: String)
    ensures
        ({
            let f = if filled < cells {
                filled
            } else {
                cells
            };
            r@ == seq!['['] + crate::text::repeat_spec(seq!['\u{2588}'], f as nat)
                + crate::text::repeat_spec(seq![' '], (cells - f) as nat) + seq![']']
        }),
{
    let f = if filled < cells {
        filled
    } else {
        cells
    };
    let mut out = String::new();
    push_char(&mut out, '[');
    let mut i: usize = 0;
    while i < f
        invariant
            0 <= i <= f,
            out@ == seq!['['] + crate::text::repeat_spec(seq!['\u{2588}'], i as nat),
        decreases f - i,
    {
        push_char(&mut out, '\u{2588}');
        i = i + 1;
    }
    let ghost head = out@;
    let mut j: usize = 0;
    while j < cells - f
        invariant
            0 <= j <= cells - f,
            f <= cells,
            out@ == head + crate::text::repeat_spec(seq![' '], j as nat),
        decreases cells - f - j,
    {
        push_char(&mut out, ' ');
        proof {
            assert(crate::text::repeat_spec(seq![' '], (j + 1) as nat) == crate::text::repeat_spec(
                seq![' '],
                j as nat,
            ) + seq![' ']);
        }
        j = j + 1;
        assert(out@ =~= head + crate::text::repeat_spec(seq![' '], j as nat));
    }
    push_char(&mut out, ']');
    out
}

/// A plain press of `code`.
pub open spec fn press(code: KeyCode) -> KeyInput {
    KeyInput { code, ctrl: false, press: true }
}

/// No overlay (language picker or confirmation) captures keys.
pub open spec fn no_overlay(v: HomeView) -> bool {
    v.lang_picker is None && v.confirm is None
}

proof fn lemma_first_index_bounds(s: Seq<Seq<char>>, x: Seq<char>)
    ensures
        first_index(s, x) matches Some(k) ==> 0 <= k < s.len(),
    decreases s.len(),
{
    if s.len() > 0 && s[0] != x {
        lemma_first_index_bounds(s.skip(1), x);
    }
}

/// Every key keeps the screen well formed: the selection fits the results,
/// and the menu and picker positions stay within their lists.
pub proof fn law_key_keeps_wf(v: HomeView, key: KeyInput)
    requires
        v.wf(),
    ensures
        key_next(v, key).0.wf(),
{
    lemma_first_index_bounds(v.langs, v.lang);
}

/// Key releases change nothing.
pub proof fn law_releases_ignored(v: HomeView, key: KeyInput)
    requires
        !key.press,
    ensures
        key_next(v, key) == (v, HomeAction::Nothing),
{
}

/// In the menu, Down then Up (or Up then Down) leaves the screen as it was.
pub proof fn law_menu_down_up_undo(v: HomeView)
    requires
        v.wf(),
        no_overlay(v),
        v.focus == Focus::Menu,
    ensures
        key_next(key_next(v, press(KeyCode::Down)).0, press(KeyCode::Up)) == (
            v,
            HomeAction::Nothing,
        ),
        key_next(key_next(v, press(KeyCode::Up)).0, press(KeyCode::Down)) == (
            v,
            HomeAction::Nothing,
        ),
{
    assert(key_next(key_next(v, press(KeyCode::Down)).0, press(KeyCode::Up)).0 =~= v);
    assert(key_next(key_next(v, press(KeyCode::Up)).0, press(KeyCode::Down)).0 =~= v);
}

/// In the menu, Down and Up move the highlight by one entry modulo the menu's
/// length (`rem_euclid`), wrapping from the last entry to the first and back,
/// and change nothing else.
pub proof fn law_menu_step_wraps(v: HomeView)
    requires
        v.wf(),
        no_overlay(v),
        v.focus == Focus::Menu,
    ensures
        key_next(v, press(KeyCode::Down)).0.menu_selected as int == (v.menu_selected + 1) % (
        MENU_LEN as int),
        key_next(v, press(KeyCode::Up)).0.menu_selected as int == (v.menu_selected - 1) % (
        MENU_LEN as int),
        key_next(v, press(KeyCode::Down)).0 == (HomeView {
            menu_selected: key_next(v, press(KeyCode::Down)).0.menu_selected,
            ..v
        }),
        key_next(v, press(KeyCode::Up)).0 == (HomeView {
            menu_selected: key_next(v, press(KeyCode::Up)).0.menu_selected,
            ..v
        }),
        v.menu_selected == MENU_LEN - 1 ==> key_next(v, press(KeyCode::Down)).0.menu_selected
            == 0,
        v.menu_selected == 0 ==> key_next(v, press(KeyCode::Up)).0.menu_selected == MENU_LEN - 1,
{
    lemma_rotated_bound(v.menu_selected, 1, MENU_LEN);
    lemma_rotated_bound(v.menu_selected, -1, MENU_LEN);
    assert(key_next(v, press(KeyCode::Down)).0 =~= (HomeView {
        menu_selected: key_next(v, press(KeyCode::Down)).0.menu_selected,
        ..v
    }));
    assert(key_next(v, press(KeyCode::Up)).0 =~= (HomeView {
        menu_selected: key_next(v, press(KeyCode::Up)).0.menu_selected,
        ..v
    }));
}

/// The menu is a ring: five presses of Down come back to the same entry.
pub proof fn law_menu_ring(v: HomeView)
    requires
        v.wf(),
        no_overlay(v),
        v.focus == Focus::Menu,
    ensures
        ({
            let d = press(KeyCode::Down);
            key_next(key_next(key_next(key_next(key_next(v, d).0, d).0, d).0, d).0, d).0 == v
        }),
{
    let d = press(KeyCode::Down);
    let m = v.menu_selected;
    let v1 = key_next(v, d).0;
    let v2 = key_next(v1, d).0;
    let v3 = key_next(v2, d).0;
    let v4 = key_next(v3, d).0;
    let v5 = key_next(v4, d).0;
    law_rotation_composes(m, 1, 1, MENU_LEN);
    law_rotation_composes(m, 2, 1, MENU_LEN);
    law_rotation_composes(m, 3, 1, MENU_LEN);
    law_rotation_composes(m, 4, 1, MENU_LEN);
    lemma_rotated_bound(m, 1, MENU_LEN);
    lemma_rotated_bound(m, 2, MENU_LEN);
    lemma_rotated_bound(m, 3, MENU_LEN);
    lemma_rotated_bound(m, 4, MENU_LEN);
    assert(v1 == HomeView { menu_selected: rotated(m, 1, MENU_LEN), ..v });
    assert(v2 == HomeView { menu_selected: rotated(m, 2, MENU_LEN), ..v });
    assert(v3 == HomeView { menu_selected: rotated(m, 3, MENU_LEN), ..v });
    assert(v4 == HomeView { menu_selected: rotated(m, 4, MENU_LEN), ..v });
    assert(v5 =~= v);
}

/// Tab twice gives the focus back to where it was, changing nothing else.
pub proof fn law_tab_twice_undo(v: HomeView)
    requires
        no_overlay(v),
    ensures
        key_next(key_next(v, press(KeyCode::Tab)).0, press(KeyCode::Tab)) == (
            v,
            HomeAction::Nothing,
        ),
{
    assert(key_next(key_next(v, press(KeyCode::Tab)).0, press(KeyCode::Tab)).0 =~= v);
}

/// In the search, typing a character then Backspace leaves the screen as it
/// was; each of the two keys asks for the results to be refiltered.
pub proof fn law_type_then_backspace_undo(v: HomeView, c: char)
    requires
        no_overlay(v),
        v.focus == Focus::Search,
    ensures
        key_next(v, press(KeyCode::Char(c))).1 == HomeAction::Refilter,
        key_next(key_next(v, press(KeyCode::Char(c))).0, press(KeyCode::Backspace)) == (
            v,
            HomeAction::Refilter,
        ),
{
    let v1 = key_next(v, press(KeyCode::Char(c))).0;
    assert(v1.search.drop_last() =~= v.search);
    assert(key_next(v1, press(KeyCode::Backspace)).0 =~= v);
}

/// In the open language picker, Down then Up (or Up then Down) leaves the
/// screen as it was.
pub proof fn law_picker_down_up_undo(v: HomeView)
    requires
        v.wf(),
        v.lang_picker is Some,
    ensures
        key_next(key_next(v, press(KeyCode::Down)).0, press(KeyCode::Up)) == (
            v,
            HomeAction::Nothing,
        ),
        key_next(key_next(v, press(KeyCode::Up)).0, press(KeyCode::Down)) == (
            v,
            HomeAction::Nothing,
        ),
{
    let i = v.lang_picker->0;
    let n = v.langs.len() as usize;
    law_rotation_composes(i, 1, -1, n);
    law_rotation_composes(i, -1, 1, n);
    assert(key_next(key_next(v, press(KeyCode::Down)).0, press(KeyCode::Up)).0 =~= v);
    assert(key_next(key_next(v, press(KeyCode::Up)).0, press(KeyCode::Down)).0 =~= v);
}

/// A pending confirmation is consumed by the next key press: it is gone
/// afterwards, and only `y` or `Y` lets the destructive action through.
pub proof fn law_confirmation_consumed(v: HomeView, key: KeyInput)
    requires
        v.lang_picker is None,
        v.confirm is Some,
        key.press,
    ensures
        key_next(v, key).0.confirm is None,
        key_next(v, key).1 != HomeAction::Nothing ==> (key.code == KeyCode::Char('y')
            || key.code == KeyCode::Char('Y')),
        (key.code == KeyCode::Char('y') || key.code == KeyCode::Char('Y')) ==> key_next(
            v,
            key,
        ).1 == (match v.confirm->0 {
            MenuItem::DeleteCache => HomeAction::DeleteCache,
            MenuItem::ResetConfig => HomeAction::ResetConfig,
            _ => HomeAction::Nothing,
        }),
{
}

/// In the search, Down moves the selection exactly one row down unless it is
/// on the last result, and Up exactly one row up unless it is on the first;
/// nothing else changes.
pub proof fn law_selection_moves_one_row(v: HomeView, i: usize)
    requires
        v.wf(),
        no_overlay(v),
        v.focus == Focus::Search,
        v.selected == Some(i),
    ensures
        i + 1 < v.results.len() ==> key_next(v, press(KeyCode::Down)) == (
            HomeView { selected: Some((i + 1) as usize), ..v },
            HomeAction::Nothing,
        ),
        i > 0 ==> key_next(v, press(KeyCode::Up)) == (
            HomeView { selected: Some((i - 1) as usize), ..v },
            HomeAction::Nothing,
        ),
{
    if i + 1 < v.results.len() {
        assert(key_next(v, press(KeyCode::Down)).0 =~= HomeView {
            selected: Some((i + 1) as usize),
            ..v
        });
    }
    if i > 0 {
        assert(key_next(v, press(KeyCode::Up)).0 =~= HomeView {
            selected: Some((i - 1) as usize),
            ..v
        });
    }
}

/// Moving through the results stops at the ends: Up on the first result and
/// Down on the last one keep the selection.
pub proof fn law_selection_stops_at_ends(v: HomeView)
    requires
        v.wf(),
        no_overlay(v),
        v.focus == Focus::Search,
        v.results.len() > 0,
    ensures
        v.selected == Some(0usize) ==> key_next(v, press(KeyCode::Up)).0 == v,
        v.selected == Some((v.results.len() - 1) as usize) ==> key_next(
            v,
            press(KeyCode::Down),
        ).0 == v,
{
    assert(v.selected == Some(0usize) ==> key_next(v, press(KeyCode::Up)).0 =~= v);
    let last = (v.results.len() - 1) as usize;
    assert(last + 1 == v.results.len());
    assert(v.selected == Some((v.results.len() - 1) as usize) ==> key_next(
        v,
        press(KeyCode::Down),
    ).0 =~= v);
}

} // verus!
