//! The key state machine behind the panel: home page, secondary panels,
//! scheme search, and the burst shortcuts.

use vstd::prelude::*;
use vstd::string::{StrSliceExecFns, StringExecFns};
use crate::scheme::{
    Scheme, SchemeManager, SchemeTable, lemma_matching_ids, lists_schemes, matching_ids,
    spell_filter, tens_filter,
};
use crate::text::push_char;

verus! {

/// Virtual-key code of the backspace key.
pub const VK_BACK: u32 = 0x08;

/// Longest pinyin query the search page accepts.
pub const MAX_SPELL_LEN: usize = 16;

/// Panel page.
#[derive(Debug, Clone, Copy, PartialEq, Eq, Structural)]
pub enum Page {
    /// Home page: the nine primary messages.
    Home,
    /// Secondary panel 1-9: its ten messages.
    Secondary(u8),
    /// Scheme search page.
    Search,
}

/// What the search page has been typed so far.
#[derive(Debug)]
enum SearchMode {
    /// A tens digit of a scheme number.
    ById(u8),
    /// A prefix of pinyin initials.
    BySpell(String),
}

/// What a key press asks the caller to do.
#[derive(Debug)]
pub enum ActionResult {
    /// Nothing.
    Nothing,
    /// Show another page.
    SwitchPage(Page),
    /// Make another scheme active.
    SwitchScheme(u8),
    /// Send a message.
    SendMessage(String),
    /// Start sending a secondary panel message by message: (scheme, panel 1-9).
    StartBurst(u8, u8),
    /// Set the burst interval (0 = off, 1-9 seconds).
    SetBurstInterval(u8),
    /// Close the panel.
    Close,
    /// Show the search query and its results (number, name).
    UpdateSearch(String, Vec<(u8, String)>),
}

/// Abstract search input.
pub enum SearchInput {
    ById(u8),
    BySpell(Seq<char>),
}

/// Abstract action, with texts as character sequences.
pub enum Action {
    Nothing,
    SwitchPage(Page),
    SwitchScheme(u8),
    SendMessage(Seq<char>),
    StartBurst(u8, u8),
    SetBurstInterval(u8),
    Close,
    UpdateSearch(Seq<char>, Seq<(u8, Seq<char>)>),
}

impl View for ActionResult {
    type V = Action;

    open spec fn view(&self) -> Action {
        match self {
            ActionResult::Nothing => Action::Nothing,
            ActionResult::SwitchPage(p) => Action::SwitchPage(*p),
            ActionResult::SwitchScheme(id) => Action::SwitchScheme(*id),
            ActionResult::SendMessage(m) => Action::SendMessage(m@),
            ActionResult::StartBurst(id, n) => Action::StartBurst(*id, *n),
            ActionResult::SetBurstInterval(n) => Action::SetBurstInterval(*n),
            ActionResult::Close => Action::Close,
            ActionResult::UpdateSearch(q, r) => Action::UpdateSearch(
                q@,
                r@.map_values(|e: (u8, String)| (e.0, e.1@)),
            ),
        }
    }
}

/// Abstract state of the machine.
pub struct PanelState {
    pub page: Page,
    pub scheme_id: u8,
    pub search: Option<SearchInput>,
    pub space_held: bool,
    pub burst_interval: u8,
    pub use_secondary: bool,
    pub auto_back: bool,
}

/// The states the machine can be in: a secondary panel is numbered 1-9, only
/// the search page has search input, a number search holds one digit and a
/// pinyin search holds 1 to 16 initials.
pub open spec fn wf_state(s: PanelState) -> bool {
    &&& (s.page matches Page::Secondary(n) ==> 1 <= n <= 9)
    &&& (s.search is Some ==> s.page == Page::Search)
    &&& (s.search matches Some(SearchInput::ById(t)) ==> t <= 9)
    &&& (s.search matches Some(SearchInput::BySpell(q)) ==> 1 <= q.len() <= MAX_SPELL_LEN)
}

/// The digit a key stands for: main-row digits `'0'..='9'` (48-57) and keypad digits (96-105).
pub open spec fn digit_of(vk: u32) -> Option<u8> {
    if 48 <= vk <= 57 {
        Some((vk - 48) as u8)
    } else if 96 <= vk <= 105 {
        Some((vk - 96) as u8)
    } else {
        None
    }
}

/// The letter a key stands for: `'A'..='Z'` (65-90).
pub open spec fn letter_of(vk: u32) -> Option<char> {
    if 65 <= vk <= 90 {
        Some(vk as char)
    } else {
        None
    }
}

/// The character of a decimal digit.
pub open spec fn digit_char(d: u8) -> char {
    (48 + d) as char
}

/// Number and name of each listed scheme.
pub open spec fn results_view(book: SchemeTable, ids: Seq<u8>) -> Seq<(u8, Seq<char>)> {
    ids.map_values(|k: u8| (k, book.schemes[k].name@))
}

/// The message stored for key `n` of the primary panel of the active scheme, if any.
pub open spec fn primary_message(s: PanelState, n: u8, book: SchemeTable) -> Seq<char> {
    book.schemes[s.scheme_id].primary[n - 1]@
}

/// Key press on the home page.
pub open spec fn step_home(s: PanelState, num: Option<u8>, book: SchemeTable) -> (PanelState, Action) {
    if s.space_held {
        match num {
            Some(n) => (PanelState { burst_interval: n, ..s }, Action::SetBurstInterval(n)),
            None => (s, Action::Nothing),
        }
    } else {
        match num {
            Some(n) => if n == 0 {
                (PanelState { page: Page::Search, search: None, ..s }, Action::SwitchPage(Page::Search))
            } else if s.burst_interval > 0 {
                (s, Action::StartBurst(s.scheme_id, n))
            } else if s.use_secondary {
                (PanelState { page: Page::Secondary(n), ..s }, Action::SwitchPage(Page::Secondary(n)))
            } else if book.schemes.contains_key(s.scheme_id) && primary_message(s, n, book).len() > 0 {
                (s, Action::SendMessage(primary_message(s, n, book)))
            } else {
                (s, Action::Nothing)
            },
            None => (s, Action::Nothing),
        }
    }
}

/// Key press on secondary panel `p`.
pub open spec fn step_secondary(s: PanelState, p: u8, num: Option<u8>, book: SchemeTable) -> (PanelState, Action) {
    match num {
        Some(n) => {
            let msg = book.schemes[s.scheme_id].secondary[p - 1][n as int]@;
            if book.schemes.contains_key(s.scheme_id) && msg.len() > 0 {
                (
                    if s.auto_back { PanelState { page: Page::Home, ..s } } else { s },
                    Action::SendMessage(msg),
                )
            } else {
                (s, Action::Nothing)
            }
        },
        None => (s, Action::Nothing),
    }
}

/// The search page showing `q` and the schemes whose initials start with `q`.
pub open spec fn spell_update(s: PanelState, q: Seq<char>, book: SchemeTable) -> (PanelState, Action) {
    (
        PanelState { search: Some(SearchInput::BySpell(q)), ..s },
        Action::UpdateSearch(q, results_view(book, matching_ids(book.schemes, spell_filter(q)))),
    )
}

/// Switch to scheme `id` and go home.
pub open spec fn switch_to(s: PanelState, id: u8) -> (PanelState, Action) {
    (PanelState { scheme_id: id, page: Page::Home, search: None, ..s }, Action::SwitchScheme(id))
}

/// Key press on the search page.
pub open spec fn step_search(s: PanelState, vk: u32, book: SchemeTable) -> (PanelState, Action) {
    let num = digit_of(vk);
    let alpha = letter_of(vk);
    let cleared = (PanelState { search: None, ..s }, Action::UpdateSearch(Seq::empty(), Seq::empty()));
    match s.search {
        None => if num is Some {
            let t = num->0;
            (
                PanelState { search: Some(SearchInput::ById(t)), ..s },
                Action::UpdateSearch(
                    seq![digit_char(t), '_'],
                    results_view(book, matching_ids(book.schemes, tens_filter(t))),
                ),
            )
        } else if alpha is Some {
            spell_update(s, seq![alpha->0], book)
        } else {
            (s, Action::Nothing)
        },
        Some(SearchInput::ById(t)) => if vk == VK_BACK {
            cleared
        } else if num is Some && book.schemes.contains_key((t * 10 + num->0) as u8) {
            switch_to(s, (t * 10 + num->0) as u8)
        } else {
            (s, Action::Nothing)
        },
        Some(SearchInput::BySpell(q)) => if vk == VK_BACK {
            if q.len() <= 1 {
                cleared
            } else {
                spell_update(s, q.drop_last(), book)
            }
        } else if alpha is Some {
            if q.len() >= MAX_SPELL_LEN {
                (s, Action::Nothing)
            } else {
                spell_update(s, q.push(alpha->0), book)
            }
        } else if num is Some && 1 <= num->0 <= 9
            && num->0 - 1 < matching_ids(book.schemes, spell_filter(q)).len() {
            switch_to(s, matching_ids(book.schemes, spell_filter(q))[num->0 - 1])
        } else {
            (s, Action::Nothing)
        },
    }
}

/// The effect of one key press `vk` on state `s`, with the schemes `book`.
pub open spec fn step(s: PanelState, vk: u32, book: SchemeTable) -> (PanelState, Action) {
    match s.page {
        Page::Home => step_home(s, digit_of(vk), book),
        Page::Secondary(p) => step_secondary(s, p, digit_of(vk), book),
        Page::Search => step_search(s, vk, book),
    }
}

/// The key state machine.
pub struct StateMachine {
    page: Page,
    scheme_id: u8,
    search_mode: Option<SearchMode>,
    /// Whether space is held down (space + digit sets the burst interval).
    space_held: bool,
    burst_interval: u8,
    use_secondary: bool,
    auto_back: bool,
}

impl View for StateMachine {
    type V = PanelState;

    closed spec fn view(&self) -> PanelState {
        PanelState {
            page: self.page,
            scheme_id: self.scheme_id,
            search: match self.search_mode {
                None => None,
                Some(SearchMode::ById(t)) => Some(SearchInput::ById(t)),
                Some(SearchMode::BySpell(q)) => Some(SearchInput::BySpell(q@)),
            },
            space_held: self.space_held,
            burst_interval: self.burst_interval,
            use_secondary: self.use_secondary,
            auto_back: self.auto_back,
        }
    }
}

/// Digit of a key.
fn digit_key(vk: u32) -> (r: Option<u8>)
    ensures
        r == digit_of(vk),
{
    if 48 <= vk && vk <= 57 {
        Some((vk - 48) as u8)
    } else if 96 <= vk && vk <= 105 {
        Some((vk - 96) as u8)
    } else {
        None
    }
}

/// Letter of a key.
fn letter_key(vk: u32) -> (r: Option<char>)
    ensures
        r == letter_of(vk),
{
    if 65 <= vk && vk <= 90 {
        Some(vk as u8 as char)
    } else {
        None
    }
}

/// Number and name of each listed scheme.
fn names_of(results: &Vec<(u8, &Scheme)>, Ghost(book): Ghost<SchemeTable>, Ghost(ids): Ghost<Seq<u8>>) -> (r: Vec<(u8, String)>)
    requires
        lists_schemes(results@, book.schemes, ids),
    ensures
        r@.map_values(|e: (u8, String)| (e.0, e.1@)) == results_view(book, ids),
{
    let mut out: Vec<(u8, String)> = Vec::new();
    let mut i: usize = 0;
    while i < results.len()
        invariant
            lists_schemes(results@, book.schemes, ids),
            i <= results@.len(),
            out@.len() == i,
            forall|j: int| 0 <= j < i ==> (#[trigger] out@[j]).0 == ids[j] && out@[j].1@ == book.schemes[ids[j]].name@,
        decreases results@.len() - i,
    {
        let (k, s) = results[i];
        out.push((k, s.name.clone()));
        i = i + 1;
    }
    assert(out@.map_values(|e: (u8, String)| (e.0, e.1@)) =~= results_view(book, ids));
    out
}

/// The search page with no input and no results.
fn cleared_search() -> (r: ActionResult)
    ensures
        r@ == Action::UpdateSearch(Seq::empty(), Seq::empty()),
{
    let results: Vec<(u8, String)> = Vec::new();
    assert(results@.map_values(|e: (u8, String)| (e.0, e.1@)) =~= Seq::empty());
    ActionResult::UpdateSearch(String::new(), results)
}

impl StateMachine {
    #[verifier::type_invariant]
    spec fn inv(&self) -> bool {
        wf_state(self@)
    }

    /// A machine on the home page of scheme `scheme_id`.
    pub fn new(scheme_id: u8, use_secondary: bool, burst_interval: u8, auto_back: bool) -> (r: Self)
        ensures
            r@ == (PanelState {
                page: Page::Home,
                scheme_id,
                search: None,
                space_held: false,
                burst_interval,
                use_secondary,
                auto_back,
            }),
            wf_state(r@),
    {
        StateMachine {
            page: Page::Home,
            scheme_id,
            search_mode: None,
            space_held: false,
            burst_interval,
            use_secondary,
            auto_back,
        }
    }

    /// The page shown.
    pub fn page(&self) -> (r: &Page)
        ensures
            *r == self@.page,
            wf_state(self@),
    {
        proof { use_type_invariant(self); }
        &self.page
    }

    /// The active scheme number.
    pub fn scheme_id(&self) -> (r: u8)
        ensures
            r == self@.scheme_id,
    {
        self.scheme_id
    }

    /// Takes new settings (after the scheme or the configuration changed).
    pub fn update_config(&mut self, scheme_id: u8, use_secondary: bool, burst_interval: u8, auto_back: bool)
        ensures
            final(self)@ == (PanelState { scheme_id, use_secondary, burst_interval, auto_back, ..old(self)@ }),
            wf_state(old(self)@),
            wf_state(final(self)@),
    {
        proof { use_type_invariant(&*self); }
        self.scheme_id = scheme_id;
        self.use_secondary = use_secondary;
        self.burst_interval = burst_interval;
        self.auto_back = auto_back;
    }

    /// Records whether space is held down.
    pub fn set_space(&mut self, held: bool)
        ensures
            final(self)@ == (PanelState { space_held: held, ..old(self)@ }),
            wf_state(old(self)@),
            wf_state(final(self)@),
    {
        proof { use_type_invariant(&*self); }
        self.space_held = held;
    }

    /// Closes the panel: back to the home page, no search input, space released.
    pub fn reset(&mut self)
        ensures
            final(self)@ == (PanelState { page: Page::Home, search: None, space_held: false, ..old(self)@ }),
            wf_state(old(self)@),
            wf_state(final(self)@),
    {
        proof { use_type_invariant(&*self); }
        self.search_mode = None;
        self.page = Page::Home;
        self.space_held = false;
    }

    /// The number of the secondary panel shown (0 off a secondary panel).
    fn page_secondary_index(&self) -> (r: u8)
        ensures
            r == (match self@.page {
                Page::Secondary(n) => n,
                _ => 0,
            }),
    {
        match self.page {
            Page::Secondary(n) => n,
            _ => 0,
        }
    }

    /// Handles key `vk`, with the schemes `schemes`, and says what to do.
    pub fn handle_key(&mut self, vk: u32, schemes: &SchemeManager) -> (r: ActionResult)
        ensures
            (final(self)@, r@) == step(old(self)@, vk, schemes@),
            wf_state(old(self)@),
            wf_state(final(self)@),
    {
        proof { use_type_invariant(&*self); }
        let num = digit_key(vk);
        match self.page {
            Page::Home => self.home_key(num, schemes),
            Page::Secondary(_) => self.secondary_key(num, schemes),
            Page::Search => self.search_key(vk, num, schemes),
        }
    }

    fn home_key(&mut self, num: Option<u8>, schemes: &SchemeManager) -> (r: ActionResult)
        requires
            old(self)@.page == Page::Home,
            num matches Some(n) ==> n <= 9,
        ensures
            (final(self)@, r@) == step_home(old(self)@, num, schemes@),
    {
        proof { use_type_invariant(&*self); }
        if self.space_held {
            match num {
                Some(n) => {
                    self.burst_interval = n;
                    return ActionResult::SetBurstInterval(n);
                },
                None => {
                    return ActionResult::Nothing;
                },
            }
        }
        match num {
            Some(n) => {
                if n == 0 {
                    self.search_mode = None;
                    self.page = Page::Search;
                    return ActionResult::SwitchPage(Page::Search);
                }
                if self.burst_interval > 0 {
                    return ActionResult::StartBurst(self.scheme_id, n);
                }
                if self.use_secondary {
                    self.page = Page::Secondary(n);
                    return ActionResult::SwitchPage(Page::Secondary(n));
                }
                match schemes.get(self.scheme_id) {
                    Some(scheme) => {
                        let msg = scheme.primary[(n - 1) as usize].clone();
                        if !msg.as_str().is_empty() {
                            return ActionResult::SendMessage(msg);
                        }
                    },
                    None => {},
                }
                ActionResult::Nothing
            },
            None => ActionResult::Nothing,
        }
    }

    fn secondary_key(&mut self, num: Option<u8>, schemes: &SchemeManager) -> (r: ActionResult)
        requires
            old(self)@.page is Secondary,
            num matches Some(n) ==> n <= 9,
        ensures
            (final(self)@, r@) == step_secondary(old(self)@, old(self)@.page->0, num, schemes@),
    {
        proof { use_type_invariant(&*self); }
        match num {
            Some(n) => {
                match schemes.get(self.scheme_id) {
                    Some(scheme) => {
                        let idx = self.page_secondary_index() as usize - 1;
                        let msg = scheme.secondary[idx][n as usize].clone();
                        if !msg.as_str().is_empty() {
                            if self.auto_back {
                                self.page = Page::Home;
                            }
                            return ActionResult::SendMessage(msg);
                        }
                    },
                    None => {},
                }
                ActionResult::Nothing
            },
            None => ActionResult::Nothing,
        }
    }

    /// The search page showing `q` and the schemes whose initials start with `q`.
    fn spell_results(&mut self, q: String, schemes: &SchemeManager) -> (r: ActionResult)
        requires
            old(self)@.page == Page::Search,
            old(self)@.search is None,
            1 <= q@.len() <= MAX_SPELL_LEN,
        ensures
            (final(self)@, r@) == spell_update(old(self)@, q@, schemes@),
    {
        proof { use_type_invariant(&*self); }
        let results = schemes.find_by_spell_prefix(q.as_str());
        let display = names_of(
            &results,
            Ghost(schemes@),
            Ghost(matching_ids(schemes@.schemes, spell_filter(q@))),
        );
        self.search_mode = Some(SearchMode::BySpell(q.clone()));
        ActionResult::UpdateSearch(q, display)
    }

    fn search_key(&mut self, vk: u32, num: Option<u8>, schemes: &SchemeManager) -> (r: ActionResult)
        requires
            old(self)@.page == Page::Search,
            num == digit_of(vk),
        ensures
            (final(self)@, r@) == step_search(old(self)@, vk, schemes@),
    {
        proof { use_type_invariant(&*self); }
        let alpha = letter_key(vk);
        let mode = match &self.search_mode {
            None => None,
            Some(SearchMode::ById(t)) => Some(SearchMode::ById(*t)),
            Some(SearchMode::BySpell(q)) => Some(SearchMode::BySpell(q.clone())),
        };
        self.search_mode = None;
        match mode {
            None => {
                match num {
                    Some(t) => {
                        let results = schemes.find_by_tens(t);
                        let display = names_of(
                            &results,
                            Ghost(schemes@),
                            Ghost(matching_ids(schemes@.schemes, tens_filter(t))),
                        );
                        let mut query = String::new();
                        push_char(&mut query, (48u8 + t) as char);
                        push_char(&mut query, '_');
                        self.search_mode = Some(SearchMode::ById(t));
                        assert(query@ =~= seq![digit_char(t), '_']);
                        return ActionResult::UpdateSearch(query, display);
                    },
                    None => {},
                }
                match alpha {
                    Some(c) => {
                        let mut spell = String::new();
                        push_char(&mut spell, c);
                        return self.spell_results(spell, schemes);
                    },
                    None => {},
                }
                ActionResult::Nothing
            },
            Some(SearchMode::ById(t)) => {
                if vk == VK_BACK {
                    return cleared_search();
                }
                match num {
                    Some(n) => {
                        let new_id = t * 10 + n;
                        if schemes.contains(new_id) {
                            self.scheme_id = new_id;
                            self.page = Page::Home;
                            return ActionResult::SwitchScheme(new_id);
                        }
                    },
                    None => {},
                }
                self.search_mode = Some(SearchMode::ById(t));
                ActionResult::Nothing
            },
            Some(SearchMode::BySpell(input)) => {
                let len = input.as_str().unicode_len();
                if vk == VK_BACK {
                    if len <= 1 {
                        return cleared_search();
                    } else {
                        let shorter = String::from_str(input.as_str().substring_char(0, len - 1));
                        assert(shorter@ =~= input@.drop_last());
                        return self.spell_results(shorter, schemes);
                    }
                }
                match alpha {
                    Some(c) => {
                        if len >= MAX_SPELL_LEN {
                            self.search_mode = Some(SearchMode::BySpell(input));
                            return ActionResult::Nothing;
                        }
                        let mut longer = input.clone();
                        push_char(&mut longer, c);
                        return self.spell_results(longer, schemes);
                    },
                    None => {},
                }
                match num {
                    Some(n) => {
                        if n >= 1 && n <= 9 {
                            let results = schemes.find_by_spell_prefix(input.as_str());
                            if ((n - 1) as usize) < results.len() {
                                let id = results[(n - 1) as usize].0;
                                self.scheme_id = id;
                                self.page = Page::Home;
                                return ActionResult::SwitchScheme(id);
                            }
                        }
                    },
                    None => {},
                }
                self.search_mode = Some(SearchMode::BySpell(input));
                ActionResult::Nothing
            },
        }
    }
}


/// Invariant law: from a well-formed state every key press leads to a
/// well-formed state.
pub proof fn lemma_step_preserves_wf(s: PanelState, vk: u32, book: SchemeTable)
    requires
        wf_state(s),
    ensures
        wf_state(step(s, vk, book).0),
{
}

/// Keys that are neither digits, letters nor backspace change nothing and ask for nothing.
pub proof fn lemma_other_keys_ignored(s: PanelState, vk: u32, book: SchemeTable)
    requires
        digit_of(vk) is None,
        letter_of(vk) is None,
        vk != VK_BACK,
    ensures
        step(s, vk, book) == (s, Action::Nothing),
{
}

/// Undo law: on the pinyin search page, a letter followed by backspace gives
/// back the state before the letter and shows the query and results again.
pub proof fn lemma_letter_then_backspace(s: PanelState, vk: u32, book: SchemeTable)
    requires
        wf_state(s),
        s.page == Page::Search,
        s.search matches Some(SearchInput::BySpell(q)) && q.len() < MAX_SPELL_LEN,
        letter_of(vk) is Some,
    ensures
        ({
            let q = s.search->0->BySpell_0;
            let after = step(step(s, vk, book).0, VK_BACK, book);
            after == (s, Action::UpdateSearch(q, results_view(book, matching_ids(book.schemes, spell_filter(q)))))
        }),
{
    let q = s.search->0->BySpell_0;
    let c = letter_of(vk)->0;
    assert(q.push(c).drop_last() =~= q);
}

/// Number search law: on the search page with no input, typing the digits of
/// an existing scheme number (tens, then units) makes that scheme active and
/// goes back to the home page.
pub proof fn lemma_two_digit_select(s: PanelState, vk1: u32, vk2: u32, book: SchemeTable)
    requires
        s.page == Page::Search,
        s.search is None,
        digit_of(vk1) is Some,
        digit_of(vk2) is Some,
        book.schemes.contains_key((digit_of(vk1)->0 * 10 + digit_of(vk2)->0) as u8),
    ensures
        ({
            let id = (digit_of(vk1)->0 * 10 + digit_of(vk2)->0) as u8;
            let (s2, a2) = step(step(s, vk1, book).0, vk2, book);
            &&& a2 == Action::SwitchScheme(id)
            &&& s2 == (PanelState { scheme_id: id, page: Page::Home, search: None, ..s })
        }),
{
}

/// The machine only ever switches to a scheme that exists.
pub proof fn lemma_switch_targets_exist(s: PanelState, vk: u32, book: SchemeTable)
    ensures
        step(s, vk, book).1 matches Action::SwitchScheme(id) ==> book.schemes.contains_key(id),
{
    match s.search {
        Some(SearchInput::BySpell(q)) => {
            lemma_matching_ids(book.schemes, spell_filter(q));
        },
        _ => {},
    }
}

/// The machine never asks to send an empty message.
pub proof fn lemma_sent_messages_nonempty(s: PanelState, vk: u32, book: SchemeTable)
    ensures
        step(s, vk, book).1 matches Action::SendMessage(m) ==> m.len() > 0,
{
}

/// Secondary panel law: on secondary panel `p` of an existing scheme, digit
/// key `n` (main row or keypad) sends that scheme's message `n` of panel `p`
/// when it is not empty, and nothing otherwise; no other message is ever sent
/// from that panel.
pub proof fn lemma_secondary_sends_own_message(s: PanelState, p: u8, vk: u32, n: u8, book: SchemeTable)
    requires
        s.page == Page::Secondary(p),
        1 <= p <= 9,
        n <= 9,
        vk == 48 + n || vk == 96 + n,
    ensures
        ({
            let has = book.schemes.contains_key(s.scheme_id);
            let msg = book.schemes[s.scheme_id].secondary[p - 1][n as int]@;
            &&& step(s, vk, book).1 matches Action::SendMessage(m) ==> has && m == msg
            &&& has && msg.len() > 0 ==> step(s, vk, book).1 == Action::SendMessage(msg)
            &&& !(has && msg.len() > 0) ==> step(s, vk, book).1 == Action::Nothing
        }),
{
}

/// Home page law: with space held, digit `n` sets the burst interval to `n`;
/// otherwise 0 opens the search page, and 1-9 starts a burst of secondary
/// panel `n` when bursts are on, opens secondary panel `n` when secondary
/// panels are in use, and else sends the active scheme's primary message `n`
/// (when it exists and is not empty, nothing otherwise).
pub proof fn lemma_home_digit(s: PanelState, vk: u32, n: u8, book: SchemeTable)
    requires
        s.page == Page::Home,
        n <= 9,
        vk == 48 + n || vk == 96 + n,
    ensures
        ({
            let (s2, a) = step(s, vk, book);
            let msg = book.schemes[s.scheme_id].primary[n - 1]@;
            let has = book.schemes.contains_key(s.scheme_id);
            &&& s.space_held ==> a == Action::SetBurstInterval(n) && s2.burst_interval == n && s2.page == Page::Home
            &&& !s.space_held && n == 0 ==> a == Action::SwitchPage(Page::Search) && s2.page == Page::Search
                && s2.search is None
            &&& !s.space_held && n > 0 && s.burst_interval > 0 ==> a == Action::StartBurst(s.scheme_id, n)
                && s2 == s
            &&& !s.space_held && n > 0 && s.burst_interval == 0 && s.use_secondary ==> a == Action::SwitchPage(
                Page::Secondary(n),
            ) && s2.page == Page::Secondary(n)
            &&& !s.space_held && n > 0 && s.burst_interval == 0 && !s.use_secondary ==> (if has && msg.len() > 0 {
                a == Action::SendMessage(msg)
            } else {
                a == Action::Nothing
            }) && s2 == s
        }),
{
}

} // verus!
