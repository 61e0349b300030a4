//! The decisions of the running program: what a key press, a tray click or
//! a settings change does to the state, and which outside effects (panel
//! window, disk, keyboard, burst worker) the caller must carry out, in order.

use vstd::prelude::*;
use crate::burst::BurstController;
use crate::config::Config;
use crate::overlay::{ContentView, OverlayContent, PanelStyle, StyleView, style_of};
use crate::scheme::{SchemeManager, SchemeTable};
use crate::state::{Action, ActionResult, Page, PanelState, StateMachine, step, wf_state};

verus! {

/// Virtual-key code of the space bar.
pub const VK_SPACE: u32 = 0x20;

/// Virtual-key code of the escape key.
pub const VK_ESCAPE: u32 = 0x1B;

/// An outside effect the caller must carry out.
#[derive(Debug)]
pub enum Effect {
    /// Hide the panel window.
    HidePanel,
    /// Place the panel on the left or right side inside the game window and show it.
    ShowPanel { left: bool },
    /// Apply a panel style.
    SetStyle(PanelStyle),
    /// Draw this content on the panel.
    Render(OverlayContent),
    /// Write the settings to disk.
    SaveConfig,
    /// Write the schemes to disk.
    SaveSchemes,
    /// Type a message into the game.
    Send { text: String, public_chat: bool, chat_mode: bool },
    /// Run the burst worker (the controller is already marked running).
    StartBurst {
        scheme_id: u8,
        index: u8,
        interval: u8,
        public_chat: bool,
        chat_mode: bool,
        items: Vec<String>,
    },
}

/// Abstract effect.
pub enum EffectView {
    HidePanel,
    ShowPanel { left: bool },
    SetStyle(StyleView),
    Render(ContentView),
    SaveConfig,
    SaveSchemes,
    Send { text: Seq<char>, public_chat: bool, chat_mode: bool },
    StartBurst {
        scheme_id: u8,
        index: u8,
        interval: u8,
        public_chat: bool,
        chat_mode: bool,
        items: Seq<Seq<char>>,
    },
}

impl View for Effect {
    type V = EffectView;

    open spec fn view(&self) -> EffectView {
        match self {
            Effect::HidePanel => EffectView::HidePanel,
            Effect::ShowPanel { left } => EffectView::ShowPanel { left: *left },
            Effect::SetStyle(s) => EffectView::SetStyle(s@),
            Effect::Render(c) => EffectView::Render(c@),
            Effect::SaveConfig => EffectView::SaveConfig,
            Effect::SaveSchemes => EffectView::SaveSchemes,
            Effect::Send { text, public_chat, chat_mode } => EffectView::Send {
                text: text@,
                public_chat: *public_chat,
                chat_mode: *chat_mode,
            },
            Effect::StartBurst { scheme_id, index, interval, public_chat, chat_mode, items } =>
                EffectView::StartBurst {
                scheme_id: *scheme_id,
                index: *index,
                interval: *interval,
                public_chat: *public_chat,
                chat_mode: *chat_mode,
                items: items@.map_values(|s: String| s@),
            },
        }
    }
}

/// The abstract effects of a list of effects.
pub open spec fn effects_view(v: Seq<Effect>) -> Seq<EffectView> {
    v.map_values(|e: Effect| e@)
}

/// Abstract state of the program.
pub struct AppView {
    pub sm: PanelState,
    pub config: Config,
    pub schemes: SchemeTable,
    pub panel_visible: bool,
    pub burst_id: Option<u8>,
    /// How many times the burst was asked to stop.
    pub burst_stops: nat,
    /// How many bursts were marked running.
    pub burst_starts: nat,
}

/// `n` empty texts.
pub open spec fn blank_texts(n: nat) -> Seq<Seq<char>> {
    Seq::new(n, |i: int| Seq::<char>::empty())
}

/// What the panel shows for machine state `sm`: the active scheme's primary
/// messages and name on the home page, the shown secondary panel's messages,
/// or an empty search page (empty texts when the active scheme does not exist).
pub open spec fn content_for(sm: PanelState, book: SchemeTable) -> ContentView {
    let has = book.schemes.contains_key(sm.scheme_id);
    let s = book.schemes[sm.scheme_id];
    match sm.page {
        Page::Home => ContentView::Home {
            items: if has { s.primary@.map_values(|t: String| t@) } else { blank_texts(9) },
            active: sm.scheme_id,
            name: if has { s.name@ } else { Seq::empty() },
        },
        Page::Secondary(n) => ContentView::Secondary {
            index: n,
            items: if has { s.secondary[n - 1]@.map_values(|t: String| t@) } else { blank_texts(10) },
        },
        Page::Search => ContentView::Search { query: Seq::empty(), results: Seq::empty() },
    }
}

/// Redraw the panel: apply the configured style, then draw the current page.
pub open spec fn refresh_effects(v: AppView) -> Seq<EffectView> {
    seq![EffectView::SetStyle(style_of(v.config)), EffectView::Render(content_for(v.sm, v.schemes))]
}

/// `v` with the panel closed: hidden, home page, no search input, space released.
pub open spec fn closed(v: AppView) -> AppView {
    AppView {
        panel_visible: false,
        sm: PanelState { page: Page::Home, search: None, space_held: false, ..v.sm },
        ..v
    }
}

/// `v` after one more request to stop the burst.
pub open spec fn burst_stopped(v: AppView) -> AppView {
    AppView { burst_stops: v.burst_stops + 1, ..v }
}

/// `t` with scheme `id` active if it exists.
pub open spec fn activated(t: SchemeTable, id: u8) -> SchemeTable {
    if t.schemes.contains_key(id) {
        SchemeTable { active: id, ..t }
    } else {
        t
    }
}

/// The messages a burst of panel `index` (1-9) of scheme `id` sends.
pub open spec fn burst_items(book: SchemeTable, id: u8, index: u8) -> Seq<Seq<char>> {
    let i: int = if index == 0 { 0 } else { index - 1 };
    if book.schemes.contains_key(id) && i < 9 {
        book.schemes[id].secondary[i]@.map_values(|t: String| t@)
    } else {
        Seq::empty()
    }
}

/// `sm` taking the settings `c` for scheme `id`.
pub open spec fn configured(sm: PanelState, id: u8, c: Config, interval: u8) -> PanelState {
    PanelState {
        scheme_id: id,
        use_secondary: c.use_secondary,
        burst_interval: interval,
        auto_back: c.auto_back,
        ..sm
    }
}

/// Carrying out action `a` in state `v` leads to state `v2` with effects `effs`.
/// A burst starts only when the controller agrees (no burst running), and its
/// worker is asked for exactly when the controller marked it running; when the
/// interval is 0 or there are no messages it never starts. Setting the burst
/// interval to 0 turns bursts off: the running one is asked to stop. Closing
/// the panel from the panel itself leaves a running burst alone.
pub open spec fn action_outcome(v: AppView, a: Action, v2: AppView, effs: Seq<EffectView>) -> bool {
    let c = v.config;
    match a {
        Action::Nothing => v2 == v && effs == Seq::<EffectView>::empty(),
        Action::SwitchPage(_) => v2 == v && effs == refresh_effects(v),
        Action::SwitchScheme(id) => {
            let v1 = AppView {
                schemes: activated(v.schemes, id),
                sm: configured(v.sm, id, c, c.burst_interval),
                config: Config { active_scheme: id, ..c },
                ..v
            };
            let saved = if v.schemes.schemes.contains_key(id) {
                seq![EffectView::SaveSchemes]
            } else {
                Seq::<EffectView>::empty()
            };
            v2 == v1 && effs == saved + seq![EffectView::SaveConfig] + refresh_effects(v1)
        },
        Action::SendMessage(m) => v2 == v && effs == seq![
            EffectView::Send { text: m, public_chat: c.public_chat, chat_mode: c.chat_mode },
        ] + refresh_effects(v),
        Action::StartBurst(id, index) => {
            let items = burst_items(v.schemes, id, index);
            let started = v2.burst_starts == v.burst_starts + 1;
            &&& v2 == (AppView { burst_starts: v2.burst_starts, ..v })
            &&& started || v2.burst_starts == v.burst_starts
            &&& started ==> effs == seq![
                EffectView::StartBurst {
                    scheme_id: id,
                    index,
                    interval: c.burst_interval,
                    public_chat: c.public_chat,
                    chat_mode: c.chat_mode,
                    items,
                },
            ]
            &&& !started ==> effs == Seq::<EffectView>::empty()
            &&& (c.burst_interval == 0 || items.len() == 0 ==> !started)
        },
        Action::SetBurstInterval(n) => {
            &&& v2 == (AppView {
                config: Config { burst_interval: n, ..c },
                sm: configured(v.sm, v.sm.scheme_id, c, n),
                burst_stops: if n == 0 { v.burst_stops + 1 } else { v.burst_stops },
                ..v
            })
            &&& effs == seq![EffectView::SaveConfig]
        },
        Action::Close => v2 == closed(v) && effs == seq![EffectView::HidePanel],
        Action::UpdateSearch(q, r) => v2 == v && effs == seq![
            EffectView::Render(ContentView::Search { query: q, results: r }),
        ],
    }
}

/// A key event `vk` (pressed when `down`, released when `up`, with the game
/// window in front when `focused`) in state `v` leads to state `v2` with
/// effects `effs`; `block` says whether the key is kept from the game.
/// Esc, losing the game window and closing the panel with the trigger key
/// also ask a running burst to stop.
pub open spec fn key_outcome(
    v: AppView,
    vk: u32,
    down: bool,
    up: bool,
    focused: bool,
    v2: AppView,
    effs: Seq<EffectView>,
    block: bool,
) -> bool {
    let none = Seq::<EffectView>::empty();
    if !down && !up {
        v2 == v && effs == none && !block
    } else {
        let v1 = if vk == VK_SPACE {
            AppView { sm: PanelState { space_held: down, ..v.sm }, ..v }
        } else {
            v
        };
        if vk == VK_ESCAPE && down {
            v2 == burst_stopped(closed(v1)) && effs == seq![EffectView::HidePanel] && !block
        } else {
            let lost = !focused && v1.panel_visible;
            let v3 = if lost { burst_stopped(closed(v1)) } else { v1 };
            let e3 = if lost { seq![EffectView::HidePanel] } else { none };
            if !focused || !down {
                v2 == v3 && effs == e3 && !block
            } else if vk == v3.config.trigger_key as u32 {
                if v3.panel_visible {
                    v2 == burst_stopped(closed(v3)) && effs == seq![EffectView::HidePanel] && !block
                } else {
                    let shown = AppView { panel_visible: true, ..v3 };
                    &&& v2 == shown
                    &&& effs == seq![EffectView::ShowPanel { left: v3.config.panel_left }] + refresh_effects(shown)
                    &&& !block
                }
            } else if !v3.panel_visible {
                v2 == v3 && effs == none && !block
            } else {
                let (sm2, a) = step(v3.sm, vk, v3.schemes);
                &&& action_outcome(AppView { sm: sm2, ..v3 }, a, v2, effs)
                &&& block == v3.config.shield_hotkey
            }
        }
    }
}

/// The hotkey shield: a key is kept from the game exactly when it goes down
/// while the game window is in front, the panel is shown, shielding is on,
/// and the key is neither Esc nor the trigger key.
pub proof fn lemma_shield_blocks_only_panel_keys(
    v: AppView,
    vk: u32,
    down: bool,
    up: bool,
    focused: bool,
    v2: AppView,
    effs: Seq<EffectView>,
    block: bool,
)
    requires
        key_outcome(v, vk, down, up, focused, v2, effs, block),
    ensures
        block <==> (down && focused && v.panel_visible && v.config.shield_hotkey && vk != VK_ESCAPE
            && vk != v.config.trigger_key as u32),
{
}

/// When the game window is not in front, any key event leaves the panel
/// hidden and passes the key through; a shown panel is hidden and its burst
/// asked to stop, and apart from Esc nothing happens to a hidden one.
pub proof fn lemma_focus_loss_hides_panel(
    v: AppView,
    vk: u32,
    down: bool,
    up: bool,
    v2: AppView,
    effs: Seq<EffectView>,
    block: bool,
)
    requires
        down || up,
        key_outcome(v, vk, down, up, false, v2, effs, block),
    ensures
        !v2.panel_visible,
        !block,
        v.panel_visible ==> effs == seq![EffectView::HidePanel] && v2.burst_stops == v.burst_stops + 1,
        !v.panel_visible && vk != VK_ESCAPE ==> effs == Seq::<EffectView>::empty(),
{
}

/// Esc going down always closes the panel (hidden, back on the home page,
/// with no search input) and asks the burst to stop, whatever the state.
pub proof fn lemma_escape_closes(
    v: AppView,
    up: bool,
    focused: bool,
    v2: AppView,
    effs: Seq<EffectView>,
    block: bool,
)
    requires
        key_outcome(v, VK_ESCAPE, true, up, focused, v2, effs, block),
    ensures
        !v2.panel_visible,
        v2.sm.page == Page::Home,
        v2.sm.search is None,
        v2.burst_stops == v.burst_stops + 1,
        effs == seq![EffectView::HidePanel],
        !block,
{
}

/// The trigger key toggles the panel while the game window is in front:
/// pressed on a hidden panel it shows it, pressed on a shown one it hides it
/// and asks the burst to stop.
pub proof fn lemma_trigger_toggles(
    v: AppView,
    up: bool,
    v2: AppView,
    effs: Seq<EffectView>,
    block: bool,
)
    requires
        v.config.trigger_key as u32 != VK_ESCAPE,
        key_outcome(v, v.config.trigger_key as u32, true, up, true, v2, effs, block),
    ensures
        v2.panel_visible == !v.panel_visible,
        v.panel_visible ==> v2.burst_stops == v.burst_stops + 1,
        !v.panel_visible ==> v2.burst_stops == v.burst_stops,
        !block,
{
}

/// Channel law: every message an action types into the game, alone or as a
/// burst, goes to the configured channel in the configured mode: a `Send` or
/// `StartBurst` effect carries `public_chat` and `chat_mode` of the settings,
/// and a burst carries the configured interval and the messages of the
/// chosen secondary panel of the chosen scheme.
pub proof fn lemma_effects_use_configured_channel(v: AppView, a: Action, v2: AppView, effs: Seq<EffectView>, i: int)
    requires
        action_outcome(v, a, v2, effs),
        0 <= i < effs.len(),
    ensures
        effs[i] matches EffectView::Send { public_chat, chat_mode, .. } ==> public_chat == v.config.public_chat
            && chat_mode == v.config.chat_mode,
        effs[i] matches EffectView::StartBurst { interval, public_chat, chat_mode, .. } ==> public_chat
            == v.config.public_chat && chat_mode == v.config.chat_mode && interval == v.config.burst_interval,
        effs[i] matches EffectView::StartBurst { scheme_id, index, items, .. } ==> a == Action::StartBurst(
            scheme_id,
            index,
        ) && (v.schemes.schemes.contains_key(scheme_id) && 1 <= index <= 9 ==> items
            == v.schemes.schemes[scheme_id].secondary[index - 1]@.map_values(|t: String| t@)),
{
    match a {
        Action::SwitchScheme(id) => {
            let c = v.config;
            let v1 = AppView {
                schemes: activated(v.schemes, id),
                sm: configured(v.sm, id, c, c.burst_interval),
                config: Config { active_scheme: id, ..c },
                ..v
            };
            let saved = if v.schemes.schemes.contains_key(id) {
                seq![EffectView::SaveSchemes]
            } else {
                Seq::<EffectView>::empty()
            };
            let r = refresh_effects(v1);
            assert(effs == saved + seq![EffectView::SaveConfig] + r);
            if i < saved.len() {
                assert(effs[i] == saved[i]);
            } else if i == saved.len() {
                assert(effs[i] == EffectView::SaveConfig);
            } else {
                assert(effs[i] == r[i - saved.len() - 1]);
            }
        },
        Action::SendMessage(m) => {
            let r = refresh_effects(v);
            if i > 0 {
                assert(effs[i] == r[i - 1]);
            }
        },
        _ => {},
    }
}

/// Everything the running program keeps besides the panel window.
pub struct AppCore {
    pub sm: StateMachine,
    pub config: Config,
    pub scheme_mgr: SchemeManager,
    pub burst: BurstController,
    pub panel_visible: bool,
    pub burst_id: Option<u8>,
}

impl View for AppCore {
    type V = AppView;

    open spec fn view(&self) -> AppView {
        AppView {
            sm: self.sm@,
            config: self.config,
            schemes: self.scheme_mgr@,
            panel_visible: self.panel_visible,
            burst_id: self.burst_id,
            burst_stops: self.burst.stop_count(),
            burst_starts: self.burst.start_count(),
        }
    }
}

/// `n` empty strings.
fn blank_strings(n: usize) -> (r: Vec<String>)
    ensures
        r@.map_values(|s: String| s@) == blank_texts(n as nat),
{
    let mut v: Vec<String> = Vec::new();
    let mut i: usize = 0;
    while i < n
        invariant
            i <= n,
            v@.len() == i,
            forall|j: int| 0 <= j < i ==> (#[trigger] v@[j])@ == Seq::<char>::empty(),
        decreases n - i,
    {
        v.push(String::new());
        i = i + 1;
    }
    assert(v@.map_values(|s: String| s@) =~= blank_texts(n as nat));
    v
}

/// Copies of a row of messages.
fn copy_row(row: &[String; 10]) -> (r: [String; 10])
    ensures
        r@.map_values(|s: String| s@) == row@.map_values(|s: String| s@),
{
    let r = [
        row[0].clone(),
        row[1].clone(),
        row[2].clone(),
        row[3].clone(),
        row[4].clone(),
        row[5].clone(),
        row[6].clone(),
        row[7].clone(),
        row[8].clone(),
        row[9].clone(),
    ];
    assert(r@.map_values(|s: String| s@) =~= row@.map_values(|s: String| s@));
    r
}

/// Copies of a list of messages.
fn copy_texts(items: &[String]) -> (r: Vec<String>)
    ensures
        r@.map_values(|s: String| s@) == items@.map_values(|s: String| s@),
{
    let mut v: Vec<String> = Vec::new();
    let mut i: usize = 0;
    while i < items.len()
        invariant
            i <= items@.len(),
            v@.len() == i,
            forall|j: int| 0 <= j < i ==> (#[trigger] v@[j])@ == items@[j]@,
        decreases items@.len() - i,
    {
        v.push(items[i].clone());
        i = i + 1;
    }
    assert(v@.map_values(|s: String| s@) =~= items@.map_values(|s: String| s@));
    v
}

/// Moves the effects of `more` to the end of `effs`.
fn extend(effs: &mut Vec<Effect>, more: Vec<Effect>)
    ensures
        effects_view(final(effs)@) == effects_view(old(effs)@) + effects_view(more@),
{
    let mut more = more;
    let ghost before = effs@;
    let ghost added = more@;
    effs.append(&mut more);
    assert(effects_view(effs@) =~= effects_view(before) + effects_view(added));
}

impl AppCore {
    /// Starts the program's state from the stored settings and schemes: the
    /// configured active scheme becomes active if it exists; the panel is hidden.
    pub fn new(config: Config, scheme_mgr: SchemeManager) -> (r: Self)
        ensures
            r@.config == config,
            r@.schemes == activated(scheme_mgr@, config.active_scheme),
            r@.sm == (PanelState {
                page: Page::Home,
                scheme_id: r@.schemes.active,
                search: None,
                space_held: false,
                burst_interval: config.burst_interval,
                use_secondary: config.use_secondary,
                auto_back: config.auto_back,
            }),
            !r@.panel_visible,
            r@.burst_id is None,
            r@.burst_stops == 0,
            r@.burst_starts == 0,
    {
        let mut scheme_mgr = scheme_mgr;
        if scheme_mgr.contains(config.active_scheme) {
            scheme_mgr.set_active(config.active_scheme);
        }
        let sm = StateMachine::new(
            scheme_mgr.active(),
            config.use_secondary,
            config.burst_interval,
            config.auto_back,
        );
        AppCore {
            sm,
            config,
            scheme_mgr,
            burst: BurstController::new(),
            panel_visible: false,
            burst_id: None,
        }
    }

    /// What the panel shows now (the content of a redraw).
    pub fn overlay_content(&self) -> (r: OverlayContent)
        ensures
            r@ == content_for(self@.sm, self@.schemes),
    {
        let page = *self.sm.page();
        let id = self.sm.scheme_id();
        let scheme = self.scheme_mgr.get(id);
        match page {
            Page::Home => {
                let (items, name) = match scheme {
                    Some(s) => (copy_texts(s.primary.as_slice()), s.name.clone()),
                    None => (blank_strings(9), String::new()),
                };
                OverlayContent::Home { items, active: id, name }
            },
            Page::Secondary(n) => {
                let items = match scheme {
                    Some(s) => copy_row(&s.secondary[(n - 1) as usize]),
                    None => {
                        let r = [
                            String::new(),
                            String::new(),
                            String::new(),
                            String::new(),
                            String::new(),
                            String::new(),
                            String::new(),
                            String::new(),
                            String::new(),
                            String::new(),
                        ];
                        assert(r@.map_values(|t: String| t@) =~= blank_texts(10));
                        r
                    },
                };
                OverlayContent::Secondary { index: n, items }
            },
            Page::Search => {
                let results: Vec<(u8, String)> = Vec::new();
                assert(results@.map_values(|e: (u8, String)| (e.0, e.1@)) =~= Seq::empty());
                OverlayContent::Search { query: String::new(), results }
            },
        }
    }

    /// Redraw: apply the configured style, then draw the current page.
    pub fn refresh(&self) -> (r: Vec<Effect>)
        ensures
            effects_view(r@) == refresh_effects(self@),
    {
        let mut effs: Vec<Effect> = Vec::new();
        effs.push(Effect::SetStyle(PanelStyle::from_config(&self.config)));
        effs.push(Effect::Render(self.overlay_content()));
        assert(effects_view(effs@) =~= refresh_effects(self@));
        effs
    }

    /// The messages of a burst of panel `index` of scheme `id`.
    fn burst_items(&self, id: u8, index: u8) -> (r: Vec<String>)
        ensures
            r@.map_values(|s: String| s@) == burst_items(self@.schemes, id, index),
    {
        match self.scheme_mgr.get(id) {
            Some(s) => {
                let i: usize = if index == 0 { 0 } else { (index - 1) as usize };
                if i < 9 {
                    copy_texts(s.secondary[i].as_slice())
                } else {
                    let r: Vec<String> = Vec::new();
                    assert(r@.map_values(|s: String| s@) =~= Seq::empty());
                    r
                }
            },
            None => {
                let r: Vec<String> = Vec::new();
                assert(r@.map_values(|s: String| s@) =~= Seq::empty());
                r
            },
        }
    }

    /// Carries out an action of the state machine and says which effects follow.
    pub fn execute_action(&mut self, action: ActionResult) -> (r: Vec<Effect>)
        ensures
            action_outcome(old(self)@, action@, final(self)@, effects_view(r@)),
    {
        let mut effs: Vec<Effect> = Vec::new();
        assert(effects_view(effs@) =~= Seq::<EffectView>::empty());
        match action {
            ActionResult::Nothing => {},
            ActionResult::SwitchPage(_) => {
                effs = self.refresh();
            },
            ActionResult::SwitchScheme(id) => {
                let ghost had = self.scheme_mgr@.schemes.contains_key(id);
                if self.scheme_mgr.set_active(id) {
                    effs.push(Effect::SaveSchemes);
                }
                assert(effects_view(effs@) =~= (if had {
                    seq![EffectView::SaveSchemes]
                } else {
                    Seq::<EffectView>::empty()
                }));
                self.sm.update_config(
                    id,
                    self.config.use_secondary,
                    self.config.burst_interval,
                    self.config.auto_back,
                );
                self.config.active_scheme = id;
                let ghost saved = effects_view(effs@);
                effs.push(Effect::SaveConfig);
                assert(effects_view(effs@) =~= saved + seq![EffectView::SaveConfig]);
                let more = self.refresh();
                extend(&mut effs, more);
            },
            ActionResult::SendMessage(msg) => {
                effs.push(
                    Effect::Send {
                        text: msg,
                        public_chat: self.config.public_chat,
                        chat_mode: self.config.chat_mode,
                    },
                );
                assert(effects_view(effs@) =~= seq![effs@[0]@]);
                let more = self.refresh();
                extend(&mut effs, more);
            },
            ActionResult::StartBurst(id, index) => {
                let items = self.burst_items(id, index);
                if self.burst.begin(self.config.burst_interval, &items) {
                    effs.push(
                        Effect::StartBurst {
                            scheme_id: id,
                            index,
                            interval: self.config.burst_interval,
                            public_chat: self.config.public_chat,
                            chat_mode: self.config.chat_mode,
                            items,
                        },
                    );
                    assert(effects_view(effs@) =~= seq![effs@[0]@]);
                }
            },
            ActionResult::SetBurstInterval(n) => {
                self.config.burst_interval = n;
                if n == 0 {
                    self.burst.stop();
                }
                effs.push(Effect::SaveConfig);
                assert(effects_view(effs@) =~= seq![EffectView::SaveConfig]);
                let id = self.sm.scheme_id();
                self.sm.update_config(id, self.config.use_secondary, n, self.config.auto_back);
            },
            ActionResult::Close => {
                effs.push(Effect::HidePanel);
                assert(effects_view(effs@) =~= seq![EffectView::HidePanel]);
                self.panel_visible = false;
                self.sm.reset();
            },
            ActionResult::UpdateSearch(query, results) => {
                effs.push(Effect::Render(OverlayContent::Search { query, results }));
                assert(effects_view(effs@) =~= seq![effs@[0]@]);
            },
        }
        effs
    }

    /// Closes the panel: hides it, stops a burst, and resets the machine.
    fn close_panel(&mut self, effs: &mut Vec<Effect>)
        ensures
            final(self)@ == burst_stopped(closed(old(self)@)),
            effects_view(final(effs)@) == effects_view(old(effs)@).push(EffectView::HidePanel),
    {
        effs.push(Effect::HidePanel);
        self.panel_visible = false;
        self.burst.stop();
        self.sm.reset();
        assert(effects_view(effs@) =~= effects_view(old(effs)@).push(EffectView::HidePanel));
    }

    /// Handles a key event from the keyboard hook: `vk` went down (`is_down`)
    /// or up (`is_up`), with the game window in front when `game_focused`.
    /// Returns the effects to carry out, in order, and whether the key must be
    /// kept from the game.
    pub fn on_key(&mut self, vk: u32, is_down: bool, is_up: bool, game_focused: bool) -> (r: (Vec<Effect>, bool))
        ensures
            key_outcome(old(self)@, vk, is_down, is_up, game_focused, final(self)@, effects_view(r.0@), r.1),
    {
        let mut effs: Vec<Effect> = Vec::new();
        assert(effects_view(effs@) =~= Seq::<EffectView>::empty());
        if !is_down && !is_up {
            return (effs, false);
        }
        if vk == VK_SPACE {
            self.sm.set_space(is_down);
        }
        if vk == VK_ESCAPE && is_down {
            self.close_panel(&mut effs);
            assert(effects_view(effs@) =~= seq![EffectView::HidePanel]);
            return (effs, false);
        }
        if !game_focused && self.panel_visible {
            self.close_panel(&mut effs);
            assert(effects_view(effs@) =~= seq![EffectView::HidePanel]);
        }
        if !game_focused || !is_down {
            return (effs, false);
        }
        if vk == self.config.trigger_key as u32 {
            if self.panel_visible {
                self.close_panel(&mut effs);
                assert(effects_view(effs@) =~= seq![EffectView::HidePanel]);
            } else {
                effs.push(Effect::ShowPanel { left: self.config.panel_left });
                assert(effects_view(effs@) =~= seq![EffectView::ShowPanel { left: self.config.panel_left }]);
                self.panel_visible = true;
                let more = self.refresh();
                extend(&mut effs, more);
            }
            return (effs, false);
        }
        if !self.panel_visible {
            return (effs, false);
        }
        let action = self.sm.handle_key(vk, &self.scheme_mgr);
        let more = self.execute_action(action);
        (more, self.config.shield_hotkey)
    }

    /// Tray click: hides a shown panel; otherwise shows and draws it when the
    /// game window is in front (`game_found`), and does nothing when it is not.
    pub fn toggle_from_tray(&mut self, game_found: bool) -> (r: Vec<Effect>)
        ensures
            old(self)@.panel_visible ==> final(self)@ == (AppView { panel_visible: false, ..old(self)@ })
                && effects_view(r@) == seq![EffectView::HidePanel],
            !old(self)@.panel_visible && game_found ==> final(self)@ == (AppView { panel_visible: true, ..old(self)@ })
                && effects_view(r@) == seq![EffectView::ShowPanel { left: old(self)@.config.panel_left }]
                + refresh_effects(final(self)@),
            !old(self)@.panel_visible && !game_found ==> final(self)@ == old(self)@ && r@.len() == 0,
    {
        let mut effs: Vec<Effect> = Vec::new();
        if self.panel_visible {
            effs.push(Effect::HidePanel);
            self.panel_visible = false;
            assert(effects_view(effs@) =~= seq![EffectView::HidePanel]);
            return effs;
        }
        if game_found {
            effs.push(Effect::ShowPanel { left: self.config.panel_left });
            assert(effects_view(effs@) =~= seq![EffectView::ShowPanel { left: self.config.panel_left }]);
            self.panel_visible = true;
            let more = self.refresh();
            extend(&mut effs, more);
        }
        effs
    }

    /// After the settings changed: save them, pass them to the state machine
    /// (with the active scheme), and restyle the panel.
    pub fn sync_config(&mut self) -> (r: Vec<Effect>)
        ensures
            final(self)@ == (AppView {
                sm: configured(old(self)@.sm, old(self)@.schemes.active, old(self)@.config, old(self)@.config.burst_interval),
                ..old(self)@
            }),
            effects_view(r@) == seq![EffectView::SaveConfig, EffectView::SetStyle(style_of(old(self)@.config))],
    {
        let mut effs: Vec<Effect> = Vec::new();
        effs.push(Effect::SaveConfig);
        let active = self.scheme_mgr.active();
        self.sm.update_config(
            active,
            self.config.use_secondary,
            self.config.burst_interval,
            self.config.auto_back,
        );
        effs.push(Effect::SetStyle(PanelStyle::from_config(&self.config)));
        assert(effects_view(effs@) =~= seq![EffectView::SaveConfig, EffectView::SetStyle(style_of(old(self)@.config))]);
        effs
    }
}

} // verus!
