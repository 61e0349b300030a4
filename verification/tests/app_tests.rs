use faster_chant::app::{AppCore, Effect, VK_ESCAPE, VK_SPACE};
use faster_chant::config::Config;
use faster_chant::overlay::OverlayContent;
use faster_chant::scheme::SchemeManager;
use faster_chant::state::{ActionResult, Page};

fn fresh_core() -> AppCore {
    let mut mgr = SchemeManager::new();
    let s = mgr.append(0);
    s.name = "测试".into();
    s.primary[0] = "你好".into();
    s.secondary[0][0] = "二级消息0".into();
    s.secondary[0][2] = "二级消息2".into();
    mgr.append(5).name = "五".into();
    let mut cfg = Config::default();
    cfg.active_scheme = 5;
    AppCore::new(cfg, mgr)
}

#[test]
fn new_uses_configured_scheme() {
    let c = fresh_core();
    assert_eq!(c.scheme_mgr.active(), 5);
    assert_eq!(c.sm.scheme_id(), 5);
    assert!(!c.panel_visible);
    let mut cfg = Config::default();
    cfg.active_scheme = 77;
    let c = AppCore::new(cfg, SchemeManager::new());
    assert_eq!(c.scheme_mgr.active(), 0);
}

#[test]
fn trigger_opens_and_closes_panel() {
    let mut c = fresh_core();
    let (effs, block) = c.on_key(0xC0, true, false, true);
    assert!(!block);
    assert!(c.panel_visible);
    assert_eq!(effs.len(), 3);
    assert!(matches!(effs[0], Effect::ShowPanel { left: true }));
    assert!(matches!(effs[1], Effect::SetStyle(_)));
    match &effs[2] {
        Effect::Render(OverlayContent::Home { items, active, name }) => {
            assert_eq!(*active, 5);
            assert_eq!(name, "五");
            assert_eq!(items.len(), 9);
        }
        other => panic!("unexpected {:?}", other),
    }
    let (effs, _) = c.on_key(0xC0, true, false, true);
    assert!(matches!(effs[..], [Effect::HidePanel]));
    assert!(!c.panel_visible);
}

#[test]
fn keys_ignored_when_hidden_or_unfocused() {
    let mut c = fresh_core();
    let (effs, block) = c.on_key('1' as u32, true, false, true);
    assert!(effs.is_empty());
    assert!(!block);
    let (effs, _) = c.on_key(0xC0, true, false, false);
    assert!(effs.is_empty());
    assert!(!c.panel_visible);
    let (effs, _) = c.on_key(0xC0, false, false, true);
    assert!(effs.is_empty());
}

#[test]
fn losing_focus_hides_panel() {
    let mut c = fresh_core();
    c.on_key(0xC0, true, false, true);
    let (effs, _) = c.on_key('1' as u32, true, false, false);
    assert!(matches!(effs[..], [Effect::HidePanel]));
    assert!(!c.panel_visible);
}

#[test]
fn escape_closes_and_resets() {
    let mut c = fresh_core();
    c.on_key(0xC0, true, false, true);
    c.on_key('0' as u32, true, false, true);
    assert_eq!(*c.sm.page(), Page::Search);
    let (effs, _) = c.on_key(VK_ESCAPE, true, false, false);
    assert!(matches!(effs[..], [Effect::HidePanel]));
    assert_eq!(*c.sm.page(), Page::Home);
    assert!(!c.panel_visible);
}

#[test]
fn send_from_panel_and_shield() {
    let mut c = fresh_core();
    c.config.shield_hotkey = true;
    c.config.use_secondary = false;
    c.sync_config();
    let (effs, _) = c.on_key('0' as u32, true, false, true);
    assert!(effs.is_empty());
    c.on_key(0xC0, true, false, true);
    // switch to scheme 0 through the search page
    c.on_key('0' as u32, true, false, true);
    c.on_key('0' as u32, true, false, true);
    let (effs, block) = c.on_key('0' as u32, true, false, true);
    assert!(block);
    assert!(matches!(effs[0], Effect::SaveSchemes));
    assert!(matches!(effs[1], Effect::SaveConfig));
    assert_eq!(c.config.active_scheme, 0);
    assert_eq!(c.scheme_mgr.active(), 0);
    let (effs, block) = c.on_key('1' as u32, true, false, true);
    assert!(block);
    match &effs[0] {
        Effect::Send { text, public_chat, chat_mode } => {
            assert_eq!(text, "你好");
            assert!(*public_chat);
            assert!(!*chat_mode);
        }
        other => panic!("unexpected {:?}", other),
    }
    assert_eq!(effs.len(), 3);
}

#[test]
fn space_digit_sets_burst_interval() {
    let mut c = fresh_core();
    c.on_key(0xC0, true, false, true);
    c.on_key(VK_SPACE, true, false, true);
    let (effs, _) = c.on_key('4' as u32, true, false, true);
    assert!(matches!(effs[..], [Effect::SaveConfig]));
    assert_eq!(c.config.burst_interval, 4);
    c.on_key(VK_SPACE, false, true, true);
    let (effs, _) = c.on_key('1' as u32, true, false, true);
    match &effs[..] {
        [Effect::StartBurst { scheme_id: 5, index: 1, interval: 4, items, .. }] => {
            assert_eq!(items.len(), 10);
        }
        other => panic!("unexpected {:?}", other),
    }
    assert!(c.burst.is_running());
    // a second burst is refused while the first runs
    let (effs, _) = c.on_key('1' as u32, true, false, true);
    assert!(effs.is_empty());
    c.burst.stop();
}

#[test]
fn execute_action_burst_items() {
    let mut c = fresh_core();
    c.config.burst_interval = 2;
    let effs = c.execute_action(ActionResult::StartBurst(0, 1));
    match &effs[..] {
        [Effect::StartBurst { items, .. }] => {
            assert_eq!(items[0], "二级消息0");
            assert_eq!(items[2], "二级消息2");
        }
        other => panic!("unexpected {:?}", other),
    }
    c.burst.stop();
    // no such scheme: nothing to send, no burst
    let effs = c.execute_action(ActionResult::StartBurst(9, 1));
    assert!(effs.is_empty());
    // interval 0 stops bursts and is saved
    let effs = c.execute_action(ActionResult::SetBurstInterval(0));
    assert!(matches!(effs[..], [Effect::SaveConfig]));
    let effs = c.execute_action(ActionResult::StartBurst(0, 1));
    assert!(effs.is_empty());
}

#[test]
fn execute_close_and_search_update() {
    let mut c = fresh_core();
    c.panel_visible = true;
    let effs = c.execute_action(ActionResult::Close);
    assert!(matches!(effs[..], [Effect::HidePanel]));
    assert!(!c.panel_visible);
    let effs = c.execute_action(ActionResult::UpdateSearch("Z".into(), vec![(1, "中".into())]));
    match &effs[..] {
        [Effect::Render(OverlayContent::Search { query, results })] => {
            assert_eq!(query, "Z");
            assert_eq!(results.len(), 1);
        }
        other => panic!("unexpected {:?}", other),
    }
    assert!(c.execute_action(ActionResult::Nothing).is_empty());
}

#[test]
fn overlay_content_for_pages() {
    let mut c = fresh_core();
    c.sm.update_config(0, true, 0, true);
    c.sm.handle_key('1' as u32, &c.scheme_mgr);
    match c.overlay_content() {
        OverlayContent::Secondary { index, items } => {
            assert_eq!(index, 1);
            assert_eq!(items[0], "二级消息0");
        }
        other => panic!("unexpected {:?}", other),
    }
    c.sm.update_config(60, true, 0, true);
    match c.overlay_content() {
        OverlayContent::Secondary { items, .. } => assert!(items.iter().all(|s| s.is_empty())),
        other => panic!("unexpected {:?}", other),
    }
}

#[test]
fn tray_toggle() {
    let mut c = fresh_core();
    assert!(c.toggle_from_tray(false).is_empty());
    assert!(!c.panel_visible);
    let effs = c.toggle_from_tray(true);
    assert_eq!(effs.len(), 3);
    assert!(c.panel_visible);
    let effs = c.toggle_from_tray(true);
    assert!(matches!(effs[..], [Effect::HidePanel]));
    assert!(!c.panel_visible);
}

#[test]
fn escape_and_zero_interval_stop_burst() {
    let mut c = fresh_core();
    c.config.burst_interval = 2;
    let effs = c.execute_action(ActionResult::StartBurst(0, 1));
    assert_eq!(effs.len(), 1);
    assert!(c.burst.is_running());
    let _ = c.on_key(VK_ESCAPE, true, false, true);
    assert!(!c.burst.is_running());

    let effs = c.execute_action(ActionResult::StartBurst(0, 1));
    assert_eq!(effs.len(), 1);
    assert!(c.burst.is_running());
    let _ = c.execute_action(ActionResult::SetBurstInterval(0));
    assert!(!c.burst.is_running());
}

#[test]
fn focus_loss_and_trigger_close_stop_burst() {
    let mut c = fresh_core();
    c.config.burst_interval = 2;
    let _ = c.on_key(0xC0, true, false, true);
    let _ = c.execute_action(ActionResult::StartBurst(0, 1));
    assert!(c.burst.is_running());
    let _ = c.on_key(0xC0, true, false, true);
    assert!(!c.panel_visible);
    assert!(!c.burst.is_running());

    let _ = c.on_key(0xC0, true, false, true);
    let _ = c.execute_action(ActionResult::StartBurst(0, 1));
    assert!(c.burst.is_running());
    let _ = c.on_key('1' as u32, true, false, false);
    assert!(!c.panel_visible);
    assert!(!c.burst.is_running());
}

#[test]
fn panel_close_action_keeps_burst() {
    let mut c = fresh_core();
    c.config.burst_interval = 2;
    c.panel_visible = true;
    let _ = c.execute_action(ActionResult::StartBurst(0, 1));
    let _ = c.execute_action(ActionResult::Close);
    assert!(c.burst.is_running());
    c.burst.stop();
}
