use faster_chant::scheme::SchemeManager;
use faster_chant::state::{ActionResult, Page, StateMachine};

fn setup() -> (StateMachine, SchemeManager) {
    let mut mgr = SchemeManager::new();
    let s = mgr.append(0);
    s.name = "测试".into();
    s.primary[0] = "你好".into();
    s.primary[1] = "大家好".into();
    s.use_secondary = true;
    s.secondary[0][0] = "二级消息0".into();
    s.secondary[0][1] = "二级消息1".into();
    mgr.set_active(0);

    let sm = StateMachine::new(0, true, 0, true);
    (sm, mgr)
}

#[test]
fn test_home_direct_send() {
    let (_sm, mgr) = setup();
    let mut sm = StateMachine::new(0, false, 0, true);
    match sm.handle_key('1' as u32, &mgr) {
        ActionResult::SendMessage(msg) => assert_eq!(msg, "你好"),
        _ => panic!("应该发送消息"),
    }
}

#[test]
fn test_home_to_secondary() {
    let (mut sm, mgr) = setup();
    match sm.handle_key('1' as u32, &mgr) {
        ActionResult::SwitchPage(Page::Secondary(1)) => {}
        other => panic!("应该进入二级面板，实际: {:?}", other),
    }
    assert_eq!(*sm.page(), Page::Secondary(1));
}

#[test]
fn test_secondary_send() {
    let (mut sm, mgr) = setup();
    sm.handle_key('1' as u32, &mgr);
    match sm.handle_key('0' as u32, &mgr) {
        ActionResult::SendMessage(msg) => assert_eq!(msg, "二级消息0"),
        other => panic!("应该发送二级消息，实际: {:?}", other),
    }
    assert_eq!(*sm.page(), Page::Home);
}

#[test]
fn test_home_to_search() {
    let (mut sm, mgr) = setup();
    match sm.handle_key('0' as u32, &mgr) {
        ActionResult::SwitchPage(Page::Search) => {}
        other => panic!("应该进入搜索页，实际: {:?}", other),
    }
}

#[test]
fn test_search_by_id() {
    let (mut sm, mgr) = setup();
    sm.handle_key('0' as u32, &mgr);
    let result = sm.handle_key('1' as u32, &mgr);
    match result {
        ActionResult::UpdateSearch(_, _) => {}
        _ => panic!("应该更新搜索结果"),
    }
}

#[test]
fn test_search_by_spell() {
    let (mut sm, mgr) = setup();
    sm.handle_key('0' as u32, &mgr);
    let result = sm.handle_key('C' as u32, &mgr);
    match result {
        ActionResult::UpdateSearch(spell, _) => {
            assert!(spell.starts_with('C'));
        }
        _ => panic!("应该更新搜索结果"),
    }
}

#[test]
fn test_burst_shortcut() {
    let (mut sm, _mgr) = setup();
    sm.set_space(true);
    match sm.handle_key('3' as u32, &_mgr) {
        ActionResult::SetBurstInterval(3) => {}
        other => panic!("应该设置连发间隔为3，实际: {:?}", other),
    }
}

#[test]
fn test_burst_mode() {
    let (_sm, mgr) = setup();
    let mut sm = StateMachine::new(0, true, 3, true);
    match sm.handle_key('1' as u32, &mgr) {
        ActionResult::StartBurst(0, 1) => {}
        other => panic!("应该触发连发，实际: {:?}", other),
    }
}

fn manager_with(names: &[(u8, &str)]) -> SchemeManager {
    let mut mgr = SchemeManager::new();
    for (id, name) in names {
        mgr.append(*id).name = (*name).into();
    }
    mgr
}

#[test]
fn keypad_digits_count_as_digits() {
    let (mut sm, mgr) = setup();
    // keypad 1 is virtual-key 97
    match sm.handle_key(97, &mgr) {
        ActionResult::SwitchPage(Page::Secondary(1)) => {}
        other => panic!("unexpected {:?}", other),
    }
}

#[test]
fn empty_primary_message_sends_nothing() {
    let (_sm, mgr) = setup();
    let mut sm = StateMachine::new(0, false, 0, true);
    match sm.handle_key('5' as u32, &mgr) {
        ActionResult::Nothing => {}
        other => panic!("unexpected {:?}", other),
    }
    let mut missing = StateMachine::new(42, false, 0, true);
    match missing.handle_key('1' as u32, &mgr) {
        ActionResult::Nothing => {}
        other => panic!("unexpected {:?}", other),
    }
}

#[test]
fn secondary_without_auto_back_stays() {
    let (_sm, mgr) = setup();
    let mut sm = StateMachine::new(0, true, 0, false);
    sm.handle_key('1' as u32, &mgr);
    match sm.handle_key('1' as u32, &mgr) {
        ActionResult::SendMessage(m) => assert_eq!(m, "二级消息1"),
        other => panic!("unexpected {:?}", other),
    }
    assert_eq!(*sm.page(), Page::Secondary(1));
    // an empty slot sends nothing and stays
    match sm.handle_key('7' as u32, &mgr) {
        ActionResult::Nothing => {}
        other => panic!("unexpected {:?}", other),
    }
}

#[test]
fn search_by_two_digits_switches_scheme() {
    let mgr = manager_with(&[(0, "测试"), (12, "十二"), (15, "十五"), (21, "二一")]);
    let mut sm = StateMachine::new(0, true, 0, true);
    sm.handle_key('0' as u32, &mgr);
    match sm.handle_key('1' as u32, &mgr) {
        ActionResult::UpdateSearch(q, results) => {
            assert_eq!(q, "1_");
            assert_eq!(results, vec![(12, "十二".to_string()), (15, "十五".to_string())]);
        }
        other => panic!("unexpected {:?}", other),
    }
    // 13 does not exist: nothing happens
    match sm.handle_key('3' as u32, &mgr) {
        ActionResult::Nothing => {}
        other => panic!("unexpected {:?}", other),
    }
    match sm.handle_key('5' as u32, &mgr) {
        ActionResult::SwitchScheme(15) => {}
        other => panic!("unexpected {:?}", other),
    }
    assert_eq!(sm.scheme_id(), 15);
    assert_eq!(*sm.page(), Page::Home);
}

#[test]
fn search_by_id_backspace_clears() {
    let mgr = manager_with(&[(12, "十二")]);
    let mut sm = StateMachine::new(12, true, 0, true);
    sm.handle_key('0' as u32, &mgr);
    sm.handle_key('1' as u32, &mgr);
    match sm.handle_key(0x08, &mgr) {
        ActionResult::UpdateSearch(q, r) => {
            assert!(q.is_empty());
            assert!(r.is_empty());
        }
        other => panic!("unexpected {:?}", other),
    }
    // back to an empty search: a letter starts a pinyin search
    match sm.handle_key('S' as u32, &mgr) {
        ActionResult::UpdateSearch(q, r) => {
            assert_eq!(q, "S");
            assert_eq!(r, vec![(12, "十二".to_string())]);
        }
        other => panic!("unexpected {:?}", other),
    }
}

#[test]
fn spell_search_select_and_undo() {
    let mgr = manager_with(&[(3, "中国"), (7, "中文"), (9, "北京")]);
    let mut sm = StateMachine::new(9, true, 0, true);
    sm.handle_key('0' as u32, &mgr);
    match sm.handle_key('Z' as u32, &mgr) {
        ActionResult::UpdateSearch(q, r) => {
            assert_eq!(q, "Z");
            assert_eq!(r.iter().map(|e| e.0).collect::<Vec<u8>>(), vec![3, 7]);
        }
        other => panic!("unexpected {:?}", other),
    }
    match sm.handle_key('W' as u32, &mgr) {
        ActionResult::UpdateSearch(q, r) => {
            assert_eq!(q, "ZW");
            assert_eq!(r, vec![(7, "中文".to_string())]);
        }
        other => panic!("unexpected {:?}", other),
    }
    // backspace undoes the letter
    match sm.handle_key(0x08, &mgr) {
        ActionResult::UpdateSearch(q, r) => {
            assert_eq!(q, "Z");
            assert_eq!(r.len(), 2);
        }
        other => panic!("unexpected {:?}", other),
    }
    // result 3 does not exist, 0 is not a result number
    match sm.handle_key('3' as u32, &mgr) {
        ActionResult::Nothing => {}
        other => panic!("unexpected {:?}", other),
    }
    match sm.handle_key('0' as u32, &mgr) {
        ActionResult::Nothing => {}
        other => panic!("unexpected {:?}", other),
    }
    match sm.handle_key('2' as u32, &mgr) {
        ActionResult::SwitchScheme(7) => {}
        other => panic!("unexpected {:?}", other),
    }
    assert_eq!(sm.scheme_id(), 7);
    assert_eq!(*sm.page(), Page::Home);
}

#[test]
fn spell_search_is_limited_to_sixteen_letters() {
    let mgr = manager_with(&[(1, "中")]);
    let mut sm = StateMachine::new(1, true, 0, true);
    sm.handle_key('0' as u32, &mgr);
    for _ in 0..16 {
        match sm.handle_key('A' as u32, &mgr) {
            ActionResult::UpdateSearch(_, _) => {}
            other => panic!("unexpected {:?}", other),
        }
    }
    match sm.handle_key('A' as u32, &mgr) {
        ActionResult::Nothing => {}
        other => panic!("unexpected {:?}", other),
    }
}

#[test]
fn single_letter_backspace_clears() {
    let mgr = manager_with(&[(1, "中")]);
    let mut sm = StateMachine::new(1, true, 0, true);
    sm.handle_key('0' as u32, &mgr);
    sm.handle_key('Z' as u32, &mgr);
    match sm.handle_key(0x08, &mgr) {
        ActionResult::UpdateSearch(q, r) => {
            assert!(q.is_empty());
            assert!(r.is_empty());
        }
        other => panic!("unexpected {:?}", other),
    }
}

#[test]
fn other_keys_are_ignored_and_reset_goes_home() {
    let (mut sm, mgr) = setup();
    sm.handle_key('1' as u32, &mgr);
    match sm.handle_key(0x70, &mgr) {
        ActionResult::Nothing => {}
        other => panic!("unexpected {:?}", other),
    }
    assert_eq!(*sm.page(), Page::Secondary(1));
    sm.set_space(true);
    sm.reset();
    assert_eq!(*sm.page(), Page::Home);
    // space was released by reset: digits act normally again
    match sm.handle_key('2' as u32, &mgr) {
        ActionResult::SwitchPage(Page::Secondary(2)) => {}
        other => panic!("unexpected {:?}", other),
    }
}

#[test]
fn update_config_changes_behaviour() {
    let (mut sm, mgr) = setup();
    sm.update_config(0, false, 0, true);
    match sm.handle_key('2' as u32, &mgr) {
        ActionResult::SendMessage(m) => assert_eq!(m, "大家好"),
        other => panic!("unexpected {:?}", other),
    }
    sm.set_space(true);
    match sm.handle_key('x' as u32, &mgr) {
        ActionResult::Nothing => {}
        other => panic!("unexpected {:?}", other),
    }
}
