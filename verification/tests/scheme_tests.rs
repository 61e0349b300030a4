use faster_chant::scheme::{Scheme, SchemeManager};

fn setup() -> SchemeManager {
    SchemeManager::new()
}

#[test]
fn tests_test_append_and_get() {
    let mut mgr = setup();
    assert!(mgr.is_empty());

    let s = mgr.append(0);
    s.name = "测试方案".into();
    s.primary[0] = "你好".into();

    let s = mgr.get(0).unwrap();
    assert_eq!(s.name, "测试方案");
    assert_eq!(s.primary[0], "你好");
}

#[test]
fn tests_test_blank_id() {
    let mut mgr = setup();
    assert_eq!(mgr.blank_id(), Some(0));

    mgr.append(0);
    mgr.append(99);
    assert_eq!(mgr.blank_id(), Some(1));

    for i in 0..100 {
        mgr.append(i);
    }
    assert_eq!(mgr.blank_id(), None);
}

#[test]
fn tests_test_remove_and_front() {
    let mut mgr = setup();
    mgr.append(5);
    mgr.append(3);
    mgr.append(7);

    assert_eq!(mgr.front_id(), Some(3));

    mgr.remove(3);
    assert!(!mgr.contains(3));
    assert_eq!(mgr.front_id(), Some(5));
}

#[test]
fn tests_test_rename() {
    let mut mgr = setup();
    mgr.append(1);
    mgr.set_active(1);

    assert!(mgr.rename(1, 10));
    assert!(!mgr.contains(1));
    assert!(mgr.contains(10));
    assert_eq!(mgr.active(), 10);

    mgr.append(20);
    assert!(!mgr.rename(10, 20));
}

#[test]
fn tests_test_find_by_tens() {
    let mut mgr = setup();
    for id in [10, 12, 15, 20, 21] {
        let s = mgr.append(id);
        s.name = format!("方案{}", id);
    }

    let found = mgr.find_by_tens(1);
    assert_eq!(found.len(), 3);
    let ids: Vec<u8> = found.iter().map(|(id, _)| *id).collect();
    assert!(ids.contains(&10));
    assert!(ids.contains(&12));
    assert!(ids.contains(&15));
}

#[test]
fn scheme_test_append_and_get() {
    let mut mgr = setup();
    assert!(mgr.is_empty());

    let s = mgr.append(0);
    s.name = "测试方案".into();
    s.primary[0] = "你好".into();

    let s = mgr.get(0).unwrap();
    assert_eq!(s.name, "测试方案");
    assert_eq!(s.primary[0], "你好");
}

#[test]
fn scheme_test_blank_id() {
    let mut mgr = setup();
    assert_eq!(mgr.blank_id(), Some(0));

    mgr.append(0);
    mgr.append(99);
    assert_eq!(mgr.blank_id(), Some(1));

    for i in 0..100 {
        mgr.append(i);
    }
    assert_eq!(mgr.blank_id(), None);
}

#[test]
fn scheme_test_remove_and_front() {
    let mut mgr = setup();
    mgr.append(5);
    mgr.append(3);
    mgr.append(7);

    assert_eq!(mgr.front_id(), Some(3));

    mgr.remove(3);
    assert!(!mgr.contains(3));
    assert_eq!(mgr.front_id(), Some(5));
}

#[test]
fn scheme_test_rename() {
    let mut mgr = setup();
    mgr.append(1);
    mgr.set_active(1);

    assert!(mgr.rename(1, 10));
    assert!(!mgr.contains(1));
    assert!(mgr.contains(10));
    assert_eq!(mgr.active(), 10);

    mgr.append(20);
    assert!(!mgr.rename(10, 20));
}

#[test]
fn scheme_test_find_by_tens() {
    let mut mgr = setup();
    for id in [10, 12, 15, 20, 21] {
        let s = mgr.append(id);
        s.name = format!("方案{}", id);
    }

    let found = mgr.find_by_tens(1);
    assert_eq!(found.len(), 3);
    let ids: Vec<u8> = found.iter().map(|(id, _)| *id).collect();
    assert!(ids.contains(&10));
    assert!(ids.contains(&12));
    assert!(ids.contains(&15));
}

#[test]
fn default_scheme_is_blank() {
    let s = Scheme::default();
    assert!(s.name.is_empty());
    assert!(!s.use_secondary);
    assert!(s.primary.iter().all(|m| m.is_empty()));
    assert!(s.secondary.iter().all(|row| row.iter().all(|m| m.is_empty())));
}

#[test]
fn append_keeps_existing_scheme() {
    let mut mgr = setup();
    mgr.append(4).name = "保留".into();
    let again = mgr.append(4);
    assert_eq!(again.name, "保留");
    assert_eq!(mgr.len(), 1);
}

#[test]
fn update_then_get_reads_back() {
    let mut mgr = setup();
    mgr.append(2);
    let mut s = Scheme::default();
    s.name = "新".into();
    s.secondary[8][9] = "末".into();
    mgr.update(7, s);
    let got = mgr.get(7).unwrap();
    assert_eq!(got.name, "新");
    assert_eq!(got.secondary[8][9], "末");
    assert!(mgr.get(2).unwrap().name.is_empty());
    assert!(mgr.get(8).is_none());
}

#[test]
fn remove_active_picks_smallest_left() {
    let mut mgr = setup();
    mgr.append(9);
    mgr.append(4);
    mgr.append(6);
    assert!(mgr.set_active(4));
    assert!(mgr.remove(4));
    assert_eq!(mgr.active(), 6);
    assert!(!mgr.remove(4));
    assert_eq!(mgr.active(), 6);
    assert!(mgr.remove(6));
    assert!(mgr.remove(9));
    assert_eq!(mgr.active(), 0);
    assert!(mgr.is_empty());
    assert_eq!(mgr.front_id(), None);
}

#[test]
fn remove_other_keeps_active() {
    let mut mgr = setup();
    mgr.append(1);
    mgr.append(2);
    mgr.set_active(2);
    assert!(mgr.remove(1));
    assert_eq!(mgr.active(), 2);
}

#[test]
fn set_active_missing_fails() {
    let mut mgr = setup();
    mgr.append(3);
    assert!(!mgr.set_active(5));
    assert_eq!(mgr.active(), 0);
    assert!(mgr.set_active(3));
    assert_eq!(mgr.active(), 3);
}

#[test]
fn rename_rejections_change_nothing() {
    let mut mgr = setup();
    mgr.append(1).name = "一".into();
    mgr.append(2);
    assert!(!mgr.rename(1, 1));
    assert!(!mgr.rename(5, 6));
    assert!(!mgr.rename(1, 2));
    assert_eq!(mgr.get(1).unwrap().name, "一");
    assert_eq!(mgr.len(), 2);
}

#[test]
fn rename_round_trip_restores() {
    let mut mgr = setup();
    mgr.append(3).name = "三".into();
    mgr.append(8);
    mgr.set_active(3);
    assert!(mgr.rename(3, 40));
    assert!(mgr.rename(40, 3));
    assert_eq!(mgr.active(), 3);
    assert_eq!(mgr.get(3).unwrap().name, "三");
    assert!(!mgr.contains(40));
}

#[test]
fn list_is_sorted_and_complete() {
    let mut mgr = setup();
    for id in [200, 5, 99, 0, 37] {
        mgr.append(id);
    }
    let ids: Vec<u8> = mgr.list().iter().map(|(id, _)| *id).collect();
    assert_eq!(ids, vec![0, 5, 37, 99, 200]);
    assert_eq!(mgr.len(), 5);
}

#[test]
fn find_by_tens_is_ordered() {
    let mut mgr = setup();
    for id in [19, 10, 15, 9, 20] {
        mgr.append(id);
    }
    let ids: Vec<u8> = mgr.find_by_tens(1).iter().map(|(id, _)| *id).collect();
    assert_eq!(ids, vec![10, 15, 19]);
    let ids: Vec<u8> = mgr.find_by_tens(0).iter().map(|(id, _)| *id).collect();
    assert_eq!(ids, vec![9]);
}

#[test]
fn find_by_spell_upper_cases_query() {
    let mut mgr = setup();
    mgr.append(1).name = "中国".into();
    mgr.append(2).name = "北京".into();
    mgr.append(3).name = "中文".into();
    let ids: Vec<u8> = mgr.find_by_spell("z").iter().map(|(id, _)| *id).collect();
    assert_eq!(ids, vec![1, 3]);
    let ids: Vec<u8> = mgr.find_by_spell("zg").iter().map(|(id, _)| *id).collect();
    assert_eq!(ids, vec![1]);
    let ids: Vec<u8> = mgr.find_by_spell_prefix("zg").iter().map(|(id, _)| *id).collect();
    assert!(ids.is_empty());
    assert_eq!(mgr.find_by_spell("").len(), 3);
}

#[test]
fn scheme_spell_uses_name() {
    let mut s = Scheme::default();
    s.name = "测试方案".into();
    assert_eq!(s.spell(), "CSFA");
}

#[test]
fn from_parts_later_entry_wins() {
    let mut a = Scheme::default();
    a.name = "甲".into();
    let mut b = Scheme::default();
    b.name = "乙".into();
    let mgr = SchemeManager::from_parts(7, vec![(1, a), (2, Scheme::default()), (1, b)]);
    assert_eq!(mgr.active(), 7);
    assert_eq!(mgr.len(), 2);
    assert_eq!(mgr.get(1).unwrap().name, "乙");
}

#[test]
fn reload_from_listing_gives_same_schemes() {
    let mut mgr = setup();
    mgr.append(3).name = "三".into();
    mgr.append(1).primary[8] = "九".into();
    mgr.set_active(3);
    let parts: Vec<(u8, Scheme)> = mgr.list().into_iter().map(|(id, s)| (id, s.clone())).collect();
    let again = SchemeManager::from_parts(mgr.active(), parts);
    assert_eq!(again.active(), 3);
    assert_eq!(again.len(), 2);
    assert_eq!(again.get(3).unwrap().name, "三");
    assert_eq!(again.get(1).unwrap().primary[8], "九");
}

#[test]
fn spell_search_ignores_ascii_case() {
    let mut mgr = setup();
    mgr.append(1).name = "中国".into();
    mgr.append(2).name = "北京".into();
    let ids = |q: &str| -> Vec<u8> { mgr.find_by_spell(q).iter().map(|e| e.0).collect() };
    assert_eq!(ids("zg"), vec![1]);
    assert_eq!(ids("ZG"), vec![1]);
    assert_eq!(ids("Zg"), vec![1]);
    assert_eq!(ids(""), vec![1, 2]);
    assert_eq!(mgr.len(), 2);
}
