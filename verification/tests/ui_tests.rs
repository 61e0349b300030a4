use faster_chant::scheme::SchemeManager;
use faster_chant::text::str_contains;
use faster_chant::ui::{entries_for_filter, entry_label, rename_scheme, scheme_entries, MainApp, Tab};

fn mgr() -> SchemeManager {
    let mut m = SchemeManager::new();
    m.append(3).name = "中国".into();
    m.append(12).name = "北京".into();
    m.append(31).name = "上海".into();
    m
}

#[test]
fn filter_by_spell_and_number() {
    let m = mgr();
    assert_eq!(scheme_entries(&m, "").len(), 3);
    let ids: Vec<u8> = scheme_entries(&m, " zg ").iter().map(|e| e.0).collect();
    assert_eq!(ids, vec![3]);
    let ids: Vec<u8> = scheme_entries(&m, "3").iter().map(|e| e.0).collect();
    assert_eq!(ids, vec![3, 31]);
    let ids: Vec<u8> = entries_for_filter(&m, "03").iter().map(|e| e.0).collect();
    assert_eq!(ids, vec![3]);
    assert!(entries_for_filter(&m, "bj").is_empty());
}

#[test]
fn contains_substring() {
    assert!(str_contains("abc", "bc"));
    assert!(str_contains("abc", ""));
    assert!(!str_contains("ab", "abc"));
    assert!(!str_contains("abc", "ac"));
}

#[test]
fn rename_to_first_blank() {
    let mut m = mgr();
    m.set_active(12);
    assert_eq!(rename_scheme(&mut m, 12), Some(0));
    assert!(m.contains(0));
    assert!(!m.contains(12));
    assert_eq!(m.active(), 0);
    assert_eq!(rename_scheme(&mut m, 50), None);
}

#[test]
fn main_app_state() {
    let app = MainApp { tab: Tab::Schemes, selected_scheme: Some(3), scheme_filter: String::new() };
    assert!(app.tab == Tab::Schemes);
    assert_eq!(app.selected_scheme, Some(3));
}

#[test]
fn filter_is_trimmed_of_unicode_space() {
    let m = mgr();
    let ids: Vec<u8> = scheme_entries(&m, "\u{3000}\tZg\u{a0}").iter().map(|e| e.0).collect();
    assert_eq!(ids, vec![3]);
}

#[test]
fn add_scheme_selects_first_blank() {
    let mut m = mgr();
    let mut app = MainApp { tab: Tab::Schemes, selected_scheme: None, scheme_filter: String::new() };
    assert_eq!(app.add_scheme(&mut m), Some(0));
    assert_eq!(app.selected_scheme, Some(0));
    assert!(m.contains(0));
    assert_eq!(m.get(0).unwrap().name, "");
    assert_eq!(app.add_scheme(&mut m), Some(1));
    for i in 0..100u8 {
        m.append(i);
    }
    assert_eq!(app.add_scheme(&mut m), None);
    assert_eq!(app.selected_scheme, Some(1));
}

#[test]
fn entry_labels() {
    assert_eq!(entry_label(3, "中国", 3), "03  中国  \u{2713}");
    assert_eq!(entry_label(12, "北京", 3), "12  北京");
}
