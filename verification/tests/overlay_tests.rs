use faster_chant::config::Config;
use faster_chant::overlay::{colorref_value, OverlayContent, PanelStyle};

#[test]
fn test_content_creation() {
    let c = OverlayContent::Home { items: vec!["test".into()], active: 0, name: "方案".into() };
    assert!(matches!(c, OverlayContent::Home { .. }));
}

#[test]
fn test_panel_style_height() {
    let s = PanelStyle {
        width: 400,
        bg_color: [0, 0, 0],
        bg_alpha: 200,
        font_family: "微软雅黑".into(),
        font_size: 24,
        font_bold: true,
        text_color: [255, 255, 255],
        outline_color: [0, 0, 0],
        outline_size: 1,
    };
    assert!(s.height() > 300);
}

#[test]
fn style_height_and_row_exact() {
    let s = PanelStyle::from_config(&Config::default());
    assert_eq!(s.width, 400);
    assert_eq!(s.font_family, "Microsoft YaHei");
    assert_eq!(s.row_h(), 30);
    assert_eq!(s.height(), 40 + 10 * 30 + 16);
}

#[test]
fn colorref_is_bgr() {
    assert_eq!(colorref_value([0x12, 0x34, 0x56]), 0x0056_3412);
    assert_eq!(colorref_value([255, 255, 255]), 0x00FF_FFFF);
    assert_eq!(colorref_value([0, 0, 0]), 0);
}

#[test]
fn home_lines_layout() {
    let c = OverlayContent::Home {
        items: vec!["甲".into(), "乙".into()],
        active: 7,
        name: "常用".into(),
    };
    let lines = c.lines(30);
    assert_eq!(lines.len(), 3);
    assert_eq!((lines[0].x, lines[0].y), (10, 10));
    assert_eq!(lines[0].text, "方案7: 常用");
    assert_eq!((lines[1].x, lines[1].y), (10, 40));
    assert_eq!(lines[1].text, "1. 甲");
    assert_eq!(lines[2].y, 70);
    assert_eq!(lines[2].text, "2. 乙");
}

#[test]
fn home_lines_at_most_nine() {
    let items: Vec<String> = (0..12).map(|i| format!("m{}", i)).collect();
    let c = OverlayContent::Home { items, active: 10, name: String::new() };
    let lines = c.lines(25);
    assert_eq!(lines.len(), 10);
    assert_eq!(lines[9].text, "9. m8");
    assert_eq!(lines[9].y, 40 + 8 * 25);
}

#[test]
fn secondary_lines_from_zero() {
    let mut items: [String; 10] = Default::default();
    items[0] = "零".into();
    items[9] = "九".into();
    let c = OverlayContent::Secondary { index: 3, items };
    let lines = c.lines(20);
    assert_eq!(lines.len(), 11);
    assert_eq!(lines[0].text, "二级面板 3");
    assert_eq!(lines[1].text, "0. 零");
    assert_eq!(lines[10].text, "9. 九");
    assert_eq!(lines[10].y, 40 + 9 * 20);
}

#[test]
fn search_lines_show_numbers() {
    let c = OverlayContent::Search {
        query: "ZG".into(),
        results: vec![(3, "中国".into()), (42, "中共".into())],
    };
    let lines = c.lines(30);
    assert_eq!(lines.len(), 3);
    assert_eq!(lines[0].text, "搜索: ZG");
    assert_eq!(lines[1].text, "1. 中国 [3]");
    assert_eq!(lines[2].text, "2. 中共 [42]");
}
