use faster_chant::config::Config;

#[test]
fn test_default() {
    let cfg = Config::default();
    assert!(cfg.only_300);
    assert!(cfg.public_chat);
    assert_eq!(cfg.trigger_key, 0xC0);
    assert_eq!(cfg.burst_interval, 0);
}

#[test]
fn default_style_settings() {
    let cfg = Config::default();
    assert!(cfg.panel_left);
    assert!(!cfg.shield_hotkey);
    assert!(cfg.auto_back);
    assert!(!cfg.chat_mode);
    assert_eq!(cfg.active_scheme, 0);
    assert!(cfg.use_secondary);
    assert_eq!(cfg.panel_width, 400);
    assert_eq!(cfg.bg_color, [0, 0, 0]);
    assert_eq!(cfg.bg_alpha, 200);
    assert_eq!(cfg.font_family, "Microsoft YaHei");
    assert_eq!(cfg.font_size, 24);
    assert!(cfg.font_bold);
    assert_eq!(cfg.text_color, [255, 255, 255]);
    assert_eq!(cfg.outline_color, [0, 0, 0]);
    assert_eq!(cfg.outline_size, 1);
}
