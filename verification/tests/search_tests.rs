use faster_chant::pinyin_table::{PINYIN_0, PINYIN_1, PINYIN_2, PINYIN_3, PINYIN_4, PINYIN_5};
use faster_chant::search::{pinyin_first, to_spell};

#[test]
fn test_table_length() {
    let total = PINYIN_0.len() + PINYIN_1.len() + PINYIN_2.len() + PINYIN_3.len() + PINYIN_4.len()
        + PINYIN_5.len();
    assert_eq!(total, 20902);
}

#[test]
fn test_to_spell_common() {
    assert_eq!(to_spell("中国"), "ZG");
    assert_eq!(to_spell("北京"), "BJ");
    assert_eq!(to_spell("上海"), "SH");
    assert_eq!(to_spell("深圳"), "SZ");
    assert_eq!(to_spell("英雄"), "YX");
    assert_eq!(to_spell("三百"), "SB");
}

#[test]
fn test_to_spell_mixed() {
    assert_eq!(to_spell("300英雄"), "YX");
    assert_eq!(to_spell("LOL"), "");
    assert_eq!(to_spell("测试123方案"), "CSFA");
}

#[test]
fn test_to_spell_empty() {
    assert_eq!(to_spell(""), "");
    assert_eq!(to_spell("abc"), "");
    assert_eq!(to_spell("123"), "");
}

#[test]
fn test_pinyin_first() {
    assert_eq!(pinyin_first('中'), Some('Z'));
    assert_eq!(pinyin_first('国'), Some('G'));
    assert_eq!(pinyin_first('A'), None);
    assert_eq!(pinyin_first('1'), None);
}

#[test]
fn pinyin_first_block_edges() {
    // first and last ideograph of the block, and the code points just outside it
    assert_eq!(pinyin_first('\u{4E00}'), Some('Y'));
    assert!(pinyin_first('\u{9FA5}').is_some());
    assert_eq!(pinyin_first('\u{4DFF}'), None);
    assert_eq!(pinyin_first('\u{9FA6}'), None);
}

#[test]
fn to_spell_concatenates() {
    let a = "中国";
    let b = "abc北京";
    let joined = format!("{}{}", a, b);
    assert_eq!(to_spell(&joined), format!("{}{}", to_spell(a), to_spell(b)));
}

#[test]
fn to_spell_ignores_non_cjk() {
    assert_eq!(to_spell("Hello, world! 123 ~"), "");
    assert!(to_spell("测试").len() <= "测试".chars().count());
}

#[test]
fn spell_has_one_letter_per_ideograph() {
    let s = to_spell("a中b国,龥一");
    assert_eq!(s.chars().count(), 4);
    assert!(s.chars().all(|c| c.is_ascii_uppercase()));
    assert_eq!(to_spell("abc\u{4DFF}\u{9FA6}"), "");
}
