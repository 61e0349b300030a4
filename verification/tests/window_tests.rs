use faster_chant::overlay::{outline_offsets, panel_position};
use faster_chant::window::{file_name, is_game_process, is_game_title};

#[test]
fn game_process_by_file_name() {
    assert!(is_game_process("C:\\Games\\300Hero\\300.exe"));
    assert!(is_game_process("D:\\x\\Client300.EXE"));
    assert!(!is_game_process("C:\\300\\game.exe"));
    assert!(is_game_process("300.exe"));
    assert_eq!(file_name("C:\\a\\b.exe"), "b.exe");
    assert_eq!(file_name("C:\\a\\"), "");
    assert_eq!(file_name("b.exe"), "b.exe");
}

#[test]
fn game_window_by_title() {
    assert!(is_game_title("300英雄"));
    assert!(!is_game_title("记事本"));
}

#[test]
fn panel_positions() {
    assert_eq!(panel_position(true, 100, 200, 900, 400), (110, 250));
    assert_eq!(panel_position(false, 100, 200, 900, 400), (490, 250));
}

#[test]
fn outline_offsets_square() {
    let o = outline_offsets(1);
    assert_eq!(o, vec![(-1, -1), (-1, 0), (-1, 1), (0, -1), (0, 1), (1, -1), (1, 0), (1, 1)]);
    assert_eq!(outline_offsets(0), o);
    let o = outline_offsets(2);
    assert_eq!(o.len(), 24);
    assert!(!o.contains(&(0, 0)));
    assert_eq!(o[0], (-2, -2));
    assert_eq!(o[23], (2, 2));
}
