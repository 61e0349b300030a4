use faster_chant::updater::{find_exe_asset, release_is_new, release_version, str_ends_with, update_script};

#[test]
fn version_of_tag() {
    assert_eq!(release_version("v1.2.3"), "1.2.3");
    assert_eq!(release_version("vv0.1"), "0.1");
    assert_eq!(release_version("1.0"), "1.0");
    assert_eq!(release_version(""), "");
}

#[test]
fn new_release_detection() {
    assert!(!release_is_new("v0.1.0", "0.1.0"));
    assert!(release_is_new("v0.2.0", "0.1.0"));
    assert!(release_is_new("v0.1.0.1", "0.1.0"));
    assert!(!release_is_new("0.1.0", "0.1.0"));
}

#[test]
fn exe_asset_choice() {
    let names: Vec<String> = vec!["notes.txt".into(), "app.exe".into(), "other.exe".into()];
    assert_eq!(find_exe_asset(&names), Some(1));
    let names: Vec<String> = vec!["a.zip".into(), "exe".into()];
    assert_eq!(find_exe_asset(&names), None);
    assert!(str_ends_with("x.exe", ".exe"));
    assert!(!str_ends_with(".ex", ".exe"));
}

#[test]
fn swap_script_text() {
    let s = update_script("C:\\tmp\\new.exe", "D:\\app.exe");
    let expected = format!(
        "@echo off\r\n\
         echo 正在更新 faster-chant-300-hero-rust...\r\n\
         timeout /t 2 /nobreak > nul\r\n\
         move /Y \"{}\" \"{}\"\r\n\
         if %errorlevel% equ 0 (\r\n\
             echo 更新完成，正在启动...\r\n\
             start \"\" \"{}\"\r\n\
         ) else (\r\n\
             echo 更新失败，请手动替换\r\n\
             pause\r\n\
         )\r\n\
         del \"%~f0\"\r\n",
        "C:\\tmp\\new.exe", "D:\\app.exe", "D:\\app.exe"
    );
    assert_eq!(s, expected);
}
