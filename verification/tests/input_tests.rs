use faster_chant::input::{paste_plan, truncate_for_log, InputStep, VK_LCONTROL, VK_RETURN, VK_RSHIFT, VK_V};
use faster_chant::input::InputStep::{KeyDown, KeyUp, Pause};

#[test]
fn test_vk_values() {
    assert_eq!(VK_RETURN, 0x0D);
    assert_eq!(VK_V, 0x56);
    assert_eq!(VK_LCONTROL, 0xA2);
    assert_eq!(VK_RSHIFT, 0xA1);
}

#[test]
fn paste_plan_public_chat() {
    assert_eq!(
        paste_plan(true, false),
        vec![
            Pause(30),
            KeyDown(VK_RSHIFT),
            KeyDown(VK_RETURN),
            KeyUp(VK_RETURN),
            KeyUp(VK_RSHIFT),
            Pause(20),
            KeyDown(VK_LCONTROL),
            KeyDown(VK_V),
            KeyUp(VK_V),
            KeyUp(VK_LCONTROL),
            Pause(20),
            KeyDown(VK_RETURN),
            KeyUp(VK_RETURN),
        ]
    );
}

#[test]
fn paste_plan_team_chat() {
    let plan = paste_plan(false, false);
    assert_eq!(plan.len(), 11);
    assert_eq!(plan[1], KeyDown(VK_RETURN));
    assert!(!plan.contains(&KeyDown(VK_RSHIFT)));
}

#[test]
fn paste_plan_chat_mode_only_pastes() {
    assert_eq!(
        paste_plan(true, true),
        vec![Pause(30), KeyDown(VK_LCONTROL), KeyDown(VK_V), KeyUp(VK_V), KeyUp(VK_LCONTROL), Pause(20)]
    );
}

#[test]
fn truncate_keeps_twenty_chars() {
    let long = "一二三四五六七八九十一二三四五六七八九十多余";
    assert_eq!(truncate_for_log(long).chars().count(), 20);
    assert_eq!(truncate_for_log(long), "一二三四五六七八九十一二三四五六七八九十");
    assert_eq!(truncate_for_log("短"), "短");
    assert_eq!(truncate_for_log(""), "");
}
