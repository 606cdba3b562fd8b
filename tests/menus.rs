use audio_processor::config::DetailLevel;
use audio_processor::setup::{
    accepts_quick_setup, custom_setup_choices, detail_level_choice, display_mode_choice,
    first_loopback, input_device_choice, is_affirmative_answer, is_loopback_name,
    mentions_loopback, quick_setup_choices, read_answer, update_period_choice, DeviceChoice,
    MenuAnswer, SetupChoices,
};

#[test]
fn answers_are_classified() {
    assert_eq!(read_answer(""), MenuAnswer::Blank);
    assert_eq!(read_answer("2"), MenuAnswer::Choice(2));
    assert_eq!(read_answer("+1"), MenuAnswer::Choice(1));
    assert_eq!(read_answer("007"), MenuAnswer::Choice(7));
    assert_eq!(read_answer("-1"), MenuAnswer::Invalid);
    assert_eq!(read_answer("+"), MenuAnswer::Invalid);
    assert_eq!(read_answer("two"), MenuAnswer::Invalid);
    assert_eq!(read_answer("99999999999999999999999"), MenuAnswer::Invalid);
}

#[test]
fn detail_level_menu() {
    assert_eq!(detail_level_choice(MenuAnswer::Blank), DetailLevel::Standard);
    assert_eq!(detail_level_choice(MenuAnswer::Choice(0)), DetailLevel::Basic);
    assert_eq!(detail_level_choice(MenuAnswer::Choice(1)), DetailLevel::Standard);
    assert_eq!(detail_level_choice(MenuAnswer::Choice(2)), DetailLevel::Full);
    assert_eq!(detail_level_choice(MenuAnswer::Choice(3)), DetailLevel::Standard);
    assert_eq!(detail_level_choice(MenuAnswer::Invalid), DetailLevel::Standard);
}

#[test]
fn update_rate_menu() {
    let periods: Vec<u64> = (0..8).map(|i| update_period_choice(MenuAnswer::Choice(i))).collect();
    assert_eq!(periods, vec![16_666, 33_333, 50_000, 100_000, 10_000, 8_333, 0, 10_000]);
    assert_eq!(update_period_choice(MenuAnswer::Blank), 10_000);
    assert_eq!(update_period_choice(MenuAnswer::Invalid), 10_000);
}

#[test]
fn display_mode_menu() {
    assert!(display_mode_choice(MenuAnswer::Blank));
    assert!(display_mode_choice(MenuAnswer::Choice(0)));
    assert!(!display_mode_choice(MenuAnswer::Choice(1)));
    assert!(display_mode_choice(MenuAnswer::Choice(2)));
    assert!(display_mode_choice(MenuAnswer::Invalid));
}

#[test]
fn device_menu() {
    assert_eq!(input_device_choice(MenuAnswer::Choice(1), 3), DeviceChoice::Index(1));
    assert_eq!(input_device_choice(MenuAnswer::Choice(3), 3), DeviceChoice::Fallback);
    assert_eq!(input_device_choice(MenuAnswer::Blank, 3), DeviceChoice::Fallback);
    assert_eq!(input_device_choice(MenuAnswer::Invalid, 3), DeviceChoice::Fallback);
}

#[test]
fn quick_setup_answers() {
    assert!(accepts_quick_setup(""));
    assert!(accepts_quick_setup("y"));
    assert!(accepts_quick_setup("Y"));
    assert!(accepts_quick_setup("YeS"));
    assert!(!accepts_quick_setup("n"));
    assert!(!accepts_quick_setup("yess"));
    assert!(is_affirmative_answer("yes"));
    assert!(!is_affirmative_answer("YES"));
}

#[test]
fn loopback_names() {
    assert!(is_loopback_name("Loopback Audio"));
    assert!(is_loopback_name("My LOOP BACK device"));
    assert!(!is_loopback_name("Built-in Microphone"));
    assert!(!is_loopback_name("Loop-back"));
    assert!(mentions_loopback("loopback"));
    assert!(!mentions_loopback("LOOPBACK"));
}

#[test]
fn first_loopback_device() {
    let names = vec![
        "Microphone".to_string(),
        "Loopback Audio".to_string(),
        "loop back 2".to_string(),
    ];
    assert_eq!(first_loopback(&names), Some(1));
    assert_eq!(first_loopback(&vec!["Mic".to_string()]), None);
    assert_eq!(first_loopback(&vec![]), None);
}

#[test]
fn setup_presets() {
    assert_eq!(
        quick_setup_choices(),
        SetupChoices { detail_level: DetailLevel::Standard, update_period_us: 10_000, show_tui: true }
    );
    assert_eq!(
        custom_setup_choices(MenuAnswer::Choice(2), MenuAnswer::Choice(6), MenuAnswer::Choice(1)),
        SetupChoices { detail_level: DetailLevel::Full, update_period_us: 0, show_tui: false }
    );
}
