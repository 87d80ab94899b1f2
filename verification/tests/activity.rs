use switchpresence::activity::{
    Activity, Assets, Timestamps, LARGE_IMAGE, SMALL_IMAGE, SMALL_TEXT,
};

#[test]
fn playing_fills_every_part() {
    let activity = Activity::playing("Splatoon 3".to_string(), 1_660_000_000);
    assert_eq!(activity.state, Some("Splatoon 3".to_string()));
    assert_eq!(
        activity.assets,
        Some(Assets {
            large_image: "switch".to_string(),
            large_text: "Splatoon 3".to_string(),
            small_image: "green".to_string(),
            small_text: "SwitchPresence".to_string(),
        })
    );
    assert_eq!(activity.timestamps, Some(Timestamps { start: 1_660_000_000 }));
}

#[test]
fn playing_mirrors_the_title_in_the_large_text() {
    let activity = Activity::playing("Metroid Dread".to_string(), 7);
    let assets = activity.assets.unwrap();
    assert_eq!(Some(assets.large_text), activity.state);
}

#[test]
fn playing_keeps_an_empty_title() {
    let activity = Activity::playing(String::new(), 0);
    assert_eq!(activity.state, Some(String::new()));
    assert_eq!(activity.assets.unwrap().large_text, "");
    assert_eq!(activity.timestamps, Some(Timestamps { start: 0 }));
    assert!(!Activity::playing(String::new(), 0).is_empty());
}

#[test]
fn playing_keeps_a_title_beyond_ascii() {
    let activity = Activity::playing("ポケモン".to_string(), u64::MAX);
    assert_eq!(activity.state.as_deref(), Some("ポケモン"));
    assert_eq!(activity.assets.unwrap().large_text, "ポケモン");
    assert_eq!(activity.timestamps.unwrap().start, u64::MAX);
}

#[test]
fn fixed_assets_have_their_values() {
    assert_eq!(LARGE_IMAGE, "switch");
    assert_eq!(SMALL_IMAGE, "green");
    assert_eq!(SMALL_TEXT, "SwitchPresence");
}

#[test]
fn empty_activity_has_no_part() {
    let activity = Activity::empty();
    assert_eq!(activity.state, None);
    assert_eq!(activity.assets, None);
    assert_eq!(activity.timestamps, None);
    assert!(activity.is_empty());
}

#[test]
fn is_empty_sees_each_part() {
    let mut only_state = Activity::empty();
    only_state.state = Some(String::new());
    assert!(!only_state.is_empty());

    let mut only_marks = Activity::empty();
    only_marks.timestamps = Some(Timestamps { start: 0 });
    assert!(!only_marks.is_empty());

    let mut only_assets = Activity::empty();
    only_assets.assets = Some(Assets {
        large_image: String::new(),
        large_text: String::new(),
        small_image: String::new(),
        small_text: String::new(),
    });
    assert!(!only_assets.is_empty());
}

#[test]
fn signed_start_of_a_small_mark() {
    assert_eq!(Timestamps { start: 0 }.signed_start(), Some(0));
    assert_eq!(Timestamps { start: 1_660_000_000 }.signed_start(), Some(1_660_000_000));
}

#[test]
fn signed_start_at_the_limit() {
    let limit = i64::MAX as u64;
    assert_eq!(Timestamps { start: limit }.signed_start(), Some(i64::MAX));
    assert_eq!(Timestamps { start: limit + 1 }.signed_start(), None);
    assert_eq!(Timestamps { start: u64::MAX }.signed_start(), None);
}
