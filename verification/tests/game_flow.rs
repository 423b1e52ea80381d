use nba_raycaster::audio::{level_track_slot, plan_music, scene_for_state, MusicPlan, MusicScene};
use nba_raycaster::game_state::{select_level_step, start_level, FrameInput, GameState};
use nba_raycaster::hoop::{build_hoops, count_scored, Hoop, HoopState};
use nba_raycaster::input::{try_shoot, ShotBand};
use nba_raycaster::level_data::{build_level, HalfPoint};

fn keys(left: bool, right: bool, enter: bool, delay_over: bool) -> FrameInput {
    FrameInput { left, right, enter, completion_delay_over: delay_over }
}

fn two_hoops() -> Vec<Hoop> {
    vec![
        Hoop::new(HalfPoint { half_x: 1, half_y: 1 }),
        Hoop::new(HalfPoint { half_x: 5, half_y: 7 }),
    ]
}

#[test]
fn hoops_follow_level_positions() {
    let level = build_level(3);
    let hoops = build_hoops(&level);
    assert_eq!(hoops.len(), 3);
    for (hoop, position) in hoops.iter().zip(level.hoop_positions.iter()) {
        assert_eq!(hoop.position, *position);
        assert_eq!(hoop.state, HoopState::Pending);
    }
    assert_eq!(count_scored(&hoops), 0);
}

#[test]
fn shot_without_target_does_nothing() {
    let mut hoops = two_hoops();
    assert_eq!(try_shoot(&mut hoops, None, ShotBand::InRange), None);
    assert_eq!(hoops, two_hoops());
}

#[test]
fn shot_too_close_is_too_strong() {
    let mut hoops = two_hoops();
    assert_eq!(
        try_shoot(&mut hoops, Some(1), ShotBand::TooClose),
        Some((false, "¡MUY FUERTE!".to_string()))
    );
    assert_eq!(hoops, two_hoops());
}

#[test]
fn shot_too_far_is_too_weak() {
    let mut hoops = two_hoops();
    assert_eq!(
        try_shoot(&mut hoops, Some(0), ShotBand::TooFar),
        Some((false, "¡MUY DÉBIL!".to_string()))
    );
    assert_eq!(count_scored(&hoops), 0);
}

#[test]
fn shot_in_range_scores_only_target() {
    let mut hoops = two_hoops();
    assert_eq!(
        try_shoot(&mut hoops, Some(1), ShotBand::InRange),
        Some((true, "¡ENCESTASTE!".to_string()))
    );
    assert_eq!(hoops[0].state, HoopState::Pending);
    assert_eq!(hoops[1].state, HoopState::Scored);
    assert_eq!(hoops[1].position, HalfPoint { half_x: 5, half_y: 7 });
    assert_eq!(count_scored(&hoops), 1);
}

#[test]
fn selection_is_clamped_to_three_levels() {
    assert_eq!(select_level_step(1, true, false), 1);
    assert_eq!(select_level_step(2, true, false), 1);
    assert_eq!(select_level_step(3, false, true), 3);
    assert_eq!(select_level_step(2, false, true), 3);
    assert_eq!(select_level_step(2, true, true), 2);
    assert_eq!(select_level_step(0, true, false), 1);
    assert_eq!(select_level_step(1, false, false), 1);
}

#[test]
fn welcome_enter_starts_selected_level() {
    let mut state = GameState::new();
    assert!(matches!(state, GameState::Welcome { selected_level: 1 }));
    assert!(state.next_state(&keys(false, true, false, false)).is_none());
    assert!(matches!(state, GameState::Welcome { selected_level: 2 }));
    let next = state.next_state(&keys(false, false, true, false));
    match next {
        Some(GameState::Playing { level, current_level_index, hoops_scored, hoops }) => {
            assert_eq!(current_level_index, 2);
            assert_eq!(level.level_number, 2);
            assert_eq!(hoops_scored, 0);
            assert_eq!(hoops.len(), 2);
        }
        _ => panic!("ENTER on the welcome screen must start a level"),
    }
}

#[test]
fn level_is_won_after_last_hoop_and_pause() {
    let mut state = start_level(1);
    assert!(!state.level_complete());
    assert!(state.next_state(&keys(false, false, false, true)).is_none());
    assert_eq!(state.shoot(Some(0), ShotBand::TooClose), Some((false, "¡MUY FUERTE!".to_string())));
    assert!(!state.level_complete());
    assert_eq!(state.shoot(Some(0), ShotBand::InRange), Some((true, "¡ENCESTASTE!".to_string())));
    assert!(state.level_complete());
    match &state {
        GameState::Playing { hoops_scored, .. } => assert_eq!(*hoops_scored, 1),
        _ => panic!("still playing"),
    }
    // The pause after the last hoop is not over yet.
    assert!(state.next_state(&keys(false, false, true, false)).is_none());
    let next = state.next_state(&keys(false, false, false, true));
    assert!(matches!(next, Some(GameState::LevelSuccess { current_level_index: 1 })));
}

#[test]
fn shooting_outside_play_does_nothing() {
    let mut state = GameState::Victory;
    assert_eq!(state.shoot(Some(0), ShotBand::InRange), None);
    let mut playing = start_level(2);
    assert_eq!(playing.shoot(None, ShotBand::InRange), None);
    assert!(!playing.level_complete());
}

#[test]
fn levels_follow_in_order_then_victory() {
    let mut success = GameState::LevelSuccess { current_level_index: 1 };
    assert!(success.next_state(&keys(false, false, false, false)).is_none());
    match success.next_state(&keys(false, false, true, false)) {
        Some(GameState::Playing { current_level_index, level, .. }) => {
            assert_eq!(current_level_index, 2);
            assert_eq!(level.level_number, 2);
        }
        _ => panic!("level 2 follows level 1"),
    }
    let mut last = GameState::LevelSuccess { current_level_index: 3 };
    assert!(matches!(last.next_state(&keys(false, false, true, false)), Some(GameState::Victory)));
}

#[test]
fn victory_returns_to_welcome() {
    let mut state = GameState::Victory;
    assert!(state.next_state(&keys(true, true, false, true)).is_none());
    assert!(matches!(
        state.next_state(&keys(false, false, true, false)),
        Some(GameState::Welcome { selected_level: 1 })
    ));
}

#[test]
fn music_follows_screens() {
    assert_eq!(scene_for_state(&GameState::new()), Some(MusicScene::Title));
    assert_eq!(scene_for_state(&start_level(3)), Some(MusicScene::Level(3)));
    assert_eq!(scene_for_state(&GameState::LevelSuccess { current_level_index: 2 }), None);
    assert_eq!(scene_for_state(&GameState::Victory), Some(MusicScene::Ending));
}

#[test]
fn music_plan_switches_and_repeats_nothing() {
    let first = plan_music(None, Some(MusicScene::Title));
    assert_eq!(
        first,
        MusicPlan { stop: None, start: Some(MusicScene::Title), next: Some(MusicScene::Title) }
    );
    let again = plan_music(first.next, Some(MusicScene::Title));
    assert_eq!(again, MusicPlan { stop: None, start: None, next: Some(MusicScene::Title) });
    let level = plan_music(again.next, Some(MusicScene::Level(2)));
    assert_eq!(
        level,
        MusicPlan {
            stop: Some(MusicScene::Title),
            start: Some(MusicScene::Level(2)),
            next: Some(MusicScene::Level(2)),
        }
    );
    let silence = plan_music(level.next, None);
    assert_eq!(silence, MusicPlan { stop: Some(MusicScene::Level(2)), start: None, next: None });
    assert_eq!(plan_music(None, None), MusicPlan { stop: None, start: None, next: None });
}

#[test]
fn level_tracks_count_from_zero() {
    assert_eq!(level_track_slot(0), 0);
    assert_eq!(level_track_slot(1), 0);
    assert_eq!(level_track_slot(3), 2);
}
