//! Which music plays on which screen, and what the player of music tracks
//! must stop and start when the screen changes.

use vstd::prelude::*;
use crate::game_state::GameState;

verus! {

#[derive(Clone, Copy, Debug, PartialEq, Eq, Structural)]
pub enum MusicScene {
    Title,
    Level(u32),
    Ending,
}

/// Track changes for one screen change: the scene to stop, the scene to
/// start, and the scene playing afterwards.
#[derive(Clone, Copy, Debug, PartialEq, Eq, Structural)]
pub struct MusicPlan {
    pub stop: Option<MusicScene>,
    pub start: Option<MusicScene>,
    pub next: Option<MusicScene>,
}

/// Music of each screen: the title tune on the welcome screen, the tune of
/// the level while playing, silence on the level-won screen, the ending tune
/// on the victory screen.
pub open spec fn scene_of(state: GameState) -> Option<MusicScene> {
    match state {
        GameState::Welcome { .. } => Some(MusicScene::Title),
        GameState::Playing { current_level_index, .. } => Some(
            MusicScene::Level(current_level_index),
        ),
        GameState::LevelSuccess { .. } => None,
        GameState::Victory => Some(MusicScene::Ending),
    }
}

/// Going from `current` to `desired`: a scene already playing is left alone;
/// otherwise what plays is stopped and the desired scene, if any, starts.
pub open spec fn music_plan(current: Option<MusicScene>, desired: Option<MusicScene>) -> MusicPlan {
    match desired {
        Some(scene) => if current == Some(scene) {
            MusicPlan { stop: None, start: None, next: current }
        } else {
            MusicPlan { stop: current, start: Some(scene), next: Some(scene) }
        },
        None => MusicPlan { stop: current, start: None, next: None },
    }
}

/// The scene whose music belongs to the screen shown.
pub fn scene_for_state(state: &GameState) -> (scene: Option<MusicScene>)
    ensures
        scene == scene_of(*state),
{
    match state {
        GameState::Welcome { .. } => Some(MusicScene::Title),
        GameState::Playing { current_level_index, .. } => Some(
            MusicScene::Level(*current_level_index),
        ),
        GameState::LevelSuccess { .. } => None,
        GameState::Victory => Some(MusicScene::Ending),
    }
}

/// What to stop and start to go from the `current` scene to the `desired`
/// one (`None` meaning silence).
pub fn plan_music(current: Option<MusicScene>, desired: Option<MusicScene>) -> (plan: MusicPlan)
    ensures
        plan == music_plan(current, desired),
{
    match desired {
        Some(scene) => {
            let same = match current {
                Some(playing) => playing == scene,
                None => false,
            };
            if same {
                MusicPlan { stop: None, start: None, next: current }
            } else {
                MusicPlan { stop: current, start: Some(scene), next: Some(scene) }
            }
        },
        None => MusicPlan { stop: current, start: None, next: None },
    }
}

/// Slot of the track of level `level` among the level tracks: level 1 is
/// slot 0; level 0 also maps to slot 0.
pub fn level_track_slot(level: u32) -> (slot: usize)
    ensures
        slot == if level == 0 {
            0
        } else {
            level - 1
        },
{
    level.saturating_sub(1) as usize
}

/// Law: after a plan the desired scene is the one playing, and planning the
/// same scene again asks for nothing.
pub proof fn law_music_plan_idempotent(current: Option<MusicScene>, desired: Option<MusicScene>)
    ensures
        music_plan(current, desired).next == desired,
        music_plan(music_plan(current, desired).next, desired).start is None,
        music_plan(music_plan(current, desired).next, desired).stop is None,
        music_plan(music_plan(current, desired).next, desired).next == desired,
{
}

/// Law: the welcome screen plays the title tune, a level plays the tune of
/// that very level, the level-won screen is silent and the victory screen
/// plays the ending tune.
pub proof fn law_scene_per_screen(state: GameState)
    ensures
        state is Welcome ==> scene_of(state) == Some(MusicScene::Title),
        state matches GameState::Playing { current_level_index, .. } ==> scene_of(state) == Some(
            MusicScene::Level(current_level_index),
        ),
        state is LevelSuccess ==> scene_of(state) is None,
        state is Victory ==> scene_of(state) == Some(MusicScene::Ending),
{
}

/// Law: wanting a scene other than the one playing stops the one playing and
/// starts the wanted one; wanting the scene already playing does nothing;
/// wanting silence stops whatever plays and starts nothing.
pub proof fn law_music_plan_switches(current: Option<MusicScene>, desired: Option<MusicScene>)
    ensures
        desired matches Some(d) ==> (current != Some(d) ==> (music_plan(current, desired).stop
            == current && music_plan(current, desired).start == Some(d) && music_plan(
            current,
            desired,
        ).next == Some(d))),
        desired matches Some(d) ==> (current == Some(d) ==> (music_plan(current, desired).stop
            is None && music_plan(current, desired).start is None && music_plan(
            current,
            desired,
        ).next == Some(d))),
        desired is None ==> (music_plan(current, desired).stop == current && music_plan(
            current,
            desired,
        ).start is None && music_plan(current, desired).next is None),
{
}

/// Law: a plan never restarts the scene that is already playing, and it
/// only ever stops the scene that is playing.
pub proof fn law_music_plan_stops_only_current(
    current: Option<MusicScene>,
    desired: Option<MusicScene>,
)
    ensures
        music_plan(current, desired).stop is Some ==> music_plan(current, desired).stop
            == current,
        music_plan(current, desired).start is Some ==> music_plan(current, desired).start
            != current,
{
}

} // verus!
