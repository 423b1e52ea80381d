//! The screens of the game and how one leads to the next.
//!
//! Each frame the caller reads the keyboard and the timers, hands the
//! outcome in as a [`FrameInput`], and gets back the screen to switch to, if
//! any. Timers, animation and drawing stay with the caller.

use vstd::prelude::*;
use crate::hoop::{
    build_hoops, count_scored, fresh_hoops, lemma_scored_count_bounds, lemma_scored_count_fresh,
    lemma_scored_count_score_one, all_scored, scored_count, Hoop, HoopState,
};
use crate::input::{hoops_after_shot, shot_message, try_shoot, ShotBand};
use crate::level_data::{build_level, Level};

verus! {

/// Number of levels in the game.
pub const LEVEL_COUNT: u32 = 3;

#[derive(Debug)]
pub enum GameState {
    Welcome { selected_level: u32 },
    Playing { level: Level, current_level_index: u32, hoops_scored: usize, hoops: Vec<Hoop> },
    LevelSuccess { current_level_index: u32 },
    Victory,
}

/// What happened during a frame, as far as screen changes go.
#[derive(Clone, Copy, Debug)]
pub struct FrameInput {
    /// Left arrow or A was pressed.
    pub left: bool,
    /// Right arrow or D was pressed.
    pub right: bool,
    /// ENTER was pressed.
    pub enter: bool,
    /// The short pause after the last hoop of a level has run out.
    pub completion_delay_over: bool,
}

/// Level selection after a frame: left moves down to no less than 1, then
/// right moves up to no more than 3.
pub open spec fn next_selection(selected_level: u32, left: bool, right: bool) -> u32 {
    let after_left = if left {
        if selected_level <= 1 {
            1u32
        } else {
            (selected_level - 1) as u32
        }
    } else {
        selected_level
    };
    if right {
        if after_left + 1 >= 3 {
            3u32
        } else {
            (after_left + 1) as u32
        }
    } else {
        after_left
    }
}

impl GameState {
    /// The state is one the game can reach: level numbers within `1..=3`,
    /// and while playing, the level as built, one hoop per hoop position and
    /// a score that counts the scored hoops.
    pub open spec fn wf(&self) -> bool {
        match self {
            GameState::Welcome { selected_level } => 1 <= *selected_level <= 3,
            GameState::Playing { level, current_level_index, hoops_scored, hoops } => {
                &&& 1 <= *current_level_index <= 3
                &&& level.is_level(*current_level_index)
                &&& hoops@.len() == level.hoop_positions@.len()
                &&& forall|k: int|
                    0 <= k < hoops@.len() ==> (#[trigger] hoops@[k]).position
                        == level.hoop_positions@[k]
                &&& *hoops_scored == scored_count(hoops@)
            },
            GameState::LevelSuccess { current_level_index } => 1 <= *current_level_index <= 3,
            GameState::Victory => true,
        }
    }

    /// Level `index` has just started: as built, nothing scored yet.
    pub open spec fn is_fresh_level(&self, index: u32) -> bool {
        match self {
            GameState::Playing { level, current_level_index, hoops_scored, hoops } => {
                &&& *current_level_index == index
                &&& level.is_level(index)
                &&& *hoops_scored == 0
                &&& fresh_hoops(hoops@, level.hoop_positions@)
            },
            _ => false,
        }
    }

    /// Playing, with every hoop of the level scored.
    pub open spec fn level_done(&self) -> bool {
        match self {
            GameState::Playing { level, hoops_scored, .. } => *hoops_scored >= level.hoops_required,
            _ => false,
        }
    }

    /// The screen shown when the game starts: level 1 selected.
    pub fn new() -> (state: GameState)
        ensures
            state == (GameState::Welcome { selected_level: 1 }),
            state.wf(),
    {
        GameState::Welcome { selected_level: 1 }
    }

    /// Whether the level being played has all its hoops scored.
    pub fn level_complete(&self) -> (done: bool)
        ensures
            done == self.level_done(),
    {
        match self {
            GameState::Playing { level, hoops_scored, .. } => *hoops_scored >= level.hoops_required,
            _ => false,
        }
    }

    /// Shoots while playing (see [`try_shoot`]): a shot that goes in scores
    /// the aimed hoop and the score is counted again. On any other screen
    /// nothing happens.
    pub fn shoot(&mut self, target: Option<usize>, band: ShotBand) -> (result: Option<(bool, String)>)
        requires
            old(self).wf(),
            *old(self) matches GameState::Playing { hoops, .. } ==> (target matches Some(i)
                ==> i < hoops@.len() && hoops@[i as int].state == HoopState::Pending),
        ensures
            final(self).wf(),
            match *old(self) {
                GameState::Playing { level, current_level_index, hoops_scored, hoops } => {
                    match target {
                        None => result is None && *final(self) == *old(self),
                        Some(i) => {
                            &&& result matches Some((hit, message)) && hit == (band
                                == ShotBand::InRange) && message@ == shot_message(band)
                            &&& *final(self) matches GameState::Playing {
                                level: l2,
                                current_level_index: c2,
                                hoops_scored: s2,
                                hoops: h2,
                            } && l2 == level && c2 == current_level_index && h2@
                                == hoops_after_shot(hoops@, i as int, band) && s2 == if band
                                == ShotBand::InRange {
                                hoops_scored + 1
                            } else {
                                hoops_scored as int
                            }
                        },
                    }
                },
                _ => result is None && *final(self) == *old(self),
            },
    {
        if target.is_none() {
            return None;
        }
        match self {
            GameState::Playing { level, current_level_index, hoops_scored, hoops } => {
                let ghost before = hoops@;
                let result = try_shoot(hoops, target, band);
                match result {
                    Some((true, _)) => {
                        proof {
                            let i = target.unwrap() as int;
                            lemma_scored_count_score_one(before, i);
                            lemma_scored_count_bounds(hoops@);
                        }
                        *hoops_scored = count_scored(hoops);
                    },
                    _ => {},
                }
                result
            },
            _ => None,
        }
    }

    /// The screen that follows this one after a frame, if it changes.
    ///
    /// - Welcome: left/right move the selection within `1..=3`; ENTER starts
    ///   the selected level.
    /// - Playing: once every hoop is scored and the pause after the last one
    ///   is over, the level is won.
    /// - Level won: ENTER starts the next level, or after the third one shows
    ///   the victory screen.
    /// - Victory: ENTER goes back to the welcome screen with level 1 selected.
    pub fn next_state(&mut self, input: &FrameInput) -> (next: Option<GameState>)
        requires
            old(self).wf(),
        ensures
            final(self).wf(),
            next matches Some(n) ==> n.wf(),
            match *old(self) {
                GameState::Welcome { selected_level } => {
                    let s = next_selection(selected_level, input.left, input.right);
                    &&& *final(self) == (GameState::Welcome { selected_level: s })
                    &&& next is Some <==> input.enter
                    &&& next matches Some(n) ==> n.is_fresh_level(s)
                },
                GameState::Playing { level, current_level_index, hoops_scored, .. } => {
                    &&& *final(self) == *old(self)
                    &&& next is Some <==> (hoops_scored >= level.hoops_required
                        && input.completion_delay_over)
                    &&& next matches Some(n) ==> n == (GameState::LevelSuccess {
                        current_level_index,
                    })
                },
                GameState::LevelSuccess { current_level_index } => {
                    &&& *final(self) == *old(self)
                    &&& next is Some <==> input.enter
                    &&& next matches Some(n) ==> if current_level_index < LEVEL_COUNT {
                        n.is_fresh_level((current_level_index + 1) as u32)
                    } else {
                        n == GameState::Victory
                    }
                },
                GameState::Victory => {
                    &&& *final(self) == *old(self)
                    &&& next is Some <==> input.enter
                    &&& next matches Some(n) ==> n == (GameState::Welcome { selected_level: 1 })
                },
            },
    {
        match self {
            GameState::Welcome { selected_level } => {
                *selected_level = select_level_step(*selected_level, input.left, input.right);
                if input.enter {
                    Some(start_level(*selected_level))
                } else {
                    None
                }
            },
            GameState::Playing { level, current_level_index, hoops_scored, .. } => {
                if *hoops_scored >= level.hoops_required && input.completion_delay_over {
                    Some(GameState::LevelSuccess { current_level_index: *current_level_index })
                } else {
                    None
                }
            },
            GameState::LevelSuccess { current_level_index } => {
                if input.enter {
                    if *current_level_index < LEVEL_COUNT {
                        Some(start_level(*current_level_index + 1))
                    } else {
                        Some(GameState::Victory)
                    }
                } else {
                    None
                }
            },
            GameState::Victory => {
                if input.enter {
                    Some(GameState::Welcome { selected_level: 1 })
                } else {
                    None
                }
            },
        }
    }
}

/// Moves the level selection: left first, down to no less than 1, then right,
/// up to no more than 3.
pub fn select_level_step(selected_level: u32, left: bool, right: bool) -> (selected: u32)
    requires
        !(right && !left && selected_level == u32::MAX),
    ensures
        selected == next_selection(selected_level, left, right),
{
    let mut selected = selected_level;
    if left {
        selected = selected.saturating_sub(1);
        if selected < 1 {
            selected = 1;
        }
    }
    if right {
        selected = selected + 1;
        if selected > 3 {
            selected = 3;
        }
    }
    selected
}

/// Starts level `index`: the level as built, one pending hoop per position,
/// no score.
pub fn start_level(index: u32) -> (state: GameState)
    requires
        1 <= index <= 3,
    ensures
        state.is_fresh_level(index),
        state.wf(),
{
    let level = build_level(index);
    let hoops = build_hoops(&level);
    proof {
        lemma_scored_count_fresh(hoops@);
    }
    GameState::Playing { level, current_level_index: index, hoops_scored: 0, hoops }
}

/// Law: a level counts as complete exactly when every one of its hoops has
/// been scored, and the score never exceeds the number of hoops.
pub proof fn law_complete_iff_all_scored(state: GameState)
    requires
        state.wf(),
        state is Playing,
    ensures
        state.level_done() <==> all_scored(state->hoops@),
        state->hoops_scored <= state->level.hoops_required,
{
    lemma_scored_count_bounds(state->hoops@);
}

/// Law: the selected level always stays within `1..=3`, whatever keys are
/// pressed.
pub proof fn law_selection_stays_in_range(selected_level: u32, left: bool, right: bool)
    requires
        1 <= selected_level <= 3,
    ensures
        1 <= next_selection(selected_level, left, right) <= 3,
{
}

/// Law: on the welcome screen a left press alone moves the selection down by
/// exactly one level, but not below 1; a right press alone moves it up by
/// exactly one, but not above 3; no press keeps it; both presses together
/// cancel out.
pub proof fn law_selection_moves_one_step(s: u32)
    requires
        1 <= s <= 3,
    ensures
        next_selection(s, true, false) == if s > 1 {
            s - 1
        } else {
            1
        },
        next_selection(s, false, true) == if s < 3 {
            s + 1
        } else {
            3
        },
        next_selection(s, false, false) == s,
        next_selection(s, true, true) == if s == 1 {
            2
        } else {
            s
        },
{
}

/// Law: the levels are played in order; winning level `n` below 3 leads to
/// level `n + 1`, winning level 3 leads to victory, and victory leads back to
/// the welcome screen with level 1 selected. Without ENTER the screen stays.
pub proof fn law_progression(
    before: GameState,
    after: GameState,
    input: FrameInput,
    next: Option<GameState>,
)
    requires
        before.wf(),
        before is LevelSuccess || before is Victory,
        after == before,
        next is Some <==> input.enter,
        before matches GameState::LevelSuccess { current_level_index } ==> (next matches Some(n)
            ==> if current_level_index < LEVEL_COUNT {
            n.is_fresh_level((current_level_index + 1) as u32)
        } else {
            n == GameState::Victory
        }),
        before is Victory ==> (next matches Some(n) ==> n == (GameState::Welcome {
            selected_level: 1,
        })),
    ensures
        !input.enter ==> next is None,
        before matches GameState::LevelSuccess { current_level_index } ==> (input.enter ==> (
        current_level_index < 3 ==> (next->0 matches GameState::Playing {
            current_level_index: c,
            ..
        } && c == current_level_index + 1))),
        before matches GameState::LevelSuccess { current_level_index } ==> (input.enter
            ==> (current_level_index == 3 ==> next->0 is Victory)),
        before is Victory ==> (input.enter ==> (next->0 matches GameState::Welcome {
            selected_level: s,
        } && s == 1)),
{
}

/// Law: a shot scores at most one hoop, a scored hoop stays scored, and the
/// score goes up by one exactly when the shot goes in.
pub proof fn law_shot_scores_at_most_one(hoops: Seq<Hoop>, i: int, band: ShotBand, k: int)
    requires
        0 <= i < hoops.len(),
        hoops[i].state == HoopState::Pending,
        0 <= k < hoops.len(),
    ensures
        k != i ==> hoops_after_shot(hoops, i, band)[k] == hoops[k],
        hoops[k].state == HoopState::Scored ==> hoops_after_shot(hoops, i, band)[k].state
            == HoopState::Scored,
        scored_count(hoops_after_shot(hoops, i, band)) == scored_count(hoops) + if band
            == ShotBand::InRange {
            1int
        } else {
            0int
        },
{
    if band == ShotBand::InRange {
        lemma_scored_count_score_one(hoops, i);
    }
}

} // verus!
