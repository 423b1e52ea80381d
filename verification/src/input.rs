//! Resolving a shot at the hoop the player aims at.
//!
//! Which pending hoop is aimed at, and how far away it is, are measured in
//! world coordinates by the caller; this module decides what the shot does.

use vstd::prelude::*;
use crate::hoop::{Hoop, HoopState};

verus! {

/// How the distance to the aimed hoop compares with the ideal shooting range.
#[derive(Clone, Copy, Debug, PartialEq, Eq, Structural)]
pub enum ShotBand {
    /// Closer than the ideal range: the ball is thrown too hard.
    TooClose,
    /// Within the ideal range: the ball goes in.
    InRange,
    /// Farther than the ideal range: the ball falls short.
    TooFar,
}

/// Feedback shown for a shot in the given band.
pub open spec fn shot_message(band: ShotBand) -> Seq<char> {
    match band {
        ShotBand::TooClose => "¡MUY FUERTE!"@,
        ShotBand::InRange => "¡ENCESTASTE!"@,
        ShotBand::TooFar => "¡MUY DÉBIL!"@,
    }
}

/// The hoops after a shot at hoop `i` in the given band: only a shot in range
/// scores, and it scores that hoop alone.
pub open spec fn hoops_after_shot(hoops: Seq<Hoop>, i: int, band: ShotBand) -> Seq<Hoop> {
    if band == ShotBand::InRange {
        hoops.update(i, Hoop { position: hoops[i].position, state: HoopState::Scored })
    } else {
        hoops
    }
}

/// Law: a shot in range scores the aimed hoop and leaves every other hoop as
/// it was; a shot too close or too far changes no hoop. The feedback says
/// "¡ENCESTASTE!" only for a shot in range, "¡MUY FUERTE!" for one too close
/// and "¡MUY DÉBIL!" for one too far.
pub proof fn law_shot_effect(hoops: Seq<Hoop>, i: int, band: ShotBand, k: int)
    requires
        0 <= i < hoops.len(),
        0 <= k < hoops.len(),
    ensures
        hoops_after_shot(hoops, i, band).len() == hoops.len(),
        band == ShotBand::InRange ==> hoops_after_shot(hoops, i, band)[i].state
            == HoopState::Scored,
        hoops_after_shot(hoops, i, band)[k].position == hoops[k].position,
        (k != i || band != ShotBand::InRange) ==> hoops_after_shot(hoops, i, band)[k] == hoops[k],
        shot_message(ShotBand::InRange) == "¡ENCESTASTE!"@,
        shot_message(ShotBand::TooClose) == "¡MUY FUERTE!"@,
        shot_message(ShotBand::TooFar) == "¡MUY DÉBIL!"@,
{
}

/// Shoots at the aimed hoop `target`, if any. No target: nothing happens and
/// there is no feedback. Otherwise the result says whether the ball went in,
/// with the feedback message, and a shot in range marks the hoop as scored.
pub fn try_shoot(hoops: &mut Vec<Hoop>, target: Option<usize>, band: ShotBand) -> (result: Option<
    (bool, String),
>)
    requires
        target matches Some(i) ==> i < old(hoops)@.len() && old(hoops)@[i as int].state
            == HoopState::Pending,
    ensures
        match target {
            None => {
                &&& result is None
                &&& final(hoops)@ == old(hoops)@
            },
            Some(i) => {
                &&& result matches Some((hit, message)) && hit == (band == ShotBand::InRange)
                    && message@ == shot_message(band)
                &&& final(hoops)@ == hoops_after_shot(old(hoops)@, i as int, band)
            },
        },
{
    let index = match target {
        None => {
            return None;
        },
        Some(i) => i,
    };
    match band {
        ShotBand::TooClose => Some((false, "¡MUY FUERTE!".to_owned())),
        ShotBand::TooFar => Some((false, "¡MUY DÉBIL!".to_owned())),
        ShotBand::InRange => {
            let position = hoops[index].position;
            hoops.set(index, Hoop { position, state: HoopState::Scored });
            Some((true, "¡ENCESTASTE!".to_owned()))
        },
    }
}

} // verus!
