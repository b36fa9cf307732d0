//! The sound-trigger rules. The program writes signal levels into the
//! memory-mapped sound latches; an audio collaborator polls them every
//! scheduler tick. The director remembers the previous levels and decides,
//! on each poll, which sound effects to start or stop — generally an
//! effect starts on a low-to-high signal transition and a continuous one
//! stops when its signal falls.

use vstd::prelude::*;

use crate::memory::MappedIO;

verus! {

/// The previous signal levels, one per effect family, plus the hold-off
/// counter that keeps the extra-life jingle from retriggering every tick.
#[derive(Copy, Clone, Debug, PartialEq, Eq, Structural)]
pub struct SoundDirector {
    pub ship_fire_signal: u8,
    pub explosion_signal: u8,
    pub saucer_signal: u8,
    pub saucer_fire_signal: u8,
    pub thump_signal: u8,
    pub thrust_signal: u8,
    pub extra_life_countdown: u32,
}

/// What the audio collaborator should do after one poll of the latches.
#[derive(Copy, Clone, Debug, PartialEq, Eq, Structural)]
pub struct SoundActions {
    pub play_ship_fire: bool,
    pub play_explosion: bool,
    pub start_large_saucer: bool,
    pub start_small_saucer: bool,
    pub stop_saucer: bool,
    pub play_saucer_fire: bool,
    pub play_extra_life: bool,
    pub play_thump_low: bool,
    pub play_thump_high: bool,
    pub start_thrust: bool,
    pub stop_thrust: bool,
}

/// One poll of the sound latches: the new director state and the actions
/// it calls for, deterministically from the previous levels and the
/// latches.
pub open spec fn spec_sound_update(d: SoundDirector, io: MappedIO) -> (SoundDirector, SoundActions) {
    let explosion = (io.sndexp % 0x40) as u8;
    let saucer_rising = d.saucer_signal < io.sndsaucr;
    let saucer_falling = d.saucer_signal > io.sndsaucr;
    let extra_life = io.sndbonus > 0 && d.extra_life_countdown == 0;
    let countdown: u32 = if extra_life {
        10000
    } else {
        d.extra_life_countdown
    };
    let actions = SoundActions {
        play_ship_fire: d.ship_fire_signal < io.sndfire,
        play_explosion: d.explosion_signal < explosion,
        start_large_saucer: saucer_rising && io.sndselsau == 160,
        start_small_saucer: saucer_rising && io.sndselsau != 160,
        stop_saucer: saucer_falling,
        play_saucer_fire: d.saucer_fire_signal < io.sndsfire,
        play_extra_life: extra_life,
        play_thump_low: io.sndthump > 4 && d.thump_signal <= 4 && io.sndthump == 16,
        play_thump_high: io.sndthump > 4 && d.thump_signal <= 4 && io.sndthump != 16,
        start_thrust: d.thrust_signal < io.sndthrust,
        stop_thrust: d.thrust_signal > io.sndthrust,
    };
    let next = SoundDirector {
        ship_fire_signal: io.sndfire,
        explosion_signal: explosion,
        saucer_signal: io.sndsaucr,
        saucer_fire_signal: io.sndsfire,
        thump_signal: io.sndthump,
        thrust_signal: io.sndthrust,
        extra_life_countdown: if countdown > 0 {
            (countdown - 1) as u32
        } else {
            0
        },
    };
    (next, actions)
}

impl SoundDirector {
    /// A director that has heard nothing yet: every signal low.
    pub fn new() -> (d: SoundDirector)
        ensures
            d == (SoundDirector {
                ship_fire_signal: 0,
                explosion_signal: 0,
                saucer_signal: 0,
                saucer_fire_signal: 0,
                thump_signal: 0,
                thrust_signal: 0,
                extra_life_countdown: 0,
            }),
    {
        SoundDirector {
            ship_fire_signal: 0,
            explosion_signal: 0,
            saucer_signal: 0,
            saucer_fire_signal: 0,
            thump_signal: 0,
            thrust_signal: 0,
            extra_life_countdown: 0,
        }
    }

    /// Polls the latches once, exactly `spec_sound_update`: decides which
    /// effects to start or stop and remembers the levels for the next poll.
    pub fn update(&mut self, io: &MappedIO) -> (actions: SoundActions)
        ensures
            (*final(self), actions) == spec_sound_update(*old(self), *io),
    {
        let explosion = io.sndexp % 0x40;
        let saucer_rising = self.saucer_signal < io.sndsaucr;
        let saucer_falling = self.saucer_signal > io.sndsaucr;
        let extra_life = io.sndbonus > 0 && self.extra_life_countdown == 0;
        let countdown: u32 = if extra_life {
            10000
        } else {
            self.extra_life_countdown
        };
        let actions = SoundActions {
            play_ship_fire: self.ship_fire_signal < io.sndfire,
            play_explosion: self.explosion_signal < explosion,
            start_large_saucer: saucer_rising && io.sndselsau == 160,
            start_small_saucer: saucer_rising && io.sndselsau != 160,
            stop_saucer: saucer_falling,
            play_saucer_fire: self.saucer_fire_signal < io.sndsfire,
            play_extra_life: extra_life,
            play_thump_low: io.sndthump > 4 && self.thump_signal <= 4 && io.sndthump == 16,
            play_thump_high: io.sndthump > 4 && self.thump_signal <= 4 && io.sndthump != 16,
            start_thrust: self.thrust_signal < io.sndthrust,
            stop_thrust: self.thrust_signal > io.sndthrust,
        };
        self.ship_fire_signal = io.sndfire;
        self.explosion_signal = explosion;
        self.saucer_signal = io.sndsaucr;
        self.saucer_fire_signal = io.sndsfire;
        self.thump_signal = io.sndthump;
        self.thrust_signal = io.sndthrust;
        self.extra_life_countdown = if countdown > 0 {
            countdown - 1
        } else {
            0
        };
        actions
    }
}

} // verus!
