//! Frame-by-frame animation of a sprite sheet: a repeating timer that
//! steps the shown frame through a range of sheet indices.
use vstd::prelude::*;
use vstd::arithmetic::div_mod::lemma_add_mod_noop_right;

verus! {

/// A repeating timer: it goes off each time `period_us` microseconds have
/// passed, and keeps what passed beyond that.
#[derive(Clone, Copy, Debug, PartialEq, Eq, Structural)]
pub struct FrameTimer {
    pub period_us: u64,
    pub elapsed_us: u64,
}

impl FrameTimer {
    pub open spec fn wf(self) -> bool {
        0 < self.period_us && self.elapsed_us < self.period_us
    }
}

/// The sheet indices to play, from `first_sprite_index` to
/// `last_sprite_index`, and the pace.
#[derive(Clone, Copy, Debug, PartialEq, Eq, Structural)]
pub struct AnimationConfig {
    pub first_sprite_index: usize,
    pub last_sprite_index: usize,
    pub fps: u8,
    pub frame_timer: FrameTimer,
}

/// The timer after `dt` microseconds, and whether it went off.
pub open spec fn timer_ticked(t: FrameTimer, dt: int) -> (FrameTimer, bool) {
    if t.elapsed_us + dt >= t.period_us {
        (FrameTimer { elapsed_us: ((t.elapsed_us + dt) % (t.period_us as int)) as u64, ..t }, true)
    } else {
        (FrameTimer { elapsed_us: (t.elapsed_us + dt) as u64, ..t }, false)
    }
}

/// The sheet index shown after `index`: the next one, or the first after
/// the last.
pub open spec fn next_index(index: int, first: int, last: int) -> int {
    if index >= last { first } else { index + 1 }
}

impl AnimationConfig {
    /// The timer for a pace of `fps`: five seconds shared among `fps`
    /// frames, rounded down to the microsecond.
    pub fn timer_from_fps(fps: u8) -> (r: FrameTimer)
        requires
            fps > 0,
        ensures
            r.wf(),
            r.period_us == 5_000_000int / (fps as int),
            r.elapsed_us == 0,
    {
        proof {
            let f = fps as int;
            assert(5_000_000int / f >= 1) by (nonlinear_arith)
                requires
                    0 < f <= 255,
            ;
        }
        FrameTimer { period_us: 5_000_000 / fps as u64, elapsed_us: 0 }
    }

    pub fn new(first: usize, last: usize, fps: u8) -> (r: AnimationConfig)
        requires
            fps > 0,
        ensures
            r.first_sprite_index == first,
            r.last_sprite_index == last,
            r.fps == fps,
            r.frame_timer.wf(),
            r.frame_timer.period_us == 5_000_000int / (fps as int),
            r.frame_timer.elapsed_us == 0,
    {
        AnimationConfig {
            first_sprite_index: first,
            last_sprite_index: last,
            fps,
            frame_timer: Self::timer_from_fps(fps),
        }
    }
}

/// Lets `dt_us` microseconds pass and, when the timer goes off, shows the
/// next sheet index.
pub fn animate_base(config: &mut AnimationConfig, index: &mut usize, dt_us: u64)
    requires
        old(config).frame_timer.wf(),
    ensures
        final(config).frame_timer == timer_ticked(old(config).frame_timer, dt_us as int).0,
        final(config).frame_timer.wf(),
        final(config).first_sprite_index == old(config).first_sprite_index,
        final(config).last_sprite_index == old(config).last_sprite_index,
        final(config).fps == old(config).fps,
        *final(index) == (if timer_ticked(old(config).frame_timer, dt_us as int).1 {
            next_index(
                *old(index) as int,
                old(config).first_sprite_index as int,
                old(config).last_sprite_index as int,
            )
        } else {
            *old(index) as int
        }),
{
    let p = config.frame_timer.period_us;
    let e = config.frame_timer.elapsed_us;
    if dt_us >= p - e {
        let r: u64 = ((e as u128 + (dt_us % p) as u128) % p as u128) as u64;
        proof {
            lemma_add_mod_noop_right(e as int, dt_us as int, p as int);
        }
        config.frame_timer.elapsed_us = r;
        if *index >= config.last_sprite_index {
            *index = config.first_sprite_index;
        } else {
            *index = *index + 1;
        }
    } else {
        config.frame_timer.elapsed_us = e + dt_us;
    }
}

} // verus!
