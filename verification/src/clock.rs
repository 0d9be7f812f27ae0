//! The simulation clock's controls: speed presets, pausing, and the tick
//! count that advances with each frame.
use vstd::prelude::*;

verus! {

/// How many simulation steps run per frame, and whether time is paused.
#[derive(Clone, Copy, Debug, PartialEq, Eq, Structural)]
pub struct ClockControls {
    pub steps_per_frame: u32,
    pub paused: bool,
}

impl ClockControls {
    /// One step per frame, running.
    pub fn new() -> (r: Self)
        ensures
            r.steps_per_frame == 1,
            !r.paused,
    {
        ClockControls { steps_per_frame: 1, paused: false }
    }

    /// Steps that run this frame: none while paused.
    pub fn steps_this_frame(&self) -> (r: u32)
        ensures
            r == (if self.paused { 0 } else { self.steps_per_frame }),
    {
        if self.paused {
            0
        } else {
            self.steps_per_frame
        }
    }
}

/// The keys that were pressed this frame.
#[derive(Clone, Copy, Debug, Default)]
pub struct TimeKeys {
    pub space: bool,
    pub digit1: bool,
    pub digit2: bool,
    pub digit3: bool,
    pub digit4: bool,
    pub digit5: bool,
    pub digit6: bool,
}

/// The preset that the highest pressed digit selects, if any.
pub open spec fn preset_from(keys: TimeKeys) -> Option<u32> {
    if keys.digit6 {
        Some(900u32)
    } else if keys.digit5 {
        Some(300u32)
    } else if keys.digit4 {
        Some(120u32)
    } else if keys.digit3 {
        Some(20u32)
    } else if keys.digit2 {
        Some(5u32)
    } else if keys.digit1 {
        Some(1u32)
    } else {
        None
    }
}

/// The controls after this frame's keys: Space toggles the pause; a digit
/// selects a speed preset (1x, 5x, 20x, 120x, 300x, 900x) and resumes time,
/// the highest pressed digit winning.
pub open spec fn after_keys(c: ClockControls, keys: TimeKeys) -> ClockControls {
    let toggled = if keys.space { !c.paused } else { c.paused };
    match preset_from(keys) {
        Some(steps) => ClockControls { steps_per_frame: steps, paused: false },
        None => ClockControls { steps_per_frame: c.steps_per_frame, paused: toggled },
    }
}

/// Applies this frame's keys to the controls.
pub fn keyboard_time_controls(keys: &TimeKeys, clock: &mut ClockControls)
    ensures
        *final(clock) == after_keys(*old(clock), *keys),
{
    if keys.space {
        clock.paused = !clock.paused;
    }
    if keys.digit1 {
        clock.steps_per_frame = 1;
        clock.paused = false;
    }
    if keys.digit2 {
        clock.steps_per_frame = 5;
        clock.paused = false;
    }
    if keys.digit3 {
        clock.steps_per_frame = 20;
        clock.paused = false;
    }
    if keys.digit4 {
        clock.steps_per_frame = 120;
        clock.paused = false;
    }
    if keys.digit5 {
        clock.steps_per_frame = 300;
        clock.paused = false;
    }
    if keys.digit6 {
        clock.steps_per_frame = 900;
        clock.paused = false;
    }
}

/// The label of a speed: the preset's name, or "custom".
pub open spec fn speed_label_of(steps_per_frame: u32) -> Seq<char> {
    if steps_per_frame == 1 {
        "1x"@
    } else if steps_per_frame == 5 {
        "5x"@
    } else if steps_per_frame == 20 {
        "20x"@
    } else if steps_per_frame == 120 {
        "120x"@
    } else if steps_per_frame == 300 {
        "300x"@
    } else if steps_per_frame == 900 {
        "900x"@
    } else {
        "custom"@
    }
}

/// The label of the current speed.
pub fn speed_label(clock: &ClockControls) -> (r: &'static str)
    ensures
        r@ == speed_label_of(clock.steps_per_frame),
{
    match clock.steps_per_frame {
        1 => "1x",
        5 => "5x",
        20 => "20x",
        120 => "120x",
        300 => "300x",
        900 => "900x",
        _ => "custom",
    }
}

/// The tick count after one frame: unchanged while paused, otherwise moved
/// on by the steps per frame.
pub fn advance_tick(tick: u64, clock: &ClockControls) -> (r: u64)
    requires
        clock.paused || tick + clock.steps_per_frame <= u64::MAX,
    ensures
        r == (if clock.paused { tick as int } else { tick + clock.steps_per_frame }),
{
    if clock.paused {
        tick
    } else {
        tick + clock.steps_per_frame as u64
    }
}

/// Pressing Space alone on two frames leaves the controls as they were;
/// pressing a digit always leaves time running; with no key pressed nothing
/// changes.
pub proof fn lemma_time_keys(c: ClockControls, keys: TimeKeys)
    ensures
        ({
            let space_only = TimeKeys { space: true, digit1: false, digit2: false, digit3: false,
                digit4: false, digit5: false, digit6: false };
            after_keys(after_keys(c, space_only), space_only) == c
        }),
        preset_from(keys) is Some ==> !after_keys(c, keys).paused,
        (!keys.space && preset_from(keys) is None) ==> after_keys(c, keys) == c,
{
}

} // verus!
