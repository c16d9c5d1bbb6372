//! Persistent game settings: volumes, fullscreen flag and resolution
//! preset.
//!
//! The record itself and every rule about it live here; reading and
//! writing the settings file is the embedding program's job.

use vstd::prelude::*;
use vstd::string::StringExecFns;

verus! {

/// Highest volume value for sound and music.
pub const MAX_VOLUME: i16 = 255;

/// Highest resolution preset index.
pub const MAX_RESOLUTION: i16 = 3;

/// `v` forced into `[low, high]`, preferring `low` when `v` is below it.
pub open spec fn clamped(v: int, low: int, high: int) -> int {
    if v < low {
        low
    } else if v > high {
        high
    } else {
        v
    }
}

/// Force `value` into `[low, high]`.
pub fn limit_range(value: &mut i16, low: i16, high: i16)
    ensures
        *final(value) == clamped(*old(value) as int, low as int, high as int),
{
    if *value < low {
        *value = low;
    } else if *value > high {
        *value = high;
    }
}

/// The flat settings record.
#[derive(Debug, Clone, Copy, PartialEq, Eq, Structural)]
pub struct GameSettings {
    pub start_level: u8,
    pub sound_volume: i16,
    pub music_volume: i16,
    pub fullscreen: bool,
    pub resolution: i16,
}

impl GameSettings {
    /// Well formed: volumes within `[0, 255]` and the resolution one of
    /// the four presets.
    pub open spec fn wf(&self) -> bool {
        &&& 0 <= self.sound_volume <= MAX_VOLUME
        &&& 0 <= self.music_volume <= MAX_VOLUME
        &&& 0 <= self.resolution <= MAX_RESOLUTION
    }

    /// The hard-coded defaults, used whenever no stored settings can be
    /// read.
    pub fn new() -> (r: GameSettings)
        ensures
            r.wf(),
            r.start_level == 0,
            r.sound_volume == 200,
            r.music_volume == 200,
            !r.fullscreen,
            r.resolution == 0,
    {
        GameSettings {
            start_level: 0,
            sound_volume: 200,
            music_volume: 200,
            fullscreen: false,
            resolution: 0,
        }
    }

    /// Force every ranged field into its range, leaving in-range values
    /// untouched.  Meant for records that arrive from outside, such as a
    /// hand-edited settings file.
    pub fn sanitize(&mut self)
        ensures
            final(self).wf(),
            final(self).sound_volume == clamped(old(self).sound_volume as int, 0, MAX_VOLUME as int),
            final(self).music_volume == clamped(old(self).music_volume as int, 0, MAX_VOLUME as int),
            final(self).resolution == clamped(old(self).resolution as int, 0, MAX_RESOLUTION as int),
            final(self).start_level == old(self).start_level,
            final(self).fullscreen == old(self).fullscreen,
    {
        limit_range(&mut self.sound_volume, 0, MAX_VOLUME);
        limit_range(&mut self.music_volume, 0, MAX_VOLUME);
        limit_range(&mut self.resolution, 0, MAX_RESOLUTION);
    }

    /// Raise the sound volume by one step of 5, saturating at the top.
    pub fn inc_sound_vol(&mut self)
        requires
            old(self).wf(),
        ensures
            final(self).wf(),
            *final(self) == (GameSettings {
                sound_volume: final(self).sound_volume,
                ..*old(self)
            }),
            final(self).sound_volume == clamped(
                old(self).sound_volume + 5,
                0,
                MAX_VOLUME as int,
            ),
    {
        self.sound_volume = self.sound_volume + 5;
        limit_range(&mut self.sound_volume, 0, MAX_VOLUME);
    }

    /// Lower the sound volume by one step of 5, saturating at zero.
    pub fn dec_sound_vol(&mut self)
        requires
            old(self).wf(),
        ensures
            final(self).wf(),
            *final(self) == (GameSettings {
                sound_volume: final(self).sound_volume,
                ..*old(self)
            }),
            final(self).sound_volume == clamped(
                old(self).sound_volume - 5,
                0,
                MAX_VOLUME as int,
            ),
    {
        self.sound_volume = self.sound_volume - 5;
        limit_range(&mut self.sound_volume, 0, MAX_VOLUME);
    }

    pub fn get_sound_vol(&self) -> (r: i16)
        ensures
            r == self.sound_volume,
    {
        self.sound_volume
    }

    /// Raise the music volume by one step of 5, saturating at the top.
    pub fn inc_music_vol(&mut self)
        requires
            old(self).wf(),
        ensures
            final(self).wf(),
            *final(self) == (GameSettings {
                music_volume: final(self).music_volume,
                ..*old(self)
            }),
            final(self).music_volume == clamped(
                old(self).music_volume + 5,
                0,
                MAX_VOLUME as int,
            ),
    {
        self.music_volume = self.music_volume + 5;
        limit_range(&mut self.music_volume, 0, MAX_VOLUME);
    }

    /// Lower the music volume by one step of 5, saturating at zero.
    pub fn dec_music_vol(&mut self)
        requires
            old(self).wf(),
        ensures
            final(self).wf(),
            *final(self) == (GameSettings {
                music_volume: final(self).music_volume,
                ..*old(self)
            }),
            final(self).music_volume == clamped(
                old(self).music_volume - 5,
                0,
                MAX_VOLUME as int,
            ),
    {
        self.music_volume = self.music_volume - 5;
        limit_range(&mut self.music_volume, 0, MAX_VOLUME);
    }

    pub fn get_music_vol(&self) -> (r: i16)
        ensures
            r == self.music_volume,
    {
        self.music_volume
    }

    pub fn toggle_fullscreen(&mut self)
        ensures
            *final(self) == (GameSettings {
                fullscreen: !old(self).fullscreen,
                ..*old(self)
            }),
    {
        self.fullscreen = !self.fullscreen;
    }

    pub fn get_fullscreen(&self) -> (r: bool)
        ensures
            r == self.fullscreen,
    {
        self.fullscreen
    }

    /// Step to the next resolution preset, saturating at the last one.
    pub fn inc_resolution(&mut self)
        requires
            old(self).wf(),
        ensures
            final(self).wf(),
            *final(self) == (GameSettings {
                resolution: final(self).resolution,
                ..*old(self)
            }),
            final(self).resolution == clamped(
                old(self).resolution + 1,
                0,
                MAX_RESOLUTION as int,
            ),
    {
        self.resolution = self.resolution + 1;
        limit_range(&mut self.resolution, 0, MAX_RESOLUTION);
    }

    /// Step to the previous resolution preset, saturating at the first
    /// one.
    pub fn dec_resolution(&mut self)
        requires
            old(self).wf(),
        ensures
            final(self).wf(),
            *final(self) == (GameSettings {
                resolution: final(self).resolution,
                ..*old(self)
            }),
            final(self).resolution == clamped(
                old(self).resolution - 1,
                0,
                MAX_RESOLUTION as int,
            ),
    {
        self.resolution = self.resolution - 1;
        limit_range(&mut self.resolution, 0, MAX_RESOLUTION);
    }

    pub fn get_resolution(&self) -> (r: i16)
        ensures
            r == self.resolution,
    {
        self.resolution
    }

    /// The display name of the current resolution preset.
    pub fn resolution_to_text(&self) -> (r: String)
        requires
            self.wf(),
        ensures
            r@ == spec_resolution_text(self.resolution as int),
    {
        match self.resolution {
            0 => String::from_str("800x600"),
            1 => String::from_str("1024x768"),
            2 => String::from_str("1280x1024"),
            _ => String::from_str("1980x1280"),
        }
    }
}

/// The display name of resolution preset `r`.
pub open spec fn spec_resolution_text(r: int) -> Seq<char>
    recommends
        0 <= r <= 3,
{
    if r == 0 {
        "800x600"@
    } else if r == 1 {
        "1024x768"@
    } else if r == 2 {
        "1280x1024"@
    } else {
        "1980x1280"@
    }
}

} // verus!
