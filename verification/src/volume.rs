//! Playback volume, in thousandths of the unamplified level.

use vstd::prelude::*;

verus! {

/// The lowest volume: silence.
pub const VOLUME_MIN: i32 = 0;

/// The highest volume: five times the unamplified level.
pub const VOLUME_MAX: i32 = 5000;

/// The volume that a fresh backend plays at.
pub const VOLUME_START: i32 = 2500;

/// A volume in thousandths: 1000 leaves the signal as it is.
#[derive(Clone, Copy, Debug, PartialEq, Eq, Structural)]
pub struct Volume {
    pub permille: i32,
}

/// The volumes that a backend takes, both ends included.
#[derive(Clone, Copy, Debug, PartialEq, Eq, Structural)]
pub struct VolumeRange {
    pub start: Volume,
    pub end: Volume,
}

impl Volume {
    /// The volume lies in the range that a backend takes.
    pub open spec fn in_range(self) -> bool {
        VOLUME_MIN <= self.permille <= VOLUME_MAX
    }

    /// The volume in range that is nearest to this one.
    pub open spec fn clamped(self) -> Volume {
        if self.permille < VOLUME_MIN {
            Volume { permille: VOLUME_MIN }
        } else if self.permille > VOLUME_MAX {
            Volume { permille: VOLUME_MAX }
        } else {
            self
        }
    }

    pub fn from_permille(permille: i32) -> (v: Volume)
        ensures
            v.permille == permille,
    {
        Volume { permille }
    }

    pub fn permille(&self) -> (p: i32)
        ensures
            p == self.permille,
    {
        self.permille
    }

    /// Brings the volume into range: what lies below becomes the lowest
    /// volume, what lies above the highest.
    pub fn clamp(self) -> (v: Volume)
        ensures
            v == self.clamped(),
            v.in_range(),
            self.in_range() ==> v == self,
    {
        if self.permille < VOLUME_MIN {
            Volume { permille: VOLUME_MIN }
        } else if self.permille > VOLUME_MAX {
            Volume { permille: VOLUME_MAX }
        } else {
            self
        }
    }
}

impl VolumeRange {
    /// The range that every backend takes.
    pub open spec fn full() -> VolumeRange {
        VolumeRange { start: Volume { permille: VOLUME_MIN }, end: Volume { permille: VOLUME_MAX } }
    }

    pub fn contains(&self, volume: Volume) -> (b: bool)
        ensures
            b == (self.start.permille <= volume.permille <= self.end.permille),
    {
        self.start.permille <= volume.permille && volume.permille <= self.end.permille
    }
}

/// Whatever volume is asked for, the volume that is set lies in the range
/// that the backend gives out, and is the one asked for where that lies in
/// the range. Bringing a volume into range twice changes nothing more.
pub proof fn lemma_clamped_volume_is_in_range(asked: Volume)
    ensures
        VolumeRange::full().start.permille <= asked.clamped().permille
            <= VolumeRange::full().end.permille,
        VolumeRange::full().start.permille <= asked.permille <= VolumeRange::full().end.permille
            ==> asked.clamped() == asked,
        asked.permille < VolumeRange::full().start.permille ==> asked.clamped()
            == VolumeRange::full().start,
        asked.permille > VolumeRange::full().end.permille ==> asked.clamped()
            == VolumeRange::full().end,
        asked.clamped().clamped() == asked.clamped(),
{
}

} // verus!
