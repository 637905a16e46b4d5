//! Seek requests: where to go, at which rate, and how the pipeline may trade
//! accuracy for latency on the way.

use vstd::prelude::*;
use crate::clock::ClockTime;

verus! {

/// Drop what is queued in the pipeline before going to the new position.
pub const FLUSH: u32 = 1;

/// Land on the exact position, decoding from the key frame before it.
pub const ACCURATE: u32 = 2;

/// Land on a key frame near the position.
pub const KEY_UNIT: u32 = 4;

/// Decode and show only what a fast scrub needs.
pub const TRICKMODE: u32 = 16;

/// While in trick mode, decode key frames only.
pub const TRICKMODE_KEY_UNITS: u32 = 128;

/// While in trick mode, decode key frames and forward-predicted frames only.
pub const TRICKMODE_FORWARD_PREDICTED: u32 = 512;

/// A set of seek flags, one bit each.
#[derive(Clone, Copy, Debug, PartialEq, Eq, Structural)]
pub struct SeekFlags {
    pub bits: u32,
}

/// Playback rate in thousandths: 1000 is normal speed.
#[derive(Clone, Copy, Debug, PartialEq, Eq, Structural)]
pub struct PlaybackSpeed {
    pub permille: u32,
}

/// One seek: go to `start` and play from there at `rate`. The end of the
/// played range stays open.
#[derive(Clone, Copy, Debug, PartialEq, Eq, Structural)]
pub struct SeekRequest {
    pub rate: PlaybackSpeed,
    pub flags: SeekFlags,
    pub start: ClockTime,
}

/// The ways to seek that differ in their flags only.
#[derive(Clone, Copy, Debug, PartialEq, Eq, Structural)]
pub enum SeekKind {
    /// Forward-predicted and snapped to key units: fast and approximate, for
    /// scrubbing while playing fast.
    TrickMode,
    /// Frame-accurate, at the price of decoding from the key frame before.
    Exact,
    /// Flush and snap to a key frame: the normal scrub.
    Keyframe,
    /// Flush and nothing more: the fastest.
    FlushOnly,
    /// Snap to a key frame without a flush.
    NearestKeyframe,
}

impl SeekFlags {
    /// The set holds every bit of `flag`.
    pub open spec fn has(self, flag: u32) -> bool {
        self.bits & flag == flag
    }

    pub fn from_bits(bits: u32) -> (f: SeekFlags)
        ensures
            f.bits == bits,
    {
        SeekFlags { bits }
    }

    pub fn bits(&self) -> (b: u32)
        ensures
            b == self.bits,
    {
        self.bits
    }

    pub fn contains(&self, flag: u32) -> (b: bool)
        ensures
            b == self.has(flag),
    {
        self.bits & flag == flag
    }

    /// The flags of both sets.
    pub fn union(self, other: SeekFlags) -> (f: SeekFlags)
        ensures
            f.bits == self.bits | other.bits,
            forall|flag: u32| f.has(flag) <== self.has(flag) || other.has(flag),
    {
        let bits = self.bits | other.bits;
        proof {
            let a = self.bits;
            let b = other.bits;
            assert forall|flag: u32| (a & flag == flag || b & flag == flag) implies (a | b) & flag
                == flag by {
                assert((a & flag == flag || b & flag == flag) ==> (a | b) & flag == flag)
                    by (bit_vector);
            }
        }
        SeekFlags { bits }
    }
}

impl PlaybackSpeed {
    /// A rate that a pipeline can play at: any but zero.
    pub open spec fn is_valid(self) -> bool {
        self.permille > 0
    }

    /// Normal speed.
    pub open spec fn normal() -> PlaybackSpeed {
        PlaybackSpeed { permille: 1000 }
    }

    /// The rate of so many thousandths; `None` for zero.
    pub fn from_permille(permille: u32) -> (s: Option<PlaybackSpeed>)
        ensures
            permille > 0 ==> s == Some(PlaybackSpeed { permille }),
            permille == 0 ==> s is None,
    {
        if permille > 0 {
            Some(PlaybackSpeed { permille })
        } else {
            None
        }
    }

    pub fn permille(&self) -> (p: u32)
        ensures
            p == self.permille,
    {
        self.permille
    }
}

impl SeekKind {
    /// The flag bits of each kind.
    pub open spec fn flag_bits(self) -> u32 {
        match self {
            SeekKind::TrickMode => 656,
            SeekKind::Exact => 2,
            SeekKind::Keyframe => 5,
            SeekKind::FlushOnly => 1,
            SeekKind::NearestKeyframe => 4,
        }
    }

    /// The flags that a seek of this kind carries.
    pub fn flags(self) -> (f: SeekFlags)
        ensures
            f.bits == self.flag_bits(),
    {
        proof {
            lemma_seek_kind_flags();
        }
        match self {
            SeekKind::TrickMode => SeekFlags {
                bits: TRICKMODE | TRICKMODE_KEY_UNITS | TRICKMODE_FORWARD_PREDICTED,
            },
            SeekKind::Exact => SeekFlags { bits: ACCURATE },
            SeekKind::Keyframe => SeekFlags { bits: FLUSH | KEY_UNIT },
            SeekKind::FlushOnly => SeekFlags { bits: FLUSH },
            SeekKind::NearestKeyframe => SeekFlags { bits: KEY_UNIT },
        }
    }
}

/// The flags of a seek on the timeline: a flush alone where the position has
/// to be hit, a flush snapped to a key frame where it need not.
pub open spec fn timeline_flag_bits(accurate: bool) -> u32 {
    if accurate {
        SeekKind::FlushOnly.flag_bits()
    } else {
        SeekKind::Keyframe.flag_bits()
    }
}

/// The flags of a seek on the timeline.
pub fn timeline_flags(accurate: bool) -> (f: SeekFlags)
    ensures
        f.bits == timeline_flag_bits(accurate),
{
    if accurate {
        SeekKind::FlushOnly.flags()
    } else {
        SeekKind::Keyframe.flags()
    }
}

/// Each kind of seek carries exactly the flags that make it what it is.
pub proof fn lemma_seek_kind_flags()
    ensures
        SeekKind::TrickMode.flag_bits() == TRICKMODE | TRICKMODE_KEY_UNITS
            | TRICKMODE_FORWARD_PREDICTED,
        SeekKind::Exact.flag_bits() == ACCURATE,
        SeekKind::Keyframe.flag_bits() == FLUSH | KEY_UNIT,
        SeekKind::FlushOnly.flag_bits() == FLUSH,
        SeekKind::NearestKeyframe.flag_bits() == KEY_UNIT,
{
    assert(16u32 | 128u32 | 512u32 == 656u32) by (bit_vector);
    assert(1u32 | 4u32 == 5u32) by (bit_vector);
}

} // verus!
