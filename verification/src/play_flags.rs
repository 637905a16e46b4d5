//! The switches of a playback pipeline: which of its parts take part in
//! playing. The pipeline keeps them as one word; what is computed here is the
//! word to write back.

use vstd::prelude::*;

verus! {

/// The bits of the pipeline's play flags.
pub struct PlayFlags;

impl PlayFlags {
    /// Render the video stream.
    pub const VIDEO: u32 = 1;

    /// Render the audio stream.
    pub const AUDIO: u32 = 2;

    /// Render subtitles.
    pub const SUBTITLES: u32 = 4;

    /// Render a visualisation where there is no video.
    pub const VIS: u32 = 8;

    /// Use software volume.
    pub const SOFT_VOLUME: u32 = 16;

    /// Only use native audio formats.
    pub const NATIVE_AUDIO: u32 = 32;

    /// Only use native video formats.
    pub const NATIVE_VIDEO: u32 = 64;

    /// Attempt progressive download buffering.
    pub const DOWNLOAD: u32 = 128;

    /// Buffer demuxed or parsed data.
    pub const BUFFERING: u32 = 256;

    /// Deinterlace video where needed.
    pub const DEINTERLACE: u32 = 512;

    /// Use software colour balance.
    pub const SOFT_COLORBALANCE: u32 = 1024;

    /// Force the audio and video filters to be applied.
    pub const FORCE_FILTERS: u32 = 2048;

    /// Force software decoders only.
    pub const FORCE_SW_DECODERS: u32 = 4096;

    /// Some bit of `flag` is set in `flags`.
    pub open spec fn any_set(flags: u32, flag: u32) -> bool {
        flags & flag != 0
    }

    /// `flags` with the bits of `flag` set or cleared.
    pub open spec fn with_flag(flags: u32, flag: u32, set_to: bool) -> u32 {
        if set_to {
            flags | flag
        } else {
            flags & !flag
        }
    }

    /// Whether some bit of `flag` is set in `flags`.
    pub fn is_set(flags: u32, flag: u32) -> (b: bool)
        ensures
            b == Self::any_set(flags, flag),
    {
        (flags & flag) != 0
    }

    /// `flags` with the bits of `flag` set, or cleared, and every other bit
    /// as it was.
    pub fn toggled(flags: u32, flag: u32, set_to: bool) -> (r: u32)
        ensures
            r == Self::with_flag(flags, flag, set_to),
            set_to ==> r & flag == flag,
            !set_to ==> r & flag == 0,
            r & !flag == flags & !flag,
    {
        if set_to {
            assert((flags | flag) & flag == flag) by (bit_vector);
            assert((flags | flag) & !flag == flags & !flag) by (bit_vector);
            flags | flag
        } else {
            assert((flags & !flag) & flag == 0) by (bit_vector);
            assert((flags & !flag) & !flag == flags & !flag) by (bit_vector);
            flags & !flag
        }
    }
}

/// Switching a flag on and then asking for it finds it set; switching it off
/// finds it clear, for a flag of at least one bit; and switching one flag
/// leaves a flag that shares no bit with it as it was.
pub proof fn lemma_toggle_then_query(flags: u32, flag: u32, other: u32)
    ensures
        flag != 0 ==> PlayFlags::any_set(PlayFlags::with_flag(flags, flag, true), flag),
        !PlayFlags::any_set(PlayFlags::with_flag(flags, flag, false), flag),
        other & flag == 0 ==> PlayFlags::any_set(PlayFlags::with_flag(flags, flag, true), other)
            == PlayFlags::any_set(flags, other),
        other & flag == 0 ==> PlayFlags::any_set(PlayFlags::with_flag(flags, flag, false), other)
            == PlayFlags::any_set(flags, other),
{
    assert(flag != 0 ==> (flags | flag) & flag != 0) by (bit_vector);
    assert((flags & !flag) & flag == 0) by (bit_vector);
    assert(other & flag == 0 ==> (flags | flag) & other == flags & other) by (bit_vector);
    assert(other & flag == 0 ==> (flags & !flag) & other == flags & other) by (bit_vector);
}

} // verus!
