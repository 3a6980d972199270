//! The time window of a clip: two whole seconds, and how they are held in range.

use vstd::prelude::*;

verus! {

/// Specifies where the clip exists within the video.
#[derive(PartialEq, Eq, Structural, Clone, Copy, Debug)]
pub struct TargetTimeStamp {
    /// Start time in seconds
    pub start: u32,
    /// End time in seconds
    pub end: u32,
}

/// The smaller of a second and the length of the video.
pub open spec fn bound_second(second: u32, length: u32) -> u32 {
    if second > length {
        length
    } else {
        second
    }
}

impl TargetTimeStamp {
    /// The window does not end before it starts.
    pub open spec fn is_ordered(self) -> bool {
        self.start <= self.end
    }

    /// The window that starts at `offset` and lasts `duration` seconds. Where the
    /// sum does not fit in 32 bits the window ends at `u32::MAX`.
    pub open spec fn spec_new(offset: u32, duration: u32) -> Self {
        TargetTimeStamp {
            start: offset,
            end: if offset + duration > u32::MAX {
                u32::MAX
            } else {
                (offset + duration) as u32
            },
        }
    }

    /// The window with both of its seconds held within a video of `length` seconds.
    /// Each is bound on its own, against the same length.
    pub open spec fn spec_bind_values(self, length: u32) -> Self {
        TargetTimeStamp {
            start: bound_second(self.start, length),
            end: bound_second(self.end, length),
        }
    }

    /// Overflow safe `TargetTimeStamp` builder.
    pub fn new(offset: u32, duration: u32) -> (window: Self)
        ensures
            window == Self::spec_new(offset, duration),
            window.start == offset,
            window.is_ordered(),
    {
        let start = offset;
        let end = match offset.checked_add(duration) {
            Some(end) => end,
            None => u32::MAX,
        };
        Self { start, end }
    }

    /// Bind `start` and `end` values to be valid within the available `video_length`,
    /// given in whole seconds. The bound window is written back and returned.
    pub fn bind_values(&mut self, video_length: u32) -> (bound: Self)
        ensures
            *final(self) == old(self).spec_bind_values(video_length),
            bound == *final(self),
            bound.start <= video_length,
            bound.end <= video_length,
            old(self).is_ordered() ==> bound.is_ordered(),
    {
        if self.start > video_length {
            self.start = video_length;
        }
        if self.end > video_length {
            self.end = video_length;
        }
        *self
    }
}

/// A window built from any offset and duration and then bound to any length ends
/// within that length, starts at the offset or, where the offset lies beyond the
/// length, at the length, and does not end before it starts.
pub proof fn lemma_new_window_bound(offset: u32, duration: u32, length: u32)
    ensures
        ({
            let window = TargetTimeStamp::spec_new(offset, duration).spec_bind_values(length);
            &&& window.end <= length
            &&& offset > length ==> window.start == length
            &&& offset <= length ==> window.start == offset
            &&& window.is_ordered()
        }),
{
}

} // verus!
