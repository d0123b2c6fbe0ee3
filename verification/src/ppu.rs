//! The picture unit's position in the frame.
//!
//! A frame is 262 scanlines of 341 dots: the pre-render scanline, numbered
//! -1, then scanlines 0 to 260. On an odd frame with rendering enabled the
//! pre-render scanline is one dot short: its last dot is skipped.

use vstd::prelude::*;

verus! {

/// Dots in a scanline.
pub const DOTS_PER_SCANLINE: u16 = 341;

/// Scanlines in a frame, the pre-render scanline included.
pub const SCANLINES_PER_FRAME: u16 = 262;

/// Dots in a full frame.
pub const DOTS_PER_FRAME: u32 = 89342;

/// The pre-render scanline.
pub const PRE_RENDER: i16 = -1;

/// The last scanline of a frame.
pub const LAST_SCANLINE: i16 = 260;

/// The scanline on which the vertical blank begins.
pub const VBLANK_SCANLINE: i16 = 241;

/// Where the picture unit is: the scanline, the dot on it, and the number
/// of frames finished.
#[derive(Debug, Copy, Clone, PartialEq, Eq, Structural)]
pub struct PpuClock {
    pub scanline: i16,
    pub dot: u16,
    pub frame: u64,
}

/// What a dot brings about.
#[derive(Debug, Copy, Clone, PartialEq, Eq, Structural)]
pub enum Signal {
    /// Nothing in particular.
    Idle,
    /// Dot 1 of scanline 241: the vertical blank begins.
    VblankStart,
    /// Dot 1 of the pre-render scanline: the vertical blank and the sprite
    /// flags are cleared.
    VblankEnd,
    /// Dot 0 of the pre-render scanline: a frame is finished.
    FrameDone,
}

/// The number of the frame after frame `frame`; the count wraps to 0 after
/// its largest value.
pub open spec fn spec_next_frame(frame: u64) -> u64 {
    if frame == u64::MAX {
        0
    } else {
        (frame + 1) as u64
    }
}

impl PpuClock {
    /// The scanline and the dot are inside the frame.
    pub open spec fn wf(self) -> bool {
        &&& PRE_RENDER <= self.scanline <= LAST_SCANLINE
        &&& self.dot < DOTS_PER_SCANLINE
    }

    /// Dots from the start of the frame to this position, counting the
    /// skipped one.
    pub open spec fn spec_position(self) -> int {
        (self.scanline + 1) * DOTS_PER_SCANLINE + self.dot
    }

    /// Whether this frame's pre-render scanline is one dot short.
    pub open spec fn spec_skips(self, rendering: bool) -> bool {
        rendering && self.frame % 2 == 1
    }

    /// The position one dot later.
    pub open spec fn spec_tick(self, rendering: bool) -> PpuClock {
        if self.scanline == PRE_RENDER && self.dot == DOTS_PER_SCANLINE - 2 && self.spec_skips(
            rendering,
        ) {
            PpuClock { scanline: 0, dot: 0, ..self }
        } else if self.dot < DOTS_PER_SCANLINE - 1 {
            PpuClock { dot: (self.dot + 1) as u16, ..self }
        } else if self.scanline == LAST_SCANLINE {
            PpuClock { scanline: PRE_RENDER, dot: 0, frame: spec_next_frame(self.frame) }
        } else {
            PpuClock { scanline: (self.scanline + 1) as i16, dot: 0, ..self }
        }
    }

    /// What arriving at this position brings about.
    pub open spec fn spec_signal(self) -> Signal {
        if self.scanline == VBLANK_SCANLINE && self.dot == 1 {
            Signal::VblankStart
        } else if self.scanline == PRE_RENDER && self.dot == 1 {
            Signal::VblankEnd
        } else if self.scanline == PRE_RENDER && self.dot == 0 {
            Signal::FrameDone
        } else {
            Signal::Idle
        }
    }

    /// Dots left in this frame, with rendering staying as it is.
    pub open spec fn spec_dots_left(self, rendering: bool) -> int {
        DOTS_PER_FRAME - self.spec_position() - if self.scanline == PRE_RENDER && self.dot
            <= DOTS_PER_SCANLINE - 2 && self.spec_skips(rendering) {
            1int
        } else {
            0int
        }
    }

    /// The picture unit at power-on: the start of frame 0.
    pub fn new() -> (clock: Self)
        ensures
            clock == (PpuClock { scanline: PRE_RENDER, dot: 0, frame: 0 }),
            clock.wf(),
    {
        PpuClock { scanline: PRE_RENDER, dot: 0, frame: 0 }
    }

    /// Advances by one dot and says what the new position brings about.
    pub fn tick(&mut self, rendering: bool) -> (signal: Signal)
        requires
            old(self).wf(),
        ensures
            *final(self) == old(self).spec_tick(rendering),
            signal == final(self).spec_signal(),
            final(self).wf(),
    {
        if self.scanline == PRE_RENDER && self.dot == DOTS_PER_SCANLINE - 2 && rendering
            && self.frame % 2 == 1 {
            self.scanline = 0;
            self.dot = 0;
        } else if self.dot < DOTS_PER_SCANLINE - 1 {
            self.dot += 1;
        } else if self.scanline == LAST_SCANLINE {
            self.scanline = PRE_RENDER;
            self.dot = 0;
            self.frame = self.frame.wrapping_add(1);
        } else {
            self.scanline += 1;
            self.dot = 0;
        }
        if self.scanline == VBLANK_SCANLINE && self.dot == 1 {
            Signal::VblankStart
        } else if self.scanline == PRE_RENDER && self.dot == 1 {
            Signal::VblankEnd
        } else if self.scanline == PRE_RENDER && self.dot == 0 {
            Signal::FrameDone
        } else {
            Signal::Idle
        }
    }

    /// Advances to the start of the next frame and returns the number of
    /// dots that took.
    pub fn clock_frame(&mut self, rendering: bool) -> (dots: u32)
        requires
            old(self).wf(),
        ensures
            *final(self) == (PpuClock {
                scanline: PRE_RENDER,
                dot: 0,
                frame: spec_next_frame(old(self).frame),
            }),
            dots == old(self).spec_dots_left(rendering),
    {
        let start_frame = self.frame;
        let mut dots: u32 = 0;
        while self.frame == start_frame
            invariant
                self.wf(),
                old(self).wf(),
                start_frame == old(self).frame,
                self.frame == start_frame ==> dots + self.spec_dots_left(rendering) == old(
                    self,
                ).spec_dots_left(rendering),
                self.frame != start_frame ==> {
                    &&& *self == (PpuClock {
                        scanline: PRE_RENDER,
                        dot: 0,
                        frame: spec_next_frame(start_frame),
                    })
                    &&& dots == old(self).spec_dots_left(rendering)
                },
                dots <= DOTS_PER_FRAME,
            decreases
                    if self.frame == start_frame {
                        self.spec_dots_left(rendering)
                    } else {
                        0
                    },
        {
            self.tick(rendering);
            dots += 1;
        }
        dots
    }

    /// Advances to the start of the next scanline and returns the number
    /// of dots that took.
    pub fn clock_scanline(&mut self, rendering: bool) -> (dots: u32)
        requires
            old(self).wf(),
        ensures
            final(self).wf(),
            final(self).dot == 0,
            final(self).scanline == if old(self).scanline == LAST_SCANLINE {
                PRE_RENDER
            } else {
                (old(self).scanline + 1) as i16
            },
            final(self).frame == if old(self).scanline == LAST_SCANLINE {
                spec_next_frame(old(self).frame)
            } else {
                old(self).frame
            },
            dots == DOTS_PER_SCANLINE - old(self).dot - if old(self).scanline == PRE_RENDER && old(
                self,
            ).dot <= DOTS_PER_SCANLINE - 2 && old(self).spec_skips(rendering) {
                1int
            } else {
                0int
            },
    {
        let start = self.scanline;
        let ghost first = *self;
        let mut dots: u32 = 0;
        while self.scanline == start
            invariant
                self.wf(),
                first == *old(self),
                first.wf(),
                start == first.scanline,
                dots <= DOTS_PER_SCANLINE,
                self.scanline == start ==> {
                    &&& self.frame == first.frame
                    &&& self.dot >= first.dot
                    &&& dots == self.dot - first.dot
                    &&& (start == PRE_RENDER && first.dot <= DOTS_PER_SCANLINE - 2
                        && first.spec_skips(rendering)) ==> self.dot <= DOTS_PER_SCANLINE - 2
                },
                self.scanline != start ==> {
                    &&& self.dot == 0
                    &&& self.scanline == if start == LAST_SCANLINE {
                        PRE_RENDER
                    } else {
                        (start + 1) as i16
                    }
                    &&& self.frame == if start == LAST_SCANLINE {
                        spec_next_frame(first.frame)
                    } else {
                        first.frame
                    }
                    &&& dots == DOTS_PER_SCANLINE - first.dot - if start == PRE_RENDER && first.dot
                        <= DOTS_PER_SCANLINE - 2 && first.spec_skips(rendering) {
                        1int
                    } else {
                        0int
                    }
                },
            decreases
                    if self.scanline == start {
                        DOTS_PER_SCANLINE - self.dot
                    } else {
                        0
                    },
        {
            self.tick(rendering);
            dots += 1;
        }
        dots
    }
}

/// The dot is the position modulo the length of a scanline, and the
/// scanline is the quotient, counted from the pre-render scanline.
pub proof fn lemma_position_agrees_with_scanline(clock: PpuClock)
    requires
        clock.wf(),
    ensures
        0 <= clock.spec_position() < DOTS_PER_FRAME,
        clock.spec_position() % 341 == clock.dot,
        clock.spec_position() / 341 == clock.scanline + 1,
{
}

/// Every dot inside a frame leaves one dot less to its end, the skipped
/// dot not counted; the dot that ends the frame is the last one left and
/// leads to the start of the next frame.
pub proof fn lemma_tick_advances_position(clock: PpuClock, rendering: bool)
    requires
        clock.wf(),
    ensures
        clock.spec_tick(rendering).wf(),
        clock.spec_tick(rendering).frame == clock.frame ==> clock.spec_tick(
            rendering,
        ).spec_dots_left(rendering) == clock.spec_dots_left(rendering) - 1,
        clock.spec_tick(rendering).frame != clock.frame ==> {
            &&& clock.spec_dots_left(rendering) == 1
            &&& clock.spec_tick(rendering).spec_position() == 0
            &&& clock.spec_tick(rendering).frame == spec_next_frame(clock.frame)
        },
{
}

/// From the start of a frame, a frame takes 89,342 dots, or 89,341 on an
/// odd frame with rendering enabled.
pub proof fn lemma_frame_length(clock: PpuClock, rendering: bool)
    requires
        clock.scanline == PRE_RENDER,
        clock.dot == 0,
    ensures
        clock.spec_dots_left(rendering) == if rendering && clock.frame % 2 == 1 {
            89341int
        } else {
            89342int
        },
{
}

} // verus!
