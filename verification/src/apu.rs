//! The integer machinery of the sound unit: the frame counter's sequence,
//! the noise channel's shift register, and the pulse channels' sweep.

use vstd::prelude::*;

verus! {

/// The highest period that a pulse channel can play.
pub const MAX_PERIOD: u16 = 0x7FF;

/// The lowest period at which a pulse channel sounds.
pub const MIN_PERIOD: u16 = 8;

/// How the frame counter divides a frame.
#[derive(Debug, Copy, Clone, PartialEq, Eq, Structural)]
pub enum FrameMode {
    FourStep,
    FiveStep,
}

/// What a step of the frame counter clocks.
#[derive(Debug, Copy, Clone, PartialEq, Eq, Structural)]
pub struct FrameSignal {
    /// Clock the envelopes and the triangle's linear counter.
    pub quarter: bool,
    /// Clock the length counters and the sweep units.
    pub half: bool,
    /// Raise the frame interrupt.
    pub irq: bool,
}

/// The frame counter.
#[derive(Debug, Copy, Clone, PartialEq, Eq, Structural)]
pub struct FrameCounter {
    pub mode: FrameMode,
    /// The step that comes next, counted from 0.
    pub step: u8,
    pub irq_inhibit: bool,
}

/// The two pulse channels, which differ in how their sweep subtracts.
#[derive(Debug, Copy, Clone, PartialEq, Eq, Structural)]
pub enum Pulse {
    One,
    Two,
}

impl FrameCounter {
    /// Steps in one round of the sequence.
    pub open spec fn spec_len(self) -> u8 {
        if self.mode == FrameMode::FourStep {
            4
        } else {
            5
        }
    }

    /// The next step is one of the sequence.
    pub open spec fn wf(self) -> bool {
        self.step < self.spec_len()
    }

    /// What the next step clocks.
    ///
    /// With four steps, every step is a quarter frame, the second and the
    /// fourth are half frames, and the fourth raises the interrupt unless
    /// it is inhibited. With five steps the fourth step clocks nothing,
    /// the second and the fifth are half frames, and no interrupt is
    /// raised.
    pub open spec fn spec_signal(self) -> FrameSignal {
        match self.mode {
            FrameMode::FourStep => FrameSignal {
                quarter: true,
                half: self.step == 1 || self.step == 3,
                irq: self.step == 3 && !self.irq_inhibit,
            },
            FrameMode::FiveStep => FrameSignal {
                quarter: self.step != 3,
                half: self.step == 1 || self.step == 4,
                irq: false,
            },
        }
    }

    /// The frame counter after its next step.
    pub open spec fn spec_advance(self) -> FrameCounter {
        FrameCounter {
            step: if self.step + 1 >= self.spec_len() {
                0
            } else {
                (self.step + 1) as u8
            },
            ..self
        }
    }

    /// A frame counter at the start of its sequence.
    pub fn new(mode: FrameMode, irq_inhibit: bool) -> (fc: Self)
        ensures
            fc == (FrameCounter { mode, step: 0, irq_inhibit }),
            fc.wf(),
    {
        FrameCounter { mode, step: 0, irq_inhibit }
    }

    /// Takes the next step and says what it clocks.
    pub fn clock(&mut self) -> (signal: FrameSignal)
        requires
            old(self).wf(),
        ensures
            signal == old(self).spec_signal(),
            *final(self) == old(self).spec_advance(),
            final(self).wf(),
    {
        let step = self.step;
        let (signal, len): (FrameSignal, u8) = match self.mode {
            FrameMode::FourStep => (
                FrameSignal {
                    quarter: true,
                    half: step == 1 || step == 3,
                    irq: step == 3 && !self.irq_inhibit,
                },
                4,
            ),
            FrameMode::FiveStep => (
                FrameSignal { quarter: step != 3, half: step == 1 || step == 4, irq: false },
                5,
            ),
        };
        self.step = if step + 1 >= len {
            0
        } else {
            step + 1
        };
        signal
    }
}

/// The bit that the noise channel shifts in: bit 0 of the register
/// exclusive-or bit 1, or bit 6 in the short mode.
pub open spec fn spec_noise_feedback(lfsr: u16, short_mode: bool) -> u16 {
    if short_mode {
        (lfsr & 1u16) ^ ((lfsr >> 6u16) & 1u16)
    } else {
        (lfsr & 1u16) ^ ((lfsr >> 1u16) & 1u16)
    }
}

/// The noise channel's 15-bit shift register after one step: shifted
/// right by one, with the feedback bit in bit 14.
pub open spec fn spec_noise_step(lfsr: u16, short_mode: bool) -> u16 {
    ((lfsr & 0x7FFFu16) >> 1u16) | (spec_noise_feedback(lfsr, short_mode) << 14u16)
}

pub fn noise_step(lfsr: u16, short_mode: bool) -> (next: u16)
    ensures
        next == spec_noise_step(lfsr, short_mode),
        next <= 0x7FFF,
{
    let feedback: u16 = if short_mode {
        (lfsr & 1u16) ^ ((lfsr >> 6u16) & 1u16)
    } else {
        (lfsr & 1u16) ^ ((lfsr >> 1u16) & 1u16)
    };
    proof {
        assert(((lfsr & 1u16) ^ ((lfsr >> 6u16) & 1u16)) <= 1u16) by (bit_vector);
        assert(((lfsr & 1u16) ^ ((lfsr >> 1u16) & 1u16)) <= 1u16) by (bit_vector);
        assert(feedback <= 1u16 ==> (((lfsr & 0x7FFFu16) >> 1u16) | (feedback << 14u16))
            <= 0x7FFFu16) by (bit_vector);
    }
    ((lfsr & 0x7FFFu16) >> 1u16) | (feedback << 14u16)
}

/// The shift count that a sweep register holds in its low three bits.
pub open spec fn spec_shift_count(shift: u8) -> u16 {
    (shift % 8) as u16
}

/// The period that a sweep aims at: the period plus or minus itself
/// divided by two to the power of the shift count in the low three bits
/// of `shift`. Negating, the first pulse channel takes one more off than
/// the second.
pub open spec fn spec_sweep_target(pulse: Pulse, period: u16, shift: u8, negate: bool) -> int {
    let change = (period >> spec_shift_count(shift)) as int;
    if negate {
        if pulse == Pulse::One {
            period - change - 1
        } else {
            period - change
        }
    } else {
        period + change
    }
}

/// Whether the sweep silences its channel: the period is too low to
/// sound, or the target is too high to play.
pub open spec fn spec_sweep_mutes(pulse: Pulse, period: u16, shift: u8, negate: bool) -> bool {
    period < MIN_PERIOD || spec_sweep_target(pulse, period, shift, negate) > MAX_PERIOD
}

pub fn sweep_target(pulse: Pulse, period: u16, shift: u8, negate: bool) -> (target: i32)
    ensures
        target == spec_sweep_target(pulse, period, shift, negate),
        -1 <= target <= 2 * period,
{
    let count: u16 = (shift % 8) as u16;
    let change: u16 = period >> count;
    proof {
        assert(count < 8 ==> (period >> count) <= period) by (bit_vector);
    }
    if negate {
        match pulse {
            Pulse::One => period as i32 - change as i32 - 1,
            Pulse::Two => period as i32 - change as i32,
        }
    } else {
        period as i32 + change as i32
    }
}

pub fn sweep_mutes(pulse: Pulse, period: u16, shift: u8, negate: bool) -> (mutes: bool)
    ensures
        mutes == spec_sweep_mutes(pulse, period, shift, negate),
{
    period < MIN_PERIOD || sweep_target(pulse, period, shift, negate) > MAX_PERIOD as i32
}

/// The frame counter comes round: after as many steps as its sequence
/// has, it is where it was.
pub proof fn lemma_frame_counter_comes_round(fc: FrameCounter)
    requires
        fc.wf(),
    ensures
        fc.mode == FrameMode::FourStep ==> fc.spec_advance().spec_advance().spec_advance()
            .spec_advance() == fc,
        fc.mode == FrameMode::FiveStep ==> fc.spec_advance().spec_advance().spec_advance()
            .spec_advance().spec_advance() == fc,
        fc.spec_advance().wf(),
{
}

/// With five steps, or with the interrupt inhibited, no step raises the
/// frame interrupt.
pub proof fn lemma_inhibited_interrupt_is_not_raised(fc: FrameCounter)
    requires
        fc.mode == FrameMode::FiveStep || fc.irq_inhibit,
    ensures
        !fc.spec_signal().irq,
{
}

/// Negating, the first pulse channel's sweep aims one lower than the
/// second's: it subtracts in one's complement.
pub proof fn lemma_pulse_one_takes_one_more(period: u16, shift: u8)
    ensures
        spec_sweep_target(Pulse::One, period, shift, true) == spec_sweep_target(
            Pulse::Two,
            period,
            shift,
            true,
        ) - 1,
{
}

} // verus!
