//! The integer side of mixing one sample: the phase clock, the pitch and
//! the weight of each voice, and the layout of frames.
//!
//! The waveform itself is evaluated by the caller, in floating point: voice
//! `i` adds the waveform at its phase, times `power / divisor` of its
//! weight, to the sample.

use vstd::prelude::*;
use crate::bank::VoiceBank;
use crate::envelope::{Coefficients, State};

verus! {

/// The pitches of the keyboard from the lowest up, in thousandths of a hertz.
pub const PITCHES: [u32; 51] = [
    27500, 30868, 32703, 36708, 41203, 43654, 48999, 55000, 61735, 65406, 73416, 82407,
    87307, 97999, 110000, 123470, 130810, 146830, 164810, 174610, 196000, 220000, 246940, 261600,
    293670, 329630, 349230, 392000, 440000, 493880, 523250, 587330, 659260, 698460, 783990,
    880000, 987770, 1046500, 1174700, 1318500, 1568000, 1760000, 1975500, 2093000, 2349300, 2637000,
    2793800, 3136000, 3520000, 3951100, 4186000,
];

/// The place in `PITCHES` of the pitch of voice 0.
pub const LOWEST_VOICE: usize = 23;

/// The pitch of voice `index`, in thousandths of a hertz.
pub fn voice_pitch(index: usize) -> (pitch: u32)
    requires
        index + LOWEST_VOICE < PITCHES@.len(),
    ensures
        pitch == PITCHES@[index + LOWEST_VOICE],
{
    PITCHES[index + LOWEST_VOICE]
}

/// The weight of one voice in the mix, as a fraction: the square of its
/// amplitude over its attenuation.
#[derive(Clone, Copy, Debug, PartialEq, Eq, Structural)]
pub struct Gain {
    /// The square of the amplitude.
    pub power: u64,
    /// The attenuation of the voice: its index plus 2.
    pub divisor: u64,
}

impl Gain {
    /// The weight of voice `index` at `amplitude`.
    pub open spec fn of(amplitude: int, index: int) -> Gain {
        Gain { power: (amplitude * amplitude) as u64, divisor: (index + 2) as u64 }
    }

    /// Whether this is the weight of voice `index` at some amplitude.
    pub open spec fn weighs(self, index: int) -> bool {
        exists|amplitude: i32| self == Self::of(amplitude as int, index)
    }

    /// A silent voice weighs nothing, whichever voice it is: the power of
    /// its weight is zero, and so is what it adds to the sample.
    pub proof fn lemma_silence_weighs_nothing(c: Coefficients, index: int)
        ensures
            Self::of(State::Silent.level(c), index).power == 0,
    {
    }

    /// Computes the weight of voice `index` at `amplitude`.
    pub fn new(amplitude: i32, index: usize) -> (gain: Gain)
        requires
            index + 2 <= u64::MAX,
        ensures
            gain == Self::of(amplitude as int, index as int),
            gain.weighs(index as int),
            gain.power == amplitude * amplitude,
            gain.divisor == index + 2,
    {
        let wide = amplitude as i64;
        assert(0 <= wide * wide <= 0x4000_0000_0000_0000) by (nonlinear_arith)
            requires
                -0x8000_0000 <= wide <= 0x7fff_ffff,
        ;
        Gain { power: (wide * wide) as u64, divisor: index as u64 + 2 }
    }
}

/// The phase accumulator: it counts samples and wraps after two seconds'
/// worth of them.
pub struct PhaseClock {
    ticks: u32,
    period: u32,
}

impl PhaseClock {
    #[verifier::type_invariant]
    spec fn inv(self) -> bool {
        self.ticks < self.period
    }

    /// The samples counted since the clock last wrapped.
    pub closed spec fn count(self) -> nat {
        self.ticks as nat
    }

    /// The number of samples after which the clock wraps.
    pub closed spec fn period(self) -> nat {
        self.period as nat
    }

    /// A clock at zero for `sample_rate` samples a second.
    pub fn new(sample_rate: u32) -> (clock: Self)
        requires
            0 < sample_rate,
            2 * sample_rate <= u32::MAX,
        ensures
            clock.count() == 0,
            clock.period() == 2 * sample_rate,
    {
        PhaseClock { ticks: 0, period: 2 * sample_rate }
    }

    /// Reads the clock.
    pub fn ticks(&self) -> (ticks: u32)
        ensures
            ticks == self.count(),
            ticks < self.period(),
    {
        proof {
            use_type_invariant(self);
        }
        self.ticks
    }

    /// Moves the clock on by one sample, wrapping at the period, and
    /// returns it.
    pub fn tick(&mut self) -> (now: u32)
        ensures
            final(self).period() == old(self).period(),
            final(self).count() == (old(self).count() + 1) % old(self).period(),
            now == final(self).count(),
    {
        proof {
            use_type_invariant(&*self);
        }
        let next = if self.ticks + 1 == self.period {
            0
        } else {
            self.ticks + 1
        };
        assert(next == (self.ticks + 1) % (self.period as int)) by (nonlinear_arith)
            requires
                self.ticks < self.period,
                next == if self.ticks + 1 == self.period {
                    0
                } else {
                    self.ticks + 1
                },
        ;
        self.ticks = next;
        next
    }
}

/// The per-sample routine: the clock and the weights of the voices at the
/// last sample.
pub struct Mixer {
    clock: PhaseClock,
    gains: Vec<Gain>,
}

/// What a mixer holds.
pub struct MixerView {
    /// The samples counted since the clock last wrapped.
    pub ticks: nat,
    /// The number of samples after which the clock wraps: two seconds' worth.
    pub period: nat,
    /// The weight of each voice at the last sample.
    pub gains: Seq<Gain>,
}

impl View for Mixer {
    type V = MixerView;

    closed spec fn view(&self) -> MixerView {
        MixerView { ticks: self.clock.count(), period: self.clock.period(), gains: self.gains@ }
    }
}

impl Mixer {
    /// A mixer for `sample_rate` samples a second, with the clock at zero
    /// and no voice weighed yet.
    pub fn new(sample_rate: u32) -> (mixer: Self)
        requires
            0 < sample_rate,
            2 * sample_rate <= u32::MAX,
        ensures
            mixer@.ticks == 0,
            mixer@.period == 2 * sample_rate,
            mixer@.gains.len() == 0,
    {
        Mixer { clock: PhaseClock::new(sample_rate), gains: Vec::new() }
    }

    /// The clock.
    pub fn ticks(&self) -> (ticks: u32)
        ensures
            ticks == self@.ticks,
            ticks < self@.period,
    {
        self.clock.ticks()
    }

    /// The weights of the voices at the last sample.
    pub fn gains(&self) -> (gains: &Vec<Gain>)
        ensures
            gains@ == self@.gains,
    {
        &self.gains
    }

    /// Takes one sample: moves the clock on, takes one sample of every
    /// voice of `bank`, and weighs each by the amplitude it had before its
    /// transition. Returns the clock.
    pub fn next_value(&mut self, bank: &VoiceBank) -> (now: u32)
        requires
            bank@.len() + 2 <= u64::MAX,
        ensures
            final(self)@.period == old(self)@.period,
            final(self)@.ticks == (old(self)@.ticks + 1) % old(self)@.period,
            now == final(self)@.ticks,
            final(self)@.gains.len() == bank@.len(),
            forall|i: int| 0 <= i < bank@.len() ==> (#[trigger] final(self)@.gains[i]).weighs(i),
    {
        let now = self.clock.tick();
        self.gains.clear();
        let mut index: usize = 0;
        while index < bank.len()
            invariant
                bank@.len() + 2 <= u64::MAX,
                index <= bank@.len(),
                self.clock.count() == now,
                self.clock.period() == old(self).clock.period(),
                self.gains@.len() == index,
                forall|i: int| 0 <= i < index ==> (#[trigger] self.gains@[i]).weighs(i),
            decreases bank@.len() - index,
        {
            let amplitude = bank.next(index);
            let gain = Gain::new(amplitude, index);
            self.gains.push(gain);
            index += 1;
        }
        now
    }
}

/// The number of frames that `len` samples make at `channels` to a frame,
/// a last frame that is cut short counted as one.
pub open spec fn frames(len: int, channels: int) -> int {
    (len + channels - 1) / channels
}

/// Splitting `len` samples into frames of `channels` takes `frames` frames
/// and no fewer: they hold every sample, and one frame less would not.
pub proof fn lemma_frames_cover(len: int, channels: int)
    requires
        len >= 0,
        channels > 0,
    ensures
        frames(len, channels) >= 0,
        frames(len, channels) * channels >= len,
        (frames(len, channels) - 1) * channels < len || len == 0,
        forall|i: int| 0 <= i < len ==> 0 <= #[trigger] (i / channels) < frames(len, channels),
{
    let f = frames(len, channels);
    assert(f >= 0 && f * channels >= len && ((f - 1) * channels < len || len == 0))
        by (nonlinear_arith)
        requires
            len >= 0,
            channels > 0,
            f == (len + channels - 1) / channels,
    ;
    assert forall|i: int| 0 <= i < len implies 0 <= #[trigger] (i / channels) < f by {
        assert(0 <= i / channels < f) by (nonlinear_arith)
            requires
                0 <= i < len,
                channels > 0,
                f * channels >= len,
        ;
    }
}

/// Counts the frames that `len` samples make at `channels` to a frame.
pub fn frame_count(len: usize, channels: usize) -> (count: usize)
    requires
        channels > 0,
    ensures
        count == frames(len as int, channels as int),
{
    let whole = len / channels;
    let cut = len % channels;
    assert(frames(len as int, channels as int) == if cut == 0 {
        whole as int
    } else {
        whole + 1
    }) by (nonlinear_arith)
        requires
            channels > 0,
            len >= 0,
            whole == len as int / channels as int,
            cut == len as int % channels as int,
    ;
    if cut == 0 {
        whole
    } else {
        assert(whole < len) by (nonlinear_arith)
            requires
                channels > 0,
                cut > 0,
                whole == len as int / channels as int,
                cut == len as int % channels as int,
        ;
        whole + 1
    }
}

/// Writes one sample to every channel of each frame of `output`: frame `k`
/// is filled with `samples[k]`. A last frame that is cut short is filled as
/// far as it goes.
pub fn write_data<T: Copy>(output: &mut [T], channels: usize, samples: &[T])
    requires
        channels > 0,
        samples@.len() >= frames(old(output)@.len() as int, channels as int),
    ensures
        final(output)@.len() == old(output)@.len(),
        forall|i: int|
            0 <= i < old(output)@.len() ==> final(output)@[i] == samples@[i / (channels as int)],
{
    proof {
        lemma_frames_cover(output@.len() as int, channels as int);
    }
    let mut i: usize = 0;
    while i < output.len()
        invariant
            channels > 0,
            output@.len() == old(output)@.len(),
            i <= output@.len(),
            forall|j: int|
                0 <= j < output@.len() ==> 0 <= #[trigger] (j / (channels as int)) < samples@.len(),
            forall|j: int| 0 <= j < i ==> output@[j] == samples@[j / (channels as int)],
        decreases output@.len() - i,
    {
        output[i] = samples[i / channels];
        i += 1;
    }
}

} // verus!
