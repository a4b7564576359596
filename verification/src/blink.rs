//! Blink timers and small helpers of the terminal view.

use vstd::prelude::*;

verus! {

/// The character set a view takes its keyboard input in.
#[derive(Clone, Copy, Debug, PartialEq, Eq)]
pub enum BufferInputMode {
    CP437,
    PETscii,
    ATAscii,
    ViewData,
}

/// A two-state timer that flips each time more than `blink_rate`
/// milliseconds have passed since the last flip.
pub struct Blink {
    is_on: bool,
    last_blink: u128,
    blink_rate: u128,
}

/// What a [`Blink`] is made of, as plain values.
pub struct BlinkView {
    pub is_on: bool,
    pub last_blink: int,
    pub blink_rate: int,
}

impl View for Blink {
    type V = BlinkView;

    closed spec fn view(&self) -> BlinkView {
        BlinkView {
            is_on: self.is_on,
            last_blink: self.last_blink as int,
            blink_rate: self.blink_rate as int,
        }
    }
}

impl BlinkView {
    /// True when a timer in this state flips at time `cur_ms`.
    pub open spec fn is_due(self, cur_ms: int) -> bool {
        cur_ms - self.last_blink > self.blink_rate
    }

    /// The state after an update at time `cur_ms`.
    pub open spec fn updated(self, cur_ms: int) -> BlinkView {
        if self.is_due(cur_ms) {
            BlinkView { is_on: !self.is_on, last_blink: cur_ms, blink_rate: self.blink_rate }
        } else {
            self
        }
    }
}

impl Blink {
    /// A timer that is off and last flipped at time zero.
    pub fn new(blink_rate: u128) -> (blink: Blink)
        ensures
            blink@ == (BlinkView { is_on: false, last_blink: 0, blink_rate: blink_rate as int }),
    {
        Blink { is_on: false, last_blink: 0, blink_rate }
    }

    pub fn is_on(&self) -> (on: bool)
        ensures
            on == self@.is_on,
    {
        self.is_on
    }

    /// The time of the last flip.
    pub fn last_blink(&self) -> (time: u128)
        ensures
            time == self@.last_blink,
    {
        self.last_blink
    }

    /// Flips the timer if it is due at `cur_ms` and says whether it did.
    /// Time does not run backwards: `cur_ms` is not before the last flip.
    pub fn update(&mut self, cur_ms: u128) -> (flipped: bool)
        requires
            cur_ms >= old(self)@.last_blink,
        ensures
            flipped == old(self)@.is_due(cur_ms as int),
            final(self)@ == old(self)@.updated(cur_ms as int),
    {
        if cur_ms - self.last_blink > self.blink_rate {
            self.is_on = !self.is_on;
            self.last_blink = cur_ms;
            true
        } else {
            false
        }
    }

    /// Switches the timer on and restarts its period at `cur_ms`.
    pub fn reset(&mut self, cur_ms: u128)
        ensures
            final(self)@ == (BlinkView {
                is_on: true,
                last_blink: cur_ms as int,
                blink_rate: old(self)@.blink_rate,
            }),
    {
        self.is_on = true;
        self.last_blink = cur_ms;
    }
}

/// Scales the palette index `c` to a byte, where index `colors` maps to 255.
pub fn conv_color(c: u32, colors: u32) -> (byte: u8)
    requires
        colors > 0,
        255 * c <= u32::MAX,
    ensures
        byte as int == ((255 * c) / (colors as int)) % 256,
{
    let scaled: u32 = (255 * c) / colors;
    assert((#[verifier::truncate] (scaled as u8)) as u32 == scaled % 256) by (bit_vector);
    #[verifier::truncate]
    (scaled as u8)
}

} // verus!
