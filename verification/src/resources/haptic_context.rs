//! Per-tick haptic output state.
//!
//! Each tick keeps, per hand, the largest amplitude requested so far; the
//! platform haptics driver consumes both values once per tick, after which
//! they rewind to zero.  Amplitudes are non-negative single-precision
//! values, and for those the unsigned order of the bit patterns agrees with
//! the numeric order, so the amplitudes are carried and compared as raw
//! 32-bit patterns.

use vstd::prelude::*;

use crate::components::Handedness;

verus! {

/// The haptic amplitudes requested for the current tick.
#[derive(Clone, Copy, Debug, PartialEq, Eq, Structural)]
pub struct HapticContext {
    /// The largest amplitude requested for the left hand this tick.
    pub left_hand_amplitude_this_frame: u32,
    /// The largest amplitude requested for the right hand this tick.
    pub right_hand_amplitude_this_frame: u32,
}

/// One haptic request: a hand and an amplitude for this tick.
#[derive(Clone, Copy, Debug, PartialEq, Eq, Structural)]
pub struct Haptic {
    pub hand: Handedness,
    pub amplitude_this_frame: u32,
}

impl HapticContext {
    /// Request haptic feedback for one hand this tick.  The tick keeps the
    /// maximum of all amplitudes requested per side; the other side is
    /// untouched.
    pub fn request_haptic_feedback(&mut self, amplitude: u32, handedness: Handedness)
        ensures
            handedness == Handedness::Left ==> {
                &&& final(self).left_hand_amplitude_this_frame == (if amplitude
                    > old(self).left_hand_amplitude_this_frame {
                    amplitude
                } else {
                    old(self).left_hand_amplitude_this_frame
                })
                &&& final(self).right_hand_amplitude_this_frame == old(
                    self,
                ).right_hand_amplitude_this_frame
            },
            handedness == Handedness::Right ==> {
                &&& final(self).right_hand_amplitude_this_frame == (if amplitude
                    > old(self).right_hand_amplitude_this_frame {
                    amplitude
                } else {
                    old(self).right_hand_amplitude_this_frame
                })
                &&& final(self).left_hand_amplitude_this_frame == old(
                    self,
                ).left_hand_amplitude_this_frame
            },
    {
        match handedness {
            Handedness::Left => {
                if amplitude > self.left_hand_amplitude_this_frame {
                    self.left_hand_amplitude_this_frame = amplitude;
                }
            },
            Handedness::Right => {
                if amplitude > self.right_hand_amplitude_this_frame {
                    self.right_hand_amplitude_this_frame = amplitude;
                }
            },
        }
    }

    /// Hand both per-hand amplitudes — left first, then right — to the
    /// platform haptics driver and rewind them to zero for the next tick.
    pub fn iter_mut(&mut self) -> (amplitudes: (u32, u32))
        ensures
            amplitudes == (
                old(self).left_hand_amplitude_this_frame,
                old(self).right_hand_amplitude_this_frame,
            ),
            final(self).left_hand_amplitude_this_frame == 0,
            final(self).right_hand_amplitude_this_frame == 0,
    {
        let amplitudes = (
            self.left_hand_amplitude_this_frame,
            self.right_hand_amplitude_this_frame,
        );
        self.left_hand_amplitude_this_frame = 0;
        self.right_hand_amplitude_this_frame = 0;
        amplitudes
    }
}

impl Default for HapticContext {
    /// A tick starts with no haptic output requested for either hand.
    fn default() -> (context: HapticContext)
        ensures
            context == (HapticContext {
                left_hand_amplitude_this_frame: 0,
                right_hand_amplitude_this_frame: 0,
            }),
    {
        HapticContext { left_hand_amplitude_this_frame: 0, right_hand_amplitude_this_frame: 0 }
    }
}

} // verus!
