//! The audio processor: owns the currently active processing object, polls
//! the handoff channel once per callback, swaps objects when one is pending,
//! and computes output samples deterministically.
//!
//! Samples and gain coefficients are held in fixed point: a value of
//! `LEVEL_UNIT` stands for 1.0, and outputs are exact triple products, so a
//! full unit of gain on both stages returns the input scaled by
//! `LEVEL_UNIT * LEVEL_UNIT`.

use vstd::prelude::*;

use crate::channel::{channel_items, HandoffChannel};
use crate::object::ProcessingObject;

verus! {

/// Fixed-point steps in one unit: a sample or coefficient of `LEVEL_UNIT`
/// stands for 1.0.
pub const LEVEL_UNIT: i64 = 1000000;

/// Largest sample or coefficient magnitude the processor accepts; the
/// largest value whose triple product still fits the sample type.
pub const LEVEL_LIMIT: i64 = 2097151;

/// Per-callback gain coefficients, one unit of `LEVEL_UNIT` each by default:
/// zero decibels on both channels and on the master stage.
pub struct GainModel {
    pub gain_left: i64,
    pub gain_right: i64,
    pub gain_master: i64,
}

impl Default for GainModel {
    /// Unity gain on every stage.
    fn default() -> (r: GainModel)
        ensures
            r.gain_left == LEVEL_UNIT,
            r.gain_right == LEVEL_UNIT,
            r.gain_master == LEVEL_UNIT,
    {
        GainModel { gain_left: LEVEL_UNIT, gain_right: LEVEL_UNIT, gain_master: LEVEL_UNIT }
    }
}

/// Scale one sample by two gain stages, exactly.
fn scale_sample(v: i64, g1: i64, g2: i64) -> (r: i64)
    requires
        -LEVEL_LIMIT <= v <= LEVEL_LIMIT,
        0 <= g1 <= LEVEL_LIMIT,
        0 <= g2 <= LEVEL_LIMIT,
    ensures
        r == v * g1 * g2,
        -LEVEL_LIMIT * LEVEL_LIMIT * LEVEL_LIMIT <= r <= LEVEL_LIMIT * LEVEL_LIMIT * LEVEL_LIMIT,
{
    proof {
        assert(-LEVEL_LIMIT * LEVEL_LIMIT <= v * g1 <= LEVEL_LIMIT * LEVEL_LIMIT)
            by (nonlinear_arith)
            requires
                -LEVEL_LIMIT <= v <= LEVEL_LIMIT,
                0 <= g1 <= LEVEL_LIMIT,
        ;
        assert(-LEVEL_LIMIT * LEVEL_LIMIT * LEVEL_LIMIT <= (v * g1) * g2 <= LEVEL_LIMIT
            * LEVEL_LIMIT * LEVEL_LIMIT) by (nonlinear_arith)
            requires
                -LEVEL_LIMIT * LEVEL_LIMIT <= v * g1 <= LEVEL_LIMIT * LEVEL_LIMIT,
                0 <= g2 <= LEVEL_LIMIT,
        ;
    }
    v * g1 * g2
}

/// Owner of the currently active processing object. At most one more object
/// may be pending in the handoff channel at any time.
pub struct AudioProcessor {
    pub active: Option<ProcessingObject>,
}

/// Every value of the sequence lies within the accepted sample range.
pub open spec fn samples_bounded(s: Seq<i64>) -> bool {
    forall|i: int| 0 <= i < s.len() ==> -LEVEL_LIMIT <= #[trigger] s[i] <= LEVEL_LIMIT
}

/// Every value of the sequence is a gain coefficient in the accepted range.
pub open spec fn gains_bounded(s: Seq<i64>) -> bool {
    forall|i: int| 0 <= i < s.len() ==> 0 <= #[trigger] s[i] <= LEVEL_LIMIT
}

impl AudioProcessor {
    /// A processor with no active object: every callback passes the input
    /// through unchanged before the gain stages.
    pub fn new() -> (r: AudioProcessor)
        ensures
            r.active is None,
    {
        AudioProcessor { active: None }
    }

    /// One audio callback. First the handoff channel is polled once: a
    /// pending object replaces the active one, which is dropped in place.
    /// Then every sample is computed exactly: the transformed samples where
    /// an object is active (`transformed_*[i]` carries what the active
    /// object's per-sample transform returned for input `i`), the plain
    /// inputs where none is, each multiplied by the per-sample channel gain
    /// and master gain.
    pub fn process_block(
        &mut self,
        channel: &mut HandoffChannel,
        in_left: &Vec<i64>,
        in_right: &Vec<i64>,
        transformed_left: &Vec<i64>,
        transformed_right: &Vec<i64>,
        gain_left: &Vec<i64>,
        gain_right: &Vec<i64>,
        gain_master: &Vec<i64>,
    ) -> (out: (Vec<i64>, Vec<i64>))
        requires
            in_right@.len() == in_left@.len(),
            transformed_left@.len() == in_left@.len(),
            transformed_right@.len() == in_left@.len(),
            gain_left@.len() == in_left@.len(),
            gain_right@.len() == in_left@.len(),
            gain_master@.len() == in_left@.len(),
            samples_bounded(in_left@),
            samples_bounded(in_right@),
            samples_bounded(transformed_left@),
            samples_bounded(transformed_right@),
            gains_bounded(gain_left@),
            gains_bounded(gain_right@),
            gains_bounded(gain_master@),
        ensures
            channel_items(*old(channel)).len() == 0 ==> {
                &&& final(self).active == old(self).active
                &&& channel_items(*final(channel)) == channel_items(*old(channel))
            },
            channel_items(*old(channel)).len() > 0 ==> {
                &&& final(self).active == Some(
                    ProcessingObject { module_gen: channel_items(*old(channel))[0] },
                )
                &&& channel_items(*final(channel)) == channel_items(*old(channel)).drop_first()
            },
            out.0@.len() == in_left@.len(),
            out.1@.len() == in_left@.len(),
            final(self).active is Some ==> forall|i: int|
                0 <= i < in_left@.len() ==> {
                    &&& #[trigger] out.0@[i] == transformed_left@[i] * gain_left@[i]
                        * gain_master@[i]
                    &&& out.1@[i] == transformed_right@[i] * gain_right@[i] * gain_master@[i]
                },
            final(self).active is None ==> forall|i: int|
                0 <= i < in_left@.len() ==> {
                    &&& #[trigger] out.0@[i] == in_left@[i] * gain_left@[i] * gain_master@[i]
                    &&& out.1@[i] == in_right@[i] * gain_right@[i] * gain_master@[i]
                },
    {
        match channel.try_pop() {
            Some(obj) => {
                self.active = Some(obj);
            },
            None => {},
        }
        let n = in_left.len();
        let mut out_left: Vec<i64> = Vec::new();
        let mut out_right: Vec<i64> = Vec::new();
        let use_transform = self.active.is_some();
        let mut i: usize = 0;
        while i < n
            invariant
                i <= n,
                n == in_left@.len(),
                in_right@.len() == n,
                transformed_left@.len() == n,
                transformed_right@.len() == n,
                gain_left@.len() == n,
                gain_right@.len() == n,
                gain_master@.len() == n,
                samples_bounded(in_left@),
                samples_bounded(in_right@),
                samples_bounded(transformed_left@),
                samples_bounded(transformed_right@),
                gains_bounded(gain_left@),
                gains_bounded(gain_right@),
                gains_bounded(gain_master@),
                use_transform == self.active is Some,
                out_left@.len() == i,
                out_right@.len() == i,
                use_transform ==> forall|j: int|
                    0 <= j < i ==> {
                        &&& #[trigger] out_left@[j] == transformed_left@[j] * gain_left@[j]
                            * gain_master@[j]
                        &&& out_right@[j] == transformed_right@[j] * gain_right@[j]
                            * gain_master@[j]
                    },
                !use_transform ==> forall|j: int|
                    0 <= j < i ==> {
                        &&& #[trigger] out_left@[j] == in_left@[j] * gain_left@[j]
                            * gain_master@[j]
                        &&& out_right@[j] == in_right@[j] * gain_right@[j] * gain_master@[j]
                    },
            decreases n - i,
        {
            let l = if use_transform {
                transformed_left[i]
            } else {
                in_left[i]
            };
            let r = if use_transform {
                transformed_right[i]
            } else {
                in_right[i]
            };
            out_left.push(scale_sample(l, gain_left[i], gain_master[i]));
            out_right.push(scale_sample(r, gain_right[i], gain_master[i]));
            i = i + 1;
        }
        (out_left, out_right)
    }
}

} // verus!
