//! A fixed-length circular buffer implementing a feedback (comb-filter) delay
//! effect with wet/dry mixing.
//!
//! Each `process` call reads the sample stored at the current position (the
//! signal delayed by `length` samples), feeds it back attenuated by the
//! feedback coefficient, stores the result in place, advances the position,
//! and mixes dry input with the wet sample. The spec functions `step_*` and
//! `run_*` are the mathematical model of one call and of a whole stream.

use vstd::prelude::*;
use crate::fixed::{SCALE, sat_add, scale_mul, sat_add64, scale_mul64, sample_ints, lemma_scale_mul_one};
use vstd::arithmetic::div_mod::{
    lemma_small_mod, lemma_add_mod_noop_right, lemma_mod_self_0, lemma_mod_add_multiples_vanish,
};

verus! {

/// A silence-filled sample vector of the given length.
pub open spec fn silence(len: int) -> Seq<int> {
    Seq::new(len as nat, |i: int| 0)
}

/// A unit impulse (full scale) followed by `len` silent samples.
pub open spec fn impulse_input(len: int) -> Seq<int> {
    seq![SCALE as int] + silence(len)
}

/// Why constructing a delay line failed: a zero-length ring has no
/// well-defined read/write slot.
#[derive(Clone, Copy, Debug, PartialEq, Eq, Structural)]
pub enum ConstructionError {
    ZeroLength,
}

/// The sample vector after one call that writes the wet sample at `pos`.
pub open spec fn step_samples(buf: Seq<int>, pos: int, feedback: int, s: int) -> Seq<int> {
    buf.update(pos, sat_add(s, scale_mul(buf[pos], feedback)))
}

/// The write position after one call: advance and wrap.
pub open spec fn step_position(pos: int, len: int) -> int {
    (pos + 1) % len
}

/// The output of one call: dry/wet mix of the input and the wet sample.
pub open spec fn step_output(buf: Seq<int>, pos: int, wet: int, feedback: int, s: int) -> int {
    sat_add(
        scale_mul(s, SCALE - wet),
        scale_mul(sat_add(s, scale_mul(buf[pos], feedback)), wet),
    )
}

/// The write position after `n` calls.
pub open spec fn run_position(pos: int, len: int, n: nat) -> int
    decreases n,
{
    if n == 0 {
        pos
    } else {
        step_position(run_position(pos, len, (n - 1) as nat), len)
    }
}

/// The sample vector after processing every sample of `input` in order.
pub open spec fn run_samples(buf: Seq<int>, pos: int, feedback: int, input: Seq<int>) -> Seq<int>
    decreases input.len(),
{
    if input.len() == 0 {
        buf
    } else {
        step_samples(
            run_samples(buf, pos, feedback, input.drop_last()),
            run_position(pos, buf.len() as int, (input.len() - 1) as nat),
            feedback,
            input.last(),
        )
    }
}

/// The outputs of processing every sample of `input` in order.
pub open spec fn run_outputs(buf: Seq<int>, pos: int, wet: int, feedback: int, input: Seq<int>) -> Seq<int>
    decreases input.len(),
{
    if input.len() == 0 {
        Seq::empty()
    } else {
        run_outputs(buf, pos, wet, feedback, input.drop_last()).push(
            step_output(
                run_samples(buf, pos, feedback, input.drop_last()),
                run_position(pos, buf.len() as int, (input.len() - 1) as nat),
                wet,
                feedback,
                input.last(),
            ),
        )
    }
}

/// A diagnostic snapshot of a delay line's full internal state.
#[derive(Clone, Debug)]
pub struct DelaySnapshot {
    pub length: usize,
    pub position: usize,
    pub samples: Vec<i64>,
    pub wet: i64,
    pub feedback: i64,
}

/// A fixed-length circular buffer realizing a feedback comb filter with
/// delay `length` samples.
pub struct DelayLine {
    length: usize,
    pos: usize,
    buffer: Vec<i64>,
    wet: i64,
    feedback: i64,
}

impl DelayLine {
    /// The stored samples, as mathematical integers.
    pub closed spec fn samples(self) -> Seq<int> {
        sample_ints(self.buffer@)
    }

    /// The current write position.
    pub closed spec fn position(self) -> int {
        self.pos as int
    }

    /// The fixed capacity, in samples.
    pub closed spec fn delay_len(self) -> int {
        self.length as int
    }

    /// The wet/dry mix fraction, in `SCALE` units.
    pub closed spec fn wet_level(self) -> int {
        self.wet as int
    }

    /// The feedback coefficient, in `SCALE` units.
    pub closed spec fn feedback_level(self) -> int {
        self.feedback as int
    }

    /// The ring invariant: storage matches the fixed length, the position is
    /// a valid slot, and the mix fraction lies in `[0, 1]`.
    pub open spec fn well_formed(self) -> bool {
        &&& self.samples().len() == self.delay_len()
        &&& self.delay_len() >= 1
        &&& 0 <= self.position() < self.delay_len()
        &&& 0 <= self.wet_level() <= SCALE
    }

    /// Constructs a silence-filled ring of exactly `length` samples; fails
    /// if and only if `length` is zero.
    pub fn new(length: usize, wet: i64, feedback: i64) -> (r: Result<DelayLine, ConstructionError>)
        requires
            0 <= wet <= SCALE,
        ensures
            r is Err <==> length == 0,
            r is Err ==> r == Result::<DelayLine, ConstructionError>::Err(ConstructionError::ZeroLength),
            r is Ok ==> ({
                let d = r->Ok_0;
                &&& d.well_formed()
                &&& d.delay_len() == length
                &&& d.position() == 0
                &&& d.wet_level() == wet
                &&& d.feedback_level() == feedback
                &&& forall|i: int| 0 <= i < length ==> d.samples()[i] == 0
            }),
    {
        if length == 0 {
            return Err(ConstructionError::ZeroLength);
        }
        let mut buffer: Vec<i64> = Vec::new();
        let mut i: usize = 0;
        while i < length
            invariant
                i <= length,
                buffer@.len() == i,
                forall|j: int| 0 <= j < i ==> buffer@[j] == 0i64,
            decreases length - i,
        {
            buffer.push(0);
            i += 1;
        }
        Ok(DelayLine { length, pos: 0, buffer, wet, feedback })
    }

    /// Processes one sample in stream order: reads the fed-back sample at the
    /// current position, stores the wet sample there, advances the position,
    /// and returns the dry/wet mix.
    pub fn process(&mut self, sample: i64) -> (out: i64)
        requires
            old(self).well_formed(),
        ensures
            final(self).well_formed(),
            final(self).delay_len() == old(self).delay_len(),
            final(self).wet_level() == old(self).wet_level(),
            final(self).feedback_level() == old(self).feedback_level(),
            final(self).position() == step_position(old(self).position(), old(self).delay_len()),
            final(self).samples() == step_samples(
                old(self).samples(),
                old(self).position(),
                old(self).feedback_level(),
                sample as int,
            ),
            out as int == step_output(
                old(self).samples(),
                old(self).position(),
                old(self).wet_level(),
                old(self).feedback_level(),
                sample as int,
            ),
    {
        let fed: i64 = self.buffer[self.pos];
        let wet_sample: i64 = sat_add64(sample, scale_mul64(fed, self.feedback));
        self.buffer.set(self.pos, wet_sample);
        self.pos = (self.pos + 1) % self.length;
        let dry_part: i64 = scale_mul64(sample, SCALE - self.wet);
        let wet_part: i64 = scale_mul64(wet_sample, self.wet);
        let out: i64 = sat_add64(dry_part, wet_part);
        proof {
            assert(self.samples() =~= step_samples(
                old(self).samples(),
                old(self).position(),
                old(self).feedback_level(),
                sample as int,
            ));
        }
        out
    }

    /// Returns a snapshot of the full internal state for diagnostics.
    pub fn dump(&self) -> (snap: DelaySnapshot)
        requires
            self.well_formed(),
        ensures
            snap.length as int == self.delay_len(),
            snap.position as int == self.position(),
            sample_ints(snap.samples@) == self.samples(),
            snap.wet as int == self.wet_level(),
            snap.feedback as int == self.feedback_level(),
    {
        let mut copied: Vec<i64> = Vec::new();
        let mut i: usize = 0;
        while i < self.buffer.len()
            invariant
                i <= self.buffer.len(),
                copied@.len() == i,
                forall|j: int| 0 <= j < i ==> copied@[j] == self.buffer@[j],
            decreases self.buffer.len() - i,
        {
            copied.push(self.buffer[i]);
            i += 1;
        }
        proof {
            assert(sample_ints(copied@) =~= sample_ints(self.buffer@));
        }
        DelaySnapshot {
            length: self.length,
            position: self.pos,
            samples: copied,
            wet: self.wet,
            feedback: self.feedback,
        }
    }
}

/// The position after `n` calls is the start offset by `n`, modulo the length.
pub proof fn lemma_run_position_mod(pos: int, len: int, n: nat)
    requires
        1 <= len,
        0 <= pos < len,
    ensures
        run_position(pos, len, n) == (pos + n) % len,
    decreases n,
{
    if n == 0 {
        lemma_small_mod(pos as nat, len as nat);
    } else {
        lemma_run_position_mod(pos, len, (n - 1) as nat);
        lemma_add_mod_noop_right(1, pos + n - 1, len);
    }
}

/// Law: after exactly `len` calls to `process`, the write position has
/// returned to where it started, for every delay length `len >= 1`.
pub proof fn lemma_position_wraps(pos: int, len: int)
    requires
        1 <= len,
        0 <= pos < len,
    ensures
        run_position(pos, len, len as nat) == pos,
{
    lemma_run_position_mod(pos, len, len as nat);
    lemma_mod_add_multiples_vanish(pos, len);
    lemma_small_mod(pos as nat, len as nat);
}

/// State after the first `k` calls of the impulse stream: the impulse sits in
/// slot zero and every output after the first, so far, is silent.
proof fn lemma_impulse_prefix(len: int, wet: int, feedback: int, k: int)
    requires
        1 <= len,
        0 <= wet <= SCALE,
        i64::MIN as int <= feedback <= i64::MAX as int,
        1 <= k <= len,
    ensures
        run_samples(silence(len), 0, feedback, impulse_input(len).take(k))
            == silence(len).update(0, SCALE as int),
        run_outputs(silence(len), 0, wet, feedback, impulse_input(len).take(k)).len() == k,
        forall|i: int| 1 <= i < k
            ==> run_outputs(silence(len), 0, wet, feedback, impulse_input(len).take(k))[i] == 0,
    decreases k,
{
    let buf0 = silence(len);
    let hot = silence(len).update(0, SCALE as int);
    let input = impulse_input(len).take(k);
    assert(impulse_input(len).len() == len + 1);
    assert(buf0.len() == len);
    assert(input.len() == k);
    if k == 1 {
        let empty = Seq::<int>::empty();
        assert(input.drop_last() =~= empty);
        assert(run_samples(buf0, 0, feedback, empty) == buf0);
        assert(run_outputs(buf0, 0, wet, feedback, empty) == empty);
        assert(input.last() == impulse_input(len)[0]);
        assert(impulse_input(len)[0] == SCALE as int);
        assert(buf0[0] == 0);
        assert(scale_mul(0, feedback) == 0) by {
            assert(0 * feedback == 0) by (nonlinear_arith);
        }
        assert(run_samples(buf0, 0, feedback, input)
            == step_samples(buf0, run_position(0, len, 0), feedback, SCALE as int));
        assert(sat_add(SCALE as int, scale_mul(0, feedback)) == SCALE as int);
        assert(run_samples(buf0, 0, feedback, input) == hot);
        assert(run_outputs(buf0, 0, wet, feedback, input).len() == 1);
    } else {
        lemma_impulse_prefix(len, wet, feedback, k - 1);
        let prev_input = impulse_input(len).take(k - 1);
        assert(input.drop_last() =~= prev_input);
        assert(input.last() == impulse_input(len)[k - 1]);
        assert(impulse_input(len)[k - 1] == silence(len)[k - 2]);
        assert(input.last() == 0);
        lemma_run_position_mod(0, len, (k - 1) as nat);
        lemma_small_mod((k - 1) as nat, len as nat);
        assert(run_position(0, len, (k - 1) as nat) == k - 1);
        assert(hot[k - 1] == 0);
        assert(scale_mul(0, feedback) == 0) by {
            assert(0 * feedback == 0) by (nonlinear_arith);
        }
        assert(sat_add(0, scale_mul(0, feedback)) == 0);
        assert(run_samples(buf0, 0, feedback, input)
            == step_samples(hot, k - 1, feedback, 0));
        assert(step_samples(hot, k - 1, feedback, 0) =~= hot);
        assert(step_output(hot, k - 1, wet, feedback, 0)
            == sat_add(scale_mul(0, SCALE - wet), scale_mul(sat_add(0, scale_mul(0, feedback)), wet)));
        assert(scale_mul(0, wet) == 0) by {
            assert(0 * wet == 0) by (nonlinear_arith);
        }
        assert(scale_mul(0, SCALE - wet) == 0) by {
            assert(0 * (SCALE - wet) == 0) by (nonlinear_arith);
        }
        assert(step_output(hot, k - 1, wet, feedback, 0) == 0);
        assert(run_outputs(buf0, 0, wet, feedback, input)
            == run_outputs(buf0, 0, wet, feedback, prev_input).push(0));
    }
}

/// Law: feeding a unit impulse and then `len` silent samples into a fresh
/// delay line gives a silent output at every index strictly between the
/// impulse and the delayed echo, and the echo at index `len` is the impulse
/// attenuated by the feedback coefficient and the wet fraction.
pub proof fn lemma_impulse_response(len: int, wet: int, feedback: int)
    requires
        1 <= len,
        0 <= wet <= SCALE,
        i64::MIN as int <= feedback <= i64::MAX as int,
    ensures
        run_outputs(silence(len), 0, wet, feedback, impulse_input(len)).len() == len + 1,
        forall|i: int| 1 <= i < len
            ==> run_outputs(silence(len), 0, wet, feedback, impulse_input(len))[i] == 0,
        run_outputs(silence(len), 0, wet, feedback, impulse_input(len))[len]
            == scale_mul(feedback, wet),
{
    let buf0 = silence(len);
    let hot = silence(len).update(0, SCALE as int);
    let input = impulse_input(len);
    lemma_impulse_prefix(len, wet, feedback, len);
    assert(input.drop_last() =~= input.take(len));
    assert(input.last() == silence(len)[len - 1]);
    assert(input.last() == 0);
    lemma_run_position_mod(0, len, len as nat);
    lemma_mod_self_0(len);
    assert(run_position(0, len, len as nat) == 0);
    assert(hot[0] == SCALE as int);
    lemma_scale_mul_one(feedback);
    assert(sat_add(0, scale_mul(SCALE as int, feedback)) == feedback);
    assert(scale_mul(0, SCALE - wet) == 0) by {
        assert(0 * (SCALE - wet) == 0) by (nonlinear_arith);
    }
    assert(step_output(hot, 0, wet, feedback, 0)
        == sat_add(scale_mul(0, SCALE - wet), scale_mul(feedback, wet)));
    assert(i64::MIN as int <= scale_mul(feedback, wet) <= i64::MAX as int);
    assert(step_output(hot, 0, wet, feedback, 0) == scale_mul(feedback, wet));
    assert(run_outputs(buf0, 0, wet, feedback, input)
        == run_outputs(buf0, 0, wet, feedback, input.take(len)).push(scale_mul(feedback, wet)));
}

} // verus!
