//! The chain: a baseline buffer that is kept, and a working buffer that
//! strategies are applied to one after another.

use vstd::prelude::*;
use super::input::EngineError;
use super::input::Input;
use super::input::InputView;
use super::random::RandomSource;
use super::replay::altered;
use super::replay::confined;
use super::replay::is_run;
use super::replay::iterations;
use super::replay::replay;
use super::replay::Draw;
use super::replay::Rule;
use super::strategy::Strategy;
use super::Corruptor;

verus! {

/// `after` is something that one run of `rule` at this `intensity` can
/// make of `before`: the range is kept, and the buffer is the replay of a
/// run that `before` admits.
pub open spec fn advanced(before: InputView, intensity: int, rule: Rule, after: InputView) -> bool {
    &&& after.start_offset == before.start_offset
    &&& after.end_offset == before.end_offset
    &&& exists|draws: Seq<Draw>|
        is_run(before, intensity, draws) && after.data == #[trigger] replay(rule, before.data, draws)
}

/// `states` are the working copies that applying `steps` in order can pass
/// through: one before the first step, and one after each step, which is
/// something that this step can make of the one before it.
pub open spec fn is_trace(steps: Seq<Strategy>, states: Seq<InputView>) -> bool {
    &&& states.len() == steps.len() + 1
    &&& forall|k: int|
        0 <= k < steps.len() ==> advanced(
            states[k],
            (#[trigger] steps[k]).intensity(),
            steps[k].rule(),
            states[k + 1],
        )
}

/// `after` is something that applying `steps` in order can make of
/// `before`, each step working on what the one before it left.
pub open spec fn advanced_through(before: InputView, steps: Seq<Strategy>, after: InputView) -> bool {
    exists|states: Seq<InputView>|
        #[trigger] is_trace(steps, states) && states.first() == before && states.last() == after
}

/// The refusal, if any, that applying `steps` in order to `input` ends in:
/// that of the first step that is refused.
pub open spec fn pipeline_rejection(input: InputView, steps: Seq<Strategy>) -> Option<EngineError>
    decreases steps.len(),
{
    if steps.len() == 0 {
        None
    } else {
        match pipeline_rejection(input, steps.drop_last()) {
            Some(refusal) => Some(refusal),
            None => input.rejection(steps.last().intensity()),
        }
    }
}

/// A refusal met by the first `k` steps is the refusal of the whole
/// pipeline: later steps are never reached.
pub proof fn pipeline_rejection_is_first(input: InputView, steps: Seq<Strategy>, k: int)
    requires
        0 <= k <= steps.len(),
        pipeline_rejection(input, steps.take(k)) is Some,
    ensures
        pipeline_rejection(input, steps) == pipeline_rejection(input, steps.take(k)),
    decreases steps.len() - k,
{
    if k == steps.len() {
        assert(steps.take(k) =~= steps);
    } else {
        assert(steps.take(k + 1).drop_last() =~= steps.take(k));
        pipeline_rejection_is_first(input, steps, k + 1);
    }
}

/// A baseline and a working copy of it. The chain is clean while the two
/// agree, and mutated once a strategy has been applied; [`reset`] makes it
/// clean again.
///
/// [`reset`]: CorruptorChain::reset
#[derive(Clone, Debug, PartialEq, Eq)]
pub struct CorruptorChain {
    /// The baseline: what the chain was loaded with.
    pub og_data: Input,
    /// The working copy: the baseline as damaged so far.
    pub data: Input,
}

impl CorruptorChain {
    /// The working copy is what the baseline is.
    pub open spec fn is_clean(&self) -> bool {
        self.data@ == self.og_data@
    }

    /// A clean chain on `baseline`.
    pub fn new(baseline: Input) -> (chain: CorruptorChain)
        ensures
            chain.og_data == baseline,
            chain.is_clean(),
    {
        let data = baseline.duplicate();
        CorruptorChain { og_data: baseline, data }
    }

    /// Applies `corruptor` to the working copy and hands the chain back for
    /// the next application.
    ///
    /// The working range is checked against the working buffer first. A
    /// refused application leaves the chain exactly as it was; an accepted
    /// one replaces the working buffer by the strategy's result and touches
    /// neither the range nor the baseline.
    pub fn corrupt(&mut self, corruptor: &dyn Corruptor, rng: &mut RandomSource) -> (r: Result<
        &mut CorruptorChain,
        EngineError,
    >)
        ensures
            r is Err <==> old(self).data@.rejection(corruptor.intensity()) is Some,
            r is Err ==> old(self).data@.rejection(corruptor.intensity()) == Some(r->Err_0),
            r is Err ==> *final(self) == *old(self),
            r is Ok ==> *final(self) == *final(r->Ok_0),
            r is Ok ==> r->Ok_0.og_data == old(self).og_data,
            r is Ok ==> advanced(
                old(self).data@,
                corruptor.intensity(),
                corruptor.rule(),
                r->Ok_0.data@,
            ),
            r is Ok ==> r->Ok_0.data@.data.len() == old(self).data@.data.len(),
            r is Ok && corruptor.intensity() <= 0 ==> r->Ok_0.data@ == old(self).data@,
            r is Ok ==> altered(old(self).data@.data, r->Ok_0.data@.data).len() <= iterations(
                corruptor.intensity(),
            ),
            r is Ok ==> confined(old(self).data@, r->Ok_0.data@.data),
    {
        self.data.validate()?;
        let bytes = corruptor.corrupt(&self.data, rng)?;
        self.data.data = bytes;
        Ok(self)
    }

    /// Discards every mutation: the working copy becomes the baseline again,
    /// bytes and range.
    pub fn reset(&mut self)
        ensures
            final(self).og_data == old(self).og_data,
            final(self).is_clean(),
    {
        self.data = self.og_data.duplicate();
    }

    /// Runs a pipeline from the start: resets the chain, then applies
    /// `pipeline` in order until a step is refused or all are done.
    ///
    /// A refusal is that of the first refused step. Steps before it have
    /// been applied and are not undone; since the range does not change
    /// along the way, those were steps that ask for no iteration, and the
    /// chain is clean.
    pub fn run(&mut self, pipeline: &[Strategy], rng: &mut RandomSource) -> (r: Result<
        (),
        EngineError,
    >)
        ensures
            final(self).og_data == old(self).og_data,
            r is Err <==> pipeline_rejection(old(self).og_data@, pipeline@) is Some,
            r is Err ==> pipeline_rejection(old(self).og_data@, pipeline@) == Some(r->Err_0),
            r is Err ==> final(self).is_clean(),
            r is Ok ==> advanced_through(old(self).og_data@, pipeline@, final(self).data@),
            final(self).data@.start_offset == old(self).og_data@.start_offset,
            final(self).data@.end_offset == old(self).og_data@.end_offset,
            final(self).data@.data.len() == old(self).og_data@.data.len(),
            confined(old(self).og_data@, final(self).data@.data),
    {
        self.reset();
        let ghost baseline = self.og_data@;
        let ghost mut states: Seq<InputView> = seq![baseline];
        let mut done: usize = 0;
        while done < pipeline.len()
            invariant
                done <= pipeline@.len(),
                self.og_data == old(self).og_data,
                baseline == self.og_data@,
                self.data@.start_offset == baseline.start_offset,
                self.data@.end_offset == baseline.end_offset,
                self.data@.data.len() == baseline.data.len(),
                baseline.rejection(1) is Some ==> self.data@ == baseline,
                pipeline_rejection(baseline, pipeline@.take(done as int)) is None,
                is_trace(pipeline@.take(done as int), states),
                states.first() == baseline,
                states.last() == self.data@,
                confined(baseline, self.data@.data),
            decreases pipeline@.len() - done,
        {
            let ghost earlier = pipeline@.take(done as int);
            let ghost reached = pipeline@.take(done + 1);
            proof {
                assert(reached.drop_last() =~= earlier);
            }
            match self.corrupt(&pipeline[done], rng) {
                Ok(_) => {},
                Err(refusal) => {
                    proof {
                        pipeline_rejection_is_first(baseline, pipeline@, done + 1);
                    }
                    return Err(refusal);
                },
            }
            proof {
                let longer = states.push(self.data@);
                assert forall|k: int| 0 <= k < reached.len() implies advanced(
                    longer[k],
                    (#[trigger] reached[k]).intensity(),
                    reached[k].rule(),
                    longer[k + 1],
                ) by {
                    if k < done {
                        assert(earlier[k] == reached[k]);
                    }
                }
                states = longer;
            }
            done = done + 1;
        }
        proof {
            assert(pipeline@.take(done as int) =~= pipeline@);
        }
        Ok(())
    }

    /// The bytes of the working copy.
    pub fn working(&self) -> (bytes: &Vec<u8>)
        ensures
            bytes@ == self.data@.data,
    {
        &self.data.data
    }
}

} // verus!
