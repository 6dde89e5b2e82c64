//! The strategies as one closed set, for pipelines that mix them.

use vstd::prelude::*;
use super::input::EngineError;
use super::input::Input;
use super::random::RandomSource;
use super::replay::Rule;
use super::BitwiseCorruptor;
use super::Corruptor;
use super::RandCorruptor;
use super::TiltCorruptor;

verus! {

/// Any one of the strategies. It behaves as the strategy it holds.
#[derive(Clone, Copy, Debug, PartialEq, Eq, Structural)]
pub enum Strategy {
    Random(RandCorruptor),
    Tilt(TiltCorruptor),
    Bitwise(BitwiseCorruptor),
}

impl Corruptor for Strategy {
    open spec fn intensity(&self) -> int {
        match self {
            Strategy::Random(c) => c.intensity(),
            Strategy::Tilt(c) => c.intensity(),
            Strategy::Bitwise(c) => c.intensity(),
        }
    }

    open spec fn rule(&self) -> Rule {
        match self {
            Strategy::Random(c) => c.rule(),
            Strategy::Tilt(c) => c.rule(),
            Strategy::Bitwise(c) => c.rule(),
        }
    }

    fn mutate(&self, before: u8, drawn: u8) -> (after: u8) {
        match self {
            Strategy::Random(c) => c.mutate(before, drawn),
            Strategy::Tilt(c) => c.mutate(before, drawn),
            Strategy::Bitwise(c) => c.mutate(before, drawn),
        }
    }

    fn corrupt(&self, input: &Input, rng: &mut RandomSource) -> (out: Result<Vec<u8>, EngineError>) {
        let out = match self {
            Strategy::Random(c) => c.corrupt(input, rng),
            Strategy::Tilt(c) => c.corrupt(input, rng),
            Strategy::Bitwise(c) => c.corrupt(input, rng),
        };
        proof {
            let held: Rule = match self {
                Strategy::Random(c) => c.rule(),
                Strategy::Tilt(c) => c.rule(),
                Strategy::Bitwise(c) => c.rule(),
            };
            assert(self.rule() == held);
        }
        out
    }
}

} // verus!
