//! Mutation strategies and the range of a buffer they may touch.

pub mod bitop;
pub mod chain;
pub mod input;
pub mod random;
pub mod replay;
pub mod strategy;
pub mod tilt;

pub use bitop::BitOp;
pub use input::EngineError;
pub use input::Input;
pub use input::InputView;
pub use random::RandomSource;
pub use replay::Draw;
pub use strategy::Strategy;

use vstd::prelude::*;
use replay::altered;
use replay::confined;
use replay::is_run;
use replay::iterations;
use replay::replay;
use replay::replay_of_idle_rule;
use replay::replay_of_one_more;
use replay::replay_of_settling_rule;
use replay::run_is_bounded_and_confined;
use replay::draws_within;
use replay::Rule;
use tilt::tilt_byte;
use tilt::tilted;

verus! {

/// A mutation strategy: a way of damaging the bytes of a buffer inside a
/// range, one randomly chosen offset per iteration.
///
/// A strategy is described by its intensity and its rule. Whoever
/// implements the trait owes the contract of [`Corruptor::corrupt`]: the
/// result of a run is the replay of as many draws as the intensity asks for,
/// all of them inside the range.
pub trait Corruptor {
    /// The intensity: how many iterations are asked for. Zero and negative
    /// values ask for none.
    spec fn intensity(&self) -> int;

    /// What one iteration makes of the byte that it lands on.
    spec fn rule(&self) -> Rule;

    /// Carries out one iteration on the byte `before`, with `drawn` as the
    /// random byte of that iteration.
    fn mutate(&self, before: u8, drawn: u8) -> (after: u8)
        ensures
            after == self.rule()(before, drawn),
    ;

    /// Runs the strategy on a copy of `input`'s buffer and returns the copy.
    ///
    /// The request is refused, and nothing is drawn, when the range is not
    /// valid or when it is empty and at least one iteration is asked for.
    /// Otherwise each iteration draws an offset from the range, with
    /// replacement, and rewrites the byte there by the strategy's rule.
    fn corrupt(&self, input: &Input, rng: &mut RandomSource) -> (out: Result<Vec<u8>, EngineError>)
        ensures
            out is Err <==> input@.rejection(self.intensity()) is Some,
            out is Err ==> input@.rejection(self.intensity()) == Some(out->Err_0),
            out is Ok ==> exists|draws: Seq<Draw>|
                is_run(input@, self.intensity(), draws) && out->Ok_0@ == #[trigger] replay(
                    self.rule(),
                    input@.data,
                    draws,
                ),
            out is Ok ==> out->Ok_0@.len() == input@.data.len(),
            out is Ok && self.intensity() <= 0 ==> out->Ok_0@ == input@.data,
            out is Ok ==> altered(input@.data, out->Ok_0@).len() <= iterations(self.intensity()),
            out is Ok ==> confined(input@, out->Ok_0@),
    ;
}

/// Overwrites randomly chosen bytes with random values.
#[derive(Clone, Copy, Debug, PartialEq, Eq, Structural)]
pub struct RandCorruptor {
    pub intensity: i32,
}

impl Corruptor for RandCorruptor {
    open spec fn intensity(&self) -> int {
        self.intensity as int
    }

    open spec fn rule(&self) -> Rule {
        |before: u8, drawn: u8| drawn
    }

    fn mutate(&self, before: u8, drawn: u8) -> (after: u8) {
        drawn
    }

    fn corrupt(&self, input: &Input, rng: &mut RandomSource) -> (out: Result<Vec<u8>, EngineError>) {
        input.validate()?;
        let mut data = input.data.clone();
        let ghost mut draws: Seq<Draw> = Seq::empty();
        let mut done: i32 = 0;
        while done < self.intensity
            invariant
                0 <= done,
                done <= iterations(self.intensity()),
                input@.range_valid(),
                done > 0 ==> input@.start_offset < input@.end_offset,
                draws.len() == done,
                draws_within(draws, input@.start_offset, input@.end_offset),
                data@.len() == input@.data.len(),
                data@ == replay(self.rule(), input@.data, draws),
            decreases self.intensity - done,
        {
            let off = rng.next_offset(input.start_offset, input.end_offset)?;
            let value = rng.next_byte();
            data[off] = value;
            proof {
                let next = Draw { offset: off, value };
                replay_of_one_more(self.rule(), input@.data, draws, next);
                draws = draws.push(next);
            }
            done = done + 1;
        }
        proof {
            run_is_bounded_and_confined(self.rule(), input@, self.intensity(), draws);
        }
        Ok(data)
    }
}

impl Default for RandCorruptor {
    /// A hundred iterations.
    fn default() -> (made: RandCorruptor)
        ensures
            made.intensity == 100,
    {
        RandCorruptor { intensity: 100 }
    }
}

/// Shifts randomly chosen bytes by a signed amount, modulo 256.
#[derive(Clone, Copy, Debug, PartialEq, Eq, Structural)]
pub struct TiltCorruptor {
    pub intensity: i32,
    pub tilt: i8,
}

impl Corruptor for TiltCorruptor {
    open spec fn intensity(&self) -> int {
        self.intensity as int
    }

    open spec fn rule(&self) -> Rule {
        |before: u8, drawn: u8| tilted(before, self.tilt)
    }

    fn mutate(&self, before: u8, drawn: u8) -> (after: u8) {
        tilt_byte(before, self.tilt)
    }

    /// A tilt of zero uses up its iterations and alters nothing.
    fn corrupt(&self, input: &Input, rng: &mut RandomSource) -> (out: Result<Vec<u8>, EngineError>)
        ensures
            out is Ok && self.tilt == 0 ==> out->Ok_0@ == input@.data,
    {
        input.validate()?;
        let mut data = input.data.clone();
        let ghost mut draws: Seq<Draw> = Seq::empty();
        let mut done: i32 = 0;
        while done < self.intensity
            invariant
                0 <= done,
                done <= iterations(self.intensity()),
                input@.range_valid(),
                done > 0 ==> input@.start_offset < input@.end_offset,
                draws.len() == done,
                draws_within(draws, input@.start_offset, input@.end_offset),
                data@.len() == input@.data.len(),
                data@ == replay(self.rule(), input@.data, draws),
            decreases self.intensity - done,
        {
            let off = rng.next_offset(input.start_offset, input.end_offset)?;
            let before = data[off];
            data[off] = tilt_byte(before, self.tilt);
            proof {
                let next = Draw { offset: off, value: 0 };
                replay_of_one_more(self.rule(), input@.data, draws, next);
                draws = draws.push(next);
            }
            done = done + 1;
        }
        proof {
            run_is_bounded_and_confined(self.rule(), input@, self.intensity(), draws);
            if self.tilt == 0 {
                replay_of_idle_rule(self.rule(), input@.data, draws);
            }
        }
        Ok(data)
    }
}

impl Default for TiltCorruptor {
    /// A hundred iterations, each adding one.
    fn default() -> (made: TiltCorruptor)
        ensures
            made.intensity == 100,
            made.tilt == 1,
    {
        TiltCorruptor { intensity: 100, tilt: 1 }
    }
}

/// Combines randomly chosen bytes with a fixed operand by a bitwise
/// operator.
#[derive(Clone, Copy, Debug, PartialEq, Eq, Structural)]
pub struct BitwiseCorruptor {
    pub intensity: i32,
    pub op: BitOp,
    pub rhs: u8,
}

impl Corruptor for BitwiseCorruptor {
    open spec fn intensity(&self) -> int {
        self.intensity as int
    }

    open spec fn rule(&self) -> Rule {
        |before: u8, drawn: u8| self.op.combined(before, self.rhs)
    }

    fn mutate(&self, before: u8, drawn: u8) -> (after: u8) {
        self.op.combine(before, self.rhs)
    }

    /// Since combining twice is combining once, each byte of the result is
    /// either the byte that was there or that byte combined with `rhs`.
    fn corrupt(&self, input: &Input, rng: &mut RandomSource) -> (out: Result<Vec<u8>, EngineError>)
        ensures
            out is Ok ==> forall|i: int|
                0 <= i < input@.data.len() ==> (#[trigger] out->Ok_0@[i]) == input@.data[i]
                    || out->Ok_0@[i] == self.op.combined(input@.data[i], self.rhs),
    {
        input.validate()?;
        let mut data = input.data.clone();
        let ghost mut draws: Seq<Draw> = Seq::empty();
        let mut done: i32 = 0;
        while done < self.intensity
            invariant
                0 <= done,
                done <= iterations(self.intensity()),
                input@.range_valid(),
                done > 0 ==> input@.start_offset < input@.end_offset,
                draws.len() == done,
                draws_within(draws, input@.start_offset, input@.end_offset),
                data@.len() == input@.data.len(),
                data@ == replay(self.rule(), input@.data, draws),
            decreases self.intensity - done,
        {
            let off = rng.next_offset(input.start_offset, input.end_offset)?;
            let before = data[off];
            data[off] = self.op.combine(before, self.rhs);
            proof {
                let next = Draw { offset: off, value: 0 };
                replay_of_one_more(self.rule(), input@.data, draws, next);
                draws = draws.push(next);
            }
            done = done + 1;
        }
        proof {
            run_is_bounded_and_confined(self.rule(), input@, self.intensity(), draws);
            assert forall|b: u8| self.rule()(#[trigger] self.rule()(b, 0), 0) == self.rule()(
                b,
                0,
            ) by {
                self.op.combine_is_idempotent(b, self.rhs);
            }
            replay_of_settling_rule(self.rule(), input@.data, draws);
        }
        Ok(data)
    }
}

impl Default for BitwiseCorruptor {
    /// A hundred iterations, each keeping only the lowest bit.
    fn default() -> (made: BitwiseCorruptor)
        ensures
            made.intensity == 100,
            made.op == BitOp::AND,
            made.rhs == 1,
    {
        BitwiseCorruptor { intensity: 100, op: BitOp::AND, rhs: 1 }
    }
}

/// A strategy of kind `T` with its default parameters.
pub fn get_corruptor<T: Default>() -> (made: T)
    ensures
        call_ensures(T::default, (), made),
{
    T::default()
}

} // verus!
