//! What a run of a strategy does to a buffer, as a function of the random
//! choices made along the way.

use vstd::prelude::*;
use vstd::set_lib::lemma_int_range;
use vstd::set_lib::lemma_len_subset;
use vstd::set_lib::set_int_range;
use super::input::Input;
use super::input::InputView;
use super::Corruptor;

verus! {

/// The random choices of one iteration: the offset that is hit and the byte
/// that was drawn for it. Strategies that draw no byte ignore `value`.
#[derive(Clone, Copy, Debug, PartialEq, Eq, Structural)]
pub struct Draw {
    pub offset: usize,
    pub value: u8,
}

/// The rule of one iteration: from the byte that is hit and the byte that
/// was drawn to the byte that is written back.
pub type Rule = spec_fn(u8, u8) -> u8;

/// The number of iterations that `intensity` stands for: none
/// when it is zero or negative.
pub open spec fn iterations(intensity: int) -> nat {
    if intensity > 0 {
        intensity as nat
    } else {
        0
    }
}

/// The buffer after the iterations described by `draws` have been carried
/// out on `data`, first to last. Each iteration replaces the byte at its
/// offset by what `rule` makes of it; a later iteration sees what the
/// earlier ones wrote.
pub open spec fn replay(rule: Rule, data: Seq<u8>, draws: Seq<Draw>) -> Seq<u8>
    decreases draws.len(),
{
    if draws.len() == 0 {
        data
    } else {
        let before = replay(rule, data, draws.drop_last());
        let hit = draws.last().offset as int;
        before.update(hit, rule(before[hit], draws.last().value))
    }
}

/// Every draw of `draws` hits an offset of `[low, high)`.
pub open spec fn draws_within(draws: Seq<Draw>, low: int, high: int) -> bool {
    forall|k: int| 0 <= k < draws.len() ==> low <= (#[trigger] draws[k]).offset < high
}

/// No draw of `draws` hits offset `i`.
pub open spec fn misses(draws: Seq<Draw>, i: int) -> bool {
    forall|k: int| 0 <= k < draws.len() ==> (#[trigger] draws[k]).offset != i
}

/// `draws` is a run that `input` admits at this `intensity`: one draw per
/// iteration, every offset inside the range.
pub open spec fn is_run(input: InputView, intensity: int, draws: Seq<Draw>) -> bool {
    &&& draws.len() == iterations(intensity)
    &&& draws_within(draws, input.start_offset, input.end_offset)
}

/// The offsets at which `after` differs from `before`.
pub open spec fn altered(before: Seq<u8>, after: Seq<u8>) -> Set<int> {
    Set::new(|i: int| 0 <= i < before.len() && i < after.len() && before[i] != after[i])
}

/// `after` agrees with `input`'s buffer at every offset outside the range.
pub open spec fn confined(input: InputView, after: Seq<u8>) -> bool {
    forall|i: int|
        0 <= i < input.data.len() && !input.in_range(i) ==> #[trigger] after[i] == input.data[i]
}

/// Two buffers differ at finitely many offsets, no more than the first is
/// long.
pub proof fn altered_is_finite(before: Seq<u8>, after: Seq<u8>)
    ensures
        altered(before, after).finite(),
        altered(before, after).len() <= before.len(),
{
    lemma_int_range(0, before.len() as int);
    assert(altered(before, after).subset_of(set_int_range(0, before.len() as int)));
    lemma_len_subset(altered(before, after), set_int_range(0, before.len() as int));
}

/// A run of no iterations leaves the buffer as it was.
pub proof fn replay_of_nothing(rule: Rule, data: Seq<u8>, draws: Seq<Draw>)
    requires
        draws.len() == 0,
    ensures
        replay(rule, data, draws) == data,
{
}

/// One more iteration rewrites one byte of what the iterations before it
/// left.
pub proof fn replay_of_one_more(rule: Rule, data: Seq<u8>, draws: Seq<Draw>, next: Draw)
    ensures
        replay(rule, data, draws.push(next)) == replay(rule, data, draws).update(
            next.offset as int,
            rule(replay(rule, data, draws)[next.offset as int], next.value),
        ),
{
    assert(draws.push(next).drop_last() =~= draws);
}

/// A run keeps the length of the buffer, and an offset that no draw hits
/// keeps its byte.
pub proof fn replay_keeps_untouched(rule: Rule, data: Seq<u8>, draws: Seq<Draw>)
    requires
        draws_within(draws, 0, data.len() as int),
    ensures
        replay(rule, data, draws).len() == data.len(),
        forall|i: int|
            0 <= i < data.len() && misses(draws, i) ==> #[trigger] replay(rule, data, draws)[i]
                == data[i],
    decreases draws.len(),
{
    if draws.len() > 0 {
        let earlier = draws.drop_last();
        replay_keeps_untouched(rule, data, earlier);
        assert forall|i: int| 0 <= i < data.len() && misses(draws, i) implies #[trigger] replay(
            rule,
            data,
            draws,
        )[i] == data[i] by {
            assert(draws.last().offset != i);
            assert(misses(earlier, i));
        }
    }
}

/// Range containment: a run whose draws all fall inside a valid range
/// alters no byte outside it.
pub proof fn replay_stays_in_range(rule: Rule, input: InputView, draws: Seq<Draw>)
    requires
        input.range_valid(),
        draws_within(draws, input.start_offset, input.end_offset),
    ensures
        replay(rule, input.data, draws).len() == input.data.len(),
        confined(input, replay(rule, input.data, draws)),
{
    replay_keeps_untouched(rule, input.data, draws);
}

/// Bounded alteration: a run alters at most as many offsets as it has
/// iterations. It may alter fewer, since an offset can be hit twice and a
/// byte can be rewritten with the value it had.
pub proof fn replay_alters_at_most_its_length(rule: Rule, data: Seq<u8>, draws: Seq<Draw>)
    requires
        draws_within(draws, 0, data.len() as int),
    ensures
        altered(data, replay(rule, data, draws)).finite(),
        altered(data, replay(rule, data, draws)).len() <= draws.len(),
    decreases draws.len(),
{
    if draws.len() == 0 {
        assert(altered(data, data) =~= Set::<int>::empty());
    } else {
        let earlier = draws.drop_last();
        let before = replay(rule, data, earlier);
        let hit = draws.last().offset as int;
        replay_alters_at_most_its_length(rule, data, earlier);
        replay_keeps_untouched(rule, data, earlier);
        let widened = altered(data, before).insert(hit);
        assert(altered(data, replay(rule, data, draws)).subset_of(widened));
        lemma_len_subset(altered(data, replay(rule, data, draws)), widened);
    }
}

/// A rule that hands every byte back as it got it alters nothing, however
/// many iterations are run.
pub proof fn replay_of_idle_rule(rule: Rule, data: Seq<u8>, draws: Seq<Draw>)
    requires
        draws_within(draws, 0, data.len() as int),
        forall|b: u8, v: u8| #[trigger] rule(b, v) == b,
    ensures
        replay(rule, data, draws) == data,
    decreases draws.len(),
{
    if draws.len() > 0 {
        replay_of_idle_rule(rule, data, draws.drop_last());
        assert(replay(rule, data, draws) =~= data);
    }
}

/// A rule that ignores the byte drawn and changes nothing when applied a
/// second time leaves each byte either as it was or as one application
/// makes it, whichever offsets are hit and however often.
pub proof fn replay_of_settling_rule(rule: Rule, data: Seq<u8>, draws: Seq<Draw>)
    requires
        draws_within(draws, 0, data.len() as int),
        forall|b: u8, v: u8| #[trigger] rule(b, v) == rule(b, 0),
        forall|b: u8| rule(#[trigger] rule(b, 0), 0) == rule(b, 0),
    ensures
        replay(rule, data, draws).len() == data.len(),
        forall|i: int|
            0 <= i < data.len() ==> (#[trigger] replay(rule, data, draws)[i]) == data[i]
                || replay(rule, data, draws)[i] == rule(data[i], 0),
    decreases draws.len(),
{
    if draws.len() > 0 {
        replay_of_settling_rule(rule, data, draws.drop_last());
    }
}

/// What holds of every run that an input with a valid range admits: the
/// length is kept, no iteration means no change, at most one offset is
/// altered per iteration, and nothing outside the range is altered.
pub proof fn run_is_bounded_and_confined(
    rule: Rule,
    input: InputView,
    intensity: int,
    draws: Seq<Draw>,
)
    requires
        input.range_valid(),
        is_run(input, intensity, draws),
    ensures
        replay(rule, input.data, draws).len() == input.data.len(),
        intensity <= 0 ==> replay(rule, input.data, draws) == input.data,
        altered(input.data, replay(rule, input.data, draws)).finite(),
        altered(input.data, replay(rule, input.data, draws)).len() <= iterations(intensity),
        confined(input, replay(rule, input.data, draws)),
{
    replay_stays_in_range(rule, input, draws);
    replay_alters_at_most_its_length(rule, input.data, draws);
}

/// Carries out on a copy of `input`'s buffer the iterations that `draws`
/// describes, by the rule of `corruptor`, and returns the copy. The number
/// of iterations is that of the draws, whatever the strategy's intensity.
///
/// `None` is returned, and nothing is computed, unless the range is valid
/// and every draw falls inside it.
pub fn apply_run(corruptor: &dyn Corruptor, input: &Input, draws: &[Draw]) -> (out: Option<
    Vec<u8>,
>)
    ensures
        out is Some <==> input@.range_valid() && draws_within(
            draws@,
            input@.start_offset,
            input@.end_offset,
        ),
        out is Some ==> out->Some_0@ == replay(corruptor.rule(), input@.data, draws@),
        out is Some ==> out->Some_0@.len() == input@.data.len(),
        out is Some ==> altered(input@.data, out->Some_0@).len() <= draws@.len(),
        out is Some ==> confined(input@, out->Some_0@),
{
    if input.validate().is_err() {
        return None;
    }
    let mut data = input.data.clone();
    let mut done: usize = 0;
    while done < draws.len()
        invariant
            done <= draws@.len(),
            input@.range_valid(),
            draws_within(draws@.take(done as int), input@.start_offset, input@.end_offset),
            data@.len() == input@.data.len(),
            data@ == replay(corruptor.rule(), input@.data, draws@.take(done as int)),
        decreases draws@.len() - done,
    {
        let draw = draws[done];
        if draw.offset < input.start_offset || draw.offset >= input.end_offset {
            return None;
        }
        let before = data[draw.offset];
        data[draw.offset] = corruptor.mutate(before, draw.value);
        proof {
            replay_of_one_more(corruptor.rule(), input@.data, draws@.take(done as int), draw);
            assert(draws@.take(done as int).push(draw) =~= draws@.take(done + 1));
        }
        done = done + 1;
    }
    proof {
        assert(draws@.take(done as int) =~= draws@);
        replay_stays_in_range(corruptor.rule(), input@, draws@);
        replay_alters_at_most_its_length(corruptor.rule(), input@.data, draws@);
    }
    Some(data)
}

} // verus!
