//! The buffer a strategy works on, the range it may touch, and the ways a
//! request can be refused.

use vstd::prelude::*;

verus! {

/// Why a request to mutate a buffer was refused. A refused request alters
/// nothing.
#[derive(Clone, Copy, Debug, PartialEq, Eq, Structural)]
pub enum EngineError {
    /// The range is reversed or reaches past the end of the buffer.
    InvalidRange,
    /// The range is well formed but holds no offset, and at least one
    /// mutation was asked for.
    EmptyRange,
}

/// A byte buffer together with the half-open range of offsets
/// `[start_offset, end_offset)` that a strategy may alter.
#[derive(Clone, Debug, PartialEq, Eq)]
pub struct Input {
    pub data: Vec<u8>,
    pub start_offset: usize,
    pub end_offset: usize,
}

/// The mathematical content of an [`Input`].
pub struct InputView {
    pub data: Seq<u8>,
    pub start_offset: int,
    pub end_offset: int,
}

impl View for Input {
    type V = InputView;

    open spec fn view(&self) -> InputView {
        InputView {
            data: self.data@,
            start_offset: self.start_offset as int,
            end_offset: self.end_offset as int,
        }
    }
}

impl InputView {
    /// `0 <= start_offset <= end_offset <= len`.
    pub open spec fn range_valid(self) -> bool {
        0 <= self.start_offset <= self.end_offset <= self.data.len()
    }

    /// Offset `i` is one a strategy may alter.
    pub open spec fn in_range(self, i: int) -> bool {
        self.start_offset <= i < self.end_offset
    }

    /// The refusal, if any, that a request of this `intensity` meets.
    /// Validity of the range is judged first; an empty range is refused only
    /// when some mutation is asked for.
    pub open spec fn rejection(self, intensity: int) -> Option<EngineError> {
        if !self.range_valid() {
            Some(EngineError::InvalidRange)
        } else if self.start_offset == self.end_offset && intensity > 0 {
            Some(EngineError::EmptyRange)
        } else {
            None
        }
    }
}

/// Range validation: a reversed range is refused as invalid on every buffer
/// and at every intensity, and so is one that reaches past the end.
pub proof fn malformed_range_is_invalid(input: InputView, intensity: int)
    requires
        input.start_offset > input.end_offset || input.end_offset > input.data.len(),
    ensures
        input.rejection(intensity) == Some(EngineError::InvalidRange),
{
}

/// Empty-range rejection: a valid range that holds no offset is refused as
/// empty when an iteration is asked for, and accepted when none is.
pub proof fn empty_range_is_refused_when_asked(input: InputView, intensity: int)
    requires
        input.range_valid(),
        input.start_offset == input.end_offset,
    ensures
        intensity > 0 ==> input.rejection(intensity) == Some(EngineError::EmptyRange),
        intensity <= 0 ==> input.rejection(intensity) is None,
{
}

/// A valid range that holds an offset is accepted at every intensity.
pub proof fn inhabited_range_is_accepted(input: InputView, intensity: int)
    requires
        input.range_valid(),
        input.start_offset < input.end_offset,
    ensures
        input.rejection(intensity) is None,
{
}

impl Input {
    /// Puts a buffer and a range together, if the range fits the buffer.
    pub fn new(data: Vec<u8>, start_offset: usize, end_offset: usize) -> (made: Result<
        Input,
        EngineError,
    >)
        ensures
            made is Ok <==> start_offset <= end_offset <= data@.len(),
            made is Ok ==> made->Ok_0.data == data,
            made is Ok ==> made->Ok_0.start_offset == start_offset,
            made is Ok ==> made->Ok_0.end_offset == end_offset,
            made is Err ==> made->Err_0 == EngineError::InvalidRange,
    {
        let made = Input { data, start_offset, end_offset };
        match made.validate() {
            Ok(()) => Ok(made),
            Err(refusal) => Err(refusal),
        }
    }

    /// Checks the range against the buffer.
    pub fn validate(&self) -> (r: Result<(), EngineError>)
        ensures
            r is Ok <==> self@.range_valid(),
            r is Err ==> r->Err_0 == EngineError::InvalidRange,
    {
        if self.start_offset <= self.end_offset && self.end_offset <= self.data.len() {
            Ok(())
        } else {
            Err(EngineError::InvalidRange)
        }
    }

    /// An independent copy: same bytes, same range.
    pub fn duplicate(&self) -> (copy: Input)
        ensures
            copy@ == self@,
    {
        Input {
            data: self.data.clone(),
            start_offset: self.start_offset,
            end_offset: self.end_offset,
        }
    }
}

} // verus!
