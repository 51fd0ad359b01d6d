//! The conditions that can hold of a file descriptor.

use vstd::prelude::*;

verus! {

/// A set of conditions on a file descriptor: those that a source watches for,
/// or those that the last poll reported.
#[derive(Clone, Copy, Debug, PartialEq, Eq, Structural)]
pub struct IoCondition {
    /// There is something to read.
    pub input: bool,
    /// Something can be written.
    pub output: bool,
    /// The other end has hung up.
    pub hang_up: bool,
    /// The descriptor is not open.
    pub not_open: bool,
}

impl IoCondition {
    /// The conditions on which a stream has nothing more to do.
    pub open spec fn is_over(self) -> bool {
        self.hang_up || self.not_open
    }

    /// The empty set.
    pub fn new() -> (set: Self)
        ensures
            set == (IoCondition { input: false, output: false, hang_up: false, not_open: false }),
    {
        IoCondition { input: false, output: false, hang_up: false, not_open: false }
    }

    /// The same set with or without the input condition.
    pub fn input(self, input: bool) -> (set: Self)
        ensures
            set == (IoCondition { input: input, ..self }),
    {
        IoCondition { input: input, ..self }
    }

    /// The same set with or without the output condition.
    pub fn output(self, output: bool) -> (set: Self)
        ensures
            set == (IoCondition { output: output, ..self }),
    {
        IoCondition { output: output, ..self }
    }
}

/// Each condition is set apart from the others, and the empty set has none.
pub proof fn law_conditions_are_set_apart(
    empty: IoCondition,
    set: IoCondition,
    value: bool,
    with_input: IoCondition,
    with_output: IoCondition,
)
    requires
        call_ensures(IoCondition::new, (), empty),
        call_ensures(IoCondition::input, (set, value), with_input),
        call_ensures(IoCondition::output, (set, value), with_output),
    ensures
        !empty.input && !empty.output && !empty.hang_up && !empty.not_open,
        with_input.input == value && with_input.output == set.output,
        with_input.hang_up == set.hang_up && with_input.not_open == set.not_open,
        with_output.output == value && with_output.input == set.input,
        with_output.hang_up == set.hang_up && with_output.not_open == set.not_open,
{
}

} // verus!
