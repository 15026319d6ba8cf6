//! Task priority and its integer column encoding.

use vstd::prelude::*;
use vstd::std_specs::convert::FromSpecImpl;

verus! {

/// How urgent a task is.
#[derive(Debug, Clone, Copy, PartialEq, Eq, Structural)]
pub enum Priority {
    Unset,
    Low,
    Medium,
    High,
}

impl Priority {
    /// The integer a priority is stored as.
    pub open spec fn code(self) -> i64 {
        match self {
            Priority::Unset => 0,
            Priority::Low => 1,
            Priority::Medium => 2,
            Priority::High => 3,
        }
    }

    /// The priority a stored integer stands for: 1, 2 and 3 are the three
    /// levels, every other integer means no priority.
    pub open spec fn of_code(code: i64) -> Priority {
        if code == 1 {
            Priority::Low
        } else if code == 2 {
            Priority::Medium
        } else if code == 3 {
            Priority::High
        } else {
            Priority::Unset
        }
    }

    /// The priority a stored integer names, if it names one.
    pub open spec fn of_code_strict(code: i64) -> Option<Priority> {
        if 0 <= code <= 3 {
            Some(Priority::of_code(code))
        } else {
            None
        }
    }

    /// Reads a stored integer strictly: an integer that names no priority
    /// is refused.
    pub fn parse(code: i64) -> (priority: Option<Priority>)
        ensures
            priority == Priority::of_code_strict(code),
    {
        if 0 <= code && code <= 3 {
            Some(Priority::from(code))
        } else {
            None
        }
    }

    /// Reading back a stored priority gives the priority that was stored.
    pub proof fn lemma_code_round_trip(p: Priority)
        ensures
            Priority::of_code(p.code()) == p,
            0 <= p.code() <= 3,
    {
    }

    /// Every integer outside 1..=3 reads as `Unset`, and re-encoding what was
    /// read gives a code in 0..=3 that reads the same.
    pub proof fn lemma_of_code_normalizes(code: i64)
        ensures
            !(1 <= code <= 3) ==> Priority::of_code(code) == Priority::Unset,
            1 <= code <= 3 ==> Priority::of_code(code).code() == code,
            Priority::of_code(Priority::of_code(code).code()) == Priority::of_code(code),
    {
    }
}

impl From<i64> for Priority {
    fn from(value: i64) -> (p: Priority) {
        match value {
            1 => Priority::Low,
            2 => Priority::Medium,
            3 => Priority::High,
            _ => Priority::Unset,
        }
    }
}

impl FromSpecImpl<i64> for Priority {
    open spec fn obeys_from_spec() -> bool {
        true
    }

    open spec fn from_spec(value: i64) -> Priority {
        Priority::of_code(value)
    }
}

impl From<Priority> for i64 {
    fn from(value: Priority) -> (code: i64) {
        match value {
            Priority::Unset => 0,
            Priority::Low => 1,
            Priority::Medium => 2,
            Priority::High => 3,
        }
    }
}

impl FromSpecImpl<Priority> for i64 {
    open spec fn obeys_from_spec() -> bool {
        true
    }

    open spec fn from_spec(value: Priority) -> i64 {
        value.code()
    }
}

} // verus!
