//! Task priorities and their circular order.

use vstd::prelude::*;

verus! {

/// How urgent a task is.
///
/// Priorities cycle `Low → Medium → High → Low`; the list shows them in tiers,
/// `High` first.
#[derive(Debug, Clone, Copy, PartialEq, Eq, Structural, Hash)]
pub enum Priority {
    High,
    Medium,
    Low,
}

impl Priority {
    /// The priority that follows `self` in the cycle.
    pub open spec fn successor(self) -> Priority {
        match self {
            Priority::Low => Priority::Medium,
            Priority::Medium => Priority::High,
            Priority::High => Priority::Low,
        }
    }

    /// The priority that precedes `self` in the cycle.
    pub open spec fn predecessor(self) -> Priority {
        match self {
            Priority::Low => Priority::High,
            Priority::High => Priority::Medium,
            Priority::Medium => Priority::Low,
        }
    }

    /// The display tier: 0 for `High`, 1 for `Medium`, 2 for `Low`.
    pub open spec fn tier(self) -> nat {
        match self {
            Priority::High => 0,
            Priority::Medium => 1,
            Priority::Low => 2,
        }
    }

    /// The characters of the priority's name.
    pub open spec fn name(self) -> Seq<char> {
        match self {
            Priority::Low => "Low"@,
            Priority::Medium => "Medium"@,
            Priority::High => "High"@,
        }
    }

    /// Moves to the next priority in the cycle.
    pub fn next(&mut self)
        ensures
            *final(self) == old(self).successor(),
    {
        *self = match *self {
            Priority::High => Priority::Low,
            Priority::Medium => Priority::High,
            Priority::Low => Priority::Medium,
        };
    }

    /// Moves to the previous priority in the cycle.
    pub fn previous(&mut self)
        ensures
            *final(self) == old(self).predecessor(),
    {
        *self = match *self {
            Priority::Low => Priority::High,
            Priority::High => Priority::Medium,
            Priority::Medium => Priority::Low,
        };
    }

    /// The priority's name as shown in the list: `"High"`, `"Medium"` or `"Low"`.
    pub fn to_string(&self) -> (text: String)
        ensures
            text@ == self.name(),
    {
        match self {
            Priority::Low => "Low".to_owned(),
            Priority::Medium => "Medium".to_owned(),
            Priority::High => "High".to_owned(),
        }
    }

    /// `next` and `previous` undo each other, and three steps in either
    /// direction come back to the start.
    pub proof fn lemma_cycle(self)
        ensures
            self.successor().predecessor() == self,
            self.predecessor().successor() == self,
            self.successor().successor().successor() == self,
            self.predecessor().predecessor().predecessor() == self,
            self.successor() != self,
            self.predecessor() != self,
    {
    }
}

} // verus!
