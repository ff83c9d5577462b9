//! Startup check that no enabled interrupt uses a priority level that the
//! protocol stack keeps for itself.
use vstd::prelude::*;

verus! {

/// Number of interrupt lines implemented by the platform.
pub const INTERRUPT_COUNT: u16 = 48;

/// An interrupt priority level; `P0` is the most urgent.
#[derive(Clone, Copy, Debug, PartialEq, Eq, Structural)]
pub enum Priority {
    P0,
    P1,
    P2,
    P3,
    P4,
    P5,
    P6,
    P7,
}

/// The levels that the protocol stack reserves for its radio timing.
pub open spec fn reserved(p: Priority) -> bool {
    p == Priority::P0 || p == Priority::P1 || p == Priority::P4
}

/// What was read of one interrupt line at startup.
#[derive(Clone, Copy, Debug, PartialEq, Eq, Structural)]
pub struct InterruptRecord {
    pub number: u16,
    pub enabled: bool,
    pub priority: Priority,
}

/// An enabled interrupt holds a reserved level.
pub open spec fn violates(r: InterruptRecord) -> bool {
    r.enabled && reserved(r.priority)
}

/// The fatal configuration error of the guard.
#[derive(Clone, Copy, Debug, PartialEq, Eq, Structural)]
pub enum PriorityError {
    /// The interrupt with this number is enabled at a reserved level.
    ReservedPriority { number: u16 },
}

impl Priority {
    /// The level as a number, 0 to 7.
    pub open spec fn spec_level(self) -> u8 {
        match self {
            Priority::P0 => 0,
            Priority::P1 => 1,
            Priority::P2 => 2,
            Priority::P3 => 3,
            Priority::P4 => 4,
            Priority::P5 => 5,
            Priority::P6 => 6,
            Priority::P7 => 7,
        }
    }

    pub fn level(self) -> (r: u8)
        ensures
            r == self.spec_level(),
    {
        match self {
            Priority::P0 => 0,
            Priority::P1 => 1,
            Priority::P2 => 2,
            Priority::P3 => 3,
            Priority::P4 => 4,
            Priority::P5 => 5,
            Priority::P6 => 6,
            Priority::P7 => 7,
        }
    }

    /// The priority with the given level; `None` above 7.
    pub fn from_level(level: u8) -> (r: Option<Priority>)
        ensures
            r matches Some(p) ==> p.spec_level() == level,
            r is None <==> level > 7,
    {
        match level {
            0 => Some(Priority::P0),
            1 => Some(Priority::P1),
            2 => Some(Priority::P2),
            3 => Some(Priority::P3),
            4 => Some(Priority::P4),
            5 => Some(Priority::P5),
            6 => Some(Priority::P6),
            7 => Some(Priority::P7),
            _ => None,
        }
    }

    /// Whether the protocol stack reserves this level. The three comparisons
    /// are combined with exclusive or; as a level is one value, at most one of
    /// them holds, so this is membership in the reserved set.
    pub fn is_reserved(self) -> (r: bool)
        ensures
            r == reserved(self),
    {
        (self == Priority::P0) ^ (self == Priority::P1) ^ (self == Priority::P4)
    }
}

/// The check made for one interrupt line: `false` when it is enabled at a
/// reserved level.
pub fn record_is_valid(record: &InterruptRecord) -> (r: bool)
    ensures
        r == !violates(*record),
{
    let invalid = record.priority.is_reserved() && record.enabled;
    !invalid
}

/// Checks every record read at startup, in order. On a violation it names
/// the first offending interrupt; otherwise the configuration is accepted.
pub fn check_interrupts(records: &[InterruptRecord]) -> (r: Result<(), PriorityError>)
    ensures
        r is Ok <==> forall|i: int| 0 <= i < records@.len() ==> !violates(#[trigger] records@[i]),
        r matches Err(PriorityError::ReservedPriority { number }) ==> exists|i: int|
            0 <= i < records@.len() && violates(#[trigger] records@[i])
                && records@[i].number == number
                && forall|j: int| 0 <= j < i ==> !violates(#[trigger] records@[j]),
{
    let mut k: usize = 0;
    while k < records.len()
        invariant
            k <= records@.len(),
            forall|j: int| 0 <= j < k ==> !violates(#[trigger] records@[j]),
        decreases records@.len() - k,
    {
        if !record_is_valid(&records[k]) {
            return Err(PriorityError::ReservedPriority { number: records[k].number });
        }
        k = k + 1;
    }
    Ok(())
}

} // verus!
