//! The order of task priorities: by their numeric level, from `Low` to
//! `Critical`.
use vstd::prelude::*;
use core::cmp::Ordering;
use vstd::std_specs::cmp::PartialOrdSpec;
use crate::crawl_core::types_refactored::{TaskPriority, priority_level};

verus! {

/// How two levels compare.
pub open spec fn level_order(a: u8, b: u8) -> Ordering {
    if a < b {
        Ordering::Less
    } else if a == b {
        Ordering::Equal
    } else {
        Ordering::Greater
    }
}

impl PartialOrd for TaskPriority {
    fn partial_cmp(&self, other: &Self) -> (r: Option<Ordering>) {
        let a = self.priority_value();
        let b = other.priority_value();
        if a < b {
            Some(Ordering::Less)
        } else if a == b {
            Some(Ordering::Equal)
        } else {
            Some(Ordering::Greater)
        }
    }
}

impl vstd::std_specs::cmp::PartialOrdSpecImpl for TaskPriority {
    open spec fn obeys_partial_cmp_spec() -> bool {
        true
    }

    open spec fn partial_cmp_spec(&self, other: &Self) -> Option<Ordering> {
        Some(level_order(priority_level(*self), priority_level(*other)))
    }
}

/// Priorities compare as their numeric levels do: one is below another
/// exactly when its level is lower, they are equal exactly when their
/// levels are, and the levels run from 0 (`Low`) to 4 (`Critical`).
pub proof fn lemma_priority_order(p: TaskPriority, q: TaskPriority)
    ensures
        (p.partial_cmp_spec(&q) == Some(Ordering::Less)) <==> priority_level(p) < priority_level(q),
        (p.partial_cmp_spec(&q) == Some(Ordering::Greater)) <==> priority_level(p) > priority_level(q),
        (p.partial_cmp_spec(&q) == Some(Ordering::Equal)) <==> p == q,
        priority_level(TaskPriority::Low) == 0,
        priority_level(TaskPriority::Critical) == 4,
        TaskPriority::High.partial_cmp_spec(&TaskPriority::Normal) == Some(Ordering::Greater),
        TaskPriority::Critical.partial_cmp_spec(&TaskPriority::High) == Some(Ordering::Greater),
{
}

} // verus!
