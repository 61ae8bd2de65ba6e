//! Small building-block traits shared across the crawler.
use vstd::prelude::*;

verus! {

/// Types that can be sorted into a category.
pub trait Categorizable<T> {
    fn categorize(&self) -> T;
}

/// Entities that carry timing information.
pub trait TimestampedTask {
    type Timing;

    fn timing(&self) -> &Self::Timing;

    /// Marks the start of work; by default nothing is recorded.
    fn mark_started(&mut self) {
    }
}

/// Types that can check their own consistency.
pub trait Validatable {
    type ValidationError;

    fn validate(&self) -> Result<(), Self::ValidationError>;
}

/// Data with a canonical form.
pub trait Normalizable: Sized {
    fn normalize(&mut self);

    /// The canonical form of a value.
    fn normalized(self) -> Self {
        let mut s = self;
        s.normalize();
        s
    }
}

/// Per-domain request accounting. Waiting for a free slot is the caller's
/// concern; see `GlobalRateLimiter::admit_request`.
pub trait RateLimiter {
    fn get_current_request_count(&self, domain: &str) -> usize;
}

} // verus!
