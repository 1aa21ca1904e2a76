//! Helper for results of blocking operations with timeout

use vstd::prelude::*;

verus! {

/// What a blocking query returned: the current value, and whether it changed
/// before the timeout was reached.
#[derive(Debug)]
pub struct BlockingUpdate<T> {
    pub value: T,
    changed: bool,
}

impl<T> BlockingUpdate<T> {
    /// The value changed within the timeout.
    pub closed spec fn changed(&self) -> bool {
        self.changed
    }

    /// The value that the query returned.
    pub closed spec fn current(&self) -> T {
        self.value
    }

    pub fn new(value: T, changed: bool) -> (update: BlockingUpdate<T>)
        ensures
            update.current() == value,
            update.changed() == changed,
    {
        BlockingUpdate { value, changed }
    }

    /// Indicates that the timeout was reached before the operation could
    /// finish otherwise
    pub fn timeout_reached(&self) -> (b: bool)
        ensures
            b == !self.changed(),
    {
        !self.changed
    }

    /// Indicates that the operation finished within the timeout
    pub fn value_updated(&self) -> (b: bool)
        ensures
            b == self.changed(),
    {
        self.changed
    }
}

} // verus!
