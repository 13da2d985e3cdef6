use vstd::prelude::*;

verus! {

/// `rand::random` draws a value from the thread's random number generator.
/// Nothing is claimed of the value: every value of the type may come back,
/// and two calls need not agree.
pub assume_specification<T>[ rand::random::<T> ]() -> (value: T)
    where rand::distributions::Standard: rand::distributions::Distribution<T>
;

} // verus!
