//! A stand-in for the state of objects that callers implement.
use vstd::prelude::*;

verus! {

/// Stands for the state of an object behind one of the library's traits, as far as its
/// behaviour depends on it. An implementation numbers its states as it likes.
pub struct AbstractState(pub int);

} // verus!
