use vstd::prelude::*;

verus! {

/// The envelope in which a payload travels on a queue.
#[derive(Debug, Clone)]
pub struct Data<T> {
    pub data: T,
}

} // verus!
