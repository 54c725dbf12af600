use vstd::prelude::*;

use crate::datas::Data;

verus! {

/// A consumer of the messages of a queue.
pub trait Listener<M> {
    /// Handles one message, received under `key` where the queue gave one.
    fn on_message(&self, message: &M, key: Option<&str>) -> Result<(), String>;
}

/// A consumer of the messages of a queue that updates itself on each one.
pub trait MutableListener<M> {
    /// Handles one message, received under `key` where the queue gave one.
    fn on_message(&mut self, message: &M, key: Option<&str>) -> Result<(), String>;
}

/// A listener that accepts every text payload.
pub struct CmdTestListener {}

impl Listener<Data<String>> for CmdTestListener {
    /// Accepts the message.
    fn on_message(&self, message: &Data<String>, key: Option<&str>) -> (r: Result<(), String>)
        ensures
            r is Ok,
    {
        Ok(())
    }
}

} // verus!
