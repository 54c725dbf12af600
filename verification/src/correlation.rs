use vstd::prelude::*;

verus! {

/// A message that names the conversation it belongs to.
pub trait CanGetCorrelationId {
    /// The correlation id that the message carries.
    spec fn correlation_id_view(&self) -> Seq<char>;

    /// Returns the correlation id of the message.
    fn get_correlation_id(&self) -> (id: String)
        ensures
            id@ == self.correlation_id_view(),
    ;
}

} // verus!
