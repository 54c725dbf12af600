use vstd::prelude::*;

use crate::compute::CanComputeCommand;
use crate::datas::Data;
use crate::text::{opt_str, opt_string, own_text};

verus! {

/// A message to publish: `data` goes to `topic`, under `key` where there is
/// one.
pub struct Publication<R> {
    pub topic: String,
    pub data: Data<R>,
    pub key: Option<String>,
}

/// The listener of the command topic: it answers each command with the
/// record that `compute_cmd` computes, published on `topic_result` under the
/// key of the command.
pub struct ListenerReadWrite<C> {
    pub compute_cmd: C,
    pub topic_result: String,
}

/// Whether `r` is what answers a command whose handling gave `computed`,
/// received under `key`: the record, published on `topic_result` under the
/// same key; or the handling's error, and nothing is published.
pub open spec fn answers<R>(
    topic_result: Seq<char>,
    computed: Result<R, String>,
    key: Option<Seq<char>>,
    r: Result<Publication<R>, String>,
) -> bool {
    match computed {
        Ok(record) => r matches Ok(p) && p.topic@ == topic_result && p.data.data == record
            && opt_string(p.key) == key,
        Err(e) => r == Err::<Publication<R>, String>(e),
    }
}

impl<C> ListenerReadWrite<C> {
    /// What answers a command whose handling gave `computed`: the record,
    /// published on the result topic under `key`; or the handling's error,
    /// and nothing is published.
    pub fn answer_with<R>(&self, computed: Result<R, String>, key: Option<&str>) -> (r: Result<
        Publication<R>,
        String,
    >)
        ensures
            answers(self.topic_result@, computed, opt_str(key), r),
            computed is Ok ==> (r matches Ok(p) && p.topic@ == self.topic_result@ && Some(p.data.data)
                == computed.ok()),
            computed is Err ==> r == Err::<Publication<R>, String>(computed->Err_0),
    {
        match computed {
            Ok(record) => Ok(
                Publication {
                    topic: self.topic_result.clone(),
                    data: Data { data: record },
                    key: own_text(key),
                },
            ),
            Err(e) => Err(e),
        }
    }

    /// Handles `message`, received under `key`, and says what to publish:
    /// the answer to one outcome that the handler may give to the message.
    pub fn answer<CMD, R>(&self, message: &CMD, key: Option<&str>) -> (r: Result<Publication<R>, String>)
        where
            C: CanComputeCommand<CMD, R>,
        ensures
            r matches Ok(p) ==> p.topic@ == self.topic_result@ && opt_string(p.key) == opt_str(key),
            exists|computed: Result<R, String>|
                #[trigger] self.compute_cmd.handles(*message, computed) && answers(
                    self.topic_result@,
                    computed,
                    opt_str(key),
                    r,
                ),
    {
        let computed = self.compute_cmd.compute_cmd(message);
        let ghost outcome = computed;
        let r = self.answer_with(computed, key);
        assert(self.compute_cmd.handles(*message, outcome));
        r
    }
}

/// A command that the handler answers is published on the result topic,
/// whatever its key, with the handler's record as the envelope's data and
/// under the command's own key; two commands answered with the same record
/// under different keys differ in the key alone; a handler's error is passed
/// on as it is.
pub proof fn law_answer_goes_to_result_topic<R>(
    topic_result: Seq<char>,
    record: R,
    error: String,
    key: Option<Seq<char>>,
    other_key: Option<Seq<char>>,
    r: Result<Publication<R>, String>,
    other: Result<Publication<R>, String>,
    failed: Result<Publication<R>, String>,
)
    requires
        answers(topic_result, Ok(record), key, r),
        answers(topic_result, Ok(record), other_key, other),
        answers(topic_result, Err(error), key, failed),
    ensures
        r matches Ok(p) && p.topic@ == topic_result && p.data.data == record && opt_string(p.key)
            == key,
        other matches Ok(q) && q.topic@ == topic_result && q.data.data == record,
        r->Ok_0.topic@ == other->Ok_0.topic@,
        failed == Err::<Publication<R>, String>(error),
{
}

} // verus!
