use vstd::prelude::*;
use vstd::string::*;

use crate::compute::CanComputeCommand;
use crate::correlation::CanGetCorrelationId;
use crate::queue_synchronizer::WaitRequest;
use crate::read_write::ListenerReadWrite;
use crate::settings::local_broker;

verus! {

/// The command of the example engine.
#[derive(Debug, Clone)]
pub struct ExCmd {
    pub nom: String,
    pub prenom: String,
    pub correlation_id: String,
}

impl CanGetCorrelationId for ExCmd {
    open spec fn correlation_id_view(&self) -> Seq<char> {
        self.correlation_id@
    }

    /// The correlation id is the `correlation_id` field, whole.
    fn get_correlation_id(&self) -> (id: String)
        ensures
            id@ == self.correlation_id@,
    {
        self.correlation_id.clone()
    }
}

/// The record that the example engine answers a command with.
#[derive(Debug, Clone)]
pub struct ExResultRecord {
    pub nom: String,
    pub prenom: String,
    pub correlation_id: String,
    pub at: String,
    pub by: String,
}

impl CanGetCorrelationId for ExResultRecord {
    open spec fn correlation_id_view(&self) -> Seq<char> {
        self.correlation_id@
    }

    /// The correlation id is the `correlation_id` field, whole.
    fn get_correlation_id(&self) -> (id: String)
        ensures
            id@ == self.correlation_id@,
    {
        self.correlation_id.clone()
    }
}

/// The correlation id of a command, and that of a result record, is its
/// `correlation_id` field, whole: a reply is routed by exactly the id that
/// its record carries.
pub proof fn law_correlation_id_is_the_field(cmd: ExCmd, record: ExResultRecord)
    ensures
        cmd.correlation_id_view() == cmd.correlation_id@,
        record.correlation_id_view() == record.correlation_id@,
        record.correlation_id@ == cmd.correlation_id@ ==> record.correlation_id_view()
            == cmd.correlation_id_view(),
{
}

/// The handler of the example engine: it answers a command with a record
/// that names the same person and conversation.
pub struct ExempleComputeCommand {}

/// The text that the example handler stamps its records with.
pub open spec fn placeholder_text() -> Seq<char> {
    "whatever"@
}

/// The answer of the example handler to `cmd`: a record with the names and
/// the correlation id of the command, and placeholder `at` and `by`.
pub open spec fn example_answer(cmd: ExCmd, outcome: Result<ExResultRecord, String>) -> bool {
    outcome matches Ok(record) && record.nom == cmd.nom && record.prenom == cmd.prenom
        && record.correlation_id@ == cmd.correlation_id@ && record.at@ == placeholder_text()
        && record.by@ == placeholder_text()
}

impl CanComputeCommand<ExCmd, ExResultRecord> for ExempleComputeCommand {
    open spec fn handles(&self, cmd: ExCmd, outcome: Result<ExResultRecord, String>) -> bool {
        example_answer(cmd, outcome)
    }

    /// Copies the names and the correlation id of the command into a record,
    /// with placeholder `at` and `by`.
    fn compute_cmd(&self, cmd: &ExCmd) -> (r: Result<ExResultRecord, String>)
        ensures
            r matches Ok(record) && record.nom == cmd.nom && record.prenom == cmd.prenom
                && record.correlation_id@ == cmd.correlation_id_view() && record.at@
                == placeholder_text() && record.by@ == placeholder_text(),
    {
        Ok(
            ExResultRecord {
                nom: cmd.nom.clone(),
                prenom: cmd.prenom.clone(),
                correlation_id: cmd.get_correlation_id(),
                at: String::from_str("whatever"),
                by: String::from_str("whatever"),
            },
        )
    }
}

/// Whether `c` is a digit of a number written in lower-case hexadecimal.
pub open spec fn is_lower_hex_digit(c: char) -> bool {
    ('0' <= c && c <= '9') || ('a' <= c && c <= 'f')
}

/// Whether `s` is a UUID in its hyphenated lower-case form: five groups of
/// hexadecimal digits, of 8, 4, 4, 4 and 12 digits, parted by hyphens.
pub open spec fn is_hyphenated_uuid(s: Seq<char>) -> bool {
    &&& s.len() == 36
    &&& forall|i: int|
        0 <= i < 36 ==> if i == 8 || i == 13 || i == 18 || i == 23 {
            s[i] == '-'
        } else {
            is_lower_hex_digit(#[trigger] s[i])
        }
}

/// Whether `s` is a random (version 4, RFC 9562 variant) UUID in its
/// hyphenated lower-case form: the version digit is `4`, and the first digit
/// of the fourth group is one of `8`, `9`, `a`, `b`.
pub open spec fn is_v4_uuid_text(s: Seq<char>) -> bool {
    &&& is_hyphenated_uuid(s)
    &&& s[14] == '4'
    &&& (s[19] == '8' || s[19] == '9' || s[19] == 'a' || s[19] == 'b')
}

/// The text of the random UUID that `uuid::Builder::from_random_bytes`
/// builds from `random_bytes`, in its hyphenated lower-case form.
pub uninterp spec fn uuid_v4_text_of(random_bytes: Seq<u8>) -> Seq<char>;

/// `uuid::Builder::from_random_bytes(..).into_uuid()`, written out by the
/// `Display` impl of `Uuid`: the bytes become a UUID, with the version and
/// variant bits of a random UUID set over them, printed hyphenated and in
/// lower case. The text depends on the bytes alone; it is named, and said to
/// have the form of a random UUID.
#[verifier::external_body]
fn uuid_v4_text(random_bytes: [u8; 16]) -> (s: String)
    ensures
        s@ == uuid_v4_text_of(random_bytes@),
        is_v4_uuid_text(s@),
{
    uuid::Builder::from_random_bytes(random_bytes).into_uuid().to_string()
}

/// The topic that the example engine takes commands on.
pub open spec fn commands_topic_name() -> Seq<char> {
    "exemple-ontology-commands"@
}

/// The topic that the example engine publishes its records on.
pub open spec fn results_topic_name() -> Seq<char> {
    "exemple-ontology-results"@
}

/// The start of the consumer group of an example engine.
pub open spec fn group_id_prefix() -> Seq<char> {
    "exemple-engine-consumer-"@
}

/// What the listener of a consumer does with the messages.
#[derive(Debug, Clone, Copy, PartialEq, Eq, Structural)]
pub enum ListenerRole {
    /// Answers each command and publishes the answer.
    AnswerCommands,
    /// Hands each reply to the caller that waits on its correlation id.
    RouteReplies,
}

/// A consumer to run: it reads `topic` in the group `group_id`, with a
/// listener of the given role.
pub struct ConsumerPlan {
    pub topic: String,
    pub group_id: String,
    pub role: ListenerRole,
}

/// The wiring of the example engine: the topics of its commands and
/// records, the broker it talks to, and the consumer group that both of its
/// consumers join.
pub struct EngineExemple {
    pub commands_topic: String,
    pub results_topic: String,
    pub bootstrap_servers: String,
    pub group_id: String,
}

impl EngineExemple {
    /// An engine on the local broker whose two consumers join the group
    /// named by `group_suffix` behind the engine's prefix.
    pub fn with_group_suffix(group_suffix: &str) -> (e: Self)
        ensures
            e.commands_topic@ == commands_topic_name(),
            e.results_topic@ == results_topic_name(),
            e.bootstrap_servers@ == local_broker(),
            e.group_id@ == group_id_prefix() + group_suffix@,
    {
        let mut group_id = String::from_str("exemple-engine-consumer-");
        group_id.append(group_suffix);
        EngineExemple {
            commands_topic: String::from_str("exemple-ontology-commands"),
            results_topic: String::from_str("exemple-ontology-results"),
            bootstrap_servers: String::from_str("127.0.0.1:9092"),
            group_id,
        }
    }

    /// An engine on the local broker, in a consumer group of its own: the
    /// group is named by the random UUID built from `random_bytes`.
    pub fn new(random_bytes: [u8; 16]) -> (e: Self)
        ensures
            e.commands_topic@ == commands_topic_name(),
            e.results_topic@ == results_topic_name(),
            e.bootstrap_servers@ == local_broker(),
            e.group_id@ == group_id_prefix() + uuid_v4_text_of(random_bytes@),
            is_v4_uuid_text(uuid_v4_text_of(random_bytes@)),
    {
        let suffix = uuid_v4_text(random_bytes);
        Self::with_group_suffix(suffix.as_str())
    }

    /// Which consumers the engine runs: one on the commands topic whose
    /// listener answers the commands, and one on the results topic whose
    /// listener hands the replies to the waiting callers; both in the
    /// engine's group.
    pub fn consumer_plans(&self) -> (plans: Vec<ConsumerPlan>)
        ensures
            plans@.len() == 2,
            plans@[0].topic@ == self.commands_topic@,
            plans@[0].group_id@ == self.group_id@,
            plans@[0].role == ListenerRole::AnswerCommands,
            plans@[1].topic@ == self.results_topic@,
            plans@[1].group_id@ == self.group_id@,
            plans@[1].role == ListenerRole::RouteReplies,
    {
        let mut plans: Vec<ConsumerPlan> = Vec::new();
        plans.push(
            ConsumerPlan {
                topic: self.commands_topic.clone(),
                group_id: self.group_id.clone(),
                role: ListenerRole::AnswerCommands,
            },
        );
        plans.push(
            ConsumerPlan {
                topic: self.results_topic.clone(),
                group_id: self.group_id.clone(),
                role: ListenerRole::RouteReplies,
            },
        );
        plans
    }

    /// What offering `cmd` asks for: the command goes to the commands topic,
    /// without key, and its reply is recognised by the command's own
    /// correlation id.
    pub fn offer_request(&self, cmd: &ExCmd) -> (r: WaitRequest)
        ensures
            r.correlation_id@ == cmd.correlation_id_view(),
            r.topic@ == self.commands_topic@,
            r.key is None,
    {
        WaitRequest {
            correlation_id: cmd.get_correlation_id(),
            topic: self.commands_topic.clone(),
            key: None,
        }
    }

    /// The listener of the commands topic, which answers with `handler` on
    /// the results topic.
    pub fn read_write_listener<C>(&self, handler: C) -> (l: ListenerReadWrite<C>)
        ensures
            l.compute_cmd == handler,
            l.topic_result@ == self.results_topic@,
    {
        ListenerReadWrite { compute_cmd: handler, topic_result: self.results_topic.clone() }
    }
}

} // verus!
