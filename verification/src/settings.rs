use vstd::prelude::*;
use vstd::string::*;

verus! {

/// The address of the queue's broker.
pub open spec fn local_broker() -> Seq<char> {
    "127.0.0.1:9092"@
}

/// The texts of a list of client settings.
pub open spec fn settings_view(settings: Seq<(String, String)>) -> Seq<(Seq<char>, Seq<char>)> {
    settings.map_values(|p: (String, String)| (p.0@, p.1@))
}

fn setting(name: &str, value: &str) -> (p: (String, String))
    ensures
        p.0@ == name@,
        p.1@ == value@,
{
    (String::from_str(name), String::from_str(value))
}

/// The settings of a consumer in `group_id`: it joins that group, talks to
/// the local broker, and reads a topic from its start where the group has no
/// position yet.
pub fn consumer_settings(group_id: &str) -> (s: Vec<(String, String)>)
    ensures
        settings_view(s@) == seq![
            ("group.id"@, group_id@),
            ("bootstrap.servers"@, local_broker()),
            ("auto.offset.reset"@, "earliest"@),
        ],
{
    let mut s: Vec<(String, String)> = Vec::new();
    s.push(setting("group.id", group_id));
    s.push(setting("bootstrap.servers", "127.0.0.1:9092"));
    s.push(setting("auto.offset.reset", "earliest"));
    assert(settings_view(s@) =~= seq![
        ("group.id"@, group_id@),
        ("bootstrap.servers"@, local_broker()),
        ("auto.offset.reset"@, "earliest"@),
    ]);
    s
}

/// The settings of a producer that talks to the brokers at `servers`.
pub fn producer_settings(servers: &str) -> (s: Vec<(String, String)>)
    ensures
        settings_view(s@) == seq![("bootstrap.servers"@, servers@)],
{
    let mut s: Vec<(String, String)> = Vec::new();
    s.push(setting("bootstrap.servers", servers));
    assert(settings_view(s@) =~= seq![("bootstrap.servers"@, servers@)]);
    s
}

} // verus!
