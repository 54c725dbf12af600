# queue_sync

Request/response over Kafka topics, synchronised by correlation id.

A caller registers a channel under the correlation id of its command,
publishes the command, waits for the reply, and unregisters. The listener of
the reply topic hands each reply to the channel registered under the reply's
correlation id. The listener of the command topic answers each command with a
handler and publishes the answer.

- `src/` is the verified library (Verus): the registry of waiting callers
  (`subscriber`), the routing of replies (`listener_synchronizer`), the decision
  machines of a wait (`queue_synchronizer`), of a publication (`producer`) and
  of a consumer's loop (`consumer`), the answering of commands (`read_write`),
  the client settings (`settings`) and the example engine (`example`).
- `app/` is the program around it: the Kafka clients, the async plumbing and
  the JSON shapes of the messages. It performs the work that the library's
  machines ask for and hands their outcomes back.
