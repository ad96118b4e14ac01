# armature_azure

Microsoft Azure services integration, written in Verus. Every function in `src/` is verified against
its contract, except for the small wrappers around outside crates, whose contracts are trusted.

- `src/` decides and computes, without I/O. `config` and `services` hold the configuration and the
  container of service clients; `servicebus` signs and prepares Service Bus requests and reads
  the responses; `laws` states what holds of the library as a whole.
- The wrappers stand in `src/encoding.rs`, `src/headers.rs` and `src/uri.rs`, marked
  `external_body`. Each says in its comment what it claims of the outside function. `src/config.rs`,
  `src/error.rs` and `src/headers.rs` declare outside types.
- `app/` does the I/O: it reads the environment, builds the Azure SDK clients, sends the requests
  and (de)serializes.
- `tests/` runs the library with the real outside crates.

A request is prepared, sent by the caller, and its response handed back:

```rust
let client = ServiceBusClient::from_connection_string(conn)?;
// There is no room for a queue whose URLs would take more than 4 GiB.
let queue = client.queue_if_room("orders").expect("room")?;
let request = queue.peek_lock(None, now)?;
// send it, then:
let head = queue.peek_lock_response(status, &headers)?;
let locked = head.finish(broker_properties, body)?;
let complete = locked.delete_message(now)?;
```

Service Bus authenticates with a Shared Access Signature. A signature goes to the configured
endpoint alone, over `https`, or over `http` on this machine.
