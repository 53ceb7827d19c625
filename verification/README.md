# signal-system

The typed wire vocabulary between `router` (request side) and `system` (reply and
event side) for focus observations, verified with Verus.

- `src/vocabulary.rs`: closed enums (backend, health, readiness, operation heads, …) and
  their field wrappers.
- `src/target.rs`: observation targets and observation fields.
- `src/records.rs`: request, reply and event payload records; the Path A token laws.
- `src/channel.rs`: `SystemRequest`, `SystemReply`, `SystemEvent` and the stream
  lifecycle (which request opens, which closes, where events travel).
- `src/configuration.rs`, `src/comparisons.rs`, `src/text.rs`: the daemon startup
  configuration, its comparisons and decimal rendering.
- `app/`: the rkyv archive of the configuration, the `std::error::Error` form of archive
  failures, and `Display` wrappers.
