# chronos

A delayed-delivery service for Kafka. A producer sends a message carrying
two headers, `chronosMessageId` and `chronosDeadline` (an RFC 3339 date and
time). The receiver forwards a message whose deadline has passed to the
output topic at once, and parks any other message in the Postgres table
`hanger`. A processing loop marks the rows whose deadline has come as
readied by its node, publishes them with a `readied_by` header and deletes
them; a failure detector puts back rows that were readied but never
published.

Layout:

- `src/` is the library, verified with Verus: configuration readers
  (`env`, `kafka_config`, `chronos_config`, `telemetry`), header handling
  (`headers`, `pairs`, `json`), the receiver's routing and the status each
  message is counted with (`receiver`), the processor's ready query, its
  preparation of ready rows, the ids it deletes and its loop decisions
  (`processor`), the retry rule (`retry`), the back-off (`delay`), the
  topic set-up (`kafka_deploy`), the texts of the table statements
  (`pg_query`) and helpers on characters and numerals (`text`).
- `app/` is the program around it: Kafka and Postgres clients, the async
  loops, the telemetry pipelines and the metrics servers.
- `tests/` exercises the library on concrete values.
