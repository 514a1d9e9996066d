# router_scheduler

Two pieces of a payment router, with their behaviour stated as Verus
contracts and proved:

* the Coinbase Commerce connector's transformations (`src/coinbase.rs`,
  over the router data of `src/router_types.rs`): the charge request built
  from an authorization, the payment status and redirection taken from a
  charge, credentials, and the (unsupported) refund paths;
* the process-tracker scheduler: cutting tasks into batches
  (`src/batching.rs`), retry schedules (`src/retry_schedule.rs`), and the
  decisions of handing a batch to a stream, taking batches off a stream and
  working under the producer's lock (`src/stream_append.rs`,
  `src/stream_fetch.rs`, `src/producer_lock.rs`), each a step function from
  stage and store outcome to the next stage and action.

Times are held as nanoseconds since the Unix epoch (`src/timestamp.rs`).

`app/` holds what stays outside the verified library: the serde shapes of
Coinbase's JSON messages, `error_stack` reports, and the asynchronous
drivers that perform the store operations the step functions ask for.
