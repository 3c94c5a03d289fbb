# graphql_orm_ai

The decision core of a durable AI runtime, written in Rust and verified with
Verus. It decides who may act, what may leave the deployment, what a call may
cost, how a run proceeds, and which rows each transaction writes. It performs no
I/O: the services in `app/` read rows, call providers, and write what the
library decided.

## Layout

| Module | Decides |
| --- | --- |
| `access`, `authority`, `principal` | leases, fresh principals, and authority over protected content |
| `budget` | reservation, replay, and settlement against ceilings per period |
| `egress` | redacted, immutable records of transfer decisions |
| `coordinator`, `coordinator_trace` | the agent loop of one claimed attempt, heartbeats included |
| `checkpoints` | protected coordinator checkpoints and the adoption of a tool batch |
| `background` | background responses: submission, claims, retrieval, terminal commit |
| `compaction` | context checkpoints: boundary, chain, prompt, provenance |
| `inbox` | durable streams: append, pages, retention, subscriptions |
| `live_delta` | provisional delta events |
| `configuration` | provider profiles, credentials, protection and retention policies |
| `clock`, `decimal`, `digest`, `json`, `order`, `text`, `scope` | shared values and encodings |
| `error`, `provider`, `provider_result`, `records` | shared types |

`tests/` runs the library on concrete values. `app/` holds the asynchronous
services: stores, resolvers, and provider clients come in as traits.

## What is proved

Contracts state when each decision is refused, with which error, and exactly
what is written otherwise. Laws that span functions are public proof functions
beside the functions that they speak of. For example:

- a reservation never lifts a counter above its ceilings, and a settled one
  releases exactly what was reserved (`budget`);
- a background submission calls the provider at most once, right after its
  binding is durable, authority was checked again, and its budget is held as
  uncertain (`background`);
- an attempt consumes its checkpoint before it calls the provider, executes no
  turn and no tool twice, and makes at most one terminal write (`coordinator`,
  `coordinator_trace`);
- an adopted tool batch was proven row by row under unchanged authority
  (`checkpoints`);
- a follower of an inbox sees every event once, in order, and nothing after a
  demand to reset (`inbox`);
- the content of a persisted context checkpoint opens against the row that is
  appended with it: it covers every message of its boundary and extends the
  latest checkpoint of its own session (`compaction`).

Digests, identifiers, calendar months, URLs, and canonical JSON come from
`sha2`, `hex`, `uuid`, `time`, `url`, and `serde_json`. Each such call sits in
one small function whose contract is trusted, named in its doc comment.
