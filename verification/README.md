# factory_kernel

The deciding half of a factory daemon: what it records about campaigns,
assignments, sessions, tickets and publications, when it accepts a command, and
how it starts, supervises and ends the one paid actor session it runs.

Everything under `src/` is verified with Verus. A function there takes the rows
and facts that were read and the command that was given, and returns the plan to
be written or the error to be answered. Its `ensures` says which, for every
input. Properties that span functions are public proof functions whose names
begin with `law_`.

## Layout

| Modules | What they decide |
| --- | --- |
| `identity`, `digest`, `encoding`, `base64`, `text`, `path`, `json` | identities, digests, byte encodings, text and paths |
| `error`, `audit`, `protocol` | the errors, receipts and idempotent replay, stored codes and their names |
| `storage`, `restore` | builds, repositories, applications and artifacts; what a restored database has to satisfy |
| `campaign`, `assignment`, `packet`, `session`, `terminal` | the life of a campaign and of one session in it, down to its cost |
| `provider_effect` | the ledger of paid provider requests |
| `process_custody`, `session_runtime`, `session_state`, `session_rpc`, `evidence_closure` | the child process, the launch, the actor's requests and what it may read |
| `restart_recovery` | what a restarted daemon does about a session it finds running |
| `product` | one product proposal, its reproducer and its manifest |
| `ticket`, `ticket_commands`, `ticket_transitions`, `ticket_status` | tickets, their attempts and the ticket buffer |
| `scheduler` | the next ticket action of a campaign |
| `publication` | durable publications and their anchors |

`app/` is ordinary Rust around the library: PostgreSQL, files, child processes,
sockets and channels. Its SQL selects the rows that are read; what follows from
them it asks the library, and then performs the step or writes the plan that the
library answered with.

`tests/` runs the library on concrete values.

## Conventions

* A command goes through `admit_*` (its key is well formed, and a receipt that
  already answers it is found), a function named like the command (the plan),
  and `*_receipt` or `replayed_*` (the answer).
* A fingerprint is the BLAKE3 digest of a preimage that a spec function spells
  out byte by byte. A law says that the preimage determines the command.
* A `*_fault` spec function gives the error a command is refused with, or none.
* Durations are nanoseconds and paths are bytes.

## What is trusted

The contracts of a few outside functions are believed, each next to the call:
`blake3::hash`, `miniserde::json::from_str` and `miniserde::json::to_string`,
and from std `str::from_utf8`, `String::from_utf8_lossy`, `String::push`,
`str::to_lowercase` and `char::is_alphanumeric`.
