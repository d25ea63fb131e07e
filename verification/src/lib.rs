//! Decision core of a software-factory kernel.
//!
//! The library holds every rule the kernel applies to its durable rows: which
//! commands are admitted, what each one writes, which receipt answers it, how
//! bytes are framed, hashed and encoded, and what the scheduler does next. It
//! performs no I/O. A caller reads rows, hands them over as plain values, and
//! carries out the plan that comes back.

pub mod assignment;
pub mod audit;
pub mod base64;
pub mod campaign;
pub mod digest;
pub mod encoding;
pub mod error;
pub mod evidence_closure;
pub mod identity;
pub mod json;
pub mod packet;
pub mod path;
pub mod process_custody;
pub mod product;
pub mod protocol;
pub mod provider_effect;
pub mod publication;
pub mod restart_recovery;
pub mod restore;
pub mod scheduler;
pub mod session;
pub mod session_rpc;
pub mod session_runtime;
pub mod session_state;
pub mod storage;
pub mod terminal;
pub mod text;
pub mod ticket;
pub mod ticket_commands;
pub mod ticket_status;
pub mod ticket_transitions;
