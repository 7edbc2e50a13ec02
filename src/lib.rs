//! Coordination layer between a shell process and a terminal process: liveness
//! registries, the session handshake, per-session duplex event channels and the
//! fixed-layout event record with its UTF-8 chunking.

use vstd::prelude::*;

pub mod ansi_string;
pub mod ansi_string_node;
pub mod bounded_queue;
pub mod command;
pub mod escape_sequence;
pub mod ipc_channel;
pub mod ipc_context;
pub mod ipc_event;
pub mod register_info;

verus! {

/// OS name of the handshake queue of session ids.
pub const MEM_CTX: &'static str = "/t_ctx";
/// OS name prefix of a session's shell-origin event queue.
pub const MEM_QUEUE_SHELL: &'static str = "/t_sh";
/// OS name prefix of a session's terminal-origin event queue.
pub const MEM_QUEUE_TERMINAL: &'static str = "/t_tm";
/// OS names of the three registry tables.
pub const MEM_TERMINAL_REGISTER: &'static str = "/t_tm_rg";
pub const MEM_SHELL_REGISTER: &'static str = "/t_sh_rg";
pub const MEM_SESSION_REGISTER: &'static str = "/t_sn_rg";

/// Fixed payload capacity, in bytes, of every byte-carrying event.
pub const IPC_DATA_SIZE: usize = 2048;

/// Capacity of every registry table and of the handshake queue.
pub const IPC_REGISTER_SIZE: usize = 64;

/// Interval, in milliseconds, at which participants refresh their heartbeat.
pub const HEART_BEAT_INTERVAL: u64 = 100;

/// Which side of a terminal session a handle acts for.
#[derive(Debug, Clone, Copy, PartialEq, Eq, Structural)]
pub enum IpcRole {
    Shell,
    Terminal,
}

} // verus!
