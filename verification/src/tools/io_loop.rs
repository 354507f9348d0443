//! The copy loop of the `l2cat` and `rfcat` tools, which forwards data
//! between a Bluetooth stream and a local input and output, as a state
//! machine: the driver reads, writes and closes; this module decides.
use vstd::prelude::*;

verus! {

/// Which ends of the loop are still open.
#[derive(Clone, Copy, Debug, PartialEq, Eq, Structural)]
pub struct IoState {
    /// The stream's read half (data from the remote device).
    pub remote_read: bool,
    /// The stream's write half (data to the remote device).
    pub remote_write: bool,
    /// The local input.
    pub local_read: bool,
    /// The local output.
    pub local_write: bool,
}

/// How the loop was started.
#[derive(Clone, Copy, Debug, PartialEq, Eq, Structural)]
pub struct IoConfig {
    /// The local ends are the process's standard input and output, which
    /// are closed when their direction ends.
    pub is_std: bool,
    /// Stop as soon as the remote device stops sending.
    pub remote_read_required: bool,
    /// Stop as soon as the local input ends.
    pub local_read_required: bool,
}

/// What happened in one round of the loop.
#[derive(Clone, Copy, Debug, PartialEq, Eq, Structural)]
pub enum IoEvent {
    /// Data came from the remote device.
    RemoteData,
    /// The remote read ended (end of stream or error).
    RemoteEnd,
    /// Data came from the local input.
    LocalData,
    /// The local input ended (end of file or error).
    LocalEnd,
    /// Writing received data to the local output failed.
    LocalWriteFailed,
    /// Writing local data to the remote device failed.
    RemoteWriteFailed,
}

/// What the driver does next.
#[derive(Clone, Copy, Debug, PartialEq, Eq, Structural)]
pub enum IoAction {
    /// Write the received data to the local output and flush it.
    WriteLocal,
    /// Write the local data to the remote device.
    WriteRemote,
    /// Close the process's standard output.
    CloseStdout,
    /// Close the process's standard input.
    CloseStdin,
    /// Nothing.
    Nothing,
}

/// All ends are open at the start.
pub fn io_start() -> (r: IoState)
    ensures
        r.remote_read && r.remote_write && r.local_read && r.local_write,
{
    IoState { remote_read: true, remote_write: true, local_read: true, local_write: true }
}

/// The loop goes on: some read end is open and no required one has
/// closed.
pub open spec fn io_running(cfg: IoConfig, st: IoState) -> bool {
    &&& st.remote_read || st.local_read
    &&& !(cfg.remote_read_required && !st.remote_read)
    &&& !(cfg.local_read_required && !st.local_read)
}

/// Whether the loop goes on.
pub fn io_continues(cfg: IoConfig, st: IoState) -> (r: bool)
    ensures
        r == io_running(cfg, st),
{
    if !(st.remote_read || st.local_read) {
        return false;
    }
    if cfg.remote_read_required && !st.remote_read {
        return false;
    }
    if cfg.local_read_required && !st.local_read {
        return false;
    }
    true
}

/// The event can happen in this state: data and ends come only from open
/// read ends, and a write fails only on an open end.
pub open spec fn io_event_possible(st: IoState, ev: IoEvent) -> bool {
    match ev {
        IoEvent::RemoteData | IoEvent::RemoteEnd => st.remote_read,
        IoEvent::LocalData | IoEvent::LocalEnd => st.local_read,
        IoEvent::LocalWriteFailed => st.remote_read && st.local_write,
        IoEvent::RemoteWriteFailed => st.local_read && st.remote_write,
    }
}

/// Number of open read ends.
pub open spec fn open_reads(st: IoState) -> nat {
    (if st.remote_read { 1nat } else { 0nat }) + (if st.local_read { 1nat } else { 0nat })
}

/// The state after an event and what the driver does.
///
/// Received remote data is written to the local output; local data to the
/// remote device.  When the remote read ends, the remote read end and the
/// local output close (standard output is closed); when the local input
/// ends, it and the remote write end close.  A failed local write stops
/// the remote reads; a failed remote write stops the local reads (standard
/// input is closed).
pub open spec fn io_next(cfg: IoConfig, st: IoState, ev: IoEvent) -> (IoState, IoAction) {
    match ev {
        IoEvent::RemoteData => (st, IoAction::WriteLocal),
        IoEvent::LocalData => (st, IoAction::WriteRemote),
        IoEvent::RemoteEnd => (
            IoState { remote_read: false, local_write: false, ..st },
            if cfg.is_std { IoAction::CloseStdout } else { IoAction::Nothing },
        ),
        IoEvent::LocalEnd => (IoState { local_read: false, remote_write: false, ..st }, IoAction::Nothing),
        IoEvent::LocalWriteFailed => (IoState { remote_read: false, ..st }, IoAction::Nothing),
        IoEvent::RemoteWriteFailed => (
            IoState { local_read: false, ..st },
            if cfg.is_std { IoAction::CloseStdin } else { IoAction::Nothing },
        ),
    }
}

/// One step of the loop: the new state and what to do.
pub fn io_step(cfg: IoConfig, st: IoState, ev: IoEvent) -> (r: (IoState, IoAction))
    requires
        io_event_possible(st, ev),
    ensures
        r == io_next(cfg, st, ev),
{
    match ev {
        IoEvent::RemoteData => (st, IoAction::WriteLocal),
        IoEvent::LocalData => (st, IoAction::WriteRemote),
        IoEvent::RemoteEnd => {
            let next = IoState { remote_read: false, local_write: false, ..st };
            (next, if cfg.is_std { IoAction::CloseStdout } else { IoAction::Nothing })
        },
        IoEvent::LocalEnd => (IoState { local_read: false, remote_write: false, ..st }, IoAction::Nothing),
        IoEvent::LocalWriteFailed => (IoState { remote_read: false, ..st }, IoAction::Nothing),
        IoEvent::RemoteWriteFailed => {
            let next = IoState { local_read: false, ..st };
            (next, if cfg.is_std { IoAction::CloseStdin } else { IoAction::Nothing })
        },
    }
}

/// Ends that close stay closed, the number of open read ends never grows,
/// and every end event or failed write closes a read end; so the loop
/// stops after at most two such events.
pub proof fn lemma_io_step_monotone(cfg: IoConfig, st: IoState, ev: IoEvent)
    requires
        io_event_possible(st, ev),
    ensures
        ({
            let next = io_next(cfg, st, ev).0;
            &&& next.remote_read ==> st.remote_read
            &&& next.remote_write ==> st.remote_write
            &&& next.local_read ==> st.local_read
            &&& next.local_write ==> st.local_write
            &&& open_reads(next) <= open_reads(st)
            &&& !(ev == IoEvent::RemoteData || ev == IoEvent::LocalData) ==> open_reads(next) < open_reads(st)
            &&& open_reads(next) == 0 ==> !io_running(cfg, next)
        }),
{
}

/// Received data is never written to a closed local output, and local
/// data never to a closed remote end: the loop keeps the local output open
/// while the remote read end is open, and the remote write end open while
/// the local input is open.
pub open spec fn io_consistent(st: IoState) -> bool {
    &&& st.remote_read ==> st.local_write
    &&& st.local_read ==> st.remote_write
}

/// The start state is consistent, every step keeps the ends consistent,
/// and the writes that a step asks for go to an open end.
pub proof fn lemma_io_step_consistent(cfg: IoConfig, st: IoState, ev: IoEvent)
    requires
        io_consistent(st),
        io_event_possible(st, ev),
    ensures
        io_consistent(io_next(cfg, st, ev).0),
        io_next(cfg, st, ev).1 == IoAction::WriteLocal ==> io_next(cfg, st, ev).0.local_write,
        io_next(cfg, st, ev).1 == IoAction::WriteRemote ==> io_next(cfg, st, ev).0.remote_write,
        io_consistent(IoState { remote_read: true, remote_write: true, local_read: true, local_write: true }),
{
}

/// When the local input ends, its read end and the stream's write half
/// close (the remote device sees the end of the stream) and nothing else
/// changes; when the remote device stops sending, the stream's read half
/// and the local output close (standard output is closed when the loop
/// runs on it) and nothing else changes.
pub proof fn lemma_io_ends_close_their_writes(cfg: IoConfig, st: IoState)
    ensures
        ({
            let (next, action) = io_next(cfg, st, IoEvent::LocalEnd);
            &&& !next.local_read && !next.remote_write
            &&& next.remote_read == st.remote_read && next.local_write == st.local_write
            &&& action == IoAction::Nothing
        }),
        ({
            let (next, action) = io_next(cfg, st, IoEvent::RemoteEnd);
            &&& !next.remote_read && !next.local_write
            &&& next.local_read == st.local_read && next.remote_write == st.remote_write
            &&& (action == IoAction::CloseStdout) == cfg.is_std
            &&& !cfg.is_std ==> action == IoAction::Nothing
        }),
{
}

/// A failed write to the local output stops the reads from the remote
/// device and nothing else; a failed write to the remote device stops the
/// reads from the local input (standard input is closed when the loop runs
/// on it) and nothing else.
pub proof fn lemma_io_failed_writes(cfg: IoConfig, st: IoState)
    ensures
        ({
            let (next, action) = io_next(cfg, st, IoEvent::LocalWriteFailed);
            &&& !next.remote_read
            &&& next.local_read == st.local_read && next.remote_write == st.remote_write
            &&& next.local_write == st.local_write
            &&& action == IoAction::Nothing
        }),
        ({
            let (next, action) = io_next(cfg, st, IoEvent::RemoteWriteFailed);
            &&& !next.local_read
            &&& next.remote_read == st.remote_read && next.remote_write == st.remote_write
            &&& next.local_write == st.local_write
            &&& (action == IoAction::CloseStdin) == cfg.is_std
            &&& !cfg.is_std ==> action == IoAction::Nothing
        }),
{
}

/// The loop runs while both inputs are open, and stops once both have
/// closed or a required one has.
pub proof fn lemma_io_running(cfg: IoConfig, st: IoState)
    ensures
        (st.remote_read && st.local_read) ==> io_running(cfg, st),
        (!st.remote_read && !st.local_read) ==> !io_running(cfg, st),
        (cfg.remote_read_required && !st.remote_read) ==> !io_running(cfg, st),
        (cfg.local_read_required && !st.local_read) ==> !io_running(cfg, st),
        (!cfg.remote_read_required && !cfg.local_read_required) ==> (io_running(cfg, st) <==> (st.remote_read
            || st.local_read)),
{
}

/// Data moves without closing anything: received data is written to the
/// local output, local data to the remote device.
pub proof fn lemma_io_data_forwarded(cfg: IoConfig, st: IoState)
    ensures
        io_next(cfg, st, IoEvent::RemoteData) == (st, IoAction::WriteLocal),
        io_next(cfg, st, IoEvent::LocalData) == (st, IoAction::WriteRemote),
{
}

/// Size of the receive buffers: the stream's receive MTU when it can be
/// queried, else 8192 bytes.
pub fn io_buffer_size(recv_mtu: Option<u16>) -> (r: usize)
    ensures
        recv_mtu matches Some(m) ==> r == m,
        recv_mtu is None ==> r == 8192,
{
    match recv_mtu {
        Some(m) => m as usize,
        None => 8192,
    }
}

} // verus!
