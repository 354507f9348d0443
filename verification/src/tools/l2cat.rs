//! The decisions of `l2cat`, the tool for arbitrary L2CAP connections and
//! listens: the socket addresses it binds, listens on and connects to, the
//! copy-loop settings of each mode, and what it prints.
use vstd::prelude::*;
use crate::{Address, AddressType, address_text};
use crate::l2cap::{zero_address, SocketAddr};
use crate::text::{dec_string, owned, push_dec};
use crate::tools::io_loop::IoConfig;

verus! {

/// UUID of the service that `l2cat` advertises while listening.
pub const SERVICE_UUID: u128 = 0xdb9517c5d364d6fa1160931502091984;

/// The address type of the tool's sockets: classic with `--br-edr`, else
/// LE public.
pub open spec fn tool_address_type(br_edr: bool) -> AddressType {
    if br_edr {
        AddressType::BrEdr
    } else {
        AddressType::Public
    }
}

/// The local address to bind and the peer address to connect to: the
/// given local adapter with PSM 0, or any local adapter of the transport;
/// the peer with the target PSM.
pub fn connect_addresses(bind: Option<Address>, br_edr: bool, address: Address, psm: u16) -> (r: (
    SocketAddr,
    SocketAddr,
))
    ensures
        bind matches Some(b) ==> r.0.addr == b,
        bind is None ==> r.0.addr@ == zero_address(),
        r.0.addr_type == tool_address_type(br_edr),
        r.0.psm == 0 && r.0.cid == 0,
        r.1.addr == address && r.1.addr_type == tool_address_type(br_edr) && r.1.psm == psm && r.1.cid == 0,
{
    let addr_type = if br_edr {
        AddressType::BrEdr
    } else {
        AddressType::Public
    };
    let local_sa = match bind {
        Some(bind_addr) => SocketAddr::new(bind_addr, addr_type, 0),
        None => if br_edr {
            SocketAddr::any_br_edr()
        } else {
            SocketAddr::any_le()
        },
    };
    let peer_sa = SocketAddr::new(address, addr_type, psm);
    (local_sa, peer_sa)
}

/// The address to listen on: the given local adapter or any, with the
/// requested PSM (0 allocates one).
pub fn listen_address(bind: Option<Address>, br_edr: bool, psm: u16) -> (r: SocketAddr)
    ensures
        bind matches Some(b) ==> r.addr == b,
        bind is None ==> r.addr@ == zero_address(),
        r.addr_type == tool_address_type(br_edr),
        r.psm == psm && r.cid == 0,
{
    let addr_type = if br_edr {
        AddressType::BrEdr
    } else {
        AddressType::Public
    };
    let addr = match bind {
        Some(b) => b,
        None => {
            let a = Address::any();
            assert(a@ =~= zero_address());
            a
        },
    };
    SocketAddr::new(addr, addr_type, psm)
}

/// The `listen` mode prints the allocated PSM when verbose and the PSM was
/// left to the system.
pub fn listen_shows_psm(verbose: bool, psm: u16) -> (r: bool)
    ensures
        r == (verbose && psm == 0),
{
    verbose && psm == 0
}

/// The `serve` mode prints the allocated PSM when verbose (the flag prints
/// the listen address) and the PSM was left to the system.
pub fn serve_shows_psm(verbose: bool, psm: u16) -> (r: bool)
    ensures
        r == (verbose && psm == 0),
{
    verbose && psm == 0
}

/// The tools print `Connected from <address>` for an accepted connection
/// when verbose.
pub fn shows_connected(verbose: bool) -> (r: bool)
    ensures
        r == verbose,
{
    verbose
}

/// `Listening on PSM <psm>`.
pub fn listening_notice(psm: u16) -> (r: String)
    ensures
        r@ == "Listening on PSM "@ + dec_string(psm as nat),
{
    let mut s = owned("Listening on PSM ");
    push_dec(&mut s, psm as u64);
    s
}

/// `Connected from <address>`.
pub fn connected_notice(addr: Address) -> (r: String)
    ensures
        r@ == "Connected from "@ + address_text(addr@),
{
    let mut s = owned("Connected from ");
    let a = addr.to_string();
    s.append(a.as_str());
    s
}

/// `Cannot execute <program>: <error>`.
pub fn spawn_failed_notice(program: &str, err: &str) -> (r: String)
    ensures
        r@ == "Cannot execute "@ + program@ + ": "@ + err@,
{
    let mut s = owned("Cannot execute ");
    s.append(program);
    s.append(": ");
    s.append(err);
    s
}

/// The terminal is switched to raw mode when input is a terminal and raw
/// mode was asked for.
pub fn use_raw_mode(is_tty: bool, raw: bool) -> (r: bool)
    ensures
        r == (is_tty && raw),
{
    is_tty && raw
}

/// Copy-loop settings of `connect`: standard input and output; it stops
/// when the remote side stops sending only when input is a terminal, and
/// when the input ends.
pub fn connect_io_config(is_tty: bool) -> (r: IoConfig)
    ensures
        r == (IoConfig { is_std: true, remote_read_required: is_tty, local_read_required: true }),
{
    IoConfig { is_std: true, remote_read_required: is_tty, local_read_required: true }
}

/// Copy-loop settings of `listen`: standard input and output; it stops
/// when either side ends.
pub fn listen_io_config() -> (r: IoConfig)
    ensures
        r == (IoConfig { is_std: true, remote_read_required: true, local_read_required: true }),
{
    IoConfig { is_std: true, remote_read_required: true, local_read_required: true }
}

/// Copy-loop settings of `serve`: the program's pipes; it stops when the
/// remote side stops sending.
pub fn serve_io_config() -> (r: IoConfig)
    ensures
        r == (IoConfig { is_std: false, remote_read_required: true, local_read_required: false }),
{
    IoConfig { is_std: false, remote_read_required: true, local_read_required: false }
}

/// Whether `serve` accepts another connection after one: always when the
/// program could not be started, else unless it serves one connection
/// only.
pub fn serve_continues(one_shot: bool, spawned: bool) -> (r: bool)
    ensures
        r == (!spawned || !one_shot),
{
    !spawned || !one_shot
}

/// The exit status of the tool: 0 on success, 2 after an error.
pub fn exit_code(ok: bool) -> (r: i32)
    ensures
        ok ==> r == 0,
        !ok ==> r == 2,
{
    if ok {
        0
    } else {
        2
    }
}

/// `Error: <message>`, printed before exiting with an error.
pub fn error_notice(message: &str) -> (r: String)
    ensures
        r@ == "Error: "@ + message@,
{
    let mut s = owned("Error: ");
    s.append(message);
    s
}

} // verus!
