//! The decisions of `rfcat`, the tool for arbitrary RFCOMM connections and
//! listens: whether a channel or a profile is used, the profiles it
//! registers, which connection requests it accepts, and the sliding window
//! of its speed test.
use vstd::prelude::*;
use crate::Address;
use crate::adapter::AdapterEvent;
use crate::rfcomm::SocketAddr;
use crate::rfcomm::profile::{Channel, Profile, Role};
use crate::text::{dec_string, owned, push_dec};

verus! {

/// UUID of the serial port service class, the profile used when none is
/// given.
pub const SERIAL_PORT_UUID: u128 = 0x00001101_0000_1000_8000_00805f9b34fb;

/// Where an RFCOMM connection is made.
#[derive(Clone, Copy, Debug, PartialEq, Eq, Structural)]
pub enum Endpoint {
    /// A socket on a known channel.
    Channel(u8),
    /// A registered profile with the given UUID.
    Profile(u128),
}

/// The endpoint of the options: a channel without a profile, or a profile
/// (the serial port when none is given) without a channel; `None` when
/// both are given, which the tool refuses with "either channel or profile
/// must be specified".
pub fn endpoint(channel: Option<u8>, profile: Option<u128>) -> (r: Option<Endpoint>)
    ensures
        (channel, profile) matches (Some(c), None) ==> r == Some(Endpoint::Channel(c)),
        channel is None ==> r == Some(Endpoint::Profile(
            match profile {
                Some(u) => u,
                None => SERIAL_PORT_UUID,
            },
        )),
        channel is Some && profile is Some ==> r is None,
{
    match (channel, profile) {
        (Some(c), None) => Some(Endpoint::Channel(c)),
        (None, p) => Some(Endpoint::Profile(
            match p {
                Some(u) => u,
                None => SERIAL_PORT_UUID,
            },
        )),
        _ => None,
    }
}

/// The local address to bind and the peer address of a channel

/// The choice of a channel or a profile for `connect`, `listen` and
/// `serve`, or the refusal when both are given: the message "either
/// channel or profile must be specified" and exit status 1.
pub fn endpoint_or_refusal(channel: Option<u8>, profile: Option<u128>) -> (r: Result<Endpoint, (&'static str, i32)>)
    ensures
        (channel, profile) matches (Some(c), None) ==> r == Ok::<Endpoint, (&'static str, i32)>(Endpoint::Channel(c)),
        channel is None ==> r == Ok::<Endpoint, (&'static str, i32)>(Endpoint::Profile(
            match profile {
                Some(u) => u,
                None => SERIAL_PORT_UUID,
            },
        )),
        channel is Some && profile is Some ==> (r matches Err((m, code)) && m@
            == "either channel or profile must be specified"@ && code == 1),
{
    match endpoint(channel, profile) {
        Some(e) => Ok(e),
        None => Err(("either channel or profile must be specified", 1)),
    }
}

/// `listen` prints the allocated channel when verbose and the channel was
/// left to the system.
pub fn listen_shows_channel(verbose: bool, channel: u8) -> (r: bool)
    ensures
        r == (verbose && channel == 0),
{
    verbose && channel == 0
}

/// `listen` and `serve` print `Connected from <address>` for an accepted
/// connection when verbose.
pub fn shows_connected(verbose: bool) -> (r: bool)
    ensures
        r == verbose,
{
    verbose
}

/// connection.
pub fn connect_addresses(bind: Option<Address>, address: Address, channel: u8) -> (r: (SocketAddr, SocketAddr))
    ensures
        bind matches Some(b) ==> r.0.addr == b,
        bind is None ==> r.0.addr@ == crate::l2cap::zero_address(),
        r.0.channel == 0,
        r.1.addr == address && r.1.channel == channel,
{
    let local_sa = match bind {
        Some(b) => SocketAddr::new(b, 0),
        None => SocketAddr::any(),
    };
    (local_sa, SocketAddr::new(address, channel))
}

/// The address to listen on: the given local adapter or any, with the
/// requested channel (0 allocates one).
pub fn listen_address(bind: Option<Address>, channel: u8) -> (r: SocketAddr)
    ensures
        bind matches Some(b) ==> r.addr == b,
        bind is None ==> r.addr@ == crate::l2cap::zero_address(),
        r.channel == channel,
{
    match bind {
        Some(b) => SocketAddr::new(b, channel),
        None => {
            let a = SocketAddr::any();
            SocketAddr::new(a.addr, channel)
        },
    }
}

/// A profile registered by the tool: the given name and role, no
/// authentication and no authorization.
pub open spec fn tool_profile(p: Profile, uuid: u128, name: Seq<char>, role: Role, channel: Channel, auto_connect: Option<bool>) -> bool {
    &&& p.uuid == uuid
    &&& p.name matches Some(n) && n@ == name
    &&& p.service is None
    &&& p.role == Some(role)
    &&& p.channel == channel
    &&& p.psm is None
    &&& p.require_authentication == Some(false)
    &&& p.require_authorization == Some(false)
    &&& p.auto_connect == auto_connect
    &&& p.service_record is None
    &&& p.version is None
    &&& p.features is None
}

fn make_profile(uuid: u128, name: &str, role: Role, channel: Channel, auto_connect: Option<bool>) -> (r: Profile)
    ensures
        tool_profile(r, uuid, name@, role, channel, auto_connect),
{
    Profile {
        uuid,
        name: Some(owned(name)),
        service: None,
        role: Some(role),
        channel,
        psm: None,
        require_authentication: Some(false),
        require_authorization: Some(false),
        auto_connect,
        service_record: None,
        version: None,
        features: None,
    }
}

/// The profile of `connect`: a client that connects automatically.
pub fn client_profile(uuid: u128) -> (r: Profile)
    ensures
        tool_profile(r, uuid, "rfcat client"@, Role::Client, Channel::Unspecified, Some(true)),
{
    make_profile(uuid, "rfcat client", Role::Client, Channel::Unspecified, Some(true))
}

/// The profile of `listen`: a server on an allocated channel.
pub fn listener_profile(uuid: u128) -> (r: Profile)
    ensures
        tool_profile(r, uuid, "rfcat listener"@, Role::Server, Channel::Auto, None),
{
    make_profile(uuid, "rfcat listener", Role::Server, Channel::Auto, None)
}

/// The profile of `serve`: a server on an allocated channel that connects
/// automatically.
pub fn server_profile(uuid: u128) -> (r: Profile)
    ensures
        tool_profile(r, uuid, "rfcat server"@, Role::Server, Channel::Auto, Some(true)),
{
    make_profile(uuid, "rfcat server", Role::Server, Channel::Auto, Some(true))
}

/// Discovery ends once the target device has been added.
pub fn is_target_added(ev: AdapterEvent, target: Address) -> (r: bool)
    ensures
        r == (ev matches AdapterEvent::DeviceAdded(a) && a@ == target@),
{
    match ev {
        AdapterEvent::DeviceAdded(a) => a == target,
        AdapterEvent::DeviceRemoved(_) => false,
    }
}

/// A connection request is accepted exactly when it comes from the target
/// device; others are rejected.
pub fn accepts_request(device: Address, target: Address) -> (r: bool)
    ensures
        r == (device@ == target@),
{
    device == target
}

/// `Listening on channel <channel>`, printed when verbose and the channel
/// was left to the system.
pub fn listening_notice(channel: u8) -> (r: String)
    ensures
        r@ == "Listening on channel "@ + dec_string(channel as nat),
{
    let mut s = owned("Listening on channel ");
    push_dec(&mut s, channel as u64);
    s
}

/// `Allocated TTY <id>`.
pub fn tty_notice(id: u16) -> (r: String)
    ensures
        r@ == "Allocated TTY "@ + dec_string(id as nat),
{
    let mut s = owned("Allocated TTY ");
    push_dec(&mut s, id as u64);
    s
}

/// The bytes received in the last second of a speed test: each entry is
/// the time it arrived (in milliseconds) and its size.
#[derive(Clone, Debug)]
pub struct SpeedWindow {
    /// Entries, oldest first.
    pub entries: Vec<(u64, u64)>,
    /// All bytes received in the test.
    pub total: u64,
}

/// The sum of the sizes of the entries.
pub open spec fn window_sum(e: Seq<(u64, u64)>) -> nat
    decreases e.len(),
{
    if e.len() == 0 {
        0
    } else {
        window_sum(e.drop_last()) + e.last().1 as nat
    }
}

/// The entries are in order of arrival.
pub open spec fn window_ordered(e: Seq<(u64, u64)>) -> bool {
    forall|i: int, j: int| 0 <= i <= j < e.len() ==> e[i].0 <= e[j].0
}

impl SpeedWindow {
    /// The window is well formed: entries in order of arrival.
    pub open spec fn wf(&self) -> bool {
        window_ordered(self.entries@)
    }

    /// An empty window.
    pub fn new() -> (r: SpeedWindow)
        ensures
            r.wf(),
            r.entries@.len() == 0,
            r.total == 0,
    {
        SpeedWindow { entries: Vec::new(), total: 0 }
    }

    /// Records `n` bytes that arrived at `now`, no earlier than the last
    /// entry.
    pub fn push(&mut self, now: u64, n: u64)
        requires
            old(self).wf(),
            old(self).entries@.len() > 0 ==> old(self).entries@.last().0 <= now,
            old(self).total + n <= u64::MAX,
        ensures
            final(self).wf(),
            final(self).entries@ == old(self).entries@.push((now, n)),
            final(self).total == old(self).total + n,
    {
        self.entries.push((now, n));
        self.total = self.total + n;
        proof {
            let e = final(self).entries@;
            assert forall|i: int, j: int| 0 <= i <= j < e.len() implies e[i].0 <= e[j].0 by {
                if j == e.len() - 1 && i < j {
                    assert(old(self).entries@[i].0 <= old(self).entries@.last().0);
                }
            }
        }
    }

    /// Drops the entries that arrived more than a second before `now`,
    /// oldest first.
    pub fn expire(&mut self, now: u64)
        requires
            old(self).wf(),
            forall|i: int| 0 <= i < old(self).entries@.len() ==> old(self).entries@[i].0 <= now,
        ensures
            final(self).wf(),
            final(self).total == old(self).total,
            exists|k: int| 0 <= k <= old(self).entries@.len() && final(self).entries@ == old(self).entries@.skip(k),
            forall|i: int| 0 <= i < final(self).entries@.len() ==> now - final(self).entries@[i].0 <= 1000,
            forall|i: int| 0 <= i < old(self).entries@.len() && now - old(self).entries@[i].0 <= 1000
                ==> final(self).entries@.contains(old(self).entries@[i]),
    {
        let ghost e0 = self.entries@;
        let mut k: usize = 0;
        while k < self.entries.len() && now - self.entries[k].0 > 1000
            invariant
                self.entries@ == e0,
                window_ordered(e0),
                forall|i: int| 0 <= i < e0.len() ==> e0[i].0 <= now,
                k <= e0.len(),
                forall|i: int| 0 <= i < k ==> now - e0[i].0 > 1000,
            decreases e0.len() - k,
        {
            k = k + 1;
        }
        let mut kept: Vec<(u64, u64)> = Vec::new();
        let mut i: usize = k;
        while i < self.entries.len()
            invariant
                self.entries@ == e0,
                k <= i <= e0.len(),
                kept@ == e0.subrange(k as int, i as int),
            decreases e0.len() - i,
        {
            kept.push(self.entries[i]);
            assert(e0.subrange(k as int, i + 1) =~= e0.subrange(k as int, i as int).push(e0[i as int]));
            i = i + 1;
        }
        assert(kept@ =~= e0.skip(k as int));
        self.entries = kept;
        proof {
            let e = e0.skip(k as int);
            assert forall|a: int, b: int| 0 <= a <= b < e.len() implies e[a].0 <= e[b].0 by {
                assert(e[a] == e0[a + k]);
                assert(e[b] == e0[b + k]);
            }
            if k < e0.len() {
                assert forall|j: int| 0 <= j < e.len() implies now - e[j].0 <= 1000 by {
                    assert(e[j] == e0[j + k]);
                    assert(e0[k as int].0 <= e0[j + k].0);
                }
            }
            assert forall|j: int| 0 <= j < e0.len() && now - e0[j].0 <= 1000 implies e.contains(e0[j]) by {
                assert(j >= k);
                assert(e[j - k] == e0[j]);
            }
        }
    }

    /// The bytes of the entries in the window.
    pub fn sum(&self) -> (r: u64)
        requires
            window_sum(self.entries@) <= u64::MAX,
        ensures
            r == window_sum(self.entries@),
    {
        let mut s: u64 = 0;
        let mut i: usize = 0;
        while i < self.entries.len()
            invariant
                i <= self.entries@.len(),
                s == window_sum(self.entries@.take(i as int)),
                window_sum(self.entries@) <= u64::MAX,
            decreases self.entries@.len() - i,
        {
            assert(self.entries@.take(i + 1).drop_last() =~= self.entries@.take(i as int));
            proof {
                lemma_window_sum_prefix(self.entries@, i + 1);
            }
            s = s + self.entries[i].1;
            i = i + 1;
        }
        assert(self.entries@.take(self.entries@.len() as int) =~= self.entries@);
        s
    }
}

/// The sum of a prefix of the window is at most the sum of the window.
pub proof fn lemma_window_sum_prefix(e: Seq<(u64, u64)>, k: int)
    requires
        0 <= k <= e.len(),
    ensures
        window_sum(e.take(k)) <= window_sum(e),
    decreases e.len() - k,
{
    if k < e.len() {
        lemma_window_sum_prefix(e, k + 1);
        assert(e.take(k + 1).drop_last() =~= e.take(k));
    } else {
        assert(e.take(k) =~= e);
    }
}

} // verus!
