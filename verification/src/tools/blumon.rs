//! The state of `blumon`, the device monitor: which terminal row shows
//! which discovered device, when a device is dropped for not being seen,
//! and the bars and columns of a device's line.
use vstd::prelude::*;
use crate::{address_text, Address};
use crate::foreign::string_push;
use crate::text::{dec_string, find_char_or_len, find_or_len, lemma_find_or_len, push_dec};

verus! {

/// A device that is not seen for more than this many seconds is dropped.
pub const MAX_AGO: u64 = 30;

/// A shown device.
#[derive(Clone, Copy, Debug)]
pub struct DeviceData {
    /// Device address.
    pub address: Address,
    /// Terminal row showing it.
    pub row: u16,
    /// When it was last seen, in milliseconds.
    pub last_seen: u64,
}

/// The rows of the terminal and the devices shown on them.
#[derive(Clone, Debug)]
pub struct DeviceMonitor {
    /// Number of terminal rows.
    pub n_rows: u16,
    /// Free rows, largest first (the smallest is taken next).
    pub empty_rows: Vec<u16>,
    /// Shown devices.
    pub devices: Vec<DeviceData>,
}

/// The rows that can show a device: from the third row up to the one
/// before the last.
pub open spec fn usable_rows(n_rows: u16) -> Set<u16> {
    Set::new(|r: u16| 2 <= r && r + 1 < n_rows)
}

/// The rows are strictly decreasing.
pub open spec fn strictly_decreasing(s: Seq<u16>) -> bool {
    forall|i: int, j: int| 0 <= i < j < s.len() ==> s[i] > s[j]
}

/// The rows of the shown devices.
pub open spec fn device_rows(d: Seq<DeviceData>) -> Seq<u16> {
    d.map_values(|x: DeviceData| x.row)
}

/// Inserting into a sequence adds the value to its set.
pub proof fn lemma_insert_to_set<A>(s: Seq<A>, k: int, v: A)
    requires
        0 <= k <= s.len(),
    ensures
        s.insert(k, v).to_set() == s.to_set().insert(v),
{
    let t = s.insert(k, v);
    assert forall|x: A| t.contains(x) <==> s.contains(x) || x == v by {
        if t.contains(x) {
            let j = choose|j: int| 0 <= j < t.len() && t[j] == x;
            if j < k {
                assert(s[j] == x);
            } else if j > k {
                assert(s[j - 1] == x);
            }
        }
        if s.contains(x) {
            let j = choose|j: int| 0 <= j < s.len() && s[j] == x;
            if j < k {
                assert(t[j] == x);
            } else {
                assert(t[j + 1] == x);
            }
        }
        if x == v {
            assert(t[k] == x);
        }
    }
    assert(t.to_set() =~= s.to_set().insert(v));
}

impl DeviceMonitor {
    /// Every usable row is either free or shows exactly one device: free
    /// rows are strictly decreasing, the devices have distinct addresses
    /// and rows, and no row is both free and used.
    pub open spec fn wf(&self) -> bool {
        &&& strictly_decreasing(self.empty_rows@)
        &&& forall|i: int, j: int| 0 <= i < j < self.devices@.len() ==> self.devices@[i].address@
            != self.devices@[j].address@
        &&& forall|i: int, j: int| 0 <= i < j < self.devices@.len() ==> self.devices@[i].row
            != self.devices@[j].row
        &&& forall|i: int, j: int| 0 <= i < self.devices@.len() && 0 <= j < self.empty_rows@.len() ==> self.devices@[i].row
            != self.empty_rows@[j]
        &&& self.empty_rows@.to_set() + device_rows(self.devices@).to_set() == usable_rows(self.n_rows)
    }

    /// A monitor on a terminal with `n_rows` rows: every usable row free,
    /// no device shown.
    pub fn new(n_rows: u16) -> (r: DeviceMonitor)
        requires
            n_rows >= 1,
        ensures
            r.wf(),
            r.n_rows == n_rows,
            r.devices@.len() == 0,
            r.empty_rows@.to_set() == usable_rows(n_rows),
    {
        let mut rows: Vec<u16> = Vec::new();
        let top = n_rows - 1;
        let mut r: u16 = top;
        while r > 2
            invariant
                top == n_rows - 1,
                r <= top,
                r >= 2 || top < 2,
                top < 2 ==> r == top,
                rows@.len() == top - r,
                forall|i: int| 0 <= i < rows@.len() ==> #[trigger] rows@[i] == top - 1 - i,
            decreases r,
        {
            r = r - 1;
            rows.push(r);
        }
        let m = DeviceMonitor { n_rows, empty_rows: rows, devices: Vec::new() };
        proof {
            assert(device_rows(m.devices@) =~= Seq::<u16>::empty());
            assert(device_rows(m.devices@).to_set() =~= Set::<u16>::empty());
            assert forall|x: u16| usable_rows(n_rows).contains(x) implies m.empty_rows@.contains(x) by {
                let i = top - 1 - x;
                assert(m.empty_rows@[i as int] == x);
            }
            assert forall|x: u16| m.empty_rows@.contains(x) implies usable_rows(n_rows).contains(x) by {
                let i = choose|i: int| 0 <= i < m.empty_rows@.len() && m.empty_rows@[i] == x;
                assert(m.empty_rows@[i] == top - 1 - i);
                assert(i < top - r);
                assert(r >= 2 || top < 2);
                assert(x >= 2);
                assert(x + 1 < n_rows);
            }
            assert(m.empty_rows@.to_set() =~= usable_rows(n_rows));
            assert(m.empty_rows@.to_set() + device_rows(m.devices@).to_set() =~= usable_rows(n_rows));
        }
        m
    }

    /// The position of the device with the given address, if shown.
    pub fn find(&self, address: Address) -> (r: Option<usize>)
        ensures
            r matches Some(i) ==> i < self.devices@.len() && self.devices@[i as int].address@ == address@,
            r is None ==> forall|i: int| 0 <= i < self.devices@.len() ==> self.devices@[i].address@ != address@,
    {
        let mut i: usize = 0;
        while i < self.devices.len()
            invariant
                i <= self.devices@.len(),
                forall|j: int| 0 <= j < i ==> self.devices@[j].address@ != address@,
            decreases self.devices@.len() - i,
        {
            if self.devices[i].address == address {
                return Some(i);
            }
            i = i + 1;
        }
        None
    }

    /// A device was discovered at time `now`: a shown device is marked as
    /// seen; a new one takes the smallest free row, if any, and that row is
    /// returned to be drawn.
    pub fn device_added(&mut self, address: Address, now: u64) -> (r: Option<u16>)
        requires
            old(self).wf(),
        ensures
            final(self).wf(),
            final(self).n_rows == old(self).n_rows,
            match r {
                Some(row) => {
                    &&& forall|i: int| 0 <= i < old(self).devices@.len() ==> old(self).devices@[i].address@ != address@
                    &&& old(self).empty_rows@.len() > 0 && row == old(self).empty_rows@.last()
                    &&& final(self).empty_rows@ == old(self).empty_rows@.drop_last()
                    &&& final(self).devices@ == old(self).devices@.push(DeviceData { address, row, last_seen: now })
                },
                None => {
                    ||| (exists|i: int| 0 <= i < old(self).devices@.len() && old(self).devices@[i].address@ == address@
                        && final(self).devices@ == old(self).devices@.update(i, DeviceData { last_seen: now, ..old(self).devices@[i] })
                        && final(self).empty_rows@ == old(self).empty_rows@)
                    ||| (old(self).empty_rows@.len() == 0 && final(self).devices@ == old(self).devices@
                        && final(self).empty_rows@ == old(self).empty_rows@)
                },
            },
    {
        match self.find(address) {
            Some(i) => {
                let mut d = self.devices[i];
                d.last_seen = now;
                let ghost before = *self;
                self.devices.set(i, d);
                proof {
                    assert(device_rows(self.devices@) =~= device_rows(before.devices@));
                }
                None
            },
            None => match self.empty_rows.pop() {
                Some(row) => {
                    let ghost e0 = old(self).empty_rows@;
                    let ghost d0 = old(self).devices@;
                    assert(self.empty_rows@ =~= e0.drop_last());
                    self.devices.push(DeviceData { address, row, last_seen: now });
                    proof {
                        let e1 = self.empty_rows@;
                        let d1 = self.devices@;
                        assert(row == e0[e0.len() - 1]);
                        assert forall|j: int| 0 <= j < e1.len() implies e1[j] != row by {
                            assert(e0[j] > e0[e0.len() - 1]);
                        }
                        assert(device_rows(d1) =~= device_rows(d0).push(row));
                        assert(e0 =~= e1.push(row));
                        assert(e1.push(row) =~= e1.insert(e1.len() as int, row));
                        lemma_insert_to_set(e1, e1.len() as int, row);
                        let r0 = device_rows(d0);
                        assert(r0.push(row) =~= r0.insert(r0.len() as int, row));
                        lemma_insert_to_set(r0, r0.len() as int, row);
                        assert(e1.to_set() + device_rows(d1).to_set() =~= e0.to_set() + device_rows(d0).to_set());
                        assert forall|i: int, j: int| 0 <= i < j < d1.len() implies d1[i].row != d1[j].row by {
                            if j == d1.len() - 1 {
                                assert(d0[i].row != e0[e0.len() - 1]);
                            }
                        }
                    }
                    Some(row)
                },
                None => None,
            },
        }
    }

    /// Stops showing the device with the given address, if shown: its row
    /// becomes free again and is returned to be cleared.
    pub fn remove_device(&mut self, address: Address) -> (r: Option<u16>)
        requires
            old(self).wf(),
        ensures
            final(self).wf(),
            final(self).n_rows == old(self).n_rows,
            forall|i: int| 0 <= i < final(self).devices@.len() ==> final(self).devices@[i].address@ != address@,
            r is None ==> final(self).devices@ == old(self).devices@ && final(self).empty_rows@
                == old(self).empty_rows@,
            r matches Some(row) ==> (exists|i: int| 0 <= i < old(self).devices@.len() && old(self).devices@[i].address@
                == address@ && old(self).devices@[i].row == row && final(self).devices@ == old(self).devices@.remove(i)),
            r matches Some(row) ==> final(self).empty_rows@.to_set() == old(self).empty_rows@.to_set().insert(row),
    {
        match self.find(address) {
            None => None,
            Some(i) => {
                let ghost d0 = self.devices@;
                let ghost e0 = self.empty_rows@;
                let data = self.devices.remove(i);
                let row = data.row;
                // Insert the freed row so that the free rows stay decreasing.
                let mut k: usize = 0;
                while k < self.empty_rows.len() && self.empty_rows[k] > row
                    invariant
                        self.empty_rows@ == e0,
                        k <= e0.len(),
                        forall|j: int| 0 <= j < k ==> e0[j] > row,
                    decreases e0.len() - k,
                {
                    k = k + 1;
                }
                self.empty_rows.insert(k, row);
                proof {
                    let e1 = self.empty_rows@;
                    let d1 = self.devices@;
                    assert(e1 =~= e0.insert(k as int, row));
                    assert(d1 =~= d0.remove(i as int));
                    assert(d0[i as int].row == row);
                    // The freed row was not free before.
                    assert forall|j: int| 0 <= j < e0.len() implies e0[j] != row by {}
                    if k < e0.len() {
                        assert(e0[k as int] < row);
                    }
                    assert forall|a: int, b: int| 0 <= a < b < e1.len() implies e1[a] > e1[b] by {
                        if a < k && b < k {
                        } else if a < k && b == k {
                        } else if a < k {
                            assert(e1[b] == e0[b - 1]);
                            if b - 1 >= k {
                                assert(e0[k as int] < row);
                            }
                        } else if a == k {
                            assert(e1[b] == e0[b - 1]);
                            assert(e0[k as int] < row);
                            assert(e0[k as int] >= e0[b - 1]);
                        } else {
                            assert(e1[a] == e0[a - 1]);
                            assert(e1[b] == e0[b - 1]);
                        }
                    }
                    lemma_insert_to_set(e0, k as int, row);
                    assert(device_rows(d0) =~= device_rows(d1).insert(i as int, row));
                    lemma_insert_to_set(device_rows(d1), i as int, row);
                    assert(e1.to_set() + device_rows(d1).to_set() =~= e0.to_set() + device_rows(d0).to_set());
                    assert forall|a: int, b: int| 0 <= a < b < d1.len() implies d1[a].address@ != d1[b].address@
                        && d1[a].row != d1[b].row by {
                        let a0 = if a < i { a } else { a + 1 };
                        let b0 = if b < i { b } else { b + 1 };
                        assert(d1[a] == d0[a0]);
                        assert(d1[b] == d0[b0]);
                    }
                    assert forall|a: int, b: int| 0 <= a < d1.len() && 0 <= b < e1.len() implies d1[a].row
                        != e1[b] by {
                        let a0 = if a < i { a } else { a + 1 };
                        assert(d1[a] == d0[a0]);
                        if b < k {
                            assert(e1[b] == e0[b]);
                        } else if b > k {
                            assert(e1[b] == e0[b - 1]);
                        }
                    }
                    assert forall|a: int| 0 <= a < d1.len() implies d1[a].address@ != address@ by {
                        let a0 = if a < i { a } else { a + 1 };
                        assert(d1[a] == d0[a0]);
                    }
                }
                Some(row)
            },
        }
    }
}

impl DeviceMonitor {
    /// The position of the first device not seen for more than `MAX_AGO`
    /// seconds, if any.
    pub fn first_stale(&self, now: u64) -> (r: Option<usize>)
        requires
            forall|i: int| 0 <= i < self.devices@.len() ==> self.devices@[i].last_seen <= now,
        ensures
            r matches Some(i) ==> i < self.devices@.len() && seen_ago_secs(self.devices@[i as int].last_seen, now) > MAX_AGO,
            r is None ==> forall|i: int| 0 <= i < self.devices@.len() ==> seen_ago_secs(
                #[trigger] self.devices@[i].last_seen,
                now,
            ) <= MAX_AGO,
    {
        let mut i: usize = 0;
        while i < self.devices.len()
            invariant
                i <= self.devices@.len(),
                forall|j: int| 0 <= j < self.devices@.len() ==> self.devices@[j].last_seen <= now,
                forall|j: int| 0 <= j < i ==> seen_ago_secs(#[trigger] self.devices@[j].last_seen, now) <= MAX_AGO,
            decreases self.devices@.len() - i,
        {
            if is_stale(self.devices[i].last_seen, now) {
                return Some(i);
            }
            i = i + 1;
        }
        None
    }

    /// The periodic update at time `now`: every device not seen for more
    /// than `MAX_AGO` seconds is dropped (its row is returned to be
    /// cleared); the others stay, to be redrawn.
    pub fn drop_stale(&mut self, now: u64) -> (r: Vec<u16>)
        requires
            old(self).wf(),
            forall|i: int| 0 <= i < old(self).devices@.len() ==> old(self).devices@[i].last_seen <= now,
        ensures
            final(self).wf(),
            final(self).n_rows == old(self).n_rows,
            forall|i: int| 0 <= i < final(self).devices@.len() ==> old(self).devices@.contains(
                #[trigger] final(self).devices@[i],
            ) && seen_ago_secs(final(self).devices@[i].last_seen, now) <= MAX_AGO,
            forall|i: int| 0 <= i < old(self).devices@.len() && seen_ago_secs(
                old(self).devices@[i].last_seen,
                now,
            ) <= MAX_AGO ==> final(self).devices@.contains(#[trigger] old(self).devices@[i]),
            forall|x: u16| #[trigger] r@.contains(x) <==> exists|i: int| 0 <= i < old(self).devices@.len()
                && seen_ago_secs(old(self).devices@[i].last_seen, now) > MAX_AGO && old(self).devices@[i].row == x,
            r@.no_duplicates(),
    {
        let ghost d0 = self.devices@;
        let mut cleared: Vec<u16> = Vec::new();
        loop
            invariant
                self.wf(),
                self.n_rows == old(self).n_rows,
                forall|j: int| 0 <= j < d0.len() ==> d0[j].last_seen <= now,
                forall|j: int| 0 <= j < self.devices@.len() ==> d0.contains(#[trigger] self.devices@[j]),
                forall|j: int| 0 <= j < d0.len() && seen_ago_secs(d0[j].last_seen, now) <= MAX_AGO
                    ==> self.devices@.contains(#[trigger] d0[j]),
                forall|x: u16| #[trigger] cleared@.contains(x) <==> exists|j: int| 0 <= j < d0.len() && seen_ago_secs(
                    d0[j].last_seen,
                    now,
                ) > MAX_AGO && !self.devices@.contains(d0[j]) && d0[j].row == x,
                cleared@.no_duplicates(),
                forall|a: int, b: int| 0 <= a < b < d0.len() ==> d0[a].row != d0[b].row,
            ensures
                self.wf(),
                self.n_rows == old(self).n_rows,
                forall|j: int| 0 <= j < self.devices@.len() ==> d0.contains(#[trigger] self.devices@[j])
                    && seen_ago_secs(self.devices@[j].last_seen, now) <= MAX_AGO,
                forall|j: int| 0 <= j < d0.len() && seen_ago_secs(d0[j].last_seen, now) <= MAX_AGO
                    ==> self.devices@.contains(#[trigger] d0[j]),
                forall|x: u16| #[trigger] cleared@.contains(x) <==> exists|j: int| 0 <= j < d0.len() && seen_ago_secs(
                    d0[j].last_seen,
                    now,
                ) > MAX_AGO && !self.devices@.contains(d0[j]) && d0[j].row == x,
                cleared@.no_duplicates(),
                forall|a: int, b: int| 0 <= a < b < d0.len() ==> d0[a].row != d0[b].row,
            decreases self.devices@.len(),
        {
            let i = match self.first_stale(now) {
                None => break,
                Some(i) => i,
            };
            let ghost before = self.devices@;
            let a = self.devices[i].address;
            let removed = self.remove_device(a);
            proof {
                let after = self.devices@;
                let idx = choose|idx: int| 0 <= idx < before.len() && before[idx].address@ == a@ && before[idx].row
                    == removed->0 && after == before.remove(idx);
                assert(idx == i) by {
                    if idx != i {
                        if idx < i {
                            assert(before[idx].address@ != before[i as int].address@);
                        } else {
                            assert(before[i as int].address@ != before[idx].address@);
                        }
                    }
                }
                assert forall|j: int| 0 <= j < after.len() implies d0.contains(#[trigger] after[j]) by {
                    if j < idx {
                        assert(after[j] == before[j]);
                    } else {
                        assert(after[j] == before[j + 1]);
                    }
                }
                assert forall|j: int| 0 <= j < d0.len() && seen_ago_secs(d0[j].last_seen, now) <= MAX_AGO
                    implies after.contains(#[trigger] d0[j]) by {
                    let bj = choose|bj: int| 0 <= bj < before.len() && before[bj] == d0[j];
                    assert(bj != idx);
                    if bj < idx {
                        assert(after[bj] == d0[j]);
                    } else {
                        assert(after[bj - 1] == d0[j]);
                    }
                }
            }
            let ghost c0 = cleared@;
            match removed {
                Some(row) => cleared.push(row),
                None => {},
            }
            proof {
                let after = self.devices@;
                let gone = before[i as int];
                assert(removed == Some(gone.row));
                assert(cleared@ == c0.push(gone.row));
                assert(d0.contains(before[i as int]));
                assert(seen_ago_secs(gone.last_seen, now) > MAX_AGO);
                lemma_remove_unique(before, i as int);
                assert(after == before.remove(i as int));
                assert(!c0.contains(gone.row)) by {
                    if c0.contains(gone.row) {
                        let j = choose|j: int| 0 <= j < d0.len() && seen_ago_secs(d0[j].last_seen, now) > MAX_AGO
                            && !before.contains(d0[j]) && d0[j].row == gone.row;
                        let m = choose|m: int| 0 <= m < d0.len() && d0[m] == gone;
                        assert(before.contains(d0[m]));
                        assert(j != m);
                    }
                }
                assert(cleared@.no_duplicates()) by {
                    assert forall|a: int, b: int| 0 <= a < b < cleared@.len() implies cleared@[a] != cleared@[b] by {
                        if b == cleared@.len() - 1 {
                            assert(c0[a] == cleared@[a]);
                        } else {
                            assert(c0[a] == cleared@[a] && c0[b] == cleared@[b]);
                        }
                    }
                }
                assert forall|x: u16| #[trigger] cleared@.contains(x) <==> exists|j: int| 0 <= j < d0.len()
                    && seen_ago_secs(d0[j].last_seen, now) > MAX_AGO && !after.contains(d0[j]) && d0[j].row == x by {
                    if cleared@.contains(x) {
                        if c0.contains(x) {
                            assert(exists|j: int| 0 <= j < d0.len() && seen_ago_secs(d0[j].last_seen, now) > MAX_AGO
                                && !before.contains(d0[j]) && d0[j].row == x);
                            let j = choose|j: int| 0 <= j < d0.len() && seen_ago_secs(d0[j].last_seen, now) > MAX_AGO
                                && !before.contains(d0[j]) && d0[j].row == x;
                            assert(!after.contains(d0[j]));
                            assert(0 <= j < d0.len() && seen_ago_secs(d0[j].last_seen, now) > MAX_AGO
                                && !after.contains(d0[j]) && d0[j].row == x);
                            assert(exists|j: int| 0 <= j < d0.len() && seen_ago_secs(d0[j].last_seen, now) > MAX_AGO
                                && !after.contains(d0[j]) && d0[j].row == x);
                        } else {
                            assert(x == gone.row);
                            let j = choose|j: int| 0 <= j < d0.len() && d0[j] == gone;
                            assert(!after.contains(d0[j]));
                            assert(seen_ago_secs(d0[j].last_seen, now) > MAX_AGO && d0[j].row == x);
                            assert(exists|j: int| 0 <= j < d0.len() && seen_ago_secs(d0[j].last_seen, now) > MAX_AGO
                                && !after.contains(d0[j]) && d0[j].row == x);
                        }
                    }
                    if exists|j: int| 0 <= j < d0.len() && seen_ago_secs(d0[j].last_seen, now) > MAX_AGO
                        && !after.contains(d0[j]) && d0[j].row == x {
                        let j = choose|j: int| 0 <= j < d0.len() && seen_ago_secs(d0[j].last_seen, now) > MAX_AGO
                            && !after.contains(d0[j]) && d0[j].row == x;
                        if d0[j] == gone {
                            assert(cleared@[cleared@.len() - 1] == x);
                        } else {
                            assert(!before.contains(d0[j]));
                            assert(c0.contains(x));
                            let k = choose|k: int| 0 <= k < c0.len() && c0[k] == x;
                            assert(cleared@[k] == x);
                        }
                        assert(cleared@.contains(x));
                    }
                }
            }
        }
        proof {
            assert forall|x: u16| #[trigger] cleared@.contains(x) <==> exists|i: int| 0 <= i < d0.len()
                && seen_ago_secs(d0[i].last_seen, now) > MAX_AGO && d0[i].row == x by {
                if exists|i: int| 0 <= i < d0.len() && seen_ago_secs(d0[i].last_seen, now) > MAX_AGO && d0[i].row == x {
                    let i = choose|i: int| 0 <= i < d0.len() && seen_ago_secs(d0[i].last_seen, now) > MAX_AGO
                        && d0[i].row == x;
                    if self.devices@.contains(d0[i]) {
                        let k = choose|k: int| 0 <= k < self.devices@.len() && self.devices@[k] == d0[i];
                        assert(seen_ago_secs(self.devices@[k].last_seen, now) <= MAX_AGO);
                    }
                }
            }
        }
        cleared
    }
}

/// Removing an entry from devices with distinct addresses drops exactly
/// that entry.
proof fn lemma_remove_unique(before: Seq<DeviceData>, idx: int)
    requires
        0 <= idx < before.len(),
        forall|i: int, j: int| 0 <= i < j < before.len() ==> before[i].address@ != before[j].address@,
    ensures
        forall|x: DeviceData| #[trigger] before.remove(idx).contains(x) <==> (before.contains(x) && x != before[idx]),
{
    let after = before.remove(idx);
    assert forall|x: DeviceData| #[trigger] after.contains(x) <==> (before.contains(x) && x != before[idx]) by {
        if after.contains(x) {
            let k = choose|k: int| 0 <= k < after.len() && after[k] == x;
            if k < idx {
                assert(before[k] == x);
                assert(before[k].address@ != before[idx].address@);
            } else {
                assert(before[k + 1] == x);
                assert(before[idx].address@ != before[k + 1].address@);
            }
        }
        if before.contains(x) && x != before[idx] {
            let m = choose|m: int| 0 <= m < before.len() && before[m] == x;
            if m < idx {
                assert(after[m] == x);
            } else {
                assert(m != idx);
                assert(after[m - 1] == x);
            }
        }
    }
}

/// Whole seconds since a device was last seen.
pub open spec fn seen_ago_secs(last_seen: u64, now: u64) -> u64 {
    ((now - last_seen) / 1000) as u64
}

/// A device is dropped when not seen for more than `MAX_AGO` seconds.
pub fn is_stale(last_seen: u64, now: u64) -> (r: bool)
    requires
        last_seen <= now,
    ensures
        r == (seen_ago_secs(last_seen, now) > MAX_AGO),
{
    (now - last_seen) / 1000 > MAX_AGO
}

/// The RSSI clamped to -120..=-30 dBm.
pub open spec fn clamped_rssi(v: i16) -> int {
    if v < -120 {
        -120
    } else if v > -30 {
        -30
    } else {
        v as int
    }
}

/// Length of the signal strength bar: the RSSI clamped to -120..=-30 dBm,
/// scaled to 0..=15; 0 without a reading.
pub fn rssi_bar_len(rssi: Option<i16>) -> (r: i16)
    ensures
        rssi is None ==> r == 0,
        rssi matches Some(v) ==> r == (clamped_rssi(v) + 120) * 15 / 90,
        0 <= r <= 15,
{
    match rssi {
        None => 0,
        Some(v) => {
            let c: i16 = if v < -120 {
                -120
            } else if v > -30 {
                -30
            } else {
                v
            };
            (c + 120) * 15 / 90
        },
    }
}

/// Length of the last-seen bar: full (10) when just seen, empty after
/// `MAX_AGO` seconds.
pub fn ago_bar_len(seen_ago: u64) -> (r: u64)
    ensures
        r == (30 - (if seen_ago > 30 { 30 } else { seen_ago as int })) * 10 / 30,
        r <= 10,
{
    let c = if seen_ago > MAX_AGO {
        MAX_AGO
    } else {
        seen_ago
    };
    (MAX_AGO - c) * 10 / MAX_AGO
}

/// `s` cut or padded with spaces to exactly `width` chars.
pub open spec fn fit_to(s: Seq<char>, width: nat) -> Seq<char> {
    if s.len() >= width {
        s.take(width as int)
    } else {
        s + Seq::new((width - s.len()) as nat, |i: int| ' ')
    }
}

/// The text cut or padded with spaces to exactly `width` chars.
pub fn fit_to_width(s: &str, width: usize) -> (r: String)
    ensures
        r@ == fit_to(s@, width as nat),
{
    let n = s.unicode_len();
    let mut r = String::new();
    let mut i: usize = 0;
    while i < width
        invariant
            i <= width,
            n == s@.len(),
            r@ == fit_to(s@, width as nat).take(i as int),
        decreases width - i,
    {
        let c = if i < n {
            s.get_char(i)
        } else {
            ' '
        };
        string_push(&mut r, c);
        assert(fit_to(s@, width as nat).take(i + 1) =~= fit_to(s@, width as nat).take(i as int).push(c));
        i = i + 1;
    }
    assert(fit_to(s@, width as nat).take(width as int) =~= fit_to(s@, width as nat));
    r
}

/// The first word of a manufacturer name: the text before its first space
/// or comma.
pub open spec fn first_word(s: Seq<char>) -> Seq<char> {
    let a = find_or_len(s, ' ');
    let b = find_or_len(s, ',');
    s.take(if a < b { a } else { b })
}

/// Texts joined with `" / "` between them.
pub open spec fn join_slash(t: Seq<Seq<char>>) -> Seq<char>
    decreases t.len(),
{
    if t.len() == 0 {
        Seq::empty()
    } else if t.len() == 1 {
        t[0]
    } else {
        join_slash(t.drop_last()) + " / "@ + t.last()
    }
}

/// The manufacturer column of a device line: the first word of each
/// manufacturer name, joined by `" / "`, cut or padded to 12 chars.
pub open spec fn manufacturer_text(names: Seq<Seq<char>>) -> Seq<char> {
    fit_to(join_slash(names.map_values(|n: Seq<char>| first_word(n))), 12)
}

/// The first word of a name.
fn first_word_of(s: &str) -> (r: &str)
    ensures
        r@ == first_word(s@),
{
    let a = find_char_or_len(s, ' ');
    let b = find_char_or_len(s, ',');
    proof {
        lemma_find_or_len(s@, ' ');
        lemma_find_or_len(s@, ',');
    }
    let k = if a < b {
        a
    } else {
        b
    };
    let w = s.substring_char(0, k);
    assert(w@ =~= s@.take(k as int));
    w
}

/// The manufacturer column of a device line, from the names of its
/// manufacturers in ascending order of their ids.
pub fn manufacturer_column(names: &Vec<String>) -> (r: String)
    ensures
        r@ == manufacturer_text(names@.map_values(|n: String| n@)),
{
    let ghost words = names@.map_values(|n: String| n@).map_values(|n: Seq<char>| first_word(n));
    let mut joined = String::new();
    let mut i: usize = 0;
    while i < names.len()
        invariant
            i <= names@.len(),
            words == names@.map_values(|n: String| n@).map_values(|n: Seq<char>| first_word(n)),
            joined@ == join_slash(words.take(i as int)),
        decreases names@.len() - i,
    {
        let w = first_word_of(names[i].as_str());
        assert(words[i as int] == first_word(names@[i as int]@));
        assert(words.take(i + 1).drop_last() =~= words.take(i as int));
        if i > 0 {
            joined.append(" / ");
        } else {
            assert(words.take(0) =~= Seq::<Seq<char>>::empty());
        }
        joined.append(w);
        i = i + 1;
    }
    assert(words.take(names@.len() as int) =~= words);
    fit_to_width(joined.as_str(), 12)
}

} // verus!

verus! {

/// `n` copies of `c`.
pub open spec fn repeat_char(c: char, n: nat) -> Seq<char> {
    Seq::new(n, |i: int| c)
}

/// `s` right-aligned in a field of `width` chars (`{:width}` of a number).
pub open spec fn pad_left(s: Seq<char>, width: nat) -> Seq<char> {
    if s.len() >= width {
        s
    } else {
        repeat_char(' ', (width - s.len()) as nat) + s
    }
}

/// `s` left-aligned in a field of at least `width` chars (`{:width}` of a
/// string).
pub open spec fn pad_right(s: Seq<char>, width: nat) -> Seq<char> {
    if s.len() >= width {
        s
    } else {
        s + repeat_char(' ', (width - s.len()) as nat)
    }
}

/// The decimal text of a signed value.
pub open spec fn i16_text(v: i16) -> Seq<char> {
    if v < 0 {
        "-"@ + dec_string((-v) as nat)
    } else {
        dec_string(v as nat)
    }
}

/// The signal strength part of a device line: the reading in a field of 4
/// and ` dBm [`, or `---- dBm [` without a reading.
pub open spec fn rssi_text(rssi: Option<i16>) -> Seq<char> {
    match rssi {
        Some(v) => pad_left(i16_text(v), 4) + " dBm ["@,
        None => "---- dBm ["@,
    }
}

/// The text of the line that the device monitor shows for a device: its
/// address, ` [`, its address type, `] `, the signal strength, a bar of
/// `#` filled to the RSSI bar length and padded with spaces to 15, `]`,
/// the seconds since last seen in a field of 3, ` s ago [`, a bar of `#`
/// filled to the age bar length and padded to 10, `]`, two spaces, the
/// manufacturer column, a space, the name in a field of 30 and three
/// spaces.
pub open spec fn device_line_text(
    address: Seq<char>,
    address_type: Seq<char>,
    rssi: Option<i16>,
    seen_ago: u64,
    manufacturers: Seq<Seq<char>>,
    name: Seq<char>,
) -> Seq<char> {
    let b = if rssi is Some { (clamped_rssi(rssi->0) + 120) * 15 / 90 } else { 0 };
    let g = (30 - (if seen_ago > 30 { 30 } else { seen_ago as int })) * 10 / 30;
    address + " ["@ + address_type + "] "@ + rssi_text(rssi) + repeat_char('#', b as nat) + repeat_char(
        ' ',
        (15 - b) as nat,
    ) + "]"@ + pad_left(dec_string(seen_ago as nat), 3) + " s ago ["@ + repeat_char('#', g as nat) + repeat_char(
        ' ',
        (10 - g) as nat,
    ) + "]  "@ + manufacturer_text(manufacturers) + " "@ + pad_right(name, 30) + "   "@
}

/// Appends `n` copies of `c`.
fn push_repeat(s: &mut String, c: char, n: usize)
    ensures
        final(s)@ == old(s)@ + repeat_char(c, n as nat),
{
    let mut i: usize = 0;
    while i < n
        invariant
            i <= n,
            s@ == old(s)@ + repeat_char(c, i as nat),
        decreases n - i,
    {
        string_push(s, c);
        assert(old(s)@ + repeat_char(c, (i + 1) as nat) =~= (old(s)@ + repeat_char(c, i as nat)).push(c));
        i = i + 1;
    }
}

/// Appends `t` right-aligned in a field of `width` chars.
fn push_pad_left(s: &mut String, t: &str, width: usize)
    ensures
        final(s)@ == old(s)@ + pad_left(t@, width as nat),
{
    let n = t.unicode_len();
    if n < width {
        push_repeat(s, ' ', width - n);
    }
    s.append(t);
    assert(final(s)@ =~= old(s)@ + pad_left(t@, width as nat));
}

/// The decimal text of a signed value.
fn i16_string(v: i16) -> (r: String)
    ensures
        r@ == i16_text(v),
{
    let mut s = String::new();
    if v < 0 {
        string_push(&mut s, '-');
        let m: i32 = -(v as i32);
        push_dec(&mut s, m as u64);
        proof {
            reveal_strlit("-");
            assert(s@ =~= "-"@ + dec_string((-v) as nat));
        }
    } else {
        push_dec(&mut s, v as u64);
        assert(s@ =~= dec_string(v as nat));
    }
    s
}

/// The text of the line that the device monitor shows for a device (the
/// terminal colors aside).
pub fn device_line(
    address: Address,
    address_type: &str,
    rssi: Option<i16>,
    seen_ago: u64,
    manufacturers: &Vec<String>,
    name: &str,
) -> (r: String)
    ensures
        r@ == device_line_text(
            address_text(address@),
            address_type@,
            rssi,
            seen_ago,
            manufacturers@.map_values(|n: String| n@),
            name@,
        ),
{
    let mut s = address.to_string();
    s.append(" [");
    s.append(address_type);
    s.append("] ");
    match rssi {
        Some(v) => {
            let t = i16_string(v);
            push_pad_left(&mut s, t.as_str(), 4);
            s.append(" dBm [");
        },
        None => {
            s.append("---- dBm [");
        },
    }
    let b = rssi_bar_len(rssi);
    push_repeat(&mut s, '#', b as usize);
    push_repeat(&mut s, ' ', (15 - b) as usize);
    s.append("]");
    let mut secs = String::new();
    push_dec(&mut secs, seen_ago);
    assert(secs@ =~= dec_string(seen_ago as nat));
    push_pad_left(&mut s, secs.as_str(), 3);
    s.append(" s ago [");
    let g = ago_bar_len(seen_ago);
    push_repeat(&mut s, '#', g as usize);
    push_repeat(&mut s, ' ', (10 - g) as usize);
    s.append("]  ");
    let m = manufacturer_column(manufacturers);
    s.append(m.as_str());
    s.append(" ");
    let nl = name.unicode_len();
    s.append(name);
    if nl < 30 {
        push_repeat(&mut s, ' ', 30 - nl);
    }
    s.append("   ");
    proof {
        let spec_line = device_line_text(
            address_text(address@),
            address_type@,
            rssi,
            seen_ago,
            manufacturers@.map_values(|n: String| n@),
            name@,
        );
        assert(s@ =~= spec_line);
    }
    s
}

} // verus!

verus! {

impl DeviceMonitor {
    /// Shows a device that was discovered at time `now`, unless it is
    /// shown already: a new device takes the smallest free row, which is
    /// returned to be drawn; with no free row, or for a shown device,
    /// nothing changes.
    pub fn add_device(&mut self, address: Address, now: u64) -> (r: Option<u16>)
        requires
            old(self).wf(),
        ensures
            final(self).wf(),
            (exists|i: int| 0 <= i < old(self).devices@.len() && old(self).devices@[i].address@ == address@) ==> (
            r is None && final(self).devices@ == old(self).devices@ && final(self).empty_rows@ == old(
                self,
            ).empty_rows@),
            (forall|i: int| 0 <= i < old(self).devices@.len() ==> old(self).devices@[i].address@ != address@) ==> (
            if old(self).empty_rows@.len() == 0 {
                r is None && final(self).devices@ == old(self).devices@ && final(self).empty_rows@ == old(
                    self,
                ).empty_rows@
            } else {
                &&& r == Some(old(self).empty_rows@.last())
                &&& final(self).empty_rows@ == old(self).empty_rows@.drop_last()
                &&& final(self).devices@ == old(self).devices@.push(
                    DeviceData { address, row: old(self).empty_rows@.last(), last_seen: now },
                )
            }),
            final(self).n_rows == old(self).n_rows,
    {
        match self.find(address) {
            Some(_) => None,
            None => self.device_added(address, now),
        }
    }
}

/// The row that a new device takes, the last free one, is the smallest
/// free row, and no shown device is on it.
pub proof fn lemma_new_row_smallest(m: DeviceMonitor)
    requires
        m.wf(),
        m.empty_rows@.len() > 0,
    ensures
        forall|j: int| 0 <= j < m.empty_rows@.len() ==> m.empty_rows@.last() <= #[trigger] m.empty_rows@[j],
        forall|i: int| 0 <= i < m.devices@.len() ==> #[trigger] m.devices@[i].row != m.empty_rows@.last(),
{
    let e = m.empty_rows@;
    assert forall|j: int| 0 <= j < e.len() implies e.last() <= #[trigger] e[j] by {
        if j < e.len() - 1 {
            assert(e[j] > e[e.len() - 1]);
        }
    }
}

} // verus!
