//! The address cache: a fixed table from IPv4 address to hardware address
//! that ages its entries by lookups and expires them by time.

use vstd::prelude::*;
use crate::data::addr::InAddrN;
use crate::datalink::Mac;

verus! {

/// Number of slots in the table.
pub const ARPTABSZ: usize = 10;

/// Default time, in seconds, after which an entry is stale.
pub const ARPLIVE: usize = 10 * 60;

/// One slot of the table.
#[derive(Clone, Copy, Debug, Default, PartialEq, Eq, Structural)]
pub struct ARPRecod {
    /// An invalid slot is empty, whatever else it holds
    pub is_valid: bool,
    /// Lookups that passed over the entry since it last matched
    pub age: u16,
    pub ip: InAddrN,
    /// When the entry was made or last refreshed, in seconds
    pub ctime: i64,
    pub mac: Mac,
}

impl ARPRecod {
    /// True when the entry is older than `live` seconds at time `now`.
    pub open spec fn spec_expired(self, live: i64, now: i64) -> bool {
        self.ctime + live < now
    }

    /// True when a lookup of `ip` at time `now` stops at this slot.
    pub open spec fn spec_hits(self, ip: InAddrN, live: i64, now: i64) -> bool {
        self.is_valid && !self.spec_expired(live, now) && self.ip == ip
    }

    /// The age after one more lookup has passed over the entry.
    pub open spec fn spec_older(self) -> u16 {
        if self.age < u16::MAX {
            (self.age + 1) as u16
        } else {
            self.age
        }
    }

    /// The slot after a lookup of `ip` has reached it: an empty slot is left
    /// alone, an expired entry is dropped, the entry looked for is made
    /// young, any other entry grows older.
    pub open spec fn spec_scanned(self, ip: InAddrN, live: i64, now: i64) -> ARPRecod {
        if !self.is_valid {
            self
        } else if self.spec_expired(live, now) {
            ARPRecod { is_valid: false, ..self }
        } else if self.ip == ip {
            ARPRecod { age: 0, ..self }
        } else {
            ARPRecod { age: self.spec_older(), ..self }
        }
    }

    /// A fresh entry for `ip` at `mac`, made at `now`.
    pub open spec fn spec_fresh(ip: InAddrN, mac: Mac, now: i64) -> ARPRecod {
        ARPRecod { is_valid: true, age: 0, ip, ctime: now, mac }
    }

    pub fn expired(&self, live: i64, now: i64) -> (r: bool)
        ensures
            r == self.spec_expired(live, now),
    {
        (self.ctime as i128) + (live as i128) < (now as i128)
    }
}

/// The first slot at or after `from` where a lookup of `ip` stops, or the
/// length of the table when it stops nowhere.
pub open spec fn spec_first_hit(
    tab: Seq<ARPRecod>,
    ip: InAddrN,
    live: i64,
    now: i64,
    from: int,
) -> int
    decreases tab.len() - from,
{
    if from < 0 || from >= tab.len() {
        tab.len() as int
    } else if tab[from].spec_hits(ip, live, now) {
        from
    } else {
        spec_first_hit(tab, ip, live, now, from + 1)
    }
}

/// The table after a lookup of `ip`: every slot up to and including the one
/// where the lookup stops has been scanned, the slots behind it are as they
/// were.
pub open spec fn spec_lookup(tab: Seq<ARPRecod>, ip: InAddrN, live: i64, now: i64) -> Seq<
    ARPRecod,
> {
    let hit = spec_first_hit(tab, ip, live, now, 0);
    Seq::new(
        tab.len(),
        |i: int|
            if i <= hit {
                tab[i].spec_scanned(ip, live, now)
            } else {
                tab[i]
            },
    )
}

/// The first empty slot at or after `from`, or the length of the table when
/// every slot is taken.
pub open spec fn spec_first_invalid(tab: Seq<ARPRecod>, from: int) -> int
    decreases tab.len() - from,
{
    if from < 0 || from >= tab.len() {
        tab.len() as int
    } else if !tab[from].is_valid {
        from
    } else {
        spec_first_invalid(tab, from + 1)
    }
}

/// Among the first `n` slots, the last one of those with the largest age.
pub open spec fn spec_oldest(tab: Seq<ARPRecod>, n: int) -> int
    decreases n,
{
    if n <= 1 {
        0
    } else {
        let m = spec_oldest(tab, n - 1);
        if tab[n - 1].age >= tab[m].age {
            n - 1
        } else {
            m
        }
    }
}

/// The slot a new entry goes to: the first empty one, or, when the table is
/// full, the one that has gone longest without a match.
pub open spec fn spec_victim(tab: Seq<ARPRecod>) -> int {
    let free = spec_first_invalid(tab, 0);
    if free < tab.len() {
        free
    } else {
        spec_oldest(tab, tab.len() as int)
    }
}

/// The table after `ip` has been entered at `mac`: a lookup is made first;
/// where it stops, that entry gets the new address and time; where it stops
/// nowhere, a fresh entry replaces the victim.
pub open spec fn spec_insert(
    tab: Seq<ARPRecod>,
    ip: InAddrN,
    mac: Mac,
    live: i64,
    now: i64,
) -> Seq<ARPRecod> {
    let hit = spec_first_hit(tab, ip, live, now, 0);
    let scanned = spec_lookup(tab, ip, live, now);
    if hit < tab.len() {
        scanned.update(hit, ARPRecod { mac, ctime: now, ..scanned[hit] })
    } else {
        scanned.update(spec_victim(scanned), ARPRecod::spec_fresh(ip, mac, now))
    }
}

/// The number of valid entries.
pub open spec fn spec_valid_count(tab: Seq<ARPRecod>) -> nat
    decreases tab.len(),
{
    if tab.len() == 0 {
        0
    } else {
        spec_valid_count(tab.drop_last()) + if tab.last().is_valid {
            1nat
        } else {
            0nat
        }
    }
}

/// No two valid entries are for the same address.
pub open spec fn spec_unique(tab: Seq<ARPRecod>) -> bool {
    forall|i: int, j: int|
        0 <= i < tab.len() && 0 <= j < tab.len() && i != j && tab[i].is_valid
            && tab[j].is_valid ==> tab[i].ip != tab[j].ip
}

/// The address cache.
#[derive(Clone, Copy, Debug)]
pub struct ARPTab {
    pub tab: [ARPRecod; ARPTABSZ],
}

impl View for ARPTab {
    type V = Seq<ARPRecod>;

    open spec fn view(&self) -> Seq<ARPRecod> {
        self.tab@
    }
}

impl ARPTab {
    /// The invariant of the cache: no address is entered twice.
    pub open spec fn wf(&self) -> bool {
        spec_unique(self@)
    }

    /// A table with every slot empty.
    pub fn new() -> (r: Self)
        ensures
            r.wf(),
            r@.len() == ARPTABSZ,
            forall|i: int| 0 <= i < ARPTABSZ ==> !r@[i].is_valid,
            spec_valid_count(r@) == 0,
    {
        let e = ARPRecod {
            is_valid: false,
            age: 0,
            ip: InAddrN(0, 0, 0, 0),
            ctime: 0,
            mac: Mac(0, 0, 0, 0, 0, 0),
        };
        let r = ARPTab { tab: [e; ARPTABSZ] };
        proof {
            lemma_count_bounds(r@);
        }
        r
    }

    /// Looks `ip` up at time `now` and returns the slot that holds it.
    ///
    /// The valid slots are visited in order. An entry older than `live` is
    /// dropped. The entry for `ip` becomes young again and ends the search.
    /// Every other entry that is passed grows older by one, up to the
    /// largest age there is.
    pub fn lookup(&mut self, ip: InAddrN, live: i64, now: i64) -> (r: Option<usize>)
        ensures
            final(self)@ == spec_lookup(old(self)@, ip, live, now),
            match r {
                Some(i) => i == spec_first_hit(old(self)@, ip, live, now, 0) && i < ARPTABSZ,
                None => spec_first_hit(old(self)@, ip, live, now, 0) == ARPTABSZ,
            },
            old(self).wf() ==> final(self).wf(),
    {
        let ghost t0 = self@;
        let mut i: usize = 0;
        while i < ARPTABSZ
            invariant
                i <= ARPTABSZ,
                t0 == old(self)@,
                t0.len() == ARPTABSZ,
                self@.len() == ARPTABSZ,
                spec_first_hit(t0, ip, live, now, 0) == spec_first_hit(t0, ip, live, now, i as int),
                forall|j: int| 0 <= j < i ==> self@[j] == t0[j].spec_scanned(ip, live, now),
                forall|j: int| i <= j < ARPTABSZ ==> self@[j] == t0[j],
            decreases ARPTABSZ - i,
        {
            let rec: ARPRecod = self.tab[i];
            proof {
                assert(rec == t0[i as int]);
                lemma_first_hit(t0, ip, live, now, i as int);
            }
            if rec.is_valid {
                if rec.expired(live, now) {
                    self.tab[i] = ARPRecod { is_valid: false, ..rec };
                } else if rec.ip == ip {
                    self.tab[i] = ARPRecod { age: 0, ..rec };
                    proof {
                        assert(self@ =~= spec_lookup(t0, ip, live, now));
                        lemma_lookup_keeps_unique(t0, ip, live, now);
                    }
                    return Some(i);
                } else if rec.age < u16::MAX {
                    self.tab[i] = ARPRecod { age: rec.age + 1, ..rec };
                }
            }
            i = i + 1;
        }
        proof {
            assert(self@ =~= spec_lookup(t0, ip, live, now));
            lemma_lookup_keeps_unique(t0, ip, live, now);
        }
        None
    }

    /// Looks `ip` up as [`lookup`](Self::lookup) does and hands out the
    /// entry found, for the caller to change.
    ///
    /// `None` is a miss. The table is then what the lookup left; after a
    /// hit it is that with the slot found holding whatever the caller left
    /// in the entry.
    pub fn get_mut_and_update(&mut self, ip: InAddrN, live: i64, now: i64) -> (r: Option<
        &mut ARPRecod,
    >)
        ensures
            match r {
                Some(rec) => {
                    let hit = spec_first_hit(old(self)@, ip, live, now, 0);
                    &&& hit < ARPTABSZ
                    &&& *rec == spec_lookup(old(self)@, ip, live, now)[hit]
                    &&& rec.is_valid
                    &&& rec.age == 0
                    &&& rec.ip == ip
                    &&& final(self)@ == spec_lookup(old(self)@, ip, live, now).update(
                        hit,
                        *final(rec),
                    )
                },
                None => {
                    &&& spec_first_hit(old(self)@, ip, live, now, 0) == ARPTABSZ
                    &&& final(self)@ == spec_lookup(old(self)@, ip, live, now)
                },
            },
    {
        proof {
            lemma_first_hit(self@, ip, live, now, 0);
        }
        match self.lookup(ip, live, now) {
            Some(i) => Some(&mut self.tab[i]),
            None => None,
        }
    }

    /// The entry in slot `i`.
    pub fn get(&self, i: usize) -> (r: ARPRecod)
        requires
            i < ARPTABSZ,
        ensures
            r == self@[i as int],
    {
        self.tab[i]
    }

    /// Enters `ip` at `mac`.
    ///
    /// A lookup is made first. Where it finds the address, that entry gets
    /// the new hardware address and time. Where it does not, the first empty
    /// slot is taken, or, in a full table, the last of the entries with the
    /// largest age; the slot becomes a young entry made at `now`.
    pub fn insert(&mut self, ip: InAddrN, mac: Mac, live: i64, now: i64)
        ensures
            final(self)@ == spec_insert(old(self)@, ip, mac, live, now),
            old(self).wf() ==> final(self).wf(),
    {
        let ghost t0 = self@;
        match self.lookup(ip, live, now) {
            Some(i) => {
                let rec: ARPRecod = self.tab[i];
                self.tab[i] = ARPRecod { mac: mac, ctime: now, ..rec };
                proof {
                    assert(self@ =~= spec_insert(t0, ip, mac, live, now));
                }
            },
            None => {
                let v: usize = self.victim();
                self.tab[v] = ARPRecod { is_valid: true, age: 0, ip: ip, ctime: now, mac: mac };
                proof {
                    assert(self@ =~= spec_insert(t0, ip, mac, live, now));
                }
            },
        }
        proof {
            lemma_insert_keeps_unique(t0, ip, mac, live, now);
        }
    }

    /// The slot a new entry would go to.
    pub fn victim(&self) -> (r: usize)
        ensures
            r == spec_victim(self@),
            r < ARPTABSZ,
    {
        let mut i: usize = 0;
        while i < ARPTABSZ
            invariant
                i <= ARPTABSZ,
                self@.len() == ARPTABSZ,
                spec_first_invalid(self@, 0) == spec_first_invalid(self@, i as int),
            decreases ARPTABSZ - i,
        {
            if !self.tab[i].is_valid {
                return i;
            }
            i = i + 1;
        }
        let mut m: usize = 0;
        let mut n: usize = 1;
        while n < ARPTABSZ
            invariant
                1 <= n <= ARPTABSZ,
                m < n,
                self@.len() == ARPTABSZ,
                m == spec_oldest(self@, n as int),
            decreases ARPTABSZ - n,
        {
            if self.tab[n].age >= self.tab[m].age {
                m = n;
            }
            n = n + 1;
        }
        m
    }

    /// The number of valid entries.
    pub fn valid_count(&self) -> (r: usize)
        ensures
            r == spec_valid_count(self@),
            r <= ARPTABSZ,
    {
        let mut c: usize = 0;
        let mut i: usize = 0;
        while i < ARPTABSZ
            invariant
                i <= ARPTABSZ,
                self@.len() == ARPTABSZ,
                c <= i,
                c == spec_valid_count(self@.subrange(0, i as int)),
            decreases ARPTABSZ - i,
        {
            proof {
                assert(self@.subrange(0, i + 1).drop_last() =~= self@.subrange(0, i as int));
            }
            if self.tab[i].is_valid {
                c = c + 1;
            }
            i = i + 1;
        }
        proof {
            assert(self@.subrange(0, ARPTABSZ as int) =~= self@);
        }
        c
    }
}

/// The count of valid entries never exceeds the number of slots.
pub proof fn lemma_count_bounds(tab: Seq<ARPRecod>)
    ensures
        spec_valid_count(tab) <= tab.len(),
        (forall|i: int| 0 <= i < tab.len() ==> !tab[i].is_valid) ==> spec_valid_count(tab) == 0,
        (forall|i: int| 0 <= i < tab.len() ==> tab[i].is_valid) ==> spec_valid_count(tab)
            == tab.len(),
    decreases tab.len(),
{
    if tab.len() > 0 {
        lemma_count_bounds(tab.drop_last());
    }
}

/// Where the search from `from` ends: at a slot that matches, with no
/// matching slot between `from` and it, or behind the table.
pub proof fn lemma_first_hit(tab: Seq<ARPRecod>, ip: InAddrN, live: i64, now: i64, from: int)
    requires
        0 <= from <= tab.len(),
    ensures
        from <= spec_first_hit(tab, ip, live, now, from) <= tab.len(),
        spec_first_hit(tab, ip, live, now, from) < tab.len() ==> tab[spec_first_hit(
            tab,
            ip,
            live,
            now,
            from,
        )].spec_hits(ip, live, now),
        forall|k: int|
            from <= k < spec_first_hit(tab, ip, live, now, from) ==> !(#[trigger] tab[k]).spec_hits(
                ip,
                live,
                now,
            ),
    decreases tab.len() - from,
{
    if from < tab.len() && !tab[from].spec_hits(ip, live, now) {
        lemma_first_hit(tab, ip, live, now, from + 1);
    }
}

/// Where the search for an empty slot from `from` ends: at an empty slot,
/// with no empty slot between `from` and it, or behind the table.
pub proof fn lemma_first_invalid(tab: Seq<ARPRecod>, from: int)
    requires
        0 <= from <= tab.len(),
    ensures
        from <= spec_first_invalid(tab, from) <= tab.len(),
        spec_first_invalid(tab, from) < tab.len() ==> !tab[spec_first_invalid(tab, from)].is_valid,
        forall|k: int| from <= k < spec_first_invalid(tab, from) ==> (#[trigger] tab[k]).is_valid,
    decreases tab.len() - from,
{
    if from < tab.len() && tab[from].is_valid {
        lemma_first_invalid(tab, from + 1);
    }
}

/// The oldest of the first `n` slots is one of them and no slot among them
/// has a larger age.
pub proof fn lemma_oldest(tab: Seq<ARPRecod>, n: int)
    requires
        1 <= n <= tab.len(),
    ensures
        0 <= spec_oldest(tab, n) < n,
        forall|k: int| 0 <= k < n ==> (#[trigger] tab[k]).age <= tab[spec_oldest(tab, n)].age,
    decreases n,
{
    if n > 1 {
        lemma_oldest(tab, n - 1);
    }
}

/// A lookup enters no address and so keeps the entries distinct.
pub proof fn lemma_lookup_keeps_unique(tab: Seq<ARPRecod>, ip: InAddrN, live: i64, now: i64)
    ensures
        spec_unique(tab) ==> spec_unique(spec_lookup(tab, ip, live, now)),
{
    let t1 = spec_lookup(tab, ip, live, now);
    if spec_unique(tab) {
        assert forall|i: int, j: int|
            0 <= i < t1.len() && 0 <= j < t1.len() && i != j && t1[i].is_valid
                && t1[j].is_valid implies t1[i].ip != t1[j].ip by {
            assert(tab[i].is_valid && tab[j].is_valid);
            assert(t1[i].ip == tab[i].ip && t1[j].ip == tab[j].ip);
        }
    }
}

/// Entering an address keeps the entries distinct.
pub proof fn lemma_insert_keeps_unique(
    tab: Seq<ARPRecod>,
    ip: InAddrN,
    mac: Mac,
    live: i64,
    now: i64,
)
    requires
        tab.len() > 0,
    ensures
        spec_unique(tab) ==> spec_unique(spec_insert(tab, ip, mac, live, now)),
{
    let hit = spec_first_hit(tab, ip, live, now, 0);
    let t1 = spec_lookup(tab, ip, live, now);
    let t2 = spec_insert(tab, ip, mac, live, now);
    lemma_lookup_keeps_unique(tab, ip, live, now);
    lemma_first_hit(tab, ip, live, now, 0);
    if spec_unique(tab) {
        if hit < tab.len() {
            assert forall|i: int, j: int|
                0 <= i < t2.len() && 0 <= j < t2.len() && i != j && t2[i].is_valid
                    && t2[j].is_valid implies t2[i].ip != t2[j].ip by {
                assert(t1[i].is_valid && t1[j].is_valid);
                assert(t2[i].ip == t1[i].ip && t2[j].ip == t1[j].ip);
            }
        } else {
            let v = spec_victim(t1);
            lemma_first_invalid(t1, 0);
            lemma_oldest(t1, t1.len() as int);
            assert forall|k: int| 0 <= k < t1.len() && t1[k].is_valid implies t1[k].ip != ip by {
                assert(!tab[k].spec_hits(ip, live, now));
            }
            assert forall|i: int, j: int|
                0 <= i < t2.len() && 0 <= j < t2.len() && i != j && t2[i].is_valid
                    && t2[j].is_valid implies t2[i].ip != t2[j].ip by {
                if i != v && j != v {
                    assert(t2[i] == t1[i] && t2[j] == t1[j]);
                } else if i == v {
                    assert(t2[j] == t1[j]);
                } else {
                    assert(t2[i] == t1[i]);
                }
            }
        }
    }
}

/// Replacing one slot changes the count by what the slot gains or loses.
pub proof fn lemma_count_update(tab: Seq<ARPRecod>, i: int, r: ARPRecod)
    requires
        0 <= i < tab.len(),
    ensures
        spec_valid_count(tab.update(i, r)) + (if tab[i].is_valid {
            1nat
        } else {
            0nat
        }) == spec_valid_count(tab) + (if r.is_valid {
            1nat
        } else {
            0nat
        }),
    decreases tab.len(),
{
    let t = tab.update(i, r);
    if i == tab.len() - 1 {
        assert(t.drop_last() =~= tab.drop_last());
    } else {
        assert(t.drop_last() =~= tab.drop_last().update(i, r));
        lemma_count_update(tab.drop_last(), i, r);
    }
}

/// Two tables that agree slot by slot on validity hold the same number of
/// entries; a table whose valid slots are all valid in another holds no
/// more than the other.
pub proof fn lemma_count_monotone(a: Seq<ARPRecod>, b: Seq<ARPRecod>)
    requires
        a.len() == b.len(),
        forall|i: int| 0 <= i < a.len() ==> (a[i].is_valid ==> b[i].is_valid),
    ensures
        spec_valid_count(a) <= spec_valid_count(b),
        (forall|i: int| 0 <= i < a.len() ==> a[i].is_valid == b[i].is_valid) ==> spec_valid_count(
            a,
        ) == spec_valid_count(b),
    decreases a.len(),
{
    if a.len() > 0 {
        lemma_count_monotone(a.drop_last(), b.drop_last());
    }
}

/// A lookup never adds an entry, and drops none when none has expired.
pub proof fn lemma_lookup_count(tab: Seq<ARPRecod>, ip: InAddrN, live: i64, now: i64)
    ensures
        spec_valid_count(spec_lookup(tab, ip, live, now)) <= spec_valid_count(tab),
        (forall|i: int| 0 <= i < tab.len() && tab[i].is_valid ==> !tab[i].spec_expired(live, now))
            ==> spec_valid_count(spec_lookup(tab, ip, live, now)) == spec_valid_count(tab),
{
    let t1 = spec_lookup(tab, ip, live, now);
    lemma_count_monotone(t1, tab);
    if forall|i: int| 0 <= i < tab.len() && tab[i].is_valid ==> !tab[i].spec_expired(live, now) {
        lemma_count_monotone(tab, t1);
    }
}

/// Cache hit refresh: once `ip` has been entered at `mac`, a lookup of `ip`
/// made before the entry is stale stops at a valid entry for `ip` with age
/// zero and hardware address `mac`.
pub proof fn lemma_hit_after_insert(
    tab: Seq<ARPRecod>,
    ip: InAddrN,
    mac: Mac,
    live: i64,
    now: i64,
    live2: i64,
    now2: i64,
)
    requires
        tab.len() > 0,
        now + live2 >= now2,
    ensures
        ({
            let t = spec_insert(tab, ip, mac, live, now);
            let h = spec_first_hit(t, ip, live2, now2, 0);
            let found = spec_lookup(t, ip, live2, now2)[h];
            &&& 0 <= h < tab.len()
            &&& found.is_valid
            &&& found.ip == ip
            &&& found.age == 0
            &&& found.mac == mac
        }),
{
    let hit = spec_first_hit(tab, ip, live, now, 0);
    let t1 = spec_lookup(tab, ip, live, now);
    let t = spec_insert(tab, ip, mac, live, now);
    lemma_first_hit(tab, ip, live, now, 0);
    let s = if hit < tab.len() {
        hit
    } else {
        spec_victim(t1)
    };
    if hit >= tab.len() {
        lemma_first_invalid(t1, 0);
        lemma_oldest(t1, t1.len() as int);
    }
    assert(0 <= s < tab.len());
    assert(t[s].spec_hits(ip, live2, now2));
    assert forall|k: int| 0 <= k < s implies !(#[trigger] t[k]).spec_hits(ip, live2, now2) by {
        assert(t[k] == t1[k]);
        assert(!tab[k].spec_hits(ip, live, now));
    }
    lemma_first_hit(t, ip, live2, now2, 0);
    let h = spec_first_hit(t, ip, live2, now2, 0);
    if h < s {
        assert(!t[h].spec_hits(ip, live2, now2));
    }
    if h > s {
        assert(!t[s].spec_hits(ip, live2, now2));
    }
    assert(h == s);
}

/// Cache capacity: entering an address that the lookup finds leaves the
/// number of entries as the lookup left it; entering one that it does not
/// find adds one entry while a slot is free; in a full table it replaces an
/// entry of the largest age, and the table stays full.
pub proof fn lemma_insert_capacity(tab: Seq<ARPRecod>, ip: InAddrN, mac: Mac, live: i64, now: i64)
    requires
        tab.len() > 0,
    ensures
        ({
            let hit = spec_first_hit(tab, ip, live, now, 0);
            let t1 = spec_lookup(tab, ip, live, now);
            let t2 = spec_insert(tab, ip, mac, live, now);
            let v = spec_victim(t1);
            &&& spec_valid_count(t2) <= tab.len()
            &&& hit < tab.len() ==> spec_valid_count(t2) == spec_valid_count(t1)
            &&& hit == tab.len() ==> {
                &&& 0 <= v < tab.len()
                &&& t2 == t1.update(v, ARPRecod::spec_fresh(ip, mac, now))
                &&& !t1[v].is_valid ==> spec_valid_count(t2) == spec_valid_count(t1) + 1
                &&& t1[v].is_valid ==> {
                    &&& spec_valid_count(t1) == tab.len()
                    &&& spec_valid_count(t2) == tab.len()
                    &&& forall|k: int| 0 <= k < tab.len() ==> (#[trigger] t1[k]).age <= t1[v].age
                }
            }
        }),
{
    let hit = spec_first_hit(tab, ip, live, now, 0);
    let t1 = spec_lookup(tab, ip, live, now);
    let t2 = spec_insert(tab, ip, mac, live, now);
    lemma_first_hit(tab, ip, live, now, 0);
    lemma_count_bounds(t2);
    if hit < tab.len() {
        lemma_count_update(t1, hit, ARPRecod { mac, ctime: now, ..t1[hit] });
    } else {
        let v = spec_victim(t1);
        lemma_first_invalid(t1, 0);
        lemma_oldest(t1, t1.len() as int);
        lemma_count_update(t1, v, ARPRecod::spec_fresh(ip, mac, now));
        if t1[v].is_valid {
            lemma_count_bounds(t1);
        }
    }
}

/// Cache capacity, in a table where nothing is stale: entering an address
/// that is not there yet makes the table hold one entry more, up to the
/// number of slots.
pub proof fn lemma_insert_fresh_count(
    tab: Seq<ARPRecod>,
    ip: InAddrN,
    mac: Mac,
    live: i64,
    now: i64,
)
    requires
        tab.len() > 0,
        forall|i: int| 0 <= i < tab.len() && tab[i].is_valid ==> !tab[i].spec_expired(live, now),
        forall|i: int| 0 <= i < tab.len() && tab[i].is_valid ==> tab[i].ip != ip,
    ensures
        spec_valid_count(spec_insert(tab, ip, mac, live, now)) == if spec_valid_count(tab)
            < tab.len() {
            spec_valid_count(tab) + 1
        } else {
            tab.len()
        },
{
    let t1 = spec_lookup(tab, ip, live, now);
    lemma_first_hit(tab, ip, live, now, 0);
    let hit = spec_first_hit(tab, ip, live, now, 0);
    if hit < tab.len() {
        assert(tab[hit].spec_hits(ip, live, now));
    }
    lemma_lookup_count(tab, ip, live, now);
    lemma_insert_capacity(tab, ip, mac, live, now);
    lemma_count_bounds(tab);
    lemma_first_invalid(t1, 0);
    let v = spec_victim(t1);
    if t1[v].is_valid {
        assert(spec_valid_count(t1) == tab.len());
    } else {
        lemma_count_bounds(t1);
        lemma_count_update(t1, v, ARPRecod::spec_fresh(ip, mac, now));
        assert(spec_valid_count(t1) < tab.len()) by {
            lemma_count_update(t1, v, ARPRecod::spec_fresh(ip, mac, now));
            lemma_count_bounds(t1.update(v, ARPRecod::spec_fresh(ip, mac, now)));
        }
    }
}

/// Cache expiry: an entry that is stale when a lookup reaches it is dropped
/// by that lookup, and an address entered afterwards that the table does
/// not hold goes into the first free slot, which is the slot of the dropped
/// entry when no slot before it is free.
pub proof fn lemma_expired_slot_is_reused(
    tab: Seq<ARPRecod>,
    i: int,
    ip: InAddrN,
    live: i64,
    now: i64,
    ip2: InAddrN,
    mac2: Mac,
    live2: i64,
    now2: i64,
)
    requires
        0 <= i < tab.len(),
        tab[i].is_valid,
        tab[i].spec_expired(live, now),
        i <= spec_first_hit(tab, ip, live, now, 0),
        spec_first_hit(spec_lookup(tab, ip, live, now), ip2, live2, now2, 0) == tab.len(),
    ensures
        ({
            let t1 = spec_lookup(tab, ip, live, now);
            let t2 = spec_insert(t1, ip2, mac2, live2, now2);
            let free = spec_first_invalid(spec_lookup(t1, ip2, live2, now2), 0);
            &&& !t1[i].is_valid
            &&& 0 <= free <= i
            &&& t2[free] == ARPRecod::spec_fresh(ip2, mac2, now2)
            &&& (forall|k: int| 0 <= k < i ==> (#[trigger] t1[k]).is_valid && !t1[k].spec_expired(
                live2,
                now2,
            )) ==> free == i
        }),
{
    let t1 = spec_lookup(tab, ip, live, now);
    let s1 = spec_lookup(t1, ip2, live2, now2);
    assert(!t1[i].is_valid);
    assert(!s1[i].is_valid);
    lemma_first_invalid(s1, 0);
    let free = spec_first_invalid(s1, 0);
    if free > i {
        assert(s1[i].is_valid);
    }
    if forall|k: int| 0 <= k < i ==> (#[trigger] t1[k]).is_valid && !t1[k].spec_expired(live2, now2) {
        if free < i {
            assert(t1[free].is_valid);
            assert(s1[free].is_valid);
        }
    }
}

} // verus!
