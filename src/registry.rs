//! The open connections, by peer address, with a lookup by public key.
use vstd::prelude::*;

use crate::addr::PeerAddr;
use crate::connection::Connection;
use crate::error::CoreError;
use crate::frame::Frame;
use crate::identity::{ContactIdentity, PublicKey};

verus! {

/// An open connection and what is known of its peer.
pub struct ConnectionData<S> {
    pub addr: PeerAddr,
    pub conn: Connection<S>,
    pub iden: ContactIdentity,
}

/// The open connections. At most one per address: the first one to be
/// inserted for an address stays, and later ones are turned away.
pub struct ActiveConnections<S> {
    entries: Vec<ConnectionData<S>>,
}

/// Whether an address has an entry in a registry's view.
pub open spec fn has_addr(v: Seq<(PeerAddr, Seq<u8>)>, addr: PeerAddr) -> bool {
    exists|i: int| 0 <= i < v.len() && #[trigger] v[i].0 == addr
}

/// No two entries share an address.
pub open spec fn unique_addrs(v: Seq<(PeerAddr, Seq<u8>)>) -> bool {
    forall|i: int, j: int| 0 <= i < v.len() && 0 <= j < v.len() && i != j ==> #[trigger] v[i].0 != #[trigger] v[j].0
}

/// No two entries share a public key.
pub open spec fn distinct_keys(v: Seq<(PeerAddr, Seq<u8>)>) -> bool {
    forall|i: int, j: int| 0 <= i < v.len() && 0 <= j < v.len() && i != j ==> #[trigger] v[i].1 != #[trigger] v[j].1
}

/// What a lookup by public key gives: the address of an entry whose
/// contact has the key, or nothing where no entry's contact has it.
pub open spec fn lookup_key(v: Seq<(PeerAddr, Seq<u8>)>, key: Seq<u8>, r: Option<PeerAddr>) -> bool {
    match r {
        None => forall|j: int| 0 <= j < v.len() ==> #[trigger] v[j].1 != key,
        Some(a) => exists|i: int| 0 <= i < v.len() && #[trigger] v[i] == (a, key),
    }
}

/// Public-key byte order: `a` comes before `b` if, at the first byte where
/// they differ, `a`'s byte is smaller.
pub open spec fn key_before(a: Seq<u8>, b: Seq<u8>) -> bool {
    exists|k: int| 0 <= k < a.len() && k < b.len() && a[k] < b[k] && forall|j: int| 0 <= j < k ==> #[trigger] a[j] == b[j]
}

/// A snapshot in public-key byte order.
pub open spec fn sorted_by_key(s: Seq<([u8; 32], PeerAddr)>) -> bool {
    forall|i: int, j: int| 0 <= i < j < s.len() ==> !key_before(#[trigger] s[j].0@, #[trigger] s[i].0@)
}

/// Key order is a strict order: keys do not come before themselves, and the
/// order is transitive.
proof fn lemma_key_order(a: Seq<u8>, b: Seq<u8>, c: Seq<u8>)
    requires
        a.len() == 32,
        b.len() == 32,
        c.len() == 32,
    ensures
        !key_before(a, a),
        key_before(a, b) ==> !key_before(b, a),
        key_before(a, b) && key_before(b, c) ==> key_before(a, c),
        !key_before(a, b) && !key_before(b, a) ==> a == b,
{
    if key_before(a, b) {
        let k = choose|k: int| 0 <= k < a.len() && k < b.len() && a[k] < b[k] && forall|j: int| 0 <= j < k ==> #[trigger] a[j] == b[j];
        if key_before(b, a) {
            let m = choose|m: int| 0 <= m < b.len() && m < a.len() && b[m] < a[m] && forall|j: int| 0 <= j < m ==> #[trigger] b[j] == a[j];
            if k < m {
                assert(b[k] == a[k]);
            } else if m < k {
                assert(a[m] == b[m]);
            }
        }
        if key_before(b, c) {
            let m = choose|m: int| 0 <= m < b.len() && m < c.len() && b[m] < c[m] && forall|j: int| 0 <= j < m ==> #[trigger] b[j] == c[j];
            let w = if k < m { k } else { m };
            assert(a[w] < c[w]);
            assert forall|j: int| 0 <= j < w implies #[trigger] a[j] == c[j] by {
                assert(a[j] == b[j]);
                assert(b[j] == c[j]);
            }
        }
    }
    if !key_before(a, b) && !key_before(b, a) {
        assert forall|i: int| 0 <= i < 32 implies a[i] == b[i] by {
            if exists|d: int| 0 <= d < 32 && a[d] != b[d] {
                let d0 = choose|d: int| 0 <= d < 32 && a[d] != b[d];
                lemma_first_difference(a, b, d0);
            }
        }
        assert(a =~= b);
    }
}

/// Where two keys differ, there is a first byte where they do, and one key
/// comes before the other.
proof fn lemma_first_difference(a: Seq<u8>, b: Seq<u8>, d: int)
    requires
        a.len() == 32,
        b.len() == 32,
        0 <= d < 32,
        a[d] != b[d],
    ensures
        key_before(a, b) || key_before(b, a),
    decreases d,
{
    if exists|e: int| 0 <= e < d && a[e] != b[e] {
        let e = choose|e: int| 0 <= e < d && a[e] != b[e];
        lemma_first_difference(a, b, e);
    } else {
        assert forall|j: int| 0 <= j < d implies #[trigger] a[j] == b[j] by {}
        assert forall|j: int| 0 <= j < d implies #[trigger] b[j] == a[j] by {}
        if a[d] < b[d] {
            assert(key_before(a, b));
        } else {
            assert(key_before(b, a));
        }
    }
}

/// Compares two keys in public-key byte order: negative if `a` comes first,
/// zero if they are equal, positive if `b` comes first.
fn compare_keys(a: &[u8; 32], b: &[u8; 32]) -> (r: i8)
    ensures
        r < 0 <==> key_before(a@, b@),
        r == 0 <==> a@ == b@,
        r > 0 <==> key_before(b@, a@),
{
    proof {
        lemma_key_order(a@, b@, b@);
        lemma_key_order(b@, a@, a@);
    }
    let mut i: usize = 0;
    while i < 32
        invariant
            i <= 32,
            a@.len() == 32,
            b@.len() == 32,
            forall|j: int| 0 <= j < i ==> #[trigger] a@[j] == b@[j],
        decreases 32 - i,
    {
        if a[i] < b[i] {
            assert(key_before(a@, b@));
            return -1;
        }
        if a[i] > b[i] {
            assert forall|j: int| 0 <= j < i implies #[trigger] b@[j] == a@[j] by {}
            assert(key_before(b@, a@));
            return 1;
        }
        i = i + 1;
    }
    assert(a@ =~= b@);
    0
}

/// Relies on `slice::sort_by_key`, with `[u8; 32]`'s order, which std
/// documents as lexicographic: the same items, in public-key byte order.
#[verifier::external_body]
fn sort_by_public_key(snapshot: &mut Vec<([u8; 32], PeerAddr)>)
    ensures
        final(snapshot)@.to_multiset() == old(snapshot)@.to_multiset(),
        sorted_by_key(final(snapshot)@),
{
    snapshot.sort_by_key(|e| e.0)
}

/// Binary search of a sorted snapshot for `key`.
fn search_sorted(snapshot: &Vec<([u8; 32], PeerAddr)>, key: &[u8; 32]) -> (r: Option<usize>)
    requires
        sorted_by_key(snapshot@),
    ensures
        r matches Some(m) ==> m < snapshot@.len() && snapshot@[m as int].0@ == key@,
        r is None ==> forall|j: int| 0 <= j < snapshot@.len() ==> #[trigger] snapshot@[j].0@ != key@,
{
    let mut lo: usize = 0;
    let mut hi: usize = snapshot.len();
    while lo < hi
        invariant
            lo <= hi <= snapshot@.len(),
            sorted_by_key(snapshot@),
            key@.len() == 32,
            forall|j: int| 0 <= j < lo ==> key_before(#[trigger] snapshot@[j].0@, key@),
            forall|j: int| hi <= j < snapshot@.len() ==> key_before(key@, #[trigger] snapshot@[j].0@),
        decreases hi - lo,
    {
        let mid = lo + (hi - lo) / 2;
        let c = compare_keys(&snapshot[mid].0, key);
        if c == 0 {
            return Some(mid);
        } else if c < 0 {
            assert forall|j: int| 0 <= j <= mid implies key_before(#[trigger] snapshot@[j].0@, key@) by {
                if j < mid {
                    lemma_key_order(snapshot@[j].0@, snapshot@[mid as int].0@, key@);
                    lemma_key_order(snapshot@[mid as int].0@, snapshot@[j].0@, snapshot@[j].0@);
                }
            }
            lo = mid + 1;
        } else {
            assert forall|j: int| mid <= j < snapshot@.len() implies key_before(key@, #[trigger] snapshot@[j].0@) by {
                if j > mid {
                    lemma_key_order(key@, snapshot@[mid as int].0@, snapshot@[j].0@);
                    lemma_key_order(snapshot@[j].0@, snapshot@[mid as int].0@, snapshot@[mid as int].0@);
                }
            }
            hi = mid;
        }
    }
    assert forall|j: int| 0 <= j < snapshot@.len() implies #[trigger] snapshot@[j].0@ != key@ by {
        lemma_key_order(key@, key@, key@);
    }
    None
}

/// What inserting an entry for `addr` whose contact has `key` does to a
/// registry's view, and whether the entry is taken.
pub open spec fn insert_outcome(v: Seq<(PeerAddr, Seq<u8>)>, addr: PeerAddr, key: Seq<u8>) -> (Seq<(PeerAddr, Seq<u8>)>, bool) {
    if has_addr(v, addr) {
        (v, false)
    } else {
        (v.push((addr, key)), true)
    }
}

/// Inserting two entries for one address leaves exactly one entry for it,
/// the first, and turns the second away.
pub proof fn lemma_duplicate_insertion(v: Seq<(PeerAddr, Seq<u8>)>, addr: PeerAddr, first: Seq<u8>, second: Seq<u8>)
    requires
        unique_addrs(v),
        !has_addr(v, addr),
    ensures
        ({
            let (v1, taken1) = insert_outcome(v, addr, first);
            let (v2, taken2) = insert_outcome(v1, addr, second);
            &&& taken1
            &&& !taken2
            &&& v2 == v.push((addr, first))
            &&& unique_addrs(v2)
            &&& v2.len() == v.len() + 1
            &&& forall|i: int| 0 <= i < v2.len() && #[trigger] v2[i].0 == addr ==> i == v.len() && v2[i].1 == first
        }),
{
    let v1 = v.push((addr, first));
    assert(v1[v.len() as int].0 == addr);
    assert(has_addr(v1, addr));
    lemma_push_keeps_unique_addrs(v, addr, first);
    assert forall|i: int| 0 <= i < v1.len() && #[trigger] v1[i].0 == addr implies i == v.len() && v1[i].1 == first by {
        if i < v.len() {
            assert(v[i].0 == addr);
        }
    }
}

/// Pushing an entry for an address that has none keeps addresses unique.
pub proof fn lemma_push_keeps_unique_addrs(v: Seq<(PeerAddr, Seq<u8>)>, addr: PeerAddr, key: Seq<u8>)
    requires
        unique_addrs(v),
        !has_addr(v, addr),
    ensures
        unique_addrs(v.push((addr, key))),
{
    let w = v.push((addr, key));
    assert forall|i: int, j: int| 0 <= i < w.len() && 0 <= j < w.len() && i != j implies #[trigger] w[i].0 != #[trigger] w[j].0 by {
        if i == v.len() {
            assert(v[j].0 == w[j].0);
        } else if j == v.len() {
            assert(v[i].0 == w[i].0);
        }
    }
}

/// Where no two entries share a key, a lookup gives, for each entry's key,
/// that entry's address and no other, and for a key no entry has, nothing.
pub proof fn lemma_lookup_distinct_keys(v: Seq<(PeerAddr, Seq<u8>)>, key: Seq<u8>, r: Option<PeerAddr>)
    requires
        distinct_keys(v),
        lookup_key(v, key, r),
    ensures
        forall|i: int| 0 <= i < v.len() && #[trigger] v[i].1 == key ==> r == Some(v[i].0),
        (forall|i: int| 0 <= i < v.len() ==> #[trigger] v[i].1 != key) ==> r is None,
{
    assert forall|i: int| 0 <= i < v.len() && #[trigger] v[i].1 == key implies r == Some(v[i].0) by {
        if r is Some {
            let m = choose|m: int| 0 <= m < v.len() && #[trigger] v[m] == (r->Some_0, key);
            if m != i {
                assert(v[m].1 == v[i].1);
            }
        } else {
            assert(v[i].1 != key);
        }
    }
    if r is Some {
        let m = choose|m: int| 0 <= m < v.len() && #[trigger] v[m] == (r->Some_0, key);
        assert(v[m].1 == key);
    }
}

/// Inserting an entry with a fresh key, and removing any entry, keep keys
/// distinct; so lookups stay right after any run of insertions and removals.
pub proof fn lemma_distinct_keys_kept(v: Seq<(PeerAddr, Seq<u8>)>, addr: PeerAddr, key: Seq<u8>, k: int)
    requires
        distinct_keys(v),
    ensures
        (forall|i: int| 0 <= i < v.len() ==> #[trigger] v[i].1 != key) ==> distinct_keys(insert_outcome(v, addr, key).0),
        0 <= k < v.len() ==> distinct_keys(v.remove(k)),
{
    if forall|i: int| 0 <= i < v.len() ==> #[trigger] v[i].1 != key {
        let w = insert_outcome(v, addr, key).0;
        if !has_addr(v, addr) {
            assert forall|i: int, j: int| 0 <= i < w.len() && 0 <= j < w.len() && i != j implies #[trigger] w[i].1 != #[trigger] w[j].1 by {
                if i == v.len() {
                    assert(v[j].1 == w[j].1);
                } else if j == v.len() {
                    assert(v[i].1 == w[i].1);
                }
            }
        }
    }
    if 0 <= k < v.len() {
        let w = v.remove(k);
        assert forall|i: int, j: int| 0 <= i < w.len() && 0 <= j < w.len() && i != j implies #[trigger] w[i].1 != #[trigger] w[j].1 by {
            let oi = if i < k { i } else { i + 1 };
            let oj = if j < k { j } else { j + 1 };
            assert(w[i] == v[oi]);
            assert(w[j] == v[oj]);
        }
    }
}

impl<S> ActiveConnections<S> {
    /// The entries in order of insertion, each as its address and its
    /// contact's public key.
    pub closed spec fn view(&self) -> Seq<(PeerAddr, Seq<u8>)> {
        Seq::new(
            self.entries@.len(),
            |i: int| (self.entries@[i].addr, self.entries@[i].iden.identity.public_key@),
        )
    }

    /// The contact records of the entries, in order of insertion.
    pub closed spec fn records(&self) -> Seq<ContactIdentity> {
        Seq::new(self.entries@.len(), |i: int| self.entries@[i].iden)
    }

    /// Every connection held is still connected.
    pub closed spec fn all_connected(&self) -> bool {
        forall|i: int| 0 <= i < self.entries@.len() ==> #[trigger] self.entries@[i].conn.connected()
    }

    pub open spec fn wf(&self) -> bool {
        &&& unique_addrs(self.view())
        &&& self.all_connected()
        &&& self.records().len() == self.view().len()
    }

    /// An empty registry.
    pub fn new() -> (r: ActiveConnections<S>)
        ensures
            r.wf(),
            r.view() == Seq::<(PeerAddr, Seq<u8>)>::empty(),
            r.records() == Seq::<ContactIdentity>::empty(),
    {
        let r = ActiveConnections { entries: Vec::new() };
        assert(r.view() =~= Seq::<(PeerAddr, Seq<u8>)>::empty());
        assert(r.records() =~= Seq::<ContactIdentity>::empty());
        r
    }

    /// The number of open connections.
    pub fn len(&self) -> (r: usize)
        ensures
            r == self.view().len(),
    {
        self.entries.len()
    }

    /// The position of the entry for `addr`.
    fn position_of(&self, addr: &PeerAddr) -> (r: Option<usize>)
        ensures
            r is None <==> !has_addr(self.view(), *addr),
            r matches Some(i) ==> i < self.view().len() && self.view()[i as int].0 == *addr,
    {
        let mut i: usize = 0;
        while i < self.entries.len()
            invariant
                i <= self.entries@.len(),
                forall|j: int| 0 <= j < i ==> #[trigger] self.view()[j].0 != *addr,
            decreases self.entries@.len() - i,
        {
            if self.entries[i].addr == *addr {
                assert(self.view()[i as int].0 == *addr);
                return Some(i);
            }
            i = i + 1;
        }
        None
    }

    /// Whether a connection to `addr` is open.
    pub fn contains(&self, addr: &PeerAddr) -> (r: bool)
        ensures
            r == has_addr(self.view(), *addr),
    {
        self.position_of(addr).is_some()
    }

    /// Adds `entry` unless its address already has one. The entry that was
    /// there stays, and the new one comes back as `Err`, for the caller to
    /// disconnect.
    pub fn insert(&mut self, entry: ConnectionData<S>) -> (r: Result<(), ConnectionData<S>>)
        requires
            old(self).wf(),
            entry.conn.connected(),
        ensures
            final(self).wf(),
            r is Ok ==> final(self).records() == old(self).records().push(entry.iden),
            r is Err ==> final(self).records() == old(self).records(),
            final(self).view() == insert_outcome(old(self).view(), entry.addr, entry.iden.identity.public_key@).0,
            r is Ok == insert_outcome(old(self).view(), entry.addr, entry.iden.identity.public_key@).1,
            r is Err ==> r == Err::<(), ConnectionData<S>>(entry),
    {
        if self.contains(&entry.addr) {
            return Err(entry);
        }
        let ghost before = self.view();
        let ghost item = (entry.addr, entry.iden.identity.public_key@);
        proof {
            lemma_push_keeps_unique_addrs(before, item.0, item.1);
        }
        let ghost before_records = self.records();
        let ghost iden = entry.iden;
        self.entries.push(entry);
        assert(self.view() =~= before.push(item));
        assert(self.records() =~= before_records.push(iden));
        Ok(())
    }

    /// Takes out the entry for `addr`, if there is one.
    pub fn remove(&mut self, addr: &PeerAddr) -> (r: Option<ConnectionData<S>>)
        requires
            old(self).wf(),
        ensures
            final(self).wf(),
            r is Some <==> has_addr(old(self).view(), *addr),
            r matches Some(e) ==> e.addr == *addr && e.conn.connected(),
            r is None ==> final(self).records() == old(self).records(),
            r matches Some(e) ==> exists|i: int|
                0 <= i < old(self).records().len() && old(self).records()[i] == e.iden
                    && final(self).records() == #[trigger] old(self).records().remove(i)
                    && final(self).view() == old(self).view().remove(i),
            !has_addr(final(self).view(), *addr),
            !has_addr(old(self).view(), *addr) ==> final(self).view() == old(self).view(),
            r matches Some(e) ==> exists|i: int|
                0 <= i < old(self).view().len() && old(self).view()[i] == (*addr, e.iden.identity.public_key@)
                    && final(self).view() == #[trigger] old(self).view().remove(i),
    {
        match self.position_of(addr) {
            None => None,
            Some(i) => {
                let ghost before = self.view();
                let ghost before_records = self.records();
                let e = self.entries.remove(i);
                assert(self.view() =~= before.remove(i as int));
                assert(self.records() =~= before_records.remove(i as int));
                assert(!has_addr(self.view(), *addr)) by {
                    if has_addr(self.view(), *addr) {
                        let k = choose|k: int| 0 <= k < self.view().len() && #[trigger] self.view()[k].0 == *addr;
                        if k < i {
                            assert(before[k].0 == *addr);
                        } else {
                            assert(before[k + 1].0 == *addr);
                        }
                    }
                }
                Some(e)
            },
        }
    }

    /// The address of the connection whose peer has `key`: a snapshot of
    /// the entries, sorted in public-key byte order, searched by bisection.
    pub fn find_socket_addr_for_contact(&self, key: &PublicKey) -> (r: Option<PeerAddr>)
        ensures
            lookup_key(self.view(), key@, r),
    {
        let mut kv: Vec<([u8; 32], PeerAddr)> = Vec::new();
        let mut i: usize = 0;
        while i < self.entries.len()
            invariant
                i <= self.entries@.len(),
                kv@.len() == i,
                forall|j: int| 0 <= j < i ==> #[trigger] kv@[j] == (self.entries@[j].iden.identity.public_key.bytes, self.entries@[j].addr),
            decreases self.entries@.len() - i,
        {
            kv.push((self.entries[i].iden.identity.public_key.bytes, self.entries[i].addr));
            i = i + 1;
        }
        let ghost before = kv@;
        sort_by_public_key(&mut kv);
        proof {
            broadcast use vstd::seq_lib::group_to_multiset_ensures;
        }
        match search_sorted(&kv, &key.bytes) {
            Some(m) => {
                let found = kv[m];
                proof {
                    assert(kv@.contains(found));
                    assert(before.to_multiset().count(found) > 0);
                    assert(before.contains(found));
                    let j = choose|j: int| 0 <= j < before.len() && before[j] == found;
                    assert(self.view()[j] == (found.1, key@));
                }
                Some(found.1)
            },
            None => {
                proof {
                    assert forall|j: int| 0 <= j < self.view().len() implies #[trigger] self.view()[j].1 != key@ by {
                        let x = before[j];
                        assert(before.contains(x));
                        assert(kv@.to_multiset().count(x) > 0);
                        assert(kv@.contains(x));
                        let k = choose|k: int| 0 <= k < kv@.len() && kv@[k] == x;
                        assert(kv@[k].0@ != key@);
                        assert(self.view()[j].1 == x.0@);
                    }
                }
                None
            },
        }
    }

    /// The entry for `addr`.
    pub fn get(&self, addr: &PeerAddr) -> (r: Option<&ConnectionData<S>>)
        ensures
            r is None <==> !has_addr(self.view(), *addr),
            r matches Some(e) ==> e.addr == *addr && exists|i: int|
                0 <= i < self.view().len() && #[trigger] self.view()[i] == (*addr, e.iden.identity.public_key@),
    {
        match self.position_of(addr) {
            None => None,
            Some(i) => {
                let e = &self.entries[i];
                assert(self.view()[i as int] == (*addr, e.iden.identity.public_key@));
                Some(e)
            },
        }
    }

    /// The public key of the peer at `addr`.
    pub fn key_at(&self, addr: &PeerAddr) -> (r: Option<PublicKey>)
        ensures
            r is None <==> !has_addr(self.view(), *addr),
            r matches Some(k) ==> exists|i: int|
                0 <= i < self.view().len() && #[trigger] self.view()[i] == (*addr, k@),
    {
        match self.position_of(addr) {
            None => None,
            Some(i) => {
                let k = self.entries[i].iden.identity.public_key;
                assert(self.view()[i as int] == (*addr, k@));
                Some(k)
            },
        }
    }

    /// Encrypts `payload` for the peer at `addr`, as a frame to send over
    /// its stream; `None` if no connection to `addr` is open.
    pub fn encrypt_for(&mut self, addr: &PeerAddr, payload: &[u8]) -> (r: Option<Result<Frame, CoreError>>)
        requires
            old(self).wf(),
        ensures
            final(self).wf(),
            final(self).view() == old(self).view(),
            final(self).records() == old(self).records(),
            r is None <==> !has_addr(old(self).view(), *addr),
            r matches Some(Err(e)) ==> e is Noise,
    {
        match self.position_of(addr) {
            None => None,
            Some(i) => {
                let ghost before = self.view();
                let ghost before_records = self.records();
                let ghost before_entries = self.entries@;
                let mut e = self.entries.remove(i);
                let res = e.conn.send_message(payload);
                self.entries.insert(i, e);
                assert(self.view() =~= before);
                assert(self.records() =~= before_records);
                assert forall|j: int| 0 <= j < self.entries@.len() implies #[trigger] self.entries@[j].conn.connected() by {
                    if j != i {
                        assert(self.entries@[j] == before_entries[j]);
                    }
                }
                Some(res)
            },
        }
    }
}

} // verus!
