//! Peer statistics: bandwidth deltas between consecutive `getpeerinfo`
//! samples, and the obfuscation of peer addresses.
use vstd::prelude::*;

use std::collections::HashMap;

use crate::text::{chars_of, find_last, last_index_of, lemma_last_index_at, lemma_last_index_of};

verus! {

broadcast use vstd::std_specs::hash::group_hash_axioms;

/// The masked form of a peer address `host:port`, the port being what
/// follows the last ':'. An IPv4-style host (one holding a '.') keeps only
/// what follows its last '.', as `*.*.*<last>:<port>`; any other host becomes
/// `[ipv6]:<port>`. An address without ':' has no port: if it holds a '.' it
/// is masked the same way, as `*.*.*<last>`, and otherwise it is shown as
/// `[ipv6]:<address>`.
pub open spec fn obfuscated_addr(addr: Seq<char>) -> Seq<char> {
    let k = last_index_of(addr, ':');
    let port = addr.subrange(k + 1, addr.len() as int);
    let host = addr.subrange(0, k);
    if k >= 0 && host.contains('.') {
        "*.*.*"@ + host.subrange(last_index_of(host, '.') + 1, host.len() as int) + ":"@ + port
    } else if k < 0 && addr.contains('.') {
        "*.*.*"@ + addr.subrange(last_index_of(addr, '.') + 1, addr.len() as int)
    } else {
        "[ipv6]:"@ + port
    }
}

/// An address `prefix.last` without ':' (an IPv4 address given without a
/// port), where `last` holds no '.', is masked to `*.*.*last`: only the part
/// after its last '.' is shown.
pub proof fn lemma_obfuscation_without_port(prefix: Seq<char>, last: Seq<char>)
    requires
        !prefix.contains(':'),
        !last.contains('.'),
        !last.contains(':'),
    ensures
        obfuscated_addr(prefix + seq!['.'] + last) == "*.*.*"@ + last,
{
    let addr = prefix + seq!['.'] + last;
    let d = prefix.len() as int;
    assert(!addr.contains(':')) by {
        if addr.contains(':') {
            let j = choose|j: int| 0 <= j < addr.len() && addr[j] == ':';
            if j < d {
                assert(prefix[j] == ':');
            } else if j > d {
                assert(last[j - d - 1] == ':');
            }
        }
    }
    lemma_last_index_of(addr, ':');
    assert forall|j: int| d < j < addr.len() implies addr[j] != '.' by {
        assert(addr[j] == last[j - d - 1]);
    }
    lemma_last_index_at(addr, '.', d);
    assert(addr.contains('.')) by {
        assert(addr[d] == '.');
    }
    assert(addr.subrange(d + 1, addr.len() as int) =~= last);
}

/// An address `prefix.last:port`, where neither `last` nor `port` holds a ':'
/// and `last` holds no '.', is masked to `*.*.*last:port`: of the host only
/// the part after its last '.' is kept, and the port is kept.
pub proof fn lemma_obfuscation_keeps_last_octet_and_port(
    prefix: Seq<char>,
    last: Seq<char>,
    port: Seq<char>,
)
    requires
        !last.contains('.'),
        !last.contains(':'),
        !port.contains(':'),
    ensures
        obfuscated_addr(prefix + seq!['.'] + last + seq![':'] + port) == "*.*.*"@ + last + ":"@
            + port,
{
    reveal_strlit(":");
    let host = prefix + seq!['.'] + last;
    let addr = host + seq![':'] + port;
    let k = host.len() as int;
    assert forall|j: int| k < j < addr.len() implies addr[j] != ':' by {
        assert(addr[j] == port[j - k - 1]);
    }
    lemma_last_index_at(addr, ':', k);
    assert(addr.subrange(0, k) =~= host);
    assert(addr.subrange(k + 1, addr.len() as int) =~= port);
    let d = prefix.len() as int;
    assert forall|j: int| d < j < host.len() implies host[j] != '.' by {
        assert(host[j] == last[j - d - 1]);
    }
    lemma_last_index_at(host, '.', d);
    assert(host.contains('.')) by {
        assert(host[d] == '.');
    }
    assert(host.subrange(d + 1, host.len() as int) =~= last);
}

/// An address `host:port` whose host holds no '.' (an IPv6 address, say),
/// and whose port holds no ':', is masked to `[ipv6]:port`.
pub proof fn lemma_obfuscation_of_other_hosts(host: Seq<char>, port: Seq<char>)
    requires
        !host.contains('.'),
        !port.contains(':'),
    ensures
        obfuscated_addr(host + seq![':'] + port) == "[ipv6]:"@ + port,
{
    let addr = host + seq![':'] + port;
    let k = host.len() as int;
    assert forall|j: int| k < j < addr.len() implies addr[j] != ':' by {
        assert(addr[j] == port[j - k - 1]);
    }
    lemma_last_index_at(addr, ':', k);
    assert(addr.subrange(0, k) =~= host);
    assert(addr.subrange(k + 1, addr.len() as int) =~= port);
}

/// Masks a peer address for display, as [`obfuscated_addr`] describes.
pub fn obfuscate_addr(addr: &str) -> (masked: String)
    ensures
        masked@ == obfuscated_addr(addr@),
{
    let chars = chars_of(addr);
    let n = chars.len();
    proof {
        assert(chars@.subrange(0, n as int) =~= addr@);
        lemma_last_index_of(addr@, ':');
    }
    let mut out = String::new();
    match find_last(&chars, ':', n) {
        Some(k) => {
            let port = addr.substring_char(k + 1, n);
            let ghost host = addr@.subrange(0, k as int);
            proof {
                assert(chars@.subrange(0, k as int) =~= host);
                lemma_last_index_of(host, '.');
            }
            match find_last(&chars, '.', k) {
                Some(d) => {
                    let last = addr.substring_char(d + 1, k);
                    assert(last@ =~= host.subrange(d + 1, host.len() as int));
                    out.append("*.*.*");
                    out.append(last);
                    out.append(":");
                    out.append(port);
                },
                None => {
                    out.append("[ipv6]:");
                    out.append(port);
                },
            }
        },
        None => {
            proof {
                lemma_last_index_of(addr@, '.');
            }
            match find_last(&chars, '.', n) {
                Some(d) => {
                    let last = addr.substring_char(d + 1, n);
                    out.append("*.*.*");
                    out.append(last);
                },
                None => {
                    let port = addr.substring_char(0, n);
                    assert(port@ =~= addr@.subrange(-1 + 1, addr@.len() as int));
                    out.append("[ipv6]:");
                    out.append(port);
                },
            }
        },
    }
    out
}


/// What the node's `getpeerinfo` call reports of one connected peer (the
/// ping times, which are floating-point, are kept by the caller).
pub struct PeerInfo {
    pub id: i64,
    pub addr: String,
    pub inbound: bool,
    pub subver: String,
    pub version: u64,
    pub bytessent: u64,
    pub bytesrecv: u64,
    pub conntime: i64,
}

/// One row of a peer snapshot (the caller attaches the ping time).
pub struct PeerRow {
    pub ts: i64,
    pub peer_id: i64,
    pub addr_hash: String,
    pub inbound: bool,
    pub subver: String,
    pub version: u64,
    pub bytes_sent: u64,
    pub bytes_recv: u64,
    pub bytes_sent_delta: Option<i64>,
    pub bytes_recv_delta: Option<i64>,
}

/// The sent-bytes counter remembered for peer `id`; `None` for a peer not in
/// the previous sample.
pub open spec fn sent_before(prev: Map<i64, (u64, u64)>, id: i64) -> Option<u64> {
    if prev.contains_key(id) {
        Some(prev[id].0)
    } else {
        None
    }
}

/// The received-bytes counter remembered for peer `id`; `None` for a peer not
/// in the previous sample.
pub open spec fn recv_before(prev: Map<i64, (u64, u64)>, id: i64) -> Option<u64> {
    if prev.contains_key(id) {
        Some(prev[id].1)
    } else {
        None
    }
}

/// The difference of a counter and its previous value, both read as `i64`.
pub open spec fn raw_delta(current: u64, previous: u64) -> int {
    (current as i64) - (previous as i64)
}

/// The bandwidth delta of a counter since the previous sample: none for a
/// peer that was not in the previous sample, otherwise the increase, floored
/// at 0.
pub open spec fn counter_delta(current: u64, previous: Option<u64>) -> Option<i64> {
    match previous {
        Some(before) => if raw_delta(current, before) > 0 {
            Some(raw_delta(current, before) as i64)
        } else {
            Some(0)
        },
        None => None,
    }
}

/// The delta of a counter can be computed in `i64` without overflow.
pub open spec fn delta_fits(current: u64, previous: Option<u64>) -> bool {
    previous matches Some(before) ==> i64::MIN <= raw_delta(current, before) <= i64::MAX
}

/// Both deltas of a peer can be computed without overflow.
pub open spec fn peer_fits(prev: Map<i64, (u64, u64)>, p: PeerInfo) -> bool {
    &&& delta_fits(p.bytessent, sent_before(prev, p.id))
    &&& delta_fits(p.bytesrecv, recv_before(prev, p.id))
}

/// `row` is the snapshot row of peer `p` taken at `ts`, given the counters
/// remembered from the previous sample.
pub open spec fn is_peer_row(row: PeerRow, prev: Map<i64, (u64, u64)>, ts: i64, p: PeerInfo) -> bool {
    &&& row.ts == ts
    &&& row.peer_id == p.id
    &&& row.addr_hash@ == obfuscated_addr(p.addr@)
    &&& row.inbound == p.inbound
    &&& row.subver@ == p.subver@
    &&& row.version == p.version
    &&& row.bytes_sent == p.bytessent
    &&& row.bytes_recv == p.bytesrecv
    &&& row.bytes_sent_delta == counter_delta(p.bytessent, sent_before(prev, p.id))
    &&& row.bytes_recv_delta == counter_delta(p.bytesrecv, recv_before(prev, p.id))
}

/// The counters remembered after a sample: each peer id of the sample mapped
/// to the counters of its last entry in the sample, and nothing else.
pub open spec fn counters_after(peers: Seq<PeerInfo>) -> Map<i64, (u64, u64)>
    decreases peers.len(),
{
    if peers.len() == 0 {
        Map::empty()
    } else {
        counters_after(peers.drop_last()).insert(
            peers.last().id,
            (peers.last().bytessent, peers.last().bytesrecv),
        )
    }
}

/// Whatever the tracker remembers, a snapshot row carries the sample's own
/// view of the peer: the sample time, the peer's id, its masked address, its
/// direction, user agent and protocol version, and its cumulative byte
/// counters as the sample reports them.
pub proof fn lemma_row_copies_sample(row: PeerRow, prev: Map<i64, (u64, u64)>, ts: i64, p: PeerInfo)
    requires
        is_peer_row(row, prev, ts, p),
    ensures
        row.ts == ts,
        row.peer_id == p.id,
        row.addr_hash@ == obfuscated_addr(p.addr@),
        row.inbound == p.inbound,
        row.subver@ == p.subver@,
        row.version == p.version,
        row.bytes_sent == p.bytessent,
        row.bytes_recv == p.bytesrecv,
{
}

/// A snapshot row has no bandwidth deltas exactly when its peer was not in
/// the previous sample (for instance one that reconnected under a new id);
/// a peer that was, even with zero counters, has both deltas.
pub proof fn lemma_new_peer_has_no_delta(row: PeerRow, prev: Map<i64, (u64, u64)>, ts: i64, p: PeerInfo)
    requires
        is_peer_row(row, prev, ts, p),
    ensures
        row.bytes_sent_delta is None <==> !prev.contains_key(p.id),
        row.bytes_recv_delta is None <==> !prev.contains_key(p.id),
{
}

/// A bandwidth delta (of counters whose difference fits in `i64`) is never
/// negative.
pub proof fn lemma_delta_not_negative(current: u64, previous: Option<u64>)
    requires
        delta_fits(current, previous),
    ensures
        counter_delta(current, previous) matches Some(d) ==> d >= 0,
{
}

/// When a remembered counter has grown (within the `i64` range), its delta
/// is the growth.
pub proof fn lemma_delta_is_growth(current: u64, previous: u64)
    requires
        previous <= current <= i64::MAX,
    ensures
        counter_delta(current, Some(previous)) == Some((current - previous) as i64),
{
}

/// After a sample, the tracker remembers exactly the ids of the sample's
/// peers.
pub proof fn lemma_counters_after_ids(peers: Seq<PeerInfo>, id: i64)
    ensures
        counters_after(peers).contains_key(id) <==> exists|i: int|
            0 <= i < peers.len() && #[trigger] peers[i].id == id,
    decreases peers.len(),
{
    if peers.len() > 0 {
        let t = peers.drop_last();
        lemma_counters_after_ids(t, id);
        if exists|i: int| 0 <= i < t.len() && #[trigger] t[i].id == id {
            let i = choose|i: int| 0 <= i < t.len() && #[trigger] t[i].id == id;
            assert(peers[i].id == id);
        }
        if exists|i: int| 0 <= i < peers.len() && #[trigger] peers[i].id == id {
            let i = choose|i: int| 0 <= i < peers.len() && #[trigger] peers[i].id == id;
            if i < t.len() {
                assert(t[i].id == id);
            }
        }
    }
}

/// After a sample, the counters remembered for a peer id are those of its
/// last entry in the sample.
pub proof fn lemma_counters_after_last_entry(peers: Seq<PeerInfo>, i: int)
    requires
        0 <= i < peers.len(),
        forall|j: int| i < j < peers.len() ==> #[trigger] peers[j].id != peers[i].id,
    ensures
        counters_after(peers).contains_key(peers[i].id),
        counters_after(peers)[peers[i].id] == (peers[i].bytessent, peers[i].bytesrecv),
    decreases peers.len(),
{
    if i < peers.len() - 1 {
        let t = peers.drop_last();
        assert(peers[peers.len() - 1].id != peers[i].id);
        assert forall|j: int| i < j < t.len() implies #[trigger] t[j].id != t[i].id by {
            assert(peers[j].id != peers[i].id);
        }
        lemma_counters_after_last_entry(t, i);
    }
}

/// Bandwidth between two consecutive samples: when a peer's sent counter in
/// the next sample is no smaller than at its last entry in one sample (and
/// within the `i64` range), the next row's sent delta is the bytes sent in
/// between (and likewise for received bytes).
pub proof fn lemma_consecutive_samples(peers: Seq<PeerInfo>, i: int, next: PeerInfo)
    requires
        0 <= i < peers.len(),
        peers[i].id == next.id,
        forall|j: int| i < j < peers.len() ==> peers[j].id != next.id,
    ensures
        peers[i].bytessent <= next.bytessent <= i64::MAX ==> counter_delta(
            next.bytessent,
            sent_before(counters_after(peers), next.id),
        ) == Some((next.bytessent - peers[i].bytessent) as i64),
        peers[i].bytesrecv <= next.bytesrecv <= i64::MAX ==> counter_delta(
            next.bytesrecv,
            recv_before(counters_after(peers), next.id),
        ) == Some((next.bytesrecv - peers[i].bytesrecv) as i64),
{
    lemma_counters_after_last_entry(peers, i);
}

/// The byte counters of the peers of the previous sample, by peer id.
pub struct PeerTracker {
    prev: HashMap<i64, (u64, u64)>,
}

impl View for PeerTracker {
    type V = Map<i64, (u64, u64)>;

    closed spec fn view(&self) -> Map<i64, (u64, u64)> {
        self.prev@
    }
}

impl PeerTracker {
    /// A tracker that remembers no peer.
    pub fn new() -> (t: Self)
        ensures
            t@ == Map::<i64, (u64, u64)>::empty(),
    {
        PeerTracker { prev: HashMap::new() }
    }

    /// Whether every delta of the sample can be computed without overflow.
    pub fn counters_fit(&self, peers: &Vec<PeerInfo>) -> (ok: bool)
        ensures
            ok == forall|i: int| 0 <= i < peers@.len() ==> #[trigger] peer_fits(self@, peers@[i]),
    {
        let mut i: usize = 0;
        while i < peers.len()
            invariant
                i <= peers@.len(),
                forall|j: int| 0 <= j < i ==> #[trigger] peer_fits(self@, peers@[j]),
            decreases peers@.len() - i,
        {
            let p = &peers[i];
            let (ps, pr) = self.remembered(p.id);
            if !fits(p.bytessent, ps) || !fits(p.bytesrecv, pr) {
                assert(!peer_fits(self@, peers@[i as int]));
                return false;
            }
            i = i + 1;
        }
        true
    }

    /// The (sent, received) counters remembered for peer `id`.
    fn remembered(&self, id: i64) -> (c: (Option<u64>, Option<u64>))
        ensures
            c == (sent_before(self@, id), recv_before(self@, id)),
    {
        match self.prev.get(&id) {
            Some(c) => (Some(c.0), Some(c.1)),
            None => (None, None),
        }
    }
}

/// Whether the delta of a counter can be computed without overflow.
fn fits(current: u64, previous: Option<u64>) -> (ok: bool)
    ensures
        ok == delta_fits(current, previous),
{
    let before = match previous {
        Some(before) => before,
        None => return true,
    };
    let c = current as i64;
    let p = before as i64;
    if p >= 0 {
        c >= i64::MIN + p
    } else {
        c <= i64::MAX + p
    }
}

/// Computes [`counter_delta`].
fn delta(current: u64, previous: Option<u64>) -> (d: Option<i64>)
    requires
        delta_fits(current, previous),
    ensures
        d == counter_delta(current, previous),
{
    match previous {
        Some(before) => {
            let raw = current as i64 - before as i64;
            if raw > 0 {
                Some(raw)
            } else {
                Some(0)
            }
        },
        None => None,
    }
}

/// The snapshot rows of a peer sample taken at `ts`, with the bandwidth of
/// each peer since the previous sample; afterwards the tracker remembers the
/// counters of this sample's peers, and of no other.
pub fn collect_peers(tracker: &mut PeerTracker, ts: i64, peers: &Vec<PeerInfo>) -> (rows: Vec<PeerRow>)
    requires
        forall|i: int| 0 <= i < peers@.len() ==> #[trigger] peer_fits(old(tracker)@, peers@[i]),
    ensures
        rows@.len() == peers@.len(),
        forall|i: int|
            0 <= i < peers@.len() ==> #[trigger] is_peer_row(rows@[i], old(tracker)@, ts, peers@[i]),
        forall|i: int|
            0 <= i < peers@.len() ==> {
                &&& (#[trigger] rows@[i]).ts == ts
                &&& rows@[i].peer_id == peers@[i].id
                &&& rows@[i].addr_hash@ == obfuscated_addr(peers@[i].addr@)
                &&& rows@[i].inbound == peers@[i].inbound
                &&& rows@[i].subver@ == peers@[i].subver@
                &&& rows@[i].version == peers@[i].version
                &&& rows@[i].bytes_sent == peers@[i].bytessent
                &&& rows@[i].bytes_recv == peers@[i].bytesrecv
            },
        final(tracker)@ == counters_after(peers@),
{
    let mut rows: Vec<PeerRow> = Vec::new();
    let mut i: usize = 0;
    while i < peers.len()
        invariant
            i <= peers@.len(),
            rows@.len() == i,
            forall|j: int| 0 <= j < peers@.len() ==> #[trigger] peer_fits(tracker@, peers@[j]),
            forall|j: int| 0 <= j < i ==> #[trigger] is_peer_row(rows@[j], tracker@, ts, peers@[j]),
        decreases peers@.len() - i,
    {
        let p = &peers[i];
        let (ps, pr) = tracker.remembered(p.id);
        assert(peer_fits(tracker@, peers@[i as int]));
        let row = PeerRow {
            ts,
            peer_id: p.id,
            addr_hash: obfuscate_addr(p.addr.as_str()),
            inbound: p.inbound,
            subver: p.subver.clone(),
            version: p.version,
            bytes_sent: p.bytessent,
            bytes_recv: p.bytesrecv,
            bytes_sent_delta: delta(p.bytessent, ps),
            bytes_recv_delta: delta(p.bytesrecv, pr),
        };
        rows.push(row);
        i = i + 1;
    }
    let mut next: HashMap<i64, (u64, u64)> = HashMap::new();
    let mut k: usize = 0;
    while k < peers.len()
        invariant
            k <= peers@.len(),
            next@ == counters_after(peers@.take(k as int)),
        decreases peers@.len() - k,
    {
        let p = &peers[k];
        next.insert(p.id, (p.bytessent, p.bytesrecv));
        assert(peers@.take(k + 1).drop_last() =~= peers@.take(k as int));
        k = k + 1;
    }
    assert(peers@.take(peers@.len() as int) =~= peers@);
    tracker.prev = next;
    assert forall|i: int| 0 <= i < peers@.len() implies {
        &&& (#[trigger] rows@[i]).ts == ts
        &&& rows@[i].peer_id == peers@[i].id
        &&& rows@[i].addr_hash@ == obfuscated_addr(peers@[i].addr@)
        &&& rows@[i].inbound == peers@[i].inbound
        &&& rows@[i].subver@ == peers@[i].subver@
        &&& rows@[i].version == peers@[i].version
        &&& rows@[i].bytes_sent == peers@[i].bytessent
        &&& rows@[i].bytes_recv == peers@[i].bytesrecv
    } by {
        assert(is_peer_row(rows@[i], old(tracker)@, ts, peers@[i]));
    }
    rows
}

} // verus!
