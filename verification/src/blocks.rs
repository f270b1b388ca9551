//! Block history: which heights a collection cycle fetches and how a
//! `getblockstats` reply becomes a stored row.
use vstd::prelude::*;

verus! {

/// How many of the most recently stored blocks a cycle fetches again, so
/// that a chain reorganisation of at most this depth is picked up.
pub const REPROCESS_DEPTH: u64 = 6;

/// The height at which a collection cycle starts, given the highest height
/// already stored (`None` when nothing is stored yet).
///
/// Above `REPROCESS_DEPTH` the cycle restarts `REPROCESS_DEPTH - 1` below the
/// stored tip, so the last `REPROCESS_DEPTH` stored blocks are fetched again;
/// otherwise it restarts at the genesis block.
pub open spec fn resync_start(stored: Option<u64>) -> u64 {
    let s: u64 = match stored {
        Some(h) => h,
        None => 0,
    };
    if s > REPROCESS_DEPTH {
        (s - (REPROCESS_DEPTH - 1)) as u64
    } else {
        0
    }
}

/// The heights `lo, lo + 1, ..., hi` in increasing order (empty if `lo > hi`).
pub open spec fn height_range(lo: u64, hi: u64) -> Seq<u64> {
    Seq::new(
        if lo <= hi { (hi - lo + 1) as nat } else { 0 },
        |i: int| (lo + i) as u64,
    )
}

/// A cycle leaves no gap: every height above the highest stored one, up to
/// the node's tip, is among the heights it fetches (all heights up to the tip
/// when nothing is stored yet).
pub proof fn lemma_cycle_covers_new_heights(stored: Option<u64>, tip: u64, h: u64)
    requires
        h <= tip,
        stored matches Some(s) ==> s < h,
    ensures
        height_range(resync_start(stored), tip).contains(h),
{
    let r = height_range(resync_start(stored), tip);
    let i = h - resync_start(stored);
    assert(r[i] == h);
}

/// When more than `REPROCESS_DEPTH` blocks are stored, a cycle first fetches
/// again exactly the last `REPROCESS_DEPTH` stored heights, and nothing below
/// them; with fewer stored blocks it starts over from the genesis block.
pub proof fn lemma_cycle_reprocesses_recent_blocks(s: u64, tip: u64)
    requires
        s <= tip,
    ensures
        s > REPROCESS_DEPTH ==> height_range(resync_start(Some(s)), tip).take(
            REPROCESS_DEPTH as int,
        ) == height_range((s - (REPROCESS_DEPTH - 1)) as u64, s),
        s > REPROCESS_DEPTH ==> forall|h: u64| #[trigger]
            height_range(resync_start(Some(s)), tip).contains(h) ==> h + REPROCESS_DEPTH > s,
        s <= REPROCESS_DEPTH ==> height_range(resync_start(Some(s)), tip)[0] == 0,
{
    let r = height_range(resync_start(Some(s)), tip);
    if s > REPROCESS_DEPTH {
        assert(r.take(REPROCESS_DEPTH as int) =~= height_range((s - (REPROCESS_DEPTH - 1)) as u64, s));
        assert forall|h: u64| #[trigger] r.contains(h) implies h + REPROCESS_DEPTH > s by {
            let i = choose|i: int| 0 <= i < r.len() && r[i] == h;
            assert(r[i] == h);
        }
    }
}

/// Computes [`resync_start`].
pub fn reorg_start(stored: Option<u64>) -> (start: u64)
    ensures
        start == resync_start(stored),
{
    let s: u64 = match stored {
        Some(h) => h,
        None => 0,
    };
    if s > REPROCESS_DEPTH {
        s - (REPROCESS_DEPTH - 1)
    } else {
        0
    }
}


/// The statistics that the node's `getblockstats` call reports for a block.
pub struct BlockStats {
    pub height: u64,
    pub time: i64,
    pub txs: u64,
    pub totalfee: i64,
    pub avgfee: i64,
    pub avgfeerate: i64,
    pub minfeerate: i64,
    pub maxfeerate: i64,
    pub blockhash: String,
}

/// One row of the block history.
pub struct BlockRow {
    pub height: u64,
    pub hash: String,
    pub time: i64,
    pub tx_count: u64,
    pub avg_fee: i64,
    pub avg_feerate: i64,
    pub total_fee: i64,
    pub min_feerate: i64,
    pub max_feerate: i64,
    pub pool_name: Option<String>,
}

/// The row stored for a block: its statistics under the history's column
/// names, together with the mining pool it was attributed to.
pub fn block_row(bs: BlockStats, pool_name: Option<String>) -> (row: BlockRow)
    ensures
        row == (BlockRow {
            height: bs.height,
            hash: bs.blockhash,
            time: bs.time,
            tx_count: bs.txs,
            avg_fee: bs.avgfee,
            avg_feerate: bs.avgfeerate,
            total_fee: bs.totalfee,
            min_feerate: bs.minfeerate,
            max_feerate: bs.maxfeerate,
            pool_name: pool_name,
        }),
{
    BlockRow {
        height: bs.height,
        hash: bs.blockhash,
        time: bs.time,
        tx_count: bs.txs,
        avg_fee: bs.avgfee,
        avg_feerate: bs.avgfeerate,
        total_fee: bs.totalfee,
        min_feerate: bs.minfeerate,
        max_feerate: bs.maxfeerate,
        pool_name,
    }
}

/// What a collection cycle does next.
pub enum SyncStep {
    /// Fetch and store the block at this height.
    Fetch(u64),
    /// The cycle is complete.
    Done,
}

/// The progress of one collection cycle over the block heights
/// `reorg_start(stored) ..= tip`.
pub struct BlockSync {
    next: u64,
    tip: u64,
    finished: bool,
}

impl BlockSync {
    #[verifier::type_invariant]
    spec fn inv(self) -> bool {
        !self.finished ==> self.next <= self.tip
    }

    /// The heights this cycle has still to fetch, in the order it fetches them.
    pub closed spec fn pending(self) -> Seq<u64> {
        if self.finished {
            Seq::empty()
        } else {
            height_range(self.next, self.tip)
        }
    }

    /// Starts a cycle, given the highest stored height and the node's tip.
    pub fn new(stored: Option<u64>, tip: u64) -> (sync: Self)
        ensures
            sync.pending() == height_range(resync_start(stored), tip),
    {
        let start = reorg_start(stored);
        if start <= tip {
            BlockSync { next: start, tip, finished: false }
        } else {
            BlockSync { next: start, tip, finished: true }
        }
    }

    /// Hands out the next height to fetch, or `Done` once every height of the
    /// cycle has been handed out.
    pub fn step(&mut self) -> (step: SyncStep)
        ensures
            old(self).pending().len() == 0 ==> step == SyncStep::Done && final(self).pending()
                == old(self).pending(),
            old(self).pending().len() > 0 ==> step == SyncStep::Fetch(old(self).pending()[0])
                && final(self).pending() == old(self).pending().drop_first(),
    {
        proof {
            use_type_invariant(&*self);
        }
        if self.finished {
            return SyncStep::Done;
        }
        let h = self.next;
        if self.next == self.tip {
            self.finished = true;
        } else {
            self.next = self.next + 1;
        }
        assert(old(self).pending().drop_first() =~= self.pending());
        SyncStep::Fetch(h)
    }
}

} // verus!
