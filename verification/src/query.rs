use vstd::prelude::*;
use vstd::string::StringSliceAdditionalSpecFns;

use crate::assemble::{
    lemma_n_decrypted_push, lemma_summaries_push_decrypted, lemma_summaries_push_wrapper,
    n_decrypted, summaries_spec, Resolution,
};
use crate::classify::{
    is_decrypted_kind, kind_is_decrypted, make_decoded_summary, make_wrapper_summary,
};
use crate::hex_id::{hex_bytes, parse_block_hash, valid_hex};
use crate::types::{
    clone_bytes, AssembledBlock, AssembledBlockV, BlockRow, BlockRowV, DecodedTx, EnrichedBlock,
    EnrichedBlockV, HashParseFault, LatestBlock, LatestBlockV, QueryError, TxHashEntry,
    TxHashEntryV, TxRecord, TxSummary, TxSummaryV,
};

verus! {

/// A request as the routing layer hands it over: a block-hash string, a
/// height, or "the latest", optionally paginated by a count and an offset.
pub enum QueryRequest {
    ByHash { hash_hex: String },
    ByHeight { height: u64 },
    Latest { count: Option<u64>, offset: Option<u64> },
}

/// The one outside call the driver must perform next, or the finished
/// outcome. Every decision between two actions is made here.
pub enum Action {
    FetchBlockByHash { hash: Vec<u8> },
    FetchBlockByHeight { height: u64 },
    FetchLatestBlock,
    FetchLatestBlocks { count: u64, offset: u64 },
    FetchTxEntries { block_id: Vec<u8> },
    FetchTxRecord { hash: Vec<u8> },
    DecodeRecord { record: TxRecord },
    FetchEpoch { height: u64 },
    Finish { outcome: QueryOutcome },
}

/// What a finished request returns to the routing layer.
pub enum QueryOutcome {
    /// A by-hash or by-height request found and assembled its block.
    Block(AssembledBlock),
    /// The requested block is absent; an explicit empty result, not an error.
    NotFound,
    /// A "latest" request finished, in its single or sequence shape.
    Latest(LatestBlock),
    /// The request failed as a whole.
    Failed(QueryError),
}

/// The driver's answer to the pending action, carrying the outside call's
/// plain result.
pub enum Event {
    BlockRow { row: Option<BlockRow> },
    BlockRows { rows: Vec<BlockRow> },
    TxEntries { entries: Vec<TxHashEntry> },
    TxRecord { record: Option<TxRecord> },
    Decoded { decoded: Option<DecodedTx> },
    Epoch { epoch: u64 },
    StoreFailed,
    OracleFailed,
}

/// Which entry point the request came through.
#[derive(Clone, Copy, PartialEq, Eq, Structural, Debug)]
pub enum Mode {
    ByHash,
    ByHeight,
    LatestOne,
    LatestMany,
}

/// Which answer the machine is waiting for.
#[derive(Clone, Copy, PartialEq, Eq, Structural, Debug)]
pub enum Phase {
    AwaitRow,
    AwaitRows,
    AwaitEntries,
    AwaitRecord,
    AwaitDecode,
    AwaitEpoch,
    Done,
}

/// Everything that determined one finished block: the row the store handed
/// over, its index entries, how each "Decrypted" entry was resolved, and the
/// epoch the oracle reported.
pub ghost struct BlockHist {
    pub row: BlockRowV,
    pub entries: Seq<TxHashEntryV>,
    pub res: Seq<Resolution>,
    pub epoch: u64,
}

/// The enriched block a history entry determines: the row's fields verbatim,
/// the summaries in stored order, the epoch alongside.
pub open spec fn enriched_of(h: BlockHist) -> EnrichedBlockV {
    EnrichedBlockV {
        block_id: h.row.block_id,
        header: h.row.header,
        last_commit: h.row.last_commit,
        tx_hashes: summaries_spec(h.entries, h.res),
        epoch: h.epoch,
    }
}

/// The epoch-free block a by-hash or by-height request returns.
pub open spec fn assembled_of(
    row: BlockRowV,
    entries: Seq<TxHashEntryV>,
    res: Seq<Resolution>,
) -> AssembledBlockV {
    AssembledBlockV {
        block_id: row.block_id,
        header: row.header,
        last_commit: row.last_commit,
        tx_hashes: summaries_spec(entries, res),
    }
}

/// The single-shape result of a "latest" request without a count.
pub open spec fn latest_single_outcome(hist: Seq<BlockHist>) -> LatestBlockV {
    LatestBlockV::LastBlock(enriched_of(hist[0]))
}

/// The sequence-shape result of a "latest" request with a count.
pub open spec fn latest_many_outcome(hist: Seq<BlockHist>) -> LatestBlockV {
    LatestBlockV::LatestBlocks(hist.map_values(|h: BlockHist| enriched_of(h)))
}

/// What a classification walk may hand back, and what the machine then
/// looks like: the next record to fetch, the finished block's epoch lookup,
/// or — for a by-hash or by-height request — the assembled block itself.
pub open spec fn classify_action_ok(post: Query, a: Action) -> bool {
    match a {
        Action::FetchTxRecord { hash } => ({
            &&& post.phase == Phase::AwaitRecord
            &&& post.idx < post.entries.len()
            &&& is_decrypted_kind(post.entries.deep_view()[post.idx as int].raw_kind)
            &&& hash@ == post.entries.deep_view()[post.idx as int].hash
        }),
        Action::FetchEpoch { height } => ({
            &&& post.mode == Mode::LatestOne || post.mode == Mode::LatestMany
            &&& post.phase == Phase::AwaitEpoch
            &&& post.idx == post.entries.len()
            &&& height == post.rows.deep_view()[post.cur as int].header.height
        }),
        Action::Finish { outcome } => ({
            &&& post.mode == Mode::ByHash || post.mode == Mode::ByHeight
            &&& post.phase == Phase::Done
            &&& outcome matches QueryOutcome::Block(b) && b@ == assembled_of(
                post.rows.deep_view()[post.cur as int],
                post.entries.deep_view(),
                post.res_hist@,
            )
        }),
        _ => false,
    }
}

/// The history entry one epoch answer completes: the row, entries and
/// resolutions the machine accumulated, plus the reported epoch.
pub open spec fn hist_entry(pre: Query, epoch: u64) -> BlockHist {
    BlockHist {
        row: pre.rows.deep_view()[pre.cur as int],
        entries: pre.entries.deep_view(),
        res: pre.res_hist@,
        epoch,
    }
}

/// A block whose "Decrypted" entries were all resolved with their records
/// present assembles to exactly one summary per stored index entry, in
/// stored order, each summary keeping its entry's hash.
pub proof fn lemma_assembled_complete(
    row: BlockRowV,
    entries: Seq<TxHashEntryV>,
    res: Seq<Resolution>,
)
    requires
        res.len() == n_decrypted(entries),
        forall|i: int| 0 <= i < res.len() ==> !(#[trigger] res[i] is Missing),
    ensures
        assembled_of(row, entries, res).tx_hashes.len() == entries.len(),
        forall|i: int|
            0 <= i < entries.len() ==> (#[trigger] assembled_of(
                row,
                entries,
                res,
            ).tx_hashes[i]).hash == entries[i].hash,
{
    crate::assemble::lemma_all_found_order(entries, res);
}

/// A block with exactly one "Decrypted" entry whose record was absent
/// assembles to one summary fewer than its stored index entries — the absent
/// one silently omitted, never an error.
pub proof fn lemma_assembled_one_omitted(
    row: BlockRowV,
    entries: Seq<TxHashEntryV>,
    res: Seq<Resolution>,
)
    requires
        res.len() == n_decrypted(entries),
        crate::assemble::n_missing(res) == 1,
    ensures
        assembled_of(row, entries, res).tx_hashes.len() + 1 == entries.len(),
{
    crate::assemble::lemma_summary_count(entries, res);
}

/// A "latest" request without a count and one with a count of one at offset
/// zero run through the same single-block history; with equal histories their
/// finished outcomes carry the same enriched block and differ only in shape:
/// the single block against the one-element sequence.
pub proof fn lemma_latest_shape_equivalence(hist: Seq<BlockHist>)
    requires
        hist.len() == 1,
    ensures
        latest_single_outcome(hist) matches LatestBlockV::LastBlock(b) && latest_many_outcome(
            hist,
        ) matches LatestBlockV::LatestBlocks(bs) && bs =~= seq![b],
{
    assert(hist.map_values(|h: BlockHist| enriched_of(h)) =~= seq![enriched_of(hist[0])]);
}

/// A "latest" request with a count finishes with exactly one enriched block
/// per fetched row — the store's descending-recency order preserved — each
/// carrying its own row's identifier, header, last-commit, summaries and
/// epoch.
pub proof fn lemma_latest_many_correspondence(hist: Seq<BlockHist>, rows: Seq<BlockRowV>)
    requires
        hist.len() == rows.len(),
        forall|i: int| 0 <= i < hist.len() ==> (#[trigger] hist[i]).row == rows[i],
    ensures
        latest_many_outcome(hist) matches LatestBlockV::LatestBlocks(bs) && bs.len() == rows.len()
            && (forall|i: int|
            0 <= i < rows.len() ==> (#[trigger] bs[i]).block_id == rows[i].block_id) && (forall|
            i: int,
        |
            0 <= i < rows.len() ==> (#[trigger] bs[i]).header == rows[i].header) && (forall|i: int|
            0 <= i < rows.len() ==> (#[trigger] bs[i]).last_commit == rows[i].last_commit) && (
        forall|i: int|
            0 <= i < rows.len() ==> (#[trigger] bs[i]).epoch == hist[i].epoch) && (forall|i: int|
            0 <= i < rows.len() ==> (#[trigger] bs[i]).tx_hashes == summaries_spec(
                hist[i].entries,
                hist[i].res,
            )),
{
}

/// The step-driven retrieval machine behind all three entry points. The
/// driver performs each returned [`Action`] and answers with the matching
/// [`Event`]; the machine makes every decision in between.
pub struct Query {
    pub mode: Mode,
    pub phase: Phase,
    /// The block rows fetched for this request, in the order the store
    /// returned them (descending recency for the "latest" modes).
    pub rows: Vec<BlockRow>,
    /// How many rows are fully assembled and enriched.
    pub cur: usize,
    /// The index entries of the block being assembled.
    pub entries: Vec<TxHashEntry>,
    /// How many of those entries are classified so far.
    pub idx: usize,
    /// The summaries of the classified prefix, in stored order.
    pub summaries: Vec<TxSummary>,
    /// The enriched blocks finished so far (sequence shape only).
    pub results: Vec<EnrichedBlock>,
    /// How each "Decrypted" entry of the current block was resolved.
    pub res_hist: Ghost<Seq<Resolution>>,
    /// What determined each finished block.
    pub hist: Ghost<Seq<BlockHist>>,
}

impl Query {
    /// The classification invariant of the block being assembled: the
    /// summaries are exactly what the classified prefix and its resolutions
    /// dictate.
    pub open spec fn asm_inv(self) -> bool {
        &&& self.summaries.deep_view() == summaries_spec(
            self.entries.deep_view().take(self.idx as int),
            self.res_hist@,
        )
        &&& self.res_hist@.len() == n_decrypted(self.entries.deep_view().take(self.idx as int))
    }

    /// No block is mid-assembly: nothing classified, nothing resolved.
    pub open spec fn empty_asm(self) -> bool {
        &&& self.entries.len() == 0
        &&& self.idx == 0
        &&& self.summaries.len() == 0
        &&& self.res_hist@.len() == 0
    }

    /// The phase-independent invariant: finished blocks match their history,
    /// histories match their rows, and the mode's shape constraints hold.
    pub open spec fn core_wf(self) -> bool {
        &&& self.results.deep_view().len() == self.hist@.len()
        &&& (forall|i: int|
            0 <= i < self.hist@.len() ==> self.results.deep_view()[i] == enriched_of(
                #[trigger] self.hist@[i],
            ))
        &&& (forall|i: int|
            0 <= i < self.hist@.len() ==> (#[trigger] self.hist@[i]).row
                == self.rows.deep_view()[i])
        &&& self.hist@.len() == self.cur
        &&& self.cur <= self.rows.len()
        &&& self.idx <= self.entries.len()
        &&& ((self.mode == Mode::ByHash || self.mode == Mode::ByHeight || self.mode
            == Mode::LatestOne) ==> self.rows.len() <= 1)
        &&& ((self.mode == Mode::ByHash || self.mode == Mode::ByHeight) ==> self.results.len()
            == 0)
    }

    /// The whole invariant between two steps of a live request. A finished
    /// machine keeps only its history.
    pub open spec fn wf(self) -> bool {
        &&& self.phase != Phase::Done ==> self.core_wf()
        &&& (self.phase == Phase::AwaitRow ==> (self.mode != Mode::LatestMany && self.rows.len()
            == 0 && self.cur == 0 && self.empty_asm()))
        &&& (self.phase == Phase::AwaitRows ==> (self.mode == Mode::LatestMany && self.rows.len()
            == 0 && self.cur == 0 && self.empty_asm()))
        &&& (self.phase == Phase::AwaitEntries ==> (self.cur < self.rows.len()
            && self.empty_asm()))
        &&& ((self.phase == Phase::AwaitRecord || self.phase == Phase::AwaitDecode) ==> (self.cur
            < self.rows.len() && self.asm_inv() && self.idx < self.entries.len()
            && is_decrypted_kind(self.entries.deep_view()[self.idx as int].raw_kind)))
        &&& (self.phase == Phase::AwaitEpoch ==> ((self.mode == Mode::LatestOne || self.mode
            == Mode::LatestMany) && self.cur < self.rows.len() && self.asm_inv() && self.idx
            == self.entries.len()))
    }

    /// Which events may answer the pending action.
    pub open spec fn accepts(self, ev: Event) -> bool {
        match self.phase {
            Phase::AwaitRow => ev matches Event::BlockRow { .. } || ev is StoreFailed,
            Phase::AwaitRows => ev matches Event::BlockRows { .. } || ev is StoreFailed,
            Phase::AwaitEntries => ev matches Event::TxEntries { .. } || ev is StoreFailed,
            Phase::AwaitRecord => ev matches Event::TxRecord { .. } || ev is StoreFailed,
            Phase::AwaitDecode => ev matches Event::Decoded { .. },
            Phase::AwaitEpoch => ev matches Event::Epoch { .. } || ev is OracleFailed,
            Phase::Done => false,
        }
    }

    /// Begins a request. A malformed block-hash identifier is rejected here,
    /// before any store access; otherwise the first store fetch is requested:
    /// the row lookup the entry point calls for, with a count and defaulted
    /// offset passed through unchanged.
    pub fn start(req: QueryRequest) -> (r: (Query, Action))
        ensures
            r.0.wf(),
            r.1 matches Action::Finish { outcome } ==> r.0.phase == Phase::Done,
            !(r.1 matches Action::Finish { outcome }) ==> r.0.hist@.len() == 0,
            req matches QueryRequest::ByHash { hash_hex } ==> {
                &&& r.0.mode == Mode::ByHash
                &&& (valid_hex(vstd::utf8::encode_utf8(hash_hex@)) ==> (r.1
                    matches Action::FetchBlockByHash { hash } && hash@ == hex_bytes(
                    vstd::utf8::encode_utf8(hash_hex@),
                ) && r.0.phase == Phase::AwaitRow))
                &&& (!valid_hex(vstd::utf8::encode_utf8(hash_hex@)) ==> (r.1 matches Action::Finish {
                    outcome,
                } && outcome matches QueryOutcome::Failed(e) && e
                    matches QueryError::ClientInput { fault } && (fault
                    == HashParseFault::OddLength <==> vstd::utf8::encode_utf8(hash_hex@).len() % 2
                    != 0)))
            },
            req matches QueryRequest::ByHeight { height } ==> ({
                &&& r.0.mode == Mode::ByHeight
                &&& r.1 matches Action::FetchBlockByHeight { height: h } && h == height
                &&& r.0.phase == Phase::AwaitRow
            }),
            req matches QueryRequest::Latest { count: c, offset: o } ==> match c {
                None => ({
                    &&& r.0.mode == Mode::LatestOne
                    &&& r.1 is FetchLatestBlock
                    &&& r.0.phase == Phase::AwaitRow
                }),
                Some(n) => ({
                    &&& r.0.mode == Mode::LatestMany
                    &&& r.1 matches Action::FetchLatestBlocks { count, offset } && count == n
                        && offset == (if o is Some {
                        o->0
                    } else {
                        0
                    })
                    &&& r.0.phase == Phase::AwaitRows
                }),
            },
    {
        match req {
            QueryRequest::ByHash { hash_hex } => {
                match parse_block_hash(hash_hex.as_str()) {
                    Ok(hash) => (
                        Query::fresh(Mode::ByHash, Phase::AwaitRow),
                        Action::FetchBlockByHash { hash },
                    ),
                    Err(e) => (
                        Query::fresh(Mode::ByHash, Phase::Done),
                        Action::Finish { outcome: QueryOutcome::Failed(e) },
                    ),
                }
            },
            QueryRequest::ByHeight { height } => (
                Query::fresh(Mode::ByHeight, Phase::AwaitRow),
                Action::FetchBlockByHeight { height },
            ),
            QueryRequest::Latest { count, offset } => {
                match count {
                    None => (Query::fresh(Mode::LatestOne, Phase::AwaitRow), Action::FetchLatestBlock),
                    Some(n) => {
                        let off: u64 = match offset {
                            Some(o) => o,
                            None => 0,
                        };
                        (
                            Query::fresh(Mode::LatestMany, Phase::AwaitRows),
                            Action::FetchLatestBlocks { count: n, offset: off },
                        )
                    },
                }
            },
        }
    }

    /// Classifies entries from the current index on: every consecutive
    /// non-"Decrypted" entry gets its "Wrapper" summary outright; the walk
    /// stops at the first "Decrypted" entry, whose record must be fetched,
    /// or, with every entry classified, finishes the block — returning it
    /// for a by-hash or by-height request, asking for its epoch otherwise.
    fn advance(&mut self) -> (a: Action)
        requires
            old(self).core_wf(),
            old(self).cur < old(self).rows.len(),
            old(self).asm_inv(),
        ensures
            final(self).wf(),
            final(self).mode == old(self).mode,
            final(self).rows.deep_view() == old(self).rows.deep_view(),
            final(self).cur == old(self).cur,
            final(self).hist@ == old(self).hist@,
            final(self).res_hist@ == old(self).res_hist@,
            final(self).entries.deep_view() == old(self).entries.deep_view(),
            final(self).results.deep_view() == old(self).results.deep_view(),
            classify_action_ok(*final(self), a),
    {
        let ghost pre = *self;
        loop
            invariant
                self.core_wf(),
                self.asm_inv(),
                self.cur < self.rows.len(),
                self.mode == pre.mode,
                self.phase == pre.phase,
                self.rows.deep_view() == pre.rows.deep_view(),
                self.cur == pre.cur,
                self.hist@ == pre.hist@,
                self.res_hist@ == pre.res_hist@,
                self.entries.deep_view() == pre.entries.deep_view(),
                self.results.deep_view() == pre.results.deep_view(),
            ensures
                self.idx == self.entries.len() || (self.idx < self.entries.len()
                    && is_decrypted_kind(self.entries.deep_view()[self.idx as int].raw_kind)),
            decreases self.entries.len() - self.idx,
        {
            if self.idx == self.entries.len() {
                break ;
            }
            if kind_is_decrypted(&self.entries[self.idx]) {
                break ;
            }
            let s = make_wrapper_summary(&self.entries[self.idx]);
            proof {
                let ev = self.entries.deep_view();
                let i = self.idx as int;
                assert(ev.take(i + 1) =~= ev.take(i).push(ev[i]));
                lemma_summaries_push_wrapper(ev.take(i), self.res_hist@, ev[i]);
                lemma_n_decrypted_push(ev.take(i), ev[i]);
            }
            self.summaries.push(s);
            self.idx = self.idx + 1;
            proof {
                assert(self.summaries.deep_view() =~= summaries_spec(
                    self.entries.deep_view().take(self.idx as int),
                    self.res_hist@,
                ));
            }
        }
        if self.idx < self.entries.len() {
            let hash = clone_bytes(&self.entries[self.idx].hash);
            self.phase = Phase::AwaitRecord;
            Action::FetchTxRecord { hash }
        } else {
            proof {
                assert(self.entries.deep_view().take(self.entries.len() as int)
                    =~= self.entries.deep_view());
            }
            match self.mode {
                Mode::ByHash | Mode::ByHeight => {
                    let row_id = clone_bytes(&self.rows[self.cur].block_id);
                    let hdr = self.rows[self.cur].header.duplicate();
                    let lc = clone_bytes(&self.rows[self.cur].last_commit);
                    let mut txs: Vec<TxSummary> = Vec::new();
                    core::mem::swap(&mut txs, &mut self.summaries);
                    let b = AssembledBlock {
                        block_id: row_id,
                        header: hdr,
                        last_commit: lc,
                        tx_hashes: txs,
                    };
                    self.phase = Phase::Done;
                    Action::Finish { outcome: QueryOutcome::Block(b) }
                },
                Mode::LatestOne | Mode::LatestMany => {
                    self.phase = Phase::AwaitEpoch;
                    Action::FetchEpoch { height: self.rows[self.cur].header.height }
                },
            }
        }
    }

    /// Feeds the driver's answer to the pending action in and returns the
    /// next action. A store failure ends the request as a store error, an
    /// oracle failure ends a "latest" request as an oracle error — either
    /// way with no partial result — and an absent block ends a by-hash or
    /// by-height request with the explicit NotFound outcome, never an error.
    pub fn step(&mut self, ev: Event) -> (a: Action)
        requires
            old(self).wf(),
            old(self).phase != Phase::Done,
            old(self).accepts(ev),
        ensures
            final(self).wf(),
            final(self).mode == old(self).mode,
            (a matches Action::Finish { .. }) <==> final(self).phase == Phase::Done,
            ev is StoreFailed ==> (a matches Action::Finish { outcome } && outcome
                == QueryOutcome::Failed(QueryError::StoreFailure)),
            ev is OracleFailed ==> (a matches Action::Finish { outcome } && outcome
                == QueryOutcome::Failed(QueryError::OracleFailure)),
            ev is StoreFailed || ev is OracleFailed ==> final(self).hist@ == old(self).hist@,
            (old(self).mode == Mode::ByHash || old(self).mode == Mode::ByHeight) ==> (ev
                matches Event::BlockRow { row } ==> (row is None ==> (a
                matches Action::Finish { outcome } && outcome == QueryOutcome::NotFound))),
            old(self).mode == Mode::LatestOne ==> (ev matches Event::BlockRow { row } ==> (row
                is None ==> (a matches Action::Finish { outcome } && outcome
                == QueryOutcome::Failed(QueryError::StoreFailure)))),
            ev matches Event::BlockRow { row } ==> (row matches Some(r) ==> ({
                &&& final(self).rows.deep_view() == old(self).rows.deep_view().push(r.deep_view())
                &&& a matches Action::FetchTxEntries { .. }
            })),
            ev matches Event::BlockRows { rows } ==> ({
                &&& final(self).rows.deep_view() == rows.deep_view()
                &&& (rows.len() == 0 ==> ({
                    &&& a matches Action::Finish { outcome }
                    &&& outcome matches QueryOutcome::Latest(lb) && lb@ == latest_many_outcome(
                        final(self).hist@,
                    )
                    &&& final(self).hist@.len() == 0
                }))
                &&& (rows.len() > 0 ==> a matches Action::FetchTxEntries { .. })
            }),
            a matches Action::FetchTxEntries { block_id } ==> ({
                &&& final(self).phase == Phase::AwaitEntries
                &&& final(self).cur < final(self).rows.len()
                &&& block_id@ == final(self).rows.deep_view()[final(self).cur as int].block_id
            }),
            a matches Action::DecodeRecord { record } ==> ({
                &&& final(self).phase == Phase::AwaitDecode
                &&& ev matches Event::TxRecord { record: rec } && rec matches Some(rr) && record@
                    == rr@
                &&& final(self).res_hist@ == old(self).res_hist@
                &&& final(self).idx == old(self).idx
            }),
            ev matches Event::TxEntries { entries } ==> ({
                &&& final(self).entries.deep_view() == entries.deep_view()
                &&& final(self).res_hist@ == old(self).res_hist@
                &&& classify_action_ok(*final(self), a)
            }),
            ev matches Event::TxRecord { record } ==> (record is None ==> ({
                &&& final(self).entries.deep_view() == old(self).entries.deep_view()
                &&& final(self).res_hist@ == old(self).res_hist@.push(Resolution::Missing)
                &&& classify_action_ok(*final(self), a)
            })),
            ev matches Event::Decoded { decoded } ==> ({
                &&& final(self).entries.deep_view() == old(self).entries.deep_view()
                &&& final(self).res_hist@ == old(self).res_hist@.push(Resolution::Found(decoded))
                &&& classify_action_ok(*final(self), a)
            }),
            (ev matches Event::TxEntries { .. } || ev matches Event::TxRecord { .. } || ev
                matches Event::Decoded { .. }) ==> ({
                &&& final(self).rows.deep_view() == old(self).rows.deep_view()
                &&& final(self).cur == old(self).cur
                &&& final(self).hist@ == old(self).hist@
            }),
            ev matches Event::Epoch { epoch } ==> ({
                &&& final(self).hist@ == old(self).hist@.push(hist_entry(*old(self), epoch))
                &&& final(self).cur == old(self).cur + 1
                &&& final(self).rows.deep_view() == old(self).rows.deep_view()
                &&& (old(self).mode == Mode::LatestOne ==> ({
                    &&& a matches Action::Finish { outcome }
                    &&& outcome matches QueryOutcome::Latest(lb) && lb@ == latest_single_outcome(
                        final(self).hist@,
                    )
                    &&& final(self).hist@.len() == 1
                }))
                &&& (old(self).mode == Mode::LatestMany ==> ({
                    &&& (final(self).cur == final(self).rows.len() ==> ({
                        &&& a matches Action::Finish { outcome }
                        &&& outcome matches QueryOutcome::Latest(lb) && lb@
                            == latest_many_outcome(final(self).hist@)
                        &&& final(self).hist@.len() == final(self).rows.deep_view().len()
                    }))
                    &&& (final(self).cur < final(self).rows.len() ==> a
                        matches Action::FetchTxEntries { .. })
                }))
            }),
            a matches Action::Finish { outcome } ==> (outcome matches QueryOutcome::Latest(lb)
                ==> (forall|i: int|
                0 <= i < final(self).hist@.len() ==> (#[trigger] final(self).hist@[i]).row
                    == final(self).rows.deep_view()[i])),
    {
        match ev {
            Event::StoreFailed => {
                self.phase = Phase::Done;
                Action::Finish { outcome: QueryOutcome::Failed(QueryError::StoreFailure) }
            },
            Event::OracleFailed => {
                self.phase = Phase::Done;
                Action::Finish { outcome: QueryOutcome::Failed(QueryError::OracleFailure) }
            },
            Event::BlockRow { row } => {
                match row {
                    None => {
                        self.phase = Phase::Done;
                        match self.mode {
                            Mode::ByHash | Mode::ByHeight => Action::Finish {
                                outcome: QueryOutcome::NotFound,
                            },
                            Mode::LatestOne | Mode::LatestMany => Action::Finish {
                                outcome: QueryOutcome::Failed(QueryError::StoreFailure),
                            },
                        }
                    },
                    Some(r) => {
                        let block_id = clone_bytes(&r.block_id);
                        self.rows.push(r);
                        self.phase = Phase::AwaitEntries;
                        Action::FetchTxEntries { block_id }
                    },
                }
            },
            Event::BlockRows { rows } => {
                self.rows = rows;
                if self.rows.len() == 0 {
                    self.phase = Phase::Done;
                    let out: Vec<EnrichedBlock> = Vec::new();
                    proof {
                        assert(out.deep_view() =~= self.hist@.map_values(
                            |h: BlockHist| enriched_of(h),
                        ));
                    }
                    Action::Finish {
                        outcome: QueryOutcome::Latest(LatestBlock::LatestBlocks(out)),
                    }
                } else {
                    let block_id = clone_bytes(&self.rows[0].block_id);
                    self.phase = Phase::AwaitEntries;
                    Action::FetchTxEntries { block_id }
                }
            },
            Event::TxEntries { entries } => {
                self.entries = entries;
                self.idx = 0;
                proof {
                    assert(self.entries.deep_view().take(0) =~= Seq::<TxHashEntryV>::empty());
                    assert(self.summaries.deep_view() =~= Seq::<TxSummaryV>::empty());
                }
                self.advance()
            },
            Event::TxRecord { record } => {
                match record {
                    None => {
                        proof {
                            let ev_ = self.entries.deep_view();
                            let i = self.idx as int;
                            assert(ev_.take(i + 1) =~= ev_.take(i).push(ev_[i]));
                            lemma_summaries_push_decrypted(
                                ev_.take(i),
                                self.res_hist@,
                                ev_[i],
                                Resolution::Missing,
                            );
                            lemma_n_decrypted_push(ev_.take(i), ev_[i]);
                        }
                        self.res_hist = Ghost(self.res_hist@.push(Resolution::Missing));
                        self.idx = self.idx + 1;
                        self.advance()
                    },
                    Some(rec) => {
                        self.phase = Phase::AwaitDecode;
                        Action::DecodeRecord { record: rec }
                    },
                }
            },
            Event::Decoded { decoded } => {
                let s = make_decoded_summary(&self.entries[self.idx], &decoded);
                proof {
                    let ev_ = self.entries.deep_view();
                    let i = self.idx as int;
                    assert(ev_.take(i + 1) =~= ev_.take(i).push(ev_[i]));
                    lemma_summaries_push_decrypted(
                        ev_.take(i),
                        self.res_hist@,
                        ev_[i],
                        Resolution::Found(decoded),
                    );
                    lemma_n_decrypted_push(ev_.take(i), ev_[i]);
                }
                self.summaries.push(s);
                self.res_hist = Ghost(self.res_hist@.push(Resolution::Found(decoded)));
                self.idx = self.idx + 1;
                proof {
                    assert(self.summaries.deep_view() =~= summaries_spec(
                        self.entries.deep_view().take(self.idx as int),
                        self.res_hist@,
                    ));
                }
                self.advance()
            },
            Event::Epoch { epoch } => {
                proof {
                    assert(self.entries.deep_view().take(self.entries.len() as int)
                        =~= self.entries.deep_view());
                }
                let row_id = clone_bytes(&self.rows[self.cur].block_id);
                let hdr = self.rows[self.cur].header.duplicate();
                let lc = clone_bytes(&self.rows[self.cur].last_commit);
                let mut txs: Vec<TxSummary> = Vec::new();
                core::mem::swap(&mut txs, &mut self.summaries);
                let b = EnrichedBlock {
                    block_id: row_id,
                    header: hdr,
                    last_commit: lc,
                    tx_hashes: txs,
                    epoch,
                };
                self.hist = Ghost(self.hist@.push(hist_entry(*self, epoch)));
                self.entries = Vec::new();
                self.idx = 0;
                self.res_hist = Ghost(Seq::empty());
                self.cur = self.cur + 1;
                proof {
                    assert(b@ == enriched_of(self.hist@.last()));
                }
                match self.mode {
                    Mode::LatestOne => {
                        self.phase = Phase::Done;
                        Action::Finish {
                            outcome: QueryOutcome::Latest(LatestBlock::LastBlock(Box::new(b))),
                        }
                    },
                    Mode::LatestMany => {
                        self.results.push(b);
                        proof {
                            assert(self.results.deep_view() =~= old(
                                self,
                            ).results.deep_view().push(enriched_of(self.hist@.last())));
                        }
                        if self.cur == self.rows.len() {
                            let mut out: Vec<EnrichedBlock> = Vec::new();
                            core::mem::swap(&mut out, &mut self.results);
                            self.phase = Phase::Done;
                            proof {
                                assert(out.deep_view() =~= self.hist@.map_values(
                                    |h: BlockHist| enriched_of(h),
                                ));
                            }
                            Action::Finish {
                                outcome: QueryOutcome::Latest(LatestBlock::LatestBlocks(out)),
                            }
                        } else {
                            let block_id = clone_bytes(&self.rows[self.cur].block_id);
                            self.phase = Phase::AwaitEntries;
                            proof {
                                assert(self.entries.deep_view().take(0)
                                    =~= Seq::<TxHashEntryV>::empty());
                                assert(self.summaries.deep_view()
                                    =~= Seq::<TxSummaryV>::empty());
                            }
                            Action::FetchTxEntries { block_id }
                        }
                    },
                    Mode::ByHash | Mode::ByHeight => vstd::pervasive::unreached(),
                }
            },
        }
    }

    /// An empty machine in the given mode and phase.
    fn fresh(mode: Mode, phase: Phase) -> (r: Query)
        requires
            phase == Phase::AwaitRow || phase == Phase::AwaitRows || phase == Phase::Done,
            phase == Phase::AwaitRow ==> mode != Mode::LatestMany,
            phase == Phase::AwaitRows ==> mode == Mode::LatestMany,
        ensures
            r.mode == mode,
            r.phase == phase,
            r.rows.len() == 0,
            r.cur == 0,
            r.empty_asm(),
            r.results.len() == 0,
            r.hist@.len() == 0,
            r.wf(),
    {
        let q = Query {
            mode,
            phase,
            rows: Vec::new(),
            cur: 0,
            entries: Vec::new(),
            idx: 0,
            summaries: Vec::new(),
            results: Vec::new(),
            res_hist: Ghost(Seq::empty()),
            hist: Ghost(Seq::empty()),
        };
        proof {
            assert(q.summaries.deep_view() =~= Seq::<TxSummaryV>::empty());
            assert(q.results.deep_view() =~= Seq::<EnrichedBlockV>::empty());
        }
        q
    }
}

} // verus!
