use vstd::prelude::*;

verus! {

/// Header of a persisted block row: the height, plus metadata that the
/// pipeline copies verbatim and never interprets.
pub struct Header {
    pub height: u64,
    pub time: String,
    pub proposer: Vec<u8>,
}

pub ghost struct HeaderV {
    pub height: u64,
    pub time: Seq<char>,
    pub proposer: Seq<u8>,
}

impl View for Header {
    type V = HeaderV;

    open spec fn view(&self) -> HeaderV {
        HeaderV { height: self.height, time: self.time@, proposer: self.proposer@ }
    }
}

impl DeepView for Header {
    type V = HeaderV;

    open spec fn deep_view(&self) -> HeaderV {
        self.view()
    }
}

impl Header {
    /// Field-for-field copy, so an assembled block can carry the header
    /// while the source row stays in place.
    pub fn duplicate(&self) -> (r: Header)
        ensures
            r@ == self@,
    {
        Header { height: self.height, time: self.time.clone(), proposer: clone_bytes(&self.proposer) }
    }
}

/// One persisted block: its content-addressed identifier, its header, and
/// the last-commit metadata, all opaque bytes to this pipeline except the
/// height.
pub struct BlockRow {
    pub block_id: Vec<u8>,
    pub header: Header,
    pub last_commit: Vec<u8>,
}

pub ghost struct BlockRowV {
    pub block_id: Seq<u8>,
    pub header: HeaderV,
    pub last_commit: Seq<u8>,
}

impl View for BlockRow {
    type V = BlockRowV;

    open spec fn view(&self) -> BlockRowV {
        BlockRowV { block_id: self.block_id@, header: self.header@, last_commit: self.last_commit@ }
    }
}

impl DeepView for BlockRow {
    type V = BlockRowV;

    open spec fn deep_view(&self) -> BlockRowV {
        self.view()
    }
}

/// One row of the transaction-hash index: a transaction hash and the raw
/// kind tag the indexer stored with it ("Wrapper" or "Decrypted").
pub struct TxHashEntry {
    pub hash: Vec<u8>,
    pub raw_kind: String,
}

pub ghost struct TxHashEntryV {
    pub hash: Seq<u8>,
    pub raw_kind: Seq<char>,
}

impl View for TxHashEntry {
    type V = TxHashEntryV;

    open spec fn view(&self) -> TxHashEntryV {
        TxHashEntryV { hash: self.hash@, raw_kind: self.raw_kind@ }
    }
}

impl DeepView for TxHashEntry {
    type V = TxHashEntryV;

    open spec fn deep_view(&self) -> TxHashEntryV {
        self.view()
    }
}

/// The full persisted transaction payload, fetched only for entries tagged
/// "Decrypted". The bytes are opaque here; only the external decoder reads
/// them.
pub struct TxRecord {
    pub data: Vec<u8>,
}

impl View for TxRecord {
    type V = Seq<u8>;

    open spec fn view(&self) -> Seq<u8> {
        self.data@
    }
}

impl DeepView for TxRecord {
    type V = Seq<u8>;

    open spec fn deep_view(&self) -> Seq<u8> {
        self.view()
    }
}

/// The closed set of decoded transaction variants, plus a fallback for a
/// payload the decoder recognized as none of them.
#[derive(Clone, Copy, PartialEq, Eq, Structural, Debug)]
pub enum DecodedTx {
    Transfer,
    Bond,
    RevealPK,
    VoteProposal,
    BecomeValidator,
    InitValidator,
    Unbond,
    Withdraw,
    InitAccount,
    UpdateAccount,
    ResignSteward,
    UpdateStewardCommission,
    EthPoolBridge,
    Ibc,
    ConsensusKeyChange,
    CommissionChange,
    MetaDataChange,
    ClaimRewards,
    DeactivateValidator,
    ReactivateValidator,
    UnjailValidator,
    InitProposal,
    Unrecognized,
}

/// The externally visible form of one transaction: its hash and the
/// descriptive label the classifier chose.
pub struct TxSummary {
    pub hash: Vec<u8>,
    pub label: String,
}

pub ghost struct TxSummaryV {
    pub hash: Seq<u8>,
    pub label: Seq<char>,
}

impl View for TxSummary {
    type V = TxSummaryV;

    open spec fn view(&self) -> TxSummaryV {
        TxSummaryV { hash: self.hash@, label: self.label@ }
    }
}

impl DeepView for TxSummary {
    type V = TxSummaryV;

    open spec fn deep_view(&self) -> TxSummaryV {
        self.view()
    }
}

/// A block view assembled fresh for one request: the row's fields copied
/// verbatim, plus the classified transaction summaries in index order.
pub struct AssembledBlock {
    pub block_id: Vec<u8>,
    pub header: Header,
    pub last_commit: Vec<u8>,
    pub tx_hashes: Vec<TxSummary>,
}

pub ghost struct AssembledBlockV {
    pub block_id: Seq<u8>,
    pub header: HeaderV,
    pub last_commit: Seq<u8>,
    pub tx_hashes: Seq<TxSummaryV>,
}

impl View for AssembledBlock {
    type V = AssembledBlockV;

    open spec fn view(&self) -> AssembledBlockV {
        AssembledBlockV {
            block_id: self.block_id@,
            header: self.header@,
            last_commit: self.last_commit@,
            tx_hashes: self.tx_hashes.deep_view(),
        }
    }
}

impl DeepView for AssembledBlock {
    type V = AssembledBlockV;

    open spec fn deep_view(&self) -> AssembledBlockV {
        self.view()
    }
}

/// An assembled block annotated with the consensus epoch active at its
/// height; built only for the "latest" query modes.
pub struct EnrichedBlock {
    pub block_id: Vec<u8>,
    pub header: Header,
    pub last_commit: Vec<u8>,
    pub tx_hashes: Vec<TxSummary>,
    pub epoch: u64,
}

pub ghost struct EnrichedBlockV {
    pub block_id: Seq<u8>,
    pub header: HeaderV,
    pub last_commit: Seq<u8>,
    pub tx_hashes: Seq<TxSummaryV>,
    pub epoch: u64,
}

impl View for EnrichedBlock {
    type V = EnrichedBlockV;

    open spec fn view(&self) -> EnrichedBlockV {
        EnrichedBlockV {
            block_id: self.block_id@,
            header: self.header@,
            last_commit: self.last_commit@,
            tx_hashes: self.tx_hashes.deep_view(),
            epoch: self.epoch,
        }
    }
}

impl DeepView for EnrichedBlock {
    type V = EnrichedBlockV;

    open spec fn deep_view(&self) -> EnrichedBlockV {
        self.view()
    }
}

/// The dual-shape result of a "latest" query: one block when no count was
/// asked for, an ordered sequence when one was.
pub enum LatestBlock {
    LastBlock(Box<EnrichedBlock>),
    LatestBlocks(Vec<EnrichedBlock>),
}

pub ghost enum LatestBlockV {
    LastBlock(EnrichedBlockV),
    LatestBlocks(Seq<EnrichedBlockV>),
}

impl View for LatestBlock {
    type V = LatestBlockV;

    open spec fn view(&self) -> LatestBlockV {
        match self {
            LatestBlock::LastBlock(b) => LatestBlockV::LastBlock(b.view()),
            LatestBlock::LatestBlocks(bs) => LatestBlockV::LatestBlocks(bs.deep_view()),
        }
    }
}

/// Why a supplied block-hash string was rejected before any store access.
#[derive(Clone, Copy, PartialEq, Eq, Structural, Debug)]
pub enum HashParseFault {
    /// The string has an odd number of digits.
    OddLength,
    /// The byte at this position is not a hexadecimal digit.
    BadDigit { index: usize },
    /// The decoded length would not fit the requested container; the
    /// byte-vector decoder never reports this.
    BadLength,
}

/// A failure that ends the whole request.
#[derive(Clone, Copy, PartialEq, Eq, Structural, Debug)]
pub enum QueryError {
    /// The caller's identifier was malformed; rejected before any store access.
    ClientInput { fault: HashParseFault },
    /// A storage-layer failure; fatal to the request.
    StoreFailure,
    /// The epoch oracle was unreachable or failed; fatal to "latest" requests.
    OracleFailure,
}

/// Copies a byte vector element by element.
pub fn clone_bytes(v: &Vec<u8>) -> (r: Vec<u8>)
    ensures
        r@ == v@,
{
    let mut r: Vec<u8> = Vec::new();
    let mut i: usize = 0;
    while i < v.len()
        invariant
            i <= v.len(),
            r@ == v@.take(i as int),
        decreases v.len() - i,
    {
        r.push(v[i]);
        i = i + 1;
        proof {
            assert(r@ =~= v@.take(i as int));
        }
    }
    proof {
        assert(v@.take(v.len() as int) =~= v@);
    }
    r
}

} // verus!
