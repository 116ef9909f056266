use vstd::prelude::*;
use vstd::string::StringExecFns;
use fastcrypto::encoding::{Base64, Encoding};
use fastcrypto::hash::{Blake2b256, HashFunction};
use crate::text::{comma_joined, decimal_text, push_comma_joined, push_decimal};

verus! {

/// Index of an authority in the committee.
pub type AuthorityIndex = u32;

/// Reputation score of one authority, as received over gRPC.
pub struct ReputationScore {
    pub authority_index: AuthorityIndex,
    pub score: u64,
}

/// A committed block, as received over gRPC: its author and its serialized transactions.
pub struct Block {
    pub authority_index: AuthorityIndex,
    pub transactions: Vec<Vec<u8>>,
}

/// Consensus output as delivered by the consensus layer over gRPC.
pub struct GrpcConsensusOutput {
    pub leader_round: u64,
    pub leader_author_index: AuthorityIndex,
    pub commit_timestamp: u64,
    pub commit_sub_dag_index: u64,
    pub commit_digest: Vec<u8>,
    pub reputation_scores: Vec<ReputationScore>,
    pub blocks: Vec<Block>,
}

/// Consensus output in the form the execution layer consumes.
pub struct ConsensusOutput {
    pub reputation_scores: Option<Vec<(AuthorityIndex, u64)>>,
    pub leader_round: u64,
    pub leader_author_index: AuthorityIndex,
    pub commit_timestamp: u64,
    pub commit_sub_dag_index: u64,
    pub commit_digest: Vec<u8>,
    pub blocks: Vec<(AuthorityIndex, Vec<Vec<u8>>)>,
}

/// The pair a reputation score becomes.
pub open spec fn score_pair(s: ReputationScore) -> (AuthorityIndex, u64) {
    (s.authority_index, s.score)
}

/// The pair a block becomes: its author and its transactions' bytes.
pub open spec fn block_pair(b: Block) -> (AuthorityIndex, Seq<Seq<u8>>) {
    (b.authority_index, b.transactions.deep_view())
}

/// What converting a gRPC output gives, field by field.
pub open spec fn converts_to(g: GrpcConsensusOutput, c: ConsensusOutput) -> bool {
    &&& c.reputation_scores matches Some(rs)
        && rs@ == g.reputation_scores@.map_values(|s: ReputationScore| score_pair(s))
    &&& c.leader_round == g.leader_round
    &&& c.leader_author_index == g.leader_author_index
    &&& c.commit_timestamp == g.commit_timestamp
    &&& c.commit_sub_dag_index == g.commit_sub_dag_index
    &&& c.commit_digest@ == g.commit_digest@
    &&& c.blocks.deep_view() == g.blocks@.map_values(|b: Block| block_pair(b))
}

/// A converted output holds every reputation score as an `(authority, score)` pair, one
/// for each received score and in the same order, and every block as an
/// `(authority, transactions)` pair, one for each received block and in the same order;
/// the other fields are the received ones.
pub proof fn lemma_conversion_keeps_every_entry(g: GrpcConsensusOutput, c: ConsensusOutput)
    requires
        converts_to(g, c),
    ensures
        c.reputation_scores is Some,
        c.reputation_scores->0@.len() == g.reputation_scores@.len(),
        forall|i: int| 0 <= i < g.reputation_scores@.len() ==> {
            &&& (#[trigger] c.reputation_scores->0@[i]).0 == g.reputation_scores@[i].authority_index
            &&& c.reputation_scores->0@[i].1 == g.reputation_scores@[i].score
        },
        c.blocks@.len() == g.blocks@.len(),
        forall|i: int| 0 <= i < g.blocks@.len() ==> {
            &&& (#[trigger] c.blocks@[i]).0 == g.blocks@[i].authority_index
            &&& c.blocks@[i].1.deep_view() == g.blocks@[i].transactions.deep_view()
        },
        c.leader_round == g.leader_round,
        c.leader_author_index == g.leader_author_index,
        c.commit_timestamp == g.commit_timestamp,
        c.commit_sub_dag_index == g.commit_sub_dag_index,
        c.commit_digest@ == g.commit_digest@,
{
    assert(c.blocks.deep_view().len() == c.blocks@.len());
    assert(c.blocks@.len() == g.blocks@.len());
    assert forall|i: int| 0 <= i < g.blocks@.len() implies {
        &&& (#[trigger] c.blocks@[i]).0 == g.blocks@[i].authority_index
        &&& c.blocks@[i].1.deep_view() == g.blocks@[i].transactions.deep_view()
    } by {
        assert(c.blocks.deep_view()[i] == block_pair(g.blocks@[i]));
        assert(c.blocks.deep_view()[i] == (c.blocks@[i].0, c.blocks@[i].1.deep_view()));
    }
    assert forall|i: int| 0 <= i < g.reputation_scores@.len() implies {
        &&& (#[trigger] c.reputation_scores->0@[i]).0 == g.reputation_scores@[i].authority_index
        &&& c.reputation_scores->0@[i].1 == g.reputation_scores@[i].score
    } by {
        assert(c.reputation_scores->0@[i] == score_pair(g.reputation_scores@[i]));
    }
}

impl GrpcConsensusOutput {
    /// Converts the wire form into the execution-layer form: every reputation score
    /// becomes an `(authority, score)` pair and every block an `(authority, transactions)`
    /// pair, in the same order; the scalar fields are carried over unchanged.
    pub fn into_consensus_output(self) -> (r: ConsensusOutput)
        ensures
            converts_to(self, r),
            r.reputation_scores is Some,
            r.reputation_scores->0@.len() == self.reputation_scores@.len(),
            forall|i: int| 0 <= i < self.reputation_scores@.len() ==> {
                &&& (#[trigger] r.reputation_scores->0@[i]).0 == self.reputation_scores@[i].authority_index
                &&& r.reputation_scores->0@[i].1 == self.reputation_scores@[i].score
            },
            r.blocks@.len() == self.blocks@.len(),
            forall|i: int| 0 <= i < self.blocks@.len() ==> {
                &&& (#[trigger] r.blocks@[i]).0 == self.blocks@[i].authority_index
                &&& r.blocks@[i].1.deep_view() == self.blocks@[i].transactions.deep_view()
            },
    {
        let GrpcConsensusOutput {
            leader_round,
            leader_author_index,
            commit_timestamp,
            commit_sub_dag_index,
            commit_digest,
            reputation_scores,
            blocks,
        } = self;
        let ghost scores_in = reputation_scores@;
        let mut scores: Vec<(AuthorityIndex, u64)> = Vec::new();
        for s in it: reputation_scores.into_iter()
            invariant
                it.seq() == scores_in,
                scores@ == scores_in.take(it.index() as int).map_values(|s: ReputationScore| score_pair(s)),
        {
            assert(scores_in.take(it.index() + 1) == scores_in.take(it.index() as int).push(s));
            scores.push((s.authority_index, s.score));
        }
        let ghost blocks_in = blocks@;
        let mut pairs: Vec<(AuthorityIndex, Vec<Vec<u8>>)> = Vec::new();
        for b in it: blocks.into_iter()
            invariant
                it.seq() == blocks_in,
                pairs.deep_view() == blocks_in.take(it.index() as int).map_values(|b: Block| block_pair(b)),
        {
            assert(blocks_in.take(it.index() + 1) == blocks_in.take(it.index() as int).push(b));
            let ghost before = pairs.deep_view();
            let Block { authority_index, transactions } = b;
            pairs.push((authority_index, transactions));
            assert(pairs.deep_view() =~= before.push(block_pair(b)));
        }
        assert(scores_in.take(scores_in.len() as int) =~= scores_in);
        assert(blocks_in.take(blocks_in.len() as int) =~= blocks_in);
        let r = ConsensusOutput {
            reputation_scores: Some(scores),
            leader_round,
            leader_author_index,
            commit_timestamp,
            commit_sub_dag_index,
            commit_digest,
            blocks: pairs,
        };
        proof {
            lemma_conversion_keeps_every_entry(self, r);
        }
        r
    }
}


/// BLAKE2b-256 digest of `data`.
pub uninterp spec fn blake2b256_hash(data: Seq<u8>) -> Seq<u8>;

/// The character of the standard base64 alphabet for a 6-bit value:
/// `A`-`Z`, `a`-`z`, `0`-`9`, `+`, `/`.
pub open spec fn base64_char(v: int) -> char {
    if v < 26 {
        (65 + v) as char
    } else if v < 52 {
        (97 + (v - 26)) as char
    } else if v < 62 {
        (48 + (v - 52)) as char
    } else if v == 62 {
        '+'
    } else {
        '/'
    }
}

/// The standard base64 text of `data`, padded with `=`: every three bytes become four
/// characters of six bits each, most significant bits first.
pub open spec fn base64_text(data: Seq<u8>) -> Seq<char>
    decreases data.len(),
{
    let b0 = data[0] as int;
    let b1 = data[1] as int;
    let b2 = data[2] as int;
    if data.len() == 0 {
        Seq::empty()
    } else if data.len() == 1 {
        seq![base64_char(b0 / 4), base64_char((b0 % 4) * 16), '=', '=']
    } else if data.len() == 2 {
        seq![
            base64_char(b0 / 4),
            base64_char((b0 % 4) * 16 + b1 / 16),
            base64_char((b1 % 16) * 4),
            '=',
        ]
    } else {
        seq![
            base64_char(b0 / 4),
            base64_char((b0 % 4) * 16 + b1 / 16),
            base64_char((b1 % 16) * 4 + b2 / 64),
            base64_char(b2 % 64),
        ] + base64_text(data.subrange(3, data.len() as int))
    }
}

/// Calls `fastcrypto`'s `Blake2b256::digest`; the contract claims that the result is
/// the named BLAKE2b-256 digest of the input and is 32 bytes long.
#[verifier::external_body]
fn blake2b256(data: &[u8]) -> (r: Vec<u8>)
    ensures
        r@ == blake2b256_hash(data@),
        r@.len() == 32,
{
    <Blake2b256 as HashFunction<32>>::digest(data).to_vec()
}

/// Calls `fastcrypto`'s `Base64::encode`, which encodes with `base64ct`'s standard padded
/// alphabet; the contract claims that the result is the standard padded base64 text of
/// the input.
#[verifier::external_body]
fn base64_encode(data: &[u8]) -> (r: String)
    ensures
        r@ == base64_text(data@),
{
    Base64::encode(data)
}

/// A 32-byte digest of a consensus commit.
pub struct ConsensusCommitDigest {
    bytes: Vec<u8>,
}

impl ConsensusCommitDigest {
    #[verifier::type_invariant]
    spec fn well_formed(self) -> bool {
        self.bytes@.len() == 32
    }

    /// The digest's bytes.
    pub closed spec fn bytes_view(self) -> Seq<u8> {
        self.bytes@
    }

    /// A copy of the digest's bytes; always 32 of them.
    pub fn to_vec(&self) -> (r: Vec<u8>)
        ensures
            r@ == self.bytes_view(),
            r@.len() == 32,
    {
        proof { use_type_invariant(self); }
        let r = self.bytes.clone();
        assert(r@ =~= self.bytes@);
        r
    }
}

impl View for ConsensusCommitDigest {
    type V = Seq<u8>;

    open spec fn view(&self) -> Seq<u8> {
        self.bytes_view()
    }
}

/// The digest made of 32 zero bytes.
pub open spec fn zero_digest() -> Seq<u8> {
    Seq::new(32, |i: int| 0u8)
}

impl Default for ConsensusCommitDigest {
    fn default() -> (r: Self)
        ensures
            r@ == zero_digest(),
    {
        let mut bytes: Vec<u8> = Vec::new();
        while bytes.len() < 32
            invariant
                bytes@.len() <= 32,
                forall|i: int| 0 <= i < bytes@.len() ==> bytes@[i] == 0u8,
            decreases 32 - bytes@.len(),
        {
            bytes.push(0u8);
        }
        assert(bytes@ =~= zero_digest());
        ConsensusCommitDigest { bytes }
    }
}

/// The text shown for one block: the base64 form of the BLAKE2b-256 digest of its
/// transactions' bytes, concatenated in order.
pub open spec fn block_digest_text(transactions: Seq<Seq<u8>>) -> Seq<char> {
    base64_text(blake2b256_hash(transactions.flatten()))
}

/// The text that describes a consensus output: its leader and, for each block, the text
/// of the digest of its transactions.
pub open spec fn display_text(
    leader_author_index: AuthorityIndex,
    blocks: Seq<(AuthorityIndex, Seq<Seq<u8>>)>,
) -> Seq<char> {
    output_text_of(
        leader_author_index,
        blocks.map_values(|b: (AuthorityIndex, Seq<Seq<u8>>)| block_digest_text(b.1)),
    )
}

/// The bytes of all transactions, one after the other.
fn concatenated(transactions: &Vec<Vec<u8>>) -> (r: Vec<u8>)
    ensures
        r@ == transactions.deep_view().flatten(),
{
    let mut out: Vec<u8> = Vec::new();
    let mut i: usize = 0;
    while i < transactions.len()
        invariant
            i <= transactions@.len(),
            out@ == transactions.deep_view().take(i as int).flatten(),
        decreases transactions@.len() - i,
    {
        let tx = &transactions[i];
        let ghost before = out@;
        let mut j: usize = 0;
        while j < tx.len()
            invariant
                j <= tx@.len(),
                out@ == before + tx@.take(j as int),
            decreases tx@.len() - j,
        {
            out.push(tx[j]);
            assert(tx@.take(j + 1) =~= tx@.take(j as int).push(tx@[j as int]));
            j = j + 1;
        }
        assert(tx@.take(tx@.len() as int) =~= tx@);
        assert(transactions.deep_view()[i as int] =~= tx@);
        assert(transactions.deep_view().take(i + 1) =~= transactions.deep_view().take(i as int).push(tx@));
        proof {
            transactions.deep_view().take(i as int).lemma_flatten_push(tx@);
        }
        i = i + 1;
    }
    assert(transactions.deep_view().take(transactions@.len() as int) =~= transactions.deep_view());
    out
}

/// The text that describes a consensus output, given its leader's index and the texts
/// shown for its blocks, in order.
pub open spec fn output_text_of(leader_author_index: AuthorityIndex, block_texts: Seq<Seq<char>>) -> Seq<char> {
    "ConsensusOuput(leader_index="@ + decimal_text(leader_author_index as nat) + ", blocks=["@
        + comma_joined(block_texts) + "])"@
}

/// The text that describes a consensus output led by `leader_author_index` whose blocks
/// are shown as `block_texts`: the leader's index in decimal, then the block texts
/// separated by `", "`.
pub fn output_text(leader_author_index: AuthorityIndex, block_texts: &Vec<String>) -> (r: String)
    ensures
        r@ == output_text_of(leader_author_index, block_texts@.map_values(|p: String| p@)),
{
    let mut s = String::new();
    s.append("ConsensusOuput(leader_index=");
    push_decimal(&mut s, leader_author_index as u64);
    s.append(", blocks=[");
    push_comma_joined(&mut s, block_texts);
    s.append("])");
    assert(s@ =~= output_text_of(leader_author_index, block_texts@.map_values(|p: String| p@)));
    s
}

impl ConsensusOutput {
    /// The reputation scores, in the order received.
    pub fn reputation_score_sorted_desc(&self) -> (r: Option<Vec<(AuthorityIndex, u64)>>)
        ensures
            match self.reputation_scores {
                None => r is None,
                Some(rs) => r matches Some(c) && c@ == rs@,
            },
    {
        match &self.reputation_scores {
            None => None,
            Some(rs) => {
                let mut out: Vec<(AuthorityIndex, u64)> = Vec::new();
                let mut i: usize = 0;
                while i < rs.len()
                    invariant
                        i <= rs@.len(),
                        out@ == rs@.take(i as int),
                    decreases rs@.len() - i,
                {
                    out.push(rs[i]);
                    assert(rs@.take(i + 1) =~= rs@.take(i as int).push(rs@[i as int]));
                    i = i + 1;
                }
                assert(rs@.take(rs@.len() as int) =~= rs@);
                Some(out)
            },
        }
    }

    /// The round of the leader of this commit.
    pub fn leader_round(&self) -> (r: u64)
        ensures
            r == self.leader_round,
    {
        self.leader_round
    }

    /// The authority that led this commit.
    pub fn leader_author_index(&self) -> (r: AuthorityIndex)
        ensures
            r == self.leader_author_index,
    {
        self.leader_author_index
    }

    /// The commit's timestamp, in milliseconds.
    pub fn commit_timestamp_ms(&self) -> (r: u64)
        ensures
            r == self.commit_timestamp,
    {
        self.commit_timestamp
    }

    /// The index of the committed sub-DAG.
    pub fn commit_sub_dag_index(&self) -> (r: u64)
        ensures
            r == self.commit_sub_dag_index,
    {
        self.commit_sub_dag_index
    }

    /// The digest of this commit: the received commit digest when the protocol uses
    /// committed sub-DAG digests and the received digest is exactly 32 bytes long,
    /// and the all-zero digest otherwise.
    pub fn consensus_digest(&self, use_committed_subdag_digest: bool) -> (r: ConsensusCommitDigest)
        ensures
            r@ == if use_committed_subdag_digest && self.commit_digest@.len() == 32 {
                self.commit_digest@
            } else {
                zero_digest()
            },
    {
        if use_committed_subdag_digest && self.commit_digest.len() == 32 {
            let bytes = self.commit_digest.clone();
            assert(bytes@ =~= self.commit_digest@);
            return ConsensusCommitDigest { bytes };
        }
        ConsensusCommitDigest::default()
    }

    /// Describes the output: the leader's index and, for every block, the base64 form
    /// of the BLAKE2b-256 digest of its transactions.
    pub fn to_display_string(&self) -> (r: String)
        ensures
            r@ == display_text(self.leader_author_index, self.blocks.deep_view()),
    {
        let ghost blocks = self.blocks.deep_view();
        let ghost texts = blocks.map_values(|b: (AuthorityIndex, Seq<Seq<u8>>)| block_digest_text(b.1));
        let mut digests: Vec<String> = Vec::new();
        let mut i: usize = 0;
        while i < self.blocks.len()
            invariant
                i <= self.blocks@.len(),
                blocks == self.blocks.deep_view(),
                texts == blocks.map_values(|b: (AuthorityIndex, Seq<Seq<u8>>)| block_digest_text(b.1)),
                digests@.map_values(|p: String| p@) == texts.take(i as int),
            decreases self.blocks@.len() - i,
        {
            let bytes = concatenated(&self.blocks[i].1);
            let hash = blake2b256(bytes.as_slice());
            let text = base64_encode(hash.as_slice());
            let ghost before = digests@;
            digests.push(text);
            assert(digests@ == before.push(text));
            assert(digests@.map_values(|p: String| p@) =~= before.map_values(|p: String| p@).push(text@));
            assert(texts.take(i + 1) =~= texts.take(i as int).push(texts[i as int]));
            i = i + 1;
        }
        assert(texts.take(self.blocks@.len() as int) =~= texts);
        output_text(self.leader_author_index, &digests)
    }

    /// Pairs every transaction of every block with what `decode` makes of its bytes,
    /// keeping each block's author and the order of blocks and transactions.
    pub fn transactions<T, F: Fn(&Vec<u8>) -> T>(&self, decode: F) -> (r: Vec<(AuthorityIndex, Vec<(Vec<u8>, T)>)>)
        requires
            forall|tx: &Vec<u8>| decode.requires((tx,)),
        ensures
            r@.len() == self.blocks@.len(),
            forall|i: int| 0 <= i < r@.len() ==> {
                &&& (#[trigger] r@[i]).0 == self.blocks@[i].0
                &&& r@[i].1@.len() == self.blocks@[i].1@.len()
                &&& forall|j: int| 0 <= j < r@[i].1@.len() ==> {
                    &&& (#[trigger] r@[i].1@[j]).0@ == self.blocks@[i].1@[j]@
                    &&& decode.ensures((&self.blocks@[i].1@[j],), r@[i].1@[j].1)
                }
            },
    {
        let mut out: Vec<(AuthorityIndex, Vec<(Vec<u8>, T)>)> = Vec::new();
        let mut i: usize = 0;
        while i < self.blocks.len()
            invariant
                i <= self.blocks@.len(),
                out@.len() == i,
                forall|tx: &Vec<u8>| decode.requires((tx,)),
                forall|k: int| 0 <= k < i ==> {
                    &&& (#[trigger] out@[k]).0 == self.blocks@[k].0
                    &&& out@[k].1@.len() == self.blocks@[k].1@.len()
                    &&& forall|j: int| 0 <= j < out@[k].1@.len() ==> {
                        &&& (#[trigger] out@[k].1@[j]).0@ == self.blocks@[k].1@[j]@
                        &&& decode.ensures((&self.blocks@[k].1@[j],), out@[k].1@[j].1)
                    }
                },
            decreases self.blocks@.len() - i,
        {
            let block = &self.blocks[i];
            let mut txs: Vec<(Vec<u8>, T)> = Vec::new();
            let mut j: usize = 0;
            while j < block.1.len()
                invariant
                    block == self.blocks@[i as int],
                    j <= block.1@.len(),
                    txs@.len() == j,
                    forall|tx: &Vec<u8>| decode.requires((tx,)),
                    forall|m: int| 0 <= m < j ==> {
                        &&& (#[trigger] txs@[m]).0@ == block.1@[m]@
                        &&& decode.ensures((&block.1@[m],), txs@[m].1)
                    },
                decreases block.1@.len() - j,
            {
                let bytes = &block.1[j];
                let decoded = decode(bytes);
                let copy = bytes.clone();
                assert(copy@ =~= bytes@);
                txs.push((copy, decoded));
                j = j + 1;
            }
            out.push((block.0, txs));
            i = i + 1;
        }
        out
    }
}

} // verus!
