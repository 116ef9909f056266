use vstd::prelude::*;
use std::str::FromStr;
use fastcrypto_zkp::bn254::zk_login::OIDCProvider;
use fastcrypto_zkp::bn254::zk_login::OIDCProvider::{
    Apple, Arden, AwsTenant, Credenza3, EveFrontier, Facebook, FanTV, Google, KarrierOne, Kakao,
    Microsoft, Onefc, Playtron, Slack, TestEveFrontier, TestIssuer, Threedos, Twitch,
};
use OidcProvider as P;
use crate::node::NodeStartError;

verus! {

/// The consensus protocol a validator runs.
#[derive(Clone, Copy, Debug, PartialEq, Eq, Structural)]
pub enum ConsensusProtocol {
    Narwhal,
    Mysticeti,
}

/// The client through which a validator's consensus adapter submits transactions.
#[derive(Clone, Copy, Debug, PartialEq, Eq, Structural)]
pub enum ConsensusClientKind {
    /// A lazily connected Narwhal client on the consensus address, used by the adapter alone.
    LazyNarwhal,
    /// A lazily connected Mysticeti client, shared by the adapter and the consensus manager.
    SharedLazyMysticeti,
}

/// A validator needs a consensus configuration.
pub fn validator_consensus_config<C>(configured: Option<C>) -> (r: Result<C, NodeStartError>)
    ensures
        match configured {
            Some(c) => r == Ok::<C, NodeStartError>(c),
            None => r matches Err(NodeStartError::ValidatorMissingConsensusConfig),
        },
{
    match configured {
        Some(c) => Ok(c),
        None => Err(NodeStartError::ValidatorMissingConsensusConfig),
    }
}

/// The consensus client a validator uses for its protocol.
pub fn consensus_client_kind(protocol: ConsensusProtocol) -> (r: ConsensusClientKind)
    ensures
        protocol == ConsensusProtocol::Narwhal ==> r == ConsensusClientKind::LazyNarwhal,
        protocol == ConsensusProtocol::Mysticeti ==> r == ConsensusClientKind::SharedLazyMysticeti,
{
    match protocol {
        ConsensusProtocol::Narwhal => ConsensusClientKind::LazyNarwhal,
        ConsensusProtocol::Mysticeti => ConsensusClientKind::SharedLazyMysticeti,
    }
}

/// How many pending transactions one authority may have in the consensus adapter: twice
/// the total limit, shared among the committee's members.
pub fn max_pending_local_submissions(max_pending_transactions: usize, num_members: usize) -> (r: usize)
    requires
        num_members > 0,
        max_pending_transactions * 2 <= usize::MAX,
    ensures
        r == (max_pending_transactions * 2) / (num_members as int),
{
    max_pending_transactions * 2 / num_members
}

/// When the next reconfiguration is due: the epoch's start plus its duration.
pub fn next_reconfiguration_timestamp_ms(epoch_start_timestamp_ms: u64, epoch_duration_ms: u64) -> (r: u64)
    requires
        epoch_start_timestamp_ms + epoch_duration_ms <= u64::MAX,
    ensures
        r == epoch_start_timestamp_ms + epoch_duration_ms,
{
    epoch_start_timestamp_ms + epoch_duration_ms
}

/// The most transactions a checkpoint may hold, as the protocol configures it.
pub fn max_tx_per_checkpoint(max_transactions_per_checkpoint: u64) -> (r: usize)
    ensures
        r == max_transactions_per_checkpoint as usize,
{
    max_transactions_per_checkpoint as usize
}

/// The most JWKs taken from one fetch.
pub const MAX_JWK_KEYS_PER_FETCH: usize = 100;

/// How long, in seconds, the updater waits before fetching again after a failed fetch.
pub const JWK_RETRY_SECS: u64 = 30;

/// The identifier of a JWK: its issuer and key id.
pub struct JwkId {
    pub iss: String,
    pub kid: String,
}

/// A JSON web key.
pub struct Jwk {
    pub kty: String,
    pub e: String,
    pub n: String,
    pub alg: String,
}

/// A JWK as fetched from a provider, with what the epoch knows of it: whether its total
/// size is within the allowed limit, and whether it is already active in this epoch.
pub struct JwkCandidate {
    pub id: JwkId,
    pub jwk: Jwk,
    pub within_size_limit: bool,
    pub active_in_current_epoch: bool,
}

/// A JWK together with its identifier, as submitted to consensus.
pub struct IdentifiedJwk {
    pub id: JwkId,
    pub jwk: Jwk,
}

/// The text that identifies a JWK and its identifier: all six fields.
pub open spec fn jwk_key(id: JwkId, jwk: Jwk) -> Seq<Seq<char>> {
    seq![id.iss@, id.kid@, jwk.kty@, jwk.e@, jwk.n@, jwk.alg@]
}

/// An OpenID Connect provider of JWKs.
pub enum OidcProvider {
    Google,
    Twitch,
    Facebook,
    Kakao,
    Apple,
    Slack,
    Microsoft,
    /// An AWS Cognito user pool: its region and its tenant id.
    AwsTenant { region: String, tenant_id: String },
    KarrierOne,
    Credenza3,
    TestIssuer,
    Playtron,
    Threedos,
    Onefc,
    FanTV,
    Arden,
    EveFrontier,
    TestEveFrontier,
}

/// What an OpenID Connect provider is, with its tenant's region and id as text.
pub enum OidcProviderView {
    Google,
    Twitch,
    Facebook,
    Kakao,
    Apple,
    Slack,
    Microsoft,
    AwsTenant { region: Seq<char>, tenant_id: Seq<char> },
    KarrierOne,
    Credenza3,
    TestIssuer,
    Playtron,
    Threedos,
    Onefc,
    FanTV,
    Arden,
    EveFrontier,
    TestEveFrontier,
}

impl View for OidcProvider {
    type V = OidcProviderView;

    open spec fn view(&self) -> OidcProviderView {
        match self {
            OidcProvider::Google => OidcProviderView::Google,
            OidcProvider::Twitch => OidcProviderView::Twitch,
            OidcProvider::Facebook => OidcProviderView::Facebook,
            OidcProvider::Kakao => OidcProviderView::Kakao,
            OidcProvider::Apple => OidcProviderView::Apple,
            OidcProvider::Slack => OidcProviderView::Slack,
            OidcProvider::Microsoft => OidcProviderView::Microsoft,
            OidcProvider::AwsTenant { region, tenant_id } => OidcProviderView::AwsTenant { region: region@, tenant_id: tenant_id@ },
            OidcProvider::KarrierOne => OidcProviderView::KarrierOne,
            OidcProvider::Credenza3 => OidcProviderView::Credenza3,
            OidcProvider::TestIssuer => OidcProviderView::TestIssuer,
            OidcProvider::Playtron => OidcProviderView::Playtron,
            OidcProvider::Threedos => OidcProviderView::Threedos,
            OidcProvider::Onefc => OidcProviderView::Onefc,
            OidcProvider::FanTV => OidcProviderView::FanTV,
            OidcProvider::Arden => OidcProviderView::Arden,
            OidcProvider::EveFrontier => OidcProviderView::EveFrontier,
            OidcProvider::TestEveFrontier => OidcProviderView::TestEveFrontier,
        }
    }
}

impl OidcProvider {
    /// Whether two providers are the same provider (the same tenant, for AWS).
    pub fn same_provider(&self, other: &OidcProvider) -> (r: bool)
        ensures
            r == (self@ == other@),
    {
        match self {
            OidcProvider::Google => matches!(other, OidcProvider::Google),
            OidcProvider::Twitch => matches!(other, OidcProvider::Twitch),
            OidcProvider::Facebook => matches!(other, OidcProvider::Facebook),
            OidcProvider::Kakao => matches!(other, OidcProvider::Kakao),
            OidcProvider::Apple => matches!(other, OidcProvider::Apple),
            OidcProvider::Slack => matches!(other, OidcProvider::Slack),
            OidcProvider::Microsoft => matches!(other, OidcProvider::Microsoft),
            OidcProvider::AwsTenant { region, tenant_id } => match other {
                OidcProvider::AwsTenant { region: r2, tenant_id: t2 } => *region == *r2 && *tenant_id == *t2,
                _ => false,
            },
            OidcProvider::KarrierOne => matches!(other, OidcProvider::KarrierOne),
            OidcProvider::Credenza3 => matches!(other, OidcProvider::Credenza3),
            OidcProvider::TestIssuer => matches!(other, OidcProvider::TestIssuer),
            OidcProvider::Playtron => matches!(other, OidcProvider::Playtron),
            OidcProvider::Threedos => matches!(other, OidcProvider::Threedos),
            OidcProvider::Onefc => matches!(other, OidcProvider::Onefc),
            OidcProvider::FanTV => matches!(other, OidcProvider::FanTV),
            OidcProvider::Arden => matches!(other, OidcProvider::Arden),
            OidcProvider::EveFrontier => matches!(other, OidcProvider::EveFrontier),
            OidcProvider::TestEveFrontier => matches!(other, OidcProvider::TestEveFrontier),
        }
    }
}

/// The provider the `fastcrypto-zkp` crate finds for an issuer; `None` when the issuer is
/// not a known provider.
pub uninterp spec fn provider_of_iss(iss: Seq<char>) -> Option<OidcProviderView>;

/// The provider the `fastcrypto-zkp` crate reads from a provider name; `None` when the name
/// is not a known provider.
pub uninterp spec fn provider_named(name: Seq<char>) -> Option<OidcProviderView>;

/// Calls `OIDCProvider::from_iss` and converts the provider it finds, variant by variant;
/// the contract claims the result is the named provider of the issuer.
#[verifier::external_body]
fn provider_from_iss(iss: &str) -> (r: Option<OidcProvider>)
    ensures
        r matches Some(p) ==> provider_of_iss(iss@) == Some(p@),
        r is None ==> provider_of_iss(iss@) is None,
{
    let found = match OIDCProvider::from_iss(iss) { Ok(p) => p, Err(_) => return None };
    Some(match found {
            Google => P::Google, Twitch => P::Twitch, Facebook => P::Facebook,
            Kakao => P::Kakao, Apple => P::Apple, Slack => P::Slack,
            Microsoft => P::Microsoft, KarrierOne => P::KarrierOne, Credenza3 => P::Credenza3,
            TestIssuer => P::TestIssuer, Playtron => P::Playtron, Threedos => P::Threedos,
            Onefc => P::Onefc, FanTV => P::FanTV, Arden => P::Arden,
            EveFrontier => P::EveFrontier, TestEveFrontier => P::TestEveFrontier,
            AwsTenant((region, tenant_id)) => P::AwsTenant { region, tenant_id },
    })
}

/// Calls `OIDCProvider::from_str` and converts the provider it reads, variant by variant;
/// the contract claims the result is the named provider of the name.
#[verifier::external_body]
fn provider_from_name(name: &str) -> (r: Option<OidcProvider>)
    ensures
        r matches Some(p) ==> provider_named(name@) == Some(p@),
        r is None ==> provider_named(name@) is None,
{
    let found = match OIDCProvider::from_str(name) { Ok(p) => p, Err(_) => return None };
    Some(match found {
            Google => P::Google, Twitch => P::Twitch, Facebook => P::Facebook,
            Kakao => P::Kakao, Apple => P::Apple, Slack => P::Slack,
            Microsoft => P::Microsoft, KarrierOne => P::KarrierOne, Credenza3 => P::Credenza3,
            TestIssuer => P::TestIssuer, Playtron => P::Playtron, Threedos => P::Threedos,
            Onefc => P::Onefc, FanTV => P::FanTV, Arden => P::Arden,
            EveFrontier => P::EveFrontier, TestEveFrontier => P::TestEveFrontier,
            AwsTenant((region, tenant_id)) => P::AwsTenant { region, tenant_id },
    })
}

/// A fetched JWK is valid for `provider` when its issuer is that provider and its size is
/// within the limit.
pub open spec fn jwk_valid(provider: OidcProviderView, c: JwkCandidate) -> bool {
    provider_of_iss(c.id.iss@) == Some(provider) && c.within_size_limit
}

/// Whether a fetched JWK is valid for `provider`: its issuer must be a known provider,
/// the same one, and its size within the limit.
pub fn validate_jwk(provider: &OidcProvider, candidate: &JwkCandidate) -> (r: bool)
    ensures
        r == jwk_valid(provider@, *candidate),
{
    match provider_from_iss(candidate.id.iss.as_str()) {
        None => false,
        Some(iss_provider) => {
            if !iss_provider.same_provider(provider) {
                false
            } else {
                candidate.within_size_limit
            }
        },
    }
}

/// The supported providers, read from their names, in the given order; given names that
/// all name a provider.
pub fn supported_providers(names: &Vec<String>) -> (r: Vec<OidcProvider>)
    requires
        forall|i: int| 0 <= i < names@.len() ==> provider_named(#[trigger] names@[i]@) is Some,
    ensures
        r@.len() == names@.len(),
        forall|i: int| 0 <= i < r@.len() ==> provider_named(names@[i]@) == Some((#[trigger] r@[i])@),
{
    let mut out: Vec<OidcProvider> = Vec::new();
    let mut i: usize = 0;
    while i < names.len()
        invariant
            i <= names@.len(),
            out@.len() == i,
            forall|k: int| 0 <= k < names@.len() ==> provider_named(#[trigger] names@[k]@) is Some,
            forall|k: int| 0 <= k < i ==> provider_named(names@[k]@) == Some((#[trigger] out@[k])@),
        decreases names@.len() - i,
    {
        assert(provider_named(names@[i as int]@) is Some);
        match provider_from_name(names[i].as_str()) {
            Some(p) => { out.push(p); },
            None => { out.push(OidcProvider::Google); },
        }
        i = i + 1;
    }
    out
}

/// The supported providers when every name names one; `None` when some name does not.
pub fn try_supported_providers(names: &Vec<String>) -> (r: Option<Vec<OidcProvider>>)
    ensures
        r is Some <==> forall|i: int| 0 <= i < names@.len() ==> provider_named(#[trigger] names@[i]@) is Some,
        r matches Some(ps) ==> ps@.len() == names@.len()
            && forall|i: int| 0 <= i < ps@.len() ==> provider_named(names@[i]@) == Some((#[trigger] ps@[i])@),
{
    let mut i: usize = 0;
    while i < names.len()
        invariant
            i <= names@.len(),
            forall|k: int| 0 <= k < i ==> provider_named(#[trigger] names@[k]@) is Some,
        decreases names@.len() - i,
    {
        if provider_from_name(names[i].as_str()).is_none() {
            return None;
        }
        i = i + 1;
    }
    Some(supported_providers(names))
}

/// Which fetched JWKs are new, starting from the keys already `seen`: a JWK is taken when
/// it is valid for the provider, not active in the current epoch and not seen before; it is
/// then seen. Gives the keys seen afterwards and the keys taken, in fetch order.
pub open spec fn new_jwks(
    seen: Set<Seq<Seq<char>>>,
    provider: OidcProviderView,
    fetched: Seq<JwkCandidate>,
) -> (Set<Seq<Seq<char>>>, Seq<Seq<Seq<char>>>)
    decreases fetched.len(),
{
    if fetched.len() == 0 {
        (seen, Seq::empty())
    } else {
        let (s, taken) = new_jwks(seen, provider, fetched.drop_last());
        let c = fetched.last();
        let k = jwk_key(c.id, c.jwk);
        if jwk_valid(provider, c) && !c.active_in_current_epoch && !s.contains(k) {
            (s.insert(k), taken.push(k))
        } else {
            (s, taken)
        }
    }
}

/// A fetch takes no key that was seen before and no key twice, and afterwards exactly the
/// keys seen before and the keys it took are seen.
pub proof fn lemma_new_jwks_taken_once(
    seen: Set<Seq<Seq<char>>>,
    provider: OidcProviderView,
    fetched: Seq<JwkCandidate>,
)
    ensures
        ({
            let (after, taken) = new_jwks(seen, provider, fetched);
            &&& forall|i: int| 0 <= i < taken.len() ==> !seen.contains(#[trigger] taken[i])
            &&& taken.no_duplicates()
            &&& after == seen + taken.to_set()
        }),
    decreases fetched.len(),
{
    broadcast use vstd::seq_lib::group_seq_properties;
    if fetched.len() == 0 {
        assert(Seq::<Seq<Seq<char>>>::empty().to_set() =~= Set::<Seq<Seq<char>>>::empty());
        assert(seen + Set::<Seq<Seq<char>>>::empty() =~= seen);
    } else {
        lemma_new_jwks_taken_once(seen, provider, fetched.drop_last());
        let (s, taken) = new_jwks(seen, provider, fetched.drop_last());
        let c = fetched.last();
        let k = jwk_key(c.id, c.jwk);
        if jwk_valid(provider, c) && !c.active_in_current_epoch && !s.contains(k) {
            assert(taken.push(k).to_set() =~= taken.to_set().insert(k));
            assert(s.insert(k) =~= seen + taken.push(k).to_set());
            assert forall|i: int, j: int| 0 <= i < j < taken.push(k).len()
                implies taken.push(k)[i] != taken.push(k)[j] by {
                if j == taken.len() {
                    assert(taken.to_set().contains(taken[i]));
                }
            }
        }
    }
}

/// How many fetched JWKs are not valid for the provider.
pub open spec fn invalid_count(provider: OidcProviderView, fetched: Seq<JwkCandidate>) -> nat
    decreases fetched.len(),
{
    if fetched.len() == 0 {
        0
    } else {
        invalid_count(provider, fetched.drop_last()) + if jwk_valid(provider, fetched.last()) { 0nat } else { 1nat }
    }
}

/// What an updater submits over a run of successful fetches, starting from the keys already
/// `seen`: the keys seen afterwards and, for each fetch, the keys it submits.
pub open spec fn submissions(
    seen: Set<Seq<Seq<char>>>,
    provider: OidcProviderView,
    fetches: Seq<Seq<JwkCandidate>>,
) -> (Set<Seq<Seq<char>>>, Seq<Seq<Seq<Seq<char>>>>)
    decreases fetches.len(),
{
    if fetches.len() == 0 {
        (seen, Seq::empty())
    } else {
        let (s, subs) = submissions(seen, provider, fetches.drop_last());
        let (after, taken) = new_jwks(s, provider, fetches.last());
        (after, subs.push(capped(taken)))
    }
}

/// Over any run of fetches, an updater submits no key that was seen before the run, no key
/// twice within a fetch, no key in two different fetches, and at most
/// `MAX_JWK_KEYS_PER_FETCH` keys per fetch; every key it submits is seen afterwards, and
/// no seen key is forgotten.
pub proof fn lemma_submissions_once(
    seen: Set<Seq<Seq<char>>>,
    provider: OidcProviderView,
    fetches: Seq<Seq<JwkCandidate>>,
)
    ensures
        ({
            let (after, subs) = submissions(seen, provider, fetches);
            &&& subs.len() == fetches.len()
            &&& seen.subset_of(after)
            &&& forall|i: int, k: Seq<Seq<char>>| 0 <= i < subs.len() && #[trigger] subs[i].contains(k)
                ==> !seen.contains(k) && after.contains(k)
            &&& forall|i: int| 0 <= i < subs.len()
                ==> (#[trigger] subs[i]).no_duplicates() && subs[i].len() <= MAX_JWK_KEYS_PER_FETCH
            &&& forall|i: int, j: int, k: Seq<Seq<char>>| 0 <= i < j < subs.len() && #[trigger] subs[i].contains(k)
                ==> !(#[trigger] subs[j]).contains(k)
        }),
    decreases fetches.len(),
{
    if fetches.len() > 0 {
        lemma_submissions_once(seen, provider, fetches.drop_last());
        let (s, subs) = submissions(seen, provider, fetches.drop_last());
        lemma_new_jwks_taken_once(s, provider, fetches.last());
        let (after, taken) = new_jwks(s, provider, fetches.last());
        let c = capped(taken);
        let all = subs.push(c);
        assert(all == submissions(seen, provider, fetches).1);
        assert(after == submissions(seen, provider, fetches).0);
        assert forall|m: int| 0 <= m < c.len() implies c[m] == taken[m] && 0 <= m < taken.len() by {}
        assert forall|k: Seq<Seq<char>>| #[trigger] c.contains(k) implies taken.contains(k) && !s.contains(k) by {
            let m = choose|m: int| 0 <= m < c.len() && c[m] == k;
            assert(taken[m] == k);
        }
        assert(c.no_duplicates()) by {
            assert forall|a: int, b: int| 0 <= a < c.len() && 0 <= b < c.len() && a != b implies c[a] != c[b] by {
                assert(c[a] == taken[a] && c[b] == taken[b]);
            }
        }
        assert forall|k: Seq<Seq<char>>| #[trigger] taken.contains(k) implies after.contains(k) by {
            assert(taken.to_set().contains(k));
        }
        assert forall|i: int, k: Seq<Seq<char>>| 0 <= i < all.len() && #[trigger] all[i].contains(k)
            implies !seen.contains(k) && after.contains(k) by {
            if i < subs.len() {
                assert(all[i] == subs[i]);
            }
        }
        assert forall|i: int| 0 <= i < all.len()
            implies (#[trigger] all[i]).no_duplicates() && all[i].len() <= MAX_JWK_KEYS_PER_FETCH by {
            if i < subs.len() {
                assert(all[i] == subs[i]);
            }
        }
        assert forall|i: int, j: int, k: Seq<Seq<char>>| 0 <= i < j < all.len() && #[trigger] all[i].contains(k)
            implies !(#[trigger] all[j]).contains(k) by {
            assert(all[i] == subs[i]);
            if j < subs.len() {
                assert(all[j] == subs[j]);
            } else {
                assert(all[j] == c);
                assert(s.contains(k));
            }
        }
    }
}

/// A run of successful updater steps, as each step's contract describes it: starting from
/// `seens[0]`, the `k`-th step turns the seen keys `seens[k]` into `seens[k + 1]` and
/// submits `batches[k]`, as `new_jwks` and the cap give them for the `k`-th fetch.
pub open spec fn is_step_run(
    provider: OidcProviderView,
    fetches: Seq<Seq<JwkCandidate>>,
    seens: Seq<Set<Seq<Seq<char>>>>,
    batches: Seq<Seq<Seq<Seq<char>>>>,
) -> bool {
    &&& seens.len() == fetches.len() + 1
    &&& batches.len() == fetches.len()
    &&& forall|k: int| 0 <= k < fetches.len() ==> {
        let (after, taken) = #[trigger] new_jwks(seens[k], provider, fetches[k]);
        &&& seens[k + 1] == after
        &&& batches[k] == capped(taken)
    }
}

/// A run of successful steps submits what `submissions` gives for its fetches from the
/// keys seen at its start, and leaves seen what it gives.
pub proof fn lemma_step_run_is_submissions(
    provider: OidcProviderView,
    fetches: Seq<Seq<JwkCandidate>>,
    seens: Seq<Set<Seq<Seq<char>>>>,
    batches: Seq<Seq<Seq<Seq<char>>>>,
)
    requires
        is_step_run(provider, fetches, seens, batches),
    ensures
        submissions(seens[0], provider, fetches) == (seens.last(), batches),
    decreases fetches.len(),
{
    if fetches.len() == 0 {
        assert(batches =~= Seq::<Seq<Seq<Seq<char>>>>::empty());
    } else {
        let n = fetches.len() - 1;
        let fs = fetches.drop_last();
        let ss = seens.drop_last();
        let bs = batches.drop_last();
        assert forall|k: int| 0 <= k < fs.len() implies {
            let (after, taken) = #[trigger] new_jwks(ss[k], provider, fs[k]);
            &&& ss[k + 1] == after
            &&& bs[k] == capped(taken)
        } by {
            assert(ss[k] == seens[k] && ss[k + 1] == seens[k + 1] && fs[k] == fetches[k] && bs[k] == batches[k]);
            let _ = new_jwks(seens[k], provider, fetches[k]);
        }
        lemma_step_run_is_submissions(provider, fs, ss, bs);
        let _ = new_jwks(seens[n], provider, fetches[n]);
        assert(fetches.last() == fetches[n]);
        assert(bs.push(batches[n]) =~= batches);
    }
}

/// Over a run of successful updater steps (failed fetches submit nothing and leave the
/// seen keys unchanged), no key seen at the start is submitted, no key is submitted twice
/// within a step or in two different steps, and at most `MAX_JWK_KEYS_PER_FETCH` keys are
/// submitted per step.
pub proof fn lemma_step_run_submits_once(
    provider: OidcProviderView,
    fetches: Seq<Seq<JwkCandidate>>,
    seens: Seq<Set<Seq<Seq<char>>>>,
    batches: Seq<Seq<Seq<Seq<char>>>>,
)
    requires
        is_step_run(provider, fetches, seens, batches),
    ensures
        forall|i: int, k: Seq<Seq<char>>| 0 <= i < batches.len() && #[trigger] batches[i].contains(k)
            ==> !seens[0].contains(k),
        forall|i: int| 0 <= i < batches.len()
            ==> (#[trigger] batches[i]).no_duplicates() && batches[i].len() <= MAX_JWK_KEYS_PER_FETCH,
        forall|i: int, j: int, k: Seq<Seq<char>>| 0 <= i < j < batches.len() && #[trigger] batches[i].contains(k)
            ==> !(#[trigger] batches[j]).contains(k),
{
    lemma_step_run_is_submissions(provider, fetches, seens, batches);
    lemma_submissions_once(seens[0], provider, fetches);
}

/// The first `MAX_JWK_KEYS_PER_FETCH` of the given keys.
pub open spec fn capped(keys: Seq<Seq<Seq<char>>>) -> Seq<Seq<Seq<char>>> {
    if keys.len() > MAX_JWK_KEYS_PER_FETCH {
        keys.take(MAX_JWK_KEYS_PER_FETCH as int)
    } else {
        keys
    }
}

/// The cap keeps the first keys, in order: all of them when there are at most
/// `MAX_JWK_KEYS_PER_FETCH`, else exactly that many.
pub proof fn lemma_capped_is_prefix(keys: Seq<Seq<Seq<char>>>)
    ensures
        capped(keys).len() == if keys.len() > MAX_JWK_KEYS_PER_FETCH { MAX_JWK_KEYS_PER_FETCH as nat } else { keys.len() },
        forall|i: int| 0 <= i < capped(keys).len() ==> #[trigger] capped(keys)[i] == keys[i],
{
}

/// A fetched JWK is valid exactly when the issuer is a known provider, that provider is
/// the updater's, and the JWK is within the size limit: a JWK too large, or from another
/// or an unknown issuer, is never valid.
pub proof fn lemma_jwk_valid_means(provider: OidcProviderView, c: JwkCandidate)
    ensures
        jwk_valid(provider, c) <==> (c.within_size_limit && provider_of_iss(c.id.iss@) == Some(provider)),
        !c.within_size_limit ==> !jwk_valid(provider, c),
        provider_of_iss(c.id.iss@) is None ==> !jwk_valid(provider, c),
{
}

/// `k` is the key of the fetched JWK `c`, and `c` is valid for the provider and not active
/// in the current epoch.
pub open spec fn takeable_as(provider: OidcProviderView, c: JwkCandidate, k: Seq<Seq<char>>) -> bool {
    &&& jwk_valid(provider, c)
    &&& !c.active_in_current_epoch
    &&& jwk_key(c.id, c.jwk) == k
}

/// Every key a fetch takes is the key of a fetched JWK that is valid for the provider and
/// not active in the current epoch; every such fetched JWK is seen afterwards (taken now or
/// seen before); and afterwards nothing is seen but what was seen before and what was taken.
pub proof fn lemma_new_jwks_takes_exactly(
    seen: Set<Seq<Seq<char>>>,
    provider: OidcProviderView,
    fetched: Seq<JwkCandidate>,
)
    ensures
        ({
            let (after, taken) = new_jwks(seen, provider, fetched);
            &&& forall|i: int| 0 <= i < taken.len() ==> exists|m: int| 0 <= m < fetched.len()
                && takeable_as(provider, #[trigger] fetched[m], #[trigger] taken[i])
            &&& forall|m: int| 0 <= m < fetched.len() && jwk_valid(provider, #[trigger] fetched[m])
                && !fetched[m].active_in_current_epoch
                ==> after.contains(jwk_key(fetched[m].id, fetched[m].jwk))
            &&& forall|k: Seq<Seq<char>>| #[trigger] after.contains(k) ==> seen.contains(k) || taken.contains(k)
            &&& seen.subset_of(after)
        }),
    decreases fetched.len(),
{
    if fetched.len() > 0 {
        let init = fetched.drop_last();
        lemma_new_jwks_takes_exactly(seen, provider, init);
        let (s, taken) = new_jwks(seen, provider, init);
        let (after, taken2) = new_jwks(seen, provider, fetched);
        let c = fetched.last();
        let k = jwk_key(c.id, c.jwk);
        let n = fetched.len() - 1;
        assert(fetched[n] == c);
        assert forall|m: int| 0 <= m < init.len() implies #[trigger] init[m] == fetched[m] by {}
        assert forall|i: int| 0 <= i < taken2.len() implies exists|m: int| 0 <= m < fetched.len()
            && takeable_as(provider, #[trigger] fetched[m], #[trigger] taken2[i]) by {
            if i < taken.len() {
                assert(taken2[i] == taken[i]);
                let m = choose|m: int| 0 <= m < init.len() && takeable_as(provider, #[trigger] init[m], #[trigger] taken[i]);
                assert(fetched[m] == init[m]);
                assert(takeable_as(provider, fetched[m], taken2[i]));
            } else {
                assert(taken2.len() != taken.len());
                assert(jwk_valid(provider, c) && !c.active_in_current_epoch && !s.contains(k));
                assert(taken2 == taken.push(k));
                assert(taken2[i] == k);
                assert(fetched[n] == c);
                assert(takeable_as(provider, fetched[n], taken2[i]));
            }
        }
        assert forall|m: int| 0 <= m < fetched.len() && jwk_valid(provider, #[trigger] fetched[m])
            && !fetched[m].active_in_current_epoch
            implies after.contains(jwk_key(fetched[m].id, fetched[m].jwk)) by {
            if m < init.len() {
                assert(init[m] == fetched[m]);
                assert(s.contains(jwk_key(init[m].id, init[m].jwk)));
            }
        }
        assert forall|kk: Seq<Seq<char>>| #[trigger] after.contains(kk) implies seen.contains(kk) || taken2.contains(kk) by {
            if s.contains(kk) {
                if !seen.contains(kk) {
                    assert(taken.contains(kk));
                    let i = choose|i: int| 0 <= i < taken.len() && taken[i] == kk;
                    assert(taken2[i] == kk);
                }
            } else {
                assert(kk == k);
                assert(taken2[taken2.len() - 1] == k);
            }
        }
    }
}

fn same_string(a: &String, b: &String) -> (r: bool)
    ensures
        r == (a@ == b@),
{
    *a == *b
}

fn same_key(a: &IdentifiedJwk, id: &JwkId, jwk: &Jwk) -> (r: bool)
    ensures
        r == (jwk_key(a.id, a.jwk) == jwk_key(*id, *jwk)),
{
    let r = same_string(&a.id.iss, &id.iss) && same_string(&a.id.kid, &id.kid)
        && same_string(&a.jwk.kty, &jwk.kty) && same_string(&a.jwk.e, &jwk.e)
        && same_string(&a.jwk.n, &jwk.n) && same_string(&a.jwk.alg, &jwk.alg);
    assert(r ==> jwk_key(a.id, a.jwk) =~= jwk_key(*id, *jwk));
    assert(jwk_key(a.id, a.jwk) == jwk_key(*id, *jwk) ==> {
        &&& jwk_key(a.id, a.jwk)[0] == jwk_key(*id, *jwk)[0]
        &&& jwk_key(a.id, a.jwk)[1] == jwk_key(*id, *jwk)[1]
        &&& jwk_key(a.id, a.jwk)[2] == jwk_key(*id, *jwk)[2]
        &&& jwk_key(a.id, a.jwk)[3] == jwk_key(*id, *jwk)[3]
        &&& jwk_key(a.id, a.jwk)[4] == jwk_key(*id, *jwk)[4]
        &&& jwk_key(a.id, a.jwk)[5] == jwk_key(*id, *jwk)[5]
    });
    r
}

fn copy_string(s: &String) -> (r: String)
    ensures
        r@ == s@,
{
    s.clone()
}

/// `j` carries, field by field, the identifier and key of the fetched JWK `c`.
pub open spec fn is_copy_of(j: IdentifiedJwk, c: JwkCandidate) -> bool {
    &&& j.id.iss@ == c.id.iss@
    &&& j.id.kid@ == c.id.kid@
    &&& j.jwk.kty@ == c.jwk.kty@
    &&& j.jwk.e@ == c.jwk.e@
    &&& j.jwk.n@ == c.jwk.n@
    &&& j.jwk.alg@ == c.jwk.alg@
}

/// Two JWKs have the same key exactly when their identifiers and keys agree on every
/// field: issuer, key id, key type, exponent, modulus and algorithm.
pub proof fn lemma_jwk_key_identifies(id1: JwkId, jwk1: Jwk, id2: JwkId, jwk2: Jwk)
    ensures
        (jwk_key(id1, jwk1) == jwk_key(id2, jwk2)) <==> {
            &&& id1.iss@ == id2.iss@
            &&& id1.kid@ == id2.kid@
            &&& jwk1.kty@ == jwk2.kty@
            &&& jwk1.e@ == jwk2.e@
            &&& jwk1.n@ == jwk2.n@
            &&& jwk1.alg@ == jwk2.alg@
        },
{
    if jwk_key(id1, jwk1) == jwk_key(id2, jwk2) {
        assert(jwk_key(id1, jwk1)[0] == jwk_key(id2, jwk2)[0]);
        assert(jwk_key(id1, jwk1)[1] == jwk_key(id2, jwk2)[1]);
        assert(jwk_key(id1, jwk1)[2] == jwk_key(id2, jwk2)[2]);
        assert(jwk_key(id1, jwk1)[3] == jwk_key(id2, jwk2)[3]);
        assert(jwk_key(id1, jwk1)[4] == jwk_key(id2, jwk2)[4]);
        assert(jwk_key(id1, jwk1)[5] == jwk_key(id2, jwk2)[5]);
    } else {
        assert(!(jwk_key(id1, jwk1) =~= jwk_key(id2, jwk2)));
    }
}

fn copy_jwk(id: &JwkId, jwk: &Jwk) -> (r: IdentifiedJwk)
    ensures
        jwk_key(r.id, r.jwk) == jwk_key(*id, *jwk),
        r.id.iss@ == id.iss@,
        r.id.kid@ == id.kid@,
        r.jwk.kty@ == jwk.kty@,
        r.jwk.e@ == jwk.e@,
        r.jwk.n@ == jwk.n@,
        r.jwk.alg@ == jwk.alg@,
{
    let r = IdentifiedJwk {
        id: JwkId { iss: copy_string(&id.iss), kid: copy_string(&id.kid) },
        jwk: Jwk {
            kty: copy_string(&jwk.kty),
            e: copy_string(&jwk.e),
            n: copy_string(&jwk.n),
            alg: copy_string(&jwk.alg),
        },
    };
    assert(jwk_key(r.id, r.jwk) =~= jwk_key(*id, *jwk));
    r
}

/// The keys of a list of identified JWKs.
pub open spec fn keys_of(jwks: Seq<IdentifiedJwk>) -> Seq<Seq<Seq<char>>> {
    jwks.map_values(|j: IdentifiedJwk| jwk_key(j.id, j.jwk))
}

/// What the JWK updater does next.
pub enum JwkUpdaterAction {
    /// The fetch failed: fetch again after this many seconds.
    RetryAfterSecs(u64),
    /// Submit these JWKs to consensus, then fetch again after this many seconds; the fetch
    /// brought `total_jwks` JWKs, of which `unique_jwks` were new (before the cap) and
    /// `invalid_jwks` were not valid for the provider.
    Submit {
        jwks: Vec<IdentifiedJwk>,
        then_fetch_after_secs: u64,
        total_jwks: usize,
        unique_jwks: usize,
        invalid_jwks: usize,
    },
}

/// The outcome of one fetch of a provider's JWKs.
pub enum JwkFetchOutcome {
    Failed,
    Fetched(Vec<JwkCandidate>),
}

/// The JWK updater of one provider: it remembers every key it has taken, so that each is
/// submitted at most once per epoch.
pub struct JwkUpdater {
    provider: OidcProvider,
    seen: Vec<IdentifiedJwk>,
    fetch_interval_secs: u64,
}

impl JwkUpdater {
    /// The provider this updater fetches from.
    pub closed spec fn provider(self) -> OidcProviderView {
        self.provider@
    }

    /// The keys taken so far.
    pub closed spec fn seen(self) -> Set<Seq<Seq<char>>> {
        keys_of(self.seen@).to_set()
    }

    /// How long, in seconds, the updater waits between two successful fetches.
    pub closed spec fn fetch_interval(self) -> u64 {
        self.fetch_interval_secs
    }

    /// An updater for `provider` that has taken no key yet.
    pub fn new(provider: OidcProvider, fetch_interval_secs: u64) -> (r: Self)
        ensures
            r.provider() == provider@,
            r.seen() == Set::<Seq<Seq<char>>>::empty(),
            r.fetch_interval() == fetch_interval_secs,
    {
        let r = JwkUpdater { provider, seen: Vec::new(), fetch_interval_secs };
        assert(keys_of(r.seen@).to_set() =~= Set::<Seq<Seq<char>>>::empty());
        r
    }

    fn has_seen(&self, id: &JwkId, jwk: &Jwk) -> (r: bool)
        ensures
            r == self.seen().contains(jwk_key(*id, *jwk)),
    {
        let mut i: usize = 0;
        while i < self.seen.len()
            invariant
                i <= self.seen@.len(),
                forall|k: int| 0 <= k < i ==> keys_of(self.seen@)[k] != jwk_key(*id, *jwk),
            decreases self.seen@.len() - i,
        {
            if same_key(&self.seen[i], id, jwk) {
                assert(keys_of(self.seen@)[i as int] == jwk_key(*id, *jwk));
                return true;
            }
            i = i + 1;
        }
        assert(!keys_of(self.seen@).contains(jwk_key(*id, *jwk)));
        false
    }

    /// Takes the new JWKs of a fetch, in fetch order, keeping at most
    /// `MAX_JWK_KEYS_PER_FETCH` of them; every key taken, kept or not, counts as seen.
    /// Also tells how many new JWKs there were before the cap, and how many fetched JWKs
    /// were not valid for the provider.
    pub fn take_new_jwks(&mut self, fetched: Vec<JwkCandidate>) -> (r: (Vec<IdentifiedJwk>, usize, usize))
        ensures
            ({
                let (seen, taken) = new_jwks(old(self).seen(), old(self).provider(), fetched@);
                &&& final(self).seen() == seen
                &&& keys_of(r.0@) == capped(taken)
                &&& r.1 == taken.len()
                &&& r.2 == invalid_count(old(self).provider(), fetched@)
            }),
            final(self).provider() == old(self).provider(),
            final(self).fetch_interval() == old(self).fetch_interval(),
            r.0@.len() <= MAX_JWK_KEYS_PER_FETCH,
            forall|j: int| 0 <= j < r.0@.len() ==> exists|m: int| 0 <= m < fetched@.len() && {
                &&& (#[trigger] r.0@[j]).id.iss@ == (#[trigger] fetched@[m]).id.iss@
                &&& r.0@[j].id.kid@ == fetched@[m].id.kid@
                &&& r.0@[j].jwk.kty@ == fetched@[m].jwk.kty@
                &&& r.0@[j].jwk.e@ == fetched@[m].jwk.e@
                &&& r.0@[j].jwk.n@ == fetched@[m].jwk.n@
                &&& r.0@[j].jwk.alg@ == fetched@[m].jwk.alg@
            },
    {
        let ghost provider = self.provider@;
        let ghost seen0 = self.seen();
        let mut taken: Vec<IdentifiedJwk> = Vec::new();
        let mut invalid: usize = 0;
        let mut i: usize = 0;
        while i < fetched.len()
            invariant
                i <= fetched@.len(),
                invalid == invalid_count(provider, fetched@.take(i as int)),
                invalid <= i,
                provider == self.provider@,
                self.fetch_interval_secs == old(self).fetch_interval_secs,
                self.provider == old(self).provider,
                ({
                    let (seen, t) = new_jwks(seen0, provider, fetched@.take(i as int));
                    &&& self.seen() == seen
                    &&& keys_of(taken@) == t
                }),
                forall|j: int| 0 <= j < taken@.len() ==> exists|m: int| 0 <= m < fetched@.len()
                    && is_copy_of(#[trigger] taken@[j], #[trigger] fetched@[m]),
            decreases fetched@.len() - i,
        {
            let c = &fetched[i];
            assert(fetched@.take(i + 1).drop_last() =~= fetched@.take(i as int));
            assert(fetched@.take(i + 1).last() == fetched@[i as int]);
            let valid = validate_jwk(&self.provider, c);
            if !valid {
                invalid = invalid + 1;
            }
            if valid && !c.active_in_current_epoch && !self.has_seen(&c.id, &c.jwk) {
                let ghost before_seen = self.seen@;
                let ghost before_taken = taken@;
                self.seen.push(copy_jwk(&c.id, &c.jwk));
                let copy = copy_jwk(&c.id, &c.jwk);
                taken.push(copy);
                assert(is_copy_of(taken@[taken@.len() - 1], fetched@[i as int]));
                assert forall|j: int| 0 <= j < taken@.len() implies exists|m: int| 0 <= m < fetched@.len()
                    && is_copy_of(#[trigger] taken@[j], #[trigger] fetched@[m]) by {
                    if j < taken@.len() - 1 {
                        assert(taken@[j] == before_taken[j]);
                    } else {
                        assert(is_copy_of(taken@[j], fetched@[i as int]));
                    }
                }
                assert(keys_of(self.seen@) =~= keys_of(before_seen).push(jwk_key(c.id, c.jwk)));
                assert(keys_of(taken@) =~= keys_of(before_taken).push(jwk_key(c.id, c.jwk)));
                assert(keys_of(self.seen@).to_set() =~= keys_of(before_seen).to_set().insert(jwk_key(c.id, c.jwk))) by {
                    broadcast use vstd::seq_lib::group_seq_properties;
                }
            }
            i = i + 1;
        }
        assert(fetched@.take(fetched@.len() as int) =~= fetched@);
        let unique = taken.len();
        if taken.len() > MAX_JWK_KEYS_PER_FETCH {
            let ghost before_cut = taken@;
            taken.truncate(MAX_JWK_KEYS_PER_FETCH);
            assert(keys_of(taken@) =~= capped(new_jwks(seen0, provider, fetched@).1));
            assert forall|j: int| 0 <= j < taken@.len() implies exists|m: int| 0 <= m < fetched@.len()
                && is_copy_of(#[trigger] taken@[j], #[trigger] fetched@[m]) by {
                assert(taken@[j] == before_cut[j]);
            }
        }
        assert forall|j: int| 0 <= j < taken@.len() implies exists|m: int| 0 <= m < fetched@.len() && {
            &&& (#[trigger] taken@[j]).id.iss@ == (#[trigger] fetched@[m]).id.iss@
            &&& taken@[j].id.kid@ == fetched@[m].id.kid@
            &&& taken@[j].jwk.kty@ == fetched@[m].jwk.kty@
            &&& taken@[j].jwk.e@ == fetched@[m].jwk.e@
            &&& taken@[j].jwk.n@ == fetched@[m].jwk.n@
            &&& taken@[j].jwk.alg@ == fetched@[m].jwk.alg@
        } by {
            let m = choose|m: int| 0 <= m < fetched@.len() && is_copy_of(#[trigger] taken@[j], #[trigger] fetched@[m]);
            assert(is_copy_of(taken@[j], fetched@[m]));
        }
        (taken, unique, invalid)
    }

    /// What follows a fetch (each fetch is one request; a failed one is one request error):
    /// after a failure, fetch again in `JWK_RETRY_SECS` seconds; after a success, submit the
    /// new JWKs, with the counts of fetched, new and invalid JWKs, and fetch again after the
    /// fetch interval. Successive successful steps form an `is_step_run`, so
    /// `lemma_step_run_submits_once` holds of everything they submit.
    pub fn step(&mut self, outcome: JwkFetchOutcome) -> (r: JwkUpdaterAction)
        ensures
            final(self).provider() == old(self).provider(),
            final(self).fetch_interval() == old(self).fetch_interval(),
            match outcome {
                JwkFetchOutcome::Failed => {
                    &&& r == JwkUpdaterAction::RetryAfterSecs(JWK_RETRY_SECS)
                    &&& final(self).seen() == old(self).seen()
                },
                JwkFetchOutcome::Fetched(fetched) => {
                    let (seen, taken) = new_jwks(old(self).seen(), old(self).provider(), fetched@);
                    &&& final(self).seen() == seen
                    &&& r matches JwkUpdaterAction::Submit {
                        jwks, then_fetch_after_secs, total_jwks, unique_jwks, invalid_jwks }
                    &&& keys_of(jwks@) == capped(taken)
                    &&& then_fetch_after_secs == old(self).fetch_interval()
                    &&& total_jwks == fetched@.len()
                    &&& unique_jwks == taken.len()
                    &&& invalid_jwks == invalid_count(old(self).provider(), fetched@)
                    &&& forall|j: int| 0 <= j < jwks@.len() ==> exists|m: int| 0 <= m < fetched@.len() && {
                        &&& (#[trigger] jwks@[j]).id.iss@ == (#[trigger] fetched@[m]).id.iss@
                        &&& jwks@[j].id.kid@ == fetched@[m].id.kid@
                        &&& jwks@[j].jwk.kty@ == fetched@[m].jwk.kty@
                        &&& jwks@[j].jwk.e@ == fetched@[m].jwk.e@
                        &&& jwks@[j].jwk.n@ == fetched@[m].jwk.n@
                        &&& jwks@[j].jwk.alg@ == fetched@[m].jwk.alg@
                    }
                },
            },
    {
        match outcome {
            JwkFetchOutcome::Failed => JwkUpdaterAction::RetryAfterSecs(JWK_RETRY_SECS),
            JwkFetchOutcome::Fetched(fetched) => {
                let total_jwks = fetched.len();
                let (jwks, unique_jwks, invalid_jwks) = self.take_new_jwks(fetched);
                JwkUpdaterAction::Submit {
                    jwks,
                    then_fetch_after_secs: self.fetch_interval_secs,
                    total_jwks,
                    unique_jwks,
                    invalid_jwks,
                }
            },
        }
    }
}

} // verus!
