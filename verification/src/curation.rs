use vstd::prelude::*;

use crate::balances::TokenIdBalance;
use crate::balances::TokenIdBalanceV;
use crate::config::TknConfig;
use crate::config::spec_flatten;
use crate::descriptor::StoredTokenInfo;
use crate::descriptor::StoredTokenInfoV;
use crate::descriptor::TokenInfoMsg;
use crate::descriptor::TokenInfoMsgV;
use crate::descriptor::spec_to_store;
use crate::error::TokenError;
use crate::state::ContractConfig;
use crate::state::ContractConfigV;

verus! {

/// A curation request: a token-info message paired with the initial balance
/// distribution of the new token id.
#[derive(Debug, Clone, PartialEq)]
pub struct CurateTokenId {
    pub token_info: TokenInfoMsg,
    pub balances: Vec<TokenIdBalance>,
}

/// Mathematical model of [`CurateTokenId`].
#[verifier::ext_equal]
pub struct CurateTokenIdV {
    pub token_info: TokenInfoMsgV,
    pub balances: Seq<TokenIdBalanceV>,
}

impl View for CurateTokenId {
    type V = CurateTokenIdV;

    open spec fn view(&self) -> CurateTokenIdV {
        CurateTokenIdV { token_info: self.token_info@, balances: self.balances.deep_view() }
    }
}

/// What a successful curation hands back: the descriptor as persisted, and
/// the total initial supply handed to the external ledger-balance
/// collaborator.
#[derive(Debug, Clone, PartialEq)]
pub struct CurationOutcome {
    pub stored: StoredTokenInfo,
    pub initial_total_supply: u128,
}

/// Mathematical model of [`CurationOutcome`].
#[verifier::ext_equal]
pub struct CurationOutcomeV {
    pub stored: StoredTokenInfoV,
    pub initial_total_supply: u128,
}

impl View for CurationOutcome {
    type V = CurationOutcomeV;

    open spec fn view(&self) -> CurationOutcomeV {
        CurationOutcomeV {
            stored: self.stored@,
            initial_total_supply: self.initial_total_supply,
        }
    }
}

/// Whether two entries of the balance list name the same address.
pub open spec fn has_duplicate_addresses(balances: Seq<TokenIdBalanceV>) -> bool {
    exists|i: int, j: int|
        #![trigger balances[i], balances[j]]
        0 <= i < j < balances.len() && balances[i].address == balances[j].address
}

/// The total initial supply described by a balance list: the sum of all
/// entry amounts.
pub open spec fn total_amount(balances: Seq<TokenIdBalanceV>) -> int
    decreases balances.len(),
{
    if balances.len() == 0 {
        0
    } else {
        total_amount(balances.drop_last()) + balances.last().amount
    }
}

/// Whether a balance list is well formed for the chosen token-type variant:
/// no duplicate addresses, a total supply within the 128-bit range, and —
/// for an NFT, whose whole supply is fixed at curation — exactly one entry
/// of amount one, establishing the single initial owner.
pub open spec fn balances_valid_for(is_nft: bool, balances: Seq<TokenIdBalanceV>) -> bool {
    &&& !has_duplicate_addresses(balances)
    &&& total_amount(balances) <= u128::MAX
    &&& (is_nft ==> balances.len() == 1 && balances[0].amount == 1)
}

/// What curating a request does: the registry state after the call and the
/// outcome handed to the caller. Validation happens before any mutation, in
/// this order: an empty token id, then a malformed balance list for the
/// flattened variant, then a token id already registered. On any failure
/// the registry is unchanged — curation is atomic.
pub open spec fn spec_curate(
    req: CurateTokenIdV,
    config: ContractConfigV,
    curator: Seq<char>,
) -> (ContractConfigV, Result<CurationOutcomeV, TokenError>) {
    if req.token_info.token_id.len() == 0 {
        (config, Err(TokenError::EmptyTokenId))
    } else if !balances_valid_for(
        spec_flatten(req.token_info.token_config).is_nft,
        req.balances,
    ) {
        (config, Err(TokenError::InvalidCurationBalances))
    } else if config.token_id_list.contains(req.token_info.token_id) {
        (config, Err(TokenError::DuplicateTokenId))
    } else {
        (
            ContractConfigV {
                token_id_list: config.token_id_list.push(req.token_info.token_id),
                ..config
            },
            Ok(
                CurationOutcomeV {
                    stored: spec_to_store(req.token_info, curator),
                    initial_total_supply: total_amount(req.balances) as u128,
                },
            ),
        )
    }
}

/// The view of a curation result, error kinds kept as they are.
pub open spec fn spec_outcome_view(r: Result<CurationOutcome, TokenError>) -> Result<
    CurationOutcomeV,
    TokenError,
> {
    match r {
        Ok(o) => Ok(o@),
        Err(e) => Err(e),
    }
}

/// Extending a balance list by one entry adds that entry's amount to the
/// total.
proof fn lemma_total_amount_step(s: Seq<TokenIdBalanceV>, m: int)
    requires
        0 <= m < s.len(),
    ensures
        total_amount(s.subrange(0, m + 1)) == total_amount(s.subrange(0, m)) + s[m].amount,
{
    let t = s.subrange(0, m + 1);
    assert(t.drop_last() =~= s.subrange(0, m));
    assert(t.last() == s[m]);
}

/// Amounts are unsigned, so the total of a prefix never exceeds the total
/// of the whole list.
proof fn lemma_total_amount_prefix_le(s: Seq<TokenIdBalanceV>, m: int)
    requires
        0 <= m <= s.len(),
    ensures
        total_amount(s.subrange(0, m)) <= total_amount(s),
    decreases s.len() - m,
{
    if m == s.len() {
        assert(s.subrange(0, m) =~= s);
    } else {
        lemma_total_amount_step(s, m);
        lemma_total_amount_prefix_le(s, m + 1);
    }
}

impl CurateTokenId {
    /// Validates this request and, if it is well formed, binds the acting
    /// curator into the persisted descriptor and registers the token id.
    ///
    /// All validation precedes any mutation: on every error the registry is
    /// exactly as it was. Uniqueness of the registered ids is preserved.
    pub fn curate(&self, config: &mut ContractConfig, curator: &String) -> (r: Result<
        CurationOutcome,
        TokenError,
    >)
        ensures
            final(config)@ == spec_curate(self@, old(config)@, curator@).0,
            spec_outcome_view(r) == spec_curate(self@, old(config)@, curator@).1,
            old(config)@.token_ids_unique() ==> final(config)@.token_ids_unique(),
    {
        if self.token_info.token_id.as_str().is_empty() {
            return Err(TokenError::EmptyTokenId);
        }
        let is_nft = match &self.token_info.token_config {
            TknConfig::Nft { .. } => true,
            TknConfig::Fungible { .. } => false,
        };
        assert(is_nft == spec_flatten(self@.token_info.token_config).is_nft);
        if is_nft {
            if self.balances.len() != 1 {
                return Err(TokenError::InvalidCurationBalances);
            }
            if self.balances[0].amount != 1u128 {
                return Err(TokenError::InvalidCurationBalances);
            }
        }
        let n = self.balances.len();
        let mut i: usize = 0;
        while i < n
            invariant
                n == self.balances.len(),
                i <= n,
                self@.token_info.token_id.len() != 0,
                is_nft == spec_flatten(self@.token_info.token_config).is_nft,
                is_nft ==> self@.balances.len() == 1 && self@.balances[0].amount == 1,
                forall|p: int, q: int|
                    #![trigger self@.balances[p], self@.balances[q]]
                    0 <= p < q < n && p < i ==> self@.balances[p].address
                        != self@.balances[q].address,
            decreases n - i,
        {
            let mut j: usize = i + 1;
            while j < n
                invariant
                    n == self.balances.len(),
                    i < j <= n,
                    self@.token_info.token_id.len() != 0,
                    is_nft == spec_flatten(self@.token_info.token_config).is_nft,
                    is_nft ==> self@.balances.len() == 1 && self@.balances[0].amount == 1,
                    forall|p: int, q: int|
                        #![trigger self@.balances[p], self@.balances[q]]
                        0 <= p < q < n && p < i ==> self@.balances[p].address
                            != self@.balances[q].address,
                    forall|q: int|
                        #![trigger self@.balances[q]]
                        i < q < j ==> self@.balances[i as int].address
                            != self@.balances[q].address,
                decreases n - j,
            {
                if self.balances[i].address == self.balances[j].address {
                    assert(self@.balances[i as int].address == self@.balances[j as int].address);
                    assert(has_duplicate_addresses(self@.balances));
                    return Err(TokenError::InvalidCurationBalances);
                }
                j += 1;
            }
            i += 1;
        }
        assert(!has_duplicate_addresses(self@.balances));
        let mut total: u128 = 0;
        let mut k: usize = 0;
        while k < n
            invariant
                n == self.balances.len(),
                k <= n,
                self@.token_info.token_id.len() != 0,
                is_nft == spec_flatten(self@.token_info.token_config).is_nft,
                is_nft ==> self@.balances.len() == 1 && self@.balances[0].amount == 1,
                !has_duplicate_addresses(self@.balances),
                total == total_amount(self@.balances.subrange(0, k as int)),
            decreases n - k,
        {
            let amount = self.balances[k].amount;
            proof {
                lemma_total_amount_step(self@.balances, k as int);
            }
            if amount > u128::MAX - total {
                proof {
                    lemma_total_amount_prefix_le(self@.balances, k + 1);
                }
                return Err(TokenError::InvalidCurationBalances);
            }
            total = total + amount;
            k += 1;
        }
        assert(self@.balances.subrange(0, n as int) =~= self@.balances);
        assert(balances_valid_for(spec_flatten(self@.token_info.token_config).is_nft, self@.balances));
        match config.register_token_id(&self.token_info.token_id) {
            Err(e) => Err(e),
            Ok(()) => Ok(
                CurationOutcome {
                    stored: self.token_info.to_store(curator),
                    initial_total_supply: total,
                },
            ),
        }
    }
}

} // verus!
