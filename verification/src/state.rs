use vstd::prelude::*;

use crate::error::TokenError;

verus! {

/// Contract-wide configuration, spanning all token ids registered by one
/// contract instance.
#[derive(Debug, Clone, PartialEq)]
pub struct ContractConfig {
    /// Optional admin address.
    pub admin: Option<String>,
    /// Contract-level curators: they can curate new token ids and mint the
    /// initial balances. They cannot mint additional units of an existing
    /// token id unless they are also minters of that fungible token.
    pub curators: Vec<String>,
    /// Every registered token id, in registration order, pairwise distinct.
    pub token_id_list: Vec<String>,
    /// Monotonically increasing transaction counter.
    pub tx_cnt: u64,
    /// Opaque pseudo-random seed bytes.
    pub prng_seed: Vec<u8>,
    /// The contract's own address.
    pub contract_address: String,
}

/// Mathematical model of [`ContractConfig`].
#[verifier::ext_equal]
pub struct ContractConfigV {
    pub admin: Option<Seq<char>>,
    pub curators: Seq<Seq<char>>,
    pub token_id_list: Seq<Seq<char>>,
    pub tx_cnt: u64,
    pub prng_seed: Seq<u8>,
    pub contract_address: Seq<char>,
}

impl View for ContractConfig {
    type V = ContractConfigV;

    open spec fn view(&self) -> ContractConfigV {
        ContractConfigV {
            admin: self.admin.deep_view(),
            curators: self.curators.deep_view(),
            token_id_list: self.token_id_list.deep_view(),
            tx_cnt: self.tx_cnt,
            prng_seed: self.prng_seed@,
            contract_address: self.contract_address@,
        }
    }
}

impl ContractConfigV {
    /// The registry invariant: registered token ids are pairwise distinct.
    pub open spec fn token_ids_unique(self) -> bool {
        forall|i: int, j: int|
            0 <= i < j < self.token_id_list.len() ==> self.token_id_list[i]
                != self.token_id_list[j]
    }
}

/// What registering a token id does to the registry: the state after the
/// call, and the outcome handed to the caller. A duplicate id is rejected
/// and leaves the state unchanged; otherwise the id is appended, preserving
/// registration order.
pub open spec fn spec_register_token_id(c: ContractConfigV, id: Seq<char>) -> (ContractConfigV,
    Result<(), TokenError>) {
    if c.token_id_list.contains(id) {
        (c, Err(TokenError::DuplicateTokenId))
    } else {
        (
            ContractConfigV { token_id_list: c.token_id_list.push(id), ..c },
            Ok(()),
        )
    }
}

/// Whether a list of addresses contains the given one.
pub(crate) fn contains_string(v: &Vec<String>, x: &String) -> (r: bool)
    ensures
        r == v.deep_view().contains(x@),
{
    let n = v.len();
    let mut i: usize = 0;
    while i < n
        invariant
            n == v.len(),
            i <= n,
            forall|k: int| 0 <= k < i ==> v.deep_view()[k] != x@,
        decreases n - i,
    {
        if v[i] == *x {
            assert(v.deep_view()[i as int] == x@);
            return true;
        }
        i += 1;
    }
    assert(forall|k: int| 0 <= k < v.deep_view().len() ==> v.deep_view()[k] != x@);
    false
}

impl ContractConfig {
    /// Appends a new token id to the registry, rejecting a duplicate.
    ///
    /// On `DuplicateTokenId` nothing changes; on success only the token-id
    /// list grows, by the one id, at the end. Uniqueness of the registered
    /// ids is preserved either way.
    pub fn register_token_id(&mut self, token_id: &String) -> (r: Result<(), TokenError>)
        ensures
            (final(self)@, r) == spec_register_token_id(old(self)@, token_id@),
            old(self)@.token_ids_unique() ==> final(self)@.token_ids_unique(),
    {
        if contains_string(&self.token_id_list, token_id) {
            return Err(TokenError::DuplicateTokenId);
        }
        self.token_id_list.push(token_id.clone());
        assert(final(self)@ =~= (ContractConfigV {
            token_id_list: old(self)@.token_id_list.push(token_id@),
            ..old(self)@
        }));
        Ok(())
    }

    /// Increments the transaction counter and returns its new value.
    ///
    /// Exhaustion of the counter is fatal: `CounterOverflow` aborts the
    /// whole contract call, and the state is left unchanged.
    pub fn next_tx_seq(&mut self) -> (r: Result<u64, TokenError>)
        ensures
            old(self).tx_cnt == u64::MAX ==> r == Err::<u64, TokenError>(
                TokenError::CounterOverflow,
            ) && final(self)@ == old(self)@,
            old(self).tx_cnt < u64::MAX ==> r == Ok::<u64, TokenError>(
                (old(self).tx_cnt + 1) as u64,
            ) && final(self)@ == (ContractConfigV {
                tx_cnt: (old(self).tx_cnt + 1) as u64,
                ..old(self)@
            }),
    {
        if self.tx_cnt == u64::MAX {
            return Err(TokenError::CounterOverflow);
        }
        self.tx_cnt = self.tx_cnt + 1;
        assert(final(self)@ =~= (ContractConfigV {
            tx_cnt: (old(self).tx_cnt + 1) as u64,
            ..old(self)@
        }));
        Ok(self.tx_cnt)
    }

    /// Whether the given address is the contract admin. A pure read; who may
    /// act on it is the concern of an external authorization collaborator.
    pub fn is_admin(&self, address: &String) -> (r: bool)
        ensures
            r == (self@.admin == Some(address@)),
    {
        match &self.admin {
            Some(a) => *a == *address,
            None => false,
        }
    }

    /// Whether the given address is a contract-level curator. A pure read.
    pub fn is_curator(&self, address: &String) -> (r: bool)
        ensures
            r == self@.curators.contains(address@),
    {
        contains_string(&self.curators, address)
    }

    /// Whether the given token id is already registered. A pure read.
    pub fn has_token_id(&self, token_id: &String) -> (r: bool)
        ensures
            r == self@.token_id_list.contains(token_id@),
    {
        contains_string(&self.token_id_list, token_id)
    }
}

/// Registering the same id twice is rejected: whatever the first
/// registration did, the second one fails with `DuplicateTokenId` and leaves
/// the registry exactly as the first one left it.
pub proof fn lemma_duplicate_registration_rejected(c: ContractConfigV, id: Seq<char>)
    ensures
        ({
            let first = spec_register_token_id(c, id);
            let second = spec_register_token_id(first.0, id);
            second.1 == Err::<(), TokenError>(TokenError::DuplicateTokenId) && second.0 == first.0
        }),
{
    let first = spec_register_token_id(c, id);
    if !c.token_id_list.contains(id) {
        assert(first.0.token_id_list.last() == id);
        assert(first.0.token_id_list.contains(id));
    }
}

} // verus!
