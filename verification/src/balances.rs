use vstd::prelude::*;

verus! {

/// One balance entry of a mint or burn instruction: an address and a
/// 128-bit amount.
///
/// For a burn, `address` is the owner being debited. That reading is kept
/// deliberately, instead of the "recipient" reading used for minting, so
/// that a burn can be initiated by a party other than the owner in the
/// extended specification.
#[derive(Debug, Clone, PartialEq)]
pub struct TokenIdBalance {
    pub address: String,
    pub amount: u128,
}

/// Mathematical model of [`TokenIdBalance`].
#[verifier::ext_equal]
pub struct TokenIdBalanceV {
    pub address: Seq<char>,
    pub amount: u128,
}

impl View for TokenIdBalance {
    type V = TokenIdBalanceV;

    open spec fn view(&self) -> TokenIdBalanceV {
        TokenIdBalanceV { address: self.address@, amount: self.amount }
    }
}

impl DeepView for TokenIdBalance {
    type V = TokenIdBalanceV;

    open spec fn deep_view(&self) -> TokenIdBalanceV {
        self@
    }
}

/// A batch mint or burn instruction: one token id with one balance entry
/// per affected address. The order of the entries defines the processing
/// order; each entry is applied independently to the external
/// ledger-balance collaborator.
#[derive(Debug, Clone, PartialEq)]
pub struct TokenAmount {
    pub token_id: String,
    /// For a burn, each entry's `address` is the owner to burn from.
    pub balances: Vec<TokenIdBalance>,
}

/// Mathematical model of [`TokenAmount`].
#[verifier::ext_equal]
pub struct TokenAmountV {
    pub token_id: Seq<char>,
    pub balances: Seq<TokenIdBalanceV>,
}

impl View for TokenAmount {
    type V = TokenAmountV;

    open spec fn view(&self) -> TokenAmountV {
        TokenAmountV { token_id: self.token_id@, balances: self.balances.deep_view() }
    }
}

/// One owner's holdings of one token id.
#[derive(Debug, Clone, PartialEq)]
pub struct OwnerBalance {
    pub token_id: String,
    pub amount: u128,
}

/// Mathematical model of [`OwnerBalance`].
#[verifier::ext_equal]
pub struct OwnerBalanceV {
    pub token_id: Seq<char>,
    pub amount: u128,
}

impl View for OwnerBalance {
    type V = OwnerBalanceV;

    open spec fn view(&self) -> OwnerBalanceV {
        OwnerBalanceV { token_id: self.token_id@, amount: self.amount }
    }
}

/// One change that the external ledger-balance collaborator is asked to
/// apply to an account's balance of one token id.
#[derive(Debug, Clone, PartialEq)]
pub enum LedgerEffect {
    /// `account` receives `amount` new units.
    Credit { account: String, amount: u128 },
    /// `account` is debited `amount` units; the account is the owner the
    /// units are taken from.
    Debit { account: String, amount: u128 },
}

/// Mathematical model of [`LedgerEffect`].
#[verifier::ext_equal]
pub enum LedgerEffectV {
    Credit { account: Seq<char>, amount: u128 },
    Debit { account: Seq<char>, amount: u128 },
}

impl View for LedgerEffect {
    type V = LedgerEffectV;

    open spec fn view(&self) -> LedgerEffectV {
        match self {
            LedgerEffect::Credit { account, amount } => LedgerEffectV::Credit {
                account: account@,
                amount: *amount,
            },
            LedgerEffect::Debit { account, amount } => LedgerEffectV::Debit {
                account: account@,
                amount: *amount,
            },
        }
    }
}

impl DeepView for LedgerEffect {
    type V = LedgerEffectV;

    open spec fn deep_view(&self) -> LedgerEffectV {
        self@
    }
}

/// The ledger changes a mint instruction asks for: each entry's address is
/// credited, as the recipient of the new units, in entry order.
pub open spec fn spec_mint_effects(balances: Seq<TokenIdBalanceV>) -> Seq<LedgerEffectV> {
    balances.map_values(
        |b: TokenIdBalanceV| LedgerEffectV::Credit { account: b.address, amount: b.amount },
    )
}

/// The ledger changes a burn instruction asks for: each entry's address is
/// debited, as the owner the units are burnt from — never credited.
pub open spec fn spec_burn_effects(balances: Seq<TokenIdBalanceV>) -> Seq<LedgerEffectV> {
    balances.map_values(
        |b: TokenIdBalanceV| LedgerEffectV::Debit { account: b.address, amount: b.amount },
    )
}

impl TokenAmount {
    /// Interprets this instruction as a mint: every entry credits its
    /// address with its amount, in entry order.
    pub fn mint_effects(&self) -> (r: Vec<LedgerEffect>)
        ensures
            r.deep_view() == spec_mint_effects(self@.balances),
    {
        let n = self.balances.len();
        let mut r: Vec<LedgerEffect> = Vec::new();
        let mut i: usize = 0;
        while i < n
            invariant
                n == self.balances.len(),
                i <= n,
                r.len() == i,
                forall|k: int|
                    0 <= k < i ==> r.deep_view()[k] == spec_mint_effects(self@.balances)[k],
            decreases n - i,
        {
            let ghost r_snap = r;
            r.push(
                LedgerEffect::Credit {
                    account: self.balances[i].address.clone(),
                    amount: self.balances[i].amount,
                },
            );
            proof {
                assert forall|k: int| 0 <= k < i + 1 implies r.deep_view()[k] == spec_mint_effects(
                    self@.balances,
                )[k] by {
                    if k < i {
                        assert(r@[k] == r_snap@[k]);
                        assert(r_snap.deep_view()[k] == spec_mint_effects(self@.balances)[k]);
                    }
                }
            }
            i += 1;
        }
        assert(r.deep_view() =~= spec_mint_effects(self@.balances));
        r
    }

    /// Interprets this instruction as a burn: every entry debits its
    /// address, which is read as the owner being burnt from, in entry
    /// order. The address is never treated as a recipient.
    pub fn burn_effects(&self) -> (r: Vec<LedgerEffect>)
        ensures
            r.deep_view() == spec_burn_effects(self@.balances),
    {
        let n = self.balances.len();
        let mut r: Vec<LedgerEffect> = Vec::new();
        let mut i: usize = 0;
        while i < n
            invariant
                n == self.balances.len(),
                i <= n,
                r.len() == i,
                forall|k: int|
                    0 <= k < i ==> r.deep_view()[k] == spec_burn_effects(self@.balances)[k],
            decreases n - i,
        {
            let ghost r_snap = r;
            r.push(
                LedgerEffect::Debit {
                    account: self.balances[i].address.clone(),
                    amount: self.balances[i].amount,
                },
            );
            proof {
                assert forall|k: int| 0 <= k < i + 1 implies r.deep_view()[k] == spec_burn_effects(
                    self@.balances,
                )[k] by {
                    if k < i {
                        assert(r@[k] == r_snap@[k]);
                        assert(r_snap.deep_view()[k] == spec_burn_effects(self@.balances)[k]);
                    }
                }
            }
            i += 1;
        }
        assert(r.deep_view() =~= spec_burn_effects(self@.balances));
        r
    }
}

/// Applying a burn instruction debits exactly the address carried in each
/// entry — the owner to burn from — with that entry's amount; no entry of a
/// burn ever credits an account.
pub proof fn lemma_burn_debits_owner(balances: Seq<TokenIdBalanceV>, i: int)
    requires
        0 <= i < balances.len(),
    ensures
        spec_burn_effects(balances)[i] == (LedgerEffectV::Debit {
            account: balances[i].address,
            amount: balances[i].amount,
        }),
{
}

} // verus!
