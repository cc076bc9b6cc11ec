use vstd::prelude::*;

verus! {

/// Variant-based description of a token type's rules.
///
/// `Fungible` carries no `owner_may_update_metadata` (and no
/// `owner_is_public`) because a fungible token can have many owners, so no
/// single-owner right exists. `Nft` carries no `enable_mint` because an NFT
/// is minted exactly once, at curation time, and no meaningful `decimals`.
#[derive(Debug, Clone, PartialEq)]
pub enum TknConfig {
    Fungible {
        minters: Vec<String>,
        /// Advisory display precision; it has no arithmetic effect anywhere
        /// in the registry logic.
        decimals: u8,
        public_total_supply: bool,
        enable_mint: bool,
        enable_burn: bool,
        minter_may_update_metadata: bool,
    },
    Nft {
        /// An NFT's minters cannot mint additional units, but may be allowed
        /// to change metadata.
        minters: Vec<String>,
        public_total_supply: bool,
        owner_is_public: bool,
        enable_burn: bool,
        owner_may_update_metadata: bool,
        minter_may_update_metadata: bool,
    },
}

/// Mathematical model of [`TknConfig`]: addresses as character sequences.
#[verifier::ext_equal]
pub enum TknConfigV {
    Fungible {
        minters: Seq<Seq<char>>,
        decimals: u8,
        public_total_supply: bool,
        enable_mint: bool,
        enable_burn: bool,
        minter_may_update_metadata: bool,
    },
    Nft {
        minters: Seq<Seq<char>>,
        public_total_supply: bool,
        owner_is_public: bool,
        enable_burn: bool,
        owner_may_update_metadata: bool,
        minter_may_update_metadata: bool,
    },
}

impl View for TknConfig {
    type V = TknConfigV;

    open spec fn view(&self) -> TknConfigV {
        match self {
            TknConfig::Fungible {
                minters,
                decimals,
                public_total_supply,
                enable_mint,
                enable_burn,
                minter_may_update_metadata,
            } => TknConfigV::Fungible {
                minters: minters.deep_view(),
                decimals: *decimals,
                public_total_supply: *public_total_supply,
                enable_mint: *enable_mint,
                enable_burn: *enable_burn,
                minter_may_update_metadata: *minter_may_update_metadata,
            },
            TknConfig::Nft {
                minters,
                public_total_supply,
                owner_is_public,
                enable_burn,
                owner_may_update_metadata,
                minter_may_update_metadata,
            } => TknConfigV::Nft {
                minters: minters.deep_view(),
                public_total_supply: *public_total_supply,
                owner_is_public: *owner_is_public,
                enable_burn: *enable_burn,
                owner_may_update_metadata: *owner_may_update_metadata,
                minter_may_update_metadata: *minter_may_update_metadata,
            },
        }
    }
}

/// The single canonical representation that all downstream registry logic
/// works on: the union of every variant field plus the `is_nft`
/// discriminator.
///
/// It is derived on demand by [`TknConfig::flatten`] and never persisted on
/// its own. Flattening forces the canonical values: a fungible flat config
/// has `owner_may_update_metadata == false` and `owner_is_public == false`;
/// an NFT flat config has `enable_mint == false` and `decimals == 0`.
#[derive(Debug, Clone, PartialEq)]
pub struct TknConfigFlat {
    pub is_nft: bool,
    pub minters: Vec<String>,
    pub decimals: u8,
    pub public_total_supply: bool,
    pub owner_is_public: bool,
    pub enable_mint: bool,
    pub enable_burn: bool,
    pub minter_may_update_metadata: bool,
    pub owner_may_update_metadata: bool,
}

/// Mathematical model of [`TknConfigFlat`].
#[verifier::ext_equal]
pub struct TknConfigFlatV {
    pub is_nft: bool,
    pub minters: Seq<Seq<char>>,
    pub decimals: u8,
    pub public_total_supply: bool,
    pub owner_is_public: bool,
    pub enable_mint: bool,
    pub enable_burn: bool,
    pub minter_may_update_metadata: bool,
    pub owner_may_update_metadata: bool,
}

impl View for TknConfigFlat {
    type V = TknConfigFlatV;

    open spec fn view(&self) -> TknConfigFlatV {
        TknConfigFlatV {
            is_nft: self.is_nft,
            minters: self.minters.deep_view(),
            decimals: self.decimals,
            public_total_supply: self.public_total_supply,
            owner_is_public: self.owner_is_public,
            enable_mint: self.enable_mint,
            enable_burn: self.enable_burn,
            minter_may_update_metadata: self.minter_may_update_metadata,
            owner_may_update_metadata: self.owner_may_update_metadata,
        }
    }
}

/// What flattening a token configuration yields, including the forced
/// canonical field values of each variant.
pub open spec fn spec_flatten(c: TknConfigV) -> TknConfigFlatV {
    match c {
        TknConfigV::Fungible {
            minters,
            decimals,
            public_total_supply,
            enable_mint,
            enable_burn,
            minter_may_update_metadata,
        } => TknConfigFlatV {
            is_nft: false,
            minters: minters,
            decimals: decimals,
            public_total_supply: public_total_supply,
            owner_is_public: false,
            enable_mint: enable_mint,
            enable_burn: enable_burn,
            minter_may_update_metadata: minter_may_update_metadata,
            owner_may_update_metadata: false,
        },
        TknConfigV::Nft {
            minters,
            public_total_supply,
            owner_is_public,
            enable_burn,
            owner_may_update_metadata,
            minter_may_update_metadata,
        } => TknConfigFlatV {
            is_nft: true,
            minters: minters,
            decimals: 0u8,
            public_total_supply: public_total_supply,
            owner_is_public: owner_is_public,
            enable_mint: false,
            enable_burn: enable_burn,
            minter_may_update_metadata: minter_may_update_metadata,
            owner_may_update_metadata: owner_may_update_metadata,
        },
    }
}

/// What selecting a variant from a flat configuration yields: the variant is
/// chosen by the discriminator and only the fields relevant to that variant
/// are kept; the rest are discarded.
pub open spec fn spec_to_enum(f: TknConfigFlatV) -> TknConfigV {
    if f.is_nft {
        TknConfigV::Nft {
            minters: f.minters,
            public_total_supply: f.public_total_supply,
            owner_is_public: f.owner_is_public,
            enable_burn: f.enable_burn,
            owner_may_update_metadata: f.owner_may_update_metadata,
            minter_may_update_metadata: f.minter_may_update_metadata,
        }
    } else {
        TknConfigV::Fungible {
            minters: f.minters,
            decimals: f.decimals,
            public_total_supply: f.public_total_supply,
            enable_mint: f.enable_mint,
            enable_burn: f.enable_burn,
            minter_may_update_metadata: f.minter_may_update_metadata,
        }
    }
}

/// Copies a list of addresses, preserving order and content.
pub(crate) fn clone_string_vec(v: &Vec<String>) -> (r: Vec<String>)
    ensures
        r.deep_view() == v.deep_view(),
{
    let mut r: Vec<String> = Vec::new();
    let n = v.len();
    let mut i: usize = 0;
    while i < n
        invariant
            n == v.len(),
            i <= n,
            r.len() == i,
            forall|k: int| 0 <= k < i ==> r.deep_view()[k] == v.deep_view()[k],
        decreases n - i,
    {
        r.push(v[i].clone());
        i += 1;
    }
    assert(r.deep_view() =~= v.deep_view());
    r
}

impl TknConfig {
    /// Combines the fields of the chosen variant into the single flat shape,
    /// forcing the canonical values of the fields the variant does not carry.
    /// Total and pure: there is no failure path.
    pub fn flatten(&self) -> (r: TknConfigFlat)
        ensures
            r@ == spec_flatten(self@),
    {
        match self {
            TknConfig::Fungible {
                minters,
                decimals,
                public_total_supply,
                enable_mint,
                enable_burn,
                minter_may_update_metadata,
            } => TknConfigFlat {
                is_nft: false,
                minters: clone_string_vec(minters),
                decimals: *decimals,
                public_total_supply: *public_total_supply,
                // a fungible token can have many owners, so owners never
                // hold the metadata-update right and are never public
                owner_is_public: false,
                enable_mint: *enable_mint,
                enable_burn: *enable_burn,
                minter_may_update_metadata: *minter_may_update_metadata,
                owner_may_update_metadata: false,
            },
            TknConfig::Nft {
                minters,
                public_total_supply,
                owner_is_public,
                enable_burn,
                owner_may_update_metadata,
                minter_may_update_metadata,
            } => TknConfigFlat {
                is_nft: true,
                minters: clone_string_vec(minters),
                // an NFT is minted exactly once, at curation time, and has
                // no meaningful display precision
                decimals: 0u8,
                public_total_supply: *public_total_supply,
                owner_is_public: *owner_is_public,
                enable_mint: false,
                enable_burn: *enable_burn,
                minter_may_update_metadata: *minter_may_update_metadata,
                owner_may_update_metadata: *owner_may_update_metadata,
            },
        }
    }

    /// Copies the configuration, preserving the variant and every field.
    pub fn duplicate(&self) -> (r: TknConfig)
        ensures
            r@ == self@,
    {
        match self {
            TknConfig::Fungible {
                minters,
                decimals,
                public_total_supply,
                enable_mint,
                enable_burn,
                minter_may_update_metadata,
            } => TknConfig::Fungible {
                minters: clone_string_vec(minters),
                decimals: *decimals,
                public_total_supply: *public_total_supply,
                enable_mint: *enable_mint,
                enable_burn: *enable_burn,
                minter_may_update_metadata: *minter_may_update_metadata,
            },
            TknConfig::Nft {
                minters,
                public_total_supply,
                owner_is_public,
                enable_burn,
                owner_may_update_metadata,
                minter_may_update_metadata,
            } => TknConfig::Nft {
                minters: clone_string_vec(minters),
                public_total_supply: *public_total_supply,
                owner_is_public: *owner_is_public,
                enable_burn: *enable_burn,
                owner_may_update_metadata: *owner_may_update_metadata,
                minter_may_update_metadata: *minter_may_update_metadata,
            },
        }
    }
}

impl TknConfigFlat {
    /// Selects the variant named by the discriminator, keeping only the
    /// fields relevant to that variant and discarding the rest.
    pub fn to_enum(&self) -> (r: TknConfig)
        ensures
            r@ == spec_to_enum(self@),
    {
        if self.is_nft {
            TknConfig::Nft {
                minters: clone_string_vec(&self.minters),
                public_total_supply: self.public_total_supply,
                owner_is_public: self.owner_is_public,
                enable_burn: self.enable_burn,
                owner_may_update_metadata: self.owner_may_update_metadata,
                minter_may_update_metadata: self.minter_may_update_metadata,
            }
        } else {
            TknConfig::Fungible {
                minters: clone_string_vec(&self.minters),
                decimals: self.decimals,
                public_total_supply: self.public_total_supply,
                enable_mint: self.enable_mint,
                enable_burn: self.enable_burn,
                minter_may_update_metadata: self.minter_may_update_metadata,
            }
        }
    }

    /// Whether minting additional units of this token id is allowed.
    ///
    /// Business-logic decisions like this one are made on the flat form
    /// only, after flattening has forced the canonical field values; for an
    /// NFT the flag is always `false`.
    pub fn mint_allowed(&self) -> (r: bool)
        ensures
            r == self.enable_mint,
    {
        self.enable_mint
    }
}

/// Flattening normalizes: re-flattening the variant recovered from a flat
/// configuration gives back exactly that flat configuration, so
/// `flatten . to_enum . flatten == flatten` on every configuration.
pub proof fn lemma_flatten_round_trip(c: TknConfigV)
    ensures
        spec_flatten(spec_to_enum(spec_flatten(c))) == spec_flatten(c),
{
    assert(spec_flatten(spec_to_enum(spec_flatten(c))) =~= spec_flatten(c));
}

/// A flattened fungible configuration always carries the forced canonical
/// values `owner_may_update_metadata == false` and `owner_is_public ==
/// false`: with many possible owners, no single-owner right exists.
pub proof fn lemma_fungible_flat_canonical(c: TknConfigV)
    requires
        c is Fungible,
    ensures
        !spec_flatten(c).is_nft,
        !spec_flatten(c).owner_may_update_metadata,
        !spec_flatten(c).owner_is_public,
{
}

/// A flattened NFT configuration always carries the forced canonical values
/// `enable_mint == false` and `decimals == 0`: an NFT's whole supply is
/// fixed at curation time and can never be re-minted.
pub proof fn lemma_nft_flat_canonical(c: TknConfigV)
    requires
        c is Nft,
    ensures
        spec_flatten(c).is_nft,
        !spec_flatten(c).enable_mint,
        spec_flatten(c).decimals == 0,
{
}

} // verus!
