use token_registry::balances::LedgerEffect;
use token_registry::balances::TokenAmount;
use token_registry::balances::TokenIdBalance;
use token_registry::config::TknConfig;
use token_registry::curation::CurateTokenId;
use token_registry::descriptor::Metadata;
use token_registry::descriptor::TokenInfoMsg;
use token_registry::error::TokenError;
use token_registry::state::ContractConfig;

// ---- fixtures ------------------------------------------------------------
// These defaults flip most flags to `true` so that the forcing of the
// canonical fields by `flatten` is visible in the results.

fn default_fungible() -> TknConfig {
    TknConfig::Fungible {
        minters: vec!["addr0".to_string()],
        decimals: 6u8,
        public_total_supply: true,
        enable_mint: true,
        enable_burn: true,
        minter_may_update_metadata: true,
    }
}

fn default_nft() -> TknConfig {
    TknConfig::Nft {
        minters: vec![],
        public_total_supply: true,
        owner_is_public: true,
        enable_burn: true,
        owner_may_update_metadata: true,
        minter_may_update_metadata: true,
    }
}

fn default_curate() -> CurateTokenId {
    CurateTokenId {
        token_info: TokenInfoMsg {
            token_id: "0".to_string(),
            name: "token0".to_string(),
            symbol: "TKN".to_string(),
            token_config: default_fungible(),
            public_metadata: Some(Metadata {
                token_uri: Some("public uri".to_string()),
            }),
            private_metadata: Some(Metadata {
                token_uri: Some("private uri".to_string()),
            }),
        },
        balances: vec![TokenIdBalance {
            address: "addr0".to_string(),
            amount: 1000u128,
        }],
    }
}

fn empty_config() -> ContractConfig {
    ContractConfig {
        admin: Some("admin".to_string()),
        curators: vec!["addr0".to_string()],
        token_id_list: vec![],
        tx_cnt: 0u64,
        prng_seed: vec![1u8, 2u8, 3u8],
        contract_address: "contract".to_string(),
    }
}

// ---- flatten / to_enum ---------------------------------------------------

#[test]
fn flatten_fungible_forces_canonical_fields() {
    let flat = default_fungible().flatten();
    assert!(!flat.is_nft);
    assert_eq!(flat.minters, vec!["addr0".to_string()]);
    assert_eq!(flat.decimals, 6u8);
    assert!(flat.public_total_supply);
    assert!(flat.enable_mint);
    assert!(flat.enable_burn);
    assert!(flat.minter_may_update_metadata);
    // forced canonical values of the fungible variant
    assert!(!flat.owner_may_update_metadata);
    assert!(!flat.owner_is_public);
}

#[test]
fn flatten_nft_forces_canonical_fields() {
    let flat = default_nft().flatten();
    assert!(flat.is_nft);
    assert!(flat.minters.is_empty());
    assert!(flat.public_total_supply);
    assert!(flat.owner_is_public);
    assert!(flat.enable_burn);
    assert!(flat.owner_may_update_metadata);
    assert!(flat.minter_may_update_metadata);
    // forced canonical values of the NFT variant
    assert!(!flat.enable_mint);
    assert_eq!(flat.decimals, 0u8);
}

#[test]
fn flatten_round_trip_fungible() {
    let flat = default_fungible().flatten();
    assert_eq!(flat.to_enum().flatten(), flat);
}

#[test]
fn flatten_round_trip_nft() {
    let flat = default_nft().flatten();
    assert_eq!(flat.to_enum().flatten(), flat);
}

#[test]
fn to_enum_selects_variant_and_discards_irrelevant_fields() {
    let mut flat = default_fungible().flatten();
    // inconsistent data on a flat value: an NFT discriminator beside
    // fungible-only fields
    flat.is_nft = true;
    flat.enable_mint = true;
    flat.decimals = 9u8;
    let cfg = flat.to_enum();
    match cfg {
        TknConfig::Nft { ref minters, .. } => {
            assert_eq!(minters, &vec!["addr0".to_string()]);
        }
        TknConfig::Fungible { .. } => panic!("discriminator said NFT"),
    }
    // re-flattening normalizes: the discarded fields are forced back
    let normal = cfg.flatten();
    assert!(!normal.enable_mint);
    assert_eq!(normal.decimals, 0u8);
}

#[test]
fn mint_allowed_follows_flat_flag() {
    assert!(default_fungible().flatten().mint_allowed());
    assert!(!default_nft().flatten().mint_allowed());
}

// ---- ContractConfig ------------------------------------------------------

#[test]
fn register_token_id_rejects_duplicate_and_keeps_list() {
    let mut config = empty_config();
    assert_eq!(config.register_token_id(&"0".to_string()), Ok(()));
    assert_eq!(config.register_token_id(&"1".to_string()), Ok(()));
    assert_eq!(config.token_id_list, vec!["0".to_string(), "1".to_string()]);

    let r = config.register_token_id(&"0".to_string());
    assert_eq!(r, Err(TokenError::DuplicateTokenId));
    // the rejection leaves the list unchanged
    assert_eq!(config.token_id_list, vec!["0".to_string(), "1".to_string()]);
}

#[test]
fn next_tx_seq_increments_and_returns_new_value() {
    let mut config = empty_config();
    assert_eq!(config.next_tx_seq(), Ok(1u64));
    assert_eq!(config.next_tx_seq(), Ok(2u64));
    assert_eq!(config.tx_cnt, 2u64);
}

#[test]
fn next_tx_seq_overflow_is_fatal() {
    let mut config = empty_config();
    config.tx_cnt = u64::MAX;
    assert_eq!(config.next_tx_seq(), Err(TokenError::CounterOverflow));
    assert_eq!(config.tx_cnt, u64::MAX);
}

#[test]
fn membership_reads() {
    let config = empty_config();
    assert!(config.is_admin(&"admin".to_string()));
    assert!(!config.is_admin(&"addr0".to_string()));
    assert!(config.is_curator(&"addr0".to_string()));
    assert!(!config.is_curator(&"admin".to_string()));
    assert!(!config.has_token_id(&"0".to_string()));
}

// ---- to_store ------------------------------------------------------------

#[test]
fn to_store_binds_curator_and_keeps_fields() {
    let msg = default_curate().token_info;
    let stored = msg.to_store(&"addr0".to_string());
    assert_eq!(stored.token_id, "0".to_string());
    assert_eq!(stored.name, "token0".to_string());
    assert_eq!(stored.symbol, "TKN".to_string());
    assert_eq!(stored.token_config, default_fungible());
    assert_eq!(
        stored.public_metadata,
        Some(Metadata {
            token_uri: Some("public uri".to_string())
        })
    );
    assert_eq!(
        stored.private_metadata,
        Some(Metadata {
            token_uri: Some("private uri".to_string())
        })
    );
    assert_eq!(stored.curator, "addr0".to_string());
}

// ---- curation ------------------------------------------------------------

#[test]
fn curate_fungible_binds_curator_and_sums_supply() {
    let mut config = empty_config();
    let req = default_curate();
    let outcome = req.curate(&mut config, &"addr0".to_string()).unwrap();
    assert_eq!(outcome.stored.token_id, "0".to_string());
    assert_eq!(outcome.stored.curator, "addr0".to_string());
    assert_eq!(outcome.initial_total_supply, 1000u128);
    assert_eq!(config.token_id_list, vec!["0".to_string()]);
}

#[test]
fn curate_fungible_sums_several_entries() {
    let mut config = empty_config();
    let mut req = default_curate();
    req.balances = vec![
        TokenIdBalance {
            address: "addr0".to_string(),
            amount: 250u128,
        },
        TokenIdBalance {
            address: "addr1".to_string(),
            amount: 750u128,
        },
    ];
    let outcome = req.curate(&mut config, &"addr0".to_string()).unwrap();
    assert_eq!(outcome.initial_total_supply, 1000u128);
}

#[test]
fn curate_fungible_with_no_initial_supply() {
    let mut config = empty_config();
    let mut req = default_curate();
    req.balances = vec![];
    let outcome = req.curate(&mut config, &"addr0".to_string()).unwrap();
    assert_eq!(outcome.initial_total_supply, 0u128);
    assert_eq!(config.token_id_list, vec!["0".to_string()]);
}

#[test]
fn curate_empty_token_id_is_rejected() {
    let mut config = empty_config();
    let mut req = default_curate();
    req.token_info.token_id = String::new();
    let r = req.curate(&mut config, &"addr0".to_string());
    assert_eq!(r.unwrap_err(), TokenError::EmptyTokenId);
    assert!(config.token_id_list.is_empty());
}

#[test]
fn curate_duplicate_addresses_are_rejected() {
    let mut config = empty_config();
    let mut req = default_curate();
    req.balances = vec![
        TokenIdBalance {
            address: "addr0".to_string(),
            amount: 1u128,
        },
        TokenIdBalance {
            address: "addr0".to_string(),
            amount: 2u128,
        },
    ];
    let r = req.curate(&mut config, &"addr0".to_string());
    assert_eq!(r.unwrap_err(), TokenError::InvalidCurationBalances);
    assert!(config.token_id_list.is_empty());
}

#[test]
fn curate_supply_overflow_is_rejected() {
    let mut config = empty_config();
    let mut req = default_curate();
    req.balances = vec![
        TokenIdBalance {
            address: "addr0".to_string(),
            amount: u128::MAX,
        },
        TokenIdBalance {
            address: "addr1".to_string(),
            amount: 1u128,
        },
    ];
    let r = req.curate(&mut config, &"addr0".to_string());
    assert_eq!(r.unwrap_err(), TokenError::InvalidCurationBalances);
    assert!(config.token_id_list.is_empty());
}

#[test]
fn curate_duplicate_token_id_is_rejected_atomically() {
    let mut config = empty_config();
    let req = default_curate();
    assert!(req.curate(&mut config, &"addr0".to_string()).is_ok());
    let r = req.curate(&mut config, &"addr0".to_string());
    assert_eq!(r.unwrap_err(), TokenError::DuplicateTokenId);
    assert_eq!(config.token_id_list, vec!["0".to_string()]);
}

fn nft_curate() -> CurateTokenId {
    let mut req = default_curate();
    req.token_info.token_config = default_nft();
    req.balances = vec![TokenIdBalance {
        address: "addr0".to_string(),
        amount: 1u128,
    }];
    req
}

#[test]
fn curate_nft_single_owner_succeeds() {
    let mut config = empty_config();
    let outcome = nft_curate().curate(&mut config, &"addr0".to_string()).unwrap();
    assert_eq!(outcome.initial_total_supply, 1u128);
    assert_eq!(outcome.stored.token_config, default_nft());
}

#[test]
fn curate_nft_then_no_mint_path_exists() {
    let mut config = empty_config();
    let req = nft_curate();
    let outcome = req.curate(&mut config, &"addr0".to_string()).unwrap();
    // the whole supply is fixed at curation: the flat view of the stored
    // configuration can never allow minting further units
    assert!(!outcome.stored.token_config.flatten().mint_allowed());
    // and the id cannot be curated a second time either
    let r = req.curate(&mut config, &"addr0".to_string());
    assert_eq!(r.unwrap_err(), TokenError::DuplicateTokenId);
}

#[test]
fn curate_nft_with_two_entries_is_rejected() {
    let mut config = empty_config();
    let mut req = nft_curate();
    req.balances.push(TokenIdBalance {
        address: "addr1".to_string(),
        amount: 1u128,
    });
    let r = req.curate(&mut config, &"addr0".to_string());
    assert_eq!(r.unwrap_err(), TokenError::InvalidCurationBalances);
    assert!(config.token_id_list.is_empty());
}

#[test]
fn curate_nft_with_amount_other_than_one_is_rejected() {
    let mut config = empty_config();
    let mut req = nft_curate();
    req.balances[0].amount = 2u128;
    let r = req.curate(&mut config, &"addr0".to_string());
    assert_eq!(r.unwrap_err(), TokenError::InvalidCurationBalances);
}

// ---- mint / burn instructions --------------------------------------------

#[test]
fn burn_instruction_debits_the_entry_address_as_owner() {
    let instruction = TokenAmount {
        token_id: "0".to_string(),
        balances: vec![
            TokenIdBalance {
                address: "owner1".to_string(),
                amount: 5u128,
            },
            TokenIdBalance {
                address: "owner2".to_string(),
                amount: 7u128,
            },
        ],
    };
    let effects = instruction.burn_effects();
    assert_eq!(
        effects,
        vec![
            LedgerEffect::Debit {
                account: "owner1".to_string(),
                amount: 5u128,
            },
            LedgerEffect::Debit {
                account: "owner2".to_string(),
                amount: 7u128,
            },
        ]
    );
}

#[test]
fn mint_instruction_credits_the_entry_address_as_recipient() {
    let instruction = TokenAmount {
        token_id: "0".to_string(),
        balances: vec![TokenIdBalance {
            address: "addr0".to_string(),
            amount: 1000u128,
        }],
    };
    let effects = instruction.mint_effects();
    assert_eq!(
        effects,
        vec![LedgerEffect::Credit {
            account: "addr0".to_string(),
            amount: 1000u128,
        }]
    );
}
