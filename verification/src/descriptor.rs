use vstd::prelude::*;

use crate::config::TknConfig;
use crate::config::TknConfigV;

verus! {

/// An optional pointer to token metadata. The contents of the metadata
/// extension are the concern of an external collaborator; this model keeps
/// only the resource pointer.
#[derive(Debug, Clone, PartialEq)]
pub struct Metadata {
    pub token_uri: Option<String>,
}

/// Mathematical model of [`Metadata`].
#[verifier::ext_equal]
pub struct MetadataV {
    pub token_uri: Option<Seq<char>>,
}

impl View for Metadata {
    type V = MetadataV;

    open spec fn view(&self) -> MetadataV {
        MetadataV { token_uri: self.token_uri.deep_view() }
    }
}

/// The input form of a token descriptor: what the instantiator or a curator
/// sends to describe one token id.
#[derive(Debug, Clone, PartialEq)]
pub struct TokenInfoMsg {
    pub token_id: String,
    pub name: String,
    pub symbol: String,
    pub token_config: TknConfig,
    pub public_metadata: Option<Metadata>,
    pub private_metadata: Option<Metadata>,
}

/// Mathematical model of [`TokenInfoMsg`].
#[verifier::ext_equal]
pub struct TokenInfoMsgV {
    pub token_id: Seq<char>,
    pub name: Seq<char>,
    pub symbol: Seq<char>,
    pub token_config: TknConfigV,
    pub public_metadata: Option<MetadataV>,
    pub private_metadata: Option<MetadataV>,
}

impl View for TokenInfoMsg {
    type V = TokenInfoMsgV;

    open spec fn view(&self) -> TokenInfoMsgV {
        TokenInfoMsgV {
            token_id: self.token_id@,
            name: self.name@,
            symbol: self.symbol@,
            token_config: self.token_config@,
            public_metadata: spec_opt_metadata_view(self.public_metadata),
            private_metadata: spec_opt_metadata_view(self.private_metadata),
        }
    }
}

/// The view of an optional metadata pointer.
pub open spec fn spec_opt_metadata_view(m: Option<Metadata>) -> Option<MetadataV> {
    match m {
        Some(md) => Some(md@),
        None => None,
    }
}

/// The persisted form of a token descriptor: the input form plus the curator
/// that created it. Once stored, `token_id`, `name`, `symbol` and
/// `token_config` are immutable identity.
#[derive(Debug, Clone, PartialEq)]
pub struct StoredTokenInfo {
    pub token_id: String,
    pub name: String,
    pub symbol: String,
    pub token_config: TknConfig,
    pub public_metadata: Option<Metadata>,
    pub private_metadata: Option<Metadata>,
    pub curator: String,
}

/// Mathematical model of [`StoredTokenInfo`].
#[verifier::ext_equal]
pub struct StoredTokenInfoV {
    pub token_id: Seq<char>,
    pub name: Seq<char>,
    pub symbol: Seq<char>,
    pub token_config: TknConfigV,
    pub public_metadata: Option<MetadataV>,
    pub private_metadata: Option<MetadataV>,
    pub curator: Seq<char>,
}

impl View for StoredTokenInfo {
    type V = StoredTokenInfoV;

    open spec fn view(&self) -> StoredTokenInfoV {
        StoredTokenInfoV {
            token_id: self.token_id@,
            name: self.name@,
            symbol: self.symbol@,
            token_config: self.token_config@,
            public_metadata: spec_opt_metadata_view(self.public_metadata),
            private_metadata: spec_opt_metadata_view(self.private_metadata),
            curator: self.curator@,
        }
    }
}

/// What binding a curator to a token-info message yields: every field of the
/// message, unchanged, plus the curator identity.
pub open spec fn spec_to_store(msg: TokenInfoMsgV, curator: Seq<char>) -> StoredTokenInfoV {
    StoredTokenInfoV {
        token_id: msg.token_id,
        name: msg.name,
        symbol: msg.symbol,
        token_config: msg.token_config,
        public_metadata: msg.public_metadata,
        private_metadata: msg.private_metadata,
        curator: curator,
    }
}

/// Copies an optional metadata pointer.
pub(crate) fn clone_opt_metadata(m: &Option<Metadata>) -> (r: Option<Metadata>)
    ensures
        spec_opt_metadata_view(r) == spec_opt_metadata_view(*m),
{
    match m {
        Some(md) => Some(
            Metadata {
                token_uri: match &md.token_uri {
                    Some(uri) => Some(uri.clone()),
                    None => None,
                },
            },
        ),
        None => None,
    }
}

impl TokenInfoMsg {
    /// Produces the persisted descriptor by binding the acting curator.
    /// Pure and total; the token configuration is copied as it stands —
    /// validating it is the caller's responsibility.
    pub fn to_store(&self, curator: &String) -> (r: StoredTokenInfo)
        ensures
            r@ == spec_to_store(self@, curator@),
    {
        StoredTokenInfo {
            token_id: self.token_id.clone(),
            name: self.name.clone(),
            symbol: self.symbol.clone(),
            token_config: self.token_config.duplicate(),
            public_metadata: clone_opt_metadata(&self.public_metadata),
            private_metadata: clone_opt_metadata(&self.private_metadata),
            curator: curator.clone(),
        }
    }
}

} // verus!
