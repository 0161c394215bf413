//! Chain resolution: from the host's network hint to a chain identifier.
//!
//! The hint is matched exactly against a closed set of tokens. Anything else is
//! a recoverable failure: there is no default chain and no guessing from the
//! server address.

use vstd::prelude::*;

verus! {

/// The chain a wallet client is bound to. Fixed once a client is built from it.
#[derive(Clone, Copy, Debug, PartialEq, Eq, Structural)]
pub enum ChainKind {
    Mainnet,
    Testnet,
    Regtest,
}

/// The failure of chain resolution: the hint is none of the recognised tokens.
#[derive(Clone, Copy, Debug, PartialEq, Eq, Structural)]
pub struct UnknownChainHint;

/// The chain that a hint names, if it names one.
pub open spec fn chain_of_hint(hint: Seq<char>) -> Option<ChainKind> {
    if hint == "main"@ {
        Some(ChainKind::Mainnet)
    } else if hint == "test"@ {
        Some(ChainKind::Testnet)
    } else if hint == "regtest"@ {
        Some(ChainKind::Regtest)
    } else {
        None
    }
}

/// Whether a hint is one of the recognised tokens.
pub open spec fn is_known_hint(hint: Seq<char>) -> bool {
    hint == "main"@ || hint == "test"@ || hint == "regtest"@
}

/// The detail of the error reply for an unrecognised hint.
pub open spec fn unknown_hint_detail() -> Seq<char> {
    "Not a valid chain hint!"@
}

/// Resolves a network hint to its chain, or fails when the hint is not one of
/// `main`, `test` and `regtest`.
pub fn resolve_chain_hint(hint: &str) -> (resolved: Result<ChainKind, UnknownChainHint>)
    ensures
        resolved.ok() == chain_of_hint(hint@),
        resolved is Err <==> !is_known_hint(hint@),
{
    let given = hint.to_owned();
    if given == "main".to_owned() {
        Ok(ChainKind::Mainnet)
    } else if given == "test".to_owned() {
        Ok(ChainKind::Testnet)
    } else if given == "regtest".to_owned() {
        Ok(ChainKind::Regtest)
    } else {
        Err(UnknownChainHint)
    }
}

/// The three tokens name three different chains.
pub proof fn lemma_known_hints_resolve()
    ensures
        chain_of_hint("main"@) == Some(ChainKind::Mainnet),
        chain_of_hint("test"@) == Some(ChainKind::Testnet),
        chain_of_hint("regtest"@) == Some(ChainKind::Regtest),
{
    reveal_strlit("main");
    reveal_strlit("test");
    reveal_strlit("regtest");
    assert("test"@[0] != "main"@[0]);
    assert("regtest"@.len() != "main"@.len());
    assert("regtest"@.len() != "test"@.len());
}

/// Resolution fails on exactly the hints outside the recognised set.
pub proof fn lemma_unknown_hint_has_no_chain(hint: Seq<char>)
    ensures
        chain_of_hint(hint) is None <==> !is_known_hint(hint),
{
}

} // verus!
