use vstd::prelude::*;
use crate::text::text_eq;

verus! {

/// The blockchain networks whose full nodes can be asked for an object.
#[derive(Debug, Clone, Copy, PartialEq, Eq, Structural)]
pub enum SuiNetwork {
    Mainnet,
    Testnet,
    Devnet,
}

/// A token that names no known network.
#[derive(Debug, Clone, Copy, PartialEq, Eq, Structural)]
pub enum NetworkError {
    InvalidNetwork,
}

/// The lowercase token of a network.
pub open spec fn network_token(n: SuiNetwork) -> Seq<char> {
    match n {
        SuiNetwork::Mainnet => "mainnet"@,
        SuiNetwork::Testnet => "testnet"@,
        SuiNetwork::Devnet => "devnet"@,
    }
}

/// What parsing `s` yields: the network whose token is exactly `s`, if any.
pub open spec fn parsed_network(s: Seq<char>) -> Result<SuiNetwork, NetworkError> {
    if s == "mainnet"@ {
        Ok(SuiNetwork::Mainnet)
    } else if s == "testnet"@ {
        Ok(SuiNetwork::Testnet)
    } else if s == "devnet"@ {
        Ok(SuiNetwork::Devnet)
    } else {
        Err(NetworkError::InvalidNetwork)
    }
}

impl NetworkError {
    /// A human-readable reason.
    pub fn message(&self) -> (r: &'static str) {
        "Invalid sui network"
    }
}

impl SuiNetwork {
    /// Parses a network token; the match is exact and case-sensitive.
    pub fn from_str(s: &str) -> (r: Result<SuiNetwork, NetworkError>)
        ensures
            r == parsed_network(s@),
    {
        if text_eq(s, "mainnet") {
            Ok(SuiNetwork::Mainnet)
        } else if text_eq(s, "testnet") {
            Ok(SuiNetwork::Testnet)
        } else if text_eq(s, "devnet") {
            Ok(SuiNetwork::Devnet)
        } else {
            Err(NetworkError::InvalidNetwork)
        }
    }

    /// The lowercase token of this network.
    pub fn as_str(&self) -> (r: &'static str)
        ensures
            r@ == network_token(*self),
    {
        match self {
            SuiNetwork::Mainnet => "mainnet",
            SuiNetwork::Testnet => "testnet",
            SuiNetwork::Devnet => "devnet",
        }
    }
}

/// Parsing the token of a network gives that network back, and the three
/// tokens are the only texts that parse.
pub proof fn lemma_network_round_trip(n: SuiNetwork, s: Seq<char>)
    ensures
        parsed_network(network_token(n)) == Ok::<SuiNetwork, NetworkError>(n),
        parsed_network(s) is Ok <==> (s == "mainnet"@ || s == "testnet"@ || s == "devnet"@),
{
    reveal_strlit("mainnet");
    reveal_strlit("testnet");
    reveal_strlit("devnet");
    assert("testnet"@[0] != "mainnet"@[0]);
    assert("devnet"@.len() != "mainnet"@.len());
    assert("devnet"@.len() != "testnet"@.len());
}

} // verus!
