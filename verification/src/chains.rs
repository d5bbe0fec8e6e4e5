//! Chain identifiers and native-currency names: pure constant data used
//! by the per-chain contract-address tables.

use vstd::prelude::*;

verus! {

/// The chains the address tables know about.
#[allow(non_camel_case_types)]
#[derive(Clone, Copy, Debug, PartialEq, Eq, Structural)]
pub enum ChainId {
    MAINNET,
    GOERLI,
    SEPOLIA,
    OPTIMISM,
    OPTIMISMGOERLI,
    OPTIMISMSEPOLIA,
    ARBITRUMONE,
    ARBITRUMGOERLI,
    ARBITRUMSEPOLIA,
    POLYGON,
    POLYGONMUMBAI,
    CELO,
    CELOALFAJORES,
    GNOSIS,
    MOONBEAM,
    BNB,
    AVALANCHE,
    BASEGOERLI,
    BASE,
    ZORA,
    ZORASEPOLIA,
    ROOTSTOCK,
}

impl ChainId {
    /// The chain's numeric identifier.
    pub open spec fn spec_id(self) -> u32 {
        match self {
            ChainId::MAINNET => 1,
            ChainId::GOERLI => 5,
            ChainId::SEPOLIA => 11155111,
            ChainId::OPTIMISM => 10,
            ChainId::OPTIMISMGOERLI => 420,
            ChainId::OPTIMISMSEPOLIA => 11155420,
            ChainId::ARBITRUMONE => 42161,
            ChainId::ARBITRUMGOERLI => 421613,
            ChainId::ARBITRUMSEPOLIA => 421614,
            ChainId::POLYGON => 137,
            ChainId::POLYGONMUMBAI => 80001,
            ChainId::CELO => 42220,
            ChainId::CELOALFAJORES => 44787,
            ChainId::GNOSIS => 100,
            ChainId::MOONBEAM => 1284,
            ChainId::BNB => 56,
            ChainId::AVALANCHE => 43114,
            ChainId::BASEGOERLI => 84531,
            ChainId::BASE => 8453,
            ChainId::ZORA => 7777777,
            ChainId::ZORASEPOLIA => 999999999,
            ChainId::ROOTSTOCK => 30,
        }
    }

    /// The chain's numeric identifier.
    pub fn id(&self) -> (r: u32)
        ensures
            r == self.spec_id(),
    {
        match self {
            ChainId::MAINNET => 1,
            ChainId::GOERLI => 5,
            ChainId::SEPOLIA => 11155111,
            ChainId::OPTIMISM => 10,
            ChainId::OPTIMISMGOERLI => 420,
            ChainId::OPTIMISMSEPOLIA => 11155420,
            ChainId::ARBITRUMONE => 42161,
            ChainId::ARBITRUMGOERLI => 421613,
            ChainId::ARBITRUMSEPOLIA => 421614,
            ChainId::POLYGON => 137,
            ChainId::POLYGONMUMBAI => 80001,
            ChainId::CELO => 42220,
            ChainId::CELOALFAJORES => 44787,
            ChainId::GNOSIS => 100,
            ChainId::MOONBEAM => 1284,
            ChainId::BNB => 56,
            ChainId::AVALANCHE => 43114,
            ChainId::BASEGOERLI => 84531,
            ChainId::BASE => 8453,
            ChainId::ZORA => 7777777,
            ChainId::ZORASEPOLIA => 999999999,
            ChainId::ROOTSTOCK => 30,
        }
    }
}

/// The chains with deployed contracts, in table order.
pub open spec fn supported_chain_seq() -> Seq<ChainId> {
    seq![
        ChainId::MAINNET,
        ChainId::OPTIMISM,
        ChainId::OPTIMISMGOERLI,
        ChainId::OPTIMISMSEPOLIA,
        ChainId::ARBITRUMONE,
        ChainId::ARBITRUMGOERLI,
        ChainId::ARBITRUMSEPOLIA,
        ChainId::POLYGON,
        ChainId::POLYGONMUMBAI,
        ChainId::GOERLI,
        ChainId::SEPOLIA,
        ChainId::CELOALFAJORES,
        ChainId::CELO,
        ChainId::BNB,
        ChainId::AVALANCHE,
        ChainId::BASE,
        ChainId::BASEGOERLI,
        ChainId::ZORA,
        ChainId::ZORASEPOLIA,
        ChainId::ROOTSTOCK,
    ]
}

/// The chains with deployed contracts, in table order.
pub fn supported_chains() -> (r: Vec<ChainId>)
    ensures
        r@ == supported_chain_seq(),
{
    let mut v: Vec<ChainId> = Vec::new();
    v.push(ChainId::MAINNET);
    v.push(ChainId::OPTIMISM);
    v.push(ChainId::OPTIMISMGOERLI);
    v.push(ChainId::OPTIMISMSEPOLIA);
    v.push(ChainId::ARBITRUMONE);
    v.push(ChainId::ARBITRUMGOERLI);
    v.push(ChainId::ARBITRUMSEPOLIA);
    v.push(ChainId::POLYGON);
    v.push(ChainId::POLYGONMUMBAI);
    v.push(ChainId::GOERLI);
    v.push(ChainId::SEPOLIA);
    v.push(ChainId::CELOALFAJORES);
    v.push(ChainId::CELO);
    v.push(ChainId::BNB);
    v.push(ChainId::AVALANCHE);
    v.push(ChainId::BASE);
    v.push(ChainId::BASEGOERLI);
    v.push(ChainId::ZORA);
    v.push(ChainId::ZORASEPOLIA);
    v.push(ChainId::ROOTSTOCK);
    proof {
        assert(v@ =~= supported_chain_seq());
    }
    v
}

/// The names of the chains' native currencies.
#[allow(non_camel_case_types)]
#[derive(Clone, Copy, Debug, PartialEq, Eq, Structural)]
pub enum NativeCurrencyName {
    ETHER,
    MATIC,
    CELO,
    GNOSIS,
    MOONBEAM,
    BNB,
    AVAX,
    ROOTSTOCK,
}

} // verus!
