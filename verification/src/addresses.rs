//! Per-chain contract-address tables: pure constant data.
//!
//! Each deployment's addresses are stated literally in the contracts, so a
//! caller knows exactly which map it receives.  The chains without a
//! deployment simply do not appear in the maps.

use vstd::prelude::*;
use vstd::string::StringExecFns;
use std::collections::HashMap;
use crate::chains::{ChainId, supported_chains, supported_chain_seq};

verus! {

broadcast use vstd::std_specs::hash::group_hash_axioms;

/// A map from chain identifier to one contract address.
pub type AddressMap = HashMap<u32, String>;

/// A map from chain identifier to one contract address, per chain table.
pub type ChainAddress = HashMap<u32, String>;

/// The contract addresses deployed on one chain.
#[derive(Debug)]
pub struct ChainAddresses {
    /// The core factory contract.
    pub v3_core_factory_address: String,
    /// The multicall contract.
    pub multicall_address: String,
    /// The quoter contract.
    pub quoter_address: String,
    /// The migrator contract, where deployed.
    pub v3_migrator_address: Option<String>,
    /// The position-manager contract, where deployed.
    pub nonfungible_position_manager_address: Option<String>,
    /// The tick-lens contract, where deployed.
    pub tick_lens_address: Option<String>,
    /// The router contract, where deployed.
    pub swap_router02_address: Option<String>,
    /// The mixed-route quoter contract, where deployed.
    pub v1_mixed_route_quoter_address: Option<String>,
}

/// The view of an optional address.
pub open spec fn opt_view(o: Option<String>) -> Option<Seq<char>> {
    match o {
        Some(s) => Some(s@),
        None => None,
    }
}

/// Whether the address table has a row for this chain.
pub open spec fn table_has(k: u32) -> bool {
    k == 1 || k == 5 || k == 10 || k == 420 || k == 42161 || k == 421613 || k == 137 || k == 80001
        || k == 42220 || k == 44787 || k == 56 || k == 43114 || k == 11155111 || k == 8453
        || k == 84531
}

/// The core factory address of a chain's table row.
pub open spec fn v3_core_factory_of(k: u32) -> Seq<char> {
    if k == 420 {
        "0xB656dA17129e7EB733A557f4EBc57B76CFbB5d10"@
    } else     if k == 421613 {
        "0x4893376342d5D7b3e31d4184c08b265e5aB2A3f6"@
    } else     if k == 42220 || k == 44787 {
        "0xAfE208a311B21f13EF87E33A90049fC17A7acDEc"@
    } else     if k == 56 {
        "0xdB1d10011AD0Ff90774D0C6Bb92e5C5c8b4461F7"@
    } else     if k == 43114 {
        "0x740b1c1de25031C31FF4fC9A62f554A55cdC1baD"@
    } else     if k == 11155111 {
        "0x0227628f3F023bb0B980b67D528571c95c6DaC1c"@
    } else     if k == 8453 {
        "0x33128a8fC17869897dcE68Ed026d694621f6FDfD"@
    } else     if k == 84531 {
        "0x9323c1d6D800ed51Bd7C6B216cfBec678B7d0BC2"@
    } else {
        "0x1F98431c8aD98523631AE4a59f267346ea31F984"@
    }
}

/// The multicall address of a chain's table row.
pub open spec fn multicall_of(k: u32) -> Seq<char> {
    if k == 420 {
        "0x07F2D8a2a02251B62af965f22fC4744A5f96BCCd"@
    } else     if k == 42161 {
        "0xadF885960B47eA2CD9B55E6DAc6B42b7Cb2806dB"@
    } else     if k == 421613 {
        "0x8260CB40247290317a4c062F3542622367F206Ee"@
    } else     if k == 42220 || k == 44787 {
        "0x633987602DE5C4F337e3DbF265303A1080324204"@
    } else     if k == 56 {
        "0x963Df249eD09c358A4819E39d9Cd5736c3087184"@
    } else     if k == 43114 {
        "0x0139141Cd4Ee88dF3Cdb65881D411bAE271Ef0C2"@
    } else     if k == 11155111 {
        "0xD7F33bCdb21b359c8ee6F0251d30E94832baAd07"@
    } else     if k == 8453 {
        "0x091e99cb1C49331a94dD62755D168E941AbD0693"@
    } else     if k == 84531 {
        "0xB206027a9E0E13F05eBEFa5D2402Bab3eA716439"@
    } else {
        "0x1F98415757620B543A52E61c46B32eB19261F984"@
    }
}

/// The quoter address of a chain's table row.
pub open spec fn quoter_of(k: u32) -> Seq<char> {
    if k == 420 {
        "0x9569CbA925c8ca2248772A9A4976A516743A246F"@
    } else     if k == 421613 {
        "0x1dd92b83591781D0C6d98d07391eea4b9a6008FA"@
    } else     if k == 42220 || k == 44787 {
        "0x82825d0554fA07f7FC52Ab63c961F330fdEFa8E8"@
    } else     if k == 56 {
        "0x78D78E420Da98ad378D7799bE8f4AF69033EB077"@
    } else     if k == 43114 {
        "0xbe0F5544EC67e9B3b2D979aaA43f18Fd87E6257F"@
    } else     if k == 11155111 {
        "0xEd1f6473345F45b75F8179591dd5bA1888cf2FB3"@
    } else     if k == 8453 {
        "0x3d4e44Eb1374240CE5F1B871ab261CD16335B76a"@
    } else     if k == 84531 {
        "0xedf539058e28E5937dAef3f69cEd0b25fbE66Ae9"@
    } else {
        "0xb27308f9F90D607463bb33eA1BeBb41C27CE5AB6"@
    }
}

/// The migrator address of a chain's table row.
pub open spec fn v3_migrator_of(k: u32) -> Seq<char> {
    if k == 420 {
        "0xf6c55fBe84B1C8c3283533c53F51bC32F5C7Aba8"@
    } else     if k == 421613 {
        "0xA815919D2584Ac3F76ea9CB62E6Fd40a43BCe0C3"@
    } else     if k == 42220 || k == 44787 {
        "0x3cFd4d48EDfDCC53D3f173F596f621064614C582"@
    } else     if k == 56 {
        "0x32681814957e0C13117ddc0c2aba232b5c9e760f"@
    } else     if k == 43114 {
        "0x44f5f1f5E452ea8d29C890E8F6e893fC0f1f0f97"@
    } else     if k == 11155111 {
        "0x729004182cF005CEC8Bd85df140094b6aCbe8b15"@
    } else     if k == 8453 {
        "0x23cF10b1ee3AdfCA73B0eF17C07F7577e7ACd2d7"@
    } else     if k == 84531 {
        "0x3efe5d02a04b7351D671Db7008ec6eBA9AD9e3aE"@
    } else {
        "0xA5644E29708357803b5A882D272c41cC0dF92B34"@
    }
}

/// The position-manager address of a chain's table row.
pub open spec fn position_manager_of(k: u32) -> Seq<char> {
    if k == 420 {
        "0x39Ca85Af2F383190cBf7d7c41ED9202D27426EF6"@
    } else     if k == 421613 {
        "0x622e4726a167799826d1E1D150b076A7725f5D81"@
    } else     if k == 42220 || k == 44787 {
        "0x3d79EdAaBC0EaB6F08ED885C05Fc0B014290D95A"@
    } else     if k == 56 {
        "0x7b8A01B39D58278b5DE7e48c8449c9f4F5170613"@
    } else     if k == 43114 {
        "0x655C406EBFa14EE2006250925e54ec43AD184f8B"@
    } else     if k == 11155111 {
        "0x1238536071E1c677A632429e3655c799b22cDA52"@
    } else     if k == 8453 {
        "0x03a520b32C04BF3bEEf7BEb72E919cf822Ed34f1"@
    } else     if k == 84531 {
        "0x3c61369ef0D1D2AFa70d8feC2F31C5D6Ce134F30"@
    } else {
        "0xC36442b4a4522E871399CD717aBDD847Ab11FE88"@
    }
}

/// The tick-lens address of a chain's table row.
pub open spec fn tick_lens_of(k: u32) -> Option<Seq<char>> {
    if k == 420 {
        Some("0xe6140Bd164b63E8BfCfc40D5dF952f83e171758e"@)
    } else     if k == 42161 {
        Some("0xbfd8137f7d1516D3ea5cA83523914859ec47F573"@)
    } else     if k == 421613 {
        Some("0xb52429333da969a0C79a60930a4Bf0020E5D1DE8"@)
    } else     if k == 42220 || k == 44787 {
        Some("0x5f115D9113F88e0a0Db1b5033D90D4a9690AcD3D"@)
    } else     if k == 56 {
        Some("0xD9270014D396281579760619CCf4c3af0501A47C"@)
    } else     if k == 43114 {
        Some("0xEB9fFC8bf81b4fFd11fb6A63a6B0f098c6e21950"@)
    } else     if k == 11155111 {
        Some("0xd7f33bcdb21b359c8ee6f0251d30e94832baad07"@)
    } else     if k == 8453 {
        Some("0x0CdeE061c75D43c82520eD998C23ac2991c9ac6d"@)
    } else     if k == 84531 {
        Some("0x1acB873Ee909D0c98adB18e4474943249F931b92"@)
    } else {
        None
    }
}

/// The router address of a chain's table row.
pub open spec fn swap_router02_of(k: u32) -> Option<Seq<char>> {
    if k == 56 {
        Some("0xB971eF87ede563556b2ED4b1C0b0019111Dd85d2"@)
    } else     if k == 43114 {
        Some("0xbb00FF08d01D300023C629E8fFfFcb65A5a578cE"@)
    } else     if k == 8453 {
        Some("0x2626664c2603336E57B271c5C0b26F421741e481"@)
    } else     if k == 84531 {
        Some("0x8357227D4eDc78991Db6FDB9bD6ADE250536dE1d"@)
    } else {
        None
    }
}

/// The mixed-route quoter address of a chain's table row.
pub open spec fn mixed_route_quoter_of(k: u32) -> Option<Seq<char>> {
    if k == 1 {
        Some("0x84E44095eeBfEC7793Cd7d5b57B7e401D7f1cA2E"@)
    } else     if k == 5 {
        Some("0xBa60b6e6fF25488308789E6e0A65D838be34194e"@)
    } else {
        None
    }
}
impl Default for ChainAddresses {
    /// The addresses shared by the networks that deployed the common
    /// contract set.
    fn default() -> (r: Self)
        ensures

            r.v3_core_factory_address@ == "0x1F98431c8aD98523631AE4a59f267346ea31F984"@,
            r.multicall_address@ == "0x1F98415757620B543A52E61c46B32eB19261F984"@,
            r.quoter_address@ == "0xb27308f9F90D607463bb33eA1BeBb41C27CE5AB6"@,
            (r.v3_migrator_address matches Some(a) && a@ == "0xA5644E29708357803b5A882D272c41cC0dF92B34"@),
            (r.nonfungible_position_manager_address matches Some(a) && a@ == "0xC36442b4a4522E871399CD717aBDD847Ab11FE88"@),
            r.tick_lens_address is None,
            r.swap_router02_address is None,
            r.v1_mixed_route_quoter_address is None,
    {
        ChainAddresses {
        v3_core_factory_address: String::from_str("0x1F98431c8aD98523631AE4a59f267346ea31F984"),
        multicall_address: String::from_str("0x1F98415757620B543A52E61c46B32eB19261F984"),
        quoter_address: String::from_str("0xb27308f9F90D607463bb33eA1BeBb41C27CE5AB6"),
        v3_migrator_address: Some(String::from_str("0xA5644E29708357803b5A882D272c41cC0dF92B34")),
        nonfungible_position_manager_address: Some(String::from_str("0xC36442b4a4522E871399CD717aBDD847Ab11FE88")),
        tick_lens_address: None,
        swap_router02_address: None,
        v1_mixed_route_quoter_address: None,
        }
    }
}

/// The deployment on the main network.
pub fn mainnet_address() -> (r: ChainAddresses)
    ensures
        r.v3_core_factory_address@ == "0x1F98431c8aD98523631AE4a59f267346ea31F984"@,
        r.multicall_address@ == "0x1F98415757620B543A52E61c46B32eB19261F984"@,
        r.quoter_address@ == "0xb27308f9F90D607463bb33eA1BeBb41C27CE5AB6"@,
        (r.v3_migrator_address matches Some(a) && a@ == "0xA5644E29708357803b5A882D272c41cC0dF92B34"@),
        (r.nonfungible_position_manager_address matches Some(a) && a@ == "0xC36442b4a4522E871399CD717aBDD847Ab11FE88"@),
        r.tick_lens_address is None,
        r.swap_router02_address is None,
        (r.v1_mixed_route_quoter_address matches Some(a) && a@ == "0x84E44095eeBfEC7793Cd7d5b57B7e401D7f1cA2E"@),
{
    ChainAddresses {
        v3_core_factory_address: String::from_str("0x1F98431c8aD98523631AE4a59f267346ea31F984"),
        multicall_address: String::from_str("0x1F98415757620B543A52E61c46B32eB19261F984"),
        quoter_address: String::from_str("0xb27308f9F90D607463bb33eA1BeBb41C27CE5AB6"),
        v3_migrator_address: Some(String::from_str("0xA5644E29708357803b5A882D272c41cC0dF92B34")),
        nonfungible_position_manager_address: Some(String::from_str("0xC36442b4a4522E871399CD717aBDD847Ab11FE88")),
        tick_lens_address: None,
        swap_router02_address: None,
        v1_mixed_route_quoter_address: Some(String::from_str("0x84E44095eeBfEC7793Cd7d5b57B7e401D7f1cA2E")),
    }
}

/// The deployment on the Goerli test network.
pub fn goerli_address() -> (r: ChainAddresses)
    ensures
        r.v3_core_factory_address@ == "0x1F98431c8aD98523631AE4a59f267346ea31F984"@,
        r.multicall_address@ == "0x1F98415757620B543A52E61c46B32eB19261F984"@,
        r.quoter_address@ == "0xb27308f9F90D607463bb33eA1BeBb41C27CE5AB6"@,
        (r.v3_migrator_address matches Some(a) && a@ == "0xA5644E29708357803b5A882D272c41cC0dF92B34"@),
        (r.nonfungible_position_manager_address matches Some(a) && a@ == "0xC36442b4a4522E871399CD717aBDD847Ab11FE88"@),
        r.tick_lens_address is None,
        r.swap_router02_address is None,
        (r.v1_mixed_route_quoter_address matches Some(a) && a@ == "0xBa60b6e6fF25488308789E6e0A65D838be34194e"@),
{
    ChainAddresses {
        v3_core_factory_address: String::from_str("0x1F98431c8aD98523631AE4a59f267346ea31F984"),
        multicall_address: String::from_str("0x1F98415757620B543A52E61c46B32eB19261F984"),
        quoter_address: String::from_str("0xb27308f9F90D607463bb33eA1BeBb41C27CE5AB6"),
        v3_migrator_address: Some(String::from_str("0xA5644E29708357803b5A882D272c41cC0dF92B34")),
        nonfungible_position_manager_address: Some(String::from_str("0xC36442b4a4522E871399CD717aBDD847Ab11FE88")),
        tick_lens_address: None,
        swap_router02_address: None,
        v1_mixed_route_quoter_address: Some(String::from_str("0xBa60b6e6fF25488308789E6e0A65D838be34194e")),
    }
}

/// The deployment on the Optimism network.
pub fn optimism_addresses() -> (r: ChainAddresses)
    ensures
        r.v3_core_factory_address@ == "0x1F98431c8aD98523631AE4a59f267346ea31F984"@,
        r.multicall_address@ == "0x1F98415757620B543A52E61c46B32eB19261F984"@,
        r.quoter_address@ == "0xb27308f9F90D607463bb33eA1BeBb41C27CE5AB6"@,
        (r.v3_migrator_address matches Some(a) && a@ == "0xA5644E29708357803b5A882D272c41cC0dF92B34"@),
        (r.nonfungible_position_manager_address matches Some(a) && a@ == "0xC36442b4a4522E871399CD717aBDD847Ab11FE88"@),
        r.tick_lens_address is None,
        r.swap_router02_address is None,
        r.v1_mixed_route_quoter_address is None,
{
    ChainAddresses {
        v3_core_factory_address: String::from_str("0x1F98431c8aD98523631AE4a59f267346ea31F984"),
        multicall_address: String::from_str("0x1F98415757620B543A52E61c46B32eB19261F984"),
        quoter_address: String::from_str("0xb27308f9F90D607463bb33eA1BeBb41C27CE5AB6"),
        v3_migrator_address: Some(String::from_str("0xA5644E29708357803b5A882D272c41cC0dF92B34")),
        nonfungible_position_manager_address: Some(String::from_str("0xC36442b4a4522E871399CD717aBDD847Ab11FE88")),
        tick_lens_address: None,
        swap_router02_address: None,
        v1_mixed_route_quoter_address: None,
    }
}

/// The deployment on the Arbitrum One network.
pub fn arbitum_one_addresses() -> (r: ChainAddresses)
    ensures
        r.v3_core_factory_address@ == "0x1F98431c8aD98523631AE4a59f267346ea31F984"@,
        r.multicall_address@ == "0xadF885960B47eA2CD9B55E6DAc6B42b7Cb2806dB"@,
        r.quoter_address@ == "0xb27308f9F90D607463bb33eA1BeBb41C27CE5AB6"@,
        (r.v3_migrator_address matches Some(a) && a@ == "0xA5644E29708357803b5A882D272c41cC0dF92B34"@),
        (r.nonfungible_position_manager_address matches Some(a) && a@ == "0xC36442b4a4522E871399CD717aBDD847Ab11FE88"@),
        (r.tick_lens_address matches Some(a) && a@ == "0xbfd8137f7d1516D3ea5cA83523914859ec47F573"@),
        r.swap_router02_address is None,
        r.v1_mixed_route_quoter_address is None,
{
    ChainAddresses {
        v3_core_factory_address: String::from_str("0x1F98431c8aD98523631AE4a59f267346ea31F984"),
        multicall_address: String::from_str("0xadF885960B47eA2CD9B55E6DAc6B42b7Cb2806dB"),
        quoter_address: String::from_str("0xb27308f9F90D607463bb33eA1BeBb41C27CE5AB6"),
        v3_migrator_address: Some(String::from_str("0xA5644E29708357803b5A882D272c41cC0dF92B34")),
        nonfungible_position_manager_address: Some(String::from_str("0xC36442b4a4522E871399CD717aBDD847Ab11FE88")),
        tick_lens_address: Some(String::from_str("0xbfd8137f7d1516D3ea5cA83523914859ec47F573")),
        swap_router02_address: None,
        v1_mixed_route_quoter_address: None,
    }
}

/// The deployment on the Polygon networks.
pub fn polygon_addresses() -> (r: ChainAddresses)
    ensures
        r.v3_core_factory_address@ == "0x1F98431c8aD98523631AE4a59f267346ea31F984"@,
        r.multicall_address@ == "0x1F98415757620B543A52E61c46B32eB19261F984"@,
        r.quoter_address@ == "0xb27308f9F90D607463bb33eA1BeBb41C27CE5AB6"@,
        (r.v3_migrator_address matches Some(a) && a@ == "0xA5644E29708357803b5A882D272c41cC0dF92B34"@),
        (r.nonfungible_position_manager_address matches Some(a) && a@ == "0xC36442b4a4522E871399CD717aBDD847Ab11FE88"@),
        r.tick_lens_address is None,
        r.swap_router02_address is None,
        r.v1_mixed_route_quoter_address is None,
{
    ChainAddresses {
        v3_core_factory_address: String::from_str("0x1F98431c8aD98523631AE4a59f267346ea31F984"),
        multicall_address: String::from_str("0x1F98415757620B543A52E61c46B32eB19261F984"),
        quoter_address: String::from_str("0xb27308f9F90D607463bb33eA1BeBb41C27CE5AB6"),
        v3_migrator_address: Some(String::from_str("0xA5644E29708357803b5A882D272c41cC0dF92B34")),
        nonfungible_position_manager_address: Some(String::from_str("0xC36442b4a4522E871399CD717aBDD847Ab11FE88")),
        tick_lens_address: None,
        swap_router02_address: None,
        v1_mixed_route_quoter_address: None,
    }
}

/// The deployment on the Celo networks.
pub fn celo_addresses() -> (r: ChainAddresses)
    ensures
        r.v3_core_factory_address@ == "0xAfE208a311B21f13EF87E33A90049fC17A7acDEc"@,
        r.multicall_address@ == "0x633987602DE5C4F337e3DbF265303A1080324204"@,
        r.quoter_address@ == "0x82825d0554fA07f7FC52Ab63c961F330fdEFa8E8"@,
        (r.v3_migrator_address matches Some(a) && a@ == "0x3cFd4d48EDfDCC53D3f173F596f621064614C582"@),
        (r.nonfungible_position_manager_address matches Some(a) && a@ == "0x3d79EdAaBC0EaB6F08ED885C05Fc0B014290D95A"@),
        (r.tick_lens_address matches Some(a) && a@ == "0x5f115D9113F88e0a0Db1b5033D90D4a9690AcD3D"@),
        r.swap_router02_address is None,
        r.v1_mixed_route_quoter_address is None,
{
    ChainAddresses {
        v3_core_factory_address: String::from_str("0xAfE208a311B21f13EF87E33A90049fC17A7acDEc"),
        multicall_address: String::from_str("0x633987602DE5C4F337e3DbF265303A1080324204"),
        quoter_address: String::from_str("0x82825d0554fA07f7FC52Ab63c961F330fdEFa8E8"),
        v3_migrator_address: Some(String::from_str("0x3cFd4d48EDfDCC53D3f173F596f621064614C582")),
        nonfungible_position_manager_address: Some(String::from_str("0x3d79EdAaBC0EaB6F08ED885C05Fc0B014290D95A")),
        tick_lens_address: Some(String::from_str("0x5f115D9113F88e0a0Db1b5033D90D4a9690AcD3D")),
        swap_router02_address: None,
        v1_mixed_route_quoter_address: None,
    }
}

/// The deployment on the BNB network.
pub fn bnb_addresses() -> (r: ChainAddresses)
    ensures
        r.v3_core_factory_address@ == "0xdB1d10011AD0Ff90774D0C6Bb92e5C5c8b4461F7"@,
        r.multicall_address@ == "0x963Df249eD09c358A4819E39d9Cd5736c3087184"@,
        r.quoter_address@ == "0x78D78E420Da98ad378D7799bE8f4AF69033EB077"@,
        (r.v3_migrator_address matches Some(a) && a@ == "0x32681814957e0C13117ddc0c2aba232b5c9e760f"@),
        (r.nonfungible_position_manager_address matches Some(a) && a@ == "0x7b8A01B39D58278b5DE7e48c8449c9f4F5170613"@),
        (r.tick_lens_address matches Some(a) && a@ == "0xD9270014D396281579760619CCf4c3af0501A47C"@),
        (r.swap_router02_address matches Some(a) && a@ == "0xB971eF87ede563556b2ED4b1C0b0019111Dd85d2"@),
        r.v1_mixed_route_quoter_address is None,
{
    ChainAddresses {
        v3_core_factory_address: String::from_str("0xdB1d10011AD0Ff90774D0C6Bb92e5C5c8b4461F7"),
        multicall_address: String::from_str("0x963Df249eD09c358A4819E39d9Cd5736c3087184"),
        quoter_address: String::from_str("0x78D78E420Da98ad378D7799bE8f4AF69033EB077"),
        v3_migrator_address: Some(String::from_str("0x32681814957e0C13117ddc0c2aba232b5c9e760f")),
        nonfungible_position_manager_address: Some(String::from_str("0x7b8A01B39D58278b5DE7e48c8449c9f4F5170613")),
        tick_lens_address: Some(String::from_str("0xD9270014D396281579760619CCf4c3af0501A47C")),
        swap_router02_address: Some(String::from_str("0xB971eF87ede563556b2ED4b1C0b0019111Dd85d2")),
        v1_mixed_route_quoter_address: None,
    }
}

/// The deployment on the Optimism Goerli test network.
pub fn optimism_goerli_addresses() -> (r: ChainAddresses)
    ensures
        r.v3_core_factory_address@ == "0xB656dA17129e7EB733A557f4EBc57B76CFbB5d10"@,
        r.multicall_address@ == "0x07F2D8a2a02251B62af965f22fC4744A5f96BCCd"@,
        r.quoter_address@ == "0x9569CbA925c8ca2248772A9A4976A516743A246F"@,
        (r.v3_migrator_address matches Some(a) && a@ == "0xf6c55fBe84B1C8c3283533c53F51bC32F5C7Aba8"@),
        (r.nonfungible_position_manager_address matches Some(a) && a@ == "0x39Ca85Af2F383190cBf7d7c41ED9202D27426EF6"@),
        (r.tick_lens_address matches Some(a) && a@ == "0xe6140Bd164b63E8BfCfc40D5dF952f83e171758e"@),
        r.swap_router02_address is None,
        r.v1_mixed_route_quoter_address is None,
{
    ChainAddresses {
        v3_core_factory_address: String::from_str("0xB656dA17129e7EB733A557f4EBc57B76CFbB5d10"),
        multicall_address: String::from_str("0x07F2D8a2a02251B62af965f22fC4744A5f96BCCd"),
        quoter_address: String::from_str("0x9569CbA925c8ca2248772A9A4976A516743A246F"),
        v3_migrator_address: Some(String::from_str("0xf6c55fBe84B1C8c3283533c53F51bC32F5C7Aba8")),
        nonfungible_position_manager_address: Some(String::from_str("0x39Ca85Af2F383190cBf7d7c41ED9202D27426EF6")),
        tick_lens_address: Some(String::from_str("0xe6140Bd164b63E8BfCfc40D5dF952f83e171758e")),
        swap_router02_address: None,
        v1_mixed_route_quoter_address: None,
    }
}

/// The deployment on the Arbitrum Goerli test network.
pub fn arbitrum_goerli_addresses() -> (r: ChainAddresses)
    ensures
        r.v3_core_factory_address@ == "0x4893376342d5D7b3e31d4184c08b265e5aB2A3f6"@,
        r.multicall_address@ == "0x8260CB40247290317a4c062F3542622367F206Ee"@,
        r.quoter_address@ == "0x1dd92b83591781D0C6d98d07391eea4b9a6008FA"@,
        (r.v3_migrator_address matches Some(a) && a@ == "0xA815919D2584Ac3F76ea9CB62E6Fd40a43BCe0C3"@),
        (r.nonfungible_position_manager_address matches Some(a) && a@ == "0x622e4726a167799826d1E1D150b076A7725f5D81"@),
        (r.tick_lens_address matches Some(a) && a@ == "0xb52429333da969a0C79a60930a4Bf0020E5D1DE8"@),
        r.swap_router02_address is None,
        r.v1_mixed_route_quoter_address is None,
{
    ChainAddresses {
        v3_core_factory_address: String::from_str("0x4893376342d5D7b3e31d4184c08b265e5aB2A3f6"),
        multicall_address: String::from_str("0x8260CB40247290317a4c062F3542622367F206Ee"),
        quoter_address: String::from_str("0x1dd92b83591781D0C6d98d07391eea4b9a6008FA"),
        v3_migrator_address: Some(String::from_str("0xA815919D2584Ac3F76ea9CB62E6Fd40a43BCe0C3")),
        nonfungible_position_manager_address: Some(String::from_str("0x622e4726a167799826d1E1D150b076A7725f5D81")),
        tick_lens_address: Some(String::from_str("0xb52429333da969a0C79a60930a4Bf0020E5D1DE8")),
        swap_router02_address: None,
        v1_mixed_route_quoter_address: None,
    }
}

/// The deployment on the Sepolia test network.
pub fn sepolia_address() -> (r: ChainAddresses)
    ensures
        r.v3_core_factory_address@ == "0x0227628f3F023bb0B980b67D528571c95c6DaC1c"@,
        r.multicall_address@ == "0xD7F33bCdb21b359c8ee6F0251d30E94832baAd07"@,
        r.quoter_address@ == "0xEd1f6473345F45b75F8179591dd5bA1888cf2FB3"@,
        (r.v3_migrator_address matches Some(a) && a@ == "0x729004182cF005CEC8Bd85df140094b6aCbe8b15"@),
        (r.nonfungible_position_manager_address matches Some(a) && a@ == "0x1238536071E1c677A632429e3655c799b22cDA52"@),
        (r.tick_lens_address matches Some(a) && a@ == "0xd7f33bcdb21b359c8ee6f0251d30e94832baad07"@),
        r.swap_router02_address is None,
        r.v1_mixed_route_quoter_address is None,
{
    ChainAddresses {
        v3_core_factory_address: String::from_str("0x0227628f3F023bb0B980b67D528571c95c6DaC1c"),
        multicall_address: String::from_str("0xD7F33bCdb21b359c8ee6F0251d30E94832baAd07"),
        quoter_address: String::from_str("0xEd1f6473345F45b75F8179591dd5bA1888cf2FB3"),
        v3_migrator_address: Some(String::from_str("0x729004182cF005CEC8Bd85df140094b6aCbe8b15")),
        nonfungible_position_manager_address: Some(String::from_str("0x1238536071E1c677A632429e3655c799b22cDA52")),
        tick_lens_address: Some(String::from_str("0xd7f33bcdb21b359c8ee6f0251d30e94832baad07")),
        swap_router02_address: None,
        v1_mixed_route_quoter_address: None,
    }
}

/// The deployment on the Avalanche network.
pub fn avalanche_addresses() -> (r: ChainAddresses)
    ensures
        r.v3_core_factory_address@ == "0x740b1c1de25031C31FF4fC9A62f554A55cdC1baD"@,
        r.multicall_address@ == "0x0139141Cd4Ee88dF3Cdb65881D411bAE271Ef0C2"@,
        r.quoter_address@ == "0xbe0F5544EC67e9B3b2D979aaA43f18Fd87E6257F"@,
        (r.v3_migrator_address matches Some(a) && a@ == "0x44f5f1f5E452ea8d29C890E8F6e893fC0f1f0f97"@),
        (r.nonfungible_position_manager_address matches Some(a) && a@ == "0x655C406EBFa14EE2006250925e54ec43AD184f8B"@),
        (r.tick_lens_address matches Some(a) && a@ == "0xEB9fFC8bf81b4fFd11fb6A63a6B0f098c6e21950"@),
        (r.swap_router02_address matches Some(a) && a@ == "0xbb00FF08d01D300023C629E8fFfFcb65A5a578cE"@),
        r.v1_mixed_route_quoter_address is None,
{
    ChainAddresses {
        v3_core_factory_address: String::from_str("0x740b1c1de25031C31FF4fC9A62f554A55cdC1baD"),
        multicall_address: String::from_str("0x0139141Cd4Ee88dF3Cdb65881D411bAE271Ef0C2"),
        quoter_address: String::from_str("0xbe0F5544EC67e9B3b2D979aaA43f18Fd87E6257F"),
        v3_migrator_address: Some(String::from_str("0x44f5f1f5E452ea8d29C890E8F6e893fC0f1f0f97")),
        nonfungible_position_manager_address: Some(String::from_str("0x655C406EBFa14EE2006250925e54ec43AD184f8B")),
        tick_lens_address: Some(String::from_str("0xEB9fFC8bf81b4fFd11fb6A63a6B0f098c6e21950")),
        swap_router02_address: Some(String::from_str("0xbb00FF08d01D300023C629E8fFfFcb65A5a578cE")),
        v1_mixed_route_quoter_address: None,
    }
}

/// The deployment on the Base network.
pub fn base_addresses() -> (r: ChainAddresses)
    ensures
        r.v3_core_factory_address@ == "0x33128a8fC17869897dcE68Ed026d694621f6FDfD"@,
        r.multicall_address@ == "0x091e99cb1C49331a94dD62755D168E941AbD0693"@,
        r.quoter_address@ == "0x3d4e44Eb1374240CE5F1B871ab261CD16335B76a"@,
        (r.v3_migrator_address matches Some(a) && a@ == "0x23cF10b1ee3AdfCA73B0eF17C07F7577e7ACd2d7"@),
        (r.nonfungible_position_manager_address matches Some(a) && a@ == "0x03a520b32C04BF3bEEf7BEb72E919cf822Ed34f1"@),
        (r.tick_lens_address matches Some(a) && a@ == "0x0CdeE061c75D43c82520eD998C23ac2991c9ac6d"@),
        (r.swap_router02_address matches Some(a) && a@ == "0x2626664c2603336E57B271c5C0b26F421741e481"@),
        r.v1_mixed_route_quoter_address is None,
{
    ChainAddresses {
        v3_core_factory_address: String::from_str("0x33128a8fC17869897dcE68Ed026d694621f6FDfD"),
        multicall_address: String::from_str("0x091e99cb1C49331a94dD62755D168E941AbD0693"),
        quoter_address: String::from_str("0x3d4e44Eb1374240CE5F1B871ab261CD16335B76a"),
        v3_migrator_address: Some(String::from_str("0x23cF10b1ee3AdfCA73B0eF17C07F7577e7ACd2d7")),
        nonfungible_position_manager_address: Some(String::from_str("0x03a520b32C04BF3bEEf7BEb72E919cf822Ed34f1")),
        tick_lens_address: Some(String::from_str("0x0CdeE061c75D43c82520eD998C23ac2991c9ac6d")),
        swap_router02_address: Some(String::from_str("0x2626664c2603336E57B271c5C0b26F421741e481")),
        v1_mixed_route_quoter_address: None,
    }
}

/// The deployment on the Base Goerli test network.
pub fn base_goerli_addresses() -> (r: ChainAddresses)
    ensures
        r.v3_core_factory_address@ == "0x9323c1d6D800ed51Bd7C6B216cfBec678B7d0BC2"@,
        r.multicall_address@ == "0xB206027a9E0E13F05eBEFa5D2402Bab3eA716439"@,
        r.quoter_address@ == "0xedf539058e28E5937dAef3f69cEd0b25fbE66Ae9"@,
        (r.v3_migrator_address matches Some(a) && a@ == "0x3efe5d02a04b7351D671Db7008ec6eBA9AD9e3aE"@),
        (r.nonfungible_position_manager_address matches Some(a) && a@ == "0x3c61369ef0D1D2AFa70d8feC2F31C5D6Ce134F30"@),
        (r.tick_lens_address matches Some(a) && a@ == "0x1acB873Ee909D0c98adB18e4474943249F931b92"@),
        (r.swap_router02_address matches Some(a) && a@ == "0x8357227D4eDc78991Db6FDB9bD6ADE250536dE1d"@),
        r.v1_mixed_route_quoter_address is None,
{
    ChainAddresses {
        v3_core_factory_address: String::from_str("0x9323c1d6D800ed51Bd7C6B216cfBec678B7d0BC2"),
        multicall_address: String::from_str("0xB206027a9E0E13F05eBEFa5D2402Bab3eA716439"),
        quoter_address: String::from_str("0xedf539058e28E5937dAef3f69cEd0b25fbE66Ae9"),
        v3_migrator_address: Some(String::from_str("0x3efe5d02a04b7351D671Db7008ec6eBA9AD9e3aE")),
        nonfungible_position_manager_address: Some(String::from_str("0x3c61369ef0D1D2AFa70d8feC2F31C5D6Ce134F30")),
        tick_lens_address: Some(String::from_str("0x1acB873Ee909D0c98adB18e4474943249F931b92")),
        swap_router02_address: Some(String::from_str("0x8357227D4eDc78991Db6FDB9bD6ADE250536dE1d")),
        v1_mixed_route_quoter_address: None,
    }
}
/// The table row for a chain, or nothing for a chain without a
/// deployment.
pub fn chain_to_addresses(chain_id: u32) -> (r: Option<ChainAddresses>)
    ensures
        r is Some <==> table_has(chain_id),
        r matches Some(ca) ==> {
            &&& ca.v3_core_factory_address@ == v3_core_factory_of(chain_id)
            &&& ca.multicall_address@ == multicall_of(chain_id)
            &&& ca.quoter_address@ == quoter_of(chain_id)
            &&& (ca.v3_migrator_address matches Some(a) && a@ == v3_migrator_of(chain_id))
            &&& (ca.nonfungible_position_manager_address matches Some(a) && a@
                == position_manager_of(chain_id))
            &&& opt_view(ca.tick_lens_address) == tick_lens_of(chain_id)
            &&& opt_view(ca.swap_router02_address) == swap_router02_of(chain_id)
            &&& opt_view(ca.v1_mixed_route_quoter_address) == mixed_route_quoter_of(chain_id)
        },
{
    if chain_id == 1 {
        Some(mainnet_address())
    } else if chain_id == 5 {
        Some(goerli_address())
    } else if chain_id == 10 {
        Some(optimism_addresses())
    } else if chain_id == 420 {
        Some(optimism_goerli_addresses())
    } else if chain_id == 42161 {
        Some(arbitum_one_addresses())
    } else if chain_id == 421613 {
        Some(arbitrum_goerli_addresses())
    } else if chain_id == 137 || chain_id == 80001 {
        Some(polygon_addresses())
    } else if chain_id == 42220 || chain_id == 44787 {
        Some(celo_addresses())
    } else if chain_id == 56 {
        Some(bnb_addresses())
    } else if chain_id == 43114 {
        Some(avalanche_addresses())
    } else if chain_id == 11155111 {
        Some(sepolia_address())
    } else if chain_id == 8453 {
        Some(base_addresses())
    } else if chain_id == 84531 {
        Some(base_goerli_addresses())
    } else {
        None
    }
}

/// Selects one column of the address table.
#[derive(Clone, Copy, Debug, PartialEq, Eq, Structural)]
pub enum AddressField {
    /// The core factory contract.
    V3CoreFactory,
    /// The multicall contract.
    Multicall,
    /// The quoter contract.
    Quoter,
    /// The migrator contract.
    V3Migrator,
    /// The position-manager contract.
    PositionManager,
    /// The tick-lens contract.
    TickLens,
    /// The router contract.
    SwapRouter02,
    /// The mixed-route quoter contract.
    MixedRouteQuoter,
}

/// One column of a chain's table row, or nothing for a chain without a
/// deployment or without that contract.
pub open spec fn table_field_of(which: AddressField, k: u32) -> Option<Seq<char>> {
    if !table_has(k) {
        None
    } else {
        match which {
            AddressField::V3CoreFactory => Some(v3_core_factory_of(k)),
            AddressField::Multicall => Some(multicall_of(k)),
            AddressField::Quoter => Some(quoter_of(k)),
            AddressField::V3Migrator => Some(v3_migrator_of(k)),
            AddressField::PositionManager => Some(position_manager_of(k)),
            AddressField::TickLens => tick_lens_of(k),
            AddressField::SwapRouter02 => swap_router02_of(k),
            AddressField::MixedRouteQuoter => mixed_route_quoter_of(k),
        }
    }
}

/// The map from each chain with the selected contract to its address.
pub fn collect_field(which: AddressField) -> (r: ChainAddress)
    ensures
        forall|k: u32| r@.contains_key(k) <==> #[trigger] table_field_of(which, k) is Some,
        forall|k: u32| r@.contains_key(k) ==> Some(#[trigger] r@[k]@) == table_field_of(which, k),
{
    let chains = supported_chains();
    let n = chains.len();
    let mut m: ChainAddress = HashMap::new();
    let mut i: usize = 0;
    while i < n
        invariant
            n == chains@.len(),
            chains@ == supported_chain_seq(),
            0 <= i <= n,
            forall|k: u32| m@.contains_key(k) <==> (#[trigger] table_field_of(which, k) is Some
                && exists|j: int| 0 <= j < i && supported_chain_seq()[j].spec_id() == k),
            forall|k: u32| m@.contains_key(k) ==> Some(#[trigger] m@[k]@) == table_field_of(
                which,
                k,
            ),
        decreases n - i,
    {
        let id = chains[i].id();
        match chain_to_addresses(id) {
            Some(ca) => {
                let field: Option<String> = match which {
                    AddressField::V3CoreFactory => Some(ca.v3_core_factory_address),
                    AddressField::Multicall => Some(ca.multicall_address),
                    AddressField::Quoter => Some(ca.quoter_address),
                    AddressField::V3Migrator => ca.v3_migrator_address,
                    AddressField::PositionManager => ca.nonfungible_position_manager_address,
                    AddressField::TickLens => ca.tick_lens_address,
                    AddressField::SwapRouter02 => ca.swap_router02_address,
                    AddressField::MixedRouteQuoter => ca.v1_mixed_route_quoter_address,
                };
                match field {
                    Some(addr) => {
                        proof {
                            assert(Some(addr@) == table_field_of(which, id));
                        }
                        m.insert(id, addr);
                        proof {
                            assert(supported_chain_seq()[i as int].spec_id() == id);
                        }
                    },
                    None => {
                    },
                }
            },
            None => {
            },
        }
        i = i + 1;
        proof {
            assert forall|k: u32|
                (#[trigger] table_field_of(which, k) is Some && exists|j: int| 0 <= j < i
                    && supported_chain_seq()[j].spec_id() == k) implies m@.contains_key(k) by {
                let j = choose|j: int| 0 <= j < i && supported_chain_seq()[j].spec_id() == k;
                if j < i - 1 {
                    assert(exists|j2: int| 0 <= j2 < i - 1 && supported_chain_seq()[j2].spec_id()
                        == k);
                }
            }
        }
    }
    proof {
        assert forall|k: u32| #[trigger] table_field_of(which, k) is Some implies m@.contains_key(
            k,
        ) by {
            if table_has(k) {
                if k == 1 {
                    assert(supported_chain_seq()[0].spec_id() == k);
                } else if k == 10 {
                    assert(supported_chain_seq()[1].spec_id() == k);
                } else if k == 420 {
                    assert(supported_chain_seq()[2].spec_id() == k);
                } else if k == 42161 {
                    assert(supported_chain_seq()[4].spec_id() == k);
                } else if k == 421613 {
                    assert(supported_chain_seq()[5].spec_id() == k);
                } else if k == 137 {
                    assert(supported_chain_seq()[7].spec_id() == k);
                } else if k == 80001 {
                    assert(supported_chain_seq()[8].spec_id() == k);
                } else if k == 5 {
                    assert(supported_chain_seq()[9].spec_id() == k);
                } else if k == 11155111 {
                    assert(supported_chain_seq()[10].spec_id() == k);
                } else if k == 44787 {
                    assert(supported_chain_seq()[11].spec_id() == k);
                } else if k == 42220 {
                    assert(supported_chain_seq()[12].spec_id() == k);
                } else if k == 56 {
                    assert(supported_chain_seq()[13].spec_id() == k);
                } else if k == 43114 {
                    assert(supported_chain_seq()[14].spec_id() == k);
                } else if k == 8453 {
                    assert(supported_chain_seq()[15].spec_id() == k);
                } else if k == 84531 {
                    assert(supported_chain_seq()[16].spec_id() == k);
                }
            }
        }
    }
    m
}

/// The core factory address of every chain with a deployment.
pub fn v3_factory_addresses() -> (r: ChainAddress)
    ensures
        forall|k: u32| r@.contains_key(k) <==> #[trigger] table_field_of(
            AddressField::V3CoreFactory,
            k,
        ) is Some,
        forall|k: u32| r@.contains_key(k) ==> Some(#[trigger] r@[k]@) == table_field_of(
            AddressField::V3CoreFactory,
            k,
        ),
{
    collect_field(AddressField::V3CoreFactory)
}

/// The migrator address of every chain with a deployment.
pub fn v3_migrator_addresses() -> (r: ChainAddress)
    ensures
        forall|k: u32| r@.contains_key(k) <==> #[trigger] table_field_of(
            AddressField::V3Migrator,
            k,
        ) is Some,
        forall|k: u32| r@.contains_key(k) ==> Some(#[trigger] r@[k]@) == table_field_of(
            AddressField::V3Migrator,
            k,
        ),
{
    collect_field(AddressField::V3Migrator)
}

/// The multicall address of every chain with a deployment.
pub fn multicall_addresses() -> (r: ChainAddress)
    ensures
        forall|k: u32| r@.contains_key(k) <==> #[trigger] table_field_of(
            AddressField::Multicall,
            k,
        ) is Some,
        forall|k: u32| r@.contains_key(k) ==> Some(#[trigger] r@[k]@) == table_field_of(
            AddressField::Multicall,
            k,
        ),
{
    collect_field(AddressField::Multicall)
}

/// The quoter address of every chain with a deployment.
pub fn quoter_address() -> (r: ChainAddress)
    ensures
        forall|k: u32| r@.contains_key(k) <==> #[trigger] table_field_of(
            AddressField::Quoter,
            k,
        ) is Some,
        forall|k: u32| r@.contains_key(k) ==> Some(#[trigger] r@[k]@) == table_field_of(
            AddressField::Quoter,
            k,
        ),
{
    collect_field(AddressField::Quoter)
}

/// The position-manager address of every chain that deployed one.
pub fn nonfungible_position_manager_address() -> (r: ChainAddress)
    ensures
        forall|k: u32| r@.contains_key(k) <==> #[trigger] table_field_of(
            AddressField::PositionManager,
            k,
        ) is Some,
        forall|k: u32| r@.contains_key(k) ==> Some(#[trigger] r@[k]@) == table_field_of(
            AddressField::PositionManager,
            k,
        ),
{
    collect_field(AddressField::PositionManager)
}

/// The tick-lens address of every chain that deployed one.
pub fn tick_lens_addresses() -> (r: ChainAddress)
    ensures
        forall|k: u32| r@.contains_key(k) <==> #[trigger] table_field_of(
            AddressField::TickLens,
            k,
        ) is Some,
        forall|k: u32| r@.contains_key(k) ==> Some(#[trigger] r@[k]@) == table_field_of(
            AddressField::TickLens,
            k,
        ),
{
    collect_field(AddressField::TickLens)
}

/// The mixed-route quoter address of every chain that deployed one.
pub fn v1_mixed_route_quoter_address() -> (r: ChainAddress)
    ensures
        forall|k: u32| r@.contains_key(k) <==> #[trigger] table_field_of(
            AddressField::MixedRouteQuoter,
            k,
        ) is Some,
        forall|k: u32| r@.contains_key(k) ==> Some(#[trigger] r@[k]@) == table_field_of(
            AddressField::MixedRouteQuoter,
            k,
        ),
{
    collect_field(AddressField::MixedRouteQuoter)
}

/// The router address for a chain: the table's entry for the chain that
/// has its own deployment, and the shared deployment for every other.
pub fn swap_router02_address(chain_id: u32) -> (r: String)
    ensures
        chain_id == 56 ==> r@ == "0xB971eF87ede563556b2ED4b1C0b0019111Dd85d2"@,
        chain_id != 56 ==> r@ == "0x68b3465833fb72A70ecDF485E0e4C7bD8665Fc45"@,
{
    if chain_id == 56 {
        match chain_to_addresses(chain_id) {
            Some(ca) => match ca.swap_router02_address {
                Some(a) => a,
                None => {
                    proof {
                        assert(false);
                    }
                    String::from_str("0x68b3465833fb72A70ecDF485E0e4C7bD8665Fc45")
                },
            },
            None => {
                proof {
                    assert(false);
                }
                String::from_str("0x68b3465833fb72A70ecDF485E0e4C7bD8665Fc45")
            },
        }
    } else {
        String::from_str("0x68b3465833fb72A70ecDF485E0e4C7bD8665Fc45")
    }
}

/// The default networks every shared deployment covers.
pub fn default_networks() -> (r: Vec<ChainId>)
    ensures
        r@ == seq![ChainId::MAINNET, ChainId::GOERLI, ChainId::SEPOLIA],
{
    let mut v: Vec<ChainId> = Vec::new();
    v.push(ChainId::MAINNET);
    v.push(ChainId::GOERLI);
    v.push(ChainId::SEPOLIA);
    proof {
        assert(v@ =~= seq![ChainId::MAINNET, ChainId::GOERLI, ChainId::SEPOLIA]);
    }
    v
}

/// The map that binds one shared address to the default networks and to
/// the given additional ones.
pub fn construct_same_address_map(address: &str, additional_networks: &[ChainId]) -> (r:
    AddressMap)
    ensures
        forall|k: u32| r@.contains_key(k) <==> (k == 1 || k == 5 || k == 11155111 || exists|j: int|
            0 <= j < additional_networks@.len() && additional_networks@[j].spec_id() == k),
        forall|k: u32| #[trigger] r@.contains_key(k) ==> r@[k]@ == address@,
{
    let mut m: AddressMap = HashMap::new();
    m.insert(1, String::from_str(address));
    m.insert(5, String::from_str(address));
    m.insert(11155111, String::from_str(address));
    let n = additional_networks.len();
    let mut i: usize = 0;
    while i < n
        invariant
            n == additional_networks@.len(),
            0 <= i <= n,
            forall|k: u32| m@.contains_key(k) <==> (k == 1 || k == 5 || k == 11155111 || exists|
                j: int,
            | 0 <= j < i && additional_networks@[j].spec_id() == k),
            forall|k: u32| #[trigger] m@.contains_key(k) ==> m@[k]@ == address@,
        decreases n - i,
    {
        let id = additional_networks[i].id();
        m.insert(id, String::from_str(address));
        i = i + 1;
        proof {
            assert(additional_networks@[i - 1].spec_id() == id);
            assert forall|k: u32|
                (k == 1 || k == 5 || k == 11155111 || exists|j: int| 0 <= j < i
                    && additional_networks@[j].spec_id() == k) implies m@.contains_key(k) by {
                if k != 1 && k != 5 && k != 11155111 && k != id {
                    let j = choose|j: int| 0 <= j < i && additional_networks@[j].spec_id() == k;
                    assert(0 <= j < i - 1 && additional_networks@[j].spec_id() == k);
                }
            }
        }
    }
    m
}

/// The governance address shared by the default networks.
pub fn governance_alpha_v0_addresses() -> (r: AddressMap)
    ensures
        forall|k: u32| r@.contains_key(k) <==> (k == 1 || k == 5 || k == 11155111),
        forall|k: u32| #[trigger] r@.contains_key(k) ==> r@[k]@
            == "0x5e4be8Bc9637f0EAA1A755019e06A68ce081D58F"@,
{
    let empty: Vec<ChainId> = Vec::new();
    construct_same_address_map("0x5e4be8Bc9637f0EAA1A755019e06A68ce081D58F", &empty)
}

/// The governance address deployed on the main network alone.
pub fn governance_alpha_v1_addresses() -> (r: AddressMap)
    ensures
        forall|k: u32| r@.contains_key(k) <==> k == 1,
        forall|k: u32| #[trigger] r@.contains_key(k) ==> r@[k]@
            == "0xC4e172459f1E7939D522503B81AFAaC1014CE6F6"@,
{
    let mut m: AddressMap = HashMap::new();
    m.insert(1, String::from_str("0xC4e172459f1E7939D522503B81AFAaC1014CE6F6"));
    m
}

/// The governance address deployed on the main network alone.
pub fn governance_bravo_addresses() -> (r: AddressMap)
    ensures
        forall|k: u32| r@.contains_key(k) <==> k == 1,
        forall|k: u32| #[trigger] r@.contains_key(k) ==> r@[k]@
            == "0x408ED6354d4973f66138C91495F2f2FCbd8724C3"@,
{
    let mut m: AddressMap = HashMap::new();
    m.insert(1, String::from_str("0x408ED6354d4973f66138C91495F2f2FCbd8724C3"));
    m
}

/// The timelock address shared by the default networks.
pub fn timelock_addresses() -> (r: AddressMap)
    ensures
        forall|k: u32| r@.contains_key(k) <==> (k == 1 || k == 5 || k == 11155111),
        forall|k: u32| #[trigger] r@.contains_key(k) ==> r@[k]@
            == "0x1a9C8182C09F50C8318d769245beA5"@,
{
    let empty: Vec<ChainId> = Vec::new();
    construct_same_address_map("0x1a9C8182C09F50C8318d769245beA5", &empty)
}

/// The distributor address deployed on the main network alone.
pub fn merkle_distributor_address() -> (r: AddressMap)
    ensures
        forall|k: u32| r@.contains_key(k) <==> k == 1,
        forall|k: u32| #[trigger] r@.contains_key(k) ==> r@[k]@
            == "0x090D4613473dEE047c3f2706764f49E0821D256e"@,
{
    let mut m: AddressMap = HashMap::new();
    m.insert(1, String::from_str("0x090D4613473dEE047c3f2706764f49E0821D256e"));
    m
}

/// The wallet-detector address deployed on the main network alone.
pub fn argent_wallet_detector_address() -> (r: AddressMap)
    ensures
        forall|k: u32| r@.contains_key(k) <==> k == 1,
        forall|k: u32| #[trigger] r@.contains_key(k) ==> r@[k]@
            == "0xeca4B0bDBf7c55E9b7925919d03CbF8Dc82537E8"@,
{
    let mut m: AddressMap = HashMap::new();
    m.insert(1, String::from_str("0xeca4B0bDBf7c55E9b7925919d03CbF8Dc82537E8"));
    m
}

/// The name-register address shared by the default networks.
pub fn ens_resgister_address_map() -> (r: AddressMap)
    ensures
        forall|k: u32| r@.contains_key(k) <==> (k == 1 || k == 5 || k == 11155111),
        forall|k: u32| #[trigger] r@.contains_key(k) ==> r@[k]@
            == "0x00000000000C2E074eC69A0dFb2997BA6C7d2e1e"@,
{
    let empty: Vec<ChainId> = Vec::new();
    construct_same_address_map("0x00000000000C2E074eC69A0dFb2997BA6C7d2e1e", &empty)
}

/// The socks-controller address deployed on the main network alone.
pub fn socks_controller_addresses() -> (r: AddressMap)
    ensures
        forall|k: u32| r@.contains_key(k) <==> k == 1,
        forall|k: u32| #[trigger] r@.contains_key(k) ==> r@[k]@
            == "0x65770b5283117639760beA3F867b69b3697a91dd"@,
{
    let mut m: AddressMap = HashMap::new();
    m.insert(1, String::from_str("0x65770b5283117639760beA3F867b69b3697a91dd"));
    m
}

} // verus!
