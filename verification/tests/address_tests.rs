use dex_core::addresses::{
    argent_wallet_detector_address, chain_to_addresses, construct_same_address_map,
    governance_alpha_v0_addresses, governance_alpha_v1_addresses, mainnet_address,
    multicall_addresses, swap_router02_address, tick_lens_addresses, v1_mixed_route_quoter_address,
    v3_factory_addresses, v3_migrator_addresses,
};
use dex_core::chains::{supported_chains, ChainId, NativeCurrencyName};

#[test]
fn test_chain_ids() {
    assert_eq!(ChainId::MAINNET.id(), 1);
    assert_eq!(ChainId::SEPOLIA.id(), 11155111);
    assert_eq!(ChainId::BNB.id(), 56);
    assert_eq!(ChainId::ROOTSTOCK.id(), 30);
    let chains = supported_chains();
    assert_eq!(chains.len(), 20);
    assert_eq!(chains[0], ChainId::MAINNET);
    assert_eq!(chains[19], ChainId::ROOTSTOCK);
    assert_ne!(NativeCurrencyName::ETHER, NativeCurrencyName::AVAX);
}

#[test]
fn test_mainnet_addresses() {
    let ca = mainnet_address();
    assert_eq!(
        ca.v3_core_factory_address,
        "0x1F98431c8aD98523631AE4a59f267346ea31F984"
    );
    assert_eq!(
        ca.v1_mixed_route_quoter_address.unwrap(),
        "0x84E44095eeBfEC7793Cd7d5b57B7e401D7f1cA2E"
    );
    assert!(ca.tick_lens_address.is_none());
}

#[test]
fn test_chain_to_addresses_lookup() {
    let bnb = chain_to_addresses(56).unwrap();
    assert_eq!(
        bnb.swap_router02_address.unwrap(),
        "0xB971eF87ede563556b2ED4b1C0b0019111Dd85d2"
    );
    let celo = chain_to_addresses(42220).unwrap();
    assert_eq!(
        celo.quoter_address,
        "0x82825d0554fA07f7FC52Ab63c961F330fdEFa8E8"
    );
    assert!(chain_to_addresses(7777777).is_none());
    assert!(chain_to_addresses(2).is_none());
}

#[test]
fn test_factory_map_covers_table_chains() {
    let m = v3_factory_addresses();
    assert_eq!(m.len(), 15);
    assert_eq!(
        m.get(&1).unwrap(),
        "0x1F98431c8aD98523631AE4a59f267346ea31F984"
    );
    assert_eq!(
        m.get(&84531).unwrap(),
        "0x9323c1d6D800ed51Bd7C6B216cfBec678B7d0BC2"
    );
    assert!(m.get(&30).is_none());
    let migrators = v3_migrator_addresses();
    assert_eq!(migrators.len(), 15);
    let multicalls = multicall_addresses();
    assert_eq!(
        multicalls.get(&42161).unwrap(),
        "0xadF885960B47eA2CD9B55E6DAc6B42b7Cb2806dB"
    );
}

#[test]
fn test_optional_contract_maps() {
    let ticks = tick_lens_addresses();
    assert_eq!(ticks.len(), 10);
    assert!(ticks.get(&1).is_none());
    assert_eq!(
        ticks.get(&42161).unwrap(),
        "0xbfd8137f7d1516D3ea5cA83523914859ec47F573"
    );
    let mixed = v1_mixed_route_quoter_address();
    assert_eq!(mixed.len(), 2);
    assert_eq!(
        mixed.get(&5).unwrap(),
        "0xBa60b6e6fF25488308789E6e0A65D838be34194e"
    );
}

#[test]
fn test_swap_router_address() {
    assert_eq!(
        swap_router02_address(56),
        "0xB971eF87ede563556b2ED4b1C0b0019111Dd85d2"
    );
    assert_eq!(
        swap_router02_address(1),
        "0x68b3465833fb72A70ecDF485E0e4C7bD8665Fc45"
    );
}

#[test]
fn test_construct_same_address_map() {
    let extra = vec![ChainId::OPTIMISM, ChainId::POLYGON];
    let m = construct_same_address_map("0x1f9840a85d5aF5bf1D1762F925BDADdC4201F984", &extra);
    assert_eq!(m.len(), 5);
    assert_eq!(
        m.get(&10).unwrap(),
        "0x1f9840a85d5aF5bf1D1762F925BDADdC4201F984"
    );
    assert_eq!(
        m.get(&1).unwrap(),
        "0x1f9840a85d5aF5bf1D1762F925BDADdC4201F984"
    );
    assert!(m.get(&56).is_none());
}

#[test]
fn test_construct_same_address_map_repeated_network() {
    let extra = vec![ChainId::MAINNET, ChainId::MAINNET];
    let m = construct_same_address_map("0x5C69bEe701ef814a2B6a3EDD4B1652CB9cc5aA6f", &extra);
    assert_eq!(m.len(), 3);
    assert_eq!(
        m.get(&1).unwrap(),
        "0x5C69bEe701ef814a2B6a3EDD4B1652CB9cc5aA6f"
    );
}

#[test]
fn test_single_chain_maps() {
    let v0 = governance_alpha_v0_addresses();
    assert_eq!(v0.len(), 3);
    assert_eq!(
        v0.get(&11155111).unwrap(),
        "0x5e4be8Bc9637f0EAA1A755019e06A68ce081D58F"
    );
    let v1 = governance_alpha_v1_addresses();
    assert_eq!(v1.len(), 1);
    assert_eq!(
        v1.get(&1).unwrap(),
        "0xC4e172459f1E7939D522503B81AFAaC1014CE6F6"
    );
    let argent = argent_wallet_detector_address();
    assert_eq!(
        argent.get(&1).unwrap(),
        "0xeca4B0bDBf7c55E9b7925919d03CbF8Dc82537E8"
    );
}
