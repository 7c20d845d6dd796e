use invariant_harness::chain::{best_swap_path, get_router_and_weth, get_rpc_url, plan_purchase, Purchase, SwapHop};
use invariant_harness::driver::{classify_artifact, is_test_function, test_functions, Artifact, Deployments};
use invariant_harness::recorder::CallRecorder;
use invariant_harness::types::{Address, Word};

fn addr(n: u8) -> Address {
    Address::new([n; 20])
}

fn hex_addr(s: &str) -> Address {
    let v = hex::decode(s.trim_start_matches("0x")).unwrap();
    let mut b = [0u8; 20];
    b.copy_from_slice(&v);
    Address::new(b)
}

#[test]
fn known_chains_have_endpoints() {
    assert_eq!(get_rpc_url("ETH".to_string()), Some("https://eth.llamarpc.com"));
    assert_eq!(get_rpc_url("BSC".to_string()), Some("https://bsc-dataseed.binance.org/"));
    assert_eq!(get_rpc_url("BSC_TESTNET".to_string()), Some("https://data-seed-prebsc-1-s1.binance.org:8545/"));
    assert_eq!(get_rpc_url("POLYGON".to_string()), Some("https://rpc-mainnet.maticvigil.com/"));
    assert_eq!(get_rpc_url("MUMBAI".to_string()), Some("https://rpc-mumbai.maticvigil.com/"));
    assert_eq!(get_rpc_url("ARBITRUM".to_string()), Some("https://arb1.arbitrum.io/rpc"));
}

#[test]
fn unknown_chain_has_no_endpoint() {
    assert_eq!(get_rpc_url("eth".to_string()), None);
    assert_eq!(get_rpc_url(String::new()), None);
}

#[test]
fn router_and_weth_of_networks() {
    let (router, weth, id) = get_router_and_weth("ETH").unwrap();
    assert_eq!(router, hex_addr("0x7a250d5630b4cf539739df2c5dacb4c659f2488d"));
    assert_eq!(weth, hex_addr("0xc02aaa39b223fe8d0a0e5c4f27ead9083c756cc2"));
    assert_eq!(id, 1);
    let (_, weth, id) = get_router_and_weth("POLYGON").unwrap();
    assert_eq!(weth, hex_addr("0x0d500b1d8e8ef31e21c99d1db9a6444d3adf1270"));
    assert_eq!(id, 137);
    assert_eq!(get_router_and_weth("BSC").unwrap().2, 56);
    assert!(get_router_and_weth("ARBITRUM").is_none());
}

#[test]
fn buying_weth_is_a_deposit() {
    let weth = hex_addr("0xc02aaa39b223fe8d0a0e5c4f27ead9083c756cc2");
    let mut amount = [0u8; 32];
    amount[31] = 100;
    match plan_purchase(&weth, Word::new(amount), "ETH") {
        Some(Purchase::Deposit { value, to, data }) => {
            assert_eq!(value, Word::new(amount));
            assert_eq!(to, weth);
            assert_eq!(data, vec![0xd0, 0xe3, 0x0d, 0xb0]);
        },
        _ => panic!("expected a deposit"),
    }
}

#[test]
fn buying_another_token_is_a_swap() {
    let token = hex_addr("0xf3ae5d769e153ef72b4e3591ac004e89f48107a1");
    assert!(matches!(plan_purchase(&token, Word::zero(), "ETH"), Some(Purchase::Swap { chain_id: 1 })));
    assert!(matches!(plan_purchase(&token, Word::zero(), "BSC"), Some(Purchase::Swap { chain_id: 56 })));
    assert!(plan_purchase(&token, Word::zero(), "MUMBAI").is_none());
}

#[test]
fn test_prefix() {
    assert!(is_test_function("test_always_true"));
    assert!(is_test_function("test_"));
    assert!(!is_test_function("test"));
    assert!(!is_test_function("invariant_test_x"));
    assert!(!is_test_function("Test_x"));
}

#[test]
fn test_functions_keep_order() {
    let names = vec![
        "test_b".to_string(),
        "helper".to_string(),
        "test_a".to_string(),
        "tes".to_string(),
    ];
    assert_eq!(test_functions(&names), vec!["test_b".to_string(), "test_a".to_string()]);
    assert!(test_functions(&Vec::new()).is_empty());
}

#[test]
fn artifacts_by_extension() {
    assert!(matches!(classify_artifact("out/Inv.abi"), Artifact::Abi(s) if s == "out/Inv"));
    assert!(matches!(classify_artifact("out/Inv.bin"), Artifact::Bin(s) if s == "out/Inv"));
    assert!(matches!(classify_artifact("out/Inv.json"), Artifact::Other));
    assert!(matches!(classify_artifact(".bi"), Artifact::Other));
    assert!(matches!(classify_artifact(".abi"), Artifact::Abi(s) if s.is_empty()));
}

#[test]
fn deployments_by_stem() {
    let mut d = Deployments::new();
    d.record("a".to_string(), addr(1));
    d.record("b".to_string(), addr(2));
    d.record("a".to_string(), addr(3));
    assert_eq!(d.len(), 3);
    assert_eq!(d.address_at(1), addr(2));
    assert_eq!(d.address_of(&"a".to_string()), Some(addr(3)));
    assert_eq!(d.address_of(&"b".to_string()), Some(addr(2)));
    assert_eq!(d.address_of(&"c".to_string()), None);
}

fn transfer_from_data(src: &Address, dst: &Address) -> Vec<u8> {
    let mut d = vec![0x23, 0xb8, 0x72, 0xdd];
    d.extend([0u8; 12]);
    d.extend(src.bytes);
    d.extend([0u8; 12]);
    d.extend(dst.bytes);
    d.extend([0u8; 32]);
    d
}

#[test]
fn transfer_adds_recipient() {
    let mut r = CallRecorder::new();
    let mut d = vec![0xa9, 0x05, 0x9c, 0xbb];
    d.extend([0u8; 12]);
    d.extend(addr(7).bytes);
    d.extend([0u8; 32]);
    r.observe_erc20(&d, addr(9));
    assert_eq!(r.erc20_affected, vec![(addr(7), addr(9))]);
}

#[test]
fn transfer_from_adds_recipient_then_sender() {
    let mut r = CallRecorder::new();
    r.observe_erc20(&transfer_from_data(&addr(5), &addr(6)), addr(9));
    // The sender is read from bytes 12..32 of the calldata.
    let mut sender = [5u8; 20];
    sender[..4].copy_from_slice(&[0, 0, 0, 0]);
    assert_eq!(r.erc20_affected, vec![(addr(6), addr(9)), (Address::new(sender), addr(9))]);
}

#[test]
fn other_calls_add_no_flow() {
    let mut r = CallRecorder::new();
    r.observe_erc20(&[0x09, 0x5e, 0xa7, 0xb3, 0, 0], addr(9));
    r.observe_erc20(&[0xa9, 0x05, 0x9c], addr(9));
    r.observe_erc20(&[], addr(9));
    r.observe_erc20(&[0xa9, 0x05, 0x9c, 0xbb, 1, 2], addr(9));
    assert!(r.erc20_affected.is_empty());
}

#[test]
fn record_call_traces_and_observes() {
    let mut r = CallRecorder::new();
    let d = transfer_from_data(&addr(5), &addr(6));
    r.record_call(addr(9), &d);
    assert_eq!(r.call_traces, vec![(addr(9), d)]);
    assert_eq!(r.erc20_affected.len(), 2);
    r.clear();
    assert!(r.call_traces.is_empty());
    assert!(r.erc20_affected.is_empty());
}

#[test]
fn address_word_helpers() {
    let a = Address::from_slice_at(&[0, 1, 2, 3, 4, 5, 6, 7, 8, 9, 10, 11, 12, 13, 14, 15, 16, 17, 18, 19, 20, 21], 2);
    assert_eq!(a.bytes[0], 2);
    assert_eq!(a.bytes[19], 21);
    let w = a.to_word_bytes();
    assert_eq!(w.len(), 32);
    assert_eq!(&w[..12], &[0u8; 12]);
    assert_eq!(&w[12..], &a.bytes);
    assert!(a != addr(2));
    assert_eq!(Word::zero().to_bytes(), vec![0u8; 32]);
}

fn hop(parts: usize, from: u8, to: u8) -> SwapHop {
    SwapHop { parts, from_token: addr(from), to_token: addr(to) }
}

#[test]
fn best_swap_path_takes_first_shortest_single_pool_route() {
    let routes = vec![
        vec![hop(1, 1, 2), hop(1, 2, 3), hop(1, 3, 4)],
        vec![hop(2, 1, 4)],
        vec![hop(1, 1, 5), hop(1, 5, 4)],
        vec![hop(1, 1, 6), hop(1, 6, 4)],
    ];
    assert_eq!(best_swap_path(&routes), Some(vec![addr(1), addr(5), addr(4)]));
}

#[test]
fn best_swap_path_without_proper_route() {
    assert_eq!(best_swap_path(&vec![vec![hop(2, 1, 4)], vec![hop(1, 1, 2), hop(3, 2, 4)]]), None);
    assert_eq!(best_swap_path(&Vec::new()), None);
    assert_eq!(best_swap_path(&vec![vec![hop(1, 1, 2)], vec![]]), None);
}
