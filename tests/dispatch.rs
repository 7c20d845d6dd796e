use invariant_harness::context::{context_address, context_fn_of_name, ContextFn, ContextTable};
use invariant_harness::host::{CallPlan, HostFault, TestHost};
use invariant_harness::overlay::SlotRead;
use invariant_harness::types::{Address, Word};

const SEL_CALLER: [u8; 4] = [0x10, 0, 0, 1];
const SEL_TARGET: [u8; 4] = [0x10, 0, 0, 2];
const SEL_VALUE: [u8; 4] = [0x10, 0, 0, 3];
const SEL_DATA: [u8; 4] = [0x10, 0, 0, 4];
const SEL_CONTRACTS: [u8; 4] = [0x10, 0, 0, 5];
const SEL_ERC20: [u8; 4] = [0x10, 0, 0, 6];
const SEL_PREV: [u8; 4] = [0x10, 0, 0, 7];
const SEL_TEST: [u8; 4] = [0x10, 0, 0, 8];

fn word(n: u8) -> Word {
    let mut b = [0u8; 32];
    b[31] = n;
    Word::new(b)
}

fn addr(n: u8) -> Address {
    Address::new([n; 20])
}

fn table() -> ContextTable {
    let mut t = ContextTable::new();
    t.register(SEL_CALLER, "get_caller");
    t.register(SEL_TARGET, "get_target");
    t.register(SEL_VALUE, "get_value");
    t.register(SEL_DATA, "get_data");
    t.register(SEL_CONTRACTS, "get_affected_contracts");
    t.register(SEL_ERC20, "get_affected_accounts_ierc20");
    t.register(SEL_PREV, "call_prev_state");
    t.register(SEL_TEST, "test_call");
    t.register([0x10, 0, 0, 9], "not_a_context_function");
    t
}

fn eth_addr(a: &Address) -> ethabi::Token {
    ethabi::Token::Address(ethabi::Address::from(a.bytes))
}

fn run_args(sel: [u8; 4], target: &Address, caller: &Address, data: &[u8], value: u64) -> Vec<u8> {
    let mut input = sel.to_vec();
    input.extend(ethabi::encode(&[
        eth_addr(target),
        eth_addr(caller),
        ethabi::Token::Bytes(data.to_vec()),
        ethabi::Token::Uint(ethabi::Uint::from(value)),
    ]));
    input
}

fn reply(plan: CallPlan) -> Vec<u8> {
    match plan {
        CallPlan::Reply(b) => b,
        _ => panic!("expected a reply"),
    }
}

fn transfer_data(dst: &Address, amount: u8) -> Vec<u8> {
    let mut d = vec![0xa9, 0x05, 0x9c, 0xbb];
    d.extend([0u8; 12]);
    d.extend(dst.bytes);
    d.extend([0u8; 31]);
    d.push(amount);
    d
}

/// Starts a test call made by `invariant` that asks to call `target` with `data`.
fn begin_test(host: &mut TestHost<Vec<u8>>, invariant: &Address, target: &Address, data: &[u8]) -> Vec<u8> {
    let input = run_args(SEL_TEST, target, &addr(0x77), data, 3);
    match host.plan_call(context_address(), *invariant, word(0), &input) {
        CallPlan::Test(args) => {
            assert_eq!(args.target, *target);
            assert_eq!(args.caller, addr(0x77));
            assert_eq!(args.data, data.to_vec());
            assert_eq!(args.value, word(3));
        },
        _ => panic!("expected a test call"),
    }
    input
}

#[test]
fn context_names_are_read() {
    assert_eq!(context_fn_of_name("get_caller"), Some(ContextFn::GetCaller));
    assert_eq!(context_fn_of_name("test_call"), Some(ContextFn::TestCall));
    assert_eq!(context_fn_of_name("get_affected_accounts_ierc20"), Some(ContextFn::GetAffectedAccountsIerc20));
    assert_eq!(context_fn_of_name("getCaller"), None);
    assert_eq!(context_fn_of_name(""), None);
}

#[test]
fn selector_table_lookup() {
    let t = table();
    assert_eq!(t.select(&[0x10, 0, 0, 1, 0xff]), Some(ContextFn::GetCaller));
    assert_eq!(t.select(&[0x10, 0, 0, 8]), Some(ContextFn::TestCall));
    assert_eq!(t.select(&[0x10, 0, 0, 9]), None);
    assert_eq!(t.select(&[0x10, 0, 0]), None);
}

#[test]
fn get_caller_returns_padded_caller() {
    let mut host: TestHost<Vec<u8>> = TestHost::new(table());
    let invariant = addr(0xab);
    begin_test(&mut host, &invariant, &addr(1), &[]);
    let out = reply(host.plan_call(context_address(), addr(1), word(0), &SEL_CALLER));
    let mut expected = vec![0u8; 12];
    expected.extend(invariant.bytes);
    assert_eq!(out, expected);
}

#[test]
fn get_target_and_value_reflect_the_test_call() {
    let mut host: TestHost<Vec<u8>> = TestHost::new(table());
    let input = run_args(SEL_TEST, &addr(1), &addr(2), &[], 0);
    assert!(matches!(host.plan_call(context_address(), addr(9), word(5), &input), CallPlan::Test(_)));
    let target = reply(host.plan_call(context_address(), addr(1), word(0), &SEL_TARGET));
    let mut expected = vec![0u8; 12];
    expected.extend(context_address().bytes);
    assert_eq!(target, expected);
    let value = reply(host.plan_call(context_address(), addr(1), word(0), &SEL_VALUE));
    assert_eq!(value, word(5).bytes.to_vec());
}

#[test]
fn get_data_returns_raw_calldata() {
    let mut host: TestHost<Vec<u8>> = TestHost::new(table());
    let input = begin_test(&mut host, &addr(0xab), &addr(1), &[0xde, 0xad]);
    let out = reply(host.plan_call(context_address(), addr(1), word(0), &SEL_DATA));
    assert_eq!(out, input);
}

#[test]
fn transfer_flow_is_reported() {
    let mut host: TestHost<Vec<u8>> = TestHost::new(table());
    let token = addr(0xa1);
    let dst = addr(0xb2);
    begin_test(&mut host, &addr(0xab), &addr(1), &[]);
    assert!(matches!(host.plan_call(token, addr(1), word(0), &transfer_data(&dst, 1)), CallPlan::Execute));
    host.end_call();
    let out = reply(host.plan_call(context_address(), addr(1), word(0), &SEL_ERC20));
    let expected = ethabi::encode(&[
        ethabi::Token::Array(vec![eth_addr(&dst)]),
        ethabi::Token::Array(vec![eth_addr(&token)]),
    ]);
    assert_eq!(out, expected);
}

#[test]
fn test_call_records_flow_of_its_own_calldata() {
    let mut host: TestHost<Vec<u8>> = TestHost::new(table());
    let token = addr(0xa1);
    let dst = addr(0xb2);
    begin_test(&mut host, &addr(0xab), &token, &transfer_data(&dst, 2));
    assert_eq!(host.recorder().erc20_affected, vec![(dst, token)]);
    assert!(host.recorder().call_traces.is_empty());
}

#[test]
fn affected_contracts_are_encoded() {
    let mut host: TestHost<Vec<u8>> = TestHost::new(table());
    begin_test(&mut host, &addr(0xab), &addr(1), &[]);
    assert!(matches!(host.plan_call(addr(3), addr(1), word(0), &[1, 2, 3]), CallPlan::Execute));
    let out = reply(host.plan_call(context_address(), addr(1), word(0), &SEL_CONTRACTS));
    let expected = ethabi::encode(&[
        ethabi::Token::Array(vec![eth_addr(&addr(3))]),
        ethabi::Token::Array(vec![ethabi::Token::Bytes(vec![1, 2, 3])]),
    ]);
    assert_eq!(out, expected);
}

#[test]
fn calls_outside_a_test_call_are_not_traced() {
    let mut host: TestHost<Vec<u8>> = TestHost::new(table());
    assert!(matches!(host.plan_call(addr(3), addr(1), word(0), &transfer_data(&addr(4), 1)), CallPlan::Execute));
    assert!(host.recorder().call_traces.is_empty());
    assert!(host.recorder().erc20_affected.is_empty());
}

#[test]
fn trace_keeps_execution_order_and_skips_context_calls() {
    let mut host: TestHost<Vec<u8>> = TestHost::new(table());
    begin_test(&mut host, &addr(0xab), &addr(1), &[]);
    assert!(matches!(host.plan_call(addr(3), addr(1), word(0), &[1]), CallPlan::Execute));
    assert!(matches!(host.plan_call(addr(4), addr(3), word(0), &[2]), CallPlan::Execute));
    host.end_call();
    assert_eq!(host.recorder().call_traces, vec![(addr(3), vec![1]), (addr(4), vec![2])]);
    assert!(!host.context().inside_contract_call);
    assert!(matches!(host.plan_call(addr(5), addr(1), word(0), &[3]), CallPlan::Execute));
    assert_eq!(host.recorder().call_traces.len(), 2);
}

#[test]
fn context_call_ends_tracing() {
    let mut host: TestHost<Vec<u8>> = TestHost::new(table());
    begin_test(&mut host, &addr(0xab), &addr(1), &[]);
    assert!(host.context().inside_contract_call);
    reply(host.plan_call(context_address(), addr(1), word(0), &SEL_CALLER));
    assert!(!host.context().inside_contract_call);
    assert!(host.recorder().call_traces.is_empty());
}

#[test]
fn test_call_starts_records_afresh() {
    let mut host: TestHost<Vec<u8>> = TestHost::new(table());
    begin_test(&mut host, &addr(0xab), &addr(1), &[]);
    assert!(matches!(host.plan_call(addr(3), addr(1), word(0), &transfer_data(&addr(4), 1)), CallPlan::Execute));
    assert_eq!(host.recorder().call_traces.len(), 1);
    let out = host.finish_test_call(&[7]);
    assert_eq!(out, ethabi::encode(&[ethabi::Token::Bytes(vec![7])]));
    begin_test(&mut host, &addr(0xab), &addr(1), &[]);
    assert!(host.recorder().call_traces.is_empty());
    assert!(host.recorder().erc20_affected.is_empty());
}

#[test]
fn prev_state_sees_storage_before_the_test_call() {
    let mut host: TestHost<Vec<u8>> = TestHost::new(table());
    let a = addr(0xa0);
    assert!(matches!(host.sload(&a, &word(7)), SlotRead::Fetch));
    host.record_fetched_slot(&a, &word(7), word(5));
    begin_test(&mut host, &addr(0xab), &a, &[]);
    host.sstore(&a, &word(7), word(42));
    let input = run_args(SEL_PREV, &a, &addr(0xab), &[0x01], 0);
    let saved = match host.plan_call(context_address(), addr(0xab), word(0), &input) {
        CallPlan::PrevState(args, saved) => {
            assert_eq!(args.target, a);
            assert_eq!(args.data, vec![0x01]);
            saved
        },
        _ => panic!("expected a call against the earlier state"),
    };
    match host.sload(&a, &word(7)) {
        SlotRead::Cached(v) => assert_eq!(v, word(5)),
        SlotRead::Fetch => panic!("the earlier state holds the slot"),
    }
    host.sstore(&a, &word(7), word(99));
    let out = host.finish_prev_state(saved, &word(5).bytes);
    assert_eq!(out, ethabi::encode(&[ethabi::Token::Bytes(word(5).bytes.to_vec())]));
    match host.sload(&a, &word(7)) {
        SlotRead::Cached(v) => assert_eq!(v, word(42)),
        SlotRead::Fetch => panic!("the live state holds the slot"),
    }
}

#[test]
fn unknown_selector_is_a_fault() {
    let mut host: TestHost<Vec<u8>> = TestHost::new(table());
    assert!(matches!(
        host.plan_call(context_address(), addr(1), word(0), &[0x10, 0, 0, 9]),
        CallPlan::Fault(HostFault::UnknownSelector)
    ));
    assert!(matches!(
        host.plan_call(context_address(), addr(1), word(0), &[0x10]),
        CallPlan::Fault(HostFault::UnknownSelector)
    ));
}

#[test]
fn malformed_arguments_are_a_fault() {
    let mut host: TestHost<Vec<u8>> = TestHost::new(table());
    let mut input = SEL_TEST.to_vec();
    input.extend([0u8; 10]);
    assert!(matches!(
        host.plan_call(context_address(), addr(1), word(0), &input),
        CallPlan::Fault(HostFault::MalformedArguments)
    ));
    assert!(!host.context().inside_contract_call);
}
