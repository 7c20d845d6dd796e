use vstd::prelude::*;

use crate::table::ByteTable;
use crate::types::{copy_bytes, Address};

verus! {

/// The reflective functions that the context address answers.
#[derive(Clone, Copy, Debug, PartialEq, Eq, Structural)]
pub enum ContextFn {
    GetCaller,
    GetTarget,
    GetValue,
    GetData,
    GetAffectedContracts,
    GetAffectedAccountsIerc20,
    CallPrevState,
    TestCall,
}

/// The context function with the given ABI name, if there is one.
pub open spec fn context_fn_named(name: Seq<char>) -> Option<ContextFn> {
    if name == "get_caller"@ {
        Some(ContextFn::GetCaller)
    } else if name == "get_target"@ {
        Some(ContextFn::GetTarget)
    } else if name == "get_value"@ {
        Some(ContextFn::GetValue)
    } else if name == "get_data"@ {
        Some(ContextFn::GetData)
    } else if name == "get_affected_contracts"@ {
        Some(ContextFn::GetAffectedContracts)
    } else if name == "get_affected_accounts_ierc20"@ {
        Some(ContextFn::GetAffectedAccountsIerc20)
    } else if name == "call_prev_state"@ {
        Some(ContextFn::CallPrevState)
    } else if name == "test_call"@ {
        Some(ContextFn::TestCall)
    } else {
        None
    }
}

fn is_named(name: &str, lit: &str) -> (r: bool)
    ensures
        r == (name@ == lit@),
{
    name.to_owned() == lit.to_owned()
}

/// Reads the ABI name of a context function.
pub fn context_fn_of_name(name: &str) -> (r: Option<ContextFn>)
    ensures
        r == context_fn_named(name@),
{
    if is_named(name, "get_caller") {
        Some(ContextFn::GetCaller)
    } else if is_named(name, "get_target") {
        Some(ContextFn::GetTarget)
    } else if is_named(name, "get_value") {
        Some(ContextFn::GetValue)
    } else if is_named(name, "get_data") {
        Some(ContextFn::GetData)
    } else if is_named(name, "get_affected_contracts") {
        Some(ContextFn::GetAffectedContracts)
    } else if is_named(name, "get_affected_accounts_ierc20") {
        Some(ContextFn::GetAffectedAccountsIerc20)
    } else if is_named(name, "call_prev_state") {
        Some(ContextFn::CallPrevState)
    } else if is_named(name, "test_call") {
        Some(ContextFn::TestCall)
    } else {
        None
    }
}

/// The bytes of the reserved context address 0x8891e33ba3c6A7b4E020A6180Eb07f4AED2d70CE.
pub open spec fn context_address_bytes() -> Seq<u8> {
    seq![
        0x88u8, 0x91u8, 0xe3u8, 0x3bu8, 0xa3u8, 0xc6u8, 0xa7u8, 0xb4u8, 0xe0u8, 0x20u8,
        0xa6u8, 0x18u8, 0x0eu8, 0xb0u8, 0x7fu8, 0x4au8, 0xedu8, 0x2du8, 0x70u8, 0xceu8,
    ]
}

/// The reserved address whose calls the harness answers itself.
pub fn context_address() -> (r: Address)
    ensures
        r@ == context_address_bytes(),
{
    let bytes: [u8; 20] = [
        0x88, 0x91, 0xe3, 0x3b, 0xa3, 0xc6, 0xa7, 0xb4, 0xe0, 0x20,
        0xa6, 0x18, 0x0e, 0xb0, 0x7f, 0x4a, 0xed, 0x2d, 0x70, 0xce,
    ];
    assert(bytes@ =~= context_address_bytes());
    Address { bytes }
}

/// The context function that calldata `input` selects in a selector table `m`.
pub open spec fn selected_fn(m: Map<Seq<u8>, ContextFn>, input: Seq<u8>) -> Option<ContextFn> {
    if input.len() >= 4 && m.contains_key(input.subrange(0, 4)) {
        Some(m[input.subrange(0, 4)])
    } else {
        None
    }
}

/// The context ABI's functions, by 4-byte selector.
pub struct ContextTable {
    by_selector: ByteTable<ContextFn>,
}

impl ContextTable {
    pub closed spec fn wf(&self) -> bool {
        self.by_selector.wf()
    }

    /// The registered functions, by selector bytes.
    pub closed spec fn view(&self) -> Map<Seq<u8>, ContextFn> {
        self.by_selector.view()
    }

    pub fn new() -> (r: ContextTable)
        ensures
            r.wf(),
            r.view() == Map::<Seq<u8>, ContextFn>::empty(),
    {
        ContextTable { by_selector: ByteTable::new() }
    }

    /// Registers the ABI function `name` under `selector`. A name that is not a
    /// context function leaves the table as it was, so that calls with its
    /// selector stay unanswered.
    pub fn register(&mut self, selector: [u8; 4], name: &str)
        requires
            old(self).wf(),
        ensures
            final(self).wf(),
            final(self).view() == match context_fn_named(name@) {
                Some(f) => old(self).view().insert(selector@, f),
                None => old(self).view(),
            },
    {
        if let Some(f) = context_fn_of_name(name) {
            self.by_selector.insert(copy_bytes(&selector), f);
        }
    }

    /// The context function that calldata `input` selects.
    pub fn select(&self, input: &[u8]) -> (r: Option<ContextFn>)
        requires
            self.wf(),
        ensures
            r == selected_fn(self.view(), input@),
    {
        if input.len() < 4 {
            return None;
        }
        let sel = [input[0], input[1], input[2], input[3]];
        assert(sel@ =~= input@.subrange(0, 4));
        match self.by_selector.get(&sel) {
            Some(f) => Some(*f),
            None => None,
        }
    }
}

} // verus!
