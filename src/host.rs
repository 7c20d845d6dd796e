use vstd::prelude::*;

use crate::abi::{abi_encode, abi_encoding, call_args_decoded, decode_call_args, AbiArg, AbiValue, CallArgs};
use crate::context::{context_address, context_address_bytes, selected_fn, ContextFn, ContextTable};
use crate::overlay::{read_slot, slot_key, LogRecord, Overlay, SlotRead, StateSnapshot};
use crate::recorder::{erc20_observed, CallRecorder};
use crate::types::{copy_bytes, padded_address, Address, Word};

verus! {

/// The values that the context address reflects back to a running invariant,
/// set when a test call begins.
#[derive(Debug)]
pub struct TestContext {
    pub caller: Address,
    pub target: Address,
    pub value: Word,
    pub data: Vec<u8>,
    pub inside_contract_call: bool,
}

/// The mathematical form of a `TestContext`.
pub ghost struct ContextView {
    pub caller: Seq<u8>,
    pub target: Seq<u8>,
    pub value: Seq<u8>,
    pub data: Seq<u8>,
    pub inside_contract_call: bool,
}

impl TestContext {
    pub open spec fn view(&self) -> ContextView {
        ContextView {
            caller: self.caller@,
            target: self.target@,
            value: self.value@,
            data: self.data@,
            inside_contract_call: self.inside_contract_call,
        }
    }
}

/// Why a call to the context address cannot be answered.
#[derive(Clone, Copy, Debug, PartialEq, Eq, Structural)]
pub enum HostFault {
    /// The selector names no context function.
    UnknownSelector,
    /// The arguments are not an `(address, address, bytes, uint256)` tuple.
    MalformedArguments,
}

/// What the host decides about a nested call.
pub enum CallPlan {
    /// The context address answered the call with these bytes.
    Reply(Vec<u8>),
    /// Run these arguments against the state before the test call; the storage
    /// that was live is held in the snapshot until `finish_prev_state`.
    PrevState(CallArgs, StateSnapshot),
    /// Run these arguments as the call under test, then `finish_test_call`.
    Test(CallArgs),
    /// An ordinary call: resolve the code of the callee and run it.
    Execute,
    /// The call cannot be served.
    Fault(HostFault),
}

/// Why a compiled artifact cannot be installed.
#[derive(Clone, Copy, Debug, PartialEq, Eq, Structural)]
pub enum DeployError {
    /// The constructor ended in a revert.
    ConstructorReverted,
    /// The address is the context address or already holds code.
    AddressUnavailable,
}

/// The encoding of an address array and a byte-string array drawn pairwise from `s`.
pub open spec fn encode_address_bytes_pairs(s: Seq<(Seq<u8>, Seq<u8>)>) -> Seq<u8> {
    abi_encoding(
        seq![
            AbiValue::Addresses(Seq::new(s.len(), |i: int| s[i].0)),
            AbiValue::Blobs(Seq::new(s.len(), |i: int| s[i].1)),
        ],
    )
}

/// The encoding of two address arrays drawn pairwise from `s`.
pub open spec fn encode_address_pairs(s: Seq<(Seq<u8>, Seq<u8>)>) -> Seq<u8> {
    abi_encoding(
        seq![
            AbiValue::Addresses(Seq::new(s.len(), |i: int| s[i].0)),
            AbiValue::Addresses(Seq::new(s.len(), |i: int| s[i].1)),
        ],
    )
}

/// The ABI encoding of `b` as a single `bytes` value.
pub open spec fn encode_blob(b: Seq<u8>) -> Seq<u8> {
    abi_encoding(seq![AbiValue::Blob(b)])
}

/// The bytes that a getter of the context answers with, given the test context
/// and the records.
pub open spec fn getter_reply(
    f: ContextFn,
    c: ContextView,
    traces: Seq<(Seq<u8>, Seq<u8>)>,
    flows: Seq<(Seq<u8>, Seq<u8>)>,
) -> Seq<u8> {
    match f {
        ContextFn::GetCaller => padded_address(c.caller),
        ContextFn::GetTarget => padded_address(c.target),
        ContextFn::GetValue => c.value,
        ContextFn::GetData => c.data,
        ContextFn::GetAffectedContracts => encode_address_bytes_pairs(traces),
        ContextFn::GetAffectedAccountsIerc20 => encode_address_pairs(flows),
        _ => Seq::empty(),
    }
}

/// Whether `f` only reads the test context and the records.
pub open spec fn is_getter(f: ContextFn) -> bool {
    !(f == ContextFn::CallPrevState || f == ContextFn::TestCall)
}

/// The host state that backs the interpreter: the overlay, the snapshot taken
/// at the last test call, the records of that call, and the test context.
/// `C` is the form in which contract code is kept.
pub struct TestHost<C> {
    overlay: Overlay<C>,
    prev_state: StateSnapshot,
    recorder: CallRecorder,
    context: TestContext,
    context_table: ContextTable,
    origin: Address,
}

impl<C> TestHost<C> {
    /// The parts are well formed, and no code is ever held for the context address.
    pub closed spec fn wf(&self) -> bool {
        &&& self.overlay.wf()
        &&& self.prev_state.wf()
        &&& self.context_table.wf()
        &&& !self.overlay.codes().contains_key(context_address_bytes())
    }

    pub closed spec fn slots(&self) -> Map<Seq<u8>, Word> {
        self.overlay.slots()
    }

    pub closed spec fn prev_slots(&self) -> Map<Seq<u8>, Word> {
        self.prev_state.view()
    }

    pub closed spec fn codes(&self) -> Map<Seq<u8>, C> {
        self.overlay.codes()
    }

    pub closed spec fn logs(&self) -> Seq<LogRecord> {
        self.overlay.logs()
    }

    pub closed spec fn traces(&self) -> Seq<(Seq<u8>, Seq<u8>)> {
        self.recorder.traces()
    }

    pub closed spec fn flows(&self) -> Seq<(Seq<u8>, Seq<u8>)> {
        self.recorder.flows()
    }

    pub closed spec fn context_view(&self) -> ContextView {
        self.context.view()
    }

    pub closed spec fn selectors(&self) -> Map<Seq<u8>, ContextFn> {
        self.context_table.view()
    }

    pub closed spec fn origin_view(&self) -> Seq<u8> {
        self.origin@
    }

    /// No code is ever held for the context address, so its code is never
    /// fetched or run.
    pub proof fn lemma_context_code_never_held(&self)
        requires
            self.wf(),
        ensures
            !self.codes().contains_key(context_address_bytes()),
    {
    }

    /// A host with an empty overlay and the given context-function table.
    pub fn new(context_table: ContextTable) -> (r: TestHost<C>)
        requires
            context_table.wf(),
        ensures
            r.wf(),
            r.slots() == Map::<Seq<u8>, Word>::empty(),
            r.prev_slots() == Map::<Seq<u8>, Word>::empty(),
            r.codes() == Map::<Seq<u8>, C>::empty(),
            r.logs() == Seq::<LogRecord>::empty(),
            r.traces() == Seq::<(Seq<u8>, Seq<u8>)>::empty(),
            r.flows() == Seq::<(Seq<u8>, Seq<u8>)>::empty(),
            !r.context_view().inside_contract_call,
            r.selectors() == context_table.view(),
    {
        let zero = Address::new([0u8; 20]);
        TestHost {
            overlay: Overlay::new(),
            prev_state: StateSnapshot::empty(),
            recorder: CallRecorder::new(),
            context: TestContext {
                caller: zero,
                target: zero,
                value: Word::zero(),
                data: Vec::new(),
                inside_contract_call: false,
            },
            context_table,
            origin: zero,
        }
    }

    /// The current test context.
    pub fn context(&self) -> (r: &TestContext)
        ensures
            r.view() == self.context_view(),
    {
        &self.context
    }

    /// The calls recorded since the last test call began.
    pub fn recorder(&self) -> (r: &CallRecorder)
        ensures
            r.traces() == self.traces(),
            r.flows() == self.flows(),
    {
        &self.recorder
    }

    /// Reads a storage slot: the local value, or a request to fetch it.
    pub fn sload(&self, a: &Address, k: &Word) -> (r: SlotRead)
        requires
            self.wf(),
        ensures
            r == read_slot(self.slots(), a@, k@),
    {
        self.overlay.sload(a, k)
    }

    /// Keeps a slot value fetched from the chain.
    pub fn record_fetched_slot(&mut self, a: &Address, k: &Word, v: Word)
        requires
            old(self).wf(),
            read_slot(old(self).slots(), a@, k@) is Fetch,
        ensures
            final(self).wf(),
            final(self).slots() == old(self).slots().insert(slot_key(a@, k@), v),
            final(self).prev_slots() == old(self).prev_slots(),
            final(self).codes() == old(self).codes(),
            final(self).traces() == old(self).traces(),
            final(self).flows() == old(self).flows(),
            final(self).context_view() == old(self).context_view(),
    {
        self.overlay.record_fetched_slot(a, k, v);
    }

    /// Writes a storage slot.
    pub fn sstore(&mut self, a: &Address, k: &Word, v: Word)
        requires
            old(self).wf(),
        ensures
            final(self).wf(),
            final(self).slots() == old(self).slots().insert(slot_key(a@, k@), v),
            final(self).prev_slots() == old(self).prev_slots(),
            final(self).codes() == old(self).codes(),
            final(self).traces() == old(self).traces(),
            final(self).flows() == old(self).flows(),
            final(self).context_view() == old(self).context_view(),
    {
        self.overlay.sstore(a, k, v);
    }

    /// The code held for account `a`, if any.
    pub fn code(&self, a: &Address) -> (r: Option<&C>)
        requires
            self.wf(),
        ensures
            match r {
                Some(c) => self.codes().contains_key(a@) && *c == self.codes()[a@],
                None => !self.codes().contains_key(a@),
            },
    {
        self.overlay.code(a)
    }

    /// Whether the code of `a` is to be fetched from the chain: it is not held,
    /// and `a` is not the context address, which is never fetched.
    pub fn may_fetch_code(&self, a: &Address) -> (r: bool)
        requires
            self.wf(),
        ensures
            r == (a@ != context_address_bytes() && !self.codes().contains_key(a@)),
    {
        !a.same_as(&context_address()) && self.overlay.code(a).is_none()
    }

    /// Keeps code fetched from the chain for `a`.
    pub fn record_fetched_code(&mut self, a: &Address, code: C)
        requires
            old(self).wf(),
            a@ != context_address_bytes(),
            !old(self).codes().contains_key(a@),
        ensures
            final(self).wf(),
            final(self).codes() == old(self).codes().insert(a@, code),
            final(self).slots() == old(self).slots(),
            final(self).prev_slots() == old(self).prev_slots(),
            final(self).traces() == old(self).traces(),
            final(self).flows() == old(self).flows(),
            final(self).context_view() == old(self).context_view(),
    {
        self.overlay.put_code(a, code);
    }

    /// Installs the runtime code that a constructor returned at `a`, unless the
    /// constructor reverted or `a` is unavailable.
    pub fn deploy(&mut self, a: &Address, reverted: bool, runtime: C) -> (r: Result<(), DeployError>)
        requires
            old(self).wf(),
        ensures
            final(self).wf(),
            reverted ==> r == Err::<(), DeployError>(DeployError::ConstructorReverted),
            !reverted && (a@ == context_address_bytes() || old(self).codes().contains_key(a@))
                ==> r == Err::<(), DeployError>(DeployError::AddressUnavailable),
            r is Ok <==> (!reverted && a@ != context_address_bytes() && !old(self).codes().contains_key(a@)),
            r is Ok ==> final(self).codes() == old(self).codes().insert(a@, runtime),
            r is Err ==> final(self).codes() == old(self).codes(),
            final(self).slots() == old(self).slots(),
            final(self).prev_slots() == old(self).prev_slots(),
            final(self).traces() == old(self).traces(),
            final(self).flows() == old(self).flows(),
            final(self).context_view() == old(self).context_view(),
    {
        if reverted {
            return Err(DeployError::ConstructorReverted);
        }
        if !self.may_fetch_code(a) {
            return Err(DeployError::AddressUnavailable);
        }
        self.overlay.put_code(a, runtime);
        Ok(())
    }

    /// Appends a log entry.
    pub fn emit_log(&mut self, a: Address, topics: Vec<Word>, data: Vec<u8>)
        requires
            old(self).wf(),
        ensures
            final(self).wf(),
            final(self).logs() == old(self).logs().push(LogRecord { address: a, topics, data }),
            final(self).slots() == old(self).slots(),
            final(self).prev_slots() == old(self).prev_slots(),
            final(self).codes() == old(self).codes(),
            final(self).traces() == old(self).traces(),
            final(self).flows() == old(self).flows(),
            final(self).context_view() == old(self).context_view(),
    {
        self.overlay.emit_log(a, topics, data);
    }

    /// Prepares a top-level call of `target`: its address becomes the origin and
    /// the logs are cleared.
    pub fn begin_top_call(&mut self, target: Address)
        requires
            old(self).wf(),
        ensures
            final(self).wf(),
            final(self).origin_view() == target@,
            final(self).logs() == Seq::<LogRecord>::empty(),
            final(self).slots() == old(self).slots(),
            final(self).prev_slots() == old(self).prev_slots(),
            final(self).codes() == old(self).codes(),
            final(self).traces() == old(self).traces(),
            final(self).flows() == old(self).flows(),
            final(self).context_view() == old(self).context_view(),
    {
        self.origin = target;
        self.overlay.clear_logs();
    }
}

impl<C> TestHost<C> {
    fn encode_traces(&self) -> (r: Vec<u8>)
        ensures
            r@ == encode_address_bytes_pairs(self.traces()),
    {
        let traces = &self.recorder.call_traces;
        let mut addrs: Vec<Address> = Vec::new();
        let mut datas: Vec<Vec<u8>> = Vec::new();
        let mut i: usize = 0;
        while i < traces.len()
            invariant
                i <= traces@.len(),
                addrs@.len() == i,
                datas@.len() == i,
                forall|j: int| 0 <= j < i ==> (#[trigger] addrs@[j])@ == traces@[j].0@,
                forall|j: int| 0 <= j < i ==> (#[trigger] datas@[j])@ == traces@[j].1@,
            decreases traces@.len() - i,
        {
            addrs.push(traces[i].0);
            datas.push(copy_bytes(traces[i].1.as_slice()));
            i = i + 1;
        }
        let ghost t = self.traces();
        let mut args: Vec<AbiArg> = Vec::new();
        args.push(AbiArg::Addresses(addrs));
        args.push(AbiArg::Blobs(datas));
        proof {
            assert(Seq::new(addrs@.len(), |j: int| addrs@[j]@) =~= Seq::new(t.len(), |j: int| t[j].0));
            assert(Seq::new(datas@.len(), |j: int| datas@[j]@) =~= Seq::new(t.len(), |j: int| t[j].1));
            assert(args@.map_values(|a: AbiArg| a@) =~= seq![
                AbiValue::Addresses(Seq::new(t.len(), |j: int| t[j].0)),
                AbiValue::Blobs(Seq::new(t.len(), |j: int| t[j].1)),
            ]);
        }
        abi_encode(&args)
    }

    fn encode_flows(&self) -> (r: Vec<u8>)
        ensures
            r@ == encode_address_pairs(self.flows()),
    {
        let flows = &self.recorder.erc20_affected;
        let mut parts: Vec<Address> = Vec::new();
        let mut tokens: Vec<Address> = Vec::new();
        let mut i: usize = 0;
        while i < flows.len()
            invariant
                i <= flows@.len(),
                parts@.len() == i,
                tokens@.len() == i,
                forall|j: int| 0 <= j < i ==> (#[trigger] parts@[j])@ == flows@[j].0@,
                forall|j: int| 0 <= j < i ==> (#[trigger] tokens@[j])@ == flows@[j].1@,
            decreases flows@.len() - i,
        {
            parts.push(flows[i].0);
            tokens.push(flows[i].1);
            i = i + 1;
        }
        let ghost f = self.flows();
        let mut args: Vec<AbiArg> = Vec::new();
        args.push(AbiArg::Addresses(parts));
        args.push(AbiArg::Addresses(tokens));
        proof {
            assert(Seq::new(parts@.len(), |j: int| parts@[j]@) =~= Seq::new(f.len(), |j: int| f[j].0));
            assert(Seq::new(tokens@.len(), |j: int| tokens@[j]@) =~= Seq::new(f.len(), |j: int| f[j].1));
            assert(args@.map_values(|a: AbiArg| a@) =~= seq![
                AbiValue::Addresses(Seq::new(f.len(), |j: int| f[j].0)),
                AbiValue::Addresses(Seq::new(f.len(), |j: int| f[j].1)),
            ]);
        }
        abi_encode(&args)
    }

    fn encode_output(output: &[u8]) -> (r: Vec<u8>)
        ensures
            r@ == encode_blob(output@),
    {
        let mut args: Vec<AbiArg> = Vec::new();
        args.push(AbiArg::Blob(copy_bytes(output)));
        assert(args@.map_values(|a: AbiArg| a@) =~= seq![AbiValue::Blob(output@)]);
        abi_encode(&args)
    }

    /// Decides what to do with a nested call of `address`, made by `caller` with
    /// `value` and calldata `input`.
    ///
    /// A call to the context address is answered here: a getter replies from the
    /// test context or the records; `call_prev_state` swaps the snapshot taken at
    /// the last test call in for the storage; `test_call` sets the test context,
    /// takes that snapshot, starts the records afresh with the ERC-20 flow of the
    /// call it is asked to make, and marks a contract call as under way. Any call
    /// to the context address first ends the marked contract call. Any other call
    /// is recorded, with its ERC-20 flow, while a contract call is under way.
    pub fn plan_call(&mut self, address: Address, caller: Address, value: Word, input: &[u8]) -> (r: CallPlan)
        requires
            old(self).wf(),
        ensures
            final(self).wf(),
            final(self).codes() == old(self).codes(),
            final(self).selectors() == old(self).selectors(),
            address@ != context_address_bytes() ==> {
                &&& r is Execute
                &&& final(self).slots() == old(self).slots()
                &&& final(self).prev_slots() == old(self).prev_slots()
                &&& final(self).context_view() == old(self).context_view()
                &&& old(self).context_view().inside_contract_call ==> {
                    &&& final(self).traces() == old(self).traces().push((address@, input@))
                    &&& final(self).flows() == old(self).flows() + erc20_observed(input@, address@)
                }
                &&& !old(self).context_view().inside_contract_call ==> {
                    &&& final(self).traces() == old(self).traces()
                    &&& final(self).flows() == old(self).flows()
                }
            },
            address@ == context_address_bytes() ==> match selected_fn(old(self).selectors(), input@) {
                None => {
                    &&& r == CallPlan::Fault(HostFault::UnknownSelector)
                    &&& final(self).slots() == old(self).slots()
                    &&& final(self).prev_slots() == old(self).prev_slots()
                    &&& final(self).traces() == old(self).traces()
                    &&& final(self).flows() == old(self).flows()
                    &&& final(self).context_view() == (ContextView {
                        inside_contract_call: false,
                        ..old(self).context_view()
                    })
                },
                Some(f) => if is_getter(f) {
                    &&& (match r {
                        CallPlan::Reply(out) => out@ == getter_reply(
                            f,
                            old(self).context_view(),
                            old(self).traces(),
                            old(self).flows(),
                        ),
                        _ => false,
                    })
                    &&& final(self).slots() == old(self).slots()
                    &&& final(self).prev_slots() == old(self).prev_slots()
                    &&& final(self).traces() == old(self).traces()
                    &&& final(self).flows() == old(self).flows()
                    &&& final(self).context_view() == (ContextView {
                        inside_contract_call: false,
                        ..old(self).context_view()
                    })
                } else {
                    let decoded = call_args_decoded(input@.subrange(4, input@.len() as int));
                    &&& decoded is None ==> {
                        &&& r == CallPlan::Fault(HostFault::MalformedArguments)
                        &&& final(self).slots() == old(self).slots()
                        &&& final(self).prev_slots() == old(self).prev_slots()
                        &&& final(self).traces() == old(self).traces()
                        &&& final(self).flows() == old(self).flows()
                        &&& final(self).context_view() == (ContextView {
                            inside_contract_call: false,
                            ..old(self).context_view()
                        })
                    }
                    &&& (decoded is Some && f == ContextFn::CallPrevState) ==> {
                        &&& (match r {
                            CallPlan::PrevState(args, saved) => {
                                &&& Some(args.view()) == decoded
                                &&& saved.wf()
                                &&& saved.view() == old(self).slots()
                            },
                            _ => false,
                        })
                        &&& final(self).slots() == old(self).prev_slots()
                        &&& final(self).prev_slots() == old(self).prev_slots()
                        &&& final(self).traces() == old(self).traces()
                        &&& final(self).flows() == old(self).flows()
                        &&& final(self).context_view() == (ContextView {
                            inside_contract_call: false,
                            ..old(self).context_view()
                        })
                    }
                    &&& (decoded is Some && f == ContextFn::TestCall) ==> {
                        &&& (match r {
                            CallPlan::Test(args) => {
                                &&& Some(args.view()) == decoded
                                &&& final(self).flows() == erc20_observed(args.data@, args.target@)
                            },
                            _ => false,
                        })
                        &&& final(self).slots() == old(self).slots()
                        &&& final(self).prev_slots() == old(self).slots()
                        &&& final(self).traces() == Seq::<(Seq<u8>, Seq<u8>)>::empty()
                        &&& final(self).context_view() == (ContextView {
                            caller: caller@,
                            target: address@,
                            value: value@,
                            data: input@,
                            inside_contract_call: true,
                        })
                    }
                },
            },
    {
        if !address.same_as(&context_address()) {
            if self.context.inside_contract_call {
                self.recorder.record_call(address, input);
            }
            return CallPlan::Execute;
        }
        self.context.inside_contract_call = false;
        let f = match self.context_table.select(input) {
            Some(f) => f,
            None => {
                return CallPlan::Fault(HostFault::UnknownSelector);
            },
        };
        match f {
            ContextFn::GetCaller => CallPlan::Reply(self.context.caller.to_word_bytes()),
            ContextFn::GetTarget => CallPlan::Reply(self.context.target.to_word_bytes()),
            ContextFn::GetValue => CallPlan::Reply(self.context.value.to_bytes()),
            ContextFn::GetData => CallPlan::Reply(copy_bytes(self.context.data.as_slice())),
            ContextFn::GetAffectedContracts => CallPlan::Reply(self.encode_traces()),
            ContextFn::GetAffectedAccountsIerc20 => CallPlan::Reply(self.encode_flows()),
            ContextFn::CallPrevState => {
                let (_, rest) = input.split_at(4);
                let args = match decode_call_args(rest) {
                    Some(args) => args,
                    None => {
                        return CallPlan::Fault(HostFault::MalformedArguments);
                    },
                };
                let saved = self.overlay.swap_with(self.prev_state.duplicate());
                CallPlan::PrevState(args, saved)
            },
            ContextFn::TestCall => {
                let (_, rest) = input.split_at(4);
                let args = match decode_call_args(rest) {
                    Some(args) => args,
                    None => {
                        return CallPlan::Fault(HostFault::MalformedArguments);
                    },
                };
                self.context = TestContext {
                    caller,
                    target: address,
                    value,
                    data: copy_bytes(input),
                    inside_contract_call: true,
                };
                self.prev_state = self.overlay.snapshot();
                self.recorder.clear();
                self.recorder.observe_erc20(args.data.as_slice(), args.target);
                CallPlan::Test(args)
            },
        }
    }

    /// Ends an ordinary nested call: no contract call is marked as under way.
    pub fn end_call(&mut self)
        requires
            old(self).wf(),
        ensures
            final(self).wf(),
            final(self).context_view() == (ContextView {
                inside_contract_call: false,
                ..old(self).context_view()
            }),
            final(self).slots() == old(self).slots(),
            final(self).prev_slots() == old(self).prev_slots(),
            final(self).codes() == old(self).codes(),
            final(self).traces() == old(self).traces(),
            final(self).flows() == old(self).flows(),
    {
        self.context.inside_contract_call = false;
    }

    /// Ends a test call that returned `output`: the contract call is no longer
    /// under way, and the output is answered as ABI `bytes`.
    pub fn finish_test_call(&mut self, output: &[u8]) -> (r: Vec<u8>)
        requires
            old(self).wf(),
        ensures
            final(self).wf(),
            r@ == encode_blob(output@),
            final(self).context_view() == (ContextView {
                inside_contract_call: false,
                ..old(self).context_view()
            }),
            final(self).slots() == old(self).slots(),
            final(self).prev_slots() == old(self).prev_slots(),
            final(self).codes() == old(self).codes(),
            final(self).traces() == old(self).traces(),
            final(self).flows() == old(self).flows(),
    {
        self.context.inside_contract_call = false;
        Self::encode_output(output)
    }

    /// Ends a call run against the earlier state, which returned `output`: the
    /// storage held in `saved` is put back, and the output is answered as ABI `bytes`.
    pub fn finish_prev_state(&mut self, saved: StateSnapshot, output: &[u8]) -> (r: Vec<u8>)
        requires
            old(self).wf(),
            saved.wf(),
        ensures
            final(self).wf(),
            r@ == encode_blob(output@),
            final(self).slots() == saved.view(),
            final(self).prev_slots() == old(self).prev_slots(),
            final(self).codes() == old(self).codes(),
            final(self).traces() == old(self).traces(),
            final(self).flows() == old(self).flows(),
            final(self).context_view() == old(self).context_view(),
    {
        self.overlay.restore(saved);
        Self::encode_output(output)
    }
}

} // verus!
