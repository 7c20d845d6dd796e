use vstd::prelude::*;

use crate::types::{copy_bytes, Address};

verus! {

/// Whether `data` starts with the four selector bytes `s`.
pub open spec fn has_selector(data: Seq<u8>, s: Seq<u8>) -> bool {
    data.len() >= 4 && data.subrange(0, 4) == s
}

/// The selector of `transfer(address,uint256)`.
pub open spec fn transfer_selector() -> Seq<u8> {
    seq![0xa9u8, 0x05u8, 0x9cu8, 0xbbu8]
}

/// The selector of `transferFrom(address,address,uint256)`.
pub open spec fn transfer_from_selector() -> Seq<u8> {
    seq![0x23u8, 0xb8u8, 0x72u8, 0xddu8]
}

/// The (participant, token) pairs that a call of `token` with calldata `data` adds
/// to the ERC-20 flow log: the recipient of a `transfer`; the recipient and then
/// the sender of a `transferFrom`; nothing for any other call, or for calldata
/// too short to hold the addresses.
pub open spec fn erc20_observed(data: Seq<u8>, token: Seq<u8>) -> Seq<(Seq<u8>, Seq<u8>)> {
    if has_selector(data, transfer_selector()) && data.len() >= 36 {
        seq![(data.subrange(16, 36), token)]
    } else if has_selector(data, transfer_from_selector()) && data.len() >= 68 {
        seq![(data.subrange(48, 68), token), (data.subrange(12, 32), token)]
    } else {
        Seq::empty()
    }
}

/// The view of a sequence of address pairs.
pub open spec fn pairs_view(v: Seq<(Address, Address)>) -> Seq<(Seq<u8>, Seq<u8>)> {
    Seq::new(v.len(), |i: int| (v[i].0@, v[i].1@))
}

/// The view of a sequence of (address, calldata) pairs.
pub open spec fn traces_view(v: Seq<(Address, Vec<u8>)>) -> Seq<(Seq<u8>, Seq<u8>)> {
    Seq::new(v.len(), |i: int| (v[i].0@, v[i].1@))
}

fn starts_with4(data: &[u8], b0: u8, b1: u8, b2: u8, b3: u8) -> (r: bool)
    ensures
        r == has_selector(data@, seq![b0, b1, b2, b3]),
{
    if data.len() < 4 {
        return false;
    }
    let r = data[0] == b0 && data[1] == b1 && data[2] == b2 && data[3] == b3;
    assert(r == (data@.subrange(0, 4) =~= seq![b0, b1, b2, b3]));
    r
}

/// The calls seen while a test call runs, and the ERC-20 transfers among them.
pub struct CallRecorder {
    pub call_traces: Vec<(Address, Vec<u8>)>,
    pub erc20_affected: Vec<(Address, Address)>,
}

impl CallRecorder {
    /// The (callee, calldata) pairs recorded, in order.
    pub open spec fn traces(&self) -> Seq<(Seq<u8>, Seq<u8>)> {
        traces_view(self.call_traces@)
    }

    /// The (participant, token) pairs recorded, in order.
    pub open spec fn flows(&self) -> Seq<(Seq<u8>, Seq<u8>)> {
        pairs_view(self.erc20_affected@)
    }

    pub fn new() -> (r: CallRecorder)
        ensures
            r.traces() == Seq::<(Seq<u8>, Seq<u8>)>::empty(),
            r.flows() == Seq::<(Seq<u8>, Seq<u8>)>::empty(),
    {
        let r = CallRecorder { call_traces: Vec::new(), erc20_affected: Vec::new() };
        assert(r.traces() =~= Seq::<(Seq<u8>, Seq<u8>)>::empty());
        assert(r.flows() =~= Seq::<(Seq<u8>, Seq<u8>)>::empty());
        r
    }

    /// Empties both records.
    pub fn clear(&mut self)
        ensures
            final(self).traces() == Seq::<(Seq<u8>, Seq<u8>)>::empty(),
            final(self).flows() == Seq::<(Seq<u8>, Seq<u8>)>::empty(),
    {
        self.call_traces.clear();
        self.erc20_affected.clear();
        assert(self.traces() =~= Seq::<(Seq<u8>, Seq<u8>)>::empty());
        assert(self.flows() =~= Seq::<(Seq<u8>, Seq<u8>)>::empty());
    }

    fn push_flow(&mut self, participant: Address, token: Address)
        ensures
            final(self).flows() == old(self).flows().push((participant@, token@)),
            final(self).traces() == old(self).traces(),
    {
        self.erc20_affected.push((participant, token));
        assert(self.flows() =~= old(self).flows().push((participant@, token@)));
    }

    /// Records the ERC-20 participants of a call of `token` with calldata `data`.
    pub fn observe_erc20(&mut self, data: &[u8], token: Address)
        ensures
            final(self).flows() == old(self).flows() + erc20_observed(data@, token@),
            final(self).traces() == old(self).traces(),
    {
        let n = data.len();
        if starts_with4(data, 0xa9, 0x05, 0x9c, 0xbb) && n >= 36 {
            let dst = Address::from_slice_at(data, 16);
            self.push_flow(dst, token);
            assert(erc20_observed(data@, token@) =~= seq![(data@.subrange(16, 36), token@)]);
        } else if starts_with4(data, 0x23, 0xb8, 0x72, 0xdd) && n >= 68 {
            let src = Address::from_slice_at(data, 12);
            let dst = Address::from_slice_at(data, 48);
            self.push_flow(dst, token);
            self.push_flow(src, token);
            assert(!has_selector(data@, transfer_selector())) by {
                assert(data@.subrange(0, 4)[0] == data@[0]);
            }
            assert(erc20_observed(data@, token@) =~= seq![
                (data@.subrange(48, 68), token@),
                (data@.subrange(12, 32), token@),
            ]);
        } else {
            assert(erc20_observed(data@, token@) =~= Seq::<(Seq<u8>, Seq<u8>)>::empty()) by {
                if has_selector(data@, transfer_selector()) {
                    assert(data@.subrange(0, 4)[0] == data@[0]);
                }
                if has_selector(data@, transfer_from_selector()) {
                    assert(data@.subrange(0, 4)[0] == data@[0]);
                }
            }
        }
        assert(self.flows() =~= old(self).flows() + erc20_observed(data@, token@));
    }

    /// Records a call of `callee` with calldata `data`, and the ERC-20 transfer it makes.
    pub fn record_call(&mut self, callee: Address, data: &[u8])
        ensures
            final(self).traces() == old(self).traces().push((callee@, data@)),
            final(self).flows() == old(self).flows() + erc20_observed(data@, callee@),
    {
        self.call_traces.push((callee, copy_bytes(data)));
        assert(self.traces() =~= old(self).traces().push((callee@, data@)));
        self.observe_erc20(data, callee);
    }
}

} // verus!
