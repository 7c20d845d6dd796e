use vstd::prelude::*;

use crate::table::ByteTable;
use crate::types::{Address, Word};

verus! {

/// The key under which a storage slot is kept: the address bytes, then the slot bytes.
pub open spec fn slot_key(a: Seq<u8>, k: Seq<u8>) -> Seq<u8> {
    a + k
}

/// What a storage read finds in the overlay.
#[derive(Clone, Copy, Debug)]
pub enum SlotRead {
    /// The slot is held locally; no remote request is needed.
    Cached(Word),
    /// The slot was never seen; its value must be fetched from the chain.
    Fetch,
}

/// The outcome of reading slot `k` of account `a` from the storage map `m`.
pub open spec fn read_slot(m: Map<Seq<u8>, Word>, a: Seq<u8>, k: Seq<u8>) -> SlotRead {
    if m.contains_key(slot_key(a, k)) {
        SlotRead::Cached(m[slot_key(a, k)])
    } else {
        SlotRead::Fetch
    }
}

/// One emitted log entry.
#[derive(Debug)]
pub struct LogRecord {
    pub address: Address,
    pub topics: Vec<Word>,
    pub data: Vec<u8>,
}

/// A copy of the overlay's storage, taken so that it can be put back later.
pub struct StateSnapshot {
    table: ByteTable<Word>,
}

impl StateSnapshot {
    pub closed spec fn wf(&self) -> bool {
        self.table.wf()
    }

    /// The slots held, by `slot_key`.
    pub closed spec fn view(&self) -> Map<Seq<u8>, Word> {
        self.table.view()
    }

    /// A snapshot that holds no slot.
    pub fn empty() -> (r: StateSnapshot)
        ensures
            r.wf(),
            r.view() == Map::<Seq<u8>, Word>::empty(),
    {
        StateSnapshot { table: ByteTable::new() }
    }

    /// A separate snapshot with the same slots.
    pub fn duplicate(&self) -> (r: StateSnapshot)
        requires
            self.wf(),
        ensures
            r.wf(),
            r.view() == self.view(),
    {
        StateSnapshot { table: self.table.duplicate() }
    }
}

/// The bytes of `slot_key(a, k)`.
pub fn slot_key_bytes(a: &Address, k: &Word) -> (r: Vec<u8>)
    ensures
        r@ == slot_key(a@, k@),
{
    let mut out: Vec<u8> = Vec::with_capacity(52);
    let mut i: usize = 0;
    while i < 20
        invariant
            i <= 20,
            a.bytes@.len() == 20,
            out@ == a@.subrange(0, i as int),
        decreases 20 - i,
    {
        out.push(a.bytes[i]);
        assert(a@.subrange(0, i + 1) =~= a@.subrange(0, i as int).push(a@[i as int]));
        i = i + 1;
    }
    let mut j: usize = 0;
    while j < 32
        invariant
            j <= 32,
            a.bytes@.len() == 20,
            k.bytes@.len() == 32,
            out@ == a@ + k@.subrange(0, j as int),
        decreases 32 - j,
    {
        out.push(k.bytes[j]);
        assert(k@.subrange(0, j + 1) =~= k@.subrange(0, j as int).push(k@[j as int]));
        assert(out@ =~= a@ + k@.subrange(0, j + 1));
        j = j + 1;
    }
    assert(a@ =~= a@.subrange(0, 20));
    assert(k@ =~= k@.subrange(0, 32));
    out
}

/// Local state layered over a remote chain: storage slots and contract code
/// that were fetched or written, and the logs emitted since the last call began.
/// `C` is the form in which contract code is kept.
pub struct Overlay<C> {
    storage: StateSnapshot,
    codes: ByteTable<C>,
    logs: Vec<LogRecord>,
}

impl<C> Overlay<C> {
    pub closed spec fn wf(&self) -> bool {
        self.storage.wf() && self.codes.wf()
    }

    /// Slot values held locally, by `slot_key`.
    pub closed spec fn slots(&self) -> Map<Seq<u8>, Word> {
        self.storage.view()
    }

    /// Contract code held locally, by address bytes.
    pub closed spec fn codes(&self) -> Map<Seq<u8>, C> {
        self.codes.view()
    }

    /// Logs emitted since they were last cleared, in order.
    pub closed spec fn logs(&self) -> Seq<LogRecord> {
        self.logs@
    }

    /// An overlay that holds nothing yet.
    pub fn new() -> (r: Overlay<C>)
        ensures
            r.wf(),
            r.slots() == Map::<Seq<u8>, Word>::empty(),
            r.codes() == Map::<Seq<u8>, C>::empty(),
            r.logs() == Seq::<LogRecord>::empty(),
    {
        Overlay { storage: StateSnapshot::empty(), codes: ByteTable::new(), logs: Vec::new() }
    }

    /// Reads slot `k` of account `a`: the local value, or a request to fetch it.
    pub fn sload(&self, a: &Address, k: &Word) -> (r: SlotRead)
        requires
            self.wf(),
        ensures
            r == read_slot(self.slots(), a@, k@),
    {
        let key = slot_key_bytes(a, k);
        match self.storage.table.get(key.as_slice()) {
            Some(v) => SlotRead::Cached(*v),
            None => SlotRead::Fetch,
        }
    }

    /// Keeps the value fetched from the chain for a slot that was not held.
    pub fn record_fetched_slot(&mut self, a: &Address, k: &Word, v: Word)
        requires
            old(self).wf(),
            read_slot(old(self).slots(), a@, k@) is Fetch,
        ensures
            final(self).wf(),
            final(self).slots() == old(self).slots().insert(slot_key(a@, k@), v),
            final(self).codes() == old(self).codes(),
            final(self).logs() == old(self).logs(),
    {
        self.storage.table.insert(slot_key_bytes(a, k), v);
    }

    /// Writes `v` to slot `k` of account `a`.
    pub fn sstore(&mut self, a: &Address, k: &Word, v: Word)
        requires
            old(self).wf(),
        ensures
            final(self).wf(),
            final(self).slots() == old(self).slots().insert(slot_key(a@, k@), v),
            final(self).codes() == old(self).codes(),
            final(self).logs() == old(self).logs(),
    {
        self.storage.table.insert(slot_key_bytes(a, k), v);
    }

    /// The code held for account `a`, if any.
    pub fn code(&self, a: &Address) -> (r: Option<&C>)
        requires
            self.wf(),
        ensures
            match r {
                Some(c) => self.codes().contains_key(a@) && *c == self.codes()[a@],
                None => !self.codes().contains_key(a@),
            },
    {
        self.codes.get(&a.bytes)
    }

    /// Keeps `code` as the code of account `a`.
    pub fn put_code(&mut self, a: &Address, code: C)
        requires
            old(self).wf(),
        ensures
            final(self).wf(),
            final(self).codes() == old(self).codes().insert(a@, code),
            final(self).slots() == old(self).slots(),
            final(self).logs() == old(self).logs(),
    {
        let key = crate::types::copy_bytes(&a.bytes);
        self.codes.insert(key, code);
    }

    /// Appends a log entry emitted by account `a`.
    pub fn emit_log(&mut self, a: Address, topics: Vec<Word>, data: Vec<u8>)
        ensures
            final(self).wf() == old(self).wf(),
            final(self).logs() == old(self).logs().push(LogRecord { address: a, topics, data }),
            final(self).slots() == old(self).slots(),
            final(self).codes() == old(self).codes(),
    {
        self.logs.push(LogRecord { address: a, topics, data });
    }

    /// Forgets the logs emitted so far.
    pub fn clear_logs(&mut self)
        ensures
            final(self).wf() == old(self).wf(),
            final(self).logs() == Seq::<LogRecord>::empty(),
            final(self).slots() == old(self).slots(),
            final(self).codes() == old(self).codes(),
    {
        self.logs.clear();
    }

    /// A copy of the storage as it stands.
    pub fn snapshot(&self) -> (r: StateSnapshot)
        requires
            self.wf(),
        ensures
            r.wf(),
            r.view() == self.slots(),
    {
        self.storage.duplicate()
    }

    /// Puts `snap` in place of the storage.
    pub fn restore(&mut self, snap: StateSnapshot)
        requires
            old(self).wf(),
            snap.wf(),
        ensures
            final(self).wf(),
            final(self).slots() == snap.view(),
            final(self).codes() == old(self).codes(),
            final(self).logs() == old(self).logs(),
    {
        self.storage = snap;
    }

    /// Puts `snap` in place of the storage and hands back the storage it replaced.
    pub fn swap_with(&mut self, snap: StateSnapshot) -> (r: StateSnapshot)
        requires
            old(self).wf(),
            snap.wf(),
        ensures
            final(self).wf(),
            r.wf(),
            final(self).slots() == snap.view(),
            r.view() == old(self).slots(),
            final(self).codes() == old(self).codes(),
            final(self).logs() == old(self).logs(),
    {
        let mut other = snap;
        core::mem::swap(&mut self.storage, &mut other);
        other
    }
}

} // verus!
