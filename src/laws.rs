use vstd::prelude::*;

use crate::host::TestHost;
use crate::overlay::{read_slot, slot_key, SlotRead, StateSnapshot};
use crate::recorder::{erc20_observed, has_selector, transfer_from_selector, transfer_selector};
use crate::types::Word;

verus! {

/// The storage map after writing each (address, slot, value) of `writes` in order.
pub open spec fn apply_writes(m: Map<Seq<u8>, Word>, writes: Seq<(Seq<u8>, Seq<u8>, Word)>) -> Map<Seq<u8>, Word>
    decreases writes.len(),
{
    if writes.len() == 0 {
        m
    } else {
        let w = writes.last();
        apply_writes(m, writes.drop_last()).insert(slot_key(w.0, w.1), w.2)
    }
}

/// Distinct (address, slot) pairs of the right sizes have distinct storage keys.
pub proof fn lemma_slot_key_injective(a: Seq<u8>, k: Seq<u8>, a2: Seq<u8>, k2: Seq<u8>)
    requires
        a.len() == 20,
        a2.len() == 20,
        k.len() == 32,
        k2.len() == 32,
        slot_key(a, k) == slot_key(a2, k2),
    ensures
        a == a2,
        k == k2,
{
    assert(a =~= slot_key(a, k).subrange(0, 20));
    assert(a2 =~= slot_key(a2, k2).subrange(0, 20));
    assert(k =~= slot_key(a, k).subrange(20, 52));
    assert(k2 =~= slot_key(a2, k2).subrange(20, 52));
}

/// Two reads of one slot with no write between give the same value, and the
/// second is served locally: a first read either finds the slot held, or asks
/// for it to be fetched, after which the fetched value is kept.
pub proof fn law_lazy_fetch_idempotent(m: Map<Seq<u8>, Word>, a: Seq<u8>, k: Seq<u8>, fetched: Word)
    ensures
        ({
            let first = read_slot(m, a, k);
            let value = match first {
                SlotRead::Cached(v) => v,
                SlotRead::Fetch => fetched,
            };
            let kept = match first {
                SlotRead::Cached(_) => m,
                SlotRead::Fetch => m.insert(slot_key(a, k), fetched),
            };
            read_slot(kept, a, k) == SlotRead::Cached(value)
        }),
{
}

/// After `v` is written to slot `k` of account `a`, reading that slot gives `v`,
/// whatever is written to other slots afterwards.
pub proof fn law_write_read_coherent(
    m: Map<Seq<u8>, Word>,
    a: Seq<u8>,
    k: Seq<u8>,
    v: Word,
    later: Seq<(Seq<u8>, Seq<u8>, Word)>,
)
    requires
        a.len() == 20,
        k.len() == 32,
        forall|i: int| 0 <= i < later.len() ==> (#[trigger] later[i]).0.len() == 20 && later[i].1.len() == 32,
        forall|i: int| 0 <= i < later.len() ==> ((#[trigger] later[i]).0, later[i].1) != (a, k),
    ensures
        read_slot(apply_writes(m.insert(slot_key(a, k), v), later), a, k) == SlotRead::Cached(v),
    decreases later.len(),
{
    if later.len() > 0 {
        let w = later.last();
        assert(later[later.len() - 1] == w);
        law_write_read_coherent(m, a, k, v, later.drop_last());
        if slot_key(w.0, w.1) == slot_key(a, k) {
            lemma_slot_key_injective(a, k, w.0, w.1);
        }
    }
}

/// A call run against the earlier state sees every slot as it was when the test
/// call began, whatever was written since; once it returns, the storage is as it
/// was before it. The hosts are taken at these points: `entry` when `test_call`
/// is planned, `begun` right after, `written` after any reads and writes,
/// `swapped` after `call_prev_state` is planned (handing back `saved`), and
/// `restored` after `finish_prev_state`. The requirements are what those
/// functions ensure.
pub proof fn law_snapshot_isolation<C>(
    entry: TestHost<C>,
    begun: TestHost<C>,
    written: TestHost<C>,
    swapped: TestHost<C>,
    saved: StateSnapshot,
    restored: TestHost<C>,
)
    requires
        begun.prev_slots() == entry.slots(),
        written.prev_slots() == begun.prev_slots(),
        swapped.slots() == written.prev_slots(),
        saved.view() == written.slots(),
        restored.slots() == saved.view(),
    ensures
        forall|a: Seq<u8>, k: Seq<u8>| #[trigger] read_slot(swapped.slots(), a, k) == read_slot(entry.slots(), a, k),
        restored.slots() == written.slots(),
{
}

/// A `transfer` adds exactly its recipient; a `transferFrom` adds exactly its
/// recipient and then its sender; any other calldata adds nothing.
pub proof fn law_erc20_observation_exact(data: Seq<u8>, token: Seq<u8>)
    ensures
        has_selector(data, transfer_selector()) && data.len() >= 36 ==> erc20_observed(data, token)
            == seq![(data.subrange(16, 36), token)],
        has_selector(data, transfer_from_selector()) && data.len() >= 68 ==> erc20_observed(data, token)
            == seq![(data.subrange(48, 68), token), (data.subrange(12, 32), token)],
        !has_selector(data, transfer_selector()) && !has_selector(data, transfer_from_selector())
            ==> erc20_observed(data, token).len() == 0,
        data.len() < 4 ==> erc20_observed(data, token).len() == 0,
{
    if has_selector(data, transfer_from_selector()) && has_selector(data, transfer_selector()) {
        assert(data.subrange(0, 4)[0] == data[0]);
    }
}

/// Code installed at an address stays there: the code map only grows.
pub proof fn law_deployed_code_kept<C>(installed: Map<Seq<u8>, C>, later: Map<Seq<u8>, C>, a: Seq<u8>, runtime: C)
    requires
        installed.contains_key(a),
        installed[a] == runtime,
        installed.submap_of(later),
    ensures
        later.contains_key(a),
        later[a] == runtime,
{
    assert(installed.dom().contains(a) && later.dom().contains(a));
}

} // verus!
