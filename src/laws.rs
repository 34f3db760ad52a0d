use vstd::prelude::*;

use crate::exception::Exception;
use crate::memory::{
    le_bytes, lemma_le_bytes_len, lemma_le_round_trip, pow256, MemoryView, BYTE, DOUBLEWORD,
    HALFWORD, WORD,
};
use crate::virtio::{
    register_width, BlockRequest, VirtioView, DEVICE_ID_VALUE, MAGIC_VALUE, QUEUE_SIZE,
    VENDOR_ID_VALUE, VERSION_VALUE, VIRTIO_CONFIG, VIRTIO_DEVICE_FEATURES,
    VIRTIO_DEVICE_FEATURES_SEL, VIRTIO_DEVICE_ID, VIRTIO_MAGIC, VIRTIO_VENDOR_ID, VIRTIO_VERSION,
};

verus! {

/// The identification registers read as their fixed values in every state of the device,
/// at every width that registers serve.
pub proof fn lemma_identity_registers(d: VirtioView, size: u8)
    requires
        register_width(size),
    ensures
        d.read_result(VIRTIO_MAGIC, size) == Ok::<u64, Exception>(MAGIC_VALUE),
        d.read_result(VIRTIO_VERSION, size) == Ok::<u64, Exception>(VERSION_VALUE),
        d.read_result(VIRTIO_DEVICE_ID, size) == Ok::<u64, Exception>(DEVICE_ID_VALUE),
        d.read_result(VIRTIO_VENDOR_ID, size) == Ok::<u64, Exception>(VENDOR_ID_VALUE),
{
}

/// Selecting feature word `sel` (0 or 1), writing `value` to the feature register and
/// reading that register back gives the 32 bits written.
pub proof fn lemma_feature_round_trip(d: VirtioView, sel: u64, value: u64, size: u8)
    requires
        d.wf(),
        sel < 2,
        register_width(size),
    ensures
        d.write_result(VIRTIO_DEVICE_FEATURES_SEL, sel, size) is Ok,
        ({
            let d1 = d.write_result(VIRTIO_DEVICE_FEATURES_SEL, sel, size)->Ok_0;
            &&& d1.write_result(VIRTIO_DEVICE_FEATURES, value, size) is Ok
            &&& d1.write_result(VIRTIO_DEVICE_FEATURES, value, size)->Ok_0.read_result(
                VIRTIO_DEVICE_FEATURES,
                size,
            ) == Ok::<u64, Exception>((value as u32) as u64)
        }),
{
}

/// A byte written to any of the eight bytes of the configuration space reads back as
/// written; reads and writes of more than a byte there fault.
pub proof fn lemma_config_round_trip(d: VirtioView, i: u64, b: u8, value: u64, size: u8)
    requires
        d.wf(),
        i < 8,
        size != BYTE,
    ensures
        d.write_result((VIRTIO_CONFIG + i) as u64, b as u64, BYTE) is Ok,
        d.write_result((VIRTIO_CONFIG + i) as u64, b as u64, BYTE)->Ok_0.read_result((VIRTIO_CONFIG + i) as u64, BYTE)
            == Ok::<u64, Exception>(b as u64),
        d.read_result((VIRTIO_CONFIG + i) as u64, size) == Err::<u64, Exception>(Exception::LoadAccessFault),
        d.write_result((VIRTIO_CONFIG + i) as u64, value, size) == Err::<VirtioView, Exception>(
            Exception::StoreAMOAccessFault,
        ),
{
    assert((b as u64) as u8 == b) by (bit_vector);
}

/// No register serves an access of a doubleword, read or write.
pub proof fn lemma_doubleword_faults(d: VirtioView, addr: u64, value: u64)
    ensures
        d.read_result(addr, DOUBLEWORD) == Err::<u64, Exception>(Exception::LoadAccessFault),
        d.write_result(addr, value, DOUBLEWORD) == Err::<VirtioView, Exception>(
            Exception::StoreAMOAccessFault,
        ),
{
}

/// One successful notification took the device from `(d0, m0)` to `(d1, m1)`.
pub open spec fn access_step(d0: VirtioView, m0: MemoryView, d1: VirtioView, m1: MemoryView) -> bool {
    match d0.access_result(m0) {
        Ok(req) => d1 == d0.device_after(m0, req) && m1 == d0.memory_after(m0, req),
        Err(_) => false,
    }
}

/// The 16-bit index that the used ring of `d`'s queue holds in `m`.
pub open spec fn used_index(d: VirtioView, m: MemoryView) -> Option<u64> {
    m.load(d.used_base() + 2, 2)
}

/// A served request leaves its id modulo the queue size in the used ring, and the next id
/// is one more modulo the queue size.
pub proof fn lemma_access_writes_id(d: VirtioView, m: MemoryView, req: BlockRequest)
    requires
        d.access_result(m) == Ok::<BlockRequest, Exception>(req),
    ensures
        d.device_after(m, req).used_base() == d.used_base(),
        used_index(d, d.memory_after(m, req)) == Some((d.id % QUEUE_SIZE) as u64),
{
    let after = d.memory_after(m, req);
    let addr = d.used_base() + 2;
    let v = (d.id % QUEUE_SIZE) as nat;
    reveal_with_fuel(pow256, 3);
    lemma_le_round_trip(v, 2);
    lemma_le_bytes_len(v, 2);
    assert(after.slice(addr, 2) =~= le_bytes(v, 2));
}

/// Over consecutive successful notifications, the `k`-th writes the id it started from plus
/// `k`, modulo the queue size, into the used ring.
pub proof fn lemma_used_ids_follow_counter(devs: Seq<VirtioView>, mems: Seq<MemoryView>)
    requires
        devs.len() == mems.len(),
        forall|k: int|
            0 <= k < devs.len() - 1 ==> access_step(
                #[trigger] devs[k],
                mems[k],
                devs[k + 1],
                mems[k + 1],
            ),
    ensures
        forall|k: int|
            0 <= k < devs.len() - 1 ==> #[trigger] used_index(devs[k], mems[k + 1]) == Some(
                ((devs[0].id + k) % (QUEUE_SIZE as int)) as u64,
            ),
{
    assert forall|k: int| 0 <= k < devs.len() - 1 implies #[trigger] devs[k + 1].id == devs[k].next_id()
        && used_index(devs[k], mems[k + 1]) == Some((devs[k].id % QUEUE_SIZE) as u64) by {
        assert(access_step(devs[k], mems[k], devs[k + 1], mems[k + 1]));
        let req = devs[k].access_result(mems[k])->Ok_0;
        lemma_access_writes_id(devs[k], mems[k], req);
    }
    assert forall|k: int| 0 <= k < devs.len() - 1 implies #[trigger] used_index(devs[k], mems[k + 1])
        == Some(((devs[0].id + k) % (QUEUE_SIZE as int)) as u64) by {
        lemma_ids_advance(devs, k);
        assert(devs[k + 1].id == devs[k].next_id());
    }
}

/// After `k` allocations the request counter has advanced by `k` modulo the queue size.
proof fn lemma_ids_advance(devs: Seq<VirtioView>, k: int)
    requires
        0 <= k < devs.len(),
        forall|j: int| 0 <= j < devs.len() - 1 ==> devs[j + 1].id == #[trigger] devs[j].next_id(),
    ensures
        devs[k].id as int % (QUEUE_SIZE as int) == (devs[0].id + k) % (QUEUE_SIZE as int),
    decreases k,
{
    if k > 0 {
        lemma_ids_advance(devs, k - 1);
        assert(devs[k].id == devs[k - 1].next_id());
        let a = devs[k - 1].id as int;
        let z = devs[0].id as int;
        assert(devs[k].id as int % 8 == (a + 1) % 8);
        assert((a + 1) % 8 == (z + k) % 8) by {
            vstd::arithmetic::div_mod::lemma_add_mod_noop(a, 1, 8);
            vstd::arithmetic::div_mod::lemma_add_mod_noop(z + k - 1, 1, 8);
        }
    }
}

} // verus!
