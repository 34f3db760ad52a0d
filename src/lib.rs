//! A virtio block device behind a legacy MMIO register window.
//!
//! The guest configures the device through 32-bit little-endian registers, then notifies it
//! of a request: a chain of three descriptors (header, data, status) in a single queue whose
//! descriptor table, available ring and used ring sit at fixed offsets from one guest page.
//! Serving the request moves bytes between guest memory and the disk and reports completion
//! in the used ring and the interrupt status.

mod exception;
mod laws;
mod memory;
mod virtio;

pub use exception::Exception;
pub use laws::{
    access_step, lemma_access_writes_id, lemma_config_round_trip, lemma_doubleword_faults,
    lemma_feature_round_trip, lemma_identity_registers, lemma_used_ids_follow_counter, used_index,
};
pub use memory::{
    le_bytes, le_value, lemma_le_round_trip, pow256, splice, width_bytes, GuestMemory,
    MemoryView, BYTE, DOUBLEWORD, HALFWORD, WORD,
};
pub use virtio::{
    Virtio, VirtioView, VirtqDesc, BlockRequest, desc_at, disk_offset, in_config, load_result,
    register_width, status_written, to_disk, DEVICE_ID_VALUE, MAGIC_VALUE, QUEUE_SIZE,
    SECTOR_SIZE, VENDOR_ID_VALUE, VERSION_VALUE, VIRTIO_BASE, VIRTIO_CONFIG, VIRTIO_CONFIG_END,
    VIRTIO_DEVICE_FEATURES, VIRTIO_DEVICE_FEATURES_SEL, VIRTIO_DEVICE_ID,
    VIRTIO_DRIVER_FEATURES, VIRTIO_DRIVER_FEATURES_SEL, VIRTIO_GUEST_PAGE_SIZE, VIRTIO_IRQ,
    VIRTIO_MAGIC, VIRTIO_MMIO_INTERRUPT_ACK, VIRTIO_MMIO_INTERRUPT_STATUS, VIRTIO_QUEUE_ALIGN,
    VIRTIO_QUEUE_NOTIFY, VIRTIO_QUEUE_NUM, VIRTIO_QUEUE_NUM_MAX, VIRTIO_QUEUE_PFN,
    VIRTIO_QUEUE_SEL, VIRTIO_STATUS, VIRTIO_VENDOR_ID, VIRTIO_VERSION, VRING_DESC_SIZE,
};
