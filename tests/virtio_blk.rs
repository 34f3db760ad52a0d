use virtio_blk::{
    Exception, GuestMemory, Virtio, BYTE, DOUBLEWORD, HALFWORD, QUEUE_SIZE, VIRTIO_CONFIG,
    VIRTIO_CONFIG_END, VIRTIO_DEVICE_FEATURES, VIRTIO_DEVICE_FEATURES_SEL, VIRTIO_DEVICE_ID,
    VIRTIO_DRIVER_FEATURES, VIRTIO_DRIVER_FEATURES_SEL, VIRTIO_GUEST_PAGE_SIZE, VIRTIO_MAGIC,
    VIRTIO_MMIO_INTERRUPT_ACK, VIRTIO_MMIO_INTERRUPT_STATUS, VIRTIO_QUEUE_ALIGN,
    VIRTIO_QUEUE_NOTIFY, VIRTIO_QUEUE_NUM, VIRTIO_QUEUE_NUM_MAX, VIRTIO_QUEUE_PFN,
    VIRTIO_QUEUE_SEL, VIRTIO_STATUS, VIRTIO_VENDOR_ID, VIRTIO_VERSION, WORD,
};

const DRAM_BASE: u64 = 0x8000_0000;
const PAGE: u64 = 4096;
const QUEUE: u64 = DRAM_BASE;
const AVAIL: u64 = QUEUE + 0x40;
const USED: u64 = QUEUE + 4096;
const HEADER_BUF: u64 = QUEUE + 0x2000;
const DATA_BUF: u64 = QUEUE + 0x3000;
const STATUS_BUF: u64 = QUEUE + 0x4000;

const ALL_REGISTERS: [u64; 19] = [
    VIRTIO_MAGIC,
    VIRTIO_VERSION,
    VIRTIO_DEVICE_ID,
    VIRTIO_VENDOR_ID,
    VIRTIO_DEVICE_FEATURES,
    VIRTIO_DEVICE_FEATURES_SEL,
    VIRTIO_DRIVER_FEATURES,
    VIRTIO_DRIVER_FEATURES_SEL,
    VIRTIO_GUEST_PAGE_SIZE,
    VIRTIO_QUEUE_SEL,
    VIRTIO_QUEUE_NUM_MAX,
    VIRTIO_QUEUE_NUM,
    VIRTIO_QUEUE_ALIGN,
    VIRTIO_QUEUE_PFN,
    VIRTIO_QUEUE_NOTIFY,
    VIRTIO_MMIO_INTERRUPT_STATUS,
    VIRTIO_MMIO_INTERRUPT_ACK,
    VIRTIO_STATUS,
    VIRTIO_CONFIG,
];

fn put(mem: &mut GuestMemory, addr: u64, value: u64, size: u8) {
    assert_eq!(mem.write(addr, value, size), Ok(()));
}

fn get(mem: &GuestMemory, addr: u64, size: u8) -> u64 {
    mem.read(addr, size).unwrap()
}

fn put_desc(mem: &mut GuestMemory, index: u64, addr: u64, len: u64, flags: u64, next: u64) {
    let at = QUEUE + 16 * index;
    put(mem, at, addr, DOUBLEWORD);
    put(mem, at + 8, len, WORD);
    put(mem, at + 12, flags, HALFWORD);
    put(mem, at + 14, next, HALFWORD);
}

/// A device whose queue starts at `QUEUE`, with `disk_len` zero bytes of disk.
fn configured_device(disk_len: usize) -> Virtio {
    let mut dev = Virtio::new();
    dev.initialize(vec![0u8; disk_len]);
    assert_eq!(dev.write(VIRTIO_GUEST_PAGE_SIZE, PAGE, WORD), Ok(()));
    assert_eq!(dev.write(VIRTIO_QUEUE_NUM, QUEUE_SIZE, WORD), Ok(()));
    assert_eq!(dev.write(VIRTIO_QUEUE_PFN, QUEUE / PAGE, WORD), Ok(()));
    dev
}

/// Guest memory holding one request chain: header, data buffer of `len` bytes, status.
fn request_memory(sector: u64, len: u64, device_writes: bool) -> GuestMemory {
    let mut mem = GuestMemory::new(DRAM_BASE, 0x10000);
    let data_flags = if device_writes { 1 | 2 } else { 1 };
    put_desc(&mut mem, 0, HEADER_BUF, 16, 1, 1);
    put_desc(&mut mem, 1, DATA_BUF, len, data_flags, 2);
    put_desc(&mut mem, 2, STATUS_BUF, 1, 2, 0);
    put(&mut mem, HEADER_BUF, if device_writes { 0 } else { 1 }, WORD);
    put(&mut mem, HEADER_BUF + 8, sector, DOUBLEWORD);
    put(&mut mem, AVAIL + 2, 0, HALFWORD);
    put(&mut mem, AVAIL + 4, 0, HALFWORD);
    put(&mut mem, STATUS_BUF, 0xff, BYTE);
    mem
}

#[test]
fn identity_registers_are_constant() {
    let mut dev = Virtio::new();
    for round in 0..2 {
        for size in [BYTE, HALFWORD, WORD] {
            assert_eq!(dev.read(VIRTIO_MAGIC, size), Ok(0x74726976));
            assert_eq!(dev.read(VIRTIO_VERSION, size), Ok(1));
            assert_eq!(dev.read(VIRTIO_DEVICE_ID, size), Ok(2));
            assert_eq!(dev.read(VIRTIO_VENDOR_ID, size), Ok(0x554d4551));
        }
        if round == 0 {
            assert_eq!(dev.write(VIRTIO_STATUS, 0xf, WORD), Ok(()));
            assert_eq!(dev.write(VIRTIO_QUEUE_PFN, 0x1234, WORD), Ok(()));
            assert_eq!(dev.write(VIRTIO_QUEUE_NOTIFY, 0, WORD), Ok(()));
            assert_eq!(dev.write(VIRTIO_MAGIC, 0, WORD), Err(Exception::StoreAMOAccessFault));
        }
    }
}

#[test]
fn device_feature_words_round_trip() {
    let mut dev = Virtio::new();
    for (sel, value) in [(0u64, 0xdead_beefu64), (1, 0x0000_0001)] {
        assert_eq!(dev.write(VIRTIO_DEVICE_FEATURES_SEL, sel, WORD), Ok(()));
        assert_eq!(dev.write(VIRTIO_DEVICE_FEATURES, value, WORD), Ok(()));
        assert_eq!(dev.read(VIRTIO_DEVICE_FEATURES, WORD), Ok(value));
    }
    assert_eq!(dev.write(VIRTIO_DEVICE_FEATURES_SEL, 0, WORD), Ok(()));
    assert_eq!(dev.read(VIRTIO_DEVICE_FEATURES, WORD), Ok(0xdead_beef));
    // Only the low 32 bits of a write are kept.
    assert_eq!(dev.write(VIRTIO_DEVICE_FEATURES, 0x1_0000_0007, WORD), Ok(()));
    assert_eq!(dev.read(VIRTIO_DEVICE_FEATURES, WORD), Ok(7));
}

#[test]
fn feature_selector_past_two_words() {
    let mut dev = Virtio::new();
    assert_eq!(dev.write(VIRTIO_DEVICE_FEATURES_SEL, 2, WORD), Ok(()));
    assert_eq!(dev.write(VIRTIO_DEVICE_FEATURES, 5, WORD), Ok(()));
    assert_eq!(dev.read(VIRTIO_DEVICE_FEATURES, WORD), Ok(0));
    assert_eq!(dev.write(VIRTIO_DRIVER_FEATURES_SEL, 9, WORD), Ok(()));
    assert_eq!(dev.write(VIRTIO_DRIVER_FEATURES, 5, WORD), Ok(()));
    assert_eq!(dev.write(VIRTIO_DRIVER_FEATURES_SEL, 1, WORD), Ok(()));
    assert_eq!(dev.write(VIRTIO_DRIVER_FEATURES, 3, WORD), Ok(()));
}

#[test]
fn config_bytes_round_trip() {
    let mut dev = Virtio::new();
    for i in 0..8u64 {
        assert_eq!(dev.write(VIRTIO_CONFIG + i, 0xa0 + i, BYTE), Ok(()));
    }
    for i in 0..8u64 {
        assert_eq!(dev.read(VIRTIO_CONFIG + i, BYTE), Ok(0xa0 + i));
    }
}

#[test]
fn config_multi_byte_access_faults() {
    let mut dev = Virtio::new();
    for i in 0..8u64 {
        for size in [HALFWORD, WORD, DOUBLEWORD] {
            assert_eq!(dev.read(VIRTIO_CONFIG + i, size), Err(Exception::LoadAccessFault));
            assert_eq!(dev.write(VIRTIO_CONFIG + i, 1, size), Err(Exception::StoreAMOAccessFault));
        }
    }
    assert_eq!(dev.read(VIRTIO_CONFIG_END, BYTE), Err(Exception::LoadAccessFault));
    assert_eq!(dev.write(VIRTIO_CONFIG_END, 1, BYTE), Err(Exception::StoreAMOAccessFault));
}

#[test]
fn doubleword_access_faults_everywhere() {
    let mut dev = Virtio::new();
    for addr in ALL_REGISTERS {
        assert_eq!(dev.read(addr, DOUBLEWORD), Err(Exception::LoadAccessFault));
        assert_eq!(dev.write(addr, 1, DOUBLEWORD), Err(Exception::StoreAMOAccessFault));
    }
    assert_eq!(dev.read(VIRTIO_STATUS, WORD), Ok(0));
    assert!(!dev.is_interrupting());
}

#[test]
fn unknown_width_and_address_fault() {
    let mut dev = Virtio::new();
    assert_eq!(dev.read(VIRTIO_MAGIC, 7), Err(Exception::LoadAccessFault));
    assert_eq!(dev.write(VIRTIO_STATUS, 1, 0), Err(Exception::StoreAMOAccessFault));
    assert_eq!(dev.read(VIRTIO_MAGIC + 0x200, WORD), Err(Exception::LoadAccessFault));
    assert_eq!(dev.read(VIRTIO_GUEST_PAGE_SIZE, WORD), Err(Exception::LoadAccessFault));
    assert_eq!(dev.write(VIRTIO_QUEUE_NUM_MAX, 4, WORD), Err(Exception::StoreAMOAccessFault));
}

#[test]
fn plain_registers_hold_writes() {
    let mut dev = Virtio::new();
    assert_eq!(dev.read(VIRTIO_QUEUE_NUM_MAX, WORD), Ok(8));
    assert_eq!(dev.read(VIRTIO_QUEUE_PFN, WORD), Ok(0));
    assert_eq!(dev.write(VIRTIO_QUEUE_PFN, 0x80000, WORD), Ok(()));
    assert_eq!(dev.read(VIRTIO_QUEUE_PFN, WORD), Ok(0x80000));
    assert_eq!(dev.write(VIRTIO_STATUS, 0xb, WORD), Ok(()));
    assert_eq!(dev.read(VIRTIO_STATUS, HALFWORD), Ok(0xb));
    assert_eq!(dev.write(VIRTIO_STATUS, 0, WORD), Ok(()));
    assert_eq!(dev.read(VIRTIO_STATUS, WORD), Ok(0));
    assert_eq!(dev.write(VIRTIO_QUEUE_SEL, 0, WORD), Ok(()));
    assert_eq!(dev.write(VIRTIO_QUEUE_ALIGN, 4096, WORD), Ok(()));
}

#[test]
fn interrupt_ack_clears_bit_zero() {
    let mut dev = configured_device(1024);
    let mut mem = request_memory(0, 16, false);
    assert_eq!(dev.disk_access(&mut mem), Ok(()));
    assert_eq!(dev.read(VIRTIO_MMIO_INTERRUPT_STATUS, WORD), Ok(1));
    assert_eq!(dev.write(VIRTIO_MMIO_INTERRUPT_ACK, 1, WORD), Ok(()));
    assert_eq!(dev.read(VIRTIO_MMIO_INTERRUPT_STATUS, WORD), Ok(0));
}

#[test]
fn interrupt_ack_without_bit_zero_is_an_error() {
    let mut dev = Virtio::new();
    assert_eq!(dev.write(VIRTIO_MMIO_INTERRUPT_ACK, 2, WORD), Err(Exception::InvalidInterruptAck));
    assert_eq!(dev.write(VIRTIO_MMIO_INTERRUPT_ACK, 0, WORD), Err(Exception::InvalidInterruptAck));
    assert_eq!(dev.read(VIRTIO_MMIO_INTERRUPT_STATUS, WORD), Ok(0));
}

#[test]
fn notification_is_reported_once() {
    let mut dev = Virtio::new();
    assert!(!dev.is_interrupting());
    assert_eq!(dev.write(VIRTIO_QUEUE_NOTIFY, 0, WORD), Ok(()));
    assert!(dev.is_interrupting());
    assert!(!dev.is_interrupting());
    // A notified index equal to an old sentinel value is still a notification.
    assert_eq!(dev.write(VIRTIO_QUEUE_NOTIFY, 9999, WORD), Ok(()));
    assert!(dev.is_interrupting());
    assert!(!dev.is_interrupting());
}

#[test]
fn write_request_copies_guest_buffer_to_disk() {
    let mut dev = configured_device(2048);
    let mut mem = request_memory(0, 512, false);
    for i in 0..512u64 {
        put(&mut mem, DATA_BUF + i, 0xaa, BYTE);
    }
    assert_eq!(dev.write(VIRTIO_QUEUE_NOTIFY, 0, WORD), Ok(()));
    assert_eq!(dev.disk_access(&mut mem), Ok(()));
    assert_eq!(get(&mem, USED + 2, HALFWORD), 0);
    assert_eq!(get(&mem, STATUS_BUF, BYTE), 0);
    assert!(dev.is_interrupting());
    assert!(!dev.is_interrupting());

    // Read the disk back through a device-writes request of the same sector.
    let mut back = request_memory(0, 1024, true);
    assert_eq!(dev.disk_access(&mut back), Ok(()));
    for i in 0..512u64 {
        assert_eq!(get(&back, DATA_BUF + i, BYTE), 0xaa);
    }
    for i in 512..1024u64 {
        assert_eq!(get(&back, DATA_BUF + i, BYTE), 0);
    }
}

#[test]
fn read_request_copies_disk_sector_to_guest() {
    let mut dev = Virtio::new();
    let mut disk = vec![0u8; 8 * 512];
    for i in 0..512usize {
        disk[3 * 512 + i] = (i % 251) as u8;
    }
    dev.initialize(disk);
    assert_eq!(dev.write(VIRTIO_GUEST_PAGE_SIZE, PAGE, WORD), Ok(()));
    assert_eq!(dev.write(VIRTIO_QUEUE_PFN, QUEUE / PAGE, WORD), Ok(()));
    let mut mem = request_memory(3, 512, true);
    assert_eq!(dev.disk_access(&mut mem), Ok(()));
    for i in 0..512u64 {
        assert_eq!(get(&mem, DATA_BUF + i, BYTE), i % 251);
    }
    assert_eq!(get(&mem, DATA_BUF + 512, BYTE), 0);
    assert_eq!(get(&mem, STATUS_BUF, BYTE), 0);
    assert_eq!(get(&mem, USED + 2, HALFWORD), 0);
}

#[test]
fn used_ids_advance_modulo_queue_size() {
    let mut dev = configured_device(4096);
    let mut mem = request_memory(1, 4, false);
    for slot in 0..8u64 {
        put(&mut mem, AVAIL + 4 + 2 * slot, 0, HALFWORD);
    }
    for k in 0..20u64 {
        put(&mut mem, AVAIL + 2, k, HALFWORD);
        assert_eq!(dev.disk_access(&mut mem), Ok(()));
        assert_eq!(get(&mem, USED + 2, HALFWORD), k % 8);
    }
}

#[test]
fn available_slot_picks_head_descriptor() {
    let mut dev = configured_device(1024);
    let mut mem = request_memory(0, 4, true);
    // Move the chain to entries 5, 6 and 7 and point slot 3 at it.
    put_desc(&mut mem, 5, HEADER_BUF, 16, 1, 6);
    put_desc(&mut mem, 6, DATA_BUF, 4, 1 | 2, 7);
    put_desc(&mut mem, 7, STATUS_BUF, 1, 2, 0);
    put_desc(&mut mem, 0, 0, 0, 0, 0);
    put(&mut mem, AVAIL + 2, 11, HALFWORD);
    put(&mut mem, AVAIL + 4 + 2 * 3, 5, HALFWORD);
    let mut disk_dev = Virtio::new();
    disk_dev.initialize(vec![9u8, 8, 7, 6]);
    assert_eq!(disk_dev.write(VIRTIO_GUEST_PAGE_SIZE, PAGE, WORD), Ok(()));
    assert_eq!(disk_dev.write(VIRTIO_QUEUE_PFN, QUEUE / PAGE, WORD), Ok(()));
    assert_eq!(disk_dev.disk_access(&mut mem), Ok(()));
    assert_eq!(get(&mem, DATA_BUF, WORD), 0x0607_0809);
    assert_eq!(get(&mem, STATUS_BUF, BYTE), 0);
    assert_eq!(dev.read(VIRTIO_MMIO_INTERRUPT_STATUS, WORD), Ok(0));
}

#[test]
fn transfer_past_disk_end_is_refused() {
    let mut dev = configured_device(1024);
    let mut mem = request_memory(1, 513, false);
    assert_eq!(dev.disk_access(&mut mem), Err(Exception::DiskOutOfBounds));
    // Nothing was written: the status byte and the used ring are untouched.
    assert_eq!(get(&mem, STATUS_BUF, BYTE), 0xff);
    assert_eq!(get(&mem, USED + 2, HALFWORD), 0);
    assert_eq!(dev.read(VIRTIO_MMIO_INTERRUPT_STATUS, WORD), Ok(0));

    let mut huge = request_memory(u64::MAX / 2, 1, false);
    assert_eq!(dev.disk_access(&mut huge), Err(Exception::DiskOutOfBounds));

    let mut last = request_memory(1, 512, false);
    assert_eq!(dev.disk_access(&mut last), Ok(()));
}

#[test]
fn request_outside_memory_faults() {
    // No queue configured: the available ring lies at address 0x40, outside memory.
    let mut dev = Virtio::new();
    dev.initialize(vec![0u8; 512]);
    let mut mem = request_memory(0, 4, false);
    assert_eq!(dev.disk_access(&mut mem), Err(Exception::LoadAccessFault));

    // A data buffer outside memory faults as a load when the device reads it.
    let mut dev = configured_device(1024);
    let mut mem = request_memory(0, 4, false);
    put_desc(&mut mem, 1, 0x10, 4, 1, 2);
    assert_eq!(dev.disk_access(&mut mem), Err(Exception::LoadAccessFault));
    // ... and as a store when the device writes it.
    put_desc(&mut mem, 1, 0x10, 4, 1 | 2, 2);
    assert_eq!(dev.disk_access(&mut mem), Err(Exception::StoreAMOAccessFault));

    // A status byte outside memory faults as a store.
    let mut mem = request_memory(0, 4, false);
    put_desc(&mut mem, 2, 0x10, 1, 2, 0);
    assert_eq!(dev.disk_access(&mut mem), Err(Exception::StoreAMOAccessFault));
    assert_eq!(dev.read(VIRTIO_MMIO_INTERRUPT_STATUS, WORD), Ok(0));
}

#[test]
fn guest_memory_is_little_endian() {
    let mut mem = GuestMemory::new(0x1000, 16);
    assert_eq!(mem.base(), 0x1000);
    assert_eq!(mem.len(), 16);
    assert_eq!(mem.write(0x1000, 0x0102_0304_0506_0708, DOUBLEWORD), Ok(()));
    assert_eq!(mem.read(0x1000, BYTE), Ok(0x08));
    assert_eq!(mem.read(0x1007, BYTE), Ok(0x01));
    assert_eq!(mem.read(0x1002, HALFWORD), Ok(0x0506));
    assert_eq!(mem.read(0x1004, WORD), Ok(0x0102_0304));
    assert_eq!(mem.write(0x1008, 0xabcd, BYTE), Ok(()));
    assert_eq!(mem.read(0x1008, HALFWORD), Ok(0x00cd));
}

#[test]
fn guest_memory_bounds() {
    let mut mem = GuestMemory::new(0x1000, 16);
    assert_eq!(mem.read(0x0fff, BYTE), Err(Exception::LoadAccessFault));
    assert_eq!(mem.read(0x100f, BYTE), Ok(0));
    assert_eq!(mem.read(0x100f, HALFWORD), Err(Exception::LoadAccessFault));
    assert_eq!(mem.read(0x1000, 12), Err(Exception::LoadAccessFault));
    assert_eq!(mem.write(0x1010, 1, BYTE), Err(Exception::StoreAMOAccessFault));
    assert_eq!(mem.write(0x100d, 1, WORD), Err(Exception::StoreAMOAccessFault));
    assert_eq!(mem.read(0x100c, WORD), Ok(0));

    let mut top = GuestMemory::new(u64::MAX - 3, 4);
    assert_eq!(top.write(u64::MAX - 3, 0xdead_beef, WORD), Ok(()));
    assert_eq!(top.read(u64::MAX, BYTE), Ok(0xde));
    assert_eq!(top.read(u64::MAX, HALFWORD), Err(Exception::LoadAccessFault));
}
