use vstd::prelude::*;

use crate::exception::Exception;
use crate::memory::{pow256, splice, width_bytes, GuestMemory, MemoryView, BYTE, DOUBLEWORD, HALFWORD, WORD};

verus! {

/// The first address of the device's MMIO window.
pub const VIRTIO_BASE: u64 = 0x1000_1000;
/// The interrupt request line of the device.
pub const VIRTIO_IRQ: u64 = 1;

/// The size in bytes of one entry of the descriptor table.
pub const VRING_DESC_SIZE: u64 = 16;
/// The number of entries of the queue; a power of two.
pub const QUEUE_SIZE: u64 = 8;
/// The size in bytes of a sector of the backing store.
pub const SECTOR_SIZE: u64 = 512;

/// Magic value: "virt" read as a little-endian word.
pub const VIRTIO_MAGIC: u64 = VIRTIO_BASE + 0x000;
/// Device version number; 1 is the legacy interface.
pub const VIRTIO_VERSION: u64 = VIRTIO_BASE + 0x004;
/// Subsystem device ID; 2 is a block device.
pub const VIRTIO_DEVICE_ID: u64 = VIRTIO_BASE + 0x008;
/// Subsystem vendor ID.
pub const VIRTIO_VENDOR_ID: u64 = VIRTIO_BASE + 0x00c;
/// The word of the device's feature bits that the device selector picks.
pub const VIRTIO_DEVICE_FEATURES: u64 = VIRTIO_BASE + 0x010;
/// Selects a word of the device's feature bits.
pub const VIRTIO_DEVICE_FEATURES_SEL: u64 = VIRTIO_BASE + 0x014;
/// The word of the driver's activated feature bits that the driver selector picks.
pub const VIRTIO_DRIVER_FEATURES: u64 = VIRTIO_BASE + 0x020;
/// Selects a word of the driver's activated feature bits.
pub const VIRTIO_DRIVER_FEATURES_SEL: u64 = VIRTIO_BASE + 0x024;
/// Guest page size in bytes, used to turn the queue's page number into an address.
pub const VIRTIO_GUEST_PAGE_SIZE: u64 = VIRTIO_BASE + 0x028;
/// Queue selector.
pub const VIRTIO_QUEUE_SEL: u64 = VIRTIO_BASE + 0x030;
/// The largest queue size that the device serves.
pub const VIRTIO_QUEUE_NUM_MAX: u64 = VIRTIO_BASE + 0x034;
/// The queue size that the driver uses.
pub const VIRTIO_QUEUE_NUM: u64 = VIRTIO_BASE + 0x038;
/// Alignment of the used ring.
pub const VIRTIO_QUEUE_ALIGN: u64 = VIRTIO_BASE + 0x03c;
/// Guest page number of the queue; 0 means that no queue is set up.
pub const VIRTIO_QUEUE_PFN: u64 = VIRTIO_BASE + 0x040;
/// Queue notifier: the driver writes a queue index here when it has new requests.
pub const VIRTIO_QUEUE_NOTIFY: u64 = VIRTIO_BASE + 0x050;
/// Bit mask of the events that caused the device interrupt.
pub const VIRTIO_MMIO_INTERRUPT_STATUS: u64 = VIRTIO_BASE + 0x060;
/// Interrupt acknowledgement: the driver writes back the events it has handled.
pub const VIRTIO_MMIO_INTERRUPT_ACK: u64 = VIRTIO_BASE + 0x064;
/// Device status flags; writing 0 resets the device.
pub const VIRTIO_STATUS: u64 = VIRTIO_BASE + 0x070;
/// First byte of the configuration space.
pub const VIRTIO_CONFIG: u64 = VIRTIO_BASE + 0x100;
/// The address just past the configuration space.
pub const VIRTIO_CONFIG_END: u64 = VIRTIO_CONFIG + 0x8;

/// The value of the magic register.
pub const MAGIC_VALUE: u64 = 0x74726976;
/// The value of the version register.
pub const VERSION_VALUE: u64 = 0x1;
/// The value of the device ID register.
pub const DEVICE_ID_VALUE: u64 = 0x2;
/// The value of the vendor ID register.
pub const VENDOR_ID_VALUE: u64 = 0x554d4551;

/// Whether a register access of `size` bits is served: byte, halfword or word.
pub open spec fn register_width(size: u8) -> bool {
    size == BYTE || size == HALFWORD || size == WORD
}

/// Whether `addr` lies in the configuration space.
pub open spec fn in_config(addr: u64) -> bool {
    VIRTIO_CONFIG <= addr < VIRTIO_CONFIG_END
}

/// The abstract state of the device: its registers and its backing store.
pub ghost struct VirtioView {
    /// The id that the next served request gets.
    pub id: u64,
    pub device_features: Seq<u32>,
    pub device_features_sel: u32,
    pub driver_features: Seq<u32>,
    pub driver_features_sel: u32,
    pub guest_page_size: u32,
    /// Accepted and kept, but it picks nothing: the device has a single queue.
    pub queue_sel: u32,
    pub queue_num: u32,
    pub queue_align: u32,
    pub queue_pfn: u32,
    /// The queue index of a notification not yet reported by `is_interrupting`.
    pub queue_notify: Option<u32>,
    pub interrupt_status: u32,
    pub status: u32,
    pub config: Seq<u8>,
    pub disk: Seq<u8>,
}

impl VirtioView {
    /// Two feature words on each side and eight bytes of configuration space.
    pub open spec fn wf(self) -> bool {
        &&& self.device_features.len() == 2
        &&& self.driver_features.len() == 2
        &&& self.config.len() == 8
    }

    /// The device as it comes out of construction.
    pub open spec fn initial() -> VirtioView {
        VirtioView {
            id: 0,
            device_features: seq![0u32, 0u32],
            device_features_sel: 0,
            driver_features: seq![0u32, 0u32],
            driver_features_sel: 0,
            guest_page_size: 0,
            queue_sel: 0,
            queue_num: 0,
            queue_align: 0,
            queue_pfn: 0,
            queue_notify: None,
            interrupt_status: 0,
            status: 0,
            config: seq![0u8, 0u8, 0u8, 0u8, 0u8, 0u8, 0u8, 0u8],
            disk: Seq::empty(),
        }
    }

    /// The word of the device's feature bits that the selector picks; 0 past the two words.
    pub open spec fn device_feature_word(self) -> u32 {
        if self.device_features_sel < 2 {
            self.device_features[self.device_features_sel as int]
        } else {
            0
        }
    }

    /// Guest address of the descriptor table.
    pub open spec fn queue_base(self) -> int {
        self.queue_pfn as int * self.guest_page_size as int
    }

    /// Guest address of the available ring.
    pub open spec fn avail_base(self) -> int {
        self.queue_base() + 0x40
    }

    /// Guest address of the used ring.
    pub open spec fn used_base(self) -> int {
        self.queue_base() + 4096
    }

    /// The request that the available ring points at: the ring's index, the head found in
    /// the slot at that index modulo the queue size, the header and data descriptors that
    /// follow from it, the status address stored at the third entry, and the sector number
    /// in the header's buffer. `None` where one of these lies outside memory. Only this
    /// header, data and status shape is served: the links are followed exactly twice.
    pub open spec fn request_in(self, mem: MemoryView) -> Option<BlockRequest> {
        let q = self.queue_base();
        match mem.load(self.avail_base() + 2, 2) {
            None => None,
            Some(idx) => match mem.load(self.avail_base() + 4 + 2 * (idx % QUEUE_SIZE), 2) {
                None => None,
                Some(head) => match desc_at(mem, q + 16 * head) {
                    None => None,
                    Some(header) => match desc_at(mem, q + 16 * header.next) {
                        None => None,
                        Some(data) => match mem.load(q + 16 * data.next, 8) {
                            None => None,
                            Some(status_addr) => match mem.load(header.addr + 8, 8) {
                                None => None,
                                Some(sector) => Some(
                                    BlockRequest { header, data, status_addr, sector },
                                ),
                            },
                        },
                    },
                },
            },
        }
    }

    /// The request counter after one allocation: one more, wrapping to 0.
    pub open spec fn next_id(self) -> u64 {
        if self.id == u64::MAX {
            0
        } else {
            (self.id + 1) as u64
        }
    }

    /// The request that a notification serves, or the error that serving it reports. Reading
    /// the request faults first; then a transfer past the end of the disk is refused; then
    /// a status byte, data buffer or used ring outside memory faults as the access that would
    /// touch it (the data buffer is read when it flows to the disk, written otherwise).
    pub open spec fn access_result(self, mem: MemoryView) -> Result<BlockRequest, Exception> {
        match self.request_in(mem) {
            None => Err(Exception::LoadAccessFault),
            Some(req) => {
                if req.sector * SECTOR_SIZE + req.data.len > self.disk.len() {
                    Err(Exception::DiskOutOfBounds)
                } else if !mem.holds(req.status_addr as int, 1) {
                    Err(Exception::StoreAMOAccessFault)
                } else if req.data.len > 0 && !mem.holds(req.data.addr as int, req.data.len as nat) {
                    if to_disk(req) {
                        Err(Exception::LoadAccessFault)
                    } else {
                        Err(Exception::StoreAMOAccessFault)
                    }
                } else if !mem.holds(self.used_base() + 2, 2) {
                    Err(Exception::StoreAMOAccessFault)
                } else {
                    Ok(req)
                }
            },
        }
    }

    /// The device after serving `req`: the data buffer's bytes, as they stand once the
    /// status byte is written, copied to the disk at the request's sector where they flow to
    /// the disk; one more request id; bit 0 of the interrupt status set.
    pub open spec fn device_after(self, mem: MemoryView, req: BlockRequest) -> VirtioView {
        let m1 = status_written(mem, req);
        let off = disk_offset(req);
        VirtioView {
            id: self.next_id(),
            interrupt_status: self.interrupt_status | 1,
            disk: if to_disk(req) && req.data.len > 0 {
                splice(self.disk, off, m1.slice(req.data.addr as int, req.data.len as nat))
            } else {
                self.disk
            },
            ..self
        }
    }

    /// Guest memory after serving `req`: a zero status byte; the disk's bytes at the
    /// request's sector copied to the data buffer where they flow from the disk; and the
    /// request id modulo the queue size as the used ring's 16-bit index.
    pub open spec fn memory_after(self, mem: MemoryView, req: BlockRequest) -> MemoryView {
        let m1 = status_written(mem, req);
        let off = disk_offset(req);
        let m2 = if !to_disk(req) && req.data.len > 0 {
            m1.put(req.data.addr as int, self.disk.subrange(off, off + req.data.len))
        } else {
            m1
        };
        m2.store(self.used_base() + 2, 2, (self.id % QUEUE_SIZE) as nat)
    }

    /// What a read of `size` bits from register `addr` returns.
    pub open spec fn read_result(self, addr: u64, size: u8) -> Result<u64, Exception> {
        if !register_width(size) {
            Err(Exception::LoadAccessFault)
        } else if addr == VIRTIO_MAGIC {
            Ok(MAGIC_VALUE)
        } else if addr == VIRTIO_VERSION {
            Ok(VERSION_VALUE)
        } else if addr == VIRTIO_DEVICE_ID {
            Ok(DEVICE_ID_VALUE)
        } else if addr == VIRTIO_VENDOR_ID {
            Ok(VENDOR_ID_VALUE)
        } else if addr == VIRTIO_DEVICE_FEATURES {
            Ok(self.device_feature_word() as u64)
        } else if addr == VIRTIO_QUEUE_NUM_MAX {
            Ok(QUEUE_SIZE)
        } else if addr == VIRTIO_QUEUE_PFN {
            Ok(self.queue_pfn as u64)
        } else if addr == VIRTIO_MMIO_INTERRUPT_STATUS {
            Ok(self.interrupt_status as u64)
        } else if addr == VIRTIO_STATUS {
            Ok(self.status as u64)
        } else if in_config(addr) {
            if size == BYTE {
                Ok(self.config[addr - VIRTIO_CONFIG] as u64)
            } else {
                Err(Exception::LoadAccessFault)
            }
        } else {
            Err(Exception::LoadAccessFault)
        }
    }

    /// The device after a write of `size` bits of `value` to register `addr`, or the error
    /// that the write reports.
    pub open spec fn write_result(self, addr: u64, value: u64, size: u8) -> Result<
        VirtioView,
        Exception,
    > {
        let w = value as u32;
        if !register_width(size) {
            Err(Exception::StoreAMOAccessFault)
        } else if addr == VIRTIO_DEVICE_FEATURES {
            if self.device_features_sel < 2 {
                Ok(
                    VirtioView {
                        device_features: self.device_features.update(
                            self.device_features_sel as int,
                            w,
                        ),
                        ..self
                    },
                )
            } else {
                Ok(self)
            }
        } else if addr == VIRTIO_DEVICE_FEATURES_SEL {
            Ok(VirtioView { device_features_sel: w, ..self })
        } else if addr == VIRTIO_DRIVER_FEATURES {
            if self.driver_features_sel < 2 {
                Ok(
                    VirtioView {
                        driver_features: self.driver_features.update(
                            self.driver_features_sel as int,
                            w,
                        ),
                        ..self
                    },
                )
            } else {
                Ok(self)
            }
        } else if addr == VIRTIO_DRIVER_FEATURES_SEL {
            Ok(VirtioView { driver_features_sel: w, ..self })
        } else if addr == VIRTIO_GUEST_PAGE_SIZE {
            Ok(VirtioView { guest_page_size: w, ..self })
        } else if addr == VIRTIO_QUEUE_SEL {
            Ok(VirtioView { queue_sel: w, ..self })
        } else if addr == VIRTIO_QUEUE_NUM {
            Ok(VirtioView { queue_num: w, ..self })
        } else if addr == VIRTIO_QUEUE_ALIGN {
            Ok(VirtioView { queue_align: w, ..self })
        } else if addr == VIRTIO_QUEUE_PFN {
            Ok(VirtioView { queue_pfn: w, ..self })
        } else if addr == VIRTIO_QUEUE_NOTIFY {
            Ok(VirtioView { queue_notify: Some(w), ..self })
        } else if addr == VIRTIO_MMIO_INTERRUPT_ACK {
            if value % 2 == 1 {
                Ok(VirtioView { interrupt_status: self.interrupt_status & !1u32, ..self })
            } else {
                Err(Exception::InvalidInterruptAck)
            }
        } else if addr == VIRTIO_STATUS {
            Ok(VirtioView { status: w, ..self })
        } else if in_config(addr) {
            if size == BYTE {
                Ok(VirtioView { config: self.config.update(addr - VIRTIO_CONFIG, value as u8), ..self })
            } else {
                Err(Exception::StoreAMOAccessFault)
            }
        } else {
            Err(Exception::StoreAMOAccessFault)
        }
    }
}

/// One entry of the descriptor table: a guest buffer and the link to the next entry.
#[derive(Clone, Copy, Debug, PartialEq, Eq, Structural)]
pub struct VirtqDesc {
    /// Guest-physical address of the buffer.
    pub addr: u64,
    /// Length of the buffer in bytes.
    pub len: u64,
    /// Bit 0: the chain continues; bit 1: the device writes the buffer; bit 2: indirect.
    pub flags: u64,
    /// Index of the next entry, where bit 0 of `flags` is set.
    pub next: u64,
}

/// The descriptor stored at `addr`: fields of 8, 4, 2 and 2 bytes at offsets 0, 8, 12, 14.
pub open spec fn desc_at(mem: MemoryView, addr: int) -> Option<VirtqDesc> {
    match (mem.load(addr, 8), mem.load(addr + 8, 4), mem.load(addr + 12, 2), mem.load(addr + 14, 2)) {
        (Some(a), Some(l), Some(f), Some(n)) => Some(VirtqDesc { addr: a, len: l, flags: f, next: n }),
        _ => None,
    }
}

/// The three parts of a block request as the queue describes them.
#[derive(Clone, Copy, Debug, PartialEq, Eq, Structural)]
pub struct BlockRequest {
    /// The header descriptor; its buffer holds the sector number at offset 8.
    pub header: VirtqDesc,
    /// The descriptor of the data buffer.
    pub data: VirtqDesc,
    /// Where the one-byte completion status goes.
    pub status_addr: u64,
    /// The first sector of the transfer.
    pub sector: u64,
}

/// Whether the data buffer of `req` flows from guest memory to the disk (bit 1 of its flags
/// clear) rather than from the disk to guest memory.
pub open spec fn to_disk(req: BlockRequest) -> bool {
    req.data.flags & 2 == 0
}

/// The disk offset of the first byte of `req`'s transfer.
pub open spec fn disk_offset(req: BlockRequest) -> int {
    req.sector * SECTOR_SIZE
}

/// Guest memory once the zero status byte of `req` is written.
pub open spec fn status_written(mem: MemoryView, req: BlockRequest) -> MemoryView {
    mem.store(req.status_addr as int, 1, 0)
}

/// The little-endian value of the `n` bytes at `addr`, or the fault that reading them reports.
pub open spec fn load_result(mem: MemoryView, addr: int, n: nat) -> Result<u64, Exception> {
    match mem.load(addr, n) {
        Some(v) => Ok(v),
        None => Err(Exception::LoadAccessFault),
    }
}

/// A virtio block device: its register file and the bytes of its disk.
pub struct Virtio {
    id: u64,
    device_features: [u32; 2],
    device_features_sel: u32,
    driver_features: [u32; 2],
    driver_features_sel: u32,
    guest_page_size: u32,
    queue_sel: u32,
    queue_num: u32,
    queue_align: u32,
    queue_pfn: u32,
    queue_notify: Option<u32>,
    interrupt_status: u32,
    status: u32,
    config: [u8; 8],
    disk: Vec<u8>,
}

impl View for Virtio {
    type V = VirtioView;

    closed spec fn view(&self) -> VirtioView {
        VirtioView {
            id: self.id,
            device_features: self.device_features@,
            device_features_sel: self.device_features_sel,
            driver_features: self.driver_features@,
            driver_features_sel: self.driver_features_sel,
            guest_page_size: self.guest_page_size,
            queue_sel: self.queue_sel,
            queue_num: self.queue_num,
            queue_align: self.queue_align,
            queue_pfn: self.queue_pfn,
            queue_notify: self.queue_notify,
            interrupt_status: self.interrupt_status,
            status: self.status,
            config: self.config@,
            disk: self.disk@,
        }
    }
}

/// Reads `size` bits at `addr + offset`; an address past the 64-bit space faults.
fn read_at(mem: &GuestMemory, addr: u64, offset: u64, size: u8) -> (r: Result<u64, Exception>)
    ensures
        r == load_result(mem@, addr + offset, width_bytes(size)),
        r matches Ok(v) ==> v < pow256(width_bytes(size)),
{
    match addr.checked_add(offset) {
        Some(a) => mem.read(a, size),
        None => Err(Exception::LoadAccessFault),
    }
}

impl VirtqDesc {
    /// Reads the descriptor stored at `addr`.
    pub fn new(mem: &GuestMemory, addr: u64) -> (r: Result<VirtqDesc, Exception>)
        ensures
            r == match desc_at(mem@, addr as int) {
                Some(d) => Ok(d),
                None => Err(Exception::LoadAccessFault),
            },
            r matches Ok(d) ==> d.len <= 0xffff_ffff && d.flags <= 0xffff && d.next <= 0xffff,
    {
        proof {
            reveal_with_fuel(pow256, 5);
        }
        Ok(VirtqDesc {
            addr: read_at(mem, addr, 0, DOUBLEWORD)?,
            len: read_at(mem, addr, 8, WORD)?,
            flags: read_at(mem, addr, 12, HALFWORD)?,
            next: read_at(mem, addr, 14, HALFWORD)?,
        })
    }
}

impl Virtio {
    /// A device with every register at its reset value and an empty disk.
    pub fn new() -> (r: Virtio)
        ensures
            r@ == VirtioView::initial(),
    {
        let r = Virtio {
            id: 0,
            device_features: [0u32; 2],
            device_features_sel: 0,
            driver_features: [0u32; 2],
            driver_features_sel: 0,
            guest_page_size: 0,
            queue_sel: 0,
            queue_num: 0,
            queue_align: 0,
            queue_pfn: 0,
            queue_notify: None,
            interrupt_status: 0,
            status: 0,
            config: [0u8; 8],
            disk: Vec::new(),
        };
        assert(r@.device_features =~= seq![0u32, 0u32]);
        assert(r@.driver_features =~= seq![0u32, 0u32]);
        assert(r@.config =~= seq![0u8, 0u8, 0u8, 0u8, 0u8, 0u8, 0u8, 0u8]);
        r
    }

    /// Whether a queue notification is pending; answering clears it, so each notification
    /// is reported once.
    pub fn is_interrupting(&mut self) -> (r: bool)
        ensures
            r == old(self)@.queue_notify.is_some(),
            final(self)@ == (VirtioView { queue_notify: None, ..old(self)@ }),
    {
        if self.queue_notify.is_some() {
            self.queue_notify = None;
            return true;
        }
        false
    }

    /// Appends `binary` to the disk.
    pub fn initialize(&mut self, binary: Vec<u8>)
        ensures
            final(self)@ == (VirtioView { disk: old(self)@.disk + binary@, ..old(self)@ }),
    {
        let mut binary = binary;
        self.disk.append(&mut binary);
    }

    /// Loads `size` bits from the register at `addr`.
    pub fn read(&self, addr: u64, size: u8) -> (r: Result<u64, Exception>)
        ensures
            r == self@.read_result(addr, size),
            self@.wf(),
    {
        if size != BYTE && size != HALFWORD && size != WORD {
            return Err(Exception::LoadAccessFault);
        }
        let value: u64 = if addr == VIRTIO_MAGIC {
            MAGIC_VALUE
        } else if addr == VIRTIO_VERSION {
            VERSION_VALUE
        } else if addr == VIRTIO_DEVICE_ID {
            DEVICE_ID_VALUE
        } else if addr == VIRTIO_VENDOR_ID {
            VENDOR_ID_VALUE
        } else if addr == VIRTIO_DEVICE_FEATURES {
            if self.device_features_sel < 2 {
                self.device_features[self.device_features_sel as usize] as u64
            } else {
                0
            }
        } else if addr == VIRTIO_QUEUE_NUM_MAX {
            QUEUE_SIZE
        } else if addr == VIRTIO_QUEUE_PFN {
            self.queue_pfn as u64
        } else if addr == VIRTIO_MMIO_INTERRUPT_STATUS {
            self.interrupt_status as u64
        } else if addr == VIRTIO_STATUS {
            self.status as u64
        } else if VIRTIO_CONFIG <= addr && addr < VIRTIO_CONFIG_END {
            if size != BYTE {
                return Err(Exception::LoadAccessFault);
            }
            self.config[(addr - VIRTIO_CONFIG) as usize] as u64
        } else {
            return Err(Exception::LoadAccessFault);
        };
        Ok(value)
    }

    /// Stores `size` bits of `value` to the register at `addr`.
    pub fn write(&mut self, addr: u64, value: u64, size: u8) -> (r: Result<(), Exception>)
        ensures
            old(self)@.wf() && final(self)@.wf(),
            match old(self)@.write_result(addr, value, size) {
                Ok(v) => r == Ok::<(), Exception>(()) && final(self)@ == v,
                Err(e) => r == Err::<(), Exception>(e) && final(self)@ == old(self)@,
            },
    {
        if size != BYTE && size != HALFWORD && size != WORD {
            return Err(Exception::StoreAMOAccessFault);
        }
        let w = value as u32;
        if addr == VIRTIO_DEVICE_FEATURES {
            if self.device_features_sel < 2 {
                self.device_features[self.device_features_sel as usize] = w;
            }
        } else if addr == VIRTIO_DEVICE_FEATURES_SEL {
            self.device_features_sel = w;
        } else if addr == VIRTIO_DRIVER_FEATURES {
            if self.driver_features_sel < 2 {
                self.driver_features[self.driver_features_sel as usize] = w;
            }
        } else if addr == VIRTIO_DRIVER_FEATURES_SEL {
            self.driver_features_sel = w;
        } else if addr == VIRTIO_GUEST_PAGE_SIZE {
            self.guest_page_size = w;
        } else if addr == VIRTIO_QUEUE_SEL {
            self.queue_sel = w;
        } else if addr == VIRTIO_QUEUE_NUM {
            self.queue_num = w;
        } else if addr == VIRTIO_QUEUE_ALIGN {
            self.queue_align = w;
        } else if addr == VIRTIO_QUEUE_PFN {
            self.queue_pfn = w;
        } else if addr == VIRTIO_QUEUE_NOTIFY {
            self.queue_notify = Some(w);
        } else if addr == VIRTIO_MMIO_INTERRUPT_ACK {
            if value % 2 == 1 {
                self.interrupt_status = self.interrupt_status & !1u32;
            } else {
                return Err(Exception::InvalidInterruptAck);
            }
        } else if addr == VIRTIO_STATUS {
            self.status = w;
        } else if VIRTIO_CONFIG <= addr && addr < VIRTIO_CONFIG_END {
            if size != BYTE {
                return Err(Exception::StoreAMOAccessFault);
            }
            self.config[(addr - VIRTIO_CONFIG) as usize] = value as u8;
        } else {
            return Err(Exception::StoreAMOAccessFault);
        }
        proof {
            assert(self@.device_features =~= old(self)@.write_result(addr, value, size)->Ok_0.device_features);
            assert(self@.driver_features =~= old(self)@.write_result(addr, value, size)->Ok_0.driver_features);
            assert(self@.config =~= old(self)@.write_result(addr, value, size)->Ok_0.config);
        }
        Ok(())
    }

    /// Guest address of the descriptor table: the queue's page number times the page size.
    fn desc_addr(&self) -> (r: u64)
        ensures
            r == self@.queue_base(),
            r <= 0xffff_fffe_0000_0001,
    {
        let pfn = self.queue_pfn as u64;
        let page = self.guest_page_size as u64;
        assert(pfn * page <= 0xffff_fffe_0000_0001) by (nonlinear_arith)
            requires
                pfn <= 0xffff_ffff,
                page <= 0xffff_ffff,
        ;
        pfn * page
    }

    /// Reads the request that the available ring points at.
    fn fetch_request(&self, mem: &GuestMemory) -> (r: Result<BlockRequest, Exception>)
        ensures
            r == match self@.request_in(mem@) {
                Some(req) => Ok(req),
                None => Err(Exception::LoadAccessFault),
            },
    {
        let desc_addr = self.desc_addr();
        let avail_addr = desc_addr + 0x40;
        let offset = mem.read(avail_addr + 2, HALFWORD)?;
        proof {
            reveal_with_fuel(pow256, 3);
        }
        let index = mem.read(avail_addr + 4 + 2 * (offset % QUEUE_SIZE), HALFWORD)?;
        let header = VirtqDesc::new(mem, desc_addr + VRING_DESC_SIZE * index)?;
        let data = VirtqDesc::new(mem, desc_addr + VRING_DESC_SIZE * header.next)?;
        let status_addr = mem.read(desc_addr + VRING_DESC_SIZE * data.next, DOUBLEWORD)?;
        let sector = read_at(mem, header.addr, 8, DOUBLEWORD)?;
        Ok(BlockRequest { header, data, status_addr, sector })
    }

    /// Takes the next request id: returns the counter and advances it, wrapping on overflow.
    fn get_new_id(&mut self) -> (r: u64)
        ensures
            r == old(self)@.id,
            final(self)@ == (VirtioView { id: old(self)@.next_id(), ..old(self)@ }),
    {
        let id = self.id;
        self.id = self.id.wrapping_add(1);
        id
    }

    /// The disk byte at `addr`.
    fn read_disk(&self, addr: u64) -> (r: u8)
        requires
            addr < self@.disk.len(),
        ensures
            r == self@.disk[addr as int],
    {
        assert(addr < self.disk.len());
        self.disk[addr as usize]
    }

    /// Sets the disk byte at `addr`.
    fn write_disk(&mut self, addr: u64, value: u8)
        requires
            addr < old(self)@.disk.len(),
        ensures
            final(self)@ == (VirtioView {
                disk: old(self)@.disk.update(addr as int, value),
                ..old(self)@
            }),
    {
        assert(addr < self.disk.len());
        self.disk.set(addr as usize, value);
        assert(self@.disk =~= old(self)@.disk.update(addr as int, value));
    }

    /// Checks that `req` stays within the disk and that the status byte, the data buffer and
    /// the used ring lie in memory.
    fn check_request(&self, mem: &GuestMemory, req: BlockRequest) -> (r: Result<(), Exception>)
        requires
            self@.request_in(mem@) == Some(req),
        ensures
            match self@.access_result(mem@) {
                Ok(_) => r is Ok,
                Err(e) => r == Err::<(), Exception>(e),
            },
    {
        let disk_len = self.disk.len() as u64;
        if req.sector > disk_len / SECTOR_SIZE {
            return Err(Exception::DiskOutOfBounds);
        }
        let off = req.sector * SECTOR_SIZE;
        if req.data.len > disk_len - off {
            return Err(Exception::DiskOutOfBounds);
        }
        if !mem.covers(req.status_addr, 1) {
            return Err(Exception::StoreAMOAccessFault);
        }
        if req.data.len > 0 && !mem.covers(req.data.addr, req.data.len) {
            if req.data.flags & 2 == 0 {
                return Err(Exception::LoadAccessFault);
            } else {
                return Err(Exception::StoreAMOAccessFault);
            }
        }
        if !mem.covers(self.desc_addr() + 4096 + 2, 2) {
            return Err(Exception::StoreAMOAccessFault);
        }
        Ok(())
    }

    /// Serves the request that the available ring points at: reads its descriptors from
    /// guest memory, moves the data between guest memory and the disk, and reports the
    /// completion in the used ring and the interrupt status. Every check comes before the
    /// first change, so a request that fails changes neither the device nor memory.
    pub fn disk_access(&mut self, mem: &mut GuestMemory) -> (r: Result<(), Exception>)
        ensures
            match old(self)@.access_result(old(mem)@) {
                Ok(req) => {
                    &&& r == Ok::<(), Exception>(())
                    &&& final(self)@ == old(self)@.device_after(old(mem)@, req)
                    &&& final(mem)@ == old(self)@.memory_after(old(mem)@, req)
                },
                Err(e) => {
                    &&& r == Err::<(), Exception>(e)
                    &&& final(self)@ == old(self)@
                    &&& final(mem)@ == old(mem)@
                },
            },
    {
        let req = self.fetch_request(mem)?;
        self.check_request(mem, req)?;
        let disk_len = self.disk.len() as u64;
        assert(req.sector * SECTOR_SIZE + req.data.len <= disk_len);
        let ghost v0 = self@;
        let ghost m0 = mem@;
        let _ = mem.write(req.status_addr, 0, BYTE);
        let ghost m1 = mem@;
        assert(m1 == status_written(m0, req));
        let a = req.data.addr;
        let n = req.data.len;
        let off = req.sector * SECTOR_SIZE;
        let mut i: u64 = 0;
        if req.data.flags & 2 == 0 {
            // Guest memory to disk.
            while i < n
                invariant
                    i <= n,
                    n == req.data.len,
                    a == req.data.addr,
                    off == disk_offset(req),
                    off + n <= v0.disk.len(),
                    off + n <= disk_len,
                    n > 0 ==> m1.holds(a as int, n as nat),
                    mem@ == m1,
                    self@ == (VirtioView { disk: self@.disk, ..v0 }),
                    self@.disk.len() == v0.disk.len(),
                    forall|j: int|
                        0 <= j < v0.disk.len() ==> #[trigger] self@.disk[j] == if off <= j < off + i {
                            m1.bytes[a - m1.base + j - off]
                        } else {
                            v0.disk[j]
                        },
                decreases n - i,
            {
                let b = mem.byte_at(a + i);
                self.write_disk(off + i, b);
                i = i + 1;
            }
            proof {
                if n > 0 {
                    assert(self@.disk =~= splice(v0.disk, off as int, m1.slice(a as int, n as nat)));
                } else {
                    assert(self@.disk =~= v0.disk);
                }
            }
        } else {
            // Disk to guest memory.
            while i < n
                invariant
                    i <= n,
                    n == req.data.len,
                    a == req.data.addr,
                    off == disk_offset(req),
                    off + n <= v0.disk.len(),
                    off + n <= disk_len,
                    n > 0 ==> m1.holds(a as int, n as nat),
                    self@ == v0,
                    mem@.base == m1.base,
                    mem@.bytes.len() == m1.bytes.len(),
                    forall|j: int|
                        0 <= j < m1.bytes.len() ==> #[trigger] mem@.bytes[j] == if a - m1.base <= j < a - m1.base + i {
                            v0.disk[off + j - (a - m1.base)]
                        } else {
                            m1.bytes[j]
                        },
                decreases n - i,
            {
                let b = self.read_disk(off + i);
                mem.set_byte(a + i, b);
                i = i + 1;
            }
            proof {
                if n > 0 {
                    assert(mem@.bytes =~= splice(m1.bytes, a - m1.base, v0.disk.subrange(off as int, off + n)));
                } else {
                    assert(mem@.bytes =~= m1.bytes);
                }
            }
        }
        let id = self.get_new_id();
        let _ = mem.write(self.desc_addr() + 4096 + 2, id % QUEUE_SIZE, HALFWORD);
        self.interrupt_status = self.interrupt_status | 1;
        Ok(())
    }
}

} // verus!
