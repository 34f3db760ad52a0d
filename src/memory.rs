use vstd::prelude::*;

use crate::exception::Exception;

verus! {

/// Access width of one byte, in bits.
pub const BYTE: u8 = 8;
/// Access width of two bytes, in bits.
pub const HALFWORD: u8 = 16;
/// Access width of four bytes, in bits.
pub const WORD: u8 = 32;
/// Access width of eight bytes, in bits.
pub const DOUBLEWORD: u8 = 64;

/// The number of bytes that an access of `size` bits covers, or 0 for a width that no
/// access has.
pub open spec fn width_bytes(size: u8) -> nat {
    if size == BYTE {
        1
    } else if size == HALFWORD {
        2
    } else if size == WORD {
        4
    } else if size == DOUBLEWORD {
        8
    } else {
        0
    }
}

/// `256` to the power `n`.
pub open spec fn pow256(n: nat) -> nat
    decreases n,
{
    if n == 0 {
        1
    } else {
        256 * pow256((n - 1) as nat)
    }
}

/// The number that the bytes `s` encode in little-endian order.
pub open spec fn le_value(s: Seq<u8>) -> nat
    decreases s.len(),
{
    if s.len() == 0 {
        0
    } else {
        s[0] as nat + 256 * le_value(s.drop_first())
    }
}

/// The `n` low-order bytes of `v`, least significant first.
pub open spec fn le_bytes(v: nat, n: nat) -> Seq<u8>
    decreases n,
{
    if n == 0 {
        Seq::empty()
    } else {
        seq![(v % 256) as u8] + le_bytes(v / 256, (n - 1) as nat)
    }
}

/// `s` with the elements from `at` on replaced by those of `t`.
pub open spec fn splice(s: Seq<u8>, at: int, t: Seq<u8>) -> Seq<u8> {
    s.subrange(0, at) + t + s.subrange(at + t.len(), s.len() as int)
}

/// The abstract state of a guest memory: its first address and its bytes.
pub ghost struct MemoryView {
    pub base: int,
    pub bytes: Seq<u8>,
}

impl MemoryView {
    /// The `n` bytes from `addr` on all lie in the memory and in the 64-bit address space.
    pub open spec fn holds(self, addr: int, n: nat) -> bool {
        &&& self.base <= addr
        &&& addr + n <= self.base + self.bytes.len()
        &&& addr + n <= 0x1_0000_0000_0000_0000
    }

    /// The `n` bytes from `addr` on.
    pub open spec fn slice(self, addr: int, n: nat) -> Seq<u8> {
        self.bytes.subrange(addr - self.base, addr - self.base + n)
    }

    /// The little-endian value of the `n` bytes from `addr` on, where `0 < n <= 8` and they
    /// lie in the memory.
    pub open spec fn load(self, addr: int, n: nat) -> Option<u64> {
        if 0 < n <= 8 && self.holds(addr, n) {
            Some(le_value(self.slice(addr, n)) as u64)
        } else {
            None
        }
    }

    /// The memory with the bytes from `addr` on replaced by `t`.
    pub open spec fn put(self, addr: int, t: Seq<u8>) -> MemoryView {
        MemoryView { bytes: splice(self.bytes, addr - self.base, t), ..self }
    }

    /// The memory with the `n` low-order bytes of `v` stored from `addr` on.
    pub open spec fn store(self, addr: int, n: nat, v: nat) -> MemoryView {
        self.put(addr, le_bytes(v, n))
    }
}

/// Guest-physical memory: a run of bytes that starts at a base address.
pub struct GuestMemory {
    base: u64,
    bytes: Vec<u8>,
}

impl View for GuestMemory {
    type V = MemoryView;

    closed spec fn view(&self) -> MemoryView {
        MemoryView { base: self.base as int, bytes: self.bytes@ }
    }
}

pub proof fn lemma_le_bytes_len(v: nat, n: nat)
    ensures
        le_bytes(v, n).len() == n,
    decreases n,
{
    if n > 0 {
        lemma_le_bytes_len(v / 256, (n - 1) as nat);
    }
}

pub proof fn lemma_pow256_fits(n: nat)
    requires
        n <= 8,
    ensures
        pow256(n) <= 0x1_0000_0000_0000_0000,
{
    reveal_with_fuel(pow256, 9);
}

/// Storing the `n` low-order bytes of `v` and reading them back gives `v` again.
pub proof fn lemma_le_round_trip(v: nat, n: nat)
    requires
        v < pow256(n),
    ensures
        le_bytes(v, n).len() == n,
        le_value(le_bytes(v, n)) == v,
    decreases n,
{
    if n > 0 {
        let p = pow256((n - 1) as nat);
        assert(v / 256 < p) by (nonlinear_arith)
            requires
                v < 256 * p,
        ;
        lemma_le_round_trip(v / 256, (n - 1) as nat);
        let t = le_bytes(v, n);
        assert(t.drop_first() =~= le_bytes(v / 256, (n - 1) as nat));
        assert(v == v % 256 + 256 * (v / 256));
    }
}

impl GuestMemory {
    /// A memory of `size` zero bytes from address `base` on.
    pub fn new(base: u64, size: usize) -> (r: GuestMemory)
        ensures
            r@.base == base,
            r@.bytes == Seq::new(size as nat, |i: int| 0u8),
    {
        let mut bytes: Vec<u8> = Vec::new();
        while bytes.len() < size
            invariant
                bytes.len() <= size,
                forall|i: int| 0 <= i < bytes.len() ==> bytes@[i] == 0u8,
            decreases size - bytes.len(),
        {
            bytes.push(0u8);
        }
        assert(bytes@ =~= Seq::new(size as nat, |i: int| 0u8));
        GuestMemory { base, bytes }
    }

    /// The first address of the memory.
    pub fn base(&self) -> (r: u64)
        ensures
            r == self@.base,
    {
        self.base
    }

    /// The number of bytes in the memory.
    pub fn len(&self) -> (r: usize)
        ensures
            r == self@.bytes.len(),
    {
        self.bytes.len()
    }

    /// The number of bytes of an access of `size` bits; 0 for a width that no access has.
    fn width_of(size: u8) -> (r: u64)
        ensures
            r == width_bytes(size),
    {
        if size == BYTE {
            1
        } else if size == HALFWORD {
            2
        } else if size == WORD {
            4
        } else if size == DOUBLEWORD {
            8
        } else {
            0
        }
    }

    /// Whether the `n` bytes from `addr` on lie in the memory.
    pub(crate) fn covers(&self, addr: u64, n: u64) -> (r: bool)
        requires
            n > 0,
        ensures
            r == self@.holds(addr as int, n as nat),
    {
        let len = self.bytes.len() as u64;
        addr >= self.base && addr - self.base <= len && n <= len - (addr - self.base)
            && addr <= u64::MAX - (n - 1)
    }

    /// Reads the little-endian value of `size` bits at `addr`.
    pub fn read(&self, addr: u64, size: u8) -> (r: Result<u64, Exception>)
        ensures
            r == match self@.load(addr as int, width_bytes(size)) {
                Some(v) => Ok(v),
                None => Err(Exception::LoadAccessFault),
            },
            r matches Ok(v) ==> v < pow256(width_bytes(size)),
    {
        let n = Self::width_of(size);
        if n == 0 || !self.covers(addr, n) {
            return Err(Exception::LoadAccessFault);
        }
        let ghost s = self@.slice(addr as int, n as nat);
        let mut v: u64 = 0;
        let mut i: u64 = n;
        proof {
            assert(s.subrange(n as int, n as int) =~= Seq::<u8>::empty());
            reveal_with_fuel(pow256, 1);
        }
        while i > 0
            invariant
                i <= n <= 8,
                self@.holds(addr as int, n as nat),
                s == self@.slice(addr as int, n as nat),
                v as nat == le_value(s.subrange(i as int, n as int)),
                v < pow256((n - i) as nat),
            decreases i,
        {
            let ghost prev = s.subrange(i as int, n as int);
            i = i - 1;
            let b = self.byte_at(addr + i);
            proof {
                let cur = s.subrange(i as int, n as int);
                assert(cur.drop_first() =~= prev);
                assert(cur[0] == b);
                lemma_pow256_fits((n - i) as nat);
                let p = pow256((n - i - 1) as nat);
                assert(v * 256 + b < 256 * p) by (nonlinear_arith)
                    requires
                        v < p,
                        b < 256,
                ;
            }
            v = v * 256 + b as u64;
        }
        proof {
            assert(s.subrange(0, n as int) =~= s);
        }
        Ok(v)
    }

    /// Writes the low-order `size` bits of `value` at `addr`, least significant byte first.
    pub fn write(&mut self, addr: u64, value: u64, size: u8) -> (r: Result<(), Exception>)
        ensures
            ({
                let n = width_bytes(size);
                if 0 < n && old(self)@.holds(addr as int, n) {
                    r == Ok::<(), Exception>(())
                        && final(self)@ == old(self)@.store(addr as int, n, value as nat)
                } else {
                    r == Err::<(), Exception>(Exception::StoreAMOAccessFault)
                        && final(self)@ == old(self)@
                }
            }),
    {
        let n = Self::width_of(size);
        if n == 0 || !self.covers(addr, n) {
            return Err(Exception::StoreAMOAccessFault);
        }
        let ghost m0 = self@;
        let ghost t = le_bytes(value as nat, n as nat);
        let ghost off = addr - m0.base;
        proof {
            lemma_le_bytes_len(value as nat, n as nat);
            assert(t.subrange(0, n as int) =~= t);
        }
        let mut v: u64 = value;
        let mut i: u64 = 0;
        while i < n
            invariant
                i <= n <= 8,
                m0.holds(addr as int, n as nat),
                off == addr - m0.base,
                t.len() == n,
                self@.base == m0.base,
                self@.bytes.len() == m0.bytes.len(),
                forall|j: int|
                    0 <= j < m0.bytes.len() ==> #[trigger] self@.bytes[j] == if off <= j < off + i {
                        t[j - off]
                    } else {
                        m0.bytes[j]
                    },
                t.subrange(i as int, n as int) == le_bytes(v as nat, (n - i) as nat),
            decreases n - i,
        {
            proof {
                let rest = t.subrange(i as int, n as int);
                assert(rest.drop_first() =~= t.subrange(i + 1, n as int));
                assert(t[i as int] == rest[0]);
            }
            self.set_byte(addr + i, (v % 256) as u8);
            v = v / 256;
            i = i + 1;
        }
        proof {
            assert(self@.bytes =~= splice(m0.bytes, off, t));
        }
        Ok(())
    }

    /// The byte at `addr`, which lies in the memory.
    pub(crate) fn byte_at(&self, addr: u64) -> (r: u8)
        requires
            self@.holds(addr as int, 1),
        ensures
            r == self@.bytes[addr - self@.base],
    {
        assert(self@.bytes == self.bytes@);
        assert(addr - self.base < self.bytes.len());
        self.bytes[(addr - self.base) as usize]
    }

    /// Sets the byte at `addr`, which lies in the memory.
    pub(crate) fn set_byte(&mut self, addr: u64, b: u8)
        requires
            old(self)@.holds(addr as int, 1),
        ensures
            final(self)@ == (MemoryView {
                bytes: old(self)@.bytes.update(addr - old(self)@.base, b),
                ..old(self)@
            }),
    {
        assert(addr - self.base < self.bytes.len());
        let i = (addr - self.base) as usize;
        self.bytes.set(i, b);
        assert(self@.bytes =~= old(self)@.bytes.update(addr - old(self)@.base, b));
    }
}

} // verus!
