use vstd::prelude::*;

verus! {

/// Number of addressable byte cells.
pub const MEMORY_SIZE: usize = 0x10000;

/// Address of the video-timing "LY" register, which is plain storage here.
pub const LY_ADDRESS: u16 = 0xFF44;

/// Two's-complement reading of a byte.
pub open spec fn signed_of(b: u8) -> int {
    if b < 0x80 {
        b as int
    } else {
        b as int - 0x100
    }
}

/// The bus after `bytes` were written one by one from `address` on.
pub open spec fn written(mem: Seq<u8>, address: int, bytes: Seq<u8>) -> Seq<u8> {
    Seq::new(
        mem.len(),
        |i: int|
            if address <= i < address + bytes.len() {
                bytes[i - address]
            } else {
                mem[i]
            },
    )
}

/// Flat store of 65536 bytes shared by code, data and memory-mapped registers.
pub struct MemoryBus {
    memory: [u8; 0x10000],
}

impl View for MemoryBus {
    type V = Seq<u8>;

    closed spec fn view(&self) -> Seq<u8> {
        self.memory@
    }
}

impl MemoryBus {
    /// Every bus holds exactly one byte per 16-bit address.
    pub proof fn lemma_view_len(&self)
        ensures
            self@.len() == MEMORY_SIZE,
    {
    }

    /// A zero-filled bus.
    pub fn new() -> (r: MemoryBus)
        ensures
            r@ == Seq::new(MEMORY_SIZE as nat, |i: int| 0u8),
    {
        let r = MemoryBus { memory: [0u8; 0x10000] };
        assert(r@ =~= Seq::new(MEMORY_SIZE as nat, |i: int| 0u8));
        r
    }

    pub fn read_byte(&self, address: u16) -> (r: u8)
        ensures
            r == self@[address as int],
    {
        self.memory[address as usize]
    }

    /// The stored byte read as a two's-complement value.
    pub fn read_signed_byte(&self, address: u16) -> (r: i8)
        ensures
            r as int == signed_of(self@[address as int]),
    {
        let b = self.memory[address as usize];
        let r = b as i8;
        assert(r as int == signed_of(b)) by (bit_vector)
            requires
                r == b as i8,
        ;
        r
    }

    pub fn write_byte(&mut self, address: u16, value: u8)
        ensures
            final(self)@ == old(self)@.update(address as int, value),
    {
        self.memory[address as usize] = value;
    }

    /// Copies every byte of `bytes` to consecutive addresses from `address` on.
    pub fn write_array(&mut self, address: u16, bytes: &[u8])
        requires
            address as int + bytes@.len() <= MEMORY_SIZE,
        ensures
            final(self)@ == written(old(self)@, address as int, bytes@),
    {
        let ghost start = self@;
        let mut i: usize = 0;
        while i < bytes.len()
            invariant
                0 <= i <= bytes@.len(),
                address as int + bytes@.len() <= MEMORY_SIZE,
                self@ == written(start, address as int, bytes@.subrange(0, i as int)),
                start.len() == MEMORY_SIZE,
            decreases bytes@.len() - i,
        {
            self.memory[address as usize + i] = bytes[i];
            i = i + 1;
            assert(self@ =~= written(start, address as int, bytes@.subrange(0, i as int)));
        }
        assert(bytes@.subrange(0, i as int) =~= bytes@);
    }

    pub fn read_ly(&self) -> (r: u8)
        ensures
            r == self@[LY_ADDRESS as int],
    {
        self.read_byte(LY_ADDRESS)
    }

    pub fn write_ly(&mut self, value: u8)
        ensures
            final(self)@ == old(self)@.update(LY_ADDRESS as int, value),
    {
        self.write_byte(LY_ADDRESS, value)
    }
}

/// After `bytes` were written from address 0 on, every one of them, the last
/// included, reads back at its own address.
pub proof fn lemma_write_array_reads_back(bus: MemoryBus, bytes: Seq<u8>)
    requires
        bytes.len() <= MEMORY_SIZE,
    ensures
        forall|i: int| 0 <= i < bytes.len() ==> #[trigger] written(bus@, 0, bytes)[i] == bytes[i],
{
    bus.lemma_view_len();
}

impl Default for MemoryBus {
    fn default() -> (r: MemoryBus)
        ensures
            r@ == Seq::new(MEMORY_SIZE as nat, |i: int| 0u8),
    {
        MemoryBus::new()
    }
}

} // verus!
