use vstd::prelude::*;

verus! {

/// Number of bytes addressable by the 6502 (the full 16-bit address space).
pub const MEMORY_64K: usize = 65536;

/// The page holding the stack (0x0100-0x01FF).
pub const STACK_PAGE: u8 = 0x01;

/// A plain 64 KiB RAM image.
pub type BasicRam = [u8; 65536];

/// An addressable memory space seen by the CPU through its data and address buses.
///
/// Its state is described by three spec functions, which every implementation
/// defines: what a read hands back, and the states a read and a write leave.
/// The contracts of `read`, `write` and `read_array` are stated over them, and
/// so is everything that verified code proves of a CPU running against the
/// memory.
pub trait MemorySpace: Sized {
    /// The byte a read at `addr` hands back in the current state.
    spec fn read_value(&self, addr: u16) -> u8;

    /// The state after a read at `addr` (a plain RAM is unchanged).
    spec fn after_read(&self, addr: u16) -> Self;

    /// The state after `data` was written at `addr`.
    spec fn after_write(&self, data: u8, addr: u16) -> Self;

    /// Reads a single byte from memory at the specified address.
    fn read(&mut self, addr: u16) -> (data: u8)
        ensures
            data == old(self).read_value(addr),
            *final(self) == old(self).after_read(addr),
    ;

    /// Writes a single byte to memory at the specified address.
    fn write(&mut self, data: u8, addr: u16)
        ensures
            *final(self) == old(self).after_write(data, addr),
    ;

    /// Fills `out` with the bytes at `addr` and the following addresses, read
    /// one after the other: the `i`-th read happens in the state the previous
    /// reads left.
    fn read_array(&mut self, addr: u16, out: &mut [u8])
        requires
            addr + old(out)@.len() <= 65536,
        ensures
            final(out)@.len() == old(out)@.len(),
            exists|states: Seq<Self>|
                #![trigger states.len()]
                {
                    &&& states.len() == old(out)@.len() + 1
                    &&& states[0] == *old(self)
                    &&& states.last() == *final(self)
                    &&& forall|i: int|
                        0 <= i < old(out)@.len() ==> {
                            &&& #[trigger] final(out)@[i] == states[i].read_value((addr + i) as u16)
                            &&& states[i + 1] == states[i].after_read((addr + i) as u16)
                        }
                },
    {
        let ghost m0 = *self;
        let n = out.len();
        let mut i: usize = 0;
        let ghost mut states: Seq<Self> = seq![m0];
        while i < n
            invariant
                addr + n <= 65536,
                n == out@.len(),
                n == old(out)@.len(),
                i <= n,
                states.len() == i + 1,
                states[0] == m0,
                states.last() == *self,
                forall|j: int|
                    0 <= j < i ==> {
                        &&& #[trigger] out@[j] == states[j].read_value((addr + j) as u16)
                        &&& states[j + 1] == states[j].after_read((addr + j) as u16)
                    },
            decreases n - i,
        {
            let a = addr.saturating_add(i as u16);
            let v = self.read(a);
            out[i] = v;
            proof {
                states = states.push(*self);
            }
            i += 1;
        }
    }
}

impl MemorySpace for [u8; 65536] {
    open spec fn read_value(&self, addr: u16) -> u8 {
        self@[addr as int]
    }

    open spec fn after_read(&self, addr: u16) -> Self {
        *self
    }

    open spec fn after_write(&self, data: u8, addr: u16) -> Self {
        vstd::array::spec_array_update(*self, addr as int, data)
    }

    fn read(&mut self, addr: u16) -> (data: u8) {
        self[addr as usize]
    }

    fn write(&mut self, data: u8, addr: u16) {
        self[addr as usize] = data;
    }

    fn read_array(&mut self, addr: u16, out: &mut [u8]) {
        let start = addr as usize;
        let n = out.len();
        let mut i: usize = 0;
        while i < n
            invariant
                start == addr,
                start + n <= 65536,
                n == out@.len(),
                n == old(out)@.len(),
                i <= n,
                forall|j: int| 0 <= j < i ==> out@[j] == self@[start + j],
            decreases n - i,
        {
            out[i] = self[start + i];
            i += 1;
        }
        proof {
            let states = Seq::new((n + 1) as nat, |j: int| *self);
            assert(states.len() == n + 1);
        }
    }
}

/// The state a memory is left in after `n` reads at `addr`, `addr + 1`, ...
pub open spec fn reads_state<M: MemorySpace>(m: M, addr: u16, n: nat) -> M
    decreases n,
{
    if n == 0 {
        m
    } else {
        reads_state(m, addr, (n - 1) as nat).after_read((addr + n - 1) as u16)
    }
}

/// The bytes that `n` reads at `addr`, `addr + 1`, ... hand back, each read in
/// the state the previous ones left.
pub open spec fn read_bytes<M: MemorySpace>(m: M, addr: u16, n: nat) -> Seq<u8>
    decreases n,
{
    if n == 0 {
        seq![]
    } else {
        read_bytes(m, addr, (n - 1) as nat).push(
            reads_state(m, addr, (n - 1) as nat).read_value((addr + n - 1) as u16),
        )
    }
}

/// What `read_array` states of a run of reads fixes it: the states it passes
/// through are those of `reads_state`, and the bytes are `read_bytes`.
pub proof fn lemma_reads_determined<M: MemorySpace>(
    m: M,
    addr: u16,
    bytes: Seq<u8>,
    states: Seq<M>,
    k: nat,
)
    requires
        states.len() == bytes.len() + 1,
        states[0] == m,
        k <= bytes.len(),
        forall|i: int|
            0 <= i < bytes.len() ==> {
                &&& #[trigger] bytes[i] == states[i].read_value((addr + i) as u16)
                &&& states[i + 1] == states[i].after_read((addr + i) as u16)
            },
    ensures
        states[k as int] == reads_state(m, addr, k),
        bytes.take(k as int) == read_bytes(m, addr, k),
    decreases k,
{
    if k > 0 {
        let j = (k - 1) as nat;
        lemma_reads_determined(m, addr, bytes, states, j);
        assert(bytes[j as int] == states[j as int].read_value((addr + j) as u16));
        assert(bytes.take(k as int) =~= bytes.take(j as int).push(bytes[j as int]));
    }
}

/// What `read_array` states of the bytes it read and the state it left is
/// exactly `read_bytes` and `reads_state`.
pub proof fn lemma_read_array_result<M: MemorySpace>(m: M, addr: u16, bytes: Seq<u8>, last: M)
    requires
        exists|states: Seq<M>|
            #![trigger states.len()]
            {
                &&& states.len() == bytes.len() + 1
                &&& states[0] == m
                &&& states.last() == last
                &&& forall|i: int|
                    0 <= i < bytes.len() ==> {
                        &&& #[trigger] bytes[i] == states[i].read_value((addr + i) as u16)
                        &&& states[i + 1] == states[i].after_read((addr + i) as u16)
                    }
            },
    ensures
        bytes == read_bytes(m, addr, bytes.len()),
        last == reads_state(m, addr, bytes.len()),
{
    let states = choose|states: Seq<M>|
        #![trigger states.len()]
        {
            &&& states.len() == bytes.len() + 1
            &&& states[0] == m
            &&& states.last() == last
            &&& forall|i: int|
                0 <= i < bytes.len() ==> {
                    &&& #[trigger] bytes[i] == states[i].read_value((addr + i) as u16)
                    &&& states[i + 1] == states[i].after_read((addr + i) as u16)
                }
        };
    lemma_reads_determined(m, addr, bytes, states, bytes.len());
    assert(bytes.take(bytes.len() as int) =~= bytes);
}

/// Reads of a plain RAM leave it unchanged and hand back its bytes in order.
pub proof fn lemma_ram_read_bytes(m: BasicRam, addr: u16, n: nat)
    requires
        addr + n <= 65536,
    ensures
        reads_state(m, addr, n) == m,
        read_bytes(m, addr, n) == m@.subrange(addr as int, addr + n),
    decreases n,
{
    if n > 0 {
        lemma_ram_read_bytes(m, addr, (n - 1) as nat);
        assert(read_bytes(m, addr, n) =~= m@.subrange(addr as int, addr + n));
    }
}

/// Creates a zero-filled 64 KiB RAM.
pub fn new_basic_ram() -> (ram: BasicRam)
    ensures
        forall|i: int| 0 <= i < 65536 ==> ram@[i] == 0,
{
    [0u8; 65536]
}

} // verus!

verus! {

/// A plain RAM reads back the last byte written at an address; writes
/// elsewhere and reads change nothing.
pub proof fn lemma_ram_read_write(m: BasicRam, data: u8, addr: u16, other: u16)
    ensures
        m.after_write(data, addr).read_value(addr) == data,
        other != addr ==> m.after_write(data, addr).read_value(other) == m.read_value(other),
        m.after_read(addr) == m,
{
}

} // verus!
