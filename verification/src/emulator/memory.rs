//! The memory bus: an ordered list of mounted address ranges, each routed to
//! a backing device. The range mounted last is asked first.

use vstd::prelude::*;

verus! {

/// Bytes in a 16-bit address space.
pub const ADDRESS_SPACE: usize = 65536;

/// A device that answers loads. A load may change the device (a status
/// register that clears when read), so the model threads the state through.
pub trait Reader: View {
    /// The device after a load from `address`, and the byte the load yields.
    spec fn read_spec(state: Self::V, address: u16) -> (Self::V, u8);

    fn read(&mut self, address: u16) -> (byte: u8)
        ensures
            (final(self)@, byte) == Self::read_spec(old(self)@, address),
    ;
}

/// A device that accepts stores.
pub trait Writer: View {
    /// The device after `byte` is stored at `address`.
    spec fn write_spec(state: Self::V, address: u16, byte: u8) -> Self::V;

    fn write(&mut self, address: u16, byte: u8)
        ensures
            final(self)@ == Self::write_spec(old(self)@, address, byte),
    ;
}

/// A device that answers loads and accepts stores: what can be mounted on
/// a bus.
pub trait ReadWriter: Reader + Writer {

}

impl<T: Reader + Writer> ReadWriter for T {

}

/// Why a bus operation was refused.
#[derive(Clone, Copy, Debug, PartialEq, Eq, Structural)]
pub enum BusError {
    /// A range ends beyond the last address.
    OutOfRange,
    /// No mounted range contains the address.
    Unmapped,
}

/// A mounted range: a device and the inclusive bounds it answers for.
pub struct Module<D> {
    pub delegate: D,
    pub start_addr: u16,
    pub end_addr: u16,
}

/// The model of a mounted range.
pub struct ModuleView<V> {
    pub delegate: V,
    pub start_addr: u16,
    pub end_addr: u16,
}

impl<D: View> View for Module<D> {
    type V = ModuleView<D::V>;

    open spec fn view(&self) -> ModuleView<D::V> {
        ModuleView { delegate: self.delegate@, start_addr: self.start_addr, end_addr: self.end_addr }
    }
}

impl<V> ModuleView<V> {
    /// Whether the range contains `address`.
    pub open spec fn covers(self, address: u16) -> bool {
        self.start_addr <= address && address <= self.end_addr
    }
}

/// The bus. `modules[0]` was mounted last and is asked first.
pub struct Manager<D> {
    pub modules: Vec<Module<D>>,
}

impl<D: View> View for Manager<D> {
    type V = Seq<ModuleView<D::V>>;

    open spec fn view(&self) -> Seq<ModuleView<D::V>> {
        Seq::new(self.modules@.len(), |i: int| self.modules@[i]@)
    }
}

/// The index of the first range at or after `from` that contains `address`.
pub open spec fn route_from<V>(bus: Seq<ModuleView<V>>, address: u16, from: int) -> Option<int>
    decreases bus.len() - from,
{
    if from < 0 || from >= bus.len() {
        None
    } else if bus[from].covers(address) {
        Some(from)
    } else {
        route_from(bus, address, from + 1)
    }
}

/// The index of the range that answers for `address`: the first that contains it.
pub open spec fn route<V>(bus: Seq<ModuleView<V>>, address: u16) -> Option<int> {
    route_from(bus, address, 0)
}

/// `route_from` yields the least index not below `from` whose range contains
/// the address, and nothing exactly when no such range exists.
pub proof fn lemma_route_from<V>(bus: Seq<ModuleView<V>>, address: u16, from: int)
    requires
        0 <= from,
    ensures
        match route_from(bus, address, from) {
            Some(i) => {
                &&& from <= i < bus.len()
                &&& bus[i].covers(address)
                &&& forall|j: int| from <= j < i ==> !(#[trigger] bus[j]).covers(address)
            },
            None => forall|j: int| from <= j < bus.len() ==> !(#[trigger] bus[j]).covers(address),
        },
    decreases bus.len() - from,
{
    if from < bus.len() && !bus[from].covers(address) {
        lemma_route_from(bus, address, from + 1);
    }
}

/// A bus whose only range is a zeroed RAM that spans the whole address space,
/// so that every address is mapped.
pub fn new() -> (bus: Manager<RAM>)
    ensures
        bus@.len() == 1,
        bus@[0].start_addr == 0,
        bus@[0].end_addr == 0xFFFF,
        bus@[0].delegate == Seq::new(65536, |i: int| 0u8),
        forall|address: u16| route(bus@, address) == Some(0int),
{
    let ram = RAM::new();
    let module = Module { delegate: ram, start_addr: 0, end_addr: 0xFFFF };
    let mut modules: Vec<Module<RAM>> = Vec::new();
    modules.push(module);
    Manager { modules }
}

impl<D: ReadWriter> Manager<D> {
    /// A bus with nothing mounted.
    pub fn empty() -> (bus: Manager<D>)
        ensures
            bus@.len() == 0,
    {
        Manager { modules: Vec::new() }
    }

    /// Mounts `delegate` on the inclusive range from `start_addr` to
    /// `end_addr`, in front of every range mounted before. Ranges may overlap:
    /// the one mounted last wins. A range that ends beyond the address
    /// space is refused and the bus stays as it was.
    pub fn mount(&mut self, delegate: D, start_addr: u16, end_addr: u32) -> (result: Result<(), BusError>)
        ensures
            match result {
                Ok(_) => {
                    &&& end_addr < ADDRESS_SPACE
                    &&& final(self)@ == old(self)@.insert(
                        0,
                        ModuleView { delegate: delegate@, start_addr, end_addr: end_addr as u16 },
                    )
                },
                Err(error) => {
                    &&& end_addr >= ADDRESS_SPACE
                    &&& error == BusError::OutOfRange
                    &&& final(self)@ == old(self)@
                },
            },
    {
        if end_addr >= 65536 {
            return Err(BusError::OutOfRange);
        }
        let module = Module { delegate, start_addr, end_addr: end_addr as u16 };
        self.modules.insert(0, module);
        Ok(())
    }

    /// The position of the range that answers for `addr`: the first one, in
    /// mounting order from the latest, that contains it.
    pub fn find_module(&self, addr: u16) -> (found: Option<usize>)
        ensures
            match found {
                Some(i) => {
                    &&& i < self@.len()
                    &&& self@[i as int].covers(addr)
                    &&& forall|j: int| 0 <= j < i ==> !(#[trigger] self@[j]).covers(addr)
                    &&& route(self@, addr) == Some(i as int)
                },
                None => {
                    &&& forall|j: int| 0 <= j < self@.len() ==> !(#[trigger] self@[j]).covers(addr)
                    &&& route(self@, addr) is None
                },
            },
    {
        let mut i: usize = 0;
        while i < self.modules.len()
            invariant
                i <= self.modules.len(),
                route(self@, addr) == route_from(self@, addr, i as int),
                forall|j: int| 0 <= j < i ==> !(#[trigger] self@[j]).covers(addr),
            decreases self.modules.len() - i,
        {
            if self.modules[i].start_addr <= addr && self.modules[i].end_addr >= addr {
                return Some(i);
            }
            i += 1;
        }
        None
    }

    /// Loads through the bus, or reports that no range contains `address`.
    pub fn load(&mut self, address: u16) -> (result: Result<u8, BusError>)
        ensures
            match result {
                Ok(byte) => {
                    &&& route(old(self)@, address) is Some
                    &&& (final(self)@, byte) == Self::read_spec(old(self)@, address)
                },
                Err(error) => {
                    &&& route(old(self)@, address) is None
                    &&& error == BusError::Unmapped
                    &&& final(self)@ == old(self)@
                },
            },
    {
        match self.find_module(address) {
            Some(i) => {
                let byte = self.modules[i].delegate.read(address);
                Ok(byte)
            },
            None => Err(BusError::Unmapped),
        }
    }

    /// Stores through the bus, or reports that no range contains `address`.
    pub fn store(&mut self, address: u16, byte: u8) -> (result: Result<(), BusError>)
        ensures
            match result {
                Ok(_) => {
                    &&& route(old(self)@, address) is Some
                    &&& final(self)@ == Self::write_spec(old(self)@, address, byte)
                },
                Err(error) => {
                    &&& route(old(self)@, address) is None
                    &&& error == BusError::Unmapped
                    &&& final(self)@ == old(self)@
                },
            },
    {
        match self.find_module(address) {
            Some(i) => {
                self.modules[i].delegate.write(address, byte);
                Ok(())
            },
            None => Err(BusError::Unmapped),
        }
    }
}

/// The bus after loads from `count` addresses in a row, the first at
/// `address`, and the bytes they yielded appended to `bytes`.
pub open spec fn loaded<D: ReadWriter>(
    bus: Seq<ModuleView<D::V>>,
    address: int,
    count: nat,
    bytes: Seq<u8>,
) -> (Seq<ModuleView<D::V>>, Seq<u8>)
    decreases count,
{
    if count == 0 {
        (bus, bytes)
    } else {
        let (after, byte) = Manager::<D>::read_spec(bus, address as u16);
        loaded::<D>(after, address + 1, (count - 1) as nat, bytes.push(byte))
    }
}

impl<D: ReadWriter> Manager<D> {
    /// Loads `num_bytes` bytes in a row for a look at the memory, the first
    /// from `start_addr`. The loads go through the bus like any other.
    pub fn debug_bytes(&mut self, start_addr: u16, num_bytes: u16) -> (bytes: Vec<u8>)
        requires
            start_addr + num_bytes <= ADDRESS_SPACE,
        ensures
            (final(self)@, bytes@) == loaded::<D>(old(self)@, start_addr as int, num_bytes as nat, Seq::empty()),
    {
        let ghost start = self@;
        let mut bytes: Vec<u8> = Vec::new();
        let mut ix: u16 = 0;
        while ix < num_bytes
            invariant
                ix <= num_bytes,
                start_addr + num_bytes <= ADDRESS_SPACE,
                loaded::<D>(start, start_addr as int, num_bytes as nat, Seq::empty()) == loaded::<D>(
                    self@,
                    start_addr + ix,
                    (num_bytes - ix) as nat,
                    bytes@,
                ),
            decreases num_bytes - ix,
        {
            let byte = self.read(start_addr + ix);
            bytes.push(byte);
            ix += 1;
        }
        bytes
    }
}

impl<D: ReadWriter> Reader for Manager<D> {
    /// The load goes to the first range that contains the address, with the
    /// address unchanged. Where nothing is mounted the bus floats: the load
    /// yields 0 and changes nothing.
    open spec fn read_spec(state: Seq<ModuleView<D::V>>, address: u16) -> (Seq<ModuleView<D::V>>, u8) {
        match route(state, address) {
            Some(i) => {
                let (delegate, byte) = D::read_spec(state[i].delegate, address);
                (state.update(i, ModuleView { delegate, ..state[i] }), byte)
            },
            None => (state, 0u8),
        }
    }

    fn read(&mut self, address: u16) -> (byte: u8) {
        match self.load(address) {
            Ok(byte) => byte,
            Err(_) => 0,
        }
    }
}

impl<D: ReadWriter> Writer for Manager<D> {
    /// The store goes to the first range that contains the address. Where
    /// nothing is mounted it is dropped.
    open spec fn write_spec(state: Seq<ModuleView<D::V>>, address: u16, byte: u8) -> Seq<ModuleView<D::V>> {
        match route(state, address) {
            Some(i) => state.update(
                i,
                ModuleView { delegate: D::write_spec(state[i].delegate, address, byte), ..state[i] },
            ),
            None => state,
        }
    }

    fn write(&mut self, address: u16, byte: u8) {
        let _ = self.store(address, byte);
    }
}

/// 64 KiB of plain memory, addressed by the full bus address.
pub struct RAM {
    memory: Vec<u8>,
}

impl View for RAM {
    type V = Seq<u8>;

    closed spec fn view(&self) -> Seq<u8> {
        self.memory@
    }
}

impl RAM {
    #[verifier::type_invariant]
    spec fn well_formed(self) -> bool {
        self.memory@.len() == ADDRESS_SPACE
    }

    /// Zeroed RAM.
    pub fn new() -> (ram: RAM)
        ensures
            ram@ == Seq::new(65536, |i: int| 0u8),
    {
        let memory: Vec<u8> = vec![0u8; ADDRESS_SPACE];
        RAM { memory }
    }
}

impl RAM {
    /// The bytes from `start_addr` up to, but without, the one at
    /// `start_addr - 1 + num_bytes`, for a look at the memory.
    pub fn debug_bytes(&self, start_addr: u16, num_bytes: u16) -> (bytes: Vec<u8>)
        requires
            start_addr >= 1,
            num_bytes >= 1,
            start_addr - 1 + num_bytes <= 0xFFFF,
        ensures
            bytes@ == self@.subrange(start_addr as int, start_addr - 1 + num_bytes),
    {
        proof {
            use_type_invariant(self);
        }
        let end_addr: u16 = start_addr - 1 + num_bytes;
        let mut bytes: Vec<u8> = Vec::new();
        let mut at: u16 = start_addr;
        while at < end_addr
            invariant
                start_addr <= at <= end_addr,
                self.memory@.len() == ADDRESS_SPACE,
                bytes@ == self.memory@.subrange(start_addr as int, at as int),
            decreases end_addr - at,
        {
            bytes.push(self.memory[at as usize]);
            at += 1;
        }
        bytes
    }
}

impl Reader for RAM {
    open spec fn read_spec(state: Seq<u8>, address: u16) -> (Seq<u8>, u8) {
        (state, state[address as int])
    }

    fn read(&mut self, address: u16) -> (byte: u8) {
        proof {
            use_type_invariant(&*self);
        }
        self.memory[address as usize]
    }
}

impl Writer for RAM {
    open spec fn write_spec(state: Seq<u8>, address: u16, byte: u8) -> Seq<u8> {
        state.update(address as int, byte)
    }

    fn write(&mut self, address: u16, byte: u8) {
        proof {
            use_type_invariant(&*self);
        }
        self.memory[address as usize] = byte;
    }
}

/// Whether every load and every store keeps `kept` true of a device.
pub open spec fn kept_by_memory<M: ReadWriter>(kept: spec_fn(M::V) -> bool) -> bool {
    &&& forall|memory: M::V, address: u16|
        kept(memory) ==> kept((#[trigger] M::read_spec(memory, address)).0)
    &&& forall|memory: M::V, address: u16, byte: u8|
        kept(memory) ==> kept(#[trigger] M::write_spec(memory, address, byte))
}

/// Whether a device in `state` gives back `byte` once it is stored at
/// `address`, the load leaving the device as the store made it.
pub open spec fn echoes<D: ReadWriter>(state: D::V, address: u16, byte: u8) -> bool {
    D::read_spec(D::write_spec(state, address, byte), address) == (D::write_spec(state, address, byte), byte)
}

/// Whether a device in `state` gives back two bytes stored one after the
/// other at `first` and at `second`, when the second is loaded before the
/// first, the loads leaving the device as the stores made it.
pub open spec fn echoes_two<D: ReadWriter>(state: D::V, first: u16, one: u8, second: u16, two: u8) -> bool {
    let stored = D::write_spec(D::write_spec(state, first, one), second, two);
    &&& D::read_spec(stored, second) == (stored, two)
    &&& D::read_spec(stored, first) == (stored, one)
}

/// RAM gives back what is stored in it.
pub proof fn lemma_ram_echoes(ram: Seq<u8>, address: u16, byte: u8)
    requires
        ram.len() == ADDRESS_SPACE,
    ensures
        echoes::<RAM>(ram, address, byte),
{
}

/// RAM gives back two bytes stored at different addresses.
pub proof fn lemma_ram_echoes_two(ram: Seq<u8>, first: u16, one: u8, second: u16, two: u8)
    requires
        ram.len() == ADDRESS_SPACE,
        first != second,
    ensures
        echoes_two::<RAM>(ram, first, one, second, two),
{
}

/// A store through the bus changes nothing about where addresses are routed.
pub proof fn lemma_write_keeps_routes<D: ReadWriter>(
    bus: Seq<ModuleView<D::V>>,
    address: u16,
    byte: u8,
    other: u16,
)
    ensures
        route(Manager::<D>::write_spec(bus, address, byte), other) == route(bus, other),
{
    let after = Manager::<D>::write_spec(bus, address, byte);
    lemma_route_from(bus, address, 0);
    lemma_route_from(bus, other, 0);
    lemma_route_from(after, other, 0);
    assert forall|j: int| 0 <= j < bus.len() implies (#[trigger] after[j]).covers(other) == bus[j].covers(
        other,
    ) by {}
    match route(bus, other) {
        Some(i) => {
            assert(after[i].covers(other));
        },
        None => {},
    }
}

/// On a bus, a byte stored at a mapped address is the byte loaded from it
/// afterwards, whenever the device that answers for the address gives back
/// what is stored in it.
pub proof fn lemma_bus_echoes<D: ReadWriter>(bus: Seq<ModuleView<D::V>>, address: u16, byte: u8)
    requires
        route(bus, address) is Some,
        echoes::<D>(bus[route(bus, address)->Some_0].delegate, address, byte),
    ensures
        echoes::<Manager<D>>(bus, address, byte),
{
    let i = route(bus, address)->Some_0;
    let after = Manager::<D>::write_spec(bus, address, byte);
    lemma_route_from(bus, address, 0);
    lemma_write_keeps_routes::<D>(bus, address, byte, address);
    assert(Manager::<D>::read_spec(after, address).0 =~= after);
}

/// On the bus that `new` makes, whose one device is RAM, every address gives
/// back what is stored in it.
pub proof fn lemma_ram_bus_echoes(bus: Seq<ModuleView<Seq<u8>>>, address: u16, byte: u8)
    requires
        bus.len() == 1,
        bus[0].start_addr == 0,
        bus[0].end_addr == 0xFFFF,
        bus[0].delegate.len() == ADDRESS_SPACE,
    ensures
        echoes::<Manager<RAM>>(bus, address, byte),
{
    lemma_ram_echoes(bus[0].delegate, address, byte);
    lemma_bus_echoes::<RAM>(bus, address, byte);
}

} // verus!
