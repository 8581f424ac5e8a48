use mos_6500::emulator::memory::{new, BusError, Manager, Reader, Writer, RAM};

#[test]
fn test_get_and_set() {
    let mut ram = new();
    ram.write(1234, 23);
    assert_eq!(ram.read(1234), 23);
}

#[test]
fn fresh_bus_reads_zero_everywhere() {
    let mut bus = new();
    assert_eq!(bus.read(0x0000), 0);
    assert_eq!(bus.read(0x8000), 0);
    assert_eq!(bus.read(0xFFFF), 0);
}

#[test]
fn later_mount_overrides_earlier() {
    let mut bus = new();
    bus.write(0x2000, 1);
    let mut overlay = RAM::new();
    overlay.write(0x2000, 2);
    assert_eq!(bus.mount(overlay, 0x2000, 0x2FFF), Ok(()));
    assert_eq!(bus.read(0x2000), 2);
    assert_eq!(bus.find_module(0x2000), Some(0));
    assert_eq!(bus.find_module(0x3000), Some(1));
    assert_eq!(bus.read(0x1FFF), 0);
}

#[test]
fn mount_beyond_address_space_is_refused() {
    let mut bus = new();
    assert_eq!(bus.mount(RAM::new(), 0x8000, 0x10000), Err(BusError::OutOfRange));
    assert_eq!(bus.find_module(0x8000), Some(0));
    assert_eq!(bus.modules.len(), 1);
    assert_eq!(bus.mount(RAM::new(), 0x8000, 0xFFFF), Ok(()));
    assert_eq!(bus.modules.len(), 2);
    assert_eq!(bus.mount(RAM::new(), 0x9000, 0x8FFF), Ok(()));
    assert_eq!(bus.find_module(0x9000), Some(1));
    assert_eq!(bus.find_module(0x8FFF), Some(1));
    assert_eq!(bus.find_module(0x7FFF), Some(2));
}

#[test]
fn empty_bus_is_unmapped() {
    let mut bus: Manager<RAM> = Manager::empty();
    assert_eq!(bus.load(0x1234), Err(BusError::Unmapped));
    assert_eq!(bus.store(0x1234, 7), Err(BusError::Unmapped));
    assert_eq!(bus.find_module(0x1234), None);
    assert_eq!(bus.read(0x1234), 0);
    assert_eq!(bus.mount(RAM::new(), 0x1000, 0x1FFF), Ok(()));
    assert_eq!(bus.store(0x1234, 7), Ok(()));
    assert_eq!(bus.load(0x1234), Ok(7));
    assert_eq!(bus.load(0x2000), Err(BusError::Unmapped));
}

#[test]
fn debug_bytes_read_through_the_bus() {
    let mut bus = new();
    bus.write(0x0010, 1);
    bus.write(0x0011, 2);
    bus.write(0x0012, 3);
    assert_eq!(bus.debug_bytes(0x0010, 3), vec![1, 2, 3]);
    assert_eq!(bus.debug_bytes(0xFFFF, 1), vec![0]);
    assert_eq!(bus.debug_bytes(0x0000, 0), Vec::<u8>::new());
    let mut ram = RAM::new();
    ram.write(0x0010, 1);
    ram.write(0x0011, 2);
    ram.write(0x0012, 3);
    assert_eq!(ram.debug_bytes(0x0010, 3), vec![1, 2]);
    assert_eq!(ram.debug_bytes(0x0010, 1), Vec::<u8>::new());
}
