use x64emu::device::{Device, IReq};
use x64emu::hardware::memory::Memory;

#[test]
fn send_irq_twice_queues_line_twice() {
    let irq = IReq::new(3);
    let mut pending: Vec<u8> = vec![7];
    irq.send_irq(&mut pending);
    irq.send_irq(&mut pending);
    assert_eq!(pending, vec![7, 3, 3]);
}

#[test]
fn dma_registers_start_zeroed() {
    let dev = Device::new();
    let mut d = [0xffu8; 16];
    dev.read_memio(0x1000, &mut d);
    assert_eq!(d, [0u8; 16]);
}

#[test]
fn dma_registers_read_back_what_was_written() {
    let mut dev = Device::new();
    let b = [0x11u8, 0x22, 0x33, 0x44, 0x55];
    dev.write_memio(0x1006, &b);
    let mut d = [0u8; 5];
    dev.read_memio(0x1006, &mut d);
    assert_eq!(d, b);
    let mut all = [0u8; 16];
    dev.read_memio(0x1000, &mut all);
    assert_eq!(all[..6], [0u8; 6]);
    assert_eq!(all[6..11], b);
    assert_eq!(all[11..], [0u8; 5]);
}

#[test]
fn dma_command_copies_memory_and_raises_line() {
    let mut dev = Device::new();
    let mut mem = Memory::new();
    mem.set_size(0x1000);
    let src = [1u8, 2, 3, 4, 5, 6];
    mem.write_data(0x200, &src, src.len()).unwrap();
    dev.write_memio(0x1000, &0x200u64.to_le_bytes());
    dev.write_memio(0x1008, &0x300u64.to_le_bytes());
    dev.out_portio(&mut mem, 0x10, &[src.len() as u8]);
    let mut got = [0u8; 6];
    mem.read_data(&mut got, 0x300, 6).unwrap();
    assert_eq!(got, src);
    assert_eq!(dev.get_interrupt_req(false), Some(1));
    assert_eq!(dev.get_interrupt_req(false), None);
}
