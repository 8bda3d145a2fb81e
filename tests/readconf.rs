use musb::readconf::{Configuration, FifoSizing, UtmiDataWidth};
use musb::regs::{Configdata, Epinfo, Fifosize, FsEof1, HsEof1, Linkinfo, LsEof1, Raminfo, Vplen};
use musb::transfer::{check_write, plan_control_read, plan_read, EndpointError, ReadPlan};

#[test]
fn fifo_size_nibbles() {
    assert_eq!(Configuration::decode_fifo_size_nibble(0), 0);
    assert_eq!(Configuration::decode_fifo_size_nibble(2), 0);
    assert_eq!(Configuration::decode_fifo_size_nibble(3), 8);
    assert_eq!(Configuration::decode_fifo_size_nibble(6), 64);
    assert_eq!(Configuration::decode_fifo_size_nibble(13), 8192);
    assert_eq!(Configuration::decode_fifo_size_nibble(14), 0);
}

#[test]
fn decode_static_configuration() {
    let mut fs = vec![Fifosize(0); 16];
    fs[1] = Fifosize(0xf6);
    fs[2] = Fifosize(0x76);
    let c = Configuration::decode(
        Configdata(0b1000_0011),
        &fs,
        Epinfo(0x87),
        Raminfo(0x2c),
        Linkinfo(0x5c),
        Vplen(0x3c),
        HsEof1(0x80),
        FsEof1(0x77),
        LsEof1(0),
    );
    assert!(c.mprxe && !c.mptxe && c.soft_connect);
    assert_eq!(c.dyn_fifo_sizing, FifoSizing::Static);
    assert_eq!(c.utmi_data_width, UtmiDataWidth::Bit16);
    assert_eq!(c.tx_fifo_sizes[1], 64);
    assert_eq!(c.rx_fifo_sizes[1], u16::MAX);
    assert_eq!(c.rx_fifo_sizes[2], 128);
    assert_eq!(c.tx_fifo_sizes[0], 0);
    assert_eq!((c.tx_endpoints, c.rx_endpoints), (7, 8));
    assert_eq!((c.ram_bits, c.dma_channels), (0xc, 2));
    assert_eq!((c.wtid, c.wtcon), (0xc, 5));
    assert_eq!(c.vplen, 0x3c);
    assert!(c.ls_eof1_is_zero && !c.fs_eof1_is_zero);
}

#[test]
fn decode_dynamic_configuration_ignores_fifosize() {
    let fs = vec![Fifosize(0x66); 16];
    let c = Configuration::decode(
        Configdata(0b100),
        &fs,
        Epinfo(0),
        Raminfo(0),
        Linkinfo(0),
        Vplen(0),
        HsEof1(0),
        FsEof1(0),
        LsEof1(0),
    );
    assert_eq!(c.dyn_fifo_sizing, FifoSizing::Dynamic);
    assert_eq!(c.utmi_data_width, UtmiDataWidth::Bit8);
    assert!(c.tx_fifo_sizes.iter().all(|&s| s == 0));
    assert!(c.epinfo_is_zero);
}

#[test]
fn read_plans() {
    assert_eq!(plan_read(10, 64), ReadPlan { copy: 10, drain: 0, result: Ok(10) });
    assert_eq!(
        plan_read(10, 4),
        ReadPlan { copy: 4, drain: 6, result: Err(EndpointError::BufferOverflow) }
    );
    assert_eq!(
        plan_control_read(70, 128, 64),
        ReadPlan { copy: 70, drain: 0, result: Err(EndpointError::BufferOverflow) }
    );
    assert_eq!(check_write(65, 64), Err(EndpointError::BufferOverflow));
    assert_eq!(check_write(64, 64), Ok(()));
}
