//! Register values of the controller, one type per register, with an
//! accessor pair for each field.
use vstd::prelude::*;

use crate::bits::{
    bool_bit, field16, field8, get_field16, get_field8, put_field16, put_field8, with_field16,
    with_field8,
};
use crate::vals::{DeviceType, EndpointDirection, ForceHostMode, HsModeStatus, IsoUpdateMode, UtmiWidth, VbusLevel};

verus! {

/// Core configuration information register
#[derive(Clone, Copy, Debug, PartialEq, Eq, Structural)]
pub struct Configdata(pub u8);

impl Configdata {
    /// UTMI+ data width selection.
    pub fn utmi_data_width(&self) -> (r: UtmiWidth)
        ensures
            r == UtmiWidth::spec_from_bits(field8(self.0, 0, 0x01)),
    {
        UtmiWidth::from_bits(get_field8(self.0, 0, 0x01))
    }

    /// UTMI+ data width selection.
    pub fn set_utmi_data_width(&mut self, val: UtmiWidth)
        ensures
            final(self).0 == with_field8(old(self).0, 0, 0x01, val.spec_to_bits()),
    {
        self.0 = put_field8(self.0, 0, 0x01, val.to_bits());
    }

    /// Soft Connect/Disconnect feature.
    pub fn soft_con_e(&self) -> (r: bool)
        ensures
            r == (field8(self.0, 1, 0x01) != 0),
    {
        get_field8(self.0, 1, 0x01) != 0
    }

    /// Soft Connect/Disconnect feature.
    pub fn set_soft_con_e(&mut self, val: bool)
        ensures
            final(self).0 == with_field8(old(self).0, 1, 0x01, bool_bit(val)),
    {
        self.0 = put_field8(self.0, 1, 0x01, if val { 1 } else { 0 });
    }

    /// Dynamic FIFO Sizing option.
    pub fn dyn_fifo_sizing(&self) -> (r: bool)
        ensures
            r == (field8(self.0, 2, 0x01) != 0),
    {
        get_field8(self.0, 2, 0x01) != 0
    }

    /// Dynamic FIFO Sizing option.
    pub fn set_dyn_fifo_sizing(&mut self, val: bool)
        ensures
            final(self).0 == with_field8(old(self).0, 2, 0x01, bool_bit(val)),
    {
        self.0 = put_field8(self.0, 2, 0x01, if val { 1 } else { 0 });
    }

    /// High-bandwidth TX ISO Endpoint Support.
    pub fn hbtxe(&self) -> (r: bool)
        ensures
            r == (field8(self.0, 3, 0x01) != 0),
    {
        get_field8(self.0, 3, 0x01) != 0
    }

    /// High-bandwidth TX ISO Endpoint Support.
    pub fn set_hbtxe(&mut self, val: bool)
        ensures
            final(self).0 == with_field8(old(self).0, 3, 0x01, bool_bit(val)),
    {
        self.0 = put_field8(self.0, 3, 0x01, if val { 1 } else { 0 });
    }

    /// High-bandwidth Rx ISO Endpoint Support.
    pub fn hbrxe(&self) -> (r: bool)
        ensures
            r == (field8(self.0, 4, 0x01) != 0),
    {
        get_field8(self.0, 4, 0x01) != 0
    }

    /// High-bandwidth Rx ISO Endpoint Support.
    pub fn set_hbrxe(&mut self, val: bool)
        ensures
            final(self).0 == with_field8(old(self).0, 4, 0x01, bool_bit(val)),
    {
        self.0 = put_field8(self.0, 4, 0x01, if val { 1 } else { 0 });
    }

    /// Endian ordering indicator.
    pub fn big_endian(&self) -> (r: bool)
        ensures
            r == (field8(self.0, 5, 0x01) != 0),
    {
        get_field8(self.0, 5, 0x01) != 0
    }

    /// Endian ordering indicator.
    pub fn set_big_endian(&mut self, val: bool)
        ensures
            final(self).0 == with_field8(old(self).0, 5, 0x01, bool_bit(val)),
    {
        self.0 = put_field8(self.0, 5, 0x01, if val { 1 } else { 0 });
    }

    /// Automatic bulk packet splitting.
    pub fn mptxe(&self) -> (r: bool)
        ensures
            r == (field8(self.0, 6, 0x01) != 0),
    {
        get_field8(self.0, 6, 0x01) != 0
    }

    /// Automatic bulk packet splitting.
    pub fn set_mptxe(&mut self, val: bool)
        ensures
            final(self).0 == with_field8(old(self).0, 6, 0x01, bool_bit(val)),
    {
        self.0 = put_field8(self.0, 6, 0x01, if val { 1 } else { 0 });
    }

    /// Automatic bulk packet amalgamation.
    pub fn mprxe(&self) -> (r: bool)
        ensures
            r == (field8(self.0, 7, 0x01) != 0),
    {
        get_field8(self.0, 7, 0x01) != 0
    }

    /// Automatic bulk packet amalgamation.
    pub fn set_mprxe(&mut self, val: bool)
        ensures
            final(self).0 == with_field8(old(self).0, 7, 0x01, bool_bit(val)),
    {
        self.0 = put_field8(self.0, 7, 0x01, if val { 1 } else { 0 });
    }
}

impl Default for Configdata {
    /// The all-zero register value.
    fn default() -> (r: Configdata)
        ensures
            r.0 == 0,
    {
        Configdata(0)
    }
}

/// USB Endpoint 0 Received Data Byte Count
#[derive(Clone, Copy, Debug, PartialEq, Eq, Structural)]
pub struct Count0(pub u8);

impl Count0 {
    /// Number of received data bytes in FIFO.
    pub fn count(&self) -> (r: u8)
        ensures
            r == field8(self.0, 0, 0x7f),
    {
        get_field8(self.0, 0, 0x7f)
    }

    /// Number of received data bytes in FIFO.
    pub fn set_count(&mut self, val: u8)
        ensures
            final(self).0 == with_field8(old(self).0, 0, 0x7f, val),
    {
        self.0 = put_field8(self.0, 0, 0x7f, val);
    }
}

impl Default for Count0 {
    /// The all-zero register value.
    fn default() -> (r: Count0)
        ensures
            r.0 == 0,
    {
        Count0(0)
    }
}

/// USB Endpoint 0 Control and Status Register High
#[derive(Clone, Copy, Debug, PartialEq, Eq, Structural)]
pub struct Csr0h(pub u8);

impl Csr0h {
    /// Reset FIFO pointer and clear packet ready status.
    pub fn flush_fifo(&self) -> (r: bool)
        ensures
            r == (field8(self.0, 0, 0x01) != 0),
    {
        get_field8(self.0, 0, 0x01) != 0
    }

    /// Reset FIFO pointer and clear packet ready status.
    pub fn set_flush_fifo(&mut self, val: bool)
        ensures
            final(self).0 == with_field8(old(self).0, 0, 0x01, bool_bit(val)),
    {
        self.0 = put_field8(self.0, 0, 0x01, if val { 1 } else { 0 });
    }
}

impl Default for Csr0h {
    /// The all-zero register value.
    fn default() -> (r: Csr0h)
        ensures
            r.0 == 0,
    {
        Csr0h(0)
    }
}

/// USB Endpoint 0 Control and Status Register Low
#[derive(Clone, Copy, Debug, PartialEq, Eq, Structural)]
pub struct Csr0l(pub u8);

impl Csr0l {
    /// Indicates received data packet ready for processing.
    pub fn rx_pkt_rdy(&self) -> (r: bool)
        ensures
            r == (field8(self.0, 0, 0x01) != 0),
    {
        get_field8(self.0, 0, 0x01) != 0
    }

    /// Indicates received data packet ready for processing.
    pub fn set_rx_pkt_rdy(&mut self, val: bool)
        ensures
            final(self).0 == with_field8(old(self).0, 0, 0x01, bool_bit(val)),
    {
        self.0 = put_field8(self.0, 0, 0x01, if val { 1 } else { 0 });
    }

    /// Indicates data packet loaded in FIFO ready for transmission.
    pub fn tx_pkt_rdy(&self) -> (r: bool)
        ensures
            r == (field8(self.0, 1, 0x01) != 0),
    {
        get_field8(self.0, 1, 0x01) != 0
    }

    /// Indicates data packet loaded in FIFO ready for transmission.
    pub fn set_tx_pkt_rdy(&mut self, val: bool)
        ensures
            final(self).0 == with_field8(old(self).0, 1, 0x01, bool_bit(val)),
    {
        self.0 = put_field8(self.0, 1, 0x01, if val { 1 } else { 0 });
    }

    /// Set when STALL handshake is transmitted.
    pub fn sent_stall(&self) -> (r: bool)
        ensures
            r == (field8(self.0, 2, 0x01) != 0),
    {
        get_field8(self.0, 2, 0x01) != 0
    }

    /// Set when STALL handshake is transmitted.
    pub fn set_sent_stall(&mut self, val: bool)
        ensures
            final(self).0 == with_field8(old(self).0, 2, 0x01, bool_bit(val)),
    {
        self.0 = put_field8(self.0, 2, 0x01, if val { 1 } else { 0 });
    }

    /// Marks the end of data transfer.
    pub fn data_end(&self) -> (r: bool)
        ensures
            r == (field8(self.0, 3, 0x01) != 0),
    {
        get_field8(self.0, 3, 0x01) != 0
    }

    /// Marks the end of data transfer.
    pub fn set_data_end(&mut self, val: bool)
        ensures
            final(self).0 == with_field8(old(self).0, 3, 0x01, bool_bit(val)),
    {
        self.0 = put_field8(self.0, 3, 0x01, if val { 1 } else { 0 });
    }

    /// Control transaction ended prematurely.
    pub fn setup_end(&self) -> (r: bool)
        ensures
            r == (field8(self.0, 4, 0x01) != 0),
    {
        get_field8(self.0, 4, 0x01) != 0
    }

    /// Control transaction ended prematurely.
    pub fn set_setup_end(&mut self, val: bool)
        ensures
            final(self).0 == with_field8(old(self).0, 4, 0x01, bool_bit(val)),
    {
        self.0 = put_field8(self.0, 4, 0x01, if val { 1 } else { 0 });
    }

    /// Terminate current transaction with STALL handshake.
    pub fn send_stall(&self) -> (r: bool)
        ensures
            r == (field8(self.0, 5, 0x01) != 0),
    {
        get_field8(self.0, 5, 0x01) != 0
    }

    /// Terminate current transaction with STALL handshake.
    pub fn set_send_stall(&mut self, val: bool)
        ensures
            final(self).0 == with_field8(old(self).0, 5, 0x01, bool_bit(val)),
    {
        self.0 = put_field8(self.0, 5, 0x01, if val { 1 } else { 0 });
    }

    /// Clear RxPktRdy bit.
    pub fn serviced_rx_pkt_rdy(&self) -> (r: bool)
        ensures
            r == (field8(self.0, 6, 0x01) != 0),
    {
        get_field8(self.0, 6, 0x01) != 0
    }

    /// Clear RxPktRdy bit.
    pub fn set_serviced_rx_pkt_rdy(&mut self, val: bool)
        ensures
            final(self).0 == with_field8(old(self).0, 6, 0x01, bool_bit(val)),
    {
        self.0 = put_field8(self.0, 6, 0x01, if val { 1 } else { 0 });
    }

    /// Clear SetupEnd bit.
    pub fn serviced_setup_end(&self) -> (r: bool)
        ensures
            r == (field8(self.0, 7, 0x01) != 0),
    {
        get_field8(self.0, 7, 0x01) != 0
    }

    /// Clear SetupEnd bit.
    pub fn set_serviced_setup_end(&mut self, val: bool)
        ensures
            final(self).0 == with_field8(old(self).0, 7, 0x01, bool_bit(val)),
    {
        self.0 = put_field8(self.0, 7, 0x01, if val { 1 } else { 0 });
    }
}

impl Default for Csr0l {
    /// The all-zero register value.
    fn default() -> (r: Csr0l)
        ensures
            r.0 == 0,
    {
        Csr0l(0)
    }
}

/// Device Control Register for USB mode and VBus monitoring
#[derive(Clone, Copy, Debug, PartialEq, Eq, Structural)]
pub struct Devctl(pub u8);

impl Devctl {
    /// Control or monitor USB session state.
    pub fn session(&self) -> (r: bool)
        ensures
            r == (field8(self.0, 0, 0x01) != 0),
    {
        get_field8(self.0, 0, 0x01) != 0
    }

    /// Control or monitor USB session state.
    pub fn set_session(&mut self, val: bool)
        ensures
            final(self).0 == with_field8(old(self).0, 0, 0x01, bool_bit(val)),
    {
        self.0 = put_field8(self.0, 0, 0x01, if val { 1 } else { 0 });
    }

    /// Initiate Host Negotiation Protocol.
    pub fn host_req(&self) -> (r: bool)
        ensures
            r == (field8(self.0, 1, 0x01) != 0),
    {
        get_field8(self.0, 1, 0x01) != 0
    }

    /// Initiate Host Negotiation Protocol.
    pub fn set_host_req(&mut self, val: bool)
        ensures
            final(self).0 == with_field8(old(self).0, 1, 0x01, bool_bit(val)),
    {
        self.0 = put_field8(self.0, 1, 0x01, if val { 1 } else { 0 });
    }

    /// Indicates USB Host mode operation.
    pub fn host_mode(&self) -> (r: bool)
        ensures
            r == (field8(self.0, 2, 0x01) != 0),
    {
        get_field8(self.0, 2, 0x01) != 0
    }

    /// Indicates USB Host mode operation.
    pub fn set_host_mode(&mut self, val: bool)
        ensures
            final(self).0 == with_field8(old(self).0, 2, 0x01, bool_bit(val)),
    {
        self.0 = put_field8(self.0, 2, 0x01, if val { 1 } else { 0 });
    }

    /// VBus voltage level indication.
    pub fn vbus(&self) -> (r: VbusLevel)
        ensures
            r == VbusLevel::spec_from_bits(field8(self.0, 3, 0x03)),
    {
        VbusLevel::from_bits(get_field8(self.0, 3, 0x03))
    }

    /// VBus voltage level indication.
    pub fn set_vbus(&mut self, val: VbusLevel)
        ensures
            final(self).0 == with_field8(old(self).0, 3, 0x03, val.spec_to_bits()),
    {
        self.0 = put_field8(self.0, 3, 0x03, val.to_bits());
    }

    /// Low-speed device detection.
    pub fn ls_dev(&self) -> (r: bool)
        ensures
            r == (field8(self.0, 5, 0x01) != 0),
    {
        get_field8(self.0, 5, 0x01) != 0
    }

    /// Low-speed device detection.
    pub fn set_ls_dev(&mut self, val: bool)
        ensures
            final(self).0 == with_field8(old(self).0, 5, 0x01, bool_bit(val)),
    {
        self.0 = put_field8(self.0, 5, 0x01, if val { 1 } else { 0 });
    }

    /// Full-speed or high-speed device detection.
    pub fn fs_dev(&self) -> (r: bool)
        ensures
            r == (field8(self.0, 6, 0x01) != 0),
    {
        get_field8(self.0, 6, 0x01) != 0
    }

    /// Full-speed or high-speed device detection.
    pub fn set_fs_dev(&mut self, val: bool)
        ensures
            final(self).0 == with_field8(old(self).0, 6, 0x01, bool_bit(val)),
    {
        self.0 = put_field8(self.0, 6, 0x01, if val { 1 } else { 0 });
    }

    /// Indicates device type in USB session.
    pub fn b_device(&self) -> (r: DeviceType)
        ensures
            r == DeviceType::spec_from_bits(field8(self.0, 7, 0x01)),
    {
        DeviceType::from_bits(get_field8(self.0, 7, 0x01))
    }

    /// Indicates device type in USB session.
    pub fn set_b_device(&mut self, val: DeviceType)
        ensures
            final(self).0 == with_field8(old(self).0, 7, 0x01, val.spec_to_bits()),
    {
        self.0 = put_field8(self.0, 7, 0x01, val.to_bits());
    }
}

impl Default for Devctl {
    /// The all-zero register value.
    fn default() -> (r: Devctl)
        ensures
            r.0 == 0,
    {
        Devctl(0)
    }
}

/// Indicates which of the endpoints have disabled the double packet buffer functionality described in section 8.4.2.2 of the MUSBMHDRC Product Specification
#[derive(Clone, Copy, Debug, PartialEq, Eq, Structural)]
pub struct Dpktbufdis(pub u16);

impl Dpktbufdis {
    /// Double Packet Buffer Disable for Tx/Rx Endpoint x (except EP0).
    pub fn dis(&self, n: usize) -> (r: bool)
        requires
            n < 16,
        ensures
            r == (field16(self.0, n as u16, 0x0001) != 0),
    {
        get_field16(self.0, n as u16, 0x0001) != 0
    }

    /// Double Packet Buffer Disable for Tx/Rx Endpoint x (except EP0).
    pub fn set_dis(&mut self, n: usize, val: bool)
        requires
            n < 16,
        ensures
            final(self).0 == with_field16(old(self).0, n as u16, 0x0001, bool_bit(val) as u16),
    {
        self.0 = put_field16(self.0, n as u16, 0x0001, if val { 1 } else { 0 });
    }
}

impl Default for Dpktbufdis {
    /// The all-zero register value.
    fn default() -> (r: Dpktbufdis)
        ensures
            r.0 == 0,
    {
        Dpktbufdis(0)
    }
}

/// Endpoint information register.
#[derive(Clone, Copy, Debug, PartialEq, Eq, Structural)]
pub struct Epinfo(pub u8);

impl Epinfo {
    /// The number of TX endpoints implemented.
    pub fn tx_end_points(&self) -> (r: u8)
        ensures
            r == field8(self.0, 0, 0x0f),
    {
        get_field8(self.0, 0, 0x0f)
    }

    /// The number of TX endpoints implemented.
    pub fn set_tx_end_points(&mut self, val: u8)
        ensures
            final(self).0 == with_field8(old(self).0, 0, 0x0f, val),
    {
        self.0 = put_field8(self.0, 0, 0x0f, val);
    }

    /// The number of Rx endpoints implemented.
    pub fn rx_end_points(&self) -> (r: u8)
        ensures
            r == field8(self.0, 4, 0x0f),
    {
        get_field8(self.0, 4, 0x0f)
    }

    /// The number of Rx endpoints implemented.
    pub fn set_rx_end_points(&mut self, val: u8)
        ensures
            final(self).0 == with_field8(old(self).0, 4, 0x0f, val),
    {
        self.0 = put_field8(self.0, 4, 0x0f, val);
    }
}

impl Default for Epinfo {
    /// The all-zero register value.
    fn default() -> (r: Epinfo)
        ensures
            r.0 == 0,
    {
        Epinfo(0)
    }
}

/// Function Address Register for USB device addressing
#[derive(Clone, Copy, Debug, PartialEq, Eq, Structural)]
pub struct Faddr(pub u8);

impl Faddr {
    /// USB device function address.
    pub fn func_addr(&self) -> (r: u8)
        ensures
            r == field8(self.0, 0, 0x7f),
    {
        get_field8(self.0, 0, 0x7f)
    }

    /// USB device function address.
    pub fn set_func_addr(&mut self, val: u8)
        ensures
            final(self).0 == with_field8(old(self).0, 0, 0x7f, val),
    {
        self.0 = put_field8(self.0, 0, 0x7f, val);
    }
}

impl Default for Faddr {
    /// The all-zero register value.
    fn default() -> (r: Faddr)
        ensures
            r.0 == 0,
    {
        Faddr(0)
    }
}

/// FIFO Data Access Register for Endpoints
#[derive(Clone, Copy, Debug, PartialEq, Eq, Structural)]
pub struct Fifo(pub u8);

impl Fifo {
    /// Data byte for FIFO read/write operation.
    pub fn data(&self) -> (r: u8)
        ensures
            r == field8(self.0, 0, 0xff),
    {
        get_field8(self.0, 0, 0xff)
    }

    /// Data byte for FIFO read/write operation.
    pub fn set_data(&mut self, val: u8)
        ensures
            final(self).0 == with_field8(old(self).0, 0, 0xff, val),
    {
        self.0 = put_field8(self.0, 0, 0xff, val);
    }
}

impl Default for Fifo {
    /// The all-zero register value.
    fn default() -> (r: Fifo)
        ensures
            r.0 == 0,
    {
        Fifo(0)
    }
}

/// controls the start address of the selected endpoint FIFO
#[derive(Clone, Copy, Debug, PartialEq, Eq, Structural)]
pub struct FifoAdd(pub u16);

impl FifoAdd {
    /// Start address of the endpoint FIFO in units of 8 bytes.
    pub fn add(&self) -> (r: u16)
        ensures
            r == field16(self.0, 0, 0x1fff),
    {
        get_field16(self.0, 0, 0x1fff)
    }

    /// Start address of the endpoint FIFO in units of 8 bytes.
    pub fn set_add(&mut self, val: u16)
        ensures
            final(self).0 == with_field16(old(self).0, 0, 0x1fff, val),
    {
        self.0 = put_field16(self.0, 0, 0x1fff, val);
    }
}

impl Default for FifoAdd {
    /// The all-zero register value.
    fn default() -> (r: FifoAdd)
        ensures
            r.0 == 0,
    {
        FifoAdd(0)
    }
}

/// controls the size of the selected endpoint FIFO
#[derive(Clone, Copy, Debug, PartialEq, Eq, Structural)]
pub struct FifoSz(pub u8);

impl FifoSz {
    /// Maximum packet size to be allowed for (before any splitting within the FIFO of Bulk/High Bandwidth packets prior to transmission – see Sections 8.4.1.3, 8.4.1.4 and 8.5.3).
    pub fn sz(&self) -> (r: u8)
        ensures
            r == field8(self.0, 0, 0x07),
    {
        get_field8(self.0, 0, 0x07)
    }

    /// Maximum packet size to be allowed for (before any splitting within the FIFO of Bulk/High Bandwidth packets prior to transmission – see Sections 8.4.1.3, 8.4.1.4 and 8.5.3).
    pub fn set_sz(&mut self, val: u8)
        ensures
            final(self).0 == with_field8(old(self).0, 0, 0x07, val),
    {
        self.0 = put_field8(self.0, 0, 0x07, val);
    }

    /// Defines whether double-packet buffering supported.
    pub fn dpb(&self) -> (r: bool)
        ensures
            r == (field8(self.0, 4, 0x01) != 0),
    {
        get_field8(self.0, 4, 0x01) != 0
    }

    /// Defines whether double-packet buffering supported.
    pub fn set_dpb(&mut self, val: bool)
        ensures
            final(self).0 == with_field8(old(self).0, 4, 0x01, bool_bit(val)),
    {
        self.0 = put_field8(self.0, 4, 0x01, if val { 1 } else { 0 });
    }
}

impl Default for FifoSz {
    /// The all-zero register value.
    fn default() -> (r: FifoSz)
        ensures
            r.0 == 0,
    {
        FifoSz(0)
    }
}

/// FIFO Size Register for TX and RX Endpoints
#[derive(Clone, Copy, Debug, PartialEq, Eq, Structural)]
pub struct Fifosize(pub u8);

impl Fifosize {
    /// Size of the selected Tx endpoint FIFO (2^n bytes, 0 if not configured).
    pub fn tx_fifo_size(&self) -> (r: u8)
        ensures
            r == field8(self.0, 0, 0x0f),
    {
        get_field8(self.0, 0, 0x0f)
    }

    /// Size of the selected Tx endpoint FIFO (2^n bytes, 0 if not configured).
    pub fn set_tx_fifo_size(&mut self, val: u8)
        ensures
            final(self).0 == with_field8(old(self).0, 0, 0x0f, val),
    {
        self.0 = put_field8(self.0, 0, 0x0f, val);
    }

    /// Size of the selected Rx endpoint FIFO (2^n bytes, 0 if not configured).
    pub fn rx_fifo_size(&self) -> (r: u8)
        ensures
            r == field8(self.0, 4, 0x0f),
    {
        get_field8(self.0, 4, 0x0f)
    }

    /// Size of the selected Rx endpoint FIFO (2^n bytes, 0 if not configured).
    pub fn set_rx_fifo_size(&mut self, val: u8)
        ensures
            final(self).0 == with_field8(old(self).0, 4, 0x0f, val),
    {
        self.0 = put_field8(self.0, 4, 0x0f, val);
    }
}

impl Default for Fifosize {
    /// The all-zero register value.
    fn default() -> (r: Fifosize)
        ensures
            r.0 == 0,
    {
        Fifosize(0)
    }
}

/// Last received USB frame number
#[derive(Clone, Copy, Debug, PartialEq, Eq, Structural)]
pub struct Frame(pub u16);

impl Frame {
    /// USB frame number.
    pub fn frame(&self) -> (r: u16)
        ensures
            r == field16(self.0, 0, 0x07ff),
    {
        get_field16(self.0, 0, 0x07ff)
    }

    /// USB frame number.
    pub fn set_frame(&mut self, val: u16)
        ensures
            final(self).0 == with_field16(old(self).0, 0, 0x07ff, val),
    {
        self.0 = put_field16(self.0, 0, 0x07ff, val);
    }
}

impl Default for Frame {
    /// The all-zero register value.
    fn default() -> (r: Frame)
        ensures
            r.0 == 0,
    {
        Frame(0)
    }
}

/// Full-speed end of frame time gap.
#[derive(Clone, Copy, Debug, PartialEq, Eq, Structural)]
pub struct FsEof1(pub u8);

impl FsEof1 {
    /// Time before EOF to stop beginning new transactions for Full-speed, in units of 533.3ns.
    pub fn fs_eof1(&self) -> (r: u8)
        ensures
            r == field8(self.0, 0, 0xff),
    {
        get_field8(self.0, 0, 0xff)
    }

    /// Time before EOF to stop beginning new transactions for Full-speed, in units of 533.3ns.
    pub fn set_fs_eof1(&mut self, val: u8)
        ensures
            final(self).0 == with_field8(old(self).0, 0, 0xff, val),
    {
        self.0 = put_field8(self.0, 0, 0xff, val);
    }
}

impl Default for FsEof1 {
    /// The all-zero register value.
    fn default() -> (r: FsEof1)
        ensures
            r.0 == 0,
    {
        FsEof1(0)
    }
}

/// High-speed end of frame time gap.
#[derive(Clone, Copy, Debug, PartialEq, Eq, Structural)]
pub struct HsEof1(pub u8);

impl HsEof1 {
    /// Time before EOF to stop beginning new transactions for High-speed, in units of 133.3ns.
    pub fn hs_eof1(&self) -> (r: u8)
        ensures
            r == field8(self.0, 0, 0xff),
    {
        get_field8(self.0, 0, 0xff)
    }

    /// Time before EOF to stop beginning new transactions for High-speed, in units of 133.3ns.
    pub fn set_hs_eof1(&mut self, val: u8)
        ensures
            final(self).0 == with_field8(old(self).0, 0, 0xff, val),
    {
        self.0 = put_field8(self.0, 0, 0xff, val);
    }
}

impl Default for HsEof1 {
    /// The all-zero register value.
    fn default() -> (r: HsEof1)
        ensures
            r.0 == 0,
    {
        HsEof1(0)
    }
}

/// Endpoint index selection register
#[derive(Clone, Copy, Debug, PartialEq, Eq, Structural)]
pub struct Index(pub u8);

impl Index {
    /// Selects which endpoint control/status registers are accessed.
    pub fn index(&self) -> (r: u8)
        ensures
            r == field8(self.0, 0, 0x0f),
    {
        get_field8(self.0, 0, 0x0f)
    }

    /// Selects which endpoint control/status registers are accessed.
    pub fn set_index(&mut self, val: u8)
        ensures
            final(self).0 == with_field8(old(self).0, 0, 0x0f, val),
    {
        self.0 = put_field8(self.0, 0, 0x0f, val);
    }
}

impl Default for Index {
    /// The all-zero register value.
    fn default() -> (r: Index)
        ensures
            r.0 == 0,
    {
        Index(0)
    }
}

/// Receive Endpoint Interrupt Status Register
#[derive(Clone, Copy, Debug, PartialEq, Eq, Structural)]
pub struct Intrrx(pub u16);

impl Intrrx {
    /// Receive endpoint interrupt (except EP0).
    pub fn ep_rx(&self, n: usize) -> (r: bool)
        requires
            n < 16,
        ensures
            r == (field16(self.0, n as u16, 0x0001) != 0),
    {
        get_field16(self.0, n as u16, 0x0001) != 0
    }

    /// Receive endpoint interrupt (except EP0).
    pub fn set_ep_rx(&mut self, n: usize, val: bool)
        requires
            n < 16,
        ensures
            final(self).0 == with_field16(old(self).0, n as u16, 0x0001, bool_bit(val) as u16),
    {
        self.0 = put_field16(self.0, n as u16, 0x0001, if val { 1 } else { 0 });
    }
}

impl Default for Intrrx {
    /// The all-zero register value.
    fn default() -> (r: Intrrx)
        ensures
            r.0 == 0,
    {
        Intrrx(0)
    }
}

/// Receive Endpoint Interrupt Enable Register
#[derive(Clone, Copy, Debug, PartialEq, Eq, Structural)]
pub struct Intrrxe(pub u16);

impl Intrrxe {
    /// Endpoint transmit interrupt enable (except EP0).
    pub fn ep_rxe(&self, n: usize) -> (r: bool)
        requires
            n < 16,
        ensures
            r == (field16(self.0, n as u16, 0x0001) != 0),
    {
        get_field16(self.0, n as u16, 0x0001) != 0
    }

    /// Endpoint transmit interrupt enable (except EP0).
    pub fn set_ep_rxe(&mut self, n: usize, val: bool)
        requires
            n < 16,
        ensures
            final(self).0 == with_field16(old(self).0, n as u16, 0x0001, bool_bit(val) as u16),
    {
        self.0 = put_field16(self.0, n as u16, 0x0001, if val { 1 } else { 0 });
    }
}

impl Default for Intrrxe {
    /// The all-zero register value.
    fn default() -> (r: Intrrxe)
        ensures
            r.0 == 0,
    {
        Intrrxe(0)
    }
}

/// Transmit Endpoint Interrupt Status Register
#[derive(Clone, Copy, Debug, PartialEq, Eq, Structural)]
pub struct Intrtx(pub u16);

impl Intrtx {
    /// Endpoint 0 and transmit endpoints interrupt.
    pub fn ep_tx(&self, n: usize) -> (r: bool)
        requires
            n < 16,
        ensures
            r == (field16(self.0, n as u16, 0x0001) != 0),
    {
        get_field16(self.0, n as u16, 0x0001) != 0
    }

    /// Endpoint 0 and transmit endpoints interrupt.
    pub fn set_ep_tx(&mut self, n: usize, val: bool)
        requires
            n < 16,
        ensures
            final(self).0 == with_field16(old(self).0, n as u16, 0x0001, bool_bit(val) as u16),
    {
        self.0 = put_field16(self.0, n as u16, 0x0001, if val { 1 } else { 0 });
    }
}

impl Default for Intrtx {
    /// The all-zero register value.
    fn default() -> (r: Intrtx)
        ensures
            r.0 == 0,
    {
        Intrtx(0)
    }
}

/// Transmit Endpoint Interrupt Enable Register
#[derive(Clone, Copy, Debug, PartialEq, Eq, Structural)]
pub struct Intrtxe(pub u16);

impl Intrtxe {
    /// Endpoint transmit interrupt enable (EP0:TXE_RXE).
    pub fn ep_txe(&self, n: usize) -> (r: bool)
        requires
            n < 16,
        ensures
            r == (field16(self.0, n as u16, 0x0001) != 0),
    {
        get_field16(self.0, n as u16, 0x0001) != 0
    }

    /// Endpoint transmit interrupt enable (EP0:TXE_RXE).
    pub fn set_ep_txe(&mut self, n: usize, val: bool)
        requires
            n < 16,
        ensures
            final(self).0 == with_field16(old(self).0, n as u16, 0x0001, bool_bit(val) as u16),
    {
        self.0 = put_field16(self.0, n as u16, 0x0001, if val { 1 } else { 0 });
    }
}

impl Default for Intrtxe {
    /// The all-zero register value.
    fn default() -> (r: Intrtxe)
        ensures
            r.0 == 0,
    {
        Intrtxe(0)
    }
}

/// USB Interrupt Status Register
#[derive(Clone, Copy, Debug, PartialEq, Eq, Structural)]
pub struct Intrusb(pub u8);

impl Intrusb {
    /// Suspend signaling detected.
    pub fn suspend(&self) -> (r: bool)
        ensures
            r == (field8(self.0, 0, 0x01) != 0),
    {
        get_field8(self.0, 0, 0x01) != 0
    }

    /// Suspend signaling detected.
    pub fn set_suspend(&mut self, val: bool)
        ensures
            final(self).0 == with_field8(old(self).0, 0, 0x01, bool_bit(val)),
    {
        self.0 = put_field8(self.0, 0, 0x01, if val { 1 } else { 0 });
    }

    /// Resume signaling detected during Suspend.
    pub fn resume(&self) -> (r: bool)
        ensures
            r == (field8(self.0, 1, 0x01) != 0),
    {
        get_field8(self.0, 1, 0x01) != 0
    }

    /// Resume signaling detected during Suspend.
    pub fn set_resume(&mut self, val: bool)
        ensures
            final(self).0 == with_field8(old(self).0, 1, 0x01, bool_bit(val)),
    {
        self.0 = put_field8(self.0, 1, 0x01, if val { 1 } else { 0 });
    }

    /// Reset signaling detected (Peripheral mode) or Babble detected (Host mode).
    pub fn reset(&self) -> (r: bool)
        ensures
            r == (field8(self.0, 2, 0x01) != 0),
    {
        get_field8(self.0, 2, 0x01) != 0
    }

    /// Reset signaling detected (Peripheral mode) or Babble detected (Host mode).
    pub fn set_reset(&mut self, val: bool)
        ensures
            final(self).0 == with_field8(old(self).0, 2, 0x01, bool_bit(val)),
    {
        self.0 = put_field8(self.0, 2, 0x01, if val { 1 } else { 0 });
    }

    /// New frame start.
    pub fn sof(&self) -> (r: bool)
        ensures
            r == (field8(self.0, 3, 0x01) != 0),
    {
        get_field8(self.0, 3, 0x01) != 0
    }

    /// New frame start.
    pub fn set_sof(&mut self, val: bool)
        ensures
            final(self).0 == with_field8(old(self).0, 3, 0x01, bool_bit(val)),
    {
        self.0 = put_field8(self.0, 3, 0x01, if val { 1 } else { 0 });
    }

    /// Device connection detected.
    pub fn conn(&self) -> (r: bool)
        ensures
            r == (field8(self.0, 4, 0x01) != 0),
    {
        get_field8(self.0, 4, 0x01) != 0
    }

    /// Device connection detected.
    pub fn set_conn(&mut self, val: bool)
        ensures
            final(self).0 == with_field8(old(self).0, 4, 0x01, bool_bit(val)),
    {
        self.0 = put_field8(self.0, 4, 0x01, if val { 1 } else { 0 });
    }

    /// Device disconnection detected.
    pub fn discon(&self) -> (r: bool)
        ensures
            r == (field8(self.0, 5, 0x01) != 0),
    {
        get_field8(self.0, 5, 0x01) != 0
    }

    /// Device disconnection detected.
    pub fn set_discon(&mut self, val: bool)
        ensures
            final(self).0 == with_field8(old(self).0, 5, 0x01, bool_bit(val)),
    {
        self.0 = put_field8(self.0, 5, 0x01, if val { 1 } else { 0 });
    }

    /// Session Request signaling detected.
    pub fn sess_req(&self) -> (r: bool)
        ensures
            r == (field8(self.0, 6, 0x01) != 0),
    {
        get_field8(self.0, 6, 0x01) != 0
    }

    /// Session Request signaling detected.
    pub fn set_sess_req(&mut self, val: bool)
        ensures
            final(self).0 == with_field8(old(self).0, 6, 0x01, bool_bit(val)),
    {
        self.0 = put_field8(self.0, 6, 0x01, if val { 1 } else { 0 });
    }

    /// VBus drops below valid threshold.
    pub fn vbus_error(&self) -> (r: bool)
        ensures
            r == (field8(self.0, 7, 0x01) != 0),
    {
        get_field8(self.0, 7, 0x01) != 0
    }

    /// VBus drops below valid threshold.
    pub fn set_vbus_error(&mut self, val: bool)
        ensures
            final(self).0 == with_field8(old(self).0, 7, 0x01, bool_bit(val)),
    {
        self.0 = put_field8(self.0, 7, 0x01, if val { 1 } else { 0 });
    }
}

impl Default for Intrusb {
    /// The all-zero register value.
    fn default() -> (r: Intrusb)
        ensures
            r.0 == 0,
    {
        Intrusb(0)
    }
}

/// USB Interrupt Enable Register
#[derive(Clone, Copy, Debug, PartialEq, Eq, Structural)]
pub struct Intrusbe(pub u8);

impl Intrusbe {
    /// Enable Suspend interrupt.
    pub fn suspend_enable(&self) -> (r: bool)
        ensures
            r == (field8(self.0, 0, 0x01) != 0),
    {
        get_field8(self.0, 0, 0x01) != 0
    }

    /// Enable Suspend interrupt.
    pub fn set_suspend_enable(&mut self, val: bool)
        ensures
            final(self).0 == with_field8(old(self).0, 0, 0x01, bool_bit(val)),
    {
        self.0 = put_field8(self.0, 0, 0x01, if val { 1 } else { 0 });
    }

    /// Enable Resume interrupt.
    pub fn resume_enable(&self) -> (r: bool)
        ensures
            r == (field8(self.0, 1, 0x01) != 0),
    {
        get_field8(self.0, 1, 0x01) != 0
    }

    /// Enable Resume interrupt.
    pub fn set_resume_enable(&mut self, val: bool)
        ensures
            final(self).0 == with_field8(old(self).0, 1, 0x01, bool_bit(val)),
    {
        self.0 = put_field8(self.0, 1, 0x01, if val { 1 } else { 0 });
    }

    /// Enable Reset interrupt.
    pub fn reset_enable(&self) -> (r: bool)
        ensures
            r == (field8(self.0, 2, 0x01) != 0),
    {
        get_field8(self.0, 2, 0x01) != 0
    }

    /// Enable Reset interrupt.
    pub fn set_reset_enable(&mut self, val: bool)
        ensures
            final(self).0 == with_field8(old(self).0, 2, 0x01, bool_bit(val)),
    {
        self.0 = put_field8(self.0, 2, 0x01, if val { 1 } else { 0 });
    }

    /// Enable Start of Frame interrupt.
    pub fn sof_enable(&self) -> (r: bool)
        ensures
            r == (field8(self.0, 3, 0x01) != 0),
    {
        get_field8(self.0, 3, 0x01) != 0
    }

    /// Enable Start of Frame interrupt.
    pub fn set_sof_enable(&mut self, val: bool)
        ensures
            final(self).0 == with_field8(old(self).0, 3, 0x01, bool_bit(val)),
    {
        self.0 = put_field8(self.0, 3, 0x01, if val { 1 } else { 0 });
    }

    /// Enable Connection interrupt.
    pub fn conn_enable(&self) -> (r: bool)
        ensures
            r == (field8(self.0, 4, 0x01) != 0),
    {
        get_field8(self.0, 4, 0x01) != 0
    }

    /// Enable Connection interrupt.
    pub fn set_conn_enable(&mut self, val: bool)
        ensures
            final(self).0 == with_field8(old(self).0, 4, 0x01, bool_bit(val)),
    {
        self.0 = put_field8(self.0, 4, 0x01, if val { 1 } else { 0 });
    }

    /// Enable Disconnection interrupt.
    pub fn discon_enable(&self) -> (r: bool)
        ensures
            r == (field8(self.0, 5, 0x01) != 0),
    {
        get_field8(self.0, 5, 0x01) != 0
    }

    /// Enable Disconnection interrupt.
    pub fn set_discon_enable(&mut self, val: bool)
        ensures
            final(self).0 == with_field8(old(self).0, 5, 0x01, bool_bit(val)),
    {
        self.0 = put_field8(self.0, 5, 0x01, if val { 1 } else { 0 });
    }

    /// Enable Session Request interrupt.
    pub fn sess_req_enable(&self) -> (r: bool)
        ensures
            r == (field8(self.0, 6, 0x01) != 0),
    {
        get_field8(self.0, 6, 0x01) != 0
    }

    /// Enable Session Request interrupt.
    pub fn set_sess_req_enable(&mut self, val: bool)
        ensures
            final(self).0 == with_field8(old(self).0, 6, 0x01, bool_bit(val)),
    {
        self.0 = put_field8(self.0, 6, 0x01, if val { 1 } else { 0 });
    }

    /// Enable VBus Error interrupt.
    pub fn vbus_error_enable(&self) -> (r: bool)
        ensures
            r == (field8(self.0, 7, 0x01) != 0),
    {
        get_field8(self.0, 7, 0x01) != 0
    }

    /// Enable VBus Error interrupt.
    pub fn set_vbus_error_enable(&mut self, val: bool)
        ensures
            final(self).0 == with_field8(old(self).0, 7, 0x01, bool_bit(val)),
    {
        self.0 = put_field8(self.0, 7, 0x01, if val { 1 } else { 0 });
    }
}

impl Default for Intrusbe {
    /// The all-zero register value.
    fn default() -> (r: Intrusbe)
        ensures
            r.0 == 0,
    {
        Intrusbe(0)
    }
}

/// Link information and delay specification.
#[derive(Clone, Copy, Debug, PartialEq, Eq, Structural)]
pub struct Linkinfo(pub u8);

impl Linkinfo {
    /// Sets the delay from IDPULLUP assertion to IDDIG valid in units of 4.369ms.
    pub fn wtid(&self) -> (r: u8)
        ensures
            r == field8(self.0, 0, 0x0f),
    {
        get_field8(self.0, 0, 0x0f)
    }

    /// Sets the delay from IDPULLUP assertion to IDDIG valid in units of 4.369ms.
    pub fn set_wtid(&mut self, val: u8)
        ensures
            final(self).0 == with_field8(old(self).0, 0, 0x0f, val),
    {
        self.0 = put_field8(self.0, 0, 0x0f, val);
    }

    /// Sets the wait for connect/disconnect filter in units of 533.3ns.
    pub fn wtcon(&self) -> (r: u8)
        ensures
            r == field8(self.0, 4, 0x0f),
    {
        get_field8(self.0, 4, 0x0f)
    }

    /// Sets the wait for connect/disconnect filter in units of 533.3ns.
    pub fn set_wtcon(&mut self, val: u8)
        ensures
            final(self).0 == with_field8(old(self).0, 4, 0x0f, val),
    {
        self.0 = put_field8(self.0, 4, 0x0f, val);
    }
}

impl Default for Linkinfo {
    /// The all-zero register value.
    fn default() -> (r: Linkinfo)
        ensures
            r.0 == 0,
    {
        Linkinfo(0)
    }
}

/// Low-speed end of frame time gap.
#[derive(Clone, Copy, Debug, PartialEq, Eq, Structural)]
pub struct LsEof1(pub u8);

impl LsEof1 {
    /// Time before EOF to stop beginning new transactions for Low-speed, in units of 1.067us.
    pub fn ls_eof1(&self) -> (r: u8)
        ensures
            r == field8(self.0, 0, 0xff),
    {
        get_field8(self.0, 0, 0xff)
    }

    /// Time before EOF to stop beginning new transactions for Low-speed, in units of 1.067us.
    pub fn set_ls_eof1(&mut self, val: u8)
        ensures
            final(self).0 == with_field8(old(self).0, 0, 0xff, val),
    {
        self.0 = put_field8(self.0, 0, 0xff, val);
    }
}

impl Default for LsEof1 {
    /// The all-zero register value.
    fn default() -> (r: LsEof1)
        ensures
            r.0 == 0,
    {
        LsEof1(0)
    }
}

/// Maximum payload size forendpoint
#[derive(Clone, Copy, Debug, PartialEq, Eq, Structural)]
pub struct Maxp(pub u16);

impl Maxp {
    /// Maximum payload.
    pub fn maxp(&self) -> (r: u16)
        ensures
            r == field16(self.0, 0, 0x07ff),
    {
        get_field16(self.0, 0, 0x07ff)
    }

    /// Maximum payload.
    pub fn set_maxp(&mut self, val: u16)
        ensures
            final(self).0 == with_field16(old(self).0, 0, 0x07ff, val),
    {
        self.0 = put_field16(self.0, 0, 0x07ff, val);
    }
}

impl Default for Maxp {
    /// The all-zero register value.
    fn default() -> (r: Maxp)
        ensures
            r.0 == 0,
    {
        Maxp(0)
    }
}

/// USB Power Control and Status Register
#[derive(Clone, Copy, Debug, PartialEq, Eq, Structural)]
pub struct Power(pub u8);

impl Power {
    /// Enable SUSPENDM output.
    pub fn enable_suspend_m(&self) -> (r: bool)
        ensures
            r == (field8(self.0, 0, 0x01) != 0),
    {
        get_field8(self.0, 0, 0x01) != 0
    }

    /// Enable SUSPENDM output.
    pub fn set_enable_suspend_m(&mut self, val: bool)
        ensures
            final(self).0 == with_field8(old(self).0, 0, 0x01, bool_bit(val)),
    {
        self.0 = put_field8(self.0, 0, 0x01, if val { 1 } else { 0 });
    }

    /// USB suspend mode control.
    pub fn suspend_mode(&self) -> (r: bool)
        ensures
            r == (field8(self.0, 1, 0x01) != 0),
    {
        get_field8(self.0, 1, 0x01) != 0
    }

    /// USB suspend mode control.
    pub fn set_suspend_mode(&mut self, val: bool)
        ensures
            final(self).0 == with_field8(old(self).0, 1, 0x01, bool_bit(val)),
    {
        self.0 = put_field8(self.0, 1, 0x01, if val { 1 } else { 0 });
    }

    /// Generate resume signaling.
    pub fn resume(&self) -> (r: bool)
        ensures
            r == (field8(self.0, 2, 0x01) != 0),
    {
        get_field8(self.0, 2, 0x01) != 0
    }

    /// Generate resume signaling.
    pub fn set_resume(&mut self, val: bool)
        ensures
            final(self).0 == with_field8(old(self).0, 2, 0x01, bool_bit(val)),
    {
        self.0 = put_field8(self.0, 2, 0x01, if val { 1 } else { 0 });
    }

    /// USB reset signaling status.
    pub fn reset(&self) -> (r: bool)
        ensures
            r == (field8(self.0, 3, 0x01) != 0),
    {
        get_field8(self.0, 3, 0x01) != 0
    }

    /// USB reset signaling status.
    pub fn set_reset(&mut self, val: bool)
        ensures
            final(self).0 == with_field8(old(self).0, 3, 0x01, bool_bit(val)),
    {
        self.0 = put_field8(self.0, 3, 0x01, if val { 1 } else { 0 });
    }

    /// High-speed mode negotiation status.
    pub fn hs_mode(&self) -> (r: HsModeStatus)
        ensures
            r == HsModeStatus::spec_from_bits(field8(self.0, 4, 0x01)),
    {
        HsModeStatus::from_bits(get_field8(self.0, 4, 0x01))
    }

    /// High-speed mode negotiation status.
    pub fn set_hs_mode(&mut self, val: HsModeStatus)
        ensures
            final(self).0 == with_field8(old(self).0, 4, 0x01, val.spec_to_bits()),
    {
        self.0 = put_field8(self.0, 4, 0x01, val.to_bits());
    }

    /// Enable High-speed mode negotiation.
    pub fn hs_enab(&self) -> (r: bool)
        ensures
            r == (field8(self.0, 5, 0x01) != 0),
    {
        get_field8(self.0, 5, 0x01) != 0
    }

    /// Enable High-speed mode negotiation.
    pub fn set_hs_enab(&mut self, val: bool)
        ensures
            final(self).0 == with_field8(old(self).0, 5, 0x01, bool_bit(val)),
    {
        self.0 = put_field8(self.0, 5, 0x01, if val { 1 } else { 0 });
    }

    /// Enable/disable USB D+/D- lines.
    pub fn soft_conn(&self) -> (r: bool)
        ensures
            r == (field8(self.0, 6, 0x01) != 0),
    {
        get_field8(self.0, 6, 0x01) != 0
    }

    /// Enable/disable USB D+/D- lines.
    pub fn set_soft_conn(&mut self, val: bool)
        ensures
            final(self).0 == with_field8(old(self).0, 6, 0x01, bool_bit(val)),
    {
        self.0 = put_field8(self.0, 6, 0x01, if val { 1 } else { 0 });
    }

    /// Control isochronous packet transmission timing.
    pub fn iso_update(&self) -> (r: IsoUpdateMode)
        ensures
            r == IsoUpdateMode::spec_from_bits(field8(self.0, 7, 0x01)),
    {
        IsoUpdateMode::from_bits(get_field8(self.0, 7, 0x01))
    }

    /// Control isochronous packet transmission timing.
    pub fn set_iso_update(&mut self, val: IsoUpdateMode)
        ensures
            final(self).0 == with_field8(old(self).0, 7, 0x01, val.spec_to_bits()),
    {
        self.0 = put_field8(self.0, 7, 0x01, val.to_bits());
    }
}

impl Default for Power {
    /// The all-zero register value.
    fn default() -> (r: Power)
        ensures
            r.0 == 0,
    {
        Power(0)
    }
}

/// Provides information about the RAM.
#[derive(Clone, Copy, Debug, PartialEq, Eq, Structural)]
pub struct Raminfo(pub u8);

impl Raminfo {
    /// The width of the RAM address bus.
    pub fn ram_bits(&self) -> (r: u8)
        ensures
            r == field8(self.0, 0, 0x0f),
    {
        get_field8(self.0, 0, 0x0f)
    }

    /// The width of the RAM address bus.
    pub fn set_ram_bits(&mut self, val: u8)
        ensures
            final(self).0 == with_field8(old(self).0, 0, 0x0f, val),
    {
        self.0 = put_field8(self.0, 0, 0x0f, val);
    }

    /// The number of DMA channels implemented.
    pub fn dmachans(&self) -> (r: u8)
        ensures
            r == field8(self.0, 4, 0x0f),
    {
        get_field8(self.0, 4, 0x0f)
    }

    /// The number of DMA channels implemented.
    pub fn set_dmachans(&mut self, val: u8)
        ensures
            final(self).0 == with_field8(old(self).0, 4, 0x0f, val),
    {
        self.0 = put_field8(self.0, 4, 0x0f, val);
    }
}

impl Default for Raminfo {
    /// The all-zero register value.
    fn default() -> (r: Raminfo)
        ensures
            r.0 == 0,
    {
        Raminfo(0)
    }
}

/// USB Endpoint 0 Received Data Byte Count
#[derive(Clone, Copy, Debug, PartialEq, Eq, Structural)]
pub struct Rxcount(pub u16);

impl Rxcount {
    /// Number of received data bytes in FIFO.
    pub fn count(&self) -> (r: u16)
        ensures
            r == field16(self.0, 0, 0x1fff),
    {
        get_field16(self.0, 0, 0x1fff)
    }

    /// Number of received data bytes in FIFO.
    pub fn set_count(&mut self, val: u16)
        ensures
            final(self).0 == with_field16(old(self).0, 0, 0x1fff, val),
    {
        self.0 = put_field16(self.0, 0, 0x1fff, val);
    }
}

impl Default for Rxcount {
    /// The all-zero register value.
    fn default() -> (r: Rxcount)
        ensures
            r.0 == 0,
    {
        Rxcount(0)
    }
}

/// RX Control and Status Register High
#[derive(Clone, Copy, Debug, PartialEq, Eq, Structural)]
pub struct Rxcsrh(pub u8);

impl Rxcsrh {
    /// Incomplete packet in high-bandwidth Isochronous/Interrupt transfer.
    pub fn incomp_rx(&self) -> (r: bool)
        ensures
            r == (field8(self.0, 0, 0x01) != 0),
    {
        get_field8(self.0, 0, 0x01) != 0
    }

    /// Incomplete packet in high-bandwidth Isochronous/Interrupt transfer.
    pub fn set_incomp_rx(&mut self, val: bool)
        ensures
            final(self).0 == with_field8(old(self).0, 0, 0x01, bool_bit(val)),
    {
        self.0 = put_field8(self.0, 0, 0x01, if val { 1 } else { 0 });
    }

    /// Select DMA Request Mode.
    pub fn dma_req_mode(&self) -> (r: bool)
        ensures
            r == (field8(self.0, 3, 0x01) != 0),
    {
        get_field8(self.0, 3, 0x01) != 0
    }

    /// Select DMA Request Mode.
    pub fn set_dma_req_mode(&mut self, val: bool)
        ensures
            final(self).0 == with_field8(old(self).0, 3, 0x01, bool_bit(val)),
    {
        self.0 = put_field8(self.0, 3, 0x01, if val { 1 } else { 0 });
    }

    /// Disable NYET handshakes or indicate PID error.
    pub fn dis_nyet_pid_error(&self) -> (r: bool)
        ensures
            r == (field8(self.0, 4, 0x01) != 0),
    {
        get_field8(self.0, 4, 0x01) != 0
    }

    /// Disable NYET handshakes or indicate PID error.
    pub fn set_dis_nyet_pid_error(&mut self, val: bool)
        ensures
            final(self).0 == with_field8(old(self).0, 4, 0x01, bool_bit(val)),
    {
        self.0 = put_field8(self.0, 4, 0x01, if val { 1 } else { 0 });
    }

    /// Enable DMA request for RX endpoint.
    pub fn dma_req_enab(&self) -> (r: bool)
        ensures
            r == (field8(self.0, 5, 0x01) != 0),
    {
        get_field8(self.0, 5, 0x01) != 0
    }

    /// Enable DMA request for RX endpoint.
    pub fn set_dma_req_enab(&mut self, val: bool)
        ensures
            final(self).0 == with_field8(old(self).0, 5, 0x01, bool_bit(val)),
    {
        self.0 = put_field8(self.0, 5, 0x01, if val { 1 } else { 0 });
    }

    /// ISO mode enable.
    pub fn iso(&self) -> (r: bool)
        ensures
            r == (field8(self.0, 6, 0x01) != 0),
    {
        get_field8(self.0, 6, 0x01) != 0
    }

    /// ISO mode enable.
    pub fn set_iso(&mut self, val: bool)
        ensures
            final(self).0 == with_field8(old(self).0, 6, 0x01, bool_bit(val)),
    {
        self.0 = put_field8(self.0, 6, 0x01, if val { 1 } else { 0 });
    }

    /// Automatically clear RxPktRdy when max packet size is unloaded.
    pub fn auto_clear(&self) -> (r: bool)
        ensures
            r == (field8(self.0, 7, 0x01) != 0),
    {
        get_field8(self.0, 7, 0x01) != 0
    }

    /// Automatically clear RxPktRdy when max packet size is unloaded.
    pub fn set_auto_clear(&mut self, val: bool)
        ensures
            final(self).0 == with_field8(old(self).0, 7, 0x01, bool_bit(val)),
    {
        self.0 = put_field8(self.0, 7, 0x01, if val { 1 } else { 0 });
    }
}

impl Default for Rxcsrh {
    /// The all-zero register value.
    fn default() -> (r: Rxcsrh)
        ensures
            r.0 == 0,
    {
        Rxcsrh(0)
    }
}

/// RX Control and Status Register Low
#[derive(Clone, Copy, Debug, PartialEq, Eq, Structural)]
pub struct Rxcsrl(pub u8);

impl Rxcsrl {
    /// Data packet received and ready to be unloaded.
    pub fn rx_pkt_rdy(&self) -> (r: bool)
        ensures
            r == (field8(self.0, 0, 0x01) != 0),
    {
        get_field8(self.0, 0, 0x01) != 0
    }

    /// Data packet received and ready to be unloaded.
    pub fn set_rx_pkt_rdy(&mut self, val: bool)
        ensures
            final(self).0 == with_field8(old(self).0, 0, 0x01, bool_bit(val)),
    {
        self.0 = put_field8(self.0, 0, 0x01, if val { 1 } else { 0 });
    }

    /// No more packets can be loaded into Rx FIFO.
    pub fn fifo_full(&self) -> (r: bool)
        ensures
            r == (field8(self.0, 1, 0x01) != 0),
    {
        get_field8(self.0, 1, 0x01) != 0
    }

    /// No more packets can be loaded into Rx FIFO.
    pub fn set_fifo_full(&mut self, val: bool)
        ensures
            final(self).0 == with_field8(old(self).0, 1, 0x01, bool_bit(val)),
    {
        self.0 = put_field8(self.0, 1, 0x01, if val { 1 } else { 0 });
    }

    /// OUT packet could not be loaded into Rx FIFO.
    pub fn over_run(&self) -> (r: bool)
        ensures
            r == (field8(self.0, 2, 0x01) != 0),
    {
        get_field8(self.0, 2, 0x01) != 0
    }

    /// OUT packet could not be loaded into Rx FIFO.
    pub fn set_over_run(&mut self, val: bool)
        ensures
            final(self).0 == with_field8(old(self).0, 2, 0x01, bool_bit(val)),
    {
        self.0 = put_field8(self.0, 2, 0x01, if val { 1 } else { 0 });
    }

    /// CRC or bit-stuff error in data packet.
    pub fn data_error(&self) -> (r: bool)
        ensures
            r == (field8(self.0, 3, 0x01) != 0),
    {
        get_field8(self.0, 3, 0x01) != 0
    }

    /// CRC or bit-stuff error in data packet.
    pub fn set_data_error(&mut self, val: bool)
        ensures
            final(self).0 == with_field8(old(self).0, 3, 0x01, bool_bit(val)),
    {
        self.0 = put_field8(self.0, 3, 0x01, if val { 1 } else { 0 });
    }

    /// Flush next packet from Rx FIFO.
    pub fn flush_fifo(&self) -> (r: bool)
        ensures
            r == (field8(self.0, 4, 0x01) != 0),
    {
        get_field8(self.0, 4, 0x01) != 0
    }

    /// Flush next packet from Rx FIFO.
    pub fn set_flush_fifo(&mut self, val: bool)
        ensures
            final(self).0 == with_field8(old(self).0, 4, 0x01, bool_bit(val)),
    {
        self.0 = put_field8(self.0, 4, 0x01, if val { 1 } else { 0 });
    }

    /// Issue or terminate STALL handshake.
    pub fn send_stall(&self) -> (r: bool)
        ensures
            r == (field8(self.0, 5, 0x01) != 0),
    {
        get_field8(self.0, 5, 0x01) != 0
    }

    /// Issue or terminate STALL handshake.
    pub fn set_send_stall(&mut self, val: bool)
        ensures
            final(self).0 == with_field8(old(self).0, 5, 0x01, bool_bit(val)),
    {
        self.0 = put_field8(self.0, 5, 0x01, if val { 1 } else { 0 });
    }

    /// STALL handshake transmission status.
    pub fn sent_stall(&self) -> (r: bool)
        ensures
            r == (field8(self.0, 6, 0x01) != 0),
    {
        get_field8(self.0, 6, 0x01) != 0
    }

    /// STALL handshake transmission status.
    pub fn set_sent_stall(&mut self, val: bool)
        ensures
            final(self).0 == with_field8(old(self).0, 6, 0x01, bool_bit(val)),
    {
        self.0 = put_field8(self.0, 6, 0x01, if val { 1 } else { 0 });
    }

    /// Reset endpoint data toggle to 0.
    pub fn clr_data_tog(&self) -> (r: bool)
        ensures
            r == (field8(self.0, 7, 0x01) != 0),
    {
        get_field8(self.0, 7, 0x01) != 0
    }

    /// Reset endpoint data toggle to 0.
    pub fn set_clr_data_tog(&mut self, val: bool)
        ensures
            final(self).0 == with_field8(old(self).0, 7, 0x01, bool_bit(val)),
    {
        self.0 = put_field8(self.0, 7, 0x01, if val { 1 } else { 0 });
    }
}

impl Default for Rxcsrl {
    /// The all-zero register value.
    fn default() -> (r: Rxcsrl)
        ensures
            r.0 == 0,
    {
        Rxcsrl(0)
    }
}

/// Maximum payload size for RX endpoint
#[derive(Clone, Copy, Debug, PartialEq, Eq, Structural)]
pub struct Rxmaxp(pub u16);

impl Rxmaxp {
    /// Maximum payload in 8bytes.
    pub fn maxp(&self) -> (r: u16)
        ensures
            r == field16(self.0, 0, 0x07ff),
    {
        get_field16(self.0, 0, 0x07ff)
    }

    /// Maximum payload in 8bytes.
    pub fn set_maxp(&mut self, val: u16)
        ensures
            final(self).0 == with_field16(old(self).0, 0, 0x07ff, val),
    {
        self.0 = put_field16(self.0, 0, 0x07ff, val);
    }
}

impl Default for Rxmaxp {
    /// The all-zero register value.
    fn default() -> (r: Rxmaxp)
        ensures
            r.0 == 0,
    {
        Rxmaxp(0)
    }
}

/// Software reset control.
#[derive(Clone, Copy, Debug, PartialEq, Eq, Structural)]
pub struct SoftRst(pub u8);

impl SoftRst {
    /// Writing 1 asserts the NRSTO output LOW.
    pub fn nrst(&self) -> (r: bool)
        ensures
            r == (field8(self.0, 0, 0x01) != 0),
    {
        get_field8(self.0, 0, 0x01) != 0
    }

    /// Writing 1 asserts the NRSTO output LOW.
    pub fn set_nrst(&mut self, val: bool)
        ensures
            final(self).0 == with_field8(old(self).0, 0, 0x01, bool_bit(val)),
    {
        self.0 = put_field8(self.0, 0, 0x01, if val { 1 } else { 0 });
    }

    /// Writing 1 asserts the NRSTXO output LOW.
    pub fn nrstx(&self) -> (r: bool)
        ensures
            r == (field8(self.0, 1, 0x01) != 0),
    {
        get_field8(self.0, 1, 0x01) != 0
    }

    /// Writing 1 asserts the NRSTXO output LOW.
    pub fn set_nrstx(&mut self, val: bool)
        ensures
            final(self).0 == with_field8(old(self).0, 1, 0x01, bool_bit(val)),
    {
        self.0 = put_field8(self.0, 1, 0x01, if val { 1 } else { 0 });
    }
}

impl Default for SoftRst {
    /// The all-zero register value.
    fn default() -> (r: SoftRst)
        ensures
            r.0 == 0,
    {
        SoftRst(0)
    }
}

/// USB test mode configuration register
#[derive(Clone, Copy, Debug, PartialEq, Eq, Structural)]
pub struct Testmode(pub u8);

impl Testmode {
    /// Enter Test_SE0_NAK high-speed test mode.
    pub fn test_se0_nak(&self) -> (r: bool)
        ensures
            r == (field8(self.0, 0, 0x01) != 0),
    {
        get_field8(self.0, 0, 0x01) != 0
    }

    /// Enter Test_SE0_NAK high-speed test mode.
    pub fn set_test_se0_nak(&mut self, val: bool)
        ensures
            final(self).0 == with_field8(old(self).0, 0, 0x01, bool_bit(val)),
    {
        self.0 = put_field8(self.0, 0, 0x01, if val { 1 } else { 0 });
    }

    /// Enter Test_J high-speed test mode.
    pub fn test_j(&self) -> (r: bool)
        ensures
            r == (field8(self.0, 1, 0x01) != 0),
    {
        get_field8(self.0, 1, 0x01) != 0
    }

    /// Enter Test_J high-speed test mode.
    pub fn set_test_j(&mut self, val: bool)
        ensures
            final(self).0 == with_field8(old(self).0, 1, 0x01, bool_bit(val)),
    {
        self.0 = put_field8(self.0, 1, 0x01, if val { 1 } else { 0 });
    }

    /// Enter Test_K high-speed test mode.
    pub fn test_k(&self) -> (r: bool)
        ensures
            r == (field8(self.0, 2, 0x01) != 0),
    {
        get_field8(self.0, 2, 0x01) != 0
    }

    /// Enter Test_K high-speed test mode.
    pub fn set_test_k(&mut self, val: bool)
        ensures
            final(self).0 == with_field8(old(self).0, 2, 0x01, bool_bit(val)),
    {
        self.0 = put_field8(self.0, 2, 0x01, if val { 1 } else { 0 });
    }

    /// Enter Test_Packet high-speed test mode.
    pub fn test_packet(&self) -> (r: bool)
        ensures
            r == (field8(self.0, 3, 0x01) != 0),
    {
        get_field8(self.0, 3, 0x01) != 0
    }

    /// Enter Test_Packet high-speed test mode.
    pub fn set_test_packet(&mut self, val: bool)
        ensures
            final(self).0 == with_field8(old(self).0, 3, 0x01, bool_bit(val)),
    {
        self.0 = put_field8(self.0, 3, 0x01, if val { 1 } else { 0 });
    }

    /// Force High-speed mode on USB reset.
    pub fn force_hs(&self) -> (r: bool)
        ensures
            r == (field8(self.0, 4, 0x01) != 0),
    {
        get_field8(self.0, 4, 0x01) != 0
    }

    /// Force High-speed mode on USB reset.
    pub fn set_force_hs(&mut self, val: bool)
        ensures
            final(self).0 == with_field8(old(self).0, 4, 0x01, bool_bit(val)),
    {
        self.0 = put_field8(self.0, 4, 0x01, if val { 1 } else { 0 });
    }

    /// Force Full-speed mode on USB reset.
    pub fn force_fs(&self) -> (r: bool)
        ensures
            r == (field8(self.0, 5, 0x01) != 0),
    {
        get_field8(self.0, 5, 0x01) != 0
    }

    /// Force Full-speed mode on USB reset.
    pub fn set_force_fs(&mut self, val: bool)
        ensures
            final(self).0 == with_field8(old(self).0, 5, 0x01, bool_bit(val)),
    {
        self.0 = put_field8(self.0, 5, 0x01, if val { 1 } else { 0 });
    }

    /// Transfer packet from Endpoint 0 TX FIFO to Endpoint 0 Rx FIFO.
    pub fn fifo_access(&self) -> (r: bool)
        ensures
            r == (field8(self.0, 6, 0x01) != 0),
    {
        get_field8(self.0, 6, 0x01) != 0
    }

    /// Transfer packet from Endpoint 0 TX FIFO to Endpoint 0 Rx FIFO.
    pub fn set_fifo_access(&mut self, val: bool)
        ensures
            final(self).0 == with_field8(old(self).0, 6, 0x01, bool_bit(val)),
    {
        self.0 = put_field8(self.0, 6, 0x01, if val { 1 } else { 0 });
    }

    /// Force core to enter Host mode.
    pub fn force_host(&self) -> (r: ForceHostMode)
        ensures
            r == ForceHostMode::spec_from_bits(field8(self.0, 7, 0x01)),
    {
        ForceHostMode::from_bits(get_field8(self.0, 7, 0x01))
    }

    /// Force core to enter Host mode.
    pub fn set_force_host(&mut self, val: ForceHostMode)
        ensures
            final(self).0 == with_field8(old(self).0, 7, 0x01, val.spec_to_bits()),
    {
        self.0 = put_field8(self.0, 7, 0x01, val.to_bits());
    }
}

impl Default for Testmode {
    /// The all-zero register value.
    fn default() -> (r: Testmode)
        ensures
            r.0 == 0,
    {
        Testmode(0)
    }
}

/// Additional TX endpoint control register
#[derive(Clone, Copy, Debug, PartialEq, Eq, Structural)]
pub struct Txcsrh(pub u8);

impl Txcsrh {
    /// Select DMA Request Mode.
    pub fn dma_req_mode(&self) -> (r: bool)
        ensures
            r == (field8(self.0, 2, 0x01) != 0),
    {
        get_field8(self.0, 2, 0x01) != 0
    }

    /// Select DMA Request Mode.
    pub fn set_dma_req_mode(&mut self, val: bool)
        ensures
            final(self).0 == with_field8(old(self).0, 2, 0x01, bool_bit(val)),
    {
        self.0 = put_field8(self.0, 2, 0x01, if val { 1 } else { 0 });
    }

    /// Force endpoint data toggle switch.
    pub fn frc_data_tog(&self) -> (r: bool)
        ensures
            r == (field8(self.0, 3, 0x01) != 0),
    {
        get_field8(self.0, 3, 0x01) != 0
    }

    /// Force endpoint data toggle switch.
    pub fn set_frc_data_tog(&mut self, val: bool)
        ensures
            final(self).0 == with_field8(old(self).0, 3, 0x01, bool_bit(val)),
    {
        self.0 = put_field8(self.0, 3, 0x01, if val { 1 } else { 0 });
    }

    /// Enable DMA request for TX endpoint.
    pub fn dmareq_enab(&self) -> (r: bool)
        ensures
            r == (field8(self.0, 4, 0x01) != 0),
    {
        get_field8(self.0, 4, 0x01) != 0
    }

    /// Enable DMA request for TX endpoint.
    pub fn set_dmareq_enab(&mut self, val: bool)
        ensures
            final(self).0 == with_field8(old(self).0, 4, 0x01, bool_bit(val)),
    {
        self.0 = put_field8(self.0, 4, 0x01, if val { 1 } else { 0 });
    }

    /// Endpoint direction control.
    pub fn mode(&self) -> (r: EndpointDirection)
        ensures
            r == EndpointDirection::spec_from_bits(field8(self.0, 5, 0x01)),
    {
        EndpointDirection::from_bits(get_field8(self.0, 5, 0x01))
    }

    /// Endpoint direction control.
    pub fn set_mode(&mut self, val: EndpointDirection)
        ensures
            final(self).0 == with_field8(old(self).0, 5, 0x01, val.spec_to_bits()),
    {
        self.0 = put_field8(self.0, 5, 0x01, val.to_bits());
    }

    /// Enable Isochronous transfers.
    pub fn iso(&self) -> (r: bool)
        ensures
            r == (field8(self.0, 6, 0x01) != 0),
    {
        get_field8(self.0, 6, 0x01) != 0
    }

    /// Enable Isochronous transfers.
    pub fn set_iso(&mut self, val: bool)
        ensures
            final(self).0 == with_field8(old(self).0, 6, 0x01, bool_bit(val)),
    {
        self.0 = put_field8(self.0, 6, 0x01, if val { 1 } else { 0 });
    }

    /// Automatically set TxPktRdy for max packet size.
    pub fn auto_set(&self) -> (r: bool)
        ensures
            r == (field8(self.0, 7, 0x01) != 0),
    {
        get_field8(self.0, 7, 0x01) != 0
    }

    /// Automatically set TxPktRdy for max packet size.
    pub fn set_auto_set(&mut self, val: bool)
        ensures
            final(self).0 == with_field8(old(self).0, 7, 0x01, bool_bit(val)),
    {
        self.0 = put_field8(self.0, 7, 0x01, if val { 1 } else { 0 });
    }
}

impl Default for Txcsrh {
    /// The all-zero register value.
    fn default() -> (r: Txcsrh)
        ensures
            r.0 == 0,
    {
        Txcsrh(0)
    }
}

/// TX endpoint control and status register
#[derive(Clone, Copy, Debug, PartialEq, Eq, Structural)]
pub struct Txcsrl(pub u8);

impl Txcsrl {
    /// TX packet ready for transmission.
    pub fn tx_pkt_rdy(&self) -> (r: bool)
        ensures
            r == (field8(self.0, 0, 0x01) != 0),
    {
        get_field8(self.0, 0, 0x01) != 0
    }

    /// TX packet ready for transmission.
    pub fn set_tx_pkt_rdy(&mut self, val: bool)
        ensures
            final(self).0 == with_field8(old(self).0, 0, 0x01, bool_bit(val)),
    {
        self.0 = put_field8(self.0, 0, 0x01, if val { 1 } else { 0 });
    }

    /// TX FIFO contains at least one packet.
    pub fn fifo_not_empty(&self) -> (r: bool)
        ensures
            r == (field8(self.0, 1, 0x01) != 0),
    {
        get_field8(self.0, 1, 0x01) != 0
    }

    /// TX FIFO contains at least one packet.
    pub fn set_fifo_not_empty(&mut self, val: bool)
        ensures
            final(self).0 == with_field8(old(self).0, 1, 0x01, bool_bit(val)),
    {
        self.0 = put_field8(self.0, 1, 0x01, if val { 1 } else { 0 });
    }

    /// IN token received without TxPktRdy.
    pub fn under_run(&self) -> (r: bool)
        ensures
            r == (field8(self.0, 2, 0x01) != 0),
    {
        get_field8(self.0, 2, 0x01) != 0
    }

    /// IN token received without TxPktRdy.
    pub fn set_under_run(&mut self, val: bool)
        ensures
            final(self).0 == with_field8(old(self).0, 2, 0x01, bool_bit(val)),
    {
        self.0 = put_field8(self.0, 2, 0x01, if val { 1 } else { 0 });
    }

    /// Flush TX FIFO.
    pub fn flush_fifo(&self) -> (r: bool)
        ensures
            r == (field8(self.0, 3, 0x01) != 0),
    {
        get_field8(self.0, 3, 0x01) != 0
    }

    /// Flush TX FIFO.
    pub fn set_flush_fifo(&mut self, val: bool)
        ensures
            final(self).0 == with_field8(old(self).0, 3, 0x01, bool_bit(val)),
    {
        self.0 = put_field8(self.0, 3, 0x01, if val { 1 } else { 0 });
    }

    /// Issue STALL handshake to IN token.
    pub fn send_stall(&self) -> (r: bool)
        ensures
            r == (field8(self.0, 4, 0x01) != 0),
    {
        get_field8(self.0, 4, 0x01) != 0
    }

    /// Issue STALL handshake to IN token.
    pub fn set_send_stall(&mut self, val: bool)
        ensures
            final(self).0 == with_field8(old(self).0, 4, 0x01, bool_bit(val)),
    {
        self.0 = put_field8(self.0, 4, 0x01, if val { 1 } else { 0 });
    }

    /// STALL handshake transmission status.
    pub fn sent_stall(&self) -> (r: bool)
        ensures
            r == (field8(self.0, 5, 0x01) != 0),
    {
        get_field8(self.0, 5, 0x01) != 0
    }

    /// STALL handshake transmission status.
    pub fn set_sent_stall(&mut self, val: bool)
        ensures
            final(self).0 == with_field8(old(self).0, 5, 0x01, bool_bit(val)),
    {
        self.0 = put_field8(self.0, 5, 0x01, if val { 1 } else { 0 });
    }

    /// Reset endpoint data toggle.
    pub fn clr_data_tog(&self) -> (r: bool)
        ensures
            r == (field8(self.0, 6, 0x01) != 0),
    {
        get_field8(self.0, 6, 0x01) != 0
    }

    /// Reset endpoint data toggle.
    pub fn set_clr_data_tog(&mut self, val: bool)
        ensures
            final(self).0 == with_field8(old(self).0, 6, 0x01, bool_bit(val)),
    {
        self.0 = put_field8(self.0, 6, 0x01, if val { 1 } else { 0 });
    }

    /// Incomplete high-bandwidth Isochronous transfer.
    pub fn incomp_tx(&self) -> (r: bool)
        ensures
            r == (field8(self.0, 7, 0x01) != 0),
    {
        get_field8(self.0, 7, 0x01) != 0
    }

    /// Incomplete high-bandwidth Isochronous transfer.
    pub fn set_incomp_tx(&mut self, val: bool)
        ensures
            final(self).0 == with_field8(old(self).0, 7, 0x01, bool_bit(val)),
    {
        self.0 = put_field8(self.0, 7, 0x01, if val { 1 } else { 0 });
    }
}

impl Default for Txcsrl {
    /// The all-zero register value.
    fn default() -> (r: Txcsrl)
        ensures
            r.0 == 0,
    {
        Txcsrl(0)
    }
}

/// Maximum payload size for TX endpoint
#[derive(Clone, Copy, Debug, PartialEq, Eq, Structural)]
pub struct Txmaxp(pub u16);

impl Txmaxp {
    /// Maximum payload in 8bytes.
    pub fn maxp(&self) -> (r: u16)
        ensures
            r == field16(self.0, 0, 0x07ff),
    {
        get_field16(self.0, 0, 0x07ff)
    }

    /// Maximum payload in 8bytes.
    pub fn set_maxp(&mut self, val: u16)
        ensures
            final(self).0 == with_field16(old(self).0, 0, 0x07ff, val),
    {
        self.0 = put_field16(self.0, 0, 0x07ff, val);
    }
}

impl Default for Txmaxp {
    /// The all-zero register value.
    fn default() -> (r: Txmaxp)
        ensures
            r.0 == 0,
    {
        Txmaxp(0)
    }
}

/// VBus pulsing charge duration.
#[derive(Clone, Copy, Debug, PartialEq, Eq, Structural)]
pub struct Vplen(pub u8);

impl Vplen {
    /// Sets the duration of VBus pulsing charge in units of 546.1 µs.
    pub fn vplen(&self) -> (r: u8)
        ensures
            r == field8(self.0, 0, 0xff),
    {
        get_field8(self.0, 0, 0xff)
    }

    /// Sets the duration of VBus pulsing charge in units of 546.1 µs.
    pub fn set_vplen(&mut self, val: u8)
        ensures
            final(self).0 == with_field8(old(self).0, 0, 0xff, val),
    {
        self.0 = put_field8(self.0, 0, 0xff, val);
    }
}

impl Default for Vplen {
    /// The all-zero register value.
    fn default() -> (r: Vplen)
        ensures
            r.0 == 0,
    {
        Vplen(0)
    }
}

} // verus!
