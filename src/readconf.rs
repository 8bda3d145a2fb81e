//! Decoding the controller's self-description: the configuration register,
//! the per-endpoint FIFO sizes and the additional information registers.
use vstd::prelude::*;

use crate::alloc_endpoint::two_pow;
use crate::bits::field8;
use crate::regs::{Configdata, Epinfo, Fifosize, FsEof1, HsEof1, Linkinfo, LsEof1, Raminfo, Vplen};

verus! {

/// How the core's FIFOs are sized.
#[derive(Clone, Copy, Debug, PartialEq, Eq, Structural)]
pub enum FifoSizing {
    /// Fixed at synthesis time.
    Static,
    /// Configured by software.
    Dynamic,
}

/// Data width of the UTMI+ interface.
#[derive(Clone, Copy, Debug, PartialEq, Eq, Structural)]
pub enum UtmiDataWidth {
    Bit8,
    Bit16,
    /// A value that names neither width.
    Unknown(u8),
}

/// The FIFO size that a FIFOSIZE nibble stands for, in bytes: `2^n` for
/// `n` from 3 to 13, otherwise 0 (not configured).
pub open spec fn fifo_size_of_nibble(nibble: u8) -> u16 {
    if 3 <= nibble <= 13 {
        two_pow(nibble as nat) as u16
    } else {
        0
    }
}

/// The RX FIFO size that a FIFOSIZE nibble stands for: `0xF` means that RX
/// shares the TX FIFO, written as `u16::MAX`.
pub open spec fn rx_fifo_size_of_nibble(nibble: u8) -> u16 {
    if nibble == 0x0f {
        0xffff
    } else {
        fifo_size_of_nibble(nibble)
    }
}

/// The decoded configuration of a controller.
#[derive(Clone, Debug)]
pub struct Configuration {
    pub mprxe: bool,
    pub mptxe: bool,
    pub big_endian: bool,
    pub hbrxe: bool,
    pub hbtxe: bool,
    pub dyn_fifo_sizing: FifoSizing,
    pub soft_connect: bool,
    pub utmi_data_width: UtmiDataWidth,
    /// TX FIFO size of each endpoint in bytes (static sizing only, else 0).
    pub tx_fifo_sizes: Vec<u16>,
    /// RX FIFO size of each endpoint in bytes (static sizing only, else 0).
    pub rx_fifo_sizes: Vec<u16>,
    pub rx_endpoints: u8,
    pub tx_endpoints: u8,
    pub dma_channels: u8,
    pub ram_bits: u8,
    pub wtcon: u8,
    pub wtid: u8,
    pub vplen: u8,
    pub hs_eof1: u8,
    pub fs_eof1: u8,
    pub ls_eof1: u8,
    /// Registers that read as all zeros, which may be unimplemented or masked
    /// by the vendor: EPINFO, RAMINFO, LINKINFO, VPLEN, HS_EOF1, FS_EOF1, LS_EOF1.
    pub epinfo_is_zero: bool,
    pub raminfo_is_zero: bool,
    pub linkinfo_is_zero: bool,
    pub vplen_is_zero: bool,
    pub hs_eof1_is_zero: bool,
    pub fs_eof1_is_zero: bool,
    pub ls_eof1_is_zero: bool,
}

impl Configuration {
    /// Decodes a 4-bit FIFOSIZE nibble into a size in bytes.
    pub fn decode_fifo_size_nibble(nibble: u8) -> (r: u16)
        ensures
            r == fifo_size_of_nibble(nibble),
    {
        proof {
            reveal_with_fuel(two_pow, 14);
        }
        match nibble {
            3 => 8,
            4 => 16,
            5 => 32,
            6 => 64,
            7 => 128,
            8 => 256,
            9 => 512,
            10 => 1024,
            11 => 2048,
            12 => 4096,
            13 => 8192,
            _ => 0,
        }
    }

    /// Decodes the configuration registers. `fifosize` holds the FIFOSIZE
    /// register of endpoints 0 to 15, read with each index selected; it is
    /// only consulted when the FIFOs are statically sized.
    pub fn decode(
        configdata: Configdata,
        fifosize: &Vec<Fifosize>,
        epinfo: Epinfo,
        raminfo: Raminfo,
        linkinfo: Linkinfo,
        vplen: Vplen,
        hs_eof1: HsEof1,
        fs_eof1: FsEof1,
        ls_eof1: LsEof1,
    ) -> (r: Configuration)
        requires
            fifosize@.len() == 16,
        ensures
            r.mprxe == (field8(configdata.0, 7, 1) != 0),
            r.mptxe == (field8(configdata.0, 6, 1) != 0),
            r.big_endian == (field8(configdata.0, 5, 1) != 0),
            r.hbrxe == (field8(configdata.0, 4, 1) != 0),
            r.hbtxe == (field8(configdata.0, 3, 1) != 0),
            r.dyn_fifo_sizing == if field8(configdata.0, 2, 1) != 0 {
                FifoSizing::Dynamic
            } else {
                FifoSizing::Static
            },
            r.soft_connect == (field8(configdata.0, 1, 1) != 0),
            r.utmi_data_width == if field8(configdata.0, 0, 1) & 1 == 0 {
                UtmiDataWidth::Bit8
            } else {
                UtmiDataWidth::Bit16
            },
            r.tx_fifo_sizes@.len() == 16,
            r.rx_fifo_sizes@.len() == 16,
            forall|i: int|
                0 <= i < 16 ==> #[trigger] r.tx_fifo_sizes@[i] == if r.dyn_fifo_sizing
                    == FifoSizing::Static {
                    fifo_size_of_nibble(field8(fifosize@[i].0, 0, 0x0f))
                } else {
                    0
                },
            forall|i: int|
                0 <= i < 16 ==> #[trigger] r.rx_fifo_sizes@[i] == if r.dyn_fifo_sizing
                    == FifoSizing::Static {
                    rx_fifo_size_of_nibble(field8(fifosize@[i].0, 4, 0x0f))
                } else {
                    0
                },
            r.tx_endpoints == field8(epinfo.0, 0, 0x0f),
            r.rx_endpoints == field8(epinfo.0, 4, 0x0f),
            r.ram_bits == field8(raminfo.0, 0, 0x0f),
            r.dma_channels == field8(raminfo.0, 4, 0x0f),
            r.wtid == field8(linkinfo.0, 0, 0x0f),
            r.wtcon == field8(linkinfo.0, 4, 0x0f),
            r.vplen == field8(vplen.0, 0, 0xff),
            r.hs_eof1 == field8(hs_eof1.0, 0, 0xff),
            r.fs_eof1 == field8(fs_eof1.0, 0, 0xff),
            r.ls_eof1 == field8(ls_eof1.0, 0, 0xff),
            r.epinfo_is_zero == (epinfo.0 == 0),
            r.raminfo_is_zero == (raminfo.0 == 0),
            r.linkinfo_is_zero == (linkinfo.0 == 0),
            r.vplen_is_zero == (vplen.0 == 0),
            r.hs_eof1_is_zero == (hs_eof1.0 == 0),
            r.fs_eof1_is_zero == (fs_eof1.0 == 0),
            r.ls_eof1_is_zero == (ls_eof1.0 == 0),
    {
        let dyn_fifo_sizing = if configdata.dyn_fifo_sizing() {
            FifoSizing::Dynamic
        } else {
            FifoSizing::Static
        };
        let width_bits = configdata.utmi_data_width().to_bits();
        let utmi_data_width = if width_bits == 0 {
            UtmiDataWidth::Bit8
        } else if width_bits == 1 {
            UtmiDataWidth::Bit16
        } else {
            UtmiDataWidth::Unknown(width_bits)
        };
        let is_static = match dyn_fifo_sizing {
            FifoSizing::Static => true,
            FifoSizing::Dynamic => false,
        };
        let mut tx_fifo_sizes: Vec<u16> = Vec::new();
        let mut rx_fifo_sizes: Vec<u16> = Vec::new();
        let mut i: usize = 0;
        while i < 16
            invariant
                i <= 16,
                fifosize@.len() == 16,
                is_static == (dyn_fifo_sizing == FifoSizing::Static),
                tx_fifo_sizes@.len() == i,
                rx_fifo_sizes@.len() == i,
                forall|j: int|
                    0 <= j < i ==> #[trigger] tx_fifo_sizes@[j] == if is_static {
                        fifo_size_of_nibble(field8(fifosize@[j].0, 0, 0x0f))
                    } else {
                        0
                    },
                forall|j: int|
                    0 <= j < i ==> #[trigger] rx_fifo_sizes@[j] == if is_static {
                        rx_fifo_size_of_nibble(field8(fifosize@[j].0, 4, 0x0f))
                    } else {
                        0
                    },
            decreases 16 - i,
        {
            if is_static {
                let tx_nibble = fifosize[i].tx_fifo_size();
                let rx_nibble = fifosize[i].rx_fifo_size();
                tx_fifo_sizes.push(Self::decode_fifo_size_nibble(tx_nibble));
                if rx_nibble == 0x0f {
                    rx_fifo_sizes.push(0xffff);
                } else {
                    rx_fifo_sizes.push(Self::decode_fifo_size_nibble(rx_nibble));
                }
            } else {
                tx_fifo_sizes.push(0);
                rx_fifo_sizes.push(0);
            }
            i += 1;
        }
        Configuration {
            mprxe: configdata.mprxe(),
            mptxe: configdata.mptxe(),
            big_endian: configdata.big_endian(),
            hbrxe: configdata.hbrxe(),
            hbtxe: configdata.hbtxe(),
            dyn_fifo_sizing,
            soft_connect: configdata.soft_con_e(),
            utmi_data_width,
            tx_fifo_sizes,
            rx_fifo_sizes,
            rx_endpoints: epinfo.rx_end_points(),
            tx_endpoints: epinfo.tx_end_points(),
            dma_channels: raminfo.dmachans(),
            ram_bits: raminfo.ram_bits(),
            wtcon: linkinfo.wtcon(),
            wtid: linkinfo.wtid(),
            vplen: vplen.vplen(),
            hs_eof1: hs_eof1.hs_eof1(),
            fs_eof1: fs_eof1.fs_eof1(),
            ls_eof1: ls_eof1.ls_eof1(),
            epinfo_is_zero: epinfo.0 == 0,
            raminfo_is_zero: raminfo.0 == 0,
            linkinfo_is_zero: linkinfo.0 == 0,
            vplen_is_zero: vplen.0 == 0,
            hs_eof1_is_zero: hs_eof1.0 == 0,
            fs_eof1_is_zero: fs_eof1.0 == 0,
            ls_eof1_is_zero: ls_eof1.0 == 0,
        }
    }
}

} // verus!
