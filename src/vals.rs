//! Named values that register fields take.
use vstd::prelude::*;

verus! {

/// Whether the controller acts as the A or the B device of a session.
#[derive(Clone, Copy, Debug, PartialEq, Eq, Structural)]
pub enum DeviceType {
    ADevice,
    BDevice,
}

impl DeviceType {
    /// The variant that the field value `val` encodes; bits above the field are ignored.
    pub open spec fn spec_from_bits(val: u8) -> DeviceType {
        if val & 0x01 == 0 { DeviceType::ADevice } else { DeviceType::BDevice }
    }

    /// The field value that encodes this variant.
    pub open spec fn spec_to_bits(self) -> u8 {
        match self {
            DeviceType::ADevice => 0,
            DeviceType::BDevice => 1,
        }
    }

    /// Decodes a field value.
    pub fn from_bits(val: u8) -> (r: DeviceType)
        ensures
            r == DeviceType::spec_from_bits(val),
    {
        if val & 0x01 == 0 {
            DeviceType::ADevice
        } else {
            DeviceType::BDevice
        }
    }

    /// Encodes this variant as a field value.
    pub fn to_bits(self) -> (r: u8)
        ensures
            r == self.spec_to_bits(),
    {
        match self {
            DeviceType::ADevice => 0,
            DeviceType::BDevice => 1,
        }
    }
}

/// Direction of an endpoint whose FIFO is shared by both directions.
#[derive(Clone, Copy, Debug, PartialEq, Eq, Structural)]
pub enum EndpointDirection {
    Rx,
    Tx,
}

impl EndpointDirection {
    /// The variant that the field value `val` encodes; bits above the field are ignored.
    pub open spec fn spec_from_bits(val: u8) -> EndpointDirection {
        if val & 0x01 == 0 { EndpointDirection::Rx } else { EndpointDirection::Tx }
    }

    /// The field value that encodes this variant.
    pub open spec fn spec_to_bits(self) -> u8 {
        match self {
            EndpointDirection::Rx => 0,
            EndpointDirection::Tx => 1,
        }
    }

    /// Decodes a field value.
    pub fn from_bits(val: u8) -> (r: EndpointDirection)
        ensures
            r == EndpointDirection::spec_from_bits(val),
    {
        if val & 0x01 == 0 {
            EndpointDirection::Rx
        } else {
            EndpointDirection::Tx
        }
    }

    /// Encodes this variant as a field value.
    pub fn to_bits(self) -> (r: u8)
        ensures
            r == self.spec_to_bits(),
    {
        match self {
            EndpointDirection::Rx => 0,
            EndpointDirection::Tx => 1,
        }
    }
}

/// Whether host mode is forced regardless of the session state.
#[derive(Clone, Copy, Debug, PartialEq, Eq, Structural)]
pub enum ForceHostMode {
    Normal,
    Force,
}

impl ForceHostMode {
    /// The variant that the field value `val` encodes; bits above the field are ignored.
    pub open spec fn spec_from_bits(val: u8) -> ForceHostMode {
        if val & 0x01 == 0 { ForceHostMode::Normal } else { ForceHostMode::Force }
    }

    /// The field value that encodes this variant.
    pub open spec fn spec_to_bits(self) -> u8 {
        match self {
            ForceHostMode::Normal => 0,
            ForceHostMode::Force => 1,
        }
    }

    /// Decodes a field value.
    pub fn from_bits(val: u8) -> (r: ForceHostMode)
        ensures
            r == ForceHostMode::spec_from_bits(val),
    {
        if val & 0x01 == 0 {
            ForceHostMode::Normal
        } else {
            ForceHostMode::Force
        }
    }

    /// Encodes this variant as a field value.
    pub fn to_bits(self) -> (r: u8)
        ensures
            r == self.spec_to_bits(),
    {
        match self {
            ForceHostMode::Normal => 0,
            ForceHostMode::Force => 1,
        }
    }
}

/// Speed that the controller negotiated after reset.
#[derive(Clone, Copy, Debug, PartialEq, Eq, Structural)]
pub enum HsModeStatus {
    FullSpeed,
    HighSpeed,
}

impl HsModeStatus {
    /// The variant that the field value `val` encodes; bits above the field are ignored.
    pub open spec fn spec_from_bits(val: u8) -> HsModeStatus {
        if val & 0x01 == 0 { HsModeStatus::FullSpeed } else { HsModeStatus::HighSpeed }
    }

    /// The field value that encodes this variant.
    pub open spec fn spec_to_bits(self) -> u8 {
        match self {
            HsModeStatus::FullSpeed => 0,
            HsModeStatus::HighSpeed => 1,
        }
    }

    /// Decodes a field value.
    pub fn from_bits(val: u8) -> (r: HsModeStatus)
        ensures
            r == HsModeStatus::spec_from_bits(val),
    {
        if val & 0x01 == 0 {
            HsModeStatus::FullSpeed
        } else {
            HsModeStatus::HighSpeed
        }
    }

    /// Encodes this variant as a field value.
    pub fn to_bits(self) -> (r: u8)
        ensures
            r == self.spec_to_bits(),
    {
        match self {
            HsModeStatus::FullSpeed => 0,
            HsModeStatus::HighSpeed => 1,
        }
    }
}

/// When isochronous packets are sent after TX packet ready is set.
#[derive(Clone, Copy, Debug, PartialEq, Eq, Structural)]
pub enum IsoUpdateMode {
    Normal,
    WaitSof,
}

impl IsoUpdateMode {
    /// The variant that the field value `val` encodes; bits above the field are ignored.
    pub open spec fn spec_from_bits(val: u8) -> IsoUpdateMode {
        if val & 0x01 == 0 { IsoUpdateMode::Normal } else { IsoUpdateMode::WaitSof }
    }

    /// The field value that encodes this variant.
    pub open spec fn spec_to_bits(self) -> u8 {
        match self {
            IsoUpdateMode::Normal => 0,
            IsoUpdateMode::WaitSof => 1,
        }
    }

    /// Decodes a field value.
    pub fn from_bits(val: u8) -> (r: IsoUpdateMode)
        ensures
            r == IsoUpdateMode::spec_from_bits(val),
    {
        if val & 0x01 == 0 {
            IsoUpdateMode::Normal
        } else {
            IsoUpdateMode::WaitSof
        }
    }

    /// Encodes this variant as a field value.
    pub fn to_bits(self) -> (r: u8)
        ensures
            r == self.spec_to_bits(),
    {
        match self {
            IsoUpdateMode::Normal => 0,
            IsoUpdateMode::WaitSof => 1,
        }
    }
}

/// Data width of the UTMI+ interface.
#[derive(Clone, Copy, Debug, PartialEq, Eq, Structural)]
pub enum UtmiWidth {
    EightBit,
    SixteenBit,
}

impl UtmiWidth {
    /// The variant that the field value `val` encodes; bits above the field are ignored.
    pub open spec fn spec_from_bits(val: u8) -> UtmiWidth {
        if val & 0x01 == 0 { UtmiWidth::EightBit } else { UtmiWidth::SixteenBit }
    }

    /// The field value that encodes this variant.
    pub open spec fn spec_to_bits(self) -> u8 {
        match self {
            UtmiWidth::EightBit => 0,
            UtmiWidth::SixteenBit => 1,
        }
    }

    /// Decodes a field value.
    pub fn from_bits(val: u8) -> (r: UtmiWidth)
        ensures
            r == UtmiWidth::spec_from_bits(val),
    {
        if val & 0x01 == 0 {
            UtmiWidth::EightBit
        } else {
            UtmiWidth::SixteenBit
        }
    }

    /// Encodes this variant as a field value.
    pub fn to_bits(self) -> (r: u8)
        ensures
            r == self.spec_to_bits(),
    {
        match self {
            UtmiWidth::EightBit => 0,
            UtmiWidth::SixteenBit => 1,
        }
    }
}

/// Level of VBus relative to the session thresholds.
#[derive(Clone, Copy, Debug, PartialEq, Eq, Structural)]
pub enum VbusLevel {
    BelowSessionEnd,
    AboveSessionEndBelowAvalid,
    AboveAvalidBelowVbusValid,
    AboveVbusValid,
}

impl VbusLevel {
    /// The variant that the field value `val` encodes; bits above the field are ignored.
    pub open spec fn spec_from_bits(val: u8) -> VbusLevel {
        let v = val & 0x03;
        if v == 0 { VbusLevel::BelowSessionEnd } else if v == 1 { VbusLevel::AboveSessionEndBelowAvalid } else if v == 2 { VbusLevel::AboveAvalidBelowVbusValid } else { VbusLevel::AboveVbusValid }
    }

    /// The field value that encodes this variant.
    pub open spec fn spec_to_bits(self) -> u8 {
        match self {
            VbusLevel::BelowSessionEnd => 0,
            VbusLevel::AboveSessionEndBelowAvalid => 1,
            VbusLevel::AboveAvalidBelowVbusValid => 2,
            VbusLevel::AboveVbusValid => 3,
        }
    }

    /// Decodes a field value.
    pub fn from_bits(val: u8) -> (r: VbusLevel)
        ensures
            r == VbusLevel::spec_from_bits(val),
    {
        let v = val & 0x03;
        if v == 0 {
            VbusLevel::BelowSessionEnd
        } else if v == 1 {
            VbusLevel::AboveSessionEndBelowAvalid
        } else if v == 2 {
            VbusLevel::AboveAvalidBelowVbusValid
        } else {
            VbusLevel::AboveVbusValid
        }
    }

    /// Encodes this variant as a field value.
    pub fn to_bits(self) -> (r: u8)
        ensures
            r == self.spec_to_bits(),
    {
        match self {
            VbusLevel::BelowSessionEnd => 0,
            VbusLevel::AboveSessionEndBelowAvalid => 1,
            VbusLevel::AboveAvalidBelowVbusValid => 2,
            VbusLevel::AboveVbusValid => 3,
        }
    }
}

} // verus!
