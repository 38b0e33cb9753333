//! Wire protocol of the serial diagnostic link: message framing and
//! checksum, the fixed address map of raw sensor bytes, and the viewer
//! that turns polled bytes into an engine snapshot.

use vstd::prelude::*;

use crate::context::EngineContext;
use crate::context::spec_default_context;
use crate::context::spec_integrate;

verus! {

/// 8-bit wraparound sum of a byte sequence, as a mathematical value in `0..256`.
pub open spec fn wrap_sum(s: Seq<u8>) -> int
    decreases s.len(),
{
    if s.len() == 0 {
        0
    } else {
        (wrap_sum(s.drop_last()) + s.last()) % 256
    }
}

/// Frame checksum: two's-complement negation of the 8-bit wraparound sum,
/// so that the sum of all frame bytes including the checksum is zero.
pub open spec fn spec_checksum(s: Seq<u8>) -> u8 {
    ((256 - wrap_sum(s)) % 256) as u8
}

/// The three recognized frame header kinds.
#[derive(Debug, Copy, Clone, PartialEq, Eq, Structural)]
pub enum SdlHeader {
    /// Identification query.
    Id,
    /// Bulk data query used for normal polling.
    Data,
    /// Reserved actuation command; encode-only.
    Actuate,
}

/// The wire byte of each header kind.
pub open spec fn spec_header_byte(h: SdlHeader) -> u8 {
    match h {
        SdlHeader::Id => 0x10,
        SdlHeader::Data => 0x13,
        SdlHeader::Actuate => 0x15,
    }
}

/// The header kind of a wire byte, if it is a recognized one.
pub open spec fn spec_header_from_byte(b: u8) -> Option<SdlHeader> {
    if b == 0x10 {
        Some(SdlHeader::Id)
    } else if b == 0x13 {
        Some(SdlHeader::Data)
    } else if b == 0x15 {
        Some(SdlHeader::Actuate)
    } else {
        None
    }
}

impl SdlHeader {
    /// The byte this header kind puts on the wire.
    pub fn to_byte(self) -> (b: u8)
        ensures
            b == spec_header_byte(self),
    {
        match self {
            SdlHeader::Id => 0x10,
            SdlHeader::Data => 0x13,
            SdlHeader::Actuate => 0x15,
        }
    }

    /// The header kind a wire byte names, if any.
    pub fn from_byte(b: u8) -> (h: Option<SdlHeader>)
        ensures
            h == spec_header_from_byte(b),
    {
        if b == 0x10 {
            Some(SdlHeader::Id)
        } else if b == 0x13 {
            Some(SdlHeader::Data)
        } else if b == 0x15 {
            Some(SdlHeader::Actuate)
        } else {
            None
        }
    }
}

/// Why a byte buffer failed to decode as a frame.
///
/// A malformed inbound frame is a recoverable condition: the caller keeps
/// its previous raw data and polls again on the next cycle.
#[derive(Debug, Copy, Clone, PartialEq, Eq, Structural)]
pub enum DecodeError {
    /// Fewer than the minimal 3 bytes of header, length and checksum.
    FrameTooShort,
    /// The first byte names no recognized header kind.
    UnknownHeader,
    /// The length byte is below 3 or runs past the end of the buffer.
    InvalidLength,
}

/// One protocol frame: `[header][length][payload bytes...][checksum]`,
/// where the length byte counts the whole frame.
#[derive(Debug, Clone, PartialEq, Eq)]
pub struct SdlMessage {
    pub header: SdlHeader,
    pub length: u8,
    pub data: Option<Vec<u8>>,
    pub checksum: u8,
}

/// The payload a message carries, as a byte sequence; `None` counts as empty.
pub open spec fn spec_payload(m: SdlMessage) -> Seq<u8> {
    match m.data {
        Some(d) => d@,
        None => Seq::empty(),
    }
}

/// A message whose length and checksum fields agree with its payload.
pub open spec fn spec_message_wf(m: SdlMessage) -> bool {
    &&& m.data is Some
    &&& m.length == spec_payload(m).len() + 3
    &&& m.checksum == spec_checksum(
        seq![spec_header_byte(m.header), m.length] + spec_payload(m),
    )
}

/// The exact byte sequence a header and payload put on the wire.
pub open spec fn spec_message_bytes(header: SdlHeader, data: Seq<u8>) -> Seq<u8> {
    let prefix = seq![spec_header_byte(header), (data.len() + 3) as u8] + data;
    prefix + seq![spec_checksum(prefix)]
}

/// The error, if any, that decoding a byte buffer reports.
pub open spec fn spec_decode_err(bytes: Seq<u8>) -> Option<DecodeError> {
    if bytes.len() < 3 {
        Some(DecodeError::FrameTooShort)
    } else if spec_header_from_byte(bytes[0]) is None {
        Some(DecodeError::UnknownHeader)
    } else if bytes[1] < 3 || bytes[1] > bytes.len() {
        Some(DecodeError::InvalidLength)
    } else {
        None
    }
}

/// The header kind of a decodable buffer.
pub open spec fn spec_decoded_header(bytes: Seq<u8>) -> SdlHeader {
    spec_header_from_byte(bytes[0])->Some_0
}

/// The payload slice of a decodable buffer: the bytes between the length
/// byte and the checksum position the length byte points at.
pub open spec fn spec_decoded_payload(bytes: Seq<u8>) -> Seq<u8> {
    bytes.subrange(2, bytes[1] - 1)
}

impl SdlMessage {
    /// The checksum over the given bytes: the value that makes the 8-bit
    /// wraparound sum of bytes and checksum together come out zero.
    pub fn generate_checksum(bytes: &[u8]) -> (c: u8)
        ensures
            c == spec_checksum(bytes@),
    {
        let mut acc: u8 = 0;
        let mut i: usize = 0;
        while i < bytes.len()
            invariant
                i <= bytes@.len(),
                acc == wrap_sum(bytes@.subrange(0, i as int)),
            decreases bytes@.len() - i,
        {
            proof {
                assert(bytes@.subrange(0, i + 1).drop_last() =~= bytes@.subrange(0, i as int));
                assert(bytes@.subrange(0, i + 1).last() == bytes@[i as int]);
            }
            acc = ((acc as u32 + bytes[i] as u32) % 256) as u8;
            i = i + 1;
        }
        proof {
            assert(bytes@.subrange(0, bytes@.len() as int) =~= bytes@);
        }
        (((256 - acc as u32) % 256) as u8)
    }

    /// Builds a frame around the given payload: the length byte counts
    /// header, length byte, payload and checksum, and the checksum is
    /// computed over header, length byte and payload.
    pub fn new(header: SdlHeader, data: Option<Vec<u8>>) -> (m: SdlMessage)
        requires
            (data matches Some(d) ==> d@.len() <= 252),
        ensures
            spec_message_wf(m),
            m.header == header,
            spec_payload(m) == (match data {
                Some(d) => d@,
                None => Seq::<u8>::empty(),
            }),
    {
        let data = match data {
            Some(d) => d,
            None => Vec::new(),
        };
        let length: u8 = (data.len() as u8) + 3;
        let mut prefix: Vec<u8> = Vec::new();
        prefix.push(header.to_byte());
        prefix.push(length);
        let mut i: usize = 0;
        while i < data.len()
            invariant
                i <= data@.len(),
                prefix@ =~= seq![spec_header_byte(header), length] + data@.subrange(0, i as int),
            decreases data@.len() - i,
        {
            prefix.push(data[i]);
            i = i + 1;
        }
        proof {
            assert(data@.subrange(0, data@.len() as int) =~= data@);
        }
        let checksum = Self::generate_checksum(prefix.as_slice());
        SdlMessage { header, length, data: Some(data), checksum }
    }

    /// Serializes the frame exactly as its fields stand: header byte,
    /// length byte, payload, checksum.
    pub fn to_bytes(&self) -> (bytes: Vec<u8>)
        ensures
            bytes@ == seq![spec_header_byte(self.header), self.length] + spec_payload(*self)
                + seq![self.checksum],
            spec_message_wf(*self) ==> bytes@ == spec_message_bytes(self.header, spec_payload(*self)),
    {
        let mut bytes: Vec<u8> = Vec::new();
        bytes.push(self.header.to_byte());
        bytes.push(self.length);
        match &self.data {
            Some(data) => {
                let mut i: usize = 0;
                while i < data.len()
                    invariant
                        i <= data@.len(),
                        bytes@ =~= seq![spec_header_byte(self.header), self.length]
                            + data@.subrange(0, i as int),
                    decreases data@.len() - i,
                {
                    bytes.push(data[i]);
                    i = i + 1;
                }
            },
            None => {},
        }
        proof {
            assert(spec_payload(*self).subrange(0, spec_payload(*self).len() as int)
                =~= spec_payload(*self));
        }
        bytes.push(self.checksum);
        proof {
            if spec_message_wf(*self) {
                assert(bytes@ =~= spec_message_bytes(self.header, spec_payload(*self)));
            }
        }
        bytes
    }

    /// Decodes a byte buffer into a frame, or says why it cannot.
    ///
    /// The trailing checksum is carried, not recomputed and compared:
    /// inbound verification is left to the transport's own error detection.
    pub fn try_from(value: &[u8]) -> (r: Result<SdlMessage, DecodeError>)
        ensures
            (match r {
                Err(e) => spec_decode_err(value@) == Some(e),
                Ok(m) => {
                    &&& spec_decode_err(value@) is None
                    &&& m.header == spec_decoded_header(value@)
                    &&& m.length == value@[1]
                    &&& m.data matches Some(d) && d@ == spec_decoded_payload(value@)
                    &&& m.checksum == value@[value@[1] - 1]
                },
            }),
    {
        if value.len() < 3 {
            return Err(DecodeError::FrameTooShort);
        }
        let header_enum = match SdlHeader::from_byte(value[0]) {
            Some(h) => h,
            None => {
                return Err(DecodeError::UnknownHeader);
            },
        };
        let length = value[1];
        if length < 3 || (length as usize) > value.len() {
            return Err(DecodeError::InvalidLength);
        }
        let end: usize = (length as usize) - 1;
        let mut d: Vec<u8> = Vec::new();
        let mut i: usize = 2;
        while i < end
            invariant
                2 <= i <= end,
                end < value@.len(),
                d@ =~= value@.subrange(2, i as int),
            decreases end - i,
        {
            d.push(value[i]);
            i = i + 1;
        }
        let checksum = value[end];
        Ok(SdlMessage { header: header_enum, length, data: Some(d), checksum })
    }
}

/// Round trip: the frame built from a header and payload decodes without
/// error, and decoding recovers the same header and the same payload.
pub proof fn lemma_encode_decode_round_trip(header: SdlHeader, data: Seq<u8>)
    requires
        data.len() <= 252,
    ensures
        spec_decode_err(spec_message_bytes(header, data)) is None,
        spec_decoded_header(spec_message_bytes(header, data)) == header,
        spec_decoded_payload(spec_message_bytes(header, data)) == data,
{
    let bytes = spec_message_bytes(header, data);
    assert(bytes.len() == data.len() + 3);
    assert(bytes[0] == spec_header_byte(header));
    assert(spec_header_from_byte(spec_header_byte(header)) == Some(header));
    assert(bytes[1] == data.len() + 3);
    assert(spec_decoded_payload(bytes) =~= data);
}

/// The fixed set of raw sensor/flag byte slots the ECU exposes.
///
/// Each address names one byte in the protocol's data layout; the set is
/// static and small, so the raw store is an array keyed by ordinal.
#[derive(Debug, Copy, Clone, PartialEq, Eq, Hash, Structural)]
pub enum ObdAddress {
    FaultCodes1,
    FaultCodes2,
    FaultCodes3,
    FaultCodes4,
    RpmHigh,
    RpmLow,
    TargetIdle,
    VehicleSpeedSensor,
    EngineCoolantTemperature,
    IntakeAirTemperature,
    TpsAngle,
    TpsVoltage,
    InjectorPulseWidthHigh,
    InjectorPulseWidthLow,
    IgnitionAdvance,
    ManifoldAbsolutePressure,
    BarometricPressure,
    IscFlowDuty,
    BatteryVoltage,
    RadiatorFan,
    StatusFlags,
    FaultCodes5,
    FaultCodes6,
}

/// How many addresses there are; the raw store holds one byte per address.
pub const ADDRESS_COUNT: usize = 23;

/// The wire byte that names each address in a data query.
pub open spec fn spec_address_byte(a: ObdAddress) -> u8 {
    match a {
        ObdAddress::FaultCodes1 => 0x00,
        ObdAddress::FaultCodes2 => 0x01,
        ObdAddress::FaultCodes3 => 0x02,
        ObdAddress::FaultCodes4 => 0x03,
        ObdAddress::RpmHigh => 0x04,
        ObdAddress::RpmLow => 0x05,
        ObdAddress::TargetIdle => 0x06,
        ObdAddress::VehicleSpeedSensor => 0x07,
        ObdAddress::EngineCoolantTemperature => 0x08,
        ObdAddress::IntakeAirTemperature => 0x09,
        ObdAddress::TpsAngle => 0x0A,
        ObdAddress::TpsVoltage => 0x0B,
        ObdAddress::InjectorPulseWidthHigh => 0x0D,
        ObdAddress::InjectorPulseWidthLow => 0x0E,
        ObdAddress::IgnitionAdvance => 0x0F,
        ObdAddress::ManifoldAbsolutePressure => 0x10,
        ObdAddress::BarometricPressure => 0x11,
        ObdAddress::IscFlowDuty => 0x12,
        ObdAddress::BatteryVoltage => 0x16,
        ObdAddress::RadiatorFan => 0x19,
        ObdAddress::StatusFlags => 0x1A,
        ObdAddress::FaultCodes5 => 0x20,
        ObdAddress::FaultCodes6 => 0x21,
    }
}

/// The ordinal position of each address: its slot in the raw store.
pub open spec fn spec_address_index(a: ObdAddress) -> int {
    match a {
        ObdAddress::FaultCodes1 => 0,
        ObdAddress::FaultCodes2 => 1,
        ObdAddress::FaultCodes3 => 2,
        ObdAddress::FaultCodes4 => 3,
        ObdAddress::RpmHigh => 4,
        ObdAddress::RpmLow => 5,
        ObdAddress::TargetIdle => 6,
        ObdAddress::VehicleSpeedSensor => 7,
        ObdAddress::EngineCoolantTemperature => 8,
        ObdAddress::IntakeAirTemperature => 9,
        ObdAddress::TpsAngle => 10,
        ObdAddress::TpsVoltage => 11,
        ObdAddress::InjectorPulseWidthHigh => 12,
        ObdAddress::InjectorPulseWidthLow => 13,
        ObdAddress::IgnitionAdvance => 14,
        ObdAddress::ManifoldAbsolutePressure => 15,
        ObdAddress::BarometricPressure => 16,
        ObdAddress::IscFlowDuty => 17,
        ObdAddress::BatteryVoltage => 18,
        ObdAddress::RadiatorFan => 19,
        ObdAddress::StatusFlags => 20,
        ObdAddress::FaultCodes5 => 21,
        ObdAddress::FaultCodes6 => 22,
    }
}

/// The address a wire byte names, if any: inverse of `spec_address_byte`.
pub open spec fn spec_address_from_repr(value: int) -> Option<ObdAddress> {
    if value == 0x00 {
        Some(ObdAddress::FaultCodes1)
    } else if value == 0x01 {
        Some(ObdAddress::FaultCodes2)
    } else if value == 0x02 {
        Some(ObdAddress::FaultCodes3)
    } else if value == 0x03 {
        Some(ObdAddress::FaultCodes4)
    } else if value == 0x04 {
        Some(ObdAddress::RpmHigh)
    } else if value == 0x05 {
        Some(ObdAddress::RpmLow)
    } else if value == 0x06 {
        Some(ObdAddress::TargetIdle)
    } else if value == 0x07 {
        Some(ObdAddress::VehicleSpeedSensor)
    } else if value == 0x08 {
        Some(ObdAddress::EngineCoolantTemperature)
    } else if value == 0x09 {
        Some(ObdAddress::IntakeAirTemperature)
    } else if value == 0x0A {
        Some(ObdAddress::TpsAngle)
    } else if value == 0x0B {
        Some(ObdAddress::TpsVoltage)
    } else if value == 0x0D {
        Some(ObdAddress::InjectorPulseWidthHigh)
    } else if value == 0x0E {
        Some(ObdAddress::InjectorPulseWidthLow)
    } else if value == 0x0F {
        Some(ObdAddress::IgnitionAdvance)
    } else if value == 0x10 {
        Some(ObdAddress::ManifoldAbsolutePressure)
    } else if value == 0x11 {
        Some(ObdAddress::BarometricPressure)
    } else if value == 0x12 {
        Some(ObdAddress::IscFlowDuty)
    } else if value == 0x16 {
        Some(ObdAddress::BatteryVoltage)
    } else if value == 0x19 {
        Some(ObdAddress::RadiatorFan)
    } else if value == 0x1A {
        Some(ObdAddress::StatusFlags)
    } else if value == 0x20 {
        Some(ObdAddress::FaultCodes5)
    } else if value == 0x21 {
        Some(ObdAddress::FaultCodes6)
    } else {
        None
    }
}

impl ObdAddress {
    /// The byte this address is requested by in a data query.
    pub fn to_byte(self) -> (b: u8)
        ensures
            b == spec_address_byte(self),
    {
        match self {
            ObdAddress::FaultCodes1 => 0x00,
            ObdAddress::FaultCodes2 => 0x01,
            ObdAddress::FaultCodes3 => 0x02,
            ObdAddress::FaultCodes4 => 0x03,
            ObdAddress::RpmHigh => 0x04,
            ObdAddress::RpmLow => 0x05,
            ObdAddress::TargetIdle => 0x06,
            ObdAddress::VehicleSpeedSensor => 0x07,
            ObdAddress::EngineCoolantTemperature => 0x08,
            ObdAddress::IntakeAirTemperature => 0x09,
            ObdAddress::TpsAngle => 0x0A,
            ObdAddress::TpsVoltage => 0x0B,
            ObdAddress::InjectorPulseWidthHigh => 0x0D,
            ObdAddress::InjectorPulseWidthLow => 0x0E,
            ObdAddress::IgnitionAdvance => 0x0F,
            ObdAddress::ManifoldAbsolutePressure => 0x10,
            ObdAddress::BarometricPressure => 0x11,
            ObdAddress::IscFlowDuty => 0x12,
            ObdAddress::BatteryVoltage => 0x16,
            ObdAddress::RadiatorFan => 0x19,
            ObdAddress::StatusFlags => 0x1A,
            ObdAddress::FaultCodes5 => 0x20,
            ObdAddress::FaultCodes6 => 0x21,
        }
    }

    /// The slot of this address in the raw store.
    pub fn index(self) -> (i: usize)
        ensures
            i == spec_address_index(self),
            i < ADDRESS_COUNT,
    {
        match self {
            ObdAddress::FaultCodes1 => 0,
            ObdAddress::FaultCodes2 => 1,
            ObdAddress::FaultCodes3 => 2,
            ObdAddress::FaultCodes4 => 3,
            ObdAddress::RpmHigh => 4,
            ObdAddress::RpmLow => 5,
            ObdAddress::TargetIdle => 6,
            ObdAddress::VehicleSpeedSensor => 7,
            ObdAddress::EngineCoolantTemperature => 8,
            ObdAddress::IntakeAirTemperature => 9,
            ObdAddress::TpsAngle => 10,
            ObdAddress::TpsVoltage => 11,
            ObdAddress::InjectorPulseWidthHigh => 12,
            ObdAddress::InjectorPulseWidthLow => 13,
            ObdAddress::IgnitionAdvance => 14,
            ObdAddress::ManifoldAbsolutePressure => 15,
            ObdAddress::BarometricPressure => 16,
            ObdAddress::IscFlowDuty => 17,
            ObdAddress::BatteryVoltage => 18,
            ObdAddress::RadiatorFan => 19,
            ObdAddress::StatusFlags => 20,
            ObdAddress::FaultCodes5 => 21,
            ObdAddress::FaultCodes6 => 22,
        }
    }

    /// The address a wire byte names, if it is a recognized one.
    pub fn from_repr(value: usize) -> (a: Option<ObdAddress>)
        ensures
            a == spec_address_from_repr(value as int),
    {
        if value == 0x00 {
            Some(ObdAddress::FaultCodes1)
        } else if value == 0x01 {
            Some(ObdAddress::FaultCodes2)
        } else if value == 0x02 {
            Some(ObdAddress::FaultCodes3)
        } else if value == 0x03 {
            Some(ObdAddress::FaultCodes4)
        } else if value == 0x04 {
            Some(ObdAddress::RpmHigh)
        } else if value == 0x05 {
            Some(ObdAddress::RpmLow)
        } else if value == 0x06 {
            Some(ObdAddress::TargetIdle)
        } else if value == 0x07 {
            Some(ObdAddress::VehicleSpeedSensor)
        } else if value == 0x08 {
            Some(ObdAddress::EngineCoolantTemperature)
        } else if value == 0x09 {
            Some(ObdAddress::IntakeAirTemperature)
        } else if value == 0x0A {
            Some(ObdAddress::TpsAngle)
        } else if value == 0x0B {
            Some(ObdAddress::TpsVoltage)
        } else if value == 0x0D {
            Some(ObdAddress::InjectorPulseWidthHigh)
        } else if value == 0x0E {
            Some(ObdAddress::InjectorPulseWidthLow)
        } else if value == 0x0F {
            Some(ObdAddress::IgnitionAdvance)
        } else if value == 0x10 {
            Some(ObdAddress::ManifoldAbsolutePressure)
        } else if value == 0x11 {
            Some(ObdAddress::BarometricPressure)
        } else if value == 0x12 {
            Some(ObdAddress::IscFlowDuty)
        } else if value == 0x16 {
            Some(ObdAddress::BatteryVoltage)
        } else if value == 0x19 {
            Some(ObdAddress::RadiatorFan)
        } else if value == 0x1A {
            Some(ObdAddress::StatusFlags)
        } else if value == 0x20 {
            Some(ObdAddress::FaultCodes5)
        } else if value == 0x21 {
            Some(ObdAddress::FaultCodes6)
        } else {
            None
        }
    }
}

/// The derived readings a scan tool shows, one name per decoded value.
#[derive(Debug, Copy, Clone, PartialEq, Eq, Hash, Structural)]
pub enum ScanToolParameter {
    DesiredIdle,
    EngineSpeed,
    IacFlowDutyCycle,
    AbsoluteThrottlePosition,
    ThrottleAngle,
    InjPulseWidthCyl1,
    CoolantTemp,
    VehicleSpeed,
    IntakeAirTemp,
    ManifoldPressure,
    BarometricPressure,
    BatteryVoltage,
    IgnitionAdvance,
    ClosedThrottlePos,
    ElectricLoad,
    FuelCut,
    AcSwitch,
    PspSwitch,
    RadiatorFan,
    CalculatedLoad,
    FuelConsumption,
}

/// A raw byte with 1 added, wrapping 255 around to 0.
pub open spec fn spec_wrapping_inc(b: u8) -> u8 {
    if b == 255 {
        0
    } else {
        (b + 1) as u8
    }
}

/// The raw sample store: one byte per address, keyed by ordinal.
///
/// Every address always has a value, so lookups never miss; the store is
/// overwritten wholesale on each successful poll.
#[derive(Debug, PartialEq, Eq)]
pub struct RawData {
    bytes: Vec<u8>,
}

impl View for RawData {
    type V = Seq<u8>;

    closed spec fn view(&self) -> Seq<u8> {
        self.bytes@
    }
}

impl RawData {
    /// A store with one slot per address.
    pub open spec fn wf(&self) -> bool {
        self@.len() == ADDRESS_COUNT
    }

    /// A fresh store with every address at zero.
    pub fn new() -> (r: RawData)
        ensures
            r.wf(),
            forall|i: int| 0 <= i < ADDRESS_COUNT ==> r@[i] == 0u8,
    {
        let mut bytes: Vec<u8> = Vec::new();
        let mut i: usize = 0;
        while i < ADDRESS_COUNT
            invariant
                i <= ADDRESS_COUNT,
                bytes@.len() == i,
                forall|j: int| 0 <= j < i ==> bytes@[j] == 0u8,
            decreases ADDRESS_COUNT - i,
        {
            bytes.push(0);
            i = i + 1;
        }
        RawData { bytes }
    }

    /// The byte currently stored for an address.
    pub fn get(&self, addr: ObdAddress) -> (b: u8)
        requires
            self.wf(),
        ensures
            b == self@[spec_address_index(addr)],
    {
        let i = addr.index();
        self.bytes[i]
    }

    /// Stores a byte for an address, leaving the other slots alone.
    pub fn set(&mut self, addr: ObdAddress, value: u8)
        requires
            old(self).wf(),
        ensures
            final(self).wf(),
            final(self)@ == old(self)@.update(spec_address_index(addr), value),
    {
        let i = addr.index();
        self.bytes.set(i, value);
    }

    /// Adds 1 to every slot, wrapping: the simulated poll used when no
    /// ECU is on the line.
    pub fn increment_all(&mut self)
        requires
            old(self).wf(),
        ensures
            final(self).wf(),
            forall|i: int|
                0 <= i < ADDRESS_COUNT ==> final(self)@[i] == spec_wrapping_inc(old(self)@[i]),
    {
        let mut i: usize = 0;
        while i < ADDRESS_COUNT
            invariant
                i <= ADDRESS_COUNT,
                self@.len() == ADDRESS_COUNT,
                forall|j: int| 0 <= j < i ==> self@[j] == spec_wrapping_inc(old(self)@[j]),
                forall|j: int| i <= j < ADDRESS_COUNT ==> self@[j] == old(self)@[j],
            decreases ADDRESS_COUNT - i,
        {
            let b = self.bytes[i];
            let incremented: u8 = if b == 255 {
                0
            } else {
                b + 1
            };
            self.bytes.set(i, incremented);
            i = i + 1;
        }
    }
}

/// Nearest integer to `n / d` for `n >= 0` and `d > 0`, ties rounded up.
///
/// All the decode formulas round this way; none of them ever lands on an
/// exact tie, so "ties up" and "ties away from zero" agree.
pub open spec fn spec_round_div(n: int, d: int) -> int {
    (2 * n + d) / (2 * d)
}

/// Desired idle in RPM: `raw * 7.84375`, i.e. `raw * 251 / 32`, rounded.
pub open spec fn spec_desired_idle(raw: u8) -> int {
    (raw * 251 + 16) / 32
}

/// High half of the engine speed: `(raw << 8) / 5.1` RPM, rounded, with
/// `5.1 = 51 / 10`.
pub open spec fn spec_rpm_high(raw: u8) -> int {
    spec_round_div(raw * 2560, 51)
}

/// Low half of the engine speed: `raw / 5.1` RPM, rounded.
pub open spec fn spec_rpm_low(raw: u8) -> int {
    spec_round_div(raw * 10, 51)
}

/// A 0..=100 percentage of the byte range: `raw / 255 * 100`, rounded.
pub open spec fn spec_percent_of_byte(raw: u8) -> int {
    spec_round_div(raw * 20, 51)
}

/// Throttle angle in degrees: `raw * 125 / 255`, rounded.
pub open spec fn spec_tps_angle(raw: u8) -> int {
    spec_round_div(raw * 25, 51)
}

/// Temperature in degrees Celsius: `raw * 160 / 255 - 40`, truncated
/// toward zero.
pub open spec fn spec_temp_celsius(raw: u8) -> int {
    if raw >= 64 {
        (raw * 32 - 2040) / 51
    } else {
        -((2040 - raw * 32) / 51)
    }
}

/// High half of the injector pulse width, in microseconds: the raw byte
/// shifted into the high half of a 16-bit value, times 2 us per count.
pub open spec fn spec_inj_pw_high_us(raw: u8) -> int {
    raw * 512
}

/// Low half of the injector pulse width, in microseconds.
pub open spec fn spec_inj_pw_low_us(raw: u8) -> int {
    raw * 2
}

/// Ignition advance in degrees BTDC: `raw / 255 * 90 - 12`, rounded
/// half away from zero; as a fraction, `(6 * raw - 204) / 17`.
pub open spec fn spec_ignition_advance(raw: u8) -> int {
    if raw >= 34 {
        spec_round_div(6 * raw - 204, 17)
    } else {
        -spec_round_div(204 - 6 * raw, 17)
    }
}

/// Pressure in thousandths of a kPa: `raw / 255 * 166.63 - 20` kPa, the
/// fractional part rounded to the nearest thousandth.
pub open spec fn spec_pressure_mkpa(raw: u8) -> int {
    spec_round_div(raw * 166630, 255) - 20000
}

/// Battery voltage in ten-thousandths of a volt: `raw * 0.0787` V exactly.
pub open spec fn spec_battery_voltage(raw: u8) -> int {
    raw * 787
}

/// Calculated engine load in percent: `(MAP / BARO) * (293.15 / (IAT +
/// 273.15)) * 100` as a signed quotient, rounded half away from zero and
/// clamped to a byte, so a negative ratio reads 0 and an oversized one 255.
/// Both pressures negative — as a zeroed raw store decodes — therefore
/// still give the formula's positive ratio. A zero denominator reads 0.
pub open spec fn spec_calculated_load(map_mkpa: int, baro_mkpa: int, iat_celsius: int) -> int {
    let num = map_mkpa * 2931500;
    let den = baro_mkpa * (100 * iat_celsius + 27315);
    if den == 0 {
        0
    } else if (num < 0) != (den < 0) {
        0
    } else {
        let na = if num < 0 {
            -num
        } else {
            num
        };
        let da = if den < 0 {
            -den
        } else {
            den
        };
        let q = spec_round_div(na, da);
        if q > 255 {
            255
        } else {
            q
        }
    }
}

/// The addresses a normal poll requests, in declaration order: every
/// address except the six fault-code slots.
pub open spec fn spec_polling_bytes() -> Seq<u8> {
    seq![
        0x04u8,
        0x05,
        0x06,
        0x07,
        0x08,
        0x09,
        0x0A,
        0x0B,
        0x0D,
        0x0E,
        0x0F,
        0x10,
        0x11,
        0x12,
        0x16,
        0x19,
        0x1A,
    ]
}

/// The raw store after pairing the first `n` requested addresses with the
/// first `n` response values, in order; a pair whose address byte names no
/// known address changes nothing.
pub open spec fn spec_apply_pairs(store: Seq<u8>, addrs: Seq<u8>, values: Seq<u8>, n: int) -> Seq<
    u8,
>
    decreases n,
{
    if n <= 0 {
        store
    } else {
        let prev = spec_apply_pairs(store, addrs, values, n - 1);
        match spec_address_from_repr(addrs[n - 1] as int) {
            Some(a) => prev.update(spec_address_index(a), values[n - 1]),
            None => prev,
        }
    }
}

/// The instantaneous fields recomputed from a raw store, the accumulated
/// fields carried over untouched.
pub open spec fn spec_apply_raw(pre: EngineContext, raw: Seq<u8>) -> EngineContext {
    EngineContext {
        desired_idle: spec_desired_idle(raw[spec_address_index(ObdAddress::TargetIdle)]) as u16,
        engine_speed: (spec_rpm_high(raw[spec_address_index(ObdAddress::RpmHigh)])
            + spec_rpm_low(raw[spec_address_index(ObdAddress::RpmLow)])) as u16,
        isc_flow_duty: spec_percent_of_byte(
            raw[spec_address_index(ObdAddress::IscFlowDuty)],
        ) as u8,
        absolute_throttle_position: spec_percent_of_byte(
            raw[spec_address_index(ObdAddress::TpsVoltage)],
        ) as u8,
        throttle_angle: spec_tps_angle(raw[spec_address_index(ObdAddress::TpsAngle)]) as u8,
        injector_pulse_width_cyl_1: (spec_inj_pw_high_us(
            raw[spec_address_index(ObdAddress::InjectorPulseWidthHigh)],
        ) + spec_inj_pw_low_us(
            raw[spec_address_index(ObdAddress::InjectorPulseWidthLow)],
        )) as u32,
        coolant_temp: spec_temp_celsius(
            raw[spec_address_index(ObdAddress::EngineCoolantTemperature)],
        ) as i8,
        vehicle_speed: raw[spec_address_index(ObdAddress::VehicleSpeedSensor)],
        intake_air_temperature: spec_temp_celsius(
            raw[spec_address_index(ObdAddress::IntakeAirTemperature)],
        ) as i8,
        manifold_absolute_pressure: spec_pressure_mkpa(
            raw[spec_address_index(ObdAddress::ManifoldAbsolutePressure)],
        ) as i32,
        barometric_pressure: spec_pressure_mkpa(
            raw[spec_address_index(ObdAddress::BarometricPressure)],
        ) as i32,
        battery_voltage: spec_battery_voltage(
            raw[spec_address_index(ObdAddress::BatteryVoltage)],
        ) as u32,
        ignition_advance: spec_ignition_advance(
            raw[spec_address_index(ObdAddress::IgnitionAdvance)],
        ) as i8,
        closed_throttle_position: raw[spec_address_index(ObdAddress::StatusFlags)] & 0x10 != 0,
        electric_load: raw[spec_address_index(ObdAddress::StatusFlags)] & 0x40 != 0,
        fuel_cut: raw[spec_address_index(ObdAddress::InjectorPulseWidthHigh)] == 0
            && raw[spec_address_index(ObdAddress::InjectorPulseWidthLow)] == 0,
        ac_switch: raw[spec_address_index(ObdAddress::StatusFlags)] & 0x04 != 0,
        psp_switch: raw[spec_address_index(ObdAddress::StatusFlags)] & 0x02 != 0,
        radiator_fan: raw[spec_address_index(ObdAddress::RadiatorFan)] == 128,
        calculated_load: spec_calculated_load(
            spec_pressure_mkpa(raw[spec_address_index(ObdAddress::ManifoldAbsolutePressure)]),
            spec_pressure_mkpa(raw[spec_address_index(ObdAddress::BarometricPressure)]),
            spec_temp_celsius(raw[spec_address_index(ObdAddress::IntakeAirTemperature)]),
        ) as u8,
        ..pre
    }
}

/// The scan tool viewer: the raw store of the last poll and the decoded
/// engine snapshot. The transport that fills it lives with the caller.
#[derive(Debug)]
pub struct SuzukiSdlViewer {
    /// ECU identification, once an identification query was answered.
    pub ecu_id: Option<String>,
    /// The raw byte of every address, from the most recent poll.
    pub raw_data: RawData,
    /// The decoded snapshot and trip statistics.
    pub engine_context: EngineContext,
}

impl SuzukiSdlViewer {
    /// A viewer whose raw store has one slot per address.
    pub open spec fn wf(&self) -> bool {
        self.raw_data.wf()
    }

    /// A fresh viewer: no ECU id, all raw bytes zero, zeroed snapshot.
    pub fn new() -> (r: SuzukiSdlViewer)
        ensures
            r.wf(),
            r.ecu_id is None,
            forall|i: int| 0 <= i < ADDRESS_COUNT ==> r.raw_data@[i] == 0u8,
            r.engine_context == spec_default_context(),
    {
        SuzukiSdlViewer {
            ecu_id: None,
            raw_data: RawData::new(),
            engine_context: EngineContext::new(),
        }
    }

    /// Desired idle in RPM.
    pub fn calculate_desired_idle(raw: u8) -> (r: u16)
        ensures
            r == spec_desired_idle(raw),
            r <= 2000,
    {
        (((raw as u32) * 251 + 16) / 32) as u16
    }

    /// RPM contribution of the high engine-speed byte.
    pub fn calculate_rpm_high(raw: u8) -> (r: u16)
        ensures
            r == spec_rpm_high(raw),
            r <= 12800,
    {
        (((raw as u32) * 5120 + 51) / 102) as u16
    }

    /// RPM contribution of the low engine-speed byte.
    pub fn calculate_rpm_low(raw: u8) -> (r: u16)
        ensures
            r == spec_rpm_low(raw),
            r <= 50,
    {
        (((raw as u32) * 20 + 51) / 102) as u16
    }

    /// Idle-speed-control flow duty as a percentage.
    pub fn calculate_isc_flow_duty(raw: u8) -> (r: u8)
        ensures
            r == spec_percent_of_byte(raw),
            r <= 100,
    {
        (((raw as u32) * 40 + 51) / 102) as u8
    }

    /// Throttle angle in degrees.
    pub fn calculate_tps_angle(raw: u8) -> (r: u8)
        ensures
            r == spec_tps_angle(raw),
            r <= 125,
    {
        (((raw as u32) * 50 + 51) / 102) as u8
    }

    /// Coolant or intake temperature in degrees Celsius.
    pub fn calculate_temps(raw: u8) -> (r: i8)
        ensures
            r as int == spec_temp_celsius(raw),
            -40 <= r <= 120,
    {
        if raw >= 64 {
            ((((raw as u32) * 32 - 2040) / 51) as u8) as i8
        } else {
            -((((2040 - (raw as u32) * 32) / 51) as u8) as i8)
        }
    }

    /// High half of the injector pulse width, in microseconds.
    pub fn calculate_inj_pw_high(raw: u8) -> (r: u32)
        ensures
            r == spec_inj_pw_high_us(raw),
            r <= 130560,
    {
        (raw as u32) * 512
    }

    /// Low half of the injector pulse width, in microseconds.
    pub fn calculate_inj_pw_low(raw: u8) -> (r: u32)
        ensures
            r == spec_inj_pw_low_us(raw),
            r <= 510,
    {
        (raw as u32) * 2
    }

    /// Ignition advance in degrees BTDC.
    pub fn calculate_ignition_advance(raw: u8) -> (r: i8)
        ensures
            r as int == spec_ignition_advance(raw),
            -12 <= r <= 78,
    {
        if raw >= 34 {
            (((2 * (6 * (raw as u32) - 204) + 17) / 34) as u8) as i8
        } else {
            -((((2 * (204 - 6 * (raw as u32)) + 17) / 34) as u8) as i8)
        }
    }

    /// Manifold or barometric pressure in thousandths of a kPa.
    pub fn calculate_pressure(raw: u8) -> (r: i32)
        ensures
            r as int == spec_pressure_mkpa(raw),
            -20000 <= r <= 146630,
    {
        ((((raw as u64) * 333260 + 255) / 510) as i32) - 20000
    }

    /// Whether the A/C compressor bit of the status byte is set.
    pub fn calculate_ac_flag(raw: u8) -> (r: bool)
        ensures
            r == (raw & 0x04 != 0),
    {
        raw & 0x04 != 0
    }

    /// Whether the closed-throttle bit of the status byte is set.
    pub fn calculate_ctp_flag(raw: u8) -> (r: bool)
        ensures
            r == (raw & 0x10 != 0),
    {
        raw & 0x10 != 0
    }

    /// Whether the power-steering bit of the status byte is set.
    pub fn calculate_psp_flag(raw: u8) -> (r: bool)
        ensures
            r == (raw & 0x02 != 0),
    {
        raw & 0x02 != 0
    }

    /// Whether the electric-load bit of the status byte is set.
    pub fn calculate_el_flag(raw: u8) -> (r: bool)
        ensures
            r == (raw & 0x40 != 0),
    {
        raw & 0x40 != 0
    }

    /// Whether the radiator-fan byte reads exactly 128.
    pub fn calculate_rad_flag(raw: u8) -> (r: bool)
        ensures
            r == (raw == 128),
    {
        raw == 128
    }

    /// Battery voltage in ten-thousandths of a volt.
    pub fn calculate_battery_voltage(raw: u8) -> (r: u32)
        ensures
            r == spec_battery_voltage(raw),
            r <= 200685,
    {
        (raw as u32) * 787
    }

    /// Calculated engine load from the two pressures and the intake
    /// temperature, as a clamped byte percentage.
    pub fn calculate_load(map_mkpa: i32, baro_mkpa: i32, iat_celsius: i8) -> (r: u8)
        ensures
            r as int == spec_calculated_load(map_mkpa as int, baro_mkpa as int, iat_celsius as int),
    {
        let kelvin_scaled: i64 = 100 * (iat_celsius as i64) + 27315;
        let num: i64 = (map_mkpa as i64) * 2931500;
        if baro_mkpa == 0 {
            proof {
                assert((0int) * (kelvin_scaled as int) == 0) by (nonlinear_arith);
            }
            return 0;
        }
        proof {
            assert({
                let d = (baro_mkpa as int) * (kelvin_scaled as int);
                &&& d != 0
                &&& -(0x8000_0000int * 40115) <= d
                &&& d <= 0x8000_0000int * 40115
                &&& (baro_mkpa < 0 ==> d < 0)
                &&& (baro_mkpa > 0 ==> d > 0)
            }) by (nonlinear_arith)
                requires
                    baro_mkpa != 0,
                    -0x8000_0000i64 <= baro_mkpa <= 0x7FFF_FFFFi64,
                    14515 <= kelvin_scaled <= 40115,
            ;
        }
        let den: i64 = (baro_mkpa as i64) * kelvin_scaled;
        let num_neg = num < 0;
        let den_neg = den < 0;
        if num_neg != den_neg {
            return 0;
        }
        let na: u64 = if num_neg {
            (-num) as u64
        } else {
            num as u64
        };
        let da: u64 = if den_neg {
            (-den) as u64
        } else {
            den as u64
        };
        let q: u64 = (2 * na + da) / (2 * da);
        if q > 255 {
            255
        } else {
            q as u8
        }
    }

    /// The bulk data query that polls every non-fault-code address.
    pub fn data_request_message() -> (m: SdlMessage)
        ensures
            spec_message_wf(m),
            m.header == SdlHeader::Data,
            spec_payload(m) == spec_polling_bytes(),
    {
        let mut addrs: Vec<u8> = Vec::new();
        addrs.push(0x04);
        addrs.push(0x05);
        addrs.push(0x06);
        addrs.push(0x07);
        addrs.push(0x08);
        addrs.push(0x09);
        addrs.push(0x0A);
        addrs.push(0x0B);
        addrs.push(0x0D);
        addrs.push(0x0E);
        addrs.push(0x0F);
        addrs.push(0x10);
        addrs.push(0x11);
        addrs.push(0x12);
        addrs.push(0x16);
        addrs.push(0x19);
        addrs.push(0x1A);
        proof {
            assert(addrs@ =~= spec_polling_bytes());
        }
        SdlMessage::new(SdlHeader::Data, Some(addrs))
    }

    /// One simulated poll: every raw byte gains 1, wrapping; nothing else
    /// moves. Used when no ECU is on the line.
    pub fn simulate_poll(&mut self)
        requires
            old(self).wf(),
        ensures
            final(self).wf(),
            forall|i: int|
                0 <= i < ADDRESS_COUNT ==> final(self).raw_data@[i] == spec_wrapping_inc(
                    old(self).raw_data@[i],
                ),
            final(self).ecu_id == old(self).ecu_id,
            final(self).engine_context == old(self).engine_context,
    {
        self.raw_data.increment_all();
    }

    /// Decodes a poll response and overwrites the raw store with its
    /// values, pairing them with the requested addresses in order.
    ///
    /// A malformed response changes nothing and reports why, so the caller
    /// keeps its previous raw data and polls again next cycle.
    pub fn apply_data_response(&mut self, response_bytes: &[u8]) -> (r: Result<(), DecodeError>)
        requires
            old(self).wf(),
        ensures
            final(self).wf(),
            final(self).ecu_id == old(self).ecu_id,
            final(self).engine_context == old(self).engine_context,
            (match r {
                Ok(()) => {
                    &&& spec_decode_err(response_bytes@) is None
                    &&& final(self).raw_data@ == spec_apply_pairs(
                        old(self).raw_data@,
                        spec_polling_bytes(),
                        spec_decoded_payload(response_bytes@),
                        if spec_decoded_payload(response_bytes@).len() < 17 {
                            spec_decoded_payload(response_bytes@).len() as int
                        } else {
                            17
                        },
                    )
                },
                Err(e) => {
                    &&& spec_decode_err(response_bytes@) == Some(e)
                    &&& final(self).raw_data@ == old(self).raw_data@
                },
            }),
    {
        let response = match SdlMessage::try_from(response_bytes) {
            Ok(m) => m,
            Err(e) => {
                return Err(e);
            },
        };
        let values = match response.data {
            Some(v) => v,
            None => {
                return Err(DecodeError::FrameTooShort);
            },
        };
        let request = Self::data_request_message();
        let addrs = match request.data {
            Some(a) => a,
            None => {
                return Err(DecodeError::FrameTooShort);
            },
        };
        let n: usize = if values.len() < addrs.len() {
            values.len()
        } else {
            addrs.len()
        };
        let mut i: usize = 0;
        while i < n
            invariant
                i <= n,
                n <= addrs@.len(),
                n <= values@.len(),
                addrs@ == spec_polling_bytes(),
                values@ == spec_decoded_payload(response_bytes@),
                self.wf(),
                self.ecu_id == old(self).ecu_id,
                self.engine_context == old(self).engine_context,
                self.raw_data@ == spec_apply_pairs(
                    old(self).raw_data@,
                    spec_polling_bytes(),
                    spec_decoded_payload(response_bytes@),
                    i as int,
                ),
            decreases n - i,
        {
            if let Some(obd_addr) = ObdAddress::from_repr(addrs[i] as usize) {
                self.raw_data.set(obd_addr, values[i]);
            }
            i = i + 1;
        }
        Ok(())
    }

    /// Recomputes every instantaneous field from the raw store, then
    /// integrates the elapsed time into the trip statistics and records
    /// the poll timestamp.
    pub fn update_processed_data(&mut self, now_ms: u64)
        requires
            old(self).wf(),
        ensures
            final(self).wf(),
            final(self).ecu_id == old(self).ecu_id,
            final(self).raw_data@ == old(self).raw_data@,
            final(self).engine_context == spec_integrate(
                spec_apply_raw(old(self).engine_context, old(self).raw_data@),
                now_ms,
            ),
    {
        let desired_idle = Self::calculate_desired_idle(self.raw_data.get(ObdAddress::TargetIdle));
        let rpm_high = Self::calculate_rpm_high(self.raw_data.get(ObdAddress::RpmHigh));
        let rpm_low = Self::calculate_rpm_low(self.raw_data.get(ObdAddress::RpmLow));
        let isc_flow_duty = Self::calculate_isc_flow_duty(
            self.raw_data.get(ObdAddress::IscFlowDuty),
        );
        let absolute_throttle_position = Self::calculate_isc_flow_duty(
            self.raw_data.get(ObdAddress::TpsVoltage),
        );
        let throttle_angle = Self::calculate_tps_angle(self.raw_data.get(ObdAddress::TpsAngle));
        let pw_high = Self::calculate_inj_pw_high(
            self.raw_data.get(ObdAddress::InjectorPulseWidthHigh),
        );
        let pw_low = Self::calculate_inj_pw_low(
            self.raw_data.get(ObdAddress::InjectorPulseWidthLow),
        );
        let coolant_temp = Self::calculate_temps(
            self.raw_data.get(ObdAddress::EngineCoolantTemperature),
        );
        let intake_air_temperature = Self::calculate_temps(
            self.raw_data.get(ObdAddress::IntakeAirTemperature),
        );
        let vehicle_speed = self.raw_data.get(ObdAddress::VehicleSpeedSensor);
        let manifold_absolute_pressure = Self::calculate_pressure(
            self.raw_data.get(ObdAddress::ManifoldAbsolutePressure),
        );
        let barometric_pressure = Self::calculate_pressure(
            self.raw_data.get(ObdAddress::BarometricPressure),
        );
        let battery_voltage = Self::calculate_battery_voltage(
            self.raw_data.get(ObdAddress::BatteryVoltage),
        );
        let ignition_advance = Self::calculate_ignition_advance(
            self.raw_data.get(ObdAddress::IgnitionAdvance),
        );
        let status = self.raw_data.get(ObdAddress::StatusFlags);
        let radiator_fan = Self::calculate_rad_flag(self.raw_data.get(ObdAddress::RadiatorFan));
        let fuel_cut = self.raw_data.get(ObdAddress::InjectorPulseWidthHigh) == 0
            && self.raw_data.get(ObdAddress::InjectorPulseWidthLow) == 0;
        let calculated_load = Self::calculate_load(
            manifold_absolute_pressure,
            barometric_pressure,
            intake_air_temperature,
        );

        self.engine_context.desired_idle = desired_idle;
        self.engine_context.engine_speed = rpm_high + rpm_low;
        self.engine_context.isc_flow_duty = isc_flow_duty;
        self.engine_context.absolute_throttle_position = absolute_throttle_position;
        self.engine_context.throttle_angle = throttle_angle;
        self.engine_context.injector_pulse_width_cyl_1 = pw_high + pw_low;
        self.engine_context.coolant_temp = coolant_temp;
        self.engine_context.vehicle_speed = vehicle_speed;
        self.engine_context.intake_air_temperature = intake_air_temperature;
        self.engine_context.manifold_absolute_pressure = manifold_absolute_pressure;
        self.engine_context.barometric_pressure = barometric_pressure;
        self.engine_context.battery_voltage = battery_voltage;
        self.engine_context.ignition_advance = ignition_advance;
        self.engine_context.closed_throttle_position = Self::calculate_ctp_flag(status);
        self.engine_context.electric_load = Self::calculate_el_flag(status);
        self.engine_context.fuel_cut = fuel_cut;
        self.engine_context.ac_switch = Self::calculate_ac_flag(status);
        self.engine_context.psp_switch = Self::calculate_psp_flag(status);
        self.engine_context.radiator_fan = radiator_fan;
        self.engine_context.calculated_load = calculated_load;
        proof {
            assert(self.engine_context == spec_apply_raw(
                old(self).engine_context,
                old(self).raw_data@,
            ));
        }
        self.engine_context.integrate_fuel(now_ms);
    }
}

} // verus!
