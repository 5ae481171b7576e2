//! Data types of the Signbus inter-module protocol over I2C: frame and API
//! types, the network header carried by every packet, and the layer objects.
use vstd::prelude::*;
use crate::return_code::ReturnCode;

verus! {

#[allow(non_camel_case_types)]
#[derive(Clone, Copy, Debug, PartialEq, Eq, Structural)]
pub enum signbus_frame_type_t {
    NotificationFrame,
    CommandFrame,
    ResponseFrame,
    ErrorFrame,
}

impl signbus_frame_type_t {
    /// The frame type's code on the wire.
    pub open spec fn code_spec(self) -> u8 {
        match self {
            signbus_frame_type_t::NotificationFrame => 0,
            signbus_frame_type_t::CommandFrame => 1,
            signbus_frame_type_t::ResponseFrame => 2,
            signbus_frame_type_t::ErrorFrame => 3,
        }
    }

    pub fn code(self) -> (r: u8)
        ensures
            r == self.code_spec(),
    {
        match self {
            signbus_frame_type_t::NotificationFrame => 0,
            signbus_frame_type_t::CommandFrame => 1,
            signbus_frame_type_t::ResponseFrame => 2,
            signbus_frame_type_t::ErrorFrame => 3,
        }
    }
}

#[allow(non_camel_case_types)]
#[derive(Clone, Copy, Debug, PartialEq, Eq, Structural)]
pub enum signbus_api_type_t {
    InitializationApiType,
    StorageApiType,
    NetworkingApiType,
    ProcessingApiType,
    EnergyApiType,
    TimeLocationApiType,
    EdisonApiType,
    JsonApiType,
    WatchdogApiType,
    HighestApiType,
}

impl signbus_api_type_t {
    /// The API type's code on the wire, from 1 to 10 in declaration order.
    pub open spec fn code_spec(self) -> u8 {
        match self {
            signbus_api_type_t::InitializationApiType => 1,
            signbus_api_type_t::StorageApiType => 2,
            signbus_api_type_t::NetworkingApiType => 3,
            signbus_api_type_t::ProcessingApiType => 4,
            signbus_api_type_t::EnergyApiType => 5,
            signbus_api_type_t::TimeLocationApiType => 6,
            signbus_api_type_t::EdisonApiType => 7,
            signbus_api_type_t::JsonApiType => 8,
            signbus_api_type_t::WatchdogApiType => 9,
            signbus_api_type_t::HighestApiType => 10,
        }
    }

    pub fn code(self) -> (r: u8)
        ensures
            r == self.code_spec(),
    {
        match self {
            signbus_api_type_t::InitializationApiType => 1,
            signbus_api_type_t::StorageApiType => 2,
            signbus_api_type_t::NetworkingApiType => 3,
            signbus_api_type_t::ProcessingApiType => 4,
            signbus_api_type_t::EnergyApiType => 5,
            signbus_api_type_t::TimeLocationApiType => 6,
            signbus_api_type_t::EdisonApiType => 7,
            signbus_api_type_t::JsonApiType => 8,
            signbus_api_type_t::WatchdogApiType => 9,
            signbus_api_type_t::HighestApiType => 10,
        }
    }
}

/// Flags of a network header.
#[derive(Clone, Copy, Debug, PartialEq, Eq, Structural)]
pub struct SignbusNetworkFlags {
    pub is_fragment: bool,
    pub is_encrypted: bool,
    pub rsv_wire_bit5: bool,
    pub rsv_wire_bit4: bool,
    pub version: u8,
}

/// The header that precedes the data of every packet. The multi-byte fields
/// hold network byte order.
#[derive(Clone, Copy, Debug, PartialEq, Eq, Structural)]
pub struct SignbusNetworkHeader {
    pub flags: SignbusNetworkFlags,
    pub src: u8,
    pub sequence_number: u16,
    pub length: u16,
    pub fragment_offset: u16,
}

/// A header and the data it describes.
#[derive(Clone, Debug)]
pub struct Packet {
    pub header: SignbusNetworkHeader,
    pub data: Vec<u8>,
}

/// `a` with its two bytes swapped.
pub open spec fn swap_bytes(a: u16) -> u16 {
    ((a % 256) * 256 + a / 256) as u16
}

/// Host to network order for a 16-bit value on this little-endian machine:
/// the two bytes swap.
pub fn htons(a: u16) -> (r: u16)
    ensures
        r == swap_bytes(a),
{
    (a % 256) * 256 + a / 256
}

/// The highest 7-bit I2C address.
pub const MAX_I2C_ADDRESS: u8 = 0x7f;

/// The bus endpoint of this module.
pub struct Signbus {
    slave_address: u8,
}

impl Signbus {
    pub closed spec fn slave_address(&self) -> u8 {
        self.slave_address
    }

    /// An endpoint without an address yet (address 0).
    pub fn new() -> (r: Signbus)
        ensures
            r.slave_address() == 0,
    {
        Signbus { slave_address: 0 }
    }

    pub fn get_slave_address(&self) -> (r: u8)
        ensures
            r == self.slave_address(),
    {
        self.slave_address
    }

    /// Takes `i2c_address` as this module's address. An address beyond 7
    /// bits is refused with `EINVAL` and the address stays as it was.
    pub fn signbus_io_init(&mut self, i2c_address: u8) -> (r: ReturnCode)
        ensures
            i2c_address <= MAX_I2C_ADDRESS ==> r == ReturnCode::SUCCESS && final(self).slave_address()
                == i2c_address,
            i2c_address > MAX_I2C_ADDRESS ==> r == ReturnCode::EINVAL && final(self).slave_address()
                == old(self).slave_address(),
    {
        if i2c_address > MAX_I2C_ADDRESS {
            return ReturnCode::EINVAL;
        }
        self.slave_address = i2c_address;
        ReturnCode::SUCCESS
    }
}

/// The application layer, on top of a protocol layer `P`.
pub struct SignbusAppLayer<'a, P> {
    signbus_protocol_layer: &'a P,
}

impl<'a, P> SignbusAppLayer<'a, P> {
    pub closed spec fn protocol_layer(&self) -> P {
        *self.signbus_protocol_layer
    }

    pub fn new(signbus_protocol_layer: &'a P) -> (r: SignbusAppLayer<'a, P>)
        ensures
            r.protocol_layer() == *signbus_protocol_layer,
    {
        SignbusAppLayer { signbus_protocol_layer }
    }

    pub fn get_protocol_layer(&self) -> (r: &'a P)
        ensures
            *r == self.protocol_layer(),
    {
        self.signbus_protocol_layer
    }
}

} // verus!
