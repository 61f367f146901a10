//! The eight-byte setup packet that starts a USB control transfer.
use vstd::prelude::*;

use crate::bitfield::{
    get_bit, get_field, lemma_field_mask_values, lemma_set_field_fits, read_bit,
    read_field, set_bit, set_field, write_bit, write_field,
};

verus! {

/// The bmRequestType byte of a setup packet.
#[derive(Clone, Copy, Debug, PartialEq, Eq, Structural, PartialOrd, Ord)]
pub struct BmRequestType {
    raw: u8,
}

impl View for BmRequestType {
    type V = u8;

    closed spec fn view(&self) -> u8 {
        self.raw
    }
}

impl BmRequestType {
    /// The byte value whose bits are `raw`.
    pub fn new_with_raw_value(raw: u8) -> (r: Self)
        ensures
            r@ == raw,
    {
        Self { raw }
    }

    /// The bits of this value.
    pub fn raw_value(&self) -> (r: u8)
        ensures
            r == self@,
    {
        self.raw
    }

    /// The recipient of the request.
    pub fn recipient(&self) -> (r: u8)
        ensures
            r == get_field(self@ as u32, 0, 5),
            r <= 0x1f,
    {
        proof {
            lemma_field_mask_values();
        }
        read_field(self.raw as u32, 0, 5) as u8
    }

    /// This value with `recipient` set to `value`.
    pub fn with_recipient(self, value: u8) -> (r: Self)
        requires
            value <= 0x1f,
        ensures
            r@ == set_field(self@ as u32, 0, 5, value as u32),
    {
        proof {
            lemma_field_mask_values();
            lemma_set_field_fits(self.raw as u32, 0, 5, value as u32, 8);
        }
        Self { raw: write_field(self.raw as u32, 0, 5, value as u32) as u8 }
    }

    /// The type of the request.
    pub fn request_type(&self) -> (r: u8)
        ensures
            r == get_field(self@ as u32, 5, 2),
            r <= 0x3,
    {
        proof {
            lemma_field_mask_values();
        }
        read_field(self.raw as u32, 5, 2) as u8
    }

    /// This value with `request_type` set to `value`.
    pub fn with_request_type(self, value: u8) -> (r: Self)
        requires
            value <= 0x3,
        ensures
            r@ == set_field(self@ as u32, 5, 2, value as u32),
    {
        proof {
            lemma_field_mask_values();
            lemma_set_field_fits(self.raw as u32, 5, 2, value as u32, 8);
        }
        Self { raw: write_field(self.raw as u32, 5, 2, value as u32) as u8 }
    }

    /// The direction of the data stage: set for device to host.
    pub fn direction(&self) -> (r: bool)
        ensures
            r == get_bit(self@ as u32, 7),
    {
        read_bit(self.raw as u32, 7)
    }

    /// This value with `direction` set to `value`.
    pub fn with_direction(self, value: bool) -> (r: Self)
        ensures
            r@ == set_bit(self@ as u32, 7, value),
    {
        proof {
            lemma_field_mask_values();
            lemma_set_field_fits(self.raw as u32, 7, 1, if value { 1u32 } else { 0u32 }, 8);
        }
        Self { raw: write_bit(self.raw as u32, 7, value) as u8 }
    }
}

/// The recipient of a request.
#[derive(Debug, Clone, Copy, PartialEq, Eq, Structural, PartialOrd, Ord)]
pub enum Recipient {
    Device,
    Interface,
    Endpoint,
    Other,
}

impl Recipient {
    /// The number that encodes this recipient.
    pub open spec fn value_spec(self) -> u8 {
        match self {
            Recipient::Device => 0,
            Recipient::Interface => 1,
            Recipient::Endpoint => 2,
            Recipient::Other => 3,
        }
    }

    /// The number that encodes this recipient.
    pub fn value(self) -> (r: u8)
        ensures
            r == self.value_spec(),
    {
        match self {
            Recipient::Device => 0,
            Recipient::Interface => 1,
            Recipient::Endpoint => 2,
            Recipient::Other => 3,
        }
    }

    /// The value that `value` encodes, if any.
    pub open spec fn from_value_spec(value: u8) -> Option<Self> {
        if value == 0 {
            Some(Recipient::Device)
        } else if value == 1 {
            Some(Recipient::Interface)
        } else if value == 2 {
            Some(Recipient::Endpoint)
        } else if value == 3 {
            Some(Recipient::Other)
        } else {
            None
        }
    }

    /// The value that `value` encodes, if any.
    pub fn from_value(value: u8) -> (r: Option<Self>)
        ensures
            r == Self::from_value_spec(value),
    {
        if value == 0 {
            Some(Recipient::Device)
        } else if value == 1 {
            Some(Recipient::Interface)
        } else if value == 2 {
            Some(Recipient::Endpoint)
        } else if value == 3 {
            Some(Recipient::Other)
        } else {
            None
        }
    }
}

/// The type of a request.
#[derive(Debug, Clone, Copy, PartialEq, Eq, Structural, PartialOrd, Ord)]
pub enum RequestType {
    Standard,
    Class,
    Vendor,
}

impl RequestType {
    /// The number that encodes this request type.
    pub open spec fn value_spec(self) -> u8 {
        match self {
            RequestType::Standard => 0,
            RequestType::Class => 1,
            RequestType::Vendor => 2,
        }
    }

    /// The number that encodes this request type.
    pub fn value(self) -> (r: u8)
        ensures
            r == self.value_spec(),
    {
        match self {
            RequestType::Standard => 0,
            RequestType::Class => 1,
            RequestType::Vendor => 2,
        }
    }

    /// The value that `value` encodes, if any.
    pub open spec fn from_value_spec(value: u8) -> Option<Self> {
        if value == 0 {
            Some(RequestType::Standard)
        } else if value == 1 {
            Some(RequestType::Class)
        } else if value == 2 {
            Some(RequestType::Vendor)
        } else {
            None
        }
    }

    /// The value that `value` encodes, if any.
    pub fn from_value(value: u8) -> (r: Option<Self>)
        ensures
            r == Self::from_value_spec(value),
    {
        if value == 0 {
            Some(RequestType::Standard)
        } else if value == 1 {
            Some(RequestType::Class)
        } else if value == 2 {
            Some(RequestType::Vendor)
        } else {
            None
        }
    }
}

/// The direction of the data stage of a control transfer.
#[derive(Debug, Clone, Copy, PartialEq, Eq, Structural, PartialOrd, Ord)]
pub enum Direction {
    HostToDeviceOrNoDataTransfer,
    DeviceToHost,
}

impl Direction {
    /// The number that encodes this direction.
    pub open spec fn value_spec(self) -> u8 {
        match self {
            Direction::HostToDeviceOrNoDataTransfer => 0,
            Direction::DeviceToHost => 1,
        }
    }

    /// The number that encodes this direction.
    pub fn value(self) -> (r: u8)
        ensures
            r == self.value_spec(),
    {
        match self {
            Direction::HostToDeviceOrNoDataTransfer => 0,
            Direction::DeviceToHost => 1,
        }
    }

    /// The direction bit of bmRequestType: set for device to host.
    pub fn bit(self) -> (r: bool)
        ensures
            r == (self == Direction::DeviceToHost),
    {
        match self {
            Direction::HostToDeviceOrNoDataTransfer => false,
            Direction::DeviceToHost => true,
        }
    }

    /// The value that `value` encodes, if any.
    pub open spec fn from_value_spec(value: u8) -> Option<Self> {
        if value == 0 {
            Some(Direction::HostToDeviceOrNoDataTransfer)
        } else if value == 1 {
            Some(Direction::DeviceToHost)
        } else {
            None
        }
    }

    /// The value that `value` encodes, if any.
    pub fn from_value(value: u8) -> (r: Option<Self>)
        ensures
            r == Self::from_value_spec(value),
    {
        if value == 0 {
            Some(Direction::HostToDeviceOrNoDataTransfer)
        } else if value == 1 {
            Some(Direction::DeviceToHost)
        } else {
            None
        }
    }
}

/// The standard requests (bRequest).
#[derive(Debug, Clone, Copy, PartialEq, Eq, Structural, PartialOrd, Ord)]
pub enum BRequest {
    GetStatus,
    ClearFeature,
    SetFeature,
    SetAddress,
    GetDescriptor,
    SetDescriptor,
    GetConfiguration,
    SetConfiguration,
}

impl BRequest {
    /// The request code.
    pub open spec fn value_spec(self) -> u8 {
        match self {
            BRequest::GetStatus => 0,
            BRequest::ClearFeature => 1,
            BRequest::SetFeature => 3,
            BRequest::SetAddress => 5,
            BRequest::GetDescriptor => 6,
            BRequest::SetDescriptor => 7,
            BRequest::GetConfiguration => 8,
            BRequest::SetConfiguration => 9,
        }
    }

    /// The request code.
    pub fn value(self) -> (r: u8)
        ensures
            r == self.value_spec(),
    {
        match self {
            BRequest::GetStatus => 0,
            BRequest::ClearFeature => 1,
            BRequest::SetFeature => 3,
            BRequest::SetAddress => 5,
            BRequest::GetDescriptor => 6,
            BRequest::SetDescriptor => 7,
            BRequest::GetConfiguration => 8,
            BRequest::SetConfiguration => 9,
        }
    }

    /// The value that `value` encodes, if any.
    pub open spec fn from_value_spec(value: u8) -> Option<Self> {
        if value == 0 {
            Some(BRequest::GetStatus)
        } else if value == 1 {
            Some(BRequest::ClearFeature)
        } else if value == 3 {
            Some(BRequest::SetFeature)
        } else if value == 5 {
            Some(BRequest::SetAddress)
        } else if value == 6 {
            Some(BRequest::GetDescriptor)
        } else if value == 7 {
            Some(BRequest::SetDescriptor)
        } else if value == 8 {
            Some(BRequest::GetConfiguration)
        } else if value == 9 {
            Some(BRequest::SetConfiguration)
        } else {
            None
        }
    }

    /// The value that `value` encodes, if any.
    pub fn from_value(value: u8) -> (r: Option<Self>)
        ensures
            r == Self::from_value_spec(value),
    {
        if value == 0 {
            Some(BRequest::GetStatus)
        } else if value == 1 {
            Some(BRequest::ClearFeature)
        } else if value == 3 {
            Some(BRequest::SetFeature)
        } else if value == 5 {
            Some(BRequest::SetAddress)
        } else if value == 6 {
            Some(BRequest::GetDescriptor)
        } else if value == 7 {
            Some(BRequest::SetDescriptor)
        } else if value == 8 {
            Some(BRequest::GetConfiguration)
        } else if value == 9 {
            Some(BRequest::SetConfiguration)
        } else {
            None
        }
    }
}

/// Descriptor types.
#[derive(Debug, Clone, Copy, PartialEq, Eq, Structural, PartialOrd, Ord)]
pub enum DescriptorType {
    Device,
}

impl DescriptorType {
    /// The descriptor type code.
    pub open spec fn value_spec(self) -> u8 {
        match self {
            DescriptorType::Device => 1,
        }
    }

    /// The descriptor type code.
    pub fn value(self) -> (r: u8)
        ensures
            r == self.value_spec(),
    {
        match self {
            DescriptorType::Device => 1,
        }
    }

    /// The value that `value` encodes, if any.
    pub open spec fn from_value_spec(value: u8) -> Option<Self> {
        if value == 1 {
            Some(DescriptorType::Device)
        } else {
            None
        }
    }

    /// The value that `value` encodes, if any.
    pub fn from_value(value: u8) -> (r: Option<Self>)
        ensures
            r == Self::from_value_spec(value),
    {
        if value == 1 {
            Some(DescriptorType::Device)
        } else {
            None
        }
    }
}

/// Decoding the code of a value gives the value back, and a code that
/// decodes is the code of what it decodes to.
pub proof fn lemma_recipient_codes(x: Recipient, value: u8)
    ensures
        Recipient::from_value_spec(x.value_spec()) == Some(x),
        Recipient::from_value_spec(value) matches Some(y) ==> y.value_spec() == value,
{
}

/// Decoding the code of a value gives the value back, and a code that
/// decodes is the code of what it decodes to.
pub proof fn lemma_request_type_codes(x: RequestType, value: u8)
    ensures
        RequestType::from_value_spec(x.value_spec()) == Some(x),
        RequestType::from_value_spec(value) matches Some(y) ==> y.value_spec() == value,
{
}

/// Decoding the code of a value gives the value back, and a code that
/// decodes is the code of what it decodes to.
pub proof fn lemma_direction_codes(x: Direction, value: u8)
    ensures
        Direction::from_value_spec(x.value_spec()) == Some(x),
        Direction::from_value_spec(value) matches Some(y) ==> y.value_spec() == value,
{
}

/// Decoding the code of a value gives the value back, and a code that
/// decodes is the code of what it decodes to.
pub proof fn lemma_b_request_codes(x: BRequest, value: u8)
    ensures
        BRequest::from_value_spec(x.value_spec()) == Some(x),
        BRequest::from_value_spec(value) matches Some(y) ==> y.value_spec() == value,
{
}

/// Decoding the code of a value gives the value back, and a code that
/// decodes is the code of what it decodes to.
pub proof fn lemma_descriptor_type_codes(x: DescriptorType, value: u8)
    ensures
        DescriptorType::from_value_spec(x.value_spec()) == Some(x),
        DescriptorType::from_value_spec(value) matches Some(y) ==> y.value_spec() == value,
{
}

/// bmRequestType of a standard request to the device from host to device, and from device to host.
pub proof fn lemma_standard_device_request_types()
    by (bit_vector)
    ensures
        set_bit(set_field(set_field(0u32, 0, 5, 0u32), 5, 2, 0u32), 7, false) == 0x00u32,
        set_bit(set_field(set_field(0u32, 0, 5, 0u32), 5, 2, 0u32), 7, true) == 0x80u32,
{
}

/// A setup packet: the fields of a control request, laid out as on the bus.
#[derive(Debug, Clone, Copy, PartialEq, Eq, PartialOrd, Ord)]
pub struct SetupPacket {
    bm_request_type: u8,
    b_request: u8,
    w_value: [u8; 2],
    w_index: [u8; 2],
    w_length: [u8; 2],
}

impl View for SetupPacket {
    type V = Seq<u8>;

    /// The eight bytes of the packet in bus order.
    closed spec fn view(&self) -> Seq<u8> {
        seq![
            self.bm_request_type,
            self.b_request,
            self.w_value[0],
            self.w_value[1],
            self.w_index[0],
            self.w_index[1],
            self.w_length[0],
            self.w_length[1],
        ]
    }
}

impl SetupPacket {
    /// GET_DESCRIPTOR for the device descriptor, reading `w_length` bytes.
    pub fn new_get_descriptor(w_length: u16) -> (r: Self)
        ensures
            r@ == seq![0x80u8, 6, 0, 1, 0, 0, (w_length % 256) as u8, (w_length / 256) as u8],
    {
        proof {
            lemma_standard_device_request_types();
            lemma_field_mask_values();
        }
        let bm = BmRequestType::new_with_raw_value(0)
            .with_recipient(Recipient::Device.value())
            .with_request_type(RequestType::Standard.value())
            .with_direction(Direction::DeviceToHost.bit())
            .raw_value();
        Self {
            bm_request_type: bm,
            b_request: BRequest::GetDescriptor.value(),
            w_value: [0x00, DescriptorType::Device.value()],
            w_index: [0, 0],
            w_length: [(w_length % 256) as u8, (w_length / 256) as u8],
        }
    }

    /// SET_ADDRESS, giving the device the address `new_address`.
    pub fn new_set_address(new_address: u8) -> (r: Self)
        requires
            new_address <= 0x7f,
        ensures
            r@ == seq![0x00u8, 5, new_address, 0, 0, 0, 0, 0],
    {
        proof {
            lemma_standard_device_request_types();
            lemma_field_mask_values();
        }
        let bm = BmRequestType::new_with_raw_value(0)
            .with_recipient(Recipient::Device.value())
            .with_request_type(RequestType::Standard.value())
            .with_direction(Direction::HostToDeviceOrNoDataTransfer.bit())
            .raw_value();
        Self {
            bm_request_type: bm,
            b_request: BRequest::SetAddress.value(),
            w_value: [new_address, 0],
            w_index: [0, 0],
            w_length: [0, 0],
        }
    }

    /// The eight bytes of the packet in bus order.
    pub fn to_bytes(&self) -> (r: [u8; 8])
        ensures
            r@ == self@,
    {
        let r = [
            self.bm_request_type,
            self.b_request,
            self.w_value[0],
            self.w_value[1],
            self.w_index[0],
            self.w_index[1],
            self.w_length[0],
            self.w_length[1],
        ];
        assert(r@ =~= self@);
        r
    }
}

} // verus!
