//! GATT characteristics and descriptors: property bits, write types, and the
//! checks and conversions around reading and writing them.
use vstd::prelude::*;
use crate::bluedroid::bytes::{java_byte_array_to_rust, unsigned_bytes};
use crate::bluedroid::error::{GattError, GattResult, gatt_status_spec};

verus! {

/// `BluetoothGattCharacteristic.PROPERTY_BROADCAST`
pub const PROPERTY_BROADCAST: i32 = 1;

/// `BluetoothGattCharacteristic.PROPERTY_READ`
pub const PROPERTY_READ: i32 = 2;

/// `BluetoothGattCharacteristic.PROPERTY_WRITE_NO_RESPONSE`
pub const PROPERTY_WRITE_NO_RESPONSE: i32 = 4;

/// `BluetoothGattCharacteristic.PROPERTY_WRITE`
pub const PROPERTY_WRITE: i32 = 8;

/// `BluetoothGattCharacteristic.PROPERTY_NOTIFY`
pub const PROPERTY_NOTIFY: i32 = 16;

/// `BluetoothGattCharacteristic.PROPERTY_INDICATE`
pub const PROPERTY_INDICATE: i32 = 32;

/// `BluetoothGattCharacteristic.PROPERTY_SIGNED_WRITE`
pub const PROPERTY_SIGNED_WRITE: i32 = 64;

/// `BluetoothGattCharacteristic.PROPERTY_EXTENDED_PROPS`
pub const PROPERTY_EXTENDED_PROPS: i32 = 128;

/// `BluetoothGattCharacteristic.WRITE_TYPE_NO_RESPONSE`
pub const WRITE_TYPE_NO_RESPONSE: i32 = 1;

/// `BluetoothGattCharacteristic.WRITE_TYPE_DEFAULT`
pub const WRITE_TYPE_DEFAULT: i32 = 2;

/// `BluetoothGattCharacteristic.WRITE_TYPE_SIGNED`
pub const WRITE_TYPE_SIGNED: i32 = 4;

/// UUID of the client characteristic configuration descriptor,
/// `00002902-0000-1000-8000-00805f9b34fb`.
pub const CCC_DESCRIPTOR: u128 = 0x0000_2902_0000_1000_8000_0080_5f9b_34fb;

/// The property bits of a characteristic, as Android reports them.
#[derive(Debug, Clone, Copy, PartialEq, Eq, Structural)]
pub struct CharacteristicProperties(i32);

/// Whether the bit (or bits) of `mask` are set in `raw`.
pub open spec fn has_bits(raw: i32, mask: i32) -> bool {
    raw & mask != 0
}

impl CharacteristicProperties {
    /// The raw property bits.
    pub closed spec fn raw(&self) -> i32 {
        self.0
    }

    /// The properties with the given bits (from `getProperties`).
    pub fn new(raw: i32) -> (r: CharacteristicProperties)
        ensures
            r.raw() == raw,
    {
        CharacteristicProperties(raw)
    }

    /// The raw property bits.
    pub fn bits(&self) -> (r: i32)
        ensures
            r == self.raw(),
    {
        self.0
    }

    /// The characteristic can be broadcast.
    pub fn broadcast(&self) -> (r: bool)
        ensures
            r == has_bits(self.raw(), PROPERTY_BROADCAST),
    {
        (self.0 & PROPERTY_BROADCAST) != 0
    }

    /// The characteristic has extended properties.
    pub fn extended_props(&self) -> (r: bool)
        ensures
            r == has_bits(self.raw(), PROPERTY_EXTENDED_PROPS),
    {
        (self.0 & PROPERTY_EXTENDED_PROPS) != 0
    }

    /// The characteristic supports indication.
    pub fn indicate(&self) -> (r: bool)
        ensures
            r == has_bits(self.raw(), PROPERTY_INDICATE),
    {
        (self.0 & PROPERTY_INDICATE) != 0
    }

    /// The characteristic supports notification.
    pub fn notify(&self) -> (r: bool)
        ensures
            r == has_bits(self.raw(), PROPERTY_NOTIFY),
    {
        (self.0 & PROPERTY_NOTIFY) != 0
    }

    /// The characteristic is readable.
    pub fn read(&self) -> (r: bool)
        ensures
            r == has_bits(self.raw(), PROPERTY_READ),
    {
        (self.0 & PROPERTY_READ) != 0
    }

    /// The characteristic supports writes with authentication signature.
    pub fn signed_write(&self) -> (r: bool)
        ensures
            r == has_bits(self.raw(), PROPERTY_SIGNED_WRITE),
    {
        (self.0 & PROPERTY_SIGNED_WRITE) != 0
    }

    /// The characteristic can be written without response.
    pub fn write_no_response(&self) -> (r: bool)
        ensures
            r == has_bits(self.raw(), PROPERTY_WRITE_NO_RESPONSE),
    {
        (self.0 & PROPERTY_WRITE_NO_RESPONSE) != 0
    }

    /// The characteristic can be written.
    pub fn write(&self) -> (r: bool)
        ensures
            r == has_bits(self.raw(), PROPERTY_WRITE),
    {
        (self.0 & PROPERTY_WRITE) != 0
    }
}

/// How a characteristic is written.
#[derive(Debug, Clone, Copy, PartialEq, Eq, Structural)]
pub enum WriteType {
    /// Write with response from the remote device.
    Default,
    /// Write without response.
    NoResponse,
    /// Write with authentication signature.
    Signed,
}

/// The Android value of a write type.
pub open spec fn write_type_spec(w: WriteType) -> i32 {
    match w {
        WriteType::Default => WRITE_TYPE_DEFAULT,
        WriteType::NoResponse => WRITE_TYPE_NO_RESPONSE,
        WriteType::Signed => WRITE_TYPE_SIGNED,
    }
}

impl WriteType {
    /// The Android value (`BluetoothGattCharacteristic.WRITE_TYPE_*`) of this
    /// write type.
    pub fn java_representation(&self) -> (r: i32)
        ensures
            r == write_type_spec(*self),
    {
        match self {
            WriteType::Default => WRITE_TYPE_DEFAULT,
            WriteType::NoResponse => WRITE_TYPE_NO_RESPONSE,
            WriteType::Signed => WRITE_TYPE_SIGNED,
        }
    }
}

impl Default for WriteType {
    fn default() -> (r: WriteType)
        ensures
            r == WriteType::Default,
    {
        WriteType::Default
    }
}

/// Checks that a descriptor may be written by the user (`Descriptor::write`):
/// the client characteristic configuration descriptor may not, as writing it
/// races with enabling and disabling notifications.
pub fn check_descriptor_writable(uuid: u128) -> (r: GattResult<()>)
    ensures
        r is Ok <==> uuid != CCC_DESCRIPTOR,
        r matches Err(e) ==> e is WritingToCCCDescriptor,
{
    if uuid == CCC_DESCRIPTOR {
        Err(GattError::WritingToCCCDescriptor)
    } else {
        Ok(())
    }
}

/// The result that the callback of a characteristic or descriptor read
/// delivers: the value read when the status is `GATT_SUCCESS`, otherwise the
/// error that the status stands for.
pub fn read_callback_value(status: i32, data: &[i8]) -> (r: GattResult<Vec<u8>>)
    ensures
        r is Ok <==> status == 0,
        r matches Ok(v) ==> v@ == unsigned_bytes(data@),
        r matches Err(e) ==> gatt_status_spec(status) == Err::<(), GattError>(e),
{
    match GattError::status_error(status) {
        Ok(()) => Ok(java_byte_array_to_rust(data)),
        Err(e) => Err(e),
    }
}

/// The Android values of the write types (no response 1, default 2, signed
/// 4), each type having its own, and of the property bits.
pub proof fn characteristic_constant_values()
    ensures
        write_type_spec(WriteType::NoResponse) == 1,
        write_type_spec(WriteType::Default) == 2,
        write_type_spec(WriteType::Signed) == 4,
        PROPERTY_BROADCAST == 1 && PROPERTY_READ == 2 && PROPERTY_WRITE_NO_RESPONSE == 4
            && PROPERTY_WRITE == 8 && PROPERTY_NOTIFY == 16 && PROPERTY_INDICATE == 32
            && PROPERTY_SIGNED_WRITE == 64 && PROPERTY_EXTENDED_PROPS == 128,
        CCC_DESCRIPTOR == 0x0000_2902_0000_1000_8000_0080_5f9b_34fb,
{
}

} // verus!
