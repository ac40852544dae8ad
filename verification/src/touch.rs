//! Touchscreen: decoding the touch points that the FT5336 controller reports.

use crate::i2c::{Address, I2C, I2cConnection, I2cTrait, SetupOp};
use arrayvec::ArrayVec;
use vstd::prelude::*;

verus! {

#[verifier::external_type_specification]
#[verifier::external_body]
#[verifier::reject_recursive_types(T)]
pub struct ExArrayVec<T, const CAP: usize>(ArrayVec<T, CAP>);

/// Represents a touch point on the display at coordinates (x,y).
#[derive(Debug, Clone, Copy, PartialEq, Eq, Structural)]
pub struct Touch {
    /// The x coordinate of the touch point (horizontal).
    pub x: u16,
    /// The y coordinate of the touch point (vertical).
    pub y: u16,
}

/// The touch points that a list holds, in order, as (x, y) pairs.
pub uninterp spec fn touch_points(list: ArrayVec<Touch, 5>) -> Seq<(u16, u16)>;

/// Creates an empty list with `ArrayVec::new`.
#[verifier::external_body]
fn new_touch_list() -> (r: ArrayVec<Touch, 5>)
    ensures
        touch_points(r) == Seq::<(u16, u16)>::empty(),
{
    ArrayVec::new()
}

/// Appends a touch point with `ArrayVec::push`, which panics when the list is full.
#[verifier::external_body]
fn push_touch(list: &mut ArrayVec<Touch, 5>, touch: Touch)
    requires
        touch_points(*old(list)).len() < 5,
    ensures
        touch_points(*final(list)) == touch_points(*old(list)).push((touch.x, touch.y)),
{
    list.push(touch);
}

/// The I2C address of the touch controller (7 bit).
pub const FT5336_ADDRESS: u8 = 0b0111000;
/// The register that holds the device family ID.
pub const FT5336_FAMILY_ID_REGISTER: u8 = 0xA8;
/// The register that holds the number of active touches.
pub const FT5336_STATUS_REGISTER: u8 = 0x02;
/// The family ID that the controller reports.
pub const FT5336_FAMILY_ID: u8 = 0x51;

/// Checks whether the device family ID register contains the expected value: the connection
/// to the touch controller and the one check to run on it.
pub fn check_family_id<I: I2cTrait>(i2c_3: &I2C<I>) -> (r: (I2cConnection<u8>, Vec<SetupOp<u8>>))
    ensures
        r.0.spec_device_address().spec_value() == FT5336_ADDRESS * 2,
        r.1@ == seq![
            SetupOp::Check { register: FT5336_FAMILY_ID_REGISTER, value: FT5336_FAMILY_ID },
        ],
{
    let conn = i2c_3.connect::<u8>(Address::bits_7(FT5336_ADDRESS));
    let mut ops: Vec<SetupOp<u8>> = Vec::new();
    ops.push(SetupOp::Check { register: FT5336_FAMILY_ID_REGISTER, value: FT5336_FAMILY_ID });
    (conn, ops)
}

/// The family ID that an FT6x06 touch controller reports.
pub const FT6X06_FAMILY_ID: u8 = 0x11;

/// The setup of an FT6x06 touch controller (at the same address): reset the device, check its
/// family ID, then switch it to polling mode.
pub open spec fn ft6x06_setup() -> Seq<SetupOp<u8>> {
    seq![
        SetupOp::Write { register: 0, value: 0 },
        SetupOp::Check { register: 0xA8, value: FT6X06_FAMILY_ID },
        SetupOp::Write { register: 0xA4, value: 0 },
    ]
}

/// Initializes an FT6x06 touch controller: the connection to it and the operations to run on
/// it, in order (see [`ft6x06_setup`]).
pub fn init_ft6x06<I: I2cTrait>(i2c_3: &I2C<I>) -> (r: (I2cConnection<u8>, Vec<SetupOp<u8>>))
    ensures
        r.0.spec_device_address().spec_value() == FT5336_ADDRESS * 2,
        r.1@ == ft6x06_setup(),
{
    let conn = i2c_3.connect::<u8>(Address::bits_7(FT5336_ADDRESS));
    let mut ops: Vec<SetupOp<u8>> = Vec::new();
    // reset device
    ops.push(SetupOp::Write { register: 0, value: 0 });
    // read and check device family ID
    ops.push(SetupOp::Check { register: 0xA8, value: FT6X06_FAMILY_ID });
    // set polling mode
    ops.push(SetupOp::Write { register: 0xA4, value: 0 });
    (conn, ops)
}

/// The first register of the data of each of the (up to five) touches.
pub open spec fn data_registers() -> Seq<u8> {
    seq![0x03, 0x09, 0x0F, 0x15, 0x1B]
}

/// The first register of the data of touch `i`.
pub fn data_register(i: usize) -> (r: u8)
    requires
        i < 5,
    ensures
        r == data_registers()[i as int],
{
    let regs: [u8; 5] = [0x03, 0x09, 0x0F, 0x15, 0x1B];
    assert(regs@ == data_registers());
    regs[i]
}

/// The number of active touches in the status register: its low four bits, where values
/// above five mean none.
pub open spec fn spec_touch_count(status: u8) -> nat {
    if status % 16 > 5 {
        0
    } else {
        (status % 16) as nat
    }
}

/// The number of active touches that the status register reports.
pub fn touch_count(status: u8) -> (r: usize)
    ensures
        r == spec_touch_count(status),
        r <= 5,
{
    let mut number_of_touches = status & 0x0F;
    assert(status & 0x0F == status % 16) by (bit_vector);
    if number_of_touches > 5 {
        number_of_touches = 0;
    }
    number_of_touches as usize
}

/// The touch point that the four data bytes of a touch describe: the y coordinate in the
/// low four bits of byte 0 and byte 1, the x coordinate in the low four bits of byte 2 and
/// byte 3.
pub open spec fn spec_decode_touch(data: Seq<u8>) -> (u16, u16) {
    (((data[2] % 16) * 0x100 + data[3]) as u16, ((data[0] % 16) * 0x100 + data[1]) as u16)
}

/// Decodes the four data bytes of a touch.
pub fn decode_touch(touch_data: [u8; 4]) -> (r: Touch)
    ensures
        (r.x, r.y) == spec_decode_touch(touch_data@),
{
    let d0 = touch_data[0];
    let d1 = touch_data[1];
    let d2 = touch_data[2];
    let d3 = touch_data[3];
    let y = ((((d0 & 0x0F) as u16) << 8) | (d1 as u16));
    let x = ((((d2 & 0x0F) as u16) << 8) | (d3 as u16));
    assert(((((d0 & 0x0F) as u16) << 8u16) | (d1 as u16)) == ((d0 % 16) * 0x100 + d1) as u16)
        by (bit_vector);
    assert(((((d2 & 0x0F) as u16) << 8u16) | (d3 as u16)) == ((d2 % 16) * 0x100 + d3) as u16)
        by (bit_vector);
    Touch { x: x, y: y }
}

/// Returns the list of active touch points, from the value of the status register and the
/// data bytes read from the data registers of the active touches.
pub fn touches(status: u8, touch_data: &Vec<[u8; 4]>) -> (r: ArrayVec<Touch, 5>)
    requires
        touch_data@.len() == spec_touch_count(status),
    ensures
        touch_points(r).len() == touch_data@.len(),
        forall|i: int|
            0 <= i < touch_data@.len() ==> #[trigger] touch_points(r)[i] == spec_decode_touch(
                touch_data@[i]@,
            ),
{
    let count = touch_count(status);
    let mut list = new_touch_list();
    let mut i: usize = 0;
    while i < count
        invariant
            count == touch_data@.len(),
            count <= 5,
            i <= count,
            touch_points(list).len() == i,
            forall|k: int|
                0 <= k < i ==> #[trigger] touch_points(list)[k] == spec_decode_touch(
                    touch_data@[k]@,
                ),
        decreases count - i,
    {
        let touch = decode_touch(touch_data[i]);
        push_touch(&mut list, touch);
        i = i + 1;
    }
    list
}

} // verus!
