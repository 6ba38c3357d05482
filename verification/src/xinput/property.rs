//! Device properties: what the query for one returns, and the value that is
//! decoded from it.
use crate::native::{Atom, NO_ATOM, SUCCESS};
use libc::{c_int, c_ulong};
use vstd::prelude::*;

verus! {

/// The predefined atom of the type `ATOM`.
pub const XA_ATOM: Atom = 4;

/// The predefined atom of the type `INTEGER`.
pub const XA_INTEGER: Atom = 19;

/// The predefined atom of the type `STRING`.
pub const XA_STRING: Atom = 31;

/// What `XGetDeviceProperty` returned. `data` is the payload as the protocol
/// lays it out: `nitems` items of `format / 8` bytes each, every item with its
/// least significant byte first.
#[derive(Debug, PartialEq, Eq)]
pub struct PropertyReply {
    /// The call's status.
    pub status: c_int,
    /// The property's type; no atom where the device has no such property.
    pub type_: Atom,
    /// The number of bits of an item: 8, 16 or 32.
    pub format: c_int,
    /// The number of items in the payload.
    pub nitems: c_ulong,
    /// The number of bytes of the property that the payload leaves out.
    pub bytes_after: c_ulong,
    /// The payload.
    pub data: Vec<u8>,
}

/// Why a property that exists has no value here.
#[derive(Clone, Copy, Debug, PartialEq, Eq)]
pub enum PropertyError {
    /// No value is defined for this pair of type and format.
    UnsupportedPropertyType { type_: Atom, format: c_int },
    /// The payload has not the shape that was announced or that is expected.
    DecodingMismatch,
}

/// The kinds of property values: a pair of type and format each.
#[derive(Clone, Copy, Debug, PartialEq, Eq)]
pub enum PropertyKind {
    /// `INTEGER` in 8 bits.
    Int8,
    /// `INTEGER` in 16 bits.
    Int16,
    /// `INTEGER` in 32 bits.
    Int32,
    /// `ATOM`, in 32 bits.
    Atom,
    /// `STRING`, in 8 bits.
    Text,
}

/// The value of a device property.
#[derive(Debug, PartialEq, Eq)]
pub enum InputDeviceProperty {
    /// Signed integers of 8 bits.
    Int8(Vec<i8>),
    /// Signed integers of 16 bits.
    Int16(Vec<i16>),
    /// Signed integers of 32 bits.
    Int32(Vec<i32>),
    /// Atoms.
    Atom(Vec<Atom>),
    /// The bytes of a text.
    Text(Vec<u8>),
}

/// A property value as mathematics: its kind and its items as integers.
pub struct PropertyModel {
    pub kind: PropertyKind,
    pub items: Seq<int>,
}

impl View for InputDeviceProperty {
    type V = PropertyModel;

    open spec fn view(&self) -> PropertyModel {
        match self {
            InputDeviceProperty::Int8(items) => PropertyModel {
                kind: PropertyKind::Int8,
                items: Seq::new(items@.len(), |i: int| items@[i] as int),
            },
            InputDeviceProperty::Int16(items) => PropertyModel {
                kind: PropertyKind::Int16,
                items: Seq::new(items@.len(), |i: int| items@[i] as int),
            },
            InputDeviceProperty::Int32(items) => PropertyModel {
                kind: PropertyKind::Int32,
                items: Seq::new(items@.len(), |i: int| items@[i] as int),
            },
            InputDeviceProperty::Atom(items) => PropertyModel {
                kind: PropertyKind::Atom,
                items: Seq::new(items@.len(), |i: int| items@[i] as int),
            },
            InputDeviceProperty::Text(items) => PropertyModel {
                kind: PropertyKind::Text,
                items: Seq::new(items@.len(), |i: int| items@[i] as int),
            },
        }
    }
}

/// The kind of value that a type and a format select, if any.
pub open spec fn kind_of(type_: Atom, format: c_int) -> Option<PropertyKind> {
    if type_ == XA_INTEGER && format == 8 {
        Some(PropertyKind::Int8)
    } else if type_ == XA_INTEGER && format == 16 {
        Some(PropertyKind::Int16)
    } else if type_ == XA_INTEGER && format == 32 {
        Some(PropertyKind::Int32)
    } else if type_ == XA_ATOM && format == 32 {
        Some(PropertyKind::Atom)
    } else if type_ == XA_STRING && format == 8 {
        Some(PropertyKind::Text)
    } else {
        None
    }
}

/// The number of payload bytes that one item of a kind takes.
pub open spec fn item_bytes(kind: PropertyKind) -> int {
    match kind {
        PropertyKind::Int8 => 1,
        PropertyKind::Int16 => 2,
        PropertyKind::Int32 => 4,
        PropertyKind::Atom => 4,
        PropertyKind::Text => 1,
    }
}

/// The number that a run of bytes stands for, least significant byte first.
pub open spec fn le_value(bytes: Seq<u8>) -> nat
    decreases bytes.len(),
{
    if bytes.len() == 0 {
        0
    } else {
        bytes[0] as nat + 256 * le_value(bytes.drop_first())
    }
}

/// The item that an unsigned number stands for: integers are in two's
/// complement, atoms and the bytes of a text are the number itself.
pub open spec fn item_value(kind: PropertyKind, raw: nat) -> int {
    match kind {
        PropertyKind::Int8 => if raw < 0x80 {
            raw as int
        } else {
            raw - 0x100
        },
        PropertyKind::Int16 => if raw < 0x8000 {
            raw as int
        } else {
            raw - 0x1_0000
        },
        PropertyKind::Int32 => if raw < 0x8000_0000 {
            raw as int
        } else {
            raw - 0x1_0000_0000
        },
        PropertyKind::Atom => raw as int,
        PropertyKind::Text => raw as int,
    }
}

/// The item at an index of a payload.
pub open spec fn item_at(kind: PropertyKind, data: Seq<u8>, index: int) -> int {
    let width = item_bytes(kind);
    item_value(kind, le_value(data.subrange(index * width, index * width + width)))
}

/// The items of a payload, in its order.
pub open spec fn items_of(kind: PropertyKind, data: Seq<u8>) -> Seq<int> {
    Seq::new((data.len() as int / item_bytes(kind)) as nat, |index: int| item_at(kind, data, index))
}

/// What a reply decodes to. A call that failed and a reply without a type
/// both say that the device has no such property. A type and format for which
/// no value is defined are an error, and so is a payload that is cut short or
/// whose length is not that of the items announced.
pub open spec fn decoded(reply: PropertyReply) -> Result<Option<PropertyModel>, PropertyError> {
    if reply.status != SUCCESS || reply.type_ == NO_ATOM {
        Ok(None)
    } else {
        match kind_of(reply.type_, reply.format) {
            None => Err(
                PropertyError::UnsupportedPropertyType {
                    type_: reply.type_,
                    format: reply.format,
                },
            ),
            Some(kind) => if reply.bytes_after != 0 || reply.data@.len() != reply.nitems
                * item_bytes(kind) {
                Err(PropertyError::DecodingMismatch)
            } else {
                Ok(Some(PropertyModel { kind, items: items_of(kind, reply.data@) }))
            },
        }
    }
}

/// Whether a decoded result is the one that the model gives.
pub open spec fn models(
    result: Result<Option<InputDeviceProperty>, PropertyError>,
    model: Result<Option<PropertyModel>, PropertyError>,
) -> bool {
    match model {
        Ok(Some(value)) => result matches Ok(Some(property)) && property@ == value,
        Ok(None) => result == Ok::<Option<InputDeviceProperty>, PropertyError>(None),
        Err(error) => result == Err::<Option<InputDeviceProperty>, PropertyError>(error),
    }
}

/// The pair of 16-bit fields that a value holds: a value of two integers, of
/// 16 bits each, taken as unsigned, or of 32 bits each and within 16 bits.
pub open spec fn id_pair(value: PropertyModel) -> Result<(u16, u16), PropertyError> {
    if value.items.len() != 2 {
        Err(PropertyError::DecodingMismatch)
    } else if value.kind == PropertyKind::Int16 {
        Ok((field_of(value.items[0]), field_of(value.items[1])))
    } else if value.kind == PropertyKind::Int32 && 0 <= value.items[0] <= 0xffff && 0
        <= value.items[1] <= 0xffff {
        Ok((value.items[0] as u16, value.items[1] as u16))
    } else {
        Err(PropertyError::DecodingMismatch)
    }
}

/// A signed integer of 16 bits as the unsigned field with the same bits.
pub open spec fn field_of(item: int) -> u16 {
    if item < 0 {
        (item + 0x1_0000) as u16
    } else {
        item as u16
    }
}

proof fn lemma_le_value(bytes: Seq<u8>)
    ensures
        bytes.len() == 1 ==> le_value(bytes) == bytes[0],
        bytes.len() == 2 ==> le_value(bytes) == bytes[0] + 0x100 * bytes[1],
        bytes.len() == 4 ==> le_value(bytes) == bytes[0] + 0x100 * bytes[1] + 0x1_0000 * bytes[2]
            + 0x100_0000 * bytes[3],
{
    reveal_with_fuel(le_value, 5);
    let rest1 = bytes.drop_first();
    let rest2 = rest1.drop_first();
    let rest3 = rest2.drop_first();
    if bytes.len() == 4 {
        assert(rest1[0] == bytes[1]);
        assert(rest2[0] == bytes[2]);
        assert(rest3[0] == bytes[3]);
        assert(rest3.drop_first().len() == 0);
    } else if bytes.len() == 2 {
        assert(rest1[0] == bytes[1]);
        assert(rest2.len() == 0);
    } else if bytes.len() == 1 {
        assert(rest1.len() == 0);
    }
}

/// The kind of value that a type and a format select, if any.
pub fn property_kind(type_: Atom, format: c_int) -> (kind: Option<PropertyKind>)
    ensures
        kind == kind_of(type_, format),
{
    if type_ == XA_INTEGER && format == 8 {
        Some(PropertyKind::Int8)
    } else if type_ == XA_INTEGER && format == 16 {
        Some(PropertyKind::Int16)
    } else if type_ == XA_INTEGER && format == 32 {
        Some(PropertyKind::Int32)
    } else if type_ == XA_ATOM && format == 32 {
        Some(PropertyKind::Atom)
    } else if type_ == XA_STRING && format == 8 {
        Some(PropertyKind::Text)
    } else {
        None
    }
}

/// Whether a payload of a length holds a number of items of a kind, and no
/// byte more.
fn holds_items(length: usize, nitems: c_ulong, kind: PropertyKind) -> (holds: bool)
    ensures
        holds == (length == nitems * item_bytes(kind)),
{
    match kind {
        PropertyKind::Int8 => length as u64 == nitems,
        PropertyKind::Int16 => length % 2 == 0 && (length / 2) as u64 == nitems,
        PropertyKind::Int32 => length % 4 == 0 && (length / 4) as u64 == nitems,
        PropertyKind::Atom => length % 4 == 0 && (length / 4) as u64 == nitems,
        PropertyKind::Text => length as u64 == nitems,
    }
}

/// Reads the item at an index of a payload.
fn read_item(data: &Vec<u8>, kind: PropertyKind, index: usize) -> (value: i64)
    requires
        (index + 1) * item_bytes(kind) <= data.len(),
    ensures
        value == item_at(kind, data@, index as int),
        kind == PropertyKind::Int8 ==> -0x80 <= value < 0x80,
        kind == PropertyKind::Int16 ==> -0x8000 <= value < 0x8000,
        kind == PropertyKind::Int32 ==> -0x8000_0000 <= value < 0x8000_0000,
        kind == PropertyKind::Atom ==> 0 <= value < 0x1_0000_0000,
        kind == PropertyKind::Text ==> 0 <= value < 0x100,
{
    match kind {
        PropertyKind::Int8 => {
            let raw = read_raw8(data, index);
            if raw < 0x80 {
                raw
            } else {
                raw - 0x100
            }
        },
        PropertyKind::Int16 => {
            let raw = read_raw16(data, index);
            if raw < 0x8000 {
                raw
            } else {
                raw - 0x1_0000
            }
        },
        PropertyKind::Int32 => {
            let raw = read_raw32(data, index);
            if raw < 0x8000_0000 {
                raw
            } else {
                raw - 0x1_0000_0000
            }
        },
        PropertyKind::Atom => read_raw32(data, index),
        PropertyKind::Text => read_raw8(data, index),
    }
}

fn read_raw8(data: &Vec<u8>, index: usize) -> (raw: i64)
    requires
        index < data.len(),
    ensures
        raw == le_value(data@.subrange(index as int, index + 1)),
        0 <= raw < 0x100,
{
    proof {
        lemma_le_value(data@.subrange(index as int, index + 1));
    }
    data[index] as i64
}

fn read_raw16(data: &Vec<u8>, index: usize) -> (raw: i64)
    requires
        index * 2 + 2 <= data.len(),
    ensures
        raw == le_value(data@.subrange(index * 2, index * 2 + 2)),
        0 <= raw < 0x1_0000,
{
    let at: usize = index * 2;
    proof {
        lemma_le_value(data@.subrange(at as int, at + 2));
    }
    data[at] as i64 + 0x100 * (data[at + 1] as i64)
}

fn read_raw32(data: &Vec<u8>, index: usize) -> (raw: i64)
    requires
        index * 4 + 4 <= data.len(),
    ensures
        raw == le_value(data@.subrange(index * 4, index * 4 + 4)),
        0 <= raw < 0x1_0000_0000,
{
    let at: usize = index * 4;
    proof {
        lemma_le_value(data@.subrange(at as int, at + 4));
    }
    data[at] as i64 + 0x100 * (data[at + 1] as i64) + 0x1_0000 * (data[at + 2] as i64) + 0x100_0000
        * (data[at + 3] as i64)
}

fn read_int8(data: &Vec<u8>) -> (items: Vec<i8>)
    ensures
        (InputDeviceProperty::Int8(items))@.items == items_of(PropertyKind::Int8, data@),
{
    let count: usize = data.len();
    let mut items: Vec<i8> = Vec::new();
    let mut index: usize = 0;
    while index < count
        invariant
            index <= count,
            count == data.len(),
            items.len() == index,
            forall|i: int|
                0 <= i < index ==> items@[i] as int == item_at(PropertyKind::Int8, data@, i),
        decreases count - index,
    {
        let value = read_item(data, PropertyKind::Int8, index);
        items.push(value as i8);
        index += 1;
    }
    assert((InputDeviceProperty::Int8(items))@.items =~= items_of(PropertyKind::Int8, data@));
    items
}

fn read_int16(data: &Vec<u8>) -> (items: Vec<i16>)
    requires
        data.len() % 2 == 0,
    ensures
        (InputDeviceProperty::Int16(items))@.items == items_of(PropertyKind::Int16, data@),
{
    let count: usize = data.len() / 2;
    let mut items: Vec<i16> = Vec::new();
    let mut index: usize = 0;
    while index < count
        invariant
            index <= count,
            count == data.len() / 2,
            items.len() == index,
            forall|i: int|
                0 <= i < index ==> items@[i] as int == item_at(PropertyKind::Int16, data@, i),
        decreases count - index,
    {
        let value = read_item(data, PropertyKind::Int16, index);
        items.push(value as i16);
        index += 1;
    }
    assert((InputDeviceProperty::Int16(items))@.items =~= items_of(PropertyKind::Int16, data@));
    items
}

fn read_int32(data: &Vec<u8>) -> (items: Vec<i32>)
    requires
        data.len() % 4 == 0,
    ensures
        (InputDeviceProperty::Int32(items))@.items == items_of(PropertyKind::Int32, data@),
{
    let count: usize = data.len() / 4;
    let mut items: Vec<i32> = Vec::new();
    let mut index: usize = 0;
    while index < count
        invariant
            index <= count,
            count == data.len() / 4,
            items.len() == index,
            forall|i: int|
                0 <= i < index ==> items@[i] as int == item_at(PropertyKind::Int32, data@, i),
        decreases count - index,
    {
        let value = read_item(data, PropertyKind::Int32, index);
        items.push(value as i32);
        index += 1;
    }
    assert((InputDeviceProperty::Int32(items))@.items =~= items_of(PropertyKind::Int32, data@));
    items
}

fn read_atoms(data: &Vec<u8>) -> (items: Vec<Atom>)
    requires
        data.len() % 4 == 0,
    ensures
        (InputDeviceProperty::Atom(items))@.items == items_of(PropertyKind::Atom, data@),
{
    let count: usize = data.len() / 4;
    let mut items: Vec<Atom> = Vec::new();
    let mut index: usize = 0;
    while index < count
        invariant
            index <= count,
            count == data.len() / 4,
            items.len() == index,
            forall|i: int|
                0 <= i < index ==> items@[i] as int == item_at(PropertyKind::Atom, data@, i),
        decreases count - index,
    {
        let value = read_item(data, PropertyKind::Atom, index);
        items.push(value as Atom);
        index += 1;
    }
    assert((InputDeviceProperty::Atom(items))@.items =~= items_of(PropertyKind::Atom, data@));
    items
}

fn read_text(data: &Vec<u8>) -> (items: Vec<u8>)
    ensures
        (InputDeviceProperty::Text(items))@.items == items_of(PropertyKind::Text, data@),
{
    let count: usize = data.len();
    let mut items: Vec<u8> = Vec::new();
    let mut index: usize = 0;
    while index < count
        invariant
            index <= count,
            count == data.len(),
            items.len() == index,
            forall|i: int|
                0 <= i < index ==> items@[i] as int == item_at(PropertyKind::Text, data@, i),
        decreases count - index,
    {
        let value = read_item(data, PropertyKind::Text, index);
        items.push(value as u8);
        index += 1;
    }
    assert((InputDeviceProperty::Text(items))@.items =~= items_of(PropertyKind::Text, data@));
    items
}

impl InputDeviceProperty {
    /// Decodes what the query for a property returned. The type and the
    /// format select the kind of value, and the payload gives its items.
    pub fn decode(reply: &PropertyReply) -> (result: Result<
        Option<InputDeviceProperty>,
        PropertyError,
    >)
        ensures
            models(result, decoded(*reply)),
    {
        if reply.status != SUCCESS || reply.type_ == NO_ATOM {
            return Ok(None);
        }
        let kind = match property_kind(reply.type_, reply.format) {
            None => {
                return Err(
                    PropertyError::UnsupportedPropertyType {
                        type_: reply.type_,
                        format: reply.format,
                    },
                );
            },
            Some(kind) => kind,
        };
        if reply.bytes_after != 0 || !holds_items(reply.data.len(), reply.nitems, kind) {
            return Err(PropertyError::DecodingMismatch);
        }
        let value = match kind {
            PropertyKind::Int8 => InputDeviceProperty::Int8(read_int8(&reply.data)),
            PropertyKind::Int16 => InputDeviceProperty::Int16(read_int16(&reply.data)),
            PropertyKind::Int32 => InputDeviceProperty::Int32(read_int32(&reply.data)),
            PropertyKind::Atom => InputDeviceProperty::Atom(read_atoms(&reply.data)),
            PropertyKind::Text => InputDeviceProperty::Text(read_text(&reply.data)),
        };
        Ok(Some(value))
    }

    /// The kind of the value.
    pub fn kind(&self) -> (kind: PropertyKind)
        ensures
            kind == self@.kind,
    {
        match self {
            InputDeviceProperty::Int8(_) => PropertyKind::Int8,
            InputDeviceProperty::Int16(_) => PropertyKind::Int16,
            InputDeviceProperty::Int32(_) => PropertyKind::Int32,
            InputDeviceProperty::Atom(_) => PropertyKind::Atom,
            InputDeviceProperty::Text(_) => PropertyKind::Text,
        }
    }

    /// Reads the value as a pair of 16-bit fields, such as a vendor and a
    /// product number.
    pub fn to_id_pair(&self) -> (pair: Result<(u16, u16), PropertyError>)
        ensures
            pair == id_pair(self@),
    {
        match self {
            InputDeviceProperty::Int16(items) => {
                if items.len() != 2 {
                    return Err(PropertyError::DecodingMismatch);
                }
                Ok((field(items[0]), field(items[1])))
            },
            InputDeviceProperty::Int32(items) => {
                if items.len() != 2 {
                    return Err(PropertyError::DecodingMismatch);
                }
                let first: i32 = items[0];
                let second: i32 = items[1];
                if 0 <= first && first <= 0xffff && 0 <= second && second <= 0xffff {
                    Ok((first as u16, second as u16))
                } else {
                    Err(PropertyError::DecodingMismatch)
                }
            },
            _ => Err(PropertyError::DecodingMismatch),
        }
    }
}

fn field(item: i16) -> (bits: u16)
    ensures
        bits == field_of(item as int),
{
    if item < 0 {
        (item as i32 + 0x1_0000) as u16
    } else {
        item as u16
    }
}

} // verus!
