use vstd::prelude::*;
use crate::error::{Error, UNREADABLE_REPLY};

verus! {

/// The atom id that stands for "no atom".
pub const ATOM_NONE: u32 = 0;

/// The predefined atom naming the PIXMAP property type.
pub const ATOM_PIXMAP: u32 = 20;

/// The order of bytes in an integer in the memory of the running machine.
#[derive(Clone, Copy, Debug, PartialEq, Eq, Structural)]
pub enum ByteOrder {
    Little,
    Big,
}

/// The width of the items of a property value.
#[derive(Clone, Copy, Debug, PartialEq, Eq, Structural)]
pub enum PropertyFormat {
    Bits32,
    Bits16,
    Bits8,
}

/// The format that a property reply declares, if it is one of the three
/// widths the protocol knows.
pub open spec fn format_of(format: u8) -> Option<PropertyFormat> {
    if format == 32 {
        Some(PropertyFormat::Bits32)
    } else if format == 16 {
        Some(PropertyFormat::Bits16)
    } else if format == 8 {
        Some(PropertyFormat::Bits8)
    } else {
        None
    }
}

pub fn property_format(format: u8) -> (r: Option<PropertyFormat>)
    ensures
        r == format_of(format),
{
    if format == 32 {
        Some(PropertyFormat::Bits32)
    } else if format == 16 {
        Some(PropertyFormat::Bits16)
    } else if format == 8 {
        Some(PropertyFormat::Bits8)
    } else {
        None
    }
}

/// The 32-bit integer held by four bytes in the given order.
pub open spec fn word_of(b: Seq<u8>, order: ByteOrder) -> int {
    match order {
        ByteOrder::Little => b[0] + 256 * b[1] + 65536 * b[2] + 16777216 * b[3],
        ByteOrder::Big => b[3] + 256 * b[2] + 65536 * b[1] + 16777216 * b[0],
    }
}

/// What a property read from the root window says of the pixmap it names.
/// `kind` is the property's declared type, `format` its declared width, and
/// `value` its items laid out as the machine holds them. The id is the first
/// 32-bit value, whatever the width of the items; a width other than 8, 16
/// or 32, or fewer than four bytes, is a reply that cannot be read.
pub open spec fn decoded_pixmap(kind: u32, format: u8, value: Seq<u8>, order: ByteOrder) -> Result<Option<u32>, Error> {
    if kind != ATOM_PIXMAP {
        Ok(None)
    } else {
        if format_of(format) is Some && value.len() >= 4 {
            Ok(Some(word_of(value, order) as u32))
        } else {
            Err(Error::Protocol { code: UNREADABLE_REPLY })
        }
    }
}

/// Decodes the pixmap id stored in a root-window property. A property of
/// another type is taken as absent, since another tool may have reused the
/// atom.
pub fn decode_pixmap_property(kind: u32, format: u8, value: &Vec<u8>, order: ByteOrder) -> (r: Result<Option<u32>, Error>)
    ensures
        r == decoded_pixmap(kind, format, value@, order),
{
    if kind != ATOM_PIXMAP {
        return Ok(None);
    }
    if property_format(format).is_none() || value.len() < 4 {
        return Err(Error::Protocol { code: UNREADABLE_REPLY });
    }
    let (b0, b1, b2, b3) = match order {
        ByteOrder::Little => (value[0] as u32, value[1] as u32, value[2] as u32, value[3] as u32),
        ByteOrder::Big => (value[3] as u32, value[2] as u32, value[1] as u32, value[0] as u32),
    };
    Ok(Some(b0 + 256 * b1 + 65536 * b2 + 16777216 * b3))
}

} // verus!
