use vstd::prelude::*;

verus! {

/// The low 12 bits of an instruction word: an address operand.
pub open spec fn nnn_of(op: u16) -> u16 {
    (op % 4096) as u16
}

/// The low 8 bits of an instruction word: an immediate operand.
pub open spec fn nn_of(op: u16) -> u8 {
    (op % 256) as u8
}

/// The low 4 bits of an instruction word: a small count.
pub open spec fn n_of(op: u16) -> u8 {
    (op % 16) as u8
}

/// Bits 8 to 11 of an instruction word: the first operand register.
pub open spec fn x_of(op: u16) -> u8 {
    ((op / 256) % 16) as u8
}

/// Bits 4 to 7 of an instruction word: the second operand register.
pub open spec fn y_of(op: u16) -> u8 {
    ((op / 16) % 16) as u8
}

/// Bits 12 to 15 of an instruction word: the instruction family.
pub open spec fn family_of(op: u16) -> u8 {
    (op / 4096) as u8
}

/// The operations of the instruction set.
#[derive(Clone, Copy, Debug, PartialEq, Eq, Structural)]
pub enum Operation {
    Cls,
    Ret,
    JpAddr,
    CallAddr,
    SeVxByte,
    SneVxByte,
    SeVxVy,
    LdVxByte,
    AddVxByte,
    LdVxVy,
    OrVxVy,
    AndVxVy,
    XorVxVy,
    AddVxVy,
    SubVxVy,
    ShrVxVy,
    SubnVxVy,
    ShlVxVy,
    SneVxVy,
    LdIAddr,
    JpV0Addr,
    RndVxByte,
    DrwVxVyNibble,
    SkpVx,
    SknpVx,
    LdVxDt,
    LdVxK,
    LdDtVx,
    LdStVx,
    AddIVx,
    LdFVx,
    LdBVx,
    LdMemVx,
    LdVxMem,
}

/// The operation that an instruction word names, if it names one.
///
/// The family is the top nibble. The families 0x0, 0xE and 0xF choose the
/// operation by the low byte, the family 0x8 by the low nibble; the other
/// families hold one operation each.
pub open spec fn decode_spec(op: u16) -> Option<Operation> {
    let family = family_of(op);
    let nn = nn_of(op);
    let n = n_of(op);
    if family == 0x0 {
        if nn == 0xE0 {
            Some(Operation::Cls)
        } else if nn == 0xEE {
            Some(Operation::Ret)
        } else {
            None
        }
    } else if family == 0x1 {
        Some(Operation::JpAddr)
    } else if family == 0x2 {
        Some(Operation::CallAddr)
    } else if family == 0x3 {
        Some(Operation::SeVxByte)
    } else if family == 0x4 {
        Some(Operation::SneVxByte)
    } else if family == 0x5 {
        Some(Operation::SeVxVy)
    } else if family == 0x6 {
        Some(Operation::LdVxByte)
    } else if family == 0x7 {
        Some(Operation::AddVxByte)
    } else if family == 0x8 {
        if n == 0x0 {
            Some(Operation::LdVxVy)
        } else if n == 0x1 {
            Some(Operation::OrVxVy)
        } else if n == 0x2 {
            Some(Operation::AndVxVy)
        } else if n == 0x3 {
            Some(Operation::XorVxVy)
        } else if n == 0x4 {
            Some(Operation::AddVxVy)
        } else if n == 0x5 {
            Some(Operation::SubVxVy)
        } else if n == 0x6 {
            Some(Operation::ShrVxVy)
        } else if n == 0x7 {
            Some(Operation::SubnVxVy)
        } else if n == 0xE {
            Some(Operation::ShlVxVy)
        } else {
            None
        }
    } else if family == 0x9 {
        Some(Operation::SneVxVy)
    } else if family == 0xA {
        Some(Operation::LdIAddr)
    } else if family == 0xB {
        Some(Operation::JpV0Addr)
    } else if family == 0xC {
        Some(Operation::RndVxByte)
    } else if family == 0xD {
        Some(Operation::DrwVxVyNibble)
    } else if family == 0xE {
        if nn == 0x9E {
            Some(Operation::SkpVx)
        } else if nn == 0xA1 {
            Some(Operation::SknpVx)
        } else {
            None
        }
    } else {
        if nn == 0x07 {
            Some(Operation::LdVxDt)
        } else if nn == 0x0A {
            Some(Operation::LdVxK)
        } else if nn == 0x15 {
            Some(Operation::LdDtVx)
        } else if nn == 0x18 {
            Some(Operation::LdStVx)
        } else if nn == 0x1E {
            Some(Operation::AddIVx)
        } else if nn == 0x29 {
            Some(Operation::LdFVx)
        } else if nn == 0x33 {
            Some(Operation::LdBVx)
        } else if nn == 0x55 {
            Some(Operation::LdMemVx)
        } else if nn == 0x65 {
            Some(Operation::LdVxMem)
        } else {
            None
        }
    }
}

/// The address operand of `op`.
pub fn address_field(op: u16) -> (r: u16)
    ensures
        r == nnn_of(op),
        r < 4096,
{
    assert(op & 0x0FFF == op % 4096) by (bit_vector);
    op & 0x0FFF
}

/// The immediate operand of `op`.
pub fn immediate_byte(op: u16) -> (r: u8)
    ensures
        r == nn_of(op),
{
    assert(op & 0x00FF == op % 256) by (bit_vector);
    (op & 0x00FF) as u8
}

/// The small count of `op`.
pub fn nibble_field(op: u16) -> (r: u8)
    ensures
        r == n_of(op),
        r < 16,
{
    assert(op & 0x000F == op % 16) by (bit_vector);
    (op & 0x000F) as u8
}

/// The first operand register of `op`.
pub fn register_x(op: u16) -> (r: u8)
    ensures
        r == x_of(op),
        r < 16,
{
    assert((op & 0x0F00) >> 8 == (op / 256) % 16) by (bit_vector);
    ((op & 0x0F00) >> 8) as u8
}

/// The second operand register of `op`.
pub fn register_y(op: u16) -> (r: u8)
    ensures
        r == y_of(op),
        r < 16,
{
    assert((op & 0x00F0) >> 4 == (op / 16) % 16) by (bit_vector);
    ((op & 0x00F0) >> 4) as u8
}

/// Decodes an instruction word: `None` where it names no operation.
pub fn decode(op: u16) -> (r: Option<Operation>)
    ensures
        r == decode_spec(op),
{
    assert(op >> 12 == op / 4096) by (bit_vector);
    let family: u16 = op >> 12;
    let nn: u8 = immediate_byte(op);
    let n: u8 = nibble_field(op);
    match family {
        0x0 => match nn {
            0xE0 => Some(Operation::Cls),
            0xEE => Some(Operation::Ret),
            _ => None,
        },
        0x1 => Some(Operation::JpAddr),
        0x2 => Some(Operation::CallAddr),
        0x3 => Some(Operation::SeVxByte),
        0x4 => Some(Operation::SneVxByte),
        0x5 => Some(Operation::SeVxVy),
        0x6 => Some(Operation::LdVxByte),
        0x7 => Some(Operation::AddVxByte),
        0x8 => match n {
            0x0 => Some(Operation::LdVxVy),
            0x1 => Some(Operation::OrVxVy),
            0x2 => Some(Operation::AndVxVy),
            0x3 => Some(Operation::XorVxVy),
            0x4 => Some(Operation::AddVxVy),
            0x5 => Some(Operation::SubVxVy),
            0x6 => Some(Operation::ShrVxVy),
            0x7 => Some(Operation::SubnVxVy),
            0xE => Some(Operation::ShlVxVy),
            _ => None,
        },
        0x9 => Some(Operation::SneVxVy),
        0xA => Some(Operation::LdIAddr),
        0xB => Some(Operation::JpV0Addr),
        0xC => Some(Operation::RndVxByte),
        0xD => Some(Operation::DrwVxVyNibble),
        0xE => match nn {
            0x9E => Some(Operation::SkpVx),
            0xA1 => Some(Operation::SknpVx),
            _ => None,
        },
        _ => match nn {
            0x07 => Some(Operation::LdVxDt),
            0x0A => Some(Operation::LdVxK),
            0x15 => Some(Operation::LdDtVx),
            0x18 => Some(Operation::LdStVx),
            0x1E => Some(Operation::AddIVx),
            0x29 => Some(Operation::LdFVx),
            0x33 => Some(Operation::LdBVx),
            0x55 => Some(Operation::LdMemVx),
            0x65 => Some(Operation::LdVxMem),
            _ => None,
        },
    }
}

} // verus!
