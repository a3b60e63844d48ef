//! The processor status register as a decomposed record of named flags,
//! together with the conversion pair between that record and the raw status
//! byte.  The byte is the canonical representation held by the register
//! file; this view is derived from it on demand.  The two conversions are
//! mutual inverses for every byte value: bit 5 ("unused") passes through
//! unchanged here, and is forced to 1 only by the RESET microcode.

use vstd::prelude::*;

verus! {

/// The seven processor status flags plus the always-set bit 5, as named
/// booleans.  Bit order in the packed byte, from bit 0 up: carry, zero,
/// irq_disable, decimal, brk, unused, overflow, negative.
#[derive(Clone, Copy, Debug, PartialEq, Eq)]
pub struct StatusRegister {
    pub carry: bool,
    pub zero: bool,
    pub irq_disable: bool,
    pub decimal: bool,
    pub brk: bool,
    pub unused: bool,
    pub overflow: bool,
    pub negative: bool,
}

/// The byte that a decomposed flag record packs to.
pub open spec fn pack(f: StatusRegister) -> u8 {
    (if f.carry {
        0x01u8
    } else {
        0u8
    }) | (if f.zero {
        0x02u8
    } else {
        0u8
    }) | (if f.irq_disable {
        0x04u8
    } else {
        0u8
    }) | (if f.decimal {
        0x08u8
    } else {
        0u8
    }) | (if f.brk {
        0x10u8
    } else {
        0u8
    }) | (if f.unused {
        0x20u8
    } else {
        0u8
    }) | (if f.overflow {
        0x40u8
    } else {
        0u8
    }) | (if f.negative {
        0x80u8
    } else {
        0u8
    })
}

/// The decomposed flag record that a raw status byte unpacks to.
pub open spec fn unpack(b: u8) -> StatusRegister {
    StatusRegister {
        carry: b & 0x01 != 0,
        zero: b & 0x02 != 0,
        irq_disable: b & 0x04 != 0,
        decimal: b & 0x08 != 0,
        brk: b & 0x10 != 0,
        unused: b & 0x20 != 0,
        overflow: b & 0x40 != 0,
        negative: b & 0x80 != 0,
    }
}

impl StatusRegister {
    /// Decomposes a raw status byte into named flags.
    pub fn from_byte(b: u8) -> (r: StatusRegister)
        ensures
            r == unpack(b),
    {
        StatusRegister {
            carry: b & 0x01 != 0,
            zero: b & 0x02 != 0,
            irq_disable: b & 0x04 != 0,
            decimal: b & 0x08 != 0,
            brk: b & 0x10 != 0,
            unused: b & 0x20 != 0,
            overflow: b & 0x40 != 0,
            negative: b & 0x80 != 0,
        }
    }

    /// Packs the named flags back into a raw status byte.
    pub fn to_byte(&self) -> (r: u8)
        ensures
            r == pack(*self),
    {
        (if self.carry {
            0x01u8
        } else {
            0u8
        }) | (if self.zero {
            0x02u8
        } else {
            0u8
        }) | (if self.irq_disable {
            0x04u8
        } else {
            0u8
        }) | (if self.decimal {
            0x08u8
        } else {
            0u8
        }) | (if self.brk {
            0x10u8
        } else {
            0u8
        }) | (if self.unused {
            0x20u8
        } else {
            0u8
        }) | (if self.overflow {
            0x40u8
        } else {
            0u8
        }) | (if self.negative {
            0x80u8
        } else {
            0u8
        })
    }
}

/// Law: packing the decomposition of any byte reproduces that byte exactly;
/// every bit, including bit 5, passes through the conversion pair unchanged.
pub proof fn lemma_pack_unpack(b: u8)
    ensures
        pack(unpack(b)) == b,
{
    assert(((if b & 0x01 != 0 {
        0x01u8
    } else {
        0u8
    }) | (if b & 0x02 != 0 {
        0x02u8
    } else {
        0u8
    }) | (if b & 0x04 != 0 {
        0x04u8
    } else {
        0u8
    }) | (if b & 0x08 != 0 {
        0x08u8
    } else {
        0u8
    }) | (if b & 0x10 != 0 {
        0x10u8
    } else {
        0u8
    }) | (if b & 0x20 != 0 {
        0x20u8
    } else {
        0u8
    }) | (if b & 0x40 != 0 {
        0x40u8
    } else {
        0u8
    }) | (if b & 0x80 != 0 {
        0x80u8
    } else {
        0u8
    })) == b) by (bit_vector);
}

/// Law: unpacking the packed byte of any flag record reproduces the record,
/// so the raw-byte and decomposed views agree bit for bit.
pub proof fn lemma_unpack_pack(f: StatusRegister)
    ensures
        unpack(pack(f)) == f,
{
    let c = f.carry;
    let z = f.zero;
    let i = f.irq_disable;
    let d = f.decimal;
    let k = f.brk;
    let u = f.unused;
    let v = f.overflow;
    let n = f.negative;
    let p = pack(f);
    assert({
        &&& (p & 0x01 != 0) == c
        &&& (p & 0x02 != 0) == z
        &&& (p & 0x04 != 0) == i
        &&& (p & 0x08 != 0) == d
        &&& (p & 0x10 != 0) == k
        &&& (p & 0x20 != 0) == u
        &&& (p & 0x40 != 0) == v
        &&& (p & 0x80 != 0) == n
    }) by (bit_vector)
        requires
            p == (if c {
                0x01u8
            } else {
                0u8
            }) | (if z {
                0x02u8
            } else {
                0u8
            }) | (if i {
                0x04u8
            } else {
                0u8
            }) | (if d {
                0x08u8
            } else {
                0u8
            }) | (if k {
                0x10u8
            } else {
                0u8
            }) | (if u {
                0x20u8
            } else {
                0u8
            }) | (if v {
                0x40u8
            } else {
                0u8
            }) | (if n {
                0x80u8
            } else {
                0u8
            }),
    ;
}

} // verus!
