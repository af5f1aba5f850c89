//! The register file: eight 8-bit registers, the two 16-bit counters,
//! paired 16-bit views and the packed flag bits of register F.

use vstd::prelude::*;

verus! {

/// Selector for one of the eight 8-bit registers.
#[derive(Copy, Clone, Debug, PartialEq, Eq, Structural)]
pub enum RegisterU8 {
    A,
    B,
    C,
    D,
    E,
    F,
    H,
    L,
}

/// Selector for one of the two 16-bit counters.
#[derive(Copy, Clone, Debug, PartialEq, Eq, Structural)]
pub enum RegisterU16 {
    SP,
    PC,
}

/// Selector for one of the four paired 16-bit views over the 8-bit
/// registers (high byte first).
#[derive(Copy, Clone, Debug, PartialEq, Eq, Structural)]
pub enum RegisterPair {
    AF,
    BC,
    DE,
    HL,
}

/// A 16-bit destination: a register pair, or one of the bare 16-bit
/// counters.
#[derive(Copy, Clone, Debug, PartialEq, Eq, Structural)]
pub enum Target {
    Pair(RegisterPair),
    Single(RegisterU16),
}

/// One of the four flag bits packed into register F.
#[derive(Copy, Clone, Debug, PartialEq, Eq, Structural)]
pub enum Flag {
    Z,
    N,
    H,
    C,
}

/// The register file.  The four flags occupy bits 7-4 of `f`
/// (Z = bit 7, N = bit 6, H = bit 5, C = bit 4); every flag and pair
/// operation of this crate keeps the low nibble of `f` zero.
pub struct Registers {
    /// Accumulator.
    pub a: u8,
    pub b: u8,
    pub c: u8,
    pub d: u8,
    pub e: u8,
    /// Flags, packed: Z in bit 7, N in bit 6, H in bit 5, C in bit 4.
    pub f: u8,
    pub h: u8,
    pub l: u8,
    /// Stack pointer.
    pub sp: u16,
    /// Program counter.
    pub pc: u16,
}

/// The byte that packs the four flag values into register F:
/// Z in bit 7, N in bit 6, H in bit 5, C in bit 4, low nibble zero.
pub open spec fn flag_bits(z: bool, n: bool, h: bool, c: bool) -> u8 {
    (if z { 0x80u8 } else { 0u8 }) | (if n { 0x40u8 } else { 0u8 })
        | (if h { 0x20u8 } else { 0u8 }) | (if c { 0x10u8 } else { 0u8 })
}

/// Each flag of a packed byte built by `flag_bits` reads back as the
/// value it was built from, and the low nibble of the byte is zero.
pub proof fn lemma_flag_bits(z: bool, n: bool, h: bool, c: bool)
    ensures
        flag_bits(z, n, h, c) & 0x80 != 0 <==> z,
        flag_bits(z, n, h, c) & 0x40 != 0 <==> n,
        flag_bits(z, n, h, c) & 0x20 != 0 <==> h,
        flag_bits(z, n, h, c) & 0x10 != 0 <==> c,
        flag_bits(z, n, h, c) & 0x0F == 0,
{
    let zb: u8 = if z { 0x80 } else { 0 };
    let nb: u8 = if n { 0x40 } else { 0 };
    let hb: u8 = if h { 0x20 } else { 0 };
    let cb: u8 = if c { 0x10 } else { 0 };
    assert((zb | nb | hb | cb) & 0x80 == zb
        && (zb | nb | hb | cb) & 0x40 == nb
        && (zb | nb | hb | cb) & 0x20 == hb
        && (zb | nb | hb | cb) & 0x10 == cb
        && (zb | nb | hb | cb) & 0x0F == 0) by (bit_vector)
        requires
            zb == 0 || zb == 0x80,
            nb == 0 || nb == 0x40,
            hb == 0 || hb == 0x20,
            cb == 0 || cb == 0x10,
    ;
}

impl Registers {
    /// The value of the 8-bit register that `r` selects.
    pub open spec fn spec_u8(self, r: RegisterU8) -> u8 {
        match r {
            RegisterU8::A => self.a,
            RegisterU8::B => self.b,
            RegisterU8::C => self.c,
            RegisterU8::D => self.d,
            RegisterU8::E => self.e,
            RegisterU8::F => self.f,
            RegisterU8::H => self.h,
            RegisterU8::L => self.l,
        }
    }

    /// The register file after writing `v` to the register that `r`
    /// selects.
    pub open spec fn spec_with_u8(self, r: RegisterU8, v: u8) -> Registers {
        match r {
            RegisterU8::A => Registers { a: v, ..self },
            RegisterU8::B => Registers { b: v, ..self },
            RegisterU8::C => Registers { c: v, ..self },
            RegisterU8::D => Registers { d: v, ..self },
            RegisterU8::E => Registers { e: v, ..self },
            RegisterU8::F => Registers { f: v, ..self },
            RegisterU8::H => Registers { h: v, ..self },
            RegisterU8::L => Registers { l: v, ..self },
        }
    }

    /// The value of the 16-bit counter that `r` selects.
    pub open spec fn spec_u16(self, r: RegisterU16) -> u16 {
        match r {
            RegisterU16::SP => self.sp,
            RegisterU16::PC => self.pc,
        }
    }

    /// The register file after writing `v` to the counter that `r`
    /// selects.
    pub open spec fn spec_with_u16(self, r: RegisterU16, v: u16) -> Registers {
        match r {
            RegisterU16::SP => Registers { sp: v, ..self },
            RegisterU16::PC => Registers { pc: v, ..self },
        }
    }

    /// The big-endian 16-bit value of the pair that `p` selects
    /// (high byte = first-named register).
    pub open spec fn spec_pair(self, p: RegisterPair) -> u16 {
        match p {
            RegisterPair::AF => (self.a * 256 + self.f) as u16,
            RegisterPair::BC => (self.b * 256 + self.c) as u16,
            RegisterPair::DE => (self.d * 256 + self.e) as u16,
            RegisterPair::HL => (self.h * 256 + self.l) as u16,
        }
    }

    /// The register file after writing `v` to the pair that `p`
    /// selects: the high byte goes to the first-named register, the low
    /// byte to the second.  A write to AF keeps the low nibble of F
    /// zero, as the flag layout demands.
    pub open spec fn spec_with_pair(self, p: RegisterPair, v: u16) -> Registers {
        let hi = (v / 256) as u8;
        let lo = (v % 256) as u8;
        match p {
            RegisterPair::AF => Registers { a: hi, f: lo & 0xF0, ..self },
            RegisterPair::BC => Registers { b: hi, c: lo, ..self },
            RegisterPair::DE => Registers { d: hi, e: lo, ..self },
            RegisterPair::HL => Registers { h: hi, l: lo, ..self },
        }
    }

    /// The register file with `f` replaced.
    pub open spec fn spec_with_f(self, f: u8) -> Registers {
        Registers { f, ..self }
    }

    /// The zero flag: bit 7 of F.
    pub open spec fn spec_z(self) -> bool {
        self.f & 0x80 != 0
    }

    /// The subtraction flag: bit 6 of F.
    pub open spec fn spec_n(self) -> bool {
        self.f & 0x40 != 0
    }

    /// The half-carry flag: bit 5 of F.
    pub open spec fn spec_h(self) -> bool {
        self.f & 0x20 != 0
    }

    /// The carry flag: bit 4 of F.
    pub open spec fn spec_c(self) -> bool {
        self.f & 0x10 != 0
    }

    /// The value of the flag that `cc` selects.
    pub open spec fn spec_flag(self, cc: Flag) -> bool {
        match cc {
            Flag::Z => self.spec_z(),
            Flag::N => self.spec_n(),
            Flag::H => self.spec_h(),
            Flag::C => self.spec_c(),
        }
    }

    /// The flag layout invariant: the low nibble of F is zero.
    pub open spec fn flags_clean(self) -> bool {
        self.f & 0x0F == 0
    }

    /// A register file with every register and counter zero.
    pub fn new() -> (r: Registers)
        ensures
            r.a == 0 && r.b == 0 && r.c == 0 && r.d == 0 && r.e == 0,
            r.f == 0 && r.h == 0 && r.l == 0 && r.sp == 0 && r.pc == 0,
    {
        Registers { a: 0, b: 0, c: 0, d: 0, e: 0, f: 0, h: 0, l: 0, sp: 0, pc: 0 }
    }

    /// Selector-indexed read of an 8-bit register.
    pub fn get_u8(&self, r: RegisterU8) -> (v: u8)
        ensures
            v == self.spec_u8(r),
    {
        match r {
            RegisterU8::A => self.a,
            RegisterU8::B => self.b,
            RegisterU8::C => self.c,
            RegisterU8::D => self.d,
            RegisterU8::E => self.e,
            RegisterU8::F => self.f,
            RegisterU8::H => self.h,
            RegisterU8::L => self.l,
        }
    }

    /// Selector-indexed write of an 8-bit register.
    pub fn set_u8(&mut self, r: RegisterU8, v: u8)
        ensures
            *final(self) == old(self).spec_with_u8(r, v),
    {
        match r {
            RegisterU8::A => self.a = v,
            RegisterU8::B => self.b = v,
            RegisterU8::C => self.c = v,
            RegisterU8::D => self.d = v,
            RegisterU8::E => self.e = v,
            RegisterU8::F => self.f = v,
            RegisterU8::H => self.h = v,
            RegisterU8::L => self.l = v,
        }
    }

    /// Selector-indexed read of a 16-bit counter.
    pub fn get_u16(&self, r: RegisterU16) -> (v: u16)
        ensures
            v == self.spec_u16(r),
    {
        match r {
            RegisterU16::SP => self.sp,
            RegisterU16::PC => self.pc,
        }
    }

    /// Selector-indexed write of a 16-bit counter.
    pub fn set_u16(&mut self, r: RegisterU16, v: u16)
        ensures
            *final(self) == old(self).spec_with_u16(r, v),
    {
        match r {
            RegisterU16::SP => self.sp = v,
            RegisterU16::PC => self.pc = v,
        }
    }

    /// Reads a pair as one big-endian 16-bit value.
    pub fn get_pair(&self, case: RegisterPair) -> (v: u16)
        ensures
            v == self.spec_pair(case),
    {
        match case {
            RegisterPair::AF => (self.a as u16) * 256 + (self.f as u16),
            RegisterPair::BC => (self.b as u16) * 256 + (self.c as u16),
            RegisterPair::DE => (self.d as u16) * 256 + (self.e as u16),
            RegisterPair::HL => (self.h as u16) * 256 + (self.l as u16),
        }
    }

    /// Writes a pair from one big-endian 16-bit value.  A write to AF
    /// masks the low nibble of F to zero, preserving the flag layout.
    pub fn set_pair(&mut self, case: RegisterPair, value: u16)
        ensures
            *final(self) == old(self).spec_with_pair(case, value),
    {
        let hi = (value / 256) as u8;
        let lo = (value % 256) as u8;
        match case {
            RegisterPair::AF => {
                self.a = hi;
                self.f = lo & 0xF0;
            },
            RegisterPair::BC => {
                self.b = hi;
                self.c = lo;
            },
            RegisterPair::DE => {
                self.d = hi;
                self.e = lo;
            },
            RegisterPair::HL => {
                self.h = hi;
                self.l = lo;
            },
        }
    }

    /// Reads the zero flag.
    pub fn get_z_flag(&self) -> (r: bool)
        ensures
            r == self.spec_z(),
    {
        self.f & 0x80 != 0
    }

    /// Reads the subtraction flag.
    pub fn get_n_flag(&self) -> (r: bool)
        ensures
            r == self.spec_n(),
    {
        self.f & 0x40 != 0
    }

    /// Reads the half-carry flag.
    pub fn get_h_flag(&self) -> (r: bool)
        ensures
            r == self.spec_h(),
    {
        self.f & 0x20 != 0
    }

    /// Reads the carry flag.
    pub fn get_c_flag(&self) -> (r: bool)
        ensures
            r == self.spec_c(),
    {
        self.f & 0x10 != 0
    }

    /// Sets the zero flag.
    pub fn set_z_flag(&mut self)
        ensures
            *final(self) == old(self).spec_with_f(old(self).f | 0x80),
    {
        self.f = self.f | 0x80;
    }

    /// Clears the zero flag.
    pub fn unset_z_flag(&mut self)
        ensures
            *final(self) == old(self).spec_with_f(old(self).f & 0x7F),
    {
        self.f = self.f & 0x7F;
    }

    /// Sets the subtraction flag.
    pub fn set_n_flag(&mut self)
        ensures
            *final(self) == old(self).spec_with_f(old(self).f | 0x40),
    {
        self.f = self.f | 0x40;
    }

    /// Clears the subtraction flag.
    pub fn unset_n_flag(&mut self)
        ensures
            *final(self) == old(self).spec_with_f(old(self).f & 0xBF),
    {
        self.f = self.f & 0xBF;
    }

    /// Sets the half-carry flag.
    pub fn set_h_flag(&mut self)
        ensures
            *final(self) == old(self).spec_with_f(old(self).f | 0x20),
    {
        self.f = self.f | 0x20;
    }

    /// Clears the half-carry flag.
    pub fn unset_h_flag(&mut self)
        ensures
            *final(self) == old(self).spec_with_f(old(self).f & 0xDF),
    {
        self.f = self.f & 0xDF;
    }

    /// Sets the carry flag.
    pub fn set_c_flag(&mut self)
        ensures
            *final(self) == old(self).spec_with_f(old(self).f | 0x10),
    {
        self.f = self.f | 0x10;
    }

    /// Clears the carry flag.
    pub fn unset_c_flag(&mut self)
        ensures
            *final(self) == old(self).spec_with_f(old(self).f & 0xEF),
    {
        self.f = self.f & 0xEF;
    }

    /// Writes all four flags at once as one packed byte, leaving the
    /// low nibble of F zero.
    pub fn set_flags(&mut self, z: bool, n: bool, h: bool, c: bool)
        ensures
            *final(self) == old(self).spec_with_f(flag_bits(z, n, h, c)),
    {
        let zb: u8 = if z { 0x80 } else { 0 };
        let nb: u8 = if n { 0x40 } else { 0 };
        let hb: u8 = if h { 0x20 } else { 0 };
        let cb: u8 = if c { 0x10 } else { 0 };
        self.f = zb | nb | hb | cb;
    }
}

} // verus!
