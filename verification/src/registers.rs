use vstd::prelude::*;

verus! {

/// Identity of one of the seven 8-bit general registers.
#[derive(Clone, Copy, Debug, PartialEq, Eq, Structural)]
pub enum Reg {
    A,
    B,
    C,
    D,
    E,
    H,
    L,
}

/// Identity of one of the three 16-bit register pairs, each composed of two
/// 8-bit registers as `(high << 8) | low`.
#[derive(Clone, Copy, Debug, PartialEq, Eq, Structural)]
pub enum RegPair {
    BC,
    DE,
    HL,
}

/// The register file: seven 8-bit general registers, the 16-bit stack
/// pointer, and the program counter. The field types enforce the width
/// invariant: every write truncates to the declared 8 or 16 bits, and no
/// operation on this component can fail.
#[derive(Clone, Copy, Debug, PartialEq, Eq, Structural)]
pub struct RegisterFile {
    pub a: u8,
    pub b: u8,
    pub c: u8,
    pub d: u8,
    pub e: u8,
    pub h: u8,
    pub l: u8,
    pub sp: u16,
    pub pc: u16,
}

/// The 16-bit value a register pair composes: `(high << 8) | low`.
pub open spec fn spec_pair(hi: u8, lo: u8) -> int {
    hi * 256 + lo
}

impl RegisterFile {
    /// The value of the single register `r`.
    pub open spec fn spec_get(self, r: Reg) -> u8 {
        match r {
            Reg::A => self.a,
            Reg::B => self.b,
            Reg::C => self.c,
            Reg::D => self.d,
            Reg::E => self.e,
            Reg::H => self.h,
            Reg::L => self.l,
        }
    }

    /// The register file after writing `v` to the single register `r`.
    pub open spec fn spec_set(self, r: Reg, v: u8) -> RegisterFile {
        match r {
            Reg::A => RegisterFile { a: v, ..self },
            Reg::B => RegisterFile { b: v, ..self },
            Reg::C => RegisterFile { c: v, ..self },
            Reg::D => RegisterFile { d: v, ..self },
            Reg::E => RegisterFile { e: v, ..self },
            Reg::H => RegisterFile { h: v, ..self },
            Reg::L => RegisterFile { l: v, ..self },
        }
    }

    /// The composed 16-bit value of the pair `p`.
    pub open spec fn spec_get_pair(self, p: RegPair) -> int {
        match p {
            RegPair::BC => spec_pair(self.b, self.c),
            RegPair::DE => spec_pair(self.d, self.e),
            RegPair::HL => spec_pair(self.h, self.l),
        }
    }

    /// The register file after writing `v` to the pair `p`, decomposed into
    /// the high and low underlying registers.
    pub open spec fn spec_set_pair(self, p: RegPair, v: u16) -> RegisterFile {
        match p {
            RegPair::BC => RegisterFile { b: (v / 256) as u8, c: (v % 256) as u8, ..self },
            RegPair::DE => RegisterFile { d: (v / 256) as u8, e: (v % 256) as u8, ..self },
            RegPair::HL => RegisterFile { h: (v / 256) as u8, l: (v % 256) as u8, ..self },
        }
    }

    /// Read the single register `r`.
    pub fn get(&self, r: Reg) -> (v: u8)
        ensures
            v == self.spec_get(r),
    {
        match r {
            Reg::A => self.a,
            Reg::B => self.b,
            Reg::C => self.c,
            Reg::D => self.d,
            Reg::E => self.e,
            Reg::H => self.h,
            Reg::L => self.l,
        }
    }

    /// Write `v` to the single register `r`; every other register, the stack
    /// pointer and the program counter keep their values.
    pub fn set(&mut self, r: Reg, v: u8)
        ensures
            *final(self) == old(self).spec_set(r, v),
    {
        match r {
            Reg::A => self.a = v,
            Reg::B => self.b = v,
            Reg::C => self.c = v,
            Reg::D => self.d = v,
            Reg::E => self.e = v,
            Reg::H => self.h = v,
            Reg::L => self.l = v,
        }
    }

    /// Read the pair `p` as its composed 16-bit value.
    pub fn get_pair(&self, p: RegPair) -> (v: u16)
        ensures
            v == self.spec_get_pair(p),
    {
        let (hi, lo): (u8, u8) = match p {
            RegPair::BC => (self.b, self.c),
            RegPair::DE => (self.d, self.e),
            RegPair::HL => (self.h, self.l),
        };
        (hi as u16) * 256 + (lo as u16)
    }

    /// Write `v` to the pair `p`, decomposing it into the two underlying
    /// 8-bit registers; everything else keeps its value.
    pub fn set_pair(&mut self, p: RegPair, v: u16)
        ensures
            *final(self) == old(self).spec_set_pair(p, v),
    {
        let hi: u8 = (v / 256) as u8;
        let lo: u8 = (v % 256) as u8;
        match p {
            RegPair::BC => {
                self.b = hi;
                self.c = lo;
            },
            RegPair::DE => {
                self.d = hi;
                self.e = lo;
            },
            RegPair::HL => {
                self.h = hi;
                self.l = lo;
            },
        }
    }
}

/// Law: writing `v` to a single register and reading it back returns `v`,
/// for every register file, register identity and 8-bit value.
pub proof fn lemma_reg_roundtrip(rf: RegisterFile, r: Reg, v: u8)
    ensures
        rf.spec_set(r, v).spec_get(r) == v,
{
}

/// Law: writing `v` to a register pair and reading the pair back returns
/// `v`, for every register file, pair identity and 16-bit value.
pub proof fn lemma_pair_roundtrip(rf: RegisterFile, p: RegPair, v: u16)
    ensures
        rf.spec_set_pair(p, v).spec_get_pair(p) == v,
{
    assert(spec_pair((v / 256) as u8, (v % 256) as u8) == v) by (nonlinear_arith);
}

} // verus!
