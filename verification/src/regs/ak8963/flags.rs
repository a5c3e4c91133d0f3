//! Flags and register values of the AK8963.

use crate::bits::{lemma_code, lemma_fields, lemma_masks, lemma_within, within};
use vstd::prelude::*;
use vstd::std_specs::convert::FromSpecImpl;

verus! {

/// Operating mode of the magnetometer, bits 3..0 of `CNTL1`.
#[allow(non_camel_case_types)]
#[derive(Debug, Clone, Copy, PartialEq, Eq, Structural)]
pub enum CNTL1_MODE {
    POWER_DOWN,
    /// Take one measurement, then power down
    SINGLE_MEASUREMENT,
    /// Sample at 8Hz
    CONTINUOUS_1,
    /// Sample at 100Hz
    CONTINUOUS_2,
    /// Sample on rising-edge on TRG pin
    EXTERNAL_TRG,
    SELF_TEST,
    FUSE_ROM_ACCESS,
}

impl CNTL1_MODE {
    /// The mode's code in bits 3..0.
    pub open spec fn spec_code(self) -> u8 {
        match self {
            CNTL1_MODE::POWER_DOWN => 0b0000,
            CNTL1_MODE::SINGLE_MEASUREMENT => 0b0001,
            CNTL1_MODE::CONTINUOUS_1 => 0b0010,
            CNTL1_MODE::CONTINUOUS_2 => 0b0110,
            CNTL1_MODE::EXTERNAL_TRG => 0b0100,
            CNTL1_MODE::SELF_TEST => 0b1000,
            CNTL1_MODE::FUSE_ROM_ACCESS => 0b1111,
        }
    }

    /// The mode's code in bits 3..0.
    #[verifier::when_used_as_spec(spec_code)]
    pub fn code(self) -> (c: u8)
        ensures
            c == self.spec_code(),
            c < 16,
    {
        match self {
            CNTL1_MODE::POWER_DOWN => 0b0000,
            CNTL1_MODE::SINGLE_MEASUREMENT => 0b0001,
            CNTL1_MODE::CONTINUOUS_1 => 0b0010,
            CNTL1_MODE::CONTINUOUS_2 => 0b0110,
            CNTL1_MODE::EXTERNAL_TRG => 0b0100,
            CNTL1_MODE::SELF_TEST => 0b1000,
            CNTL1_MODE::FUSE_ROM_ACCESS => 0b1111,
        }
    }

    /// The mode that `code` names, if any.
    pub open spec fn spec_from_code(code: u8) -> Option<CNTL1_MODE> {
        if code == 0b0000 {
            Some(CNTL1_MODE::POWER_DOWN)
        } else if code == 0b0001 {
            Some(CNTL1_MODE::SINGLE_MEASUREMENT)
        } else if code == 0b0010 {
            Some(CNTL1_MODE::CONTINUOUS_1)
        } else if code == 0b0110 {
            Some(CNTL1_MODE::CONTINUOUS_2)
        } else if code == 0b0100 {
            Some(CNTL1_MODE::EXTERNAL_TRG)
        } else if code == 0b1000 {
            Some(CNTL1_MODE::SELF_TEST)
        } else if code == 0b1111 {
            Some(CNTL1_MODE::FUSE_ROM_ACCESS)
        } else {
            None
        }
    }

    /// The mode that `code` names; codes that name no mode are rejected.
    #[verifier::when_used_as_spec(spec_from_code)]
    pub fn from_code(code: u8) -> (r: Option<CNTL1_MODE>)
        ensures
            r == Self::spec_from_code(code),
            r matches Some(m) ==> m.code() == code,
            r is None ==> forall|m: CNTL1_MODE| m.code() != code,
    {
        match code {
            0b0000 => Some(CNTL1_MODE::POWER_DOWN),
            0b0001 => Some(CNTL1_MODE::SINGLE_MEASUREMENT),
            0b0010 => Some(CNTL1_MODE::CONTINUOUS_1),
            0b0110 => Some(CNTL1_MODE::CONTINUOUS_2),
            0b0100 => Some(CNTL1_MODE::EXTERNAL_TRG),
            0b1000 => Some(CNTL1_MODE::SELF_TEST),
            0b1111 => Some(CNTL1_MODE::FUSE_ROM_ACCESS),
            _ => None,
        }
    }

    /// A code names the choice that it stands for, and a code that names a
    /// choice is that choice's code.
    pub proof fn law_from_code(self, code: u8)
        ensures
            Self::from_code(self.code()) == Some(self),
            Self::from_code(code) == Some(self) ==> self.code() == code,
    {
    }
}

impl Default for CNTL1_MODE {
    fn default() -> (r: Self)
        ensures
            r == CNTL1_MODE::POWER_DOWN,
    {
        CNTL1_MODE::POWER_DOWN
    }
}

/// Status 1.
#[derive(Clone, Copy, Debug, PartialEq, Eq, Structural)]
#[allow(non_camel_case_types)]
pub struct ST1 {
    bits: u8,
}

impl ST1 {
    /// Data is ready
    pub const DRDY: u8 = 0b00000001;

    /// Data was overrun: a measurement was skipped
    pub const DOR: u8 = 0b00000010;

    /// Every defined flag.
    pub const ALL: u8 = 0b00000011;

    /// The register byte that holds exactly these flags.
    pub closed spec fn view(self) -> u8 {
        self.bits
    }

    /// Only defined flags are set.
    #[verifier::type_invariant]
    pub open spec fn wf(self) -> bool {
        within(self@, Self::ALL)
    }

    /// The defined flags of `bits`.
    pub closed spec fn truncated(bits: u8) -> Self {
        ST1 { bits: bits & Self::ALL }
    }

    /// Truncation keeps the defined bits, and every well-formed set is the
    /// truncation of its own byte.
    pub proof fn law_truncated(self, bits: u8)
        ensures
            Self::truncated(bits)@ == bits & Self::ALL,
            Self::truncated(bits).wf(),
            self.wf() ==> Self::truncated(self@) == self,
    {
        lemma_within(bits, 0, Self::ALL);
        lemma_within(self.bits, 0, Self::ALL);
    }

    /// Flag sets with the same byte are the same set.
    pub proof fn lemma_same(self, other: Self)
        requires
            self@ == other@,
        ensures
            self == other,
    {
    }

    /// No flag set.
    pub fn empty() -> (r: Self)
        ensures
            r@ == 0,
            r.wf(),
    {
        proof {
            lemma_within(0, 0, Self::ALL);
        }
        ST1 { bits: 0 }
    }

    /// The register byte.
    pub fn bits(&self) -> (b: u8)
        ensures
            b == self@,
            self.wf(),
    {
        proof {
            use_type_invariant(self);
        }
        self.bits
    }

    /// The flags of `bits`, or `None` where `bits` sets an undefined bit.
    pub fn from_bits(bits: u8) -> (r: Option<Self>)
        ensures
            r is Some <==> within(bits, Self::ALL),
            r matches Some(f) ==> f@ == bits && f.wf(),
    {
        if bits & !Self::ALL == 0 {
            Some(ST1 { bits })
        } else {
            None
        }
    }

    /// The defined flags of `bits`; undefined bits are dropped.
    pub fn from_bits_truncate(bits: u8) -> (r: Self)
        ensures
            r == Self::truncated(bits),
            r@ == bits & Self::ALL,
            r.wf(),
    {
        proof {
            lemma_within(bits, 0, Self::ALL);
        }
        ST1 { bits: bits & Self::ALL }
    }

    /// True when no flag is set.
    pub fn is_empty(&self) -> (r: bool)
        ensures
            r == (self@ == 0),
    {
        self.bits == 0
    }

    /// True when every bit of `flags` is set.
    pub fn contains(&self, flags: u8) -> (r: bool)
        ensures
            r == (self@ & flags == flags),
    {
        self.bits & flags == flags
    }

    /// The flags of either set.
    pub fn union(self, other: Self) -> (r: Self)
        ensures
            r@ == self@ | other@,
            r.wf(),
    {
        proof {
            use_type_invariant(&self);
            use_type_invariant(&other);
            lemma_within(self.bits, other.bits, Self::ALL);
        }
        ST1 { bits: self.bits | other.bits }
    }
}

impl Default for ST1 {
    fn default() -> (r: Self)
        ensures
            r@ == 0,
            r.wf(),
    {
        ST1::empty()
    }
}

/// Status 2. Reading it ends the read of a measurement.
#[derive(Clone, Copy, Debug, PartialEq, Eq, Structural)]
#[allow(non_camel_case_types)]
pub struct ST2 {
    bits: u8,
}

impl ST2 {
    /// The magnetic sensor overflowed
    pub const HOFL: u8 = 0b00000100;

    /// Mirror of the output width bit of `CNTL1`
    pub const BITM: u8 = 0b00010000;

    /// Every defined flag.
    pub const ALL: u8 = 0b00010100;

    /// The register byte that holds exactly these flags.
    pub closed spec fn view(self) -> u8 {
        self.bits
    }

    /// Only defined flags are set.
    #[verifier::type_invariant]
    pub open spec fn wf(self) -> bool {
        within(self@, Self::ALL)
    }

    /// The defined flags of `bits`.
    pub closed spec fn truncated(bits: u8) -> Self {
        ST2 { bits: bits & Self::ALL }
    }

    /// Truncation keeps the defined bits, and every well-formed set is the
    /// truncation of its own byte.
    pub proof fn law_truncated(self, bits: u8)
        ensures
            Self::truncated(bits)@ == bits & Self::ALL,
            Self::truncated(bits).wf(),
            self.wf() ==> Self::truncated(self@) == self,
    {
        lemma_within(bits, 0, Self::ALL);
        lemma_within(self.bits, 0, Self::ALL);
    }

    /// Flag sets with the same byte are the same set.
    pub proof fn lemma_same(self, other: Self)
        requires
            self@ == other@,
        ensures
            self == other,
    {
    }

    /// No flag set.
    pub fn empty() -> (r: Self)
        ensures
            r@ == 0,
            r.wf(),
    {
        proof {
            lemma_within(0, 0, Self::ALL);
        }
        ST2 { bits: 0 }
    }

    /// The register byte.
    pub fn bits(&self) -> (b: u8)
        ensures
            b == self@,
            self.wf(),
    {
        proof {
            use_type_invariant(self);
        }
        self.bits
    }

    /// The flags of `bits`, or `None` where `bits` sets an undefined bit.
    pub fn from_bits(bits: u8) -> (r: Option<Self>)
        ensures
            r is Some <==> within(bits, Self::ALL),
            r matches Some(f) ==> f@ == bits && f.wf(),
    {
        if bits & !Self::ALL == 0 {
            Some(ST2 { bits })
        } else {
            None
        }
    }

    /// The defined flags of `bits`; undefined bits are dropped.
    pub fn from_bits_truncate(bits: u8) -> (r: Self)
        ensures
            r == Self::truncated(bits),
            r@ == bits & Self::ALL,
            r.wf(),
    {
        proof {
            lemma_within(bits, 0, Self::ALL);
        }
        ST2 { bits: bits & Self::ALL }
    }

    /// True when no flag is set.
    pub fn is_empty(&self) -> (r: bool)
        ensures
            r == (self@ == 0),
    {
        self.bits == 0
    }

    /// True when every bit of `flags` is set.
    pub fn contains(&self, flags: u8) -> (r: bool)
        ensures
            r == (self@ & flags == flags),
    {
        self.bits & flags == flags
    }

    /// The flags of either set.
    pub fn union(self, other: Self) -> (r: Self)
        ensures
            r@ == self@ | other@,
            r.wf(),
    {
        proof {
            use_type_invariant(&self);
            use_type_invariant(&other);
            lemma_within(self.bits, other.bits, Self::ALL);
        }
        ST2 { bits: self.bits | other.bits }
    }
}

impl Default for ST2 {
    fn default() -> (r: Self)
        ensures
            r@ == 0,
            r.wf(),
    {
        ST2::empty()
    }
}

/// Self test control.
#[derive(Clone, Copy, Debug, PartialEq, Eq, Structural)]
#[allow(non_camel_case_types)]
pub struct ASTC {
    bits: u8,
}

impl ASTC {
    /// Generate a magnetic field for self test
    pub const SELF: u8 = 0b01000000;

    /// Every defined flag.
    pub const ALL: u8 = 0b01000000;

    /// The register byte that holds exactly these flags.
    pub closed spec fn view(self) -> u8 {
        self.bits
    }

    /// Only defined flags are set.
    #[verifier::type_invariant]
    pub open spec fn wf(self) -> bool {
        within(self@, Self::ALL)
    }

    /// The defined flags of `bits`.
    pub closed spec fn truncated(bits: u8) -> Self {
        ASTC { bits: bits & Self::ALL }
    }

    /// Truncation keeps the defined bits, and every well-formed set is the
    /// truncation of its own byte.
    pub proof fn law_truncated(self, bits: u8)
        ensures
            Self::truncated(bits)@ == bits & Self::ALL,
            Self::truncated(bits).wf(),
            self.wf() ==> Self::truncated(self@) == self,
    {
        lemma_within(bits, 0, Self::ALL);
        lemma_within(self.bits, 0, Self::ALL);
    }

    /// Flag sets with the same byte are the same set.
    pub proof fn lemma_same(self, other: Self)
        requires
            self@ == other@,
        ensures
            self == other,
    {
    }

    /// No flag set.
    pub fn empty() -> (r: Self)
        ensures
            r@ == 0,
            r.wf(),
    {
        proof {
            lemma_within(0, 0, Self::ALL);
        }
        ASTC { bits: 0 }
    }

    /// The register byte.
    pub fn bits(&self) -> (b: u8)
        ensures
            b == self@,
            self.wf(),
    {
        proof {
            use_type_invariant(self);
        }
        self.bits
    }

    /// The flags of `bits`, or `None` where `bits` sets an undefined bit.
    pub fn from_bits(bits: u8) -> (r: Option<Self>)
        ensures
            r is Some <==> within(bits, Self::ALL),
            r matches Some(f) ==> f@ == bits && f.wf(),
    {
        if bits & !Self::ALL == 0 {
            Some(ASTC { bits })
        } else {
            None
        }
    }

    /// The defined flags of `bits`; undefined bits are dropped.
    pub fn from_bits_truncate(bits: u8) -> (r: Self)
        ensures
            r == Self::truncated(bits),
            r@ == bits & Self::ALL,
            r.wf(),
    {
        proof {
            lemma_within(bits, 0, Self::ALL);
        }
        ASTC { bits: bits & Self::ALL }
    }

    /// True when no flag is set.
    pub fn is_empty(&self) -> (r: bool)
        ensures
            r == (self@ == 0),
    {
        self.bits == 0
    }

    /// True when every bit of `flags` is set.
    pub fn contains(&self, flags: u8) -> (r: bool)
        ensures
            r == (self@ & flags == flags),
    {
        self.bits & flags == flags
    }

    /// The flags of either set.
    pub fn union(self, other: Self) -> (r: Self)
        ensures
            r@ == self@ | other@,
            r.wf(),
    {
        proof {
            use_type_invariant(&self);
            use_type_invariant(&other);
            lemma_within(self.bits, other.bits, Self::ALL);
        }
        ASTC { bits: self.bits | other.bits }
    }
}

impl Default for ASTC {
    fn default() -> (r: Self)
        ensures
            r@ == 0,
            r.wf(),
    {
        ASTC::empty()
    }
}

/// Output width selection of `CNTL1`.
#[derive(Clone, Copy, Debug, PartialEq, Eq, Structural)]
#[allow(non_camel_case_types)]
pub struct CNTL1_OUTPUT {
    bits: u8,
}

impl CNTL1_OUTPUT {
    /// Set for 16-bit output, else 14-bit
    pub const SIXTEEN_BIT_EN: u8 = 0b01000000;

    /// Every defined flag.
    pub const ALL: u8 = 0b01000000;

    /// The register byte that holds exactly these flags.
    pub closed spec fn view(self) -> u8 {
        self.bits
    }

    /// Only defined flags are set.
    #[verifier::type_invariant]
    pub open spec fn wf(self) -> bool {
        within(self@, Self::ALL)
    }

    /// The defined flags of `bits`.
    pub closed spec fn truncated(bits: u8) -> Self {
        CNTL1_OUTPUT { bits: bits & Self::ALL }
    }

    /// Truncation keeps the defined bits, and every well-formed set is the
    /// truncation of its own byte.
    pub proof fn law_truncated(self, bits: u8)
        ensures
            Self::truncated(bits)@ == bits & Self::ALL,
            Self::truncated(bits).wf(),
            self.wf() ==> Self::truncated(self@) == self,
    {
        lemma_within(bits, 0, Self::ALL);
        lemma_within(self.bits, 0, Self::ALL);
    }

    /// Flag sets with the same byte are the same set.
    pub proof fn lemma_same(self, other: Self)
        requires
            self@ == other@,
        ensures
            self == other,
    {
    }

    /// No flag set.
    pub fn empty() -> (r: Self)
        ensures
            r@ == 0,
            r.wf(),
    {
        proof {
            lemma_within(0, 0, Self::ALL);
        }
        CNTL1_OUTPUT { bits: 0 }
    }

    /// The register byte.
    pub fn bits(&self) -> (b: u8)
        ensures
            b == self@,
            self.wf(),
    {
        proof {
            use_type_invariant(self);
        }
        self.bits
    }

    /// The flags of `bits`, or `None` where `bits` sets an undefined bit.
    pub fn from_bits(bits: u8) -> (r: Option<Self>)
        ensures
            r is Some <==> within(bits, Self::ALL),
            r matches Some(f) ==> f@ == bits && f.wf(),
    {
        if bits & !Self::ALL == 0 {
            Some(CNTL1_OUTPUT { bits })
        } else {
            None
        }
    }

    /// The defined flags of `bits`; undefined bits are dropped.
    pub fn from_bits_truncate(bits: u8) -> (r: Self)
        ensures
            r == Self::truncated(bits),
            r@ == bits & Self::ALL,
            r.wf(),
    {
        proof {
            lemma_within(bits, 0, Self::ALL);
        }
        CNTL1_OUTPUT { bits: bits & Self::ALL }
    }

    /// True when no flag is set.
    pub fn is_empty(&self) -> (r: bool)
        ensures
            r == (self@ == 0),
    {
        self.bits == 0
    }

    /// True when every bit of `flags` is set.
    pub fn contains(&self, flags: u8) -> (r: bool)
        ensures
            r == (self@ & flags == flags),
    {
        self.bits & flags == flags
    }

    /// The flags of either set.
    pub fn union(self, other: Self) -> (r: Self)
        ensures
            r@ == self@ | other@,
            r.wf(),
    {
        proof {
            use_type_invariant(&self);
            use_type_invariant(&other);
            lemma_within(self.bits, other.bits, Self::ALL);
        }
        CNTL1_OUTPUT { bits: self.bits | other.bits }
    }
}

impl Default for CNTL1_OUTPUT {
    fn default() -> (r: Self)
        ensures
            r@ == 0,
            r.wf(),
    {
        CNTL1_OUTPUT::empty()
    }
}

/// Control 2: soft reset.
#[derive(Clone, Copy, Debug, PartialEq, Eq, Structural)]
#[allow(non_camel_case_types)]
pub struct CNTL2 {
    bits: u8,
}

impl CNTL2 {
    /// Soft reset; clears itself
    pub const SRST: u8 = 0b00000001;

    /// Every defined flag.
    pub const ALL: u8 = 0b00000001;

    /// The register byte that holds exactly these flags.
    pub closed spec fn view(self) -> u8 {
        self.bits
    }

    /// Only defined flags are set.
    #[verifier::type_invariant]
    pub open spec fn wf(self) -> bool {
        within(self@, Self::ALL)
    }

    /// The defined flags of `bits`.
    pub closed spec fn truncated(bits: u8) -> Self {
        CNTL2 { bits: bits & Self::ALL }
    }

    /// Truncation keeps the defined bits, and every well-formed set is the
    /// truncation of its own byte.
    pub proof fn law_truncated(self, bits: u8)
        ensures
            Self::truncated(bits)@ == bits & Self::ALL,
            Self::truncated(bits).wf(),
            self.wf() ==> Self::truncated(self@) == self,
    {
        lemma_within(bits, 0, Self::ALL);
        lemma_within(self.bits, 0, Self::ALL);
    }

    /// Flag sets with the same byte are the same set.
    pub proof fn lemma_same(self, other: Self)
        requires
            self@ == other@,
        ensures
            self == other,
    {
    }

    /// No flag set.
    pub fn empty() -> (r: Self)
        ensures
            r@ == 0,
            r.wf(),
    {
        proof {
            lemma_within(0, 0, Self::ALL);
        }
        CNTL2 { bits: 0 }
    }

    /// The register byte.
    pub fn bits(&self) -> (b: u8)
        ensures
            b == self@,
            self.wf(),
    {
        proof {
            use_type_invariant(self);
        }
        self.bits
    }

    /// The flags of `bits`, or `None` where `bits` sets an undefined bit.
    pub fn from_bits(bits: u8) -> (r: Option<Self>)
        ensures
            r is Some <==> within(bits, Self::ALL),
            r matches Some(f) ==> f@ == bits && f.wf(),
    {
        if bits & !Self::ALL == 0 {
            Some(CNTL2 { bits })
        } else {
            None
        }
    }

    /// The defined flags of `bits`; undefined bits are dropped.
    pub fn from_bits_truncate(bits: u8) -> (r: Self)
        ensures
            r == Self::truncated(bits),
            r@ == bits & Self::ALL,
            r.wf(),
    {
        proof {
            lemma_within(bits, 0, Self::ALL);
        }
        CNTL2 { bits: bits & Self::ALL }
    }

    /// True when no flag is set.
    pub fn is_empty(&self) -> (r: bool)
        ensures
            r == (self@ == 0),
    {
        self.bits == 0
    }

    /// True when every bit of `flags` is set.
    pub fn contains(&self, flags: u8) -> (r: bool)
        ensures
            r == (self@ & flags == flags),
    {
        self.bits & flags == flags
    }

    /// The flags of either set.
    pub fn union(self, other: Self) -> (r: Self)
        ensures
            r@ == self@ | other@,
            r.wf(),
    {
        proof {
            use_type_invariant(&self);
            use_type_invariant(&other);
            lemma_within(self.bits, other.bits, Self::ALL);
        }
        CNTL2 { bits: self.bits | other.bits }
    }
}

impl Default for CNTL2 {
    fn default() -> (r: Self)
        ensures
            r@ == 0,
            r.wf(),
    {
        CNTL2::empty()
    }
}


/// Control 1: operating mode and output width.
#[allow(non_camel_case_types)]
#[derive(Debug, Clone, Copy, PartialEq, Eq, Structural)]
pub struct CNTL1 {
    pub mode: CNTL1_MODE,
    pub output: CNTL1_OUTPUT,
}

impl CNTL1 {
    /// The bits of the register that carry meaning.
    pub const MASK: u8 = 0b0100_1111;

    /// The output flags hold only defined bits.
    pub open spec fn wf(self) -> bool {
        self.output.wf()
    }

    /// The register byte for this value.
    pub open spec fn spec_encode(self) -> u8 {
        self.output@ | self.mode.code()
    }

    /// The value that `byte` holds, if its mode code names a mode.
    pub open spec fn spec_decode(byte: u8) -> Option<CNTL1> {
        match CNTL1_MODE::from_code(byte & 0x0F) {
            Some(mode) => Some(CNTL1 { mode, output: CNTL1_OUTPUT::truncated(byte) }),
            None => None,
        }
    }

    /// Power-down mode with 14-bit output: the register's reset value.
    pub fn power_down() -> (r: Self)
        ensures
            r.mode == CNTL1_MODE::POWER_DOWN,
            r.output@ == 0,
            r.wf(),
            r.encode() == 0,
    {
        proof {
            lemma_code(0);
        }
        CNTL1 { mode: CNTL1_MODE::POWER_DOWN, output: CNTL1_OUTPUT::empty() }
    }

    /// `mode` with 14-bit output.
    pub fn with_mode(mode: CNTL1_MODE) -> (r: Self)
        ensures
            r.mode == mode,
            r.output@ == 0,
            r.wf(),
            r.encode() == mode.code(),
    {
        proof {
            lemma_code(mode.code());
        }
        CNTL1 { mode, output: CNTL1_OUTPUT::empty() }
    }

    /// The register byte for this value.
    #[verifier::when_used_as_spec(spec_encode)]
    pub fn encode(self) -> (b: u8)
        ensures
            b == self.spec_encode(),
    {
        self.output.bits() | self.mode.code()
    }

    /// The value that `byte` holds. A byte whose mode code names no mode is
    /// rejected.
    #[verifier::when_used_as_spec(spec_decode)]
    pub fn decode(byte: u8) -> (r: Option<CNTL1>)
        ensures
            r == Self::spec_decode(byte),
            r is Some <==> CNTL1_MODE::from_code(byte & 0x0F) is Some,
            r matches Some(v) ==> v.wf(),
    {
        match CNTL1_MODE::from_code(byte & 0x0F) {
            Some(mode) => Some(CNTL1 { mode, output: CNTL1_OUTPUT::from_bits_truncate(byte) }),
            None => None,
        }
    }

    /// Decoding an encoded value gives the value back.
    pub proof fn law_decode_encode(self)
        requires
            self.wf(),
        ensures
            Self::decode(self.encode()) == Some(self),
    {
        let o = self.output@;
        let c = self.mode.code();
        lemma_code(c);
        lemma_masks();
        lemma_fields(o, c, CNTL1_OUTPUT::ALL, 0x0F, 0);
    }

    /// Encoding a decoded byte gives the byte's meaningful bits back.
    pub proof fn law_encode_decode(byte: u8)
        requires
            Self::decode(byte) is Some,
        ensures
            Self::decode(byte).unwrap().encode() == byte & Self::MASK,
    {
        lemma_masks();
        lemma_fields(0, 0, CNTL1_OUTPUT::ALL, 0x0F, byte);
    }
}

impl Default for CNTL1 {
    fn default() -> (r: Self)
        ensures
            r.mode == CNTL1_MODE::POWER_DOWN,
            r.output@ == 0,
            r.wf(),
    {
        CNTL1::power_down()
    }
}

impl From<CNTL1> for u8 {
    fn from(cntl: CNTL1) -> (b: u8) {
        cntl.encode()
    }
}

impl FromSpecImpl<CNTL1> for u8 {
    open spec fn obeys_from_spec() -> bool {
        true
    }

    open spec fn from_spec(cntl: CNTL1) -> u8 {
        cntl.encode()
    }
}

/// The value that switches the AK8963's own I2C interface off.
#[derive(Debug, Clone, Copy, PartialEq, Eq, Structural)]
pub struct I2CDIS;

impl I2CDIS {
    /// The one byte that the register accepts.
    pub const MAGIC: u8 = 0b0001_1011;

    /// The register byte.
    pub fn encode(self) -> (b: u8)
        ensures
            b == Self::MAGIC,
    {
        Self::MAGIC
    }

    /// The value that `byte` holds: any byte but the magic one is rejected.
    pub fn decode(byte: u8) -> (r: Option<I2CDIS>)
        ensures
            r is Some <==> byte == Self::MAGIC,
    {
        if byte == Self::MAGIC {
            Some(I2CDIS)
        } else {
            None
        }
    }
}

} // verus!
