use vstd::prelude::*;

verus! {

/// A stable identity token, unique per registered sample encoding, so that
/// two encodings of the same byte width still compare unequal.
#[derive(Clone, Copy, Debug, PartialEq, Eq, Hash, Structural)]
pub struct TypeId {
    code: u8,
}

/// The closed registry of supported sample encodings. Each entry records how
/// one amplitude reading is stored: its byte width and its identity. The
/// variants are named after the Rust types whose stored form they describe,
/// with the widths those types have on 64-bit targets.
#[derive(Clone, Copy, Debug, PartialEq, Eq, Hash, Structural)]
pub enum SampleEncoding {
    U8,
    U16,
    U32,
    U64,
    U128,
    I8,
    I16,
    I32,
    I64,
    I128,
    Usize,
    Isize,
    F32,
    F64,
}

impl SampleEncoding {
    /// The number of bytes one sample of this encoding occupies, as the
    /// contracts speak of it.
    pub open spec fn spec_byte_depth(self) -> u8 {
        match self {
            SampleEncoding::U8 => 1,
            SampleEncoding::U16 => 2,
            SampleEncoding::U32 => 4,
            SampleEncoding::U64 => 8,
            SampleEncoding::U128 => 16,
            SampleEncoding::I8 => 1,
            SampleEncoding::I16 => 2,
            SampleEncoding::I32 => 4,
            SampleEncoding::I64 => 8,
            SampleEncoding::I128 => 16,
            SampleEncoding::Usize => 8,
            SampleEncoding::Isize => 8,
            SampleEncoding::F32 => 4,
            SampleEncoding::F64 => 8,
        }
    }

    /// The identity token of this encoding, as the contracts speak of it.
    /// Distinct encodings carry distinct tokens (see
    /// [`lemma_type_id_injective`]).
    pub closed spec fn spec_type_id(self) -> TypeId {
        TypeId { code: self.spec_code() }
    }

    spec fn spec_code(self) -> u8 {
        match self {
            SampleEncoding::U8 => 0,
            SampleEncoding::U16 => 1,
            SampleEncoding::U32 => 2,
            SampleEncoding::U64 => 3,
            SampleEncoding::U128 => 4,
            SampleEncoding::I8 => 5,
            SampleEncoding::I16 => 6,
            SampleEncoding::I32 => 7,
            SampleEncoding::I64 => 8,
            SampleEncoding::I128 => 9,
            SampleEncoding::Usize => 10,
            SampleEncoding::Isize => 11,
            SampleEncoding::F32 => 12,
            SampleEncoding::F64 => 13,
        }
    }

    /// The number of bytes one sample of this encoding occupies. Always
    /// positive, and at most sixteen.
    pub fn byte_depth(&self) -> (r: u8)
        ensures
            r == self.spec_byte_depth(),
            1 <= r <= 16,
    {
        match self {
            SampleEncoding::U8 => 1,
            SampleEncoding::U16 => 2,
            SampleEncoding::U32 => 4,
            SampleEncoding::U64 => 8,
            SampleEncoding::U128 => 16,
            SampleEncoding::I8 => 1,
            SampleEncoding::I16 => 2,
            SampleEncoding::I32 => 4,
            SampleEncoding::I64 => 8,
            SampleEncoding::I128 => 16,
            SampleEncoding::Usize => 8,
            SampleEncoding::Isize => 8,
            SampleEncoding::F32 => 4,
            SampleEncoding::F64 => 8,
        }
    }

    /// The identity token of this encoding.
    pub fn type_id(&self) -> (r: TypeId)
        ensures
            r == self.spec_type_id(),
    {
        let code: u8 = match self {
            SampleEncoding::U8 => 0,
            SampleEncoding::U16 => 1,
            SampleEncoding::U32 => 2,
            SampleEncoding::U64 => 3,
            SampleEncoding::U128 => 4,
            SampleEncoding::I8 => 5,
            SampleEncoding::I16 => 6,
            SampleEncoding::I32 => 7,
            SampleEncoding::I64 => 8,
            SampleEncoding::I128 => 9,
            SampleEncoding::Usize => 10,
            SampleEncoding::Isize => 11,
            SampleEncoding::F32 => 12,
            SampleEncoding::F64 => 13,
        };
        TypeId { code }
    }
}

/// Distinct encodings carry distinct identity tokens: the registry assigns
/// each entry its own code.
pub proof fn lemma_type_id_injective(a: SampleEncoding, b: SampleEncoding)
    ensures
        a.spec_type_id() == b.spec_type_id() ==> a == b,
{
}

/// A type whose values are stored as samples of one registered encoding.
pub trait Sample {
    /// The registry entry this type's stored form falls under, as the
    /// contracts speak of it.
    spec fn spec_encoding() -> SampleEncoding;

    /// The registry entry this type's stored form falls under.
    fn encoding() -> (r: SampleEncoding)
        ensures
            r == Self::spec_encoding(),
    ;
}

impl Sample for u8 {
    open spec fn spec_encoding() -> SampleEncoding {
        SampleEncoding::U8
    }

    fn encoding() -> SampleEncoding {
        SampleEncoding::U8
    }
}

impl Sample for u16 {
    open spec fn spec_encoding() -> SampleEncoding {
        SampleEncoding::U16
    }

    fn encoding() -> SampleEncoding {
        SampleEncoding::U16
    }
}

impl Sample for u32 {
    open spec fn spec_encoding() -> SampleEncoding {
        SampleEncoding::U32
    }

    fn encoding() -> SampleEncoding {
        SampleEncoding::U32
    }
}

impl Sample for u64 {
    open spec fn spec_encoding() -> SampleEncoding {
        SampleEncoding::U64
    }

    fn encoding() -> SampleEncoding {
        SampleEncoding::U64
    }
}

impl Sample for u128 {
    open spec fn spec_encoding() -> SampleEncoding {
        SampleEncoding::U128
    }

    fn encoding() -> SampleEncoding {
        SampleEncoding::U128
    }
}

impl Sample for i8 {
    open spec fn spec_encoding() -> SampleEncoding {
        SampleEncoding::I8
    }

    fn encoding() -> SampleEncoding {
        SampleEncoding::I8
    }
}

impl Sample for i16 {
    open spec fn spec_encoding() -> SampleEncoding {
        SampleEncoding::I16
    }

    fn encoding() -> SampleEncoding {
        SampleEncoding::I16
    }
}

impl Sample for i32 {
    open spec fn spec_encoding() -> SampleEncoding {
        SampleEncoding::I32
    }

    fn encoding() -> SampleEncoding {
        SampleEncoding::I32
    }
}

impl Sample for i64 {
    open spec fn spec_encoding() -> SampleEncoding {
        SampleEncoding::I64
    }

    fn encoding() -> SampleEncoding {
        SampleEncoding::I64
    }
}

impl Sample for i128 {
    open spec fn spec_encoding() -> SampleEncoding {
        SampleEncoding::I128
    }

    fn encoding() -> SampleEncoding {
        SampleEncoding::I128
    }
}

impl Sample for usize {
    open spec fn spec_encoding() -> SampleEncoding {
        SampleEncoding::Usize
    }

    fn encoding() -> SampleEncoding {
        SampleEncoding::Usize
    }
}

impl Sample for isize {
    open spec fn spec_encoding() -> SampleEncoding {
        SampleEncoding::Isize
    }

    fn encoding() -> SampleEncoding {
        SampleEncoding::Isize
    }
}

/// A descriptor of how one sample is stored: its byte width together with the
/// identity token of the encoding it was built from. Two descriptors are
/// equal exactly when both the width and the identity match, so encodings of
/// equal width remain distinguishable.
#[derive(Clone, Copy, Debug, PartialEq, Eq, Hash, Structural)]
pub struct SampleType {
    byte_depth: u8,
    type_id: TypeId,
}

impl SampleType {
    #[verifier::type_invariant]
    spec fn wf(self) -> bool {
        1 <= self.byte_depth <= 16
    }

    /// The descriptor that [`SampleType::new`] builds from `enc`.
    pub closed spec fn spec_new(enc: SampleEncoding) -> SampleType {
        SampleType { byte_depth: enc.spec_byte_depth(), type_id: enc.spec_type_id() }
    }

    /// The recorded byte width, as the contracts speak of it.
    pub closed spec fn spec_byte_depth(self) -> u8 {
        self.byte_depth
    }

    /// The recorded identity token, as the contracts speak of it.
    pub closed spec fn spec_type_id(self) -> TypeId {
        self.type_id
    }

    /// Records the byte width and the identity of `enc`.
    pub fn new(enc: SampleEncoding) -> (r: SampleType)
        ensures
            r == SampleType::spec_new(enc),
            r.spec_byte_depth() == enc.spec_byte_depth(),
            r.spec_type_id() == enc.spec_type_id(),
    {
        SampleType { byte_depth: enc.byte_depth(), type_id: enc.type_id() }
    }

    /// The number of bytes used to store one sample of this type. Always
    /// positive, and at most sixteen.
    pub fn byte_depth(&self) -> (r: u8)
        ensures
            r == self.spec_byte_depth(),
            1 <= r <= 16,
    {
        proof {
            use_type_invariant(self);
        }
        self.byte_depth
    }
}

/// Identity distinctness: descriptors built from the same encoding are equal,
/// and descriptors built from distinct encodings differ, even when their byte
/// widths agree.
pub proof fn lemma_sample_type_identity(a: SampleEncoding, b: SampleEncoding)
    ensures
        SampleType::spec_new(a) == SampleType::spec_new(b) <==> a == b,
{
    lemma_type_id_injective(a, b);
}

} // verus!
