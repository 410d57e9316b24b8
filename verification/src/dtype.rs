//! The closed set of element types a tensor handle can store. Dispatch
//! over this set is exhaustive: adding a member is a compile-time change.

use vstd::prelude::*;

verus! {

/// One of the seven element representations the engine stores. The two
/// 16-bit float kinds are widened to 32-bit floats at the host boundary.
#[derive(Clone, Copy, Debug, PartialEq, Eq, Structural)]
pub enum DTag {
    U8,
    U32,
    I64,
    F16,
    BF16,
    F32,
    F64,
}

/// The textual name of each element type, as a host binding spells it.
pub open spec fn dtag_name_spec(d: DTag) -> Seq<char> {
    match d {
        DTag::U8 => "u8"@,
        DTag::U32 => "u32"@,
        DTag::I64 => "i64"@,
        DTag::F16 => "f16"@,
        DTag::BF16 => "bf16"@,
        DTag::F32 => "f32"@,
        DTag::F64 => "f64"@,
    }
}

/// The element type a textual name denotes, or nothing: the match is
/// exact and case-sensitive.
pub open spec fn dtag_from_name_spec(s: Seq<char>) -> Option<DTag> {
    if s == "u8"@ {
        Some(DTag::U8)
    } else if s == "u32"@ {
        Some(DTag::U32)
    } else if s == "i64"@ {
        Some(DTag::I64)
    } else if s == "f16"@ {
        Some(DTag::F16)
    } else if s == "bf16"@ {
        Some(DTag::BF16)
    } else if s == "f32"@ {
        Some(DTag::F32)
    } else if s == "f64"@ {
        Some(DTag::F64)
    } else {
        None
    }
}

impl DTag {
    /// Parses an element-type name; exactly the seven names of the closed
    /// set are accepted.
    pub fn from_name(name: &str) -> (r: Option<DTag>)
        ensures
            r == dtag_from_name_spec(name@),
    {
        if crate::strutil::str_equal(name, "u8") {
            Some(DTag::U8)
        } else if crate::strutil::str_equal(name, "u32") {
            Some(DTag::U32)
        } else if crate::strutil::str_equal(name, "i64") {
            Some(DTag::I64)
        } else if crate::strutil::str_equal(name, "f16") {
            Some(DTag::F16)
        } else if crate::strutil::str_equal(name, "bf16") {
            Some(DTag::BF16)
        } else if crate::strutil::str_equal(name, "f32") {
            Some(DTag::F32)
        } else if crate::strutil::str_equal(name, "f64") {
            Some(DTag::F64)
        } else {
            None
        }
    }

    /// The name of this element type; parsing it back yields this tag.
    pub fn name(&self) -> (r: &'static str)
        ensures
            r@ == dtag_name_spec(*self),
    {
        match self {
            DTag::U8 => "u8",
            DTag::U32 => "u32",
            DTag::I64 => "i64",
            DTag::F16 => "f16",
            DTag::BF16 => "bf16",
            DTag::F32 => "f32",
            DTag::F64 => "f64",
        }
    }
}

/// Element-type names round-trip: the name of a tag parses back to the
/// same tag, for every member of the closed set.
pub proof fn lemma_dtag_name_round_trip(d: DTag)
    ensures
        dtag_from_name_spec(dtag_name_spec(d)) == Some(d),
{
    reveal_strlit("u8");
    reveal_strlit("u32");
    reveal_strlit("i64");
    reveal_strlit("f16");
    reveal_strlit("bf16");
    reveal_strlit("f32");
    reveal_strlit("f64");
    assert("u8"@.len() == 2);
    assert("u32"@.len() == 3);
    assert("i64"@.len() == 3);
    assert("f16"@.len() == 3);
    assert("bf16"@.len() == 4);
    assert("f32"@.len() == 3);
    assert("f64"@.len() == 3);
    assert("u32"@[0] == 'u' && "i64"@[0] == 'i' && "f16"@[0] == 'f' && "f32"@[0] == 'f'
        && "f64"@[0] == 'f');
    assert("f16"@[1] == '1' && "f32"@[1] == '3' && "f64"@[1] == '6');
    match d {
        DTag::U8 => assert(dtag_from_name_spec("u8"@) == Some(DTag::U8)),
        DTag::U32 => assert(dtag_from_name_spec("u32"@) == Some(DTag::U32)),
        DTag::I64 => {
            assert("i64"@ != "u32"@);
            assert(dtag_from_name_spec("i64"@) == Some(DTag::I64));
        },
        DTag::F16 => {
            assert("f16"@ != "u32"@ && "f16"@ != "i64"@);
            assert(dtag_from_name_spec("f16"@) == Some(DTag::F16));
        },
        DTag::BF16 => assert(dtag_from_name_spec("bf16"@) == Some(DTag::BF16)),
        DTag::F32 => {
            assert("f32"@ != "u32"@ && "f32"@ != "i64"@ && "f32"@ != "f16"@);
            assert(dtag_from_name_spec("f32"@) == Some(DTag::F32));
        },
        DTag::F64 => {
            assert("f64"@ != "u32"@ && "f64"@ != "i64"@ && "f64"@ != "f16"@ && "f64"@ != "f32"@);
            assert(dtag_from_name_spec("f64"@) == Some(DTag::F64));
        },
    }
}

} // verus!
