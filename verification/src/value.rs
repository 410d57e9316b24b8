//! Recursive conversion of an externally parsed metadata value — a
//! tagged union of primitive scalars and nested arrays — into host-native
//! values. Scalars convert with no narrowing, arrays convert depth-first
//! with order preserved, and heterogeneous element kinds stay exactly
//! where they were.

use vstd::prelude::*;

verus! {

/// A metadata value as a codec hands it over: scalars of every width the
/// format knows, text, and arbitrarily nested arrays. Float scalars are
/// carried as the bit patterns of their width.
#[derive(Debug, PartialEq, Eq)]
pub enum MetaValue {
    U8(u8),
    I8(i8),
    U16(u16),
    I16(i16),
    U32(u32),
    I32(i32),
    U64(u64),
    I64(i64),
    F32Bits(u32),
    F64Bits(u64),
    Bool(bool),
    Text(String),
    Array(Vec<MetaValue>),
}

/// A host-native value: unsigned and signed integers at full 64-bit
/// width so that no scalar is truncated, floats as bit patterns of their
/// own width, booleans, text, and ordered lists.
#[derive(Debug, PartialEq, Eq)]
pub enum HostValue {
    UInt(u64),
    Int(i64),
    F32Bits(u32),
    F64Bits(u64),
    Bool(bool),
    Text(String),
    List(Vec<HostValue>),
}

/// The mathematical shape of a metadata value.
pub enum MetaVal {
    U8(u8),
    I8(i8),
    U16(u16),
    I16(i16),
    U32(u32),
    I32(i32),
    U64(u64),
    I64(i64),
    F32Bits(u32),
    F64Bits(u64),
    Bool(bool),
    Text(Seq<char>),
    Array(Seq<MetaVal>),
}

/// The mathematical shape of a host value.
pub enum HostVal {
    UInt(u64),
    Int(i64),
    F32Bits(u32),
    F64Bits(u64),
    Bool(bool),
    Text(Seq<char>),
    List(Seq<HostVal>),
}

/// The mathematical value of a metadata value.
pub open spec fn meta_view(m: MetaValue) -> MetaVal
    decreases m,
{
    match m {
        MetaValue::U8(x) => MetaVal::U8(x),
        MetaValue::I8(x) => MetaVal::I8(x),
        MetaValue::U16(x) => MetaVal::U16(x),
        MetaValue::I16(x) => MetaVal::I16(x),
        MetaValue::U32(x) => MetaVal::U32(x),
        MetaValue::I32(x) => MetaVal::I32(x),
        MetaValue::U64(x) => MetaVal::U64(x),
        MetaValue::I64(x) => MetaVal::I64(x),
        MetaValue::F32Bits(b) => MetaVal::F32Bits(b),
        MetaValue::F64Bits(b) => MetaVal::F64Bits(b),
        MetaValue::Bool(b) => MetaVal::Bool(b),
        MetaValue::Text(s) => MetaVal::Text(s@),
        MetaValue::Array(xs) => {
            proof {
                assert(decreases_to!(m => xs));
                assert(decreases_to!(xs => xs@));
                assert(decreases_to!(m => xs@));
            }
            MetaVal::Array(meta_views_of(xs@))
        },
    }
}

/// The mathematical values of a sequence of metadata values, in order.
pub open spec fn meta_views_of(xs: Seq<MetaValue>) -> Seq<MetaVal>
    decreases xs,
{
    if xs.len() == 0 {
        Seq::empty()
    } else {
        proof {
            vstd::seq::axiom_seq_subrange_decreases::<MetaValue>(xs, 1, xs.len() as int);
        }
        seq![meta_view(xs[0])] + meta_views_of(xs.drop_first())
    }
}

impl View for MetaValue {
    type V = MetaVal;

    open spec fn view(&self) -> MetaVal {
        meta_view(*self)
    }
}

/// The mathematical value of a host value.
pub open spec fn host_view(h: HostValue) -> HostVal
    decreases h,
{
    match h {
        HostValue::UInt(x) => HostVal::UInt(x),
        HostValue::Int(x) => HostVal::Int(x),
        HostValue::F32Bits(b) => HostVal::F32Bits(b),
        HostValue::F64Bits(b) => HostVal::F64Bits(b),
        HostValue::Bool(b) => HostVal::Bool(b),
        HostValue::Text(s) => HostVal::Text(s@),
        HostValue::List(xs) => {
            proof {
                assert(decreases_to!(h => xs));
                assert(decreases_to!(xs => xs@));
                assert(decreases_to!(h => xs@));
            }
            HostVal::List(host_views_of(xs@))
        },
    }
}

/// The mathematical values of a sequence of host values, in order.
pub open spec fn host_views_of(xs: Seq<HostValue>) -> Seq<HostVal>
    decreases xs,
{
    if xs.len() == 0 {
        Seq::empty()
    } else {
        proof {
            vstd::seq::axiom_seq_subrange_decreases::<HostValue>(xs, 1, xs.len() as int);
        }
        seq![host_view(xs[0])] + host_views_of(xs.drop_first())
    }
}

impl View for HostValue {
    type V = HostVal;

    open spec fn view(&self) -> HostVal {
        host_view(*self)
    }
}

/// What conversion yields of each metadata value: scalars widen to the
/// host's 64-bit integers of the same signedness with no truncation,
/// floats and booleans and text pass through, and an array converts
/// every element in place.
pub open spec fn host_of(m: MetaVal) -> HostVal
    decreases m,
{
    match m {
        MetaVal::U8(x) => HostVal::UInt(x as u64),
        MetaVal::I8(x) => HostVal::Int(x as i64),
        MetaVal::U16(x) => HostVal::UInt(x as u64),
        MetaVal::I16(x) => HostVal::Int(x as i64),
        MetaVal::U32(x) => HostVal::UInt(x as u64),
        MetaVal::I32(x) => HostVal::Int(x as i64),
        MetaVal::U64(x) => HostVal::UInt(x),
        MetaVal::I64(x) => HostVal::Int(x),
        MetaVal::F32Bits(b) => HostVal::F32Bits(b),
        MetaVal::F64Bits(b) => HostVal::F64Bits(b),
        MetaVal::Bool(b) => HostVal::Bool(b),
        MetaVal::Text(s) => HostVal::Text(s),
        MetaVal::Array(xs) => {
            proof {
                assert(decreases_to!(m => xs));
            }
            HostVal::List(host_of_list(xs))
        },
    }
}

/// What conversion yields of each element of an array, in order.
pub open spec fn host_of_list(xs: Seq<MetaVal>) -> Seq<HostVal>
    decreases xs,
{
    if xs.len() == 0 {
        Seq::empty()
    } else {
        proof {
            vstd::seq::axiom_seq_subrange_decreases::<MetaVal>(xs, 1, xs.len() as int);
        }
        seq![host_of(xs[0])] + host_of_list(xs.drop_first())
    }
}

/// The element-wise reading of `meta_views_of`: it keeps the length and
/// maps each position through `meta_view`.
pub proof fn lemma_meta_views_of(xs: Seq<MetaValue>)
    ensures
        meta_views_of(xs).len() == xs.len(),
        forall|i: int| 0 <= i < xs.len() ==> meta_views_of(xs)[i] == meta_view(#[trigger] xs[i]),
    decreases xs.len(),
{
    if xs.len() != 0 {
        let sub = xs.drop_first();
        lemma_meta_views_of(sub);
        assert forall|i: int| 0 <= i < xs.len() implies meta_views_of(xs)[i] == meta_view(#[trigger] xs[i]) by {
            if i == 0 {
                assert(meta_views_of(xs)[0] == meta_view(xs[0]));
            } else {
                assert(sub[i - 1] == xs[i]);
                assert(meta_views_of(xs)[i] == meta_views_of(sub)[i - 1]);
            }
        }
    }
}

/// The element-wise reading of `host_views_of`: it keeps the length and
/// maps each position through `host_view`.
pub proof fn lemma_host_views_of(xs: Seq<HostValue>)
    ensures
        host_views_of(xs).len() == xs.len(),
        forall|i: int| 0 <= i < xs.len() ==> host_views_of(xs)[i] == host_view(#[trigger] xs[i]),
    decreases xs.len(),
{
    if xs.len() != 0 {
        let sub = xs.drop_first();
        lemma_host_views_of(sub);
        assert forall|i: int| 0 <= i < xs.len() implies host_views_of(xs)[i] == host_view(#[trigger] xs[i]) by {
            if i == 0 {
                assert(host_views_of(xs)[0] == host_view(xs[0]));
            } else {
                assert(sub[i - 1] == xs[i]);
                assert(host_views_of(xs)[i] == host_views_of(sub)[i - 1]);
            }
        }
    }
}

/// Converting an array preserves its arity and its order: the converted
/// list is exactly as long as the source, and position `i` of it is
/// exactly the conversion of position `i` of the source.
pub proof fn lemma_host_of_list(xs: Seq<MetaVal>)
    ensures
        host_of_list(xs).len() == xs.len(),
        forall|i: int| 0 <= i < xs.len() ==> host_of_list(xs)[i] == host_of(#[trigger] xs[i]),
    decreases xs.len(),
{
    if xs.len() != 0 {
        let sub = xs.drop_first();
        lemma_host_of_list(sub);
        assert forall|i: int| 0 <= i < xs.len() implies host_of_list(xs)[i] == host_of(#[trigger] xs[i]) by {
            if i == 0 {
                assert(host_of_list(xs)[0] == host_of(xs[0]));
            } else {
                assert(sub[i - 1] == xs[i]);
                assert(host_of_list(xs)[i] == host_of_list(sub)[i - 1]);
            }
        }
    }
}

/// The kind of a value: which class of scalar it is, or that it is text
/// or a list.
pub enum ValueKind {
    UInt,
    Int,
    F32,
    F64,
    Bool,
    Text,
    List,
}

/// The kind of a metadata value: integers by signedness, floats by
/// width, booleans, text and arrays each their own.
pub open spec fn meta_kind(m: MetaVal) -> ValueKind {
    match m {
        MetaVal::U8(_) => ValueKind::UInt,
        MetaVal::U16(_) => ValueKind::UInt,
        MetaVal::U32(_) => ValueKind::UInt,
        MetaVal::U64(_) => ValueKind::UInt,
        MetaVal::I8(_) => ValueKind::Int,
        MetaVal::I16(_) => ValueKind::Int,
        MetaVal::I32(_) => ValueKind::Int,
        MetaVal::I64(_) => ValueKind::Int,
        MetaVal::F32Bits(_) => ValueKind::F32,
        MetaVal::F64Bits(_) => ValueKind::F64,
        MetaVal::Bool(_) => ValueKind::Bool,
        MetaVal::Text(_) => ValueKind::Text,
        MetaVal::Array(_) => ValueKind::List,
    }
}

/// The kind of a host value.
pub open spec fn host_kind(h: HostVal) -> ValueKind {
    match h {
        HostVal::UInt(_) => ValueKind::UInt,
        HostVal::Int(_) => ValueKind::Int,
        HostVal::F32Bits(_) => ValueKind::F32,
        HostVal::F64Bits(_) => ValueKind::F64,
        HostVal::Bool(_) => ValueKind::Bool,
        HostVal::Text(_) => ValueKind::Text,
        HostVal::List(_) => ValueKind::List,
    }
}

/// Conversion preserves the kind of every value, at every position:
/// no integer becomes a float, no boolean an integer, and no element
/// of an array is coerced toward its neighbours' kinds.
pub proof fn lemma_kind_preserved(m: MetaVal)
    ensures
        host_kind(host_of(m)) == meta_kind(m),
{
}

/// Converts a metadata value into the corresponding host value, exactly
/// as `host_of` prescribes: depth-first, order-preserving, with no
/// narrowing of any scalar.
pub fn to_host(v: &MetaValue) -> (r: HostValue)
    ensures
        r@ == host_of(v@),
    decreases *v,
{
    match v {
        MetaValue::U8(x) => HostValue::UInt(*x as u64),
        MetaValue::I8(x) => HostValue::Int(*x as i64),
        MetaValue::U16(x) => HostValue::UInt(*x as u64),
        MetaValue::I16(x) => HostValue::Int(*x as i64),
        MetaValue::U32(x) => HostValue::UInt(*x as u64),
        MetaValue::I32(x) => HostValue::Int(*x as i64),
        MetaValue::U64(x) => HostValue::UInt(*x),
        MetaValue::I64(x) => HostValue::Int(*x),
        MetaValue::F32Bits(b) => HostValue::F32Bits(*b),
        MetaValue::F64Bits(b) => HostValue::F64Bits(*b),
        MetaValue::Bool(b) => HostValue::Bool(*b),
        MetaValue::Text(s) => HostValue::Text(s.clone()),
        MetaValue::Array(xs) => {
            let converted = list_to_host(xs);
            let r = HostValue::List(converted);
            proof {
                let ms = meta_views_of(xs@);
                lemma_meta_views_of(xs@);
                lemma_host_of_list(ms);
                lemma_host_views_of(converted@);
                assert forall|i: int| 0 <= i < xs@.len() implies host_views_of(converted@)[i]
                    == host_of_list(ms)[i] by {
                    assert(host_views_of(converted@)[i] == host_view(converted@[i]));
                    assert((converted@[i])@ == host_of(xs@[i]@));
                    assert(ms[i] == meta_view(xs@[i]));
                    assert(host_of_list(ms)[i] == host_of(ms[i]));
                }
                assert(host_views_of(converted@) =~= host_of_list(ms));
            }
            r
        },
    }
}

/// Converts every element of an array, in order.
fn list_to_host(xs: &Vec<MetaValue>) -> (r: Vec<HostValue>)
    ensures
        r@.len() == xs@.len(),
        forall|i: int| 0 <= i < xs@.len() ==> (#[trigger] r@[i])@ == host_of(xs@[i]@),
    decreases xs@,
{
    let mut out: Vec<HostValue> = Vec::new();
    let mut i: usize = 0;
    while i < xs.len()
        invariant
            i <= xs@.len(),
            out@.len() == i,
            forall|a: int| 0 <= a < i ==> (#[trigger] out@[a])@ == host_of(xs@[a]@),
        decreases xs@.len() - i,
    {
        proof {
            assert(decreases_to!(xs@ => xs@[i as int]));
        }
        let h = to_host(&xs[i]);
        out.push(h);
        i += 1;
    }
    out
}

} // verus!
