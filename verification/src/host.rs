//! Conversion of a tensor's full contents into a nested host value:
//! a scalar for rank zero, then ever deeper sequences up to rank three.
//! Ranks above three are a deliberate scope boundary and are rejected.
//! The dispatch over element types is exhaustive over the closed set;
//! the two 16-bit float kinds are widened to 32-bit floats on the way.

use crate::backend;
use crate::dtype::DTag;
use crate::error::TensorError;
use crate::tensor::elem_count;
use crate::tensor::TensorHandle;
use vstd::prelude::*;

verus! {

/// One host-visible element. Float elements are carried as the bit
/// patterns of their host-visible width, so that no narrowing and no
/// silent reinterpretation can happen inside this layer.
#[derive(Clone, Copy, Debug, PartialEq, Eq, Structural)]
pub enum HostScalar {
    U8(u8),
    U32(u32),
    I64(i64),
    F32Bits(u32),
    F64Bits(u64),
}

/// The host-visible element type of a scalar.
pub open spec fn scalar_kind(s: HostScalar) -> DTag {
    match s {
        HostScalar::U8(_) => DTag::U8,
        HostScalar::U32(_) => DTag::U32,
        HostScalar::I64(_) => DTag::I64,
        HostScalar::F32Bits(_) => DTag::F32,
        HostScalar::F64Bits(_) => DTag::F64,
    }
}

/// The host-visible element type of a stored element type: the 16-bit
/// float kinds widen to 32-bit floats, everything else keeps its width.
pub open spec fn widened(d: DTag) -> DTag {
    match d {
        DTag::F16 => DTag::F32,
        DTag::BF16 => DTag::F32,
        _ => d,
    }
}

/// Whether every element of a flat sequence has the given host-visible
/// element type.
pub open spec fn all_kind(s: Seq<HostScalar>, k: DTag) -> bool {
    forall|i: int| 0 <= i < s.len() ==> scalar_kind(#[trigger] s[i]) == k
}

/// A tensor's contents as a host value: a scalar for rank zero, a flat
/// sequence for rank one, nested sequences for ranks two and three.
#[derive(Debug, Clone, PartialEq, Eq)]
pub enum HostTree {
    Scalar(HostScalar),
    Rank1(Vec<HostScalar>),
    Rank2(Vec<Vec<HostScalar>>),
    Rank3(Vec<Vec<Vec<HostScalar>>>),
}

/// The nesting depth of a host tree.
pub open spec fn tree_depth(t: HostTree) -> nat {
    match t {
        HostTree::Scalar(_) => 0,
        HostTree::Rank1(_) => 1,
        HostTree::Rank2(_) => 2,
        HostTree::Rank3(_) => 3,
    }
}

/// Whether a host tree nests exactly as a shape prescribes: one nesting
/// level per axis, every sequence at one level of the same length.
pub open spec fn tree_matches_shape(t: HostTree, shape: Seq<usize>) -> bool {
    match t {
        HostTree::Scalar(_) => shape.len() == 0,
        HostTree::Rank1(v) => shape.len() == 1 && v@.len() == shape[0],
        HostTree::Rank2(v) => shape.len() == 2 && v@.len() == shape[0] && (forall|i: int|
            0 <= i < v@.len() ==> (#[trigger] v@[i])@.len() == shape[1]),
        HostTree::Rank3(v) => shape.len() == 3 && v@.len() == shape[0] && (forall|i: int|
            0 <= i < v@.len() ==> (#[trigger] v@[i])@.len() == shape[1]) && (forall|i: int, j: int|
            0 <= i < v@.len() && 0 <= j < shape[1] ==> (#[trigger] v@[i]@[j])@.len() == shape[2]),
    }
}

/// Whether every leaf of a host tree has the given host-visible element
/// type.
pub open spec fn tree_kind_ok(t: HostTree, k: DTag) -> bool {
    match t {
        HostTree::Scalar(s) => scalar_kind(s) == k,
        HostTree::Rank1(v) => all_kind(v@, k),
        HostTree::Rank2(v) => forall|i: int|
            0 <= i < v@.len() ==> all_kind((#[trigger] v@[i])@, k),
        HostTree::Rank3(v) => forall|i: int, j: int|
            0 <= i < v@.len() && 0 <= j < v@[i]@.len() ==> all_kind((#[trigger] v@[i]@[j])@, k),
    }
}

/// The number of leaves under each row of a rank-two tree.
pub open spec fn row_total(rows: Seq<Vec<HostScalar>>) -> nat
    decreases rows.len(),
{
    if rows.len() == 0 {
        0
    } else {
        rows[0]@.len() + row_total(rows.drop_first())
    }
}

/// The number of leaves under each grid of a rank-three tree.
pub open spec fn grid_total(grids: Seq<Vec<Vec<HostScalar>>>) -> nat
    decreases grids.len(),
{
    if grids.len() == 0 {
        0
    } else {
        row_total(grids[0]@) + grid_total(grids.drop_first())
    }
}

/// The number of leaves of a host tree.
pub open spec fn tree_count(t: HostTree) -> nat {
    match t {
        HostTree::Scalar(_) => 1,
        HostTree::Rank1(v) => v@.len(),
        HostTree::Rank2(v) => row_total(v@),
        HostTree::Rank3(v) => grid_total(v@),
    }
}

/// Rows of one common length sum to their number times that length.
proof fn lemma_row_total_uniform(rows: Seq<Vec<HostScalar>>, c: nat)
    requires
        forall|i: int| 0 <= i < rows.len() ==> (#[trigger] rows[i])@.len() == c,
    ensures
        row_total(rows) == rows.len() * c,
    decreases rows.len(),
{
    if rows.len() == 0 {
        assert(row_total(rows) == 0);
    } else {
        let sub = rows.drop_first();
        assert forall|i: int| 0 <= i < sub.len() implies (#[trigger] sub[i])@.len() == c by {
            assert(sub[i] == rows[i + 1]);
        }
        lemma_row_total_uniform(sub, c);
        assert(row_total(rows) == c + (rows.len() - 1) * c);
        assert(c + (rows.len() - 1) * c == rows.len() * c) by (nonlinear_arith);
    }
}

/// Grids of common row counts and row lengths sum to their number times
/// the product of the two.
proof fn lemma_grid_total_uniform(grids: Seq<Vec<Vec<HostScalar>>>, d1: nat, d2: nat)
    requires
        forall|i: int| 0 <= i < grids.len() ==> (#[trigger] grids[i])@.len() == d1,
        forall|i: int, j: int|
            0 <= i < grids.len() && 0 <= j < d1 ==> (#[trigger] grids[i]@[j])@.len() == d2,
    ensures
        grid_total(grids) == grids.len() * (d1 * d2),
    decreases grids.len(),
{
    if grids.len() == 0 {
        assert(grid_total(grids) == 0);
    } else {
        let head = grids[0];
        assert forall|j: int| 0 <= j < head@.len() implies (#[trigger] head@[j])@.len() == d2 by {
            assert(grids[0]@[j] == head@[j]);
        }
        lemma_row_total_uniform(head@, d2);
        let sub = grids.drop_first();
        assert forall|i: int| 0 <= i < sub.len() implies (#[trigger] sub[i])@.len() == d1 by {
            assert(sub[i] == grids[i + 1]);
        }
        assert forall|i: int, j: int|
            0 <= i < sub.len() && 0 <= j < d1 implies (#[trigger] sub[i]@[j])@.len() == d2 by {
            assert(sub[i] == grids[i + 1]);
        }
        lemma_grid_total_uniform(sub, d1, d2);
        assert(grid_total(grids) == d1 * d2 + (grids.len() - 1) * (d1 * d2));
        assert(d1 * d2 + (grids.len() - 1) * (d1 * d2) == grids.len() * (d1 * d2))
            by (nonlinear_arith);
    }
}

/// A tree that nests as a shape prescribes holds exactly as many leaves
/// as the shape describes elements: conversion round-trips the element
/// count.
pub proof fn lemma_tree_count_matches_shape(t: HostTree, shape: Seq<usize>)
    requires
        tree_matches_shape(t, shape),
    ensures
        tree_count(t) == elem_count(shape),
{
    match t {
        HostTree::Scalar(_) => {
            assert(elem_count(shape) == 1);
        },
        HostTree::Rank1(v) => {
            assert(shape.drop_first().len() == 0);
            assert(elem_count(shape.drop_first()) == 1);
            assert(elem_count(shape) == (shape[0] as nat) * 1);
        },
        HostTree::Rank2(v) => {
            lemma_row_total_uniform(v@, shape[1] as nat);
            let s1 = shape.drop_first();
            assert(s1.drop_first().len() == 0);
            assert(elem_count(s1.drop_first()) == 1);
            assert(s1[0] == shape[1]);
            assert(elem_count(s1) == (shape[1] as nat) * 1);
            assert(elem_count(shape) == (shape[0] as nat) * ((shape[1] as nat) * 1));
        },
        HostTree::Rank3(v) => {
            lemma_grid_total_uniform(v@, shape[1] as nat, shape[2] as nat);
            let s1 = shape.drop_first();
            let s2 = s1.drop_first();
            assert(s2.drop_first().len() == 0);
            assert(elem_count(s2.drop_first()) == 1);
            assert(s2[0] == shape[2]);
            assert(elem_count(s2) == (shape[2] as nat) * 1);
            assert(s1[0] == shape[1]);
            assert(elem_count(s1) == (shape[1] as nat) * ((shape[2] as nat) * 1));
            assert(elem_count(shape) == (shape[0] as nat) * ((shape[1] as nat) * ((
            shape[2] as nat) * 1)));
        },
    }
}

/// A tree that nests as a shape prescribes nests exactly as deep as the
/// shape has axes: conversion round-trips the nesting depth.
pub proof fn lemma_tree_depth_matches_shape(t: HostTree, shape: Seq<usize>)
    requires
        tree_matches_shape(t, shape),
    ensures
        tree_depth(t) == shape.len(),
{
}

/// Tags every element of a flat vector as an 8-bit unsigned integer.
fn scalars_from_u8(v: &Vec<u8>) -> (r: Vec<HostScalar>)
    ensures
        r@.len() == v@.len(),
        forall|i: int| 0 <= i < v@.len() ==> #[trigger] r@[i] == HostScalar::U8(v@[i]),
{
    let mut out: Vec<HostScalar> = Vec::new();
    let mut i: usize = 0;
    while i < v.len()
        invariant
            i <= v@.len(),
            out@.len() == i,
            forall|a: int| 0 <= a < i ==> #[trigger] out@[a] == HostScalar::U8(v@[a]),
        decreases v@.len() - i,
    {
        out.push(HostScalar::U8(v[i]));
        i += 1;
    }
    out
}

/// Tags every element of a flat vector as a 32-bit unsigned integer.
fn scalars_from_u32(v: &Vec<u32>) -> (r: Vec<HostScalar>)
    ensures
        r@.len() == v@.len(),
        forall|i: int| 0 <= i < v@.len() ==> #[trigger] r@[i] == HostScalar::U32(v@[i]),
{
    let mut out: Vec<HostScalar> = Vec::new();
    let mut i: usize = 0;
    while i < v.len()
        invariant
            i <= v@.len(),
            out@.len() == i,
            forall|a: int| 0 <= a < i ==> #[trigger] out@[a] == HostScalar::U32(v@[a]),
        decreases v@.len() - i,
    {
        out.push(HostScalar::U32(v[i]));
        i += 1;
    }
    out
}

/// Tags every element of a flat vector as a 64-bit signed integer.
fn scalars_from_i64(v: &Vec<i64>) -> (r: Vec<HostScalar>)
    ensures
        r@.len() == v@.len(),
        forall|i: int| 0 <= i < v@.len() ==> #[trigger] r@[i] == HostScalar::I64(v@[i]),
{
    let mut out: Vec<HostScalar> = Vec::new();
    let mut i: usize = 0;
    while i < v.len()
        invariant
            i <= v@.len(),
            out@.len() == i,
            forall|a: int| 0 <= a < i ==> #[trigger] out@[a] == HostScalar::I64(v@[a]),
        decreases v@.len() - i,
    {
        out.push(HostScalar::I64(v[i]));
        i += 1;
    }
    out
}

/// Tags every element of a flat vector as the bit pattern of a 32-bit
/// float.
fn scalars_from_f32_bits(v: &Vec<u32>) -> (r: Vec<HostScalar>)
    ensures
        r@.len() == v@.len(),
        forall|i: int| 0 <= i < v@.len() ==> #[trigger] r@[i] == HostScalar::F32Bits(v@[i]),
{
    let mut out: Vec<HostScalar> = Vec::new();
    let mut i: usize = 0;
    while i < v.len()
        invariant
            i <= v@.len(),
            out@.len() == i,
            forall|a: int| 0 <= a < i ==> #[trigger] out@[a] == HostScalar::F32Bits(v@[a]),
        decreases v@.len() - i,
    {
        out.push(HostScalar::F32Bits(v[i]));
        i += 1;
    }
    out
}

/// Tags every element of a flat vector as the bit pattern of a 64-bit
/// float.
fn scalars_from_f64_bits(v: &Vec<u64>) -> (r: Vec<HostScalar>)
    ensures
        r@.len() == v@.len(),
        forall|i: int| 0 <= i < v@.len() ==> #[trigger] r@[i] == HostScalar::F64Bits(v@[i]),
{
    let mut out: Vec<HostScalar> = Vec::new();
    let mut i: usize = 0;
    while i < v.len()
        invariant
            i <= v@.len(),
            out@.len() == i,
            forall|a: int| 0 <= a < i ==> #[trigger] out@[a] == HostScalar::F64Bits(v@[a]),
        decreases v@.len() - i,
    {
        out.push(HostScalar::F64Bits(v[i]));
        i += 1;
    }
    out
}

/// Splits a flat row-major vector into `rows` rows of `cols` elements
/// each, preserving order and values.
fn chunk2(src: &Vec<HostScalar>, rows: usize, cols: usize) -> (r: Vec<Vec<HostScalar>>)
    requires
        src@.len() == (rows as nat) * (cols as nat),
    ensures
        r@.len() == rows,
        forall|i: int| 0 <= i < rows ==> (#[trigger] r@[i])@.len() == cols,
        forall|i: int, j: int|
            0 <= i < rows && 0 <= j < cols ==> #[trigger] r@[i]@[j] == src@[i * (cols as int) + j],
{
    let n = src.len();
    let mut out: Vec<Vec<HostScalar>> = Vec::new();
    let mut idx: usize = 0;
    let mut i: usize = 0;
    while i < rows
        invariant
            src@.len() == (rows as nat) * (cols as nat),
            n == src@.len(),
            i <= rows,
            idx as int == i as int * cols as int,
            out@.len() == i,
            forall|a: int| 0 <= a < i ==> (#[trigger] out@[a])@.len() == cols,
            forall|a: int, b: int|
                0 <= a < i && 0 <= b < cols ==> #[trigger] out@[a]@[b] == src@[a * (cols as int)
                    + b],
        decreases rows - i,
    {
        let mut row: Vec<HostScalar> = Vec::new();
        let mut j: usize = 0;
        while j < cols
            invariant
                src@.len() == (rows as nat) * (cols as nat),
                n == src@.len(),
                i < rows,
                j <= cols,
                idx as int == i as int * cols as int + j as int,
                row@.len() == j,
                forall|b: int|
                    0 <= b < j ==> #[trigger] row@[b] == src@[i as int * cols as int + b],
            decreases cols - j,
        {
            proof {
                let ii = i as int;
                let jj = j as int;
                let rr = rows as int;
                let cc = cols as int;
                assert(ii * cc + jj < rr * cc) by (nonlinear_arith)
                    requires
                        0 <= ii < rr,
                        0 <= jj < cc,
                ;
                assert(idx < n);
            }
            row.push(src[idx]);
            idx = idx + 1;
            j += 1;
        }
        proof {
            let ii = i as int;
            let cc = cols as int;
            assert(ii * cc + cc == (ii + 1) * cc) by (nonlinear_arith);
        }
        out.push(row);
        i += 1;
    }
    out
}

/// Splits a flat row-major vector into `d0` grids of `d1` rows of `d2`
/// elements each, preserving order and values.
fn chunk3(src: &Vec<HostScalar>, d0: usize, d1: usize, d2: usize) -> (r: Vec<
    Vec<Vec<HostScalar>>,
>)
    requires
        src@.len() == (d0 as nat) * ((d1 as nat) * (d2 as nat)),
    ensures
        r@.len() == d0,
        forall|i: int| 0 <= i < d0 ==> (#[trigger] r@[i])@.len() == d1,
        forall|i: int, j: int|
            0 <= i < d0 && 0 <= j < d1 ==> (#[trigger] r@[i]@[j])@.len() == d2,
        forall|i: int, j: int, l: int|
            0 <= i < d0 && 0 <= j < d1 && 0 <= l < d2 ==> #[trigger] r@[i]@[j]@[l] == src@[(i * (
            d1 as int) + j) * (d2 as int) + l],
{
    let mut out: Vec<Vec<Vec<HostScalar>>> = Vec::new();
    if d0 == 0 {
        return out;
    }
    let n = src.len();
    proof {
        let n0 = d0 as int;
        let n1 = d1 as int;
        let n2 = d2 as int;
        let total = n as int;
        assert(n1 * n2 <= total) by (nonlinear_arith)
            requires
                1 <= n0,
                total == n0 * (n1 * n2),
                0 <= n1,
                0 <= n2,
        ;
    }
    let inner: usize = d1 * d2;
    let planes = chunk2(src, d0, inner);
    let mut i: usize = 0;
    while i < d0
        invariant
            inner as int == d1 as int * d2 as int,
            planes@.len() == d0,
            forall|a: int| 0 <= a < d0 ==> (#[trigger] planes@[a])@.len() == inner,
            forall|a: int, q: int|
                0 <= a < d0 && 0 <= q < inner ==> #[trigger] planes@[a]@[q] == src@[a * (
                inner as int) + q],
            i <= d0,
            out@.len() == i,
            forall|a: int| 0 <= a < i ==> (#[trigger] out@[a])@.len() == d1,
            forall|a: int, b: int|
                0 <= a < i && 0 <= b < d1 ==> (#[trigger] out@[a]@[b])@.len() == d2,
            forall|a: int, b: int, c: int|
                0 <= a < i && 0 <= b < d1 && 0 <= c < d2 ==> #[trigger] out@[a]@[b]@[c] == src@[(a
                    * (d1 as int) + b) * (d2 as int) + c],
        decreases d0 - i,
    {
        let grid = chunk2(&planes[i], d1, d2);
        proof {
            let ii = i as int;
            let n1 = d1 as int;
            let n2 = d2 as int;
            let nn = inner as int;
            assert forall|b: int, c: int| 0 <= b < n1 && 0 <= c < n2 implies #[trigger] grid@[b]@[c]
                == src@[(ii * n1 + b) * n2 + c] by {
                assert(grid@[b]@[c] == planes@[ii]@[b * n2 + c]);
                assert(0 <= b * n2 + c < nn) by (nonlinear_arith)
                    requires
                        0 <= b < n1,
                        0 <= c < n2,
                        nn == n1 * n2,
                ;
                assert(planes@[ii]@[b * n2 + c] == src@[ii * nn + (b * n2 + c)]);
                assert(ii * nn + (b * n2 + c) == (ii * n1 + b) * n2 + c) by (nonlinear_arith)
                    requires
                        nn == n1 * n2,
                ;
            }
        }
        out.push(grid);
        i += 1;
    }
    out
}

/// Builds the nested host value of a flat row-major vector read out of a
/// tensor of the given shape: the scalar itself for an empty shape, and
/// one nesting level per axis up to three. Order, values and the
/// host-visible element type of every leaf are preserved exactly.
pub fn build_tree(flat: Vec<HostScalar>, shape: &Vec<usize>) -> (r: HostTree)
    requires
        shape@.len() <= 3,
        flat@.len() == elem_count(shape@),
    ensures
        tree_matches_shape(r, shape@),
        shape@.len() == 0 ==> r == HostTree::Scalar(flat@[0]),
        shape@.len() == 1 ==> r == HostTree::Rank1(flat),
        shape@.len() == 2 ==> (r matches HostTree::Rank2(v) && (forall|i: int, j: int|
            0 <= i < shape@[0] && 0 <= j < shape@[1] ==> #[trigger] v@[i]@[j] == flat@[i * (
            shape@[1] as int) + j])),
        shape@.len() == 3 ==> (r matches HostTree::Rank3(v) && (forall|i: int, j: int, l: int|
            0 <= i < shape@[0] && 0 <= j < shape@[1] && 0 <= l < shape@[2]
                ==> #[trigger] v@[i]@[j]@[l] == flat@[(i * (shape@[1] as int) + j) * (
            shape@[2] as int) + l])),
        forall|k: DTag| all_kind(flat@, k) ==> tree_kind_ok(r, k),
{
    if shape.len() == 0 {
        proof {
            assert(elem_count(shape@) == 1);
        }
        let s = flat[0];
        let r = HostTree::Scalar(s);
        proof {
            assert forall|k: DTag| all_kind(flat@, k) implies tree_kind_ok(r, k) by {
                if all_kind(flat@, k) {
                    assert(scalar_kind(flat@[0]) == k);
                }
            }
        }
        r
    } else if shape.len() == 1 {
        proof {
            assert(shape@.drop_first().len() == 0);
            assert(elem_count(shape@.drop_first()) == 1);
            assert(elem_count(shape@) == (shape@[0] as nat) * 1);
        }
        HostTree::Rank1(flat)
    } else if shape.len() == 2 {
        let rows = shape[0];
        let cols = shape[1];
        proof {
            let s1 = shape@.drop_first();
            assert(s1.drop_first().len() == 0);
            assert(elem_count(s1.drop_first()) == 1);
            assert(s1[0] == shape@[1]);
            assert(elem_count(s1) == (shape@[1] as nat) * 1);
            assert(elem_count(shape@) == (shape@[0] as nat) * ((shape@[1] as nat) * 1));
        }
        let v = chunk2(&flat, rows, cols);
        let r = HostTree::Rank2(v);
        proof {
            assert forall|k: DTag| all_kind(flat@, k) implies tree_kind_ok(r, k) by {
                if all_kind(flat@, k) {
                    assert forall|i: int| 0 <= i < v@.len() implies all_kind(
                        (#[trigger] v@[i])@,
                        k,
                    ) by {
                        assert forall|j: int| 0 <= j < v@[i]@.len() implies scalar_kind(
                            #[trigger] v@[i]@[j],
                        ) == k by {
                            assert(v@[i]@[j] == flat@[i * (cols as int) + j]);
                            assert(0 <= i * (cols as int) + j < flat@.len()) by (nonlinear_arith)
                                requires
                                    0 <= i < rows as int,
                                    0 <= j < cols as int,
                                    flat@.len() == (rows as int) * (cols as int),
                            ;
                            assert(scalar_kind(flat@[i * (cols as int) + j]) == k);
                        }
                    }
                }
            }
        }
        r
    } else {
        let d0 = shape[0];
        let d1 = shape[1];
        let d2 = shape[2];
        proof {
            let s1 = shape@.drop_first();
            let s2 = s1.drop_first();
            assert(s2.drop_first().len() == 0);
            assert(elem_count(s2.drop_first()) == 1);
            assert(s2[0] == shape@[2]);
            assert(elem_count(s2) == (shape@[2] as nat) * 1);
            assert(s1[0] == shape@[1]);
            assert(elem_count(s1) == (shape@[1] as nat) * ((shape@[2] as nat) * 1));
            assert(elem_count(shape@) == (shape@[0] as nat) * ((shape@[1] as nat) * ((
            shape@[2] as nat) * 1)));
        }
        let v = chunk3(&flat, d0, d1, d2);
        let r = HostTree::Rank3(v);
        proof {
            assert forall|k: DTag| all_kind(flat@, k) implies tree_kind_ok(r, k) by {
                if all_kind(flat@, k) {
                    assert forall|i: int, j: int|
                        0 <= i < v@.len() && 0 <= j < v@[i]@.len() implies all_kind(
                        (#[trigger] v@[i]@[j])@,
                        k,
                    ) by {
                        assert forall|l: int| 0 <= l < v@[i]@[j]@.len() implies scalar_kind(
                            #[trigger] v@[i]@[j]@[l],
                        ) == k by {
                            assert(v@[i]@[j]@[l] == flat@[(i * (d1 as int) + j) * (d2 as int)
                                + l]);
                            assert(0 <= (i * (d1 as int) + j) * (d2 as int) + l < flat@.len())
                                by (nonlinear_arith)
                                requires
                                    0 <= i < d0 as int,
                                    0 <= j < d1 as int,
                                    0 <= l < d2 as int,
                                    flat@.len() == (d0 as int) * ((d1 as int) * (d2 as int)),
                            ;
                            assert(scalar_kind(
                                flat@[(i * (d1 as int) + j) * (d2 as int) + l],
                            ) == k);
                        }
                    }
                }
            }
        }
        r
    }
}

/// Reads a tensor's elements in row-major order, dispatching on its
/// element-type tag: one branch per member of the closed set, no
/// fallback. The 16-bit float kinds come back widened to 32-bit floats;
/// an engine read failure passes through as its diagnostic text.
pub fn read_scalars(t: &TensorHandle) -> (r: Result<Vec<HostScalar>, TensorError>)
    ensures
        r matches Ok(v) ==> v@.len() == elem_count(t.spec_shape()) && all_kind(
            v@,
            widened(t.spec_dtype()),
        ),
        r matches Err(e) ==> e matches TensorError::BackendFailure { .. },
{
    match t.dtype() {
        DTag::U8 => match backend::read_flat_u8(t) {
            Ok(v) => Ok(scalars_from_u8(&v)),
            Err(e) => Err(TensorError::BackendFailure { message: backend::error_text(&e) }),
        },
        DTag::U32 => match backend::read_flat_u32(t) {
            Ok(v) => Ok(scalars_from_u32(&v)),
            Err(e) => Err(TensorError::BackendFailure { message: backend::error_text(&e) }),
        },
        DTag::I64 => match backend::read_flat_i64(t) {
            Ok(v) => Ok(scalars_from_i64(&v)),
            Err(e) => Err(TensorError::BackendFailure { message: backend::error_text(&e) }),
        },
        DTag::F16 => match backend::read_flat_f16_bits(t) {
            Ok(v) => Ok(scalars_from_f32_bits(&v)),
            Err(e) => Err(TensorError::BackendFailure { message: backend::error_text(&e) }),
        },
        DTag::BF16 => match backend::read_flat_bf16_bits(t) {
            Ok(v) => Ok(scalars_from_f32_bits(&v)),
            Err(e) => Err(TensorError::BackendFailure { message: backend::error_text(&e) }),
        },
        DTag::F32 => match backend::read_flat_f32_bits(t) {
            Ok(v) => Ok(scalars_from_f32_bits(&v)),
            Err(e) => Err(TensorError::BackendFailure { message: backend::error_text(&e) }),
        },
        DTag::F64 => match backend::read_flat_f64_bits(t) {
            Ok(v) => Ok(scalars_from_f64_bits(&v)),
            Err(e) => Err(TensorError::BackendFailure { message: backend::error_text(&e) }),
        },
    }
}

/// Converts a tensor's full contents into a nested host value: a scalar
/// for rank zero, one nesting level per axis up to rank three. A rank
/// above three is rejected with the actual rank named; an engine read
/// failure passes through. On success the tree nests exactly as the
/// shape prescribes, holds exactly as many leaves as the tensor has
/// elements, and every leaf carries the host-visible element type of the
/// tensor's stored one.
pub fn to_host_tree(t: &TensorHandle) -> (r: Result<HostTree, TensorError>)
    ensures
        (t.spec_shape().len() > 3) <==> r matches Err(TensorError::UnsupportedRank { .. }),
        r matches Err(TensorError::UnsupportedRank { rank }) ==> rank == t.spec_shape().len(),
        r matches Err(e) ==> (e matches TensorError::UnsupportedRank { .. } || e matches
            TensorError::BackendFailure { .. }),
        r matches Ok(tree) ==> tree_matches_shape(tree, t.spec_shape()) && tree_depth(tree)
            == t.spec_shape().len() && tree_count(tree) == elem_count(t.spec_shape())
            && tree_kind_ok(tree, widened(t.spec_dtype())),
{
    let rank = t.rank();
    if rank > 3 {
        return Err(TensorError::UnsupportedRank { rank });
    }
    let flat = match read_scalars(t) {
        Ok(flat) => flat,
        Err(e) => {
            return Err(e);
        },
    };
    let tree = build_tree(flat, t.shape());
    proof {
        lemma_tree_count_matches_shape(tree, t.spec_shape());
        lemma_tree_depth_matches_shape(tree, t.spec_shape());
    }
    Ok(tree)
}

} // verus!
