//! Dimensions of the arithmetic operations, as the kernels take them.

use vstd::prelude::*;

verus! {

/// The largest dimension a kernel takes: its dimensions are 32-bit signed.
pub const MAX_DIM: usize = 2147483647;

/// Whether `n` can be handed to a kernel as a dimension.
pub open spec fn fits(n: int) -> bool {
    0 <= n <= MAX_DIM as int
}

/// `n`, raised to one where it is zero: the least leading dimension that a
/// kernel accepts for `n` rows.
pub open spec fn leading(n: int) -> int {
    if n < 1 {
        1
    } else {
        n
    }
}

/// A buffer length as a kernel dimension, where it fits.
pub fn dimension(len: usize) -> (r: Option<i32>)
    ensures
        r is Some <==> fits(len as int),
        r matches Some(n) ==> n as int == len as int,
{
    if len <= MAX_DIM {
        Some(len as i32)
    } else {
        None
    }
}

/// The common length of two vectors, where they have one and it fits.
pub fn pair_length(x_len: usize, y_len: usize) -> (r: Option<i32>)
    ensures
        r is Some <==> x_len == y_len && fits(x_len as int),
        r matches Some(n) ==> n as int == x_len as int,
{
    if x_len == y_len {
        dimension(x_len)
    } else {
        None
    }
}

/// How `C = α·A·B + β·C` is handed to a kernel. `A` is `m × p`, `B` is
/// `p × n` and `C` is `m × n`, all column-major.
#[derive(Clone, Copy, Debug, PartialEq, Eq, Structural)]
pub enum Product {
    /// `C` is a single column: a matrix-vector product `C = α·A·B + β·C`,
    /// with `A` of `m` rows, `p` columns and leading dimension `lda`.
    MatrixVector { m: i32, p: i32, lda: i32 },
    /// A general matrix-matrix product with the leading dimensions of `A`,
    /// `B` and `C`.
    MatrixMatrix { m: i32, n: i32, p: i32, lda: i32, ldb: i32, ldc: i32 },
}

/// The inner dimension `p = |A| / m`.
pub open spec fn inner(a_len: int, m: int) -> int {
    a_len / m
}

/// The number of columns `n = |C| / m`.
pub open spec fn columns(c_len: int, m: int) -> int {
    c_len / m
}

/// Whether buffers of these lengths hold `A` (`m × p`), `B` (`p × n`) and
/// `C` (`m × n`) for the derived `p` and `n`, each of which a kernel takes.
pub open spec fn consistent(a_len: int, b_len: int, c_len: int, m: int) -> bool {
    &&& m > 0
    &&& a_len % m == 0
    &&& c_len % m == 0
    &&& b_len == inner(a_len, m) * columns(c_len, m)
    &&& fits(m)
    &&& fits(inner(a_len, m))
    &&& fits(columns(c_len, m))
}

/// The kernel call for consistent lengths: the matrix-vector kernel exactly
/// when `C` has one column.
pub open spec fn product_of(a_len: int, c_len: int, m: int) -> Product {
    let p = inner(a_len, m);
    let n = columns(c_len, m);
    if n == 1 {
        Product::MatrixVector { m: m as i32, p: p as i32, lda: m as i32 }
    } else {
        Product::MatrixMatrix {
            m: m as i32,
            n: n as i32,
            p: p as i32,
            lda: m as i32,
            ldb: leading(p) as i32,
            ldc: m as i32,
        }
    }
}

/// Derives the dimensions of `C = α·A·B + β·C` from the buffer lengths and
/// `m`, and picks the kernel; `None` where the lengths are not consistent.
pub fn plan_product(a_len: usize, b_len: usize, c_len: usize, m: usize) -> (r: Option<Product>)
    ensures
        r is Some <==> consistent(a_len as int, b_len as int, c_len as int, m as int),
        r matches Some(plan) ==> plan == product_of(a_len as int, c_len as int, m as int),
{
    if m == 0 || m > MAX_DIM || a_len % m != 0 || c_len % m != 0 {
        return None;
    }
    let p = a_len / m;
    let n = c_len / m;
    if p > MAX_DIM || n > MAX_DIM {
        return None;
    }
    match p.checked_mul(n) {
        Some(size) if size == b_len => {},
        _ => return None,
    }
    let mm = m as i32;
    let pp = p as i32;
    if n == 1 {
        Some(Product::MatrixVector { m: mm, p: pp, lda: mm })
    } else {
        let ldb: i32 = if pp < 1 { 1 } else { pp };
        Some(Product::MatrixMatrix { m: mm, n: n as i32, p: pp, lda: mm, ldb, ldc: mm })
    }
}

} // verus!
