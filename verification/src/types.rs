//! Column-major matrix types.
//!
//! A matrix is stored as an ordered sequence of column vectors, the
//! shading-language convention. Row-major construction gathers every N-th
//! scalar into a column — a transpose performed once at construction — so
//! the in-memory layout is column-major whichever constructor was used. No
//! matrix arithmetic lives here: only storage and the two construction
//! paths.

use vstd::prelude::*;
use crate::vector_types::{Float3, Float4};

verus! {

/// A 3x3 float matrix: three [`Float3`] columns, column-major.
#[derive(Debug)]
pub struct Float3x3 {
    /// The columns; `columns[j]` is column `j`.
    pub columns: [Float3; 3],
}

impl Float3x3 {
    /// Stores the given column vectors verbatim.
    pub fn from_columns(columns: [Float3; 3]) -> (r: Float3x3)
        ensures
            r.columns == columns,
    {
        Float3x3 { columns }
    }

    /// Builds the matrix from scalars listed in row-major reading order,
    /// ```text
    ///     a b c
    ///     d e f
    ///     g h i
    /// ```
    /// gathering every third scalar into a column: column 0 is `(a, d, g)`,
    /// column 1 is `(b, e, h)`, column 2 is `(c, f, i)`. The gather moves
    /// each bit pattern verbatim; construction is exact.
    pub fn from_rowmajor(
        a: u32, b: u32, c: u32,
        d: u32, e: u32, f: u32,
        g: u32, h: u32, i: u32,
    ) -> (r: Float3x3)
        ensures
            r.columns[0].spec_x() == a,
            r.columns[0].spec_y() == d,
            r.columns[0].spec_z() == g,
            r.columns[1].spec_x() == b,
            r.columns[1].spec_y() == e,
            r.columns[1].spec_z() == h,
            r.columns[2].spec_x() == c,
            r.columns[2].spec_y() == f,
            r.columns[2].spec_z() == i,
    {
        Float3x3 {
            columns: [
                Float3::new(a, d, g),
                Float3::new(b, e, h),
                Float3::new(c, f, i),
            ],
        }
    }

    /// Borrows the backing column array for in-place editing; no invariant
    /// applies beyond the fixed array shape.
    pub fn columns_mut(&mut self) -> (r: &mut [Float3; 3])
        ensures
            *r == old(self).columns,
            final(self).columns == *final(r),
    {
        &mut self.columns
    }
}

/// A 4x4 float matrix: four [`Float4`] columns, column-major.
#[derive(Debug)]
pub struct Float4x4 {
    /// The columns; `columns[j]` is column `j`.
    pub columns: [Float4; 4],
}

impl Float4x4 {
    /// Stores the given column vectors verbatim.
    pub fn from_columns(columns: [Float4; 4]) -> (r: Float4x4)
        ensures
            r.columns == columns,
    {
        Float4x4 { columns }
    }

    /// Builds the matrix from scalars listed in row-major reading order,
    /// ```text
    ///     a b c d
    ///     e f g h
    ///     i j k l
    ///     m n o p
    /// ```
    /// gathering every fourth scalar into a column: column 0 is
    /// `(a, e, i, m)`, column 1 is `(b, f, j, n)`, column 2 is
    /// `(c, g, k, o)`, column 3 is `(d, h, l, p)`. The gather moves each bit
    /// pattern verbatim; construction is exact.
    pub fn from_rowmajor(
        a: u32, b: u32, c: u32, d: u32,
        e: u32, f: u32, g: u32, h: u32,
        i: u32, j: u32, k: u32, l: u32,
        m: u32, n: u32, o: u32, p: u32,
    ) -> (r: Float4x4)
        ensures
            r.columns[0].spec_x() == a,
            r.columns[0].spec_y() == e,
            r.columns[0].spec_z() == i,
            r.columns[0].spec_w() == m,
            r.columns[1].spec_x() == b,
            r.columns[1].spec_y() == f,
            r.columns[1].spec_z() == j,
            r.columns[1].spec_w() == n,
            r.columns[2].spec_x() == c,
            r.columns[2].spec_y() == g,
            r.columns[2].spec_z() == k,
            r.columns[2].spec_w() == o,
            r.columns[3].spec_x() == d,
            r.columns[3].spec_y() == h,
            r.columns[3].spec_z() == l,
            r.columns[3].spec_w() == p,
    {
        Float4x4 {
            columns: [
                Float4::new(a, e, i, m),
                Float4::new(b, f, j, n),
                Float4::new(c, g, k, o),
                Float4::new(d, h, l, p),
            ],
        }
    }

    /// Borrows the backing column array for in-place editing; no invariant
    /// applies beyond the fixed array shape.
    pub fn columns_mut(&mut self) -> (r: &mut [Float4; 4])
        ensures
            *r == old(self).columns,
            final(self).columns == *final(r),
    {
        &mut self.columns
    }
}

} // verus!
