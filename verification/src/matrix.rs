//! 2x2, 3x3 and 4x4 matrices over fixed-point scalars.
//!
//! Field `x2` is row `x` (the first row), column `2`; the constructor
//! functions take their arguments in row-major order.

use vstd::prelude::*;
use crate::fx::{Fx, FX_SCALE, fx_add, fx_sub, fx_neg, fx_mul, fx_div};
use crate::tuple::Tuple4;

verus! {

/// A 2x2 matrix.
#[derive(Copy, Clone, Debug, PartialEq, Eq, Structural)]
pub struct Matrix2 {
    pub x0: Fx,
    pub y0: Fx,
    pub x1: Fx,
    pub y1: Fx,
}

/// A 3x3 matrix.
#[derive(Copy, Clone, Debug, PartialEq, Eq, Structural)]
pub struct Matrix3 {
    pub x0: Fx,
    pub y0: Fx,
    pub z0: Fx,
    pub x1: Fx,
    pub y1: Fx,
    pub z1: Fx,
    pub x2: Fx,
    pub y2: Fx,
    pub z2: Fx,
}

/// A 4x4 matrix.
#[derive(Copy, Clone, Debug, PartialEq, Eq, Structural)]
pub struct Matrix4 {
    pub x0: Fx,
    pub y0: Fx,
    pub z0: Fx,
    pub w0: Fx,
    pub x1: Fx,
    pub y1: Fx,
    pub z1: Fx,
    pub w1: Fx,
    pub x2: Fx,
    pub y2: Fx,
    pub z2: Fx,
    pub w2: Fx,
    pub x3: Fx,
    pub y3: Fx,
    pub z3: Fx,
    pub w3: Fx,
}

/// The raw two-term product sum `a1*b1 + (-a2)*b2`, as the 2x2 determinant
/// and the 3x3 minors compute it.
pub open spec fn det2_of(x0: int, x1: int, y0: int, y1: int) -> int {
    fx_add(fx_mul(x0, y1), fx_mul(fx_neg(x1), y0))
}

/// The raw four-term product sum `a1*b1 + (a2*b2 + (a3*b3 + a4*b4))`, in the
/// order the matrix product performs the additions.
pub open spec fn dot4(a1: int, b1: int, a2: int, b2: int, a3: int, b3: int, a4: int, b4: int) -> int {
    fx_add(fx_mul(a1, b1), fx_add(fx_mul(a2, b2), fx_add(fx_mul(a3, b3), fx_mul(a4, b4))))
}

/// The determinant of a 2x2 matrix.
pub open spec fn spec_det2(m: Matrix2) -> int {
    det2_of(m.x0.raw as int, m.x1.raw as int, m.y0.raw as int, m.y1.raw as int)
}

/// The submatrix of a 3x3 matrix with the given row and column removed.
pub open spec fn spec_sub3(m: Matrix3, row: int, column: int) -> Matrix2 {
    if row == 0 {
        if column == 0 {
            Matrix2 { x0: m.y1, x1: m.y2, y0: m.z1, y1: m.z2 }
        } else if column == 1 {
            Matrix2 { x0: m.y0, x1: m.y2, y0: m.z0, y1: m.z2 }
        } else {
            Matrix2 { x0: m.y0, x1: m.y1, y0: m.z0, y1: m.z1 }
        }
    } else if row == 1 {
        if column == 0 {
            Matrix2 { x0: m.x1, x1: m.x2, y0: m.z1, y1: m.z2 }
        } else if column == 1 {
            Matrix2 { x0: m.x0, x1: m.x2, y0: m.z0, y1: m.z2 }
        } else {
            Matrix2 { x0: m.x0, x1: m.x1, y0: m.z0, y1: m.z1 }
        }
    } else {
        if column == 0 {
            Matrix2 { x0: m.x1, x1: m.x2, y0: m.y1, y1: m.y2 }
        } else if column == 1 {
            Matrix2 { x0: m.x0, x1: m.x2, y0: m.y0, y1: m.y2 }
        } else {
            Matrix2 { x0: m.x0, x1: m.x1, y0: m.y0, y1: m.y1 }
        }
    }
}

/// The minor of a 3x3 matrix: the determinant of the submatrix.
pub open spec fn spec_minor3(m: Matrix3, row: int, column: int) -> int {
    spec_det2(spec_sub3(m, row, column))
}

/// The cofactor of a 3x3 matrix: the minor, negated where row plus column
/// is odd.
pub open spec fn spec_cofactor3(m: Matrix3, row: int, column: int) -> int {
    if (row + column) % 2 == 1 {
        fx_neg(spec_minor3(m, row, column))
    } else {
        spec_minor3(m, row, column)
    }
}

/// The determinant of a 3x3 matrix, expanded along the first row in the
/// order the additions are performed.
pub open spec fn spec_det3(m: Matrix3) -> int {
    fx_sub(
        fx_add(
            fx_mul(m.x0.raw as int, spec_minor3(m, 0, 0)),
            fx_mul(m.x2.raw as int, spec_minor3(m, 0, 2)),
        ),
        fx_mul(m.x1.raw as int, spec_minor3(m, 0, 1)),
    )
}

/// The submatrix of a 4x4 matrix with the given row and column removed.
pub open spec fn spec_sub4(m: Matrix4, row: int, column: int) -> Matrix3 {
    if row == 0 {
        if column == 0 {
            Matrix3 {
                x0: m.y1, y0: m.z1, z0: m.w1,
                x1: m.y2, y1: m.z2, z1: m.w2,
                x2: m.y3, y2: m.z3, z2: m.w3,
            }
        } else if column == 1 {
            Matrix3 {
                x0: m.y0, y0: m.z0, z0: m.w0,
                x1: m.y2, y1: m.z2, z1: m.w2,
                x2: m.y3, y2: m.z3, z2: m.w3,
            }
        } else if column == 2 {
            Matrix3 {
                x0: m.y0, y0: m.z0, z0: m.w0,
                x1: m.y1, y1: m.z1, z1: m.w1,
                x2: m.y3, y2: m.z3, z2: m.w3,
            }
        } else {
            Matrix3 {
                x0: m.y0, y0: m.z0, z0: m.w0,
                x1: m.y1, y1: m.z1, z1: m.w1,
                x2: m.y2, y2: m.z2, z2: m.w2,
            }
        }
    } else if row == 1 {
        if column == 0 {
            Matrix3 {
                x0: m.x1, y0: m.z1, z0: m.w1,
                x1: m.x2, y1: m.z2, z1: m.w2,
                x2: m.x3, y2: m.z3, z2: m.w3,
            }
        } else if column == 1 {
            Matrix3 {
                x0: m.x0, y0: m.z0, z0: m.w0,
                x1: m.x2, y1: m.z2, z1: m.w2,
                x2: m.x3, y2: m.z3, z2: m.w3,
            }
        } else if column == 2 {
            Matrix3 {
                x0: m.x0, y0: m.z0, z0: m.w0,
                x1: m.x1, y1: m.z1, z1: m.w1,
                x2: m.x3, y2: m.z3, z2: m.w3,
            }
        } else {
            Matrix3 {
                x0: m.x0, y0: m.z0, z0: m.w0,
                x1: m.x1, y1: m.z1, z1: m.w1,
                x2: m.x2, y2: m.z2, z2: m.w2,
            }
        }
    } else if row == 2 {
        if column == 0 {
            Matrix3 {
                x0: m.x1, y0: m.y1, z0: m.w1,
                x1: m.x2, y1: m.y2, z1: m.w2,
                x2: m.x3, y2: m.y3, z2: m.w3,
            }
        } else if column == 1 {
            Matrix3 {
                x0: m.x0, y0: m.y0, z0: m.w0,
                x1: m.x2, y1: m.y2, z1: m.w2,
                x2: m.x3, y2: m.y3, z2: m.w3,
            }
        } else if column == 2 {
            Matrix3 {
                x0: m.x0, y0: m.y0, z0: m.w0,
                x1: m.x1, y1: m.y1, z1: m.w1,
                x2: m.x3, y2: m.y3, z2: m.w3,
            }
        } else {
            Matrix3 {
                x0: m.x0, y0: m.y0, z0: m.w0,
                x1: m.x1, y1: m.y1, z1: m.w1,
                x2: m.x2, y2: m.y2, z2: m.w2,
            }
        }
    } else {
        if column == 0 {
            Matrix3 {
                x0: m.x1, y0: m.y1, z0: m.z1,
                x1: m.x2, y1: m.y2, z1: m.z2,
                x2: m.x3, y2: m.y3, z2: m.z3,
            }
        } else if column == 1 {
            Matrix3 {
                x0: m.x0, y0: m.y0, z0: m.z0,
                x1: m.x2, y1: m.y2, z1: m.z2,
                x2: m.x3, y2: m.y3, z2: m.z3,
            }
        } else if column == 2 {
            Matrix3 {
                x0: m.x0, y0: m.y0, z0: m.z0,
                x1: m.x1, y1: m.y1, z1: m.z1,
                x2: m.x3, y2: m.y3, z2: m.z3,
            }
        } else {
            Matrix3 {
                x0: m.x0, y0: m.y0, z0: m.z0,
                x1: m.x1, y1: m.y1, z1: m.z1,
                x2: m.x2, y2: m.y2, z2: m.z2,
            }
        }
    }
}

/// The minor of a 4x4 matrix: the determinant of the submatrix.
pub open spec fn spec_minor4(m: Matrix4, row: int, column: int) -> int {
    spec_det3(spec_sub4(m, row, column))
}

/// The cofactor of a 4x4 matrix.
pub open spec fn spec_cofactor4(m: Matrix4, row: int, column: int) -> int {
    if (row + column) % 2 == 1 {
        fx_neg(spec_minor4(m, row, column))
    } else {
        spec_minor4(m, row, column)
    }
}

/// The determinant of a 4x4 matrix, expanded along the first row in the
/// order the additions are performed.
pub open spec fn spec_det4(m: Matrix4) -> int {
    fx_sub(
        fx_add(
            fx_mul(m.x0.raw as int, spec_minor4(m, 0, 0)),
            fx_mul(m.x2.raw as int, spec_minor4(m, 0, 2)),
        ),
        fx_add(
            fx_mul(m.x1.raw as int, spec_minor4(m, 0, 1)),
            fx_mul(m.x3.raw as int, spec_minor4(m, 0, 3)),
        ),
    )
}

/// The first-row cofactor expansion the inversion routine divides by.
pub open spec fn spec_inv_div4(m: Matrix4) -> int {
    dot4(
        m.x0.raw as int, spec_minor4(m, 0, 0),
        m.x1.raw as int, fx_neg(spec_minor4(m, 0, 1)),
        m.x2.raw as int, spec_minor4(m, 0, 2),
        m.x3.raw as int, fx_neg(spec_minor4(m, 0, 3)),
    )
}

/// The inverse of a 4x4 matrix: the transposed cofactor matrix scaled by
/// the reciprocal of the determinant.
pub open spec fn spec_inverse4(m: Matrix4) -> Matrix4 {
    let d = spec_inv_div4(m);
    Matrix4 {
        x0: Fx { raw: fx_div(spec_minor4(m, 0, 0), d) as i64 },
        y0: Fx { raw: fx_div(fx_neg(spec_minor4(m, 0, 1)), d) as i64 },
        z0: Fx { raw: fx_div(spec_minor4(m, 0, 2), d) as i64 },
        w0: Fx { raw: fx_div(fx_neg(spec_minor4(m, 0, 3)), d) as i64 },
        x1: Fx { raw: fx_div(fx_neg(spec_minor4(m, 1, 0)), d) as i64 },
        y1: Fx { raw: fx_div(spec_minor4(m, 1, 1), d) as i64 },
        z1: Fx { raw: fx_div(fx_neg(spec_minor4(m, 1, 2)), d) as i64 },
        w1: Fx { raw: fx_div(spec_minor4(m, 1, 3), d) as i64 },
        x2: Fx { raw: fx_div(spec_minor4(m, 2, 0), d) as i64 },
        y2: Fx { raw: fx_div(fx_neg(spec_minor4(m, 2, 1)), d) as i64 },
        z2: Fx { raw: fx_div(spec_minor4(m, 2, 2), d) as i64 },
        w2: Fx { raw: fx_div(fx_neg(spec_minor4(m, 2, 3)), d) as i64 },
        x3: Fx { raw: fx_div(fx_neg(spec_minor4(m, 3, 0)), d) as i64 },
        y3: Fx { raw: fx_div(spec_minor4(m, 3, 1), d) as i64 },
        z3: Fx { raw: fx_div(fx_neg(spec_minor4(m, 3, 2)), d) as i64 },
        w3: Fx { raw: fx_div(spec_minor4(m, 3, 3), d) as i64 },
    }
}

/// Constructs a 2x2 matrix in row-major order.
pub fn matrix2(x0: Fx, x1: Fx, y0: Fx, y1: Fx) -> (m: Matrix2)
    ensures
        m == (Matrix2 { x0, y0, x1, y1 }),
{
    Matrix2 { x0, y0, x1, y1 }
}

/// Constructs a 3x3 matrix in row-major order.
pub fn matrix3(
    x0: Fx, x1: Fx, x2: Fx,
    y0: Fx, y1: Fx, y2: Fx,
    z0: Fx, z1: Fx, z2: Fx,
) -> (m: Matrix3)
    ensures
        m == (Matrix3 { x0, y0, z0, x1, y1, z1, x2, y2, z2 }),
{
    Matrix3 { x0, y0, z0, x1, y1, z1, x2, y2, z2 }
}

/// Constructs a 4x4 matrix in row-major order.
pub fn matrix4(
    x0: Fx, x1: Fx, x2: Fx, x3: Fx,
    y0: Fx, y1: Fx, y2: Fx, y3: Fx,
    z0: Fx, z1: Fx, z2: Fx, z3: Fx,
    w0: Fx, w1: Fx, w2: Fx, w3: Fx,
) -> (m: Matrix4)
    ensures
        m == (Matrix4 { x0, y0, z0, w0, x1, y1, z1, w1, x2, y2, z2, w2, x3, y3, z3, w3 }),
{
    Matrix4 { x0, y0, z0, w0, x1, y1, z1, w1, x2, y2, z2, w2, x3, y3, z3, w3 }
}

/// The 4x4 identity matrix.
pub open spec fn spec_identity4() -> Matrix4 {
    Matrix4 {
        x0: Fx { raw: FX_SCALE }, y0: Fx { raw: 0 }, z0: Fx { raw: 0 }, w0: Fx { raw: 0 },
        x1: Fx { raw: 0 }, y1: Fx { raw: FX_SCALE }, z1: Fx { raw: 0 }, w1: Fx { raw: 0 },
        x2: Fx { raw: 0 }, y2: Fx { raw: 0 }, z2: Fx { raw: FX_SCALE }, w2: Fx { raw: 0 },
        x3: Fx { raw: 0 }, y3: Fx { raw: 0 }, z3: Fx { raw: 0 }, w3: Fx { raw: FX_SCALE },
    }
}

/// The 4x4 identity matrix.
pub fn identity4() -> (m: Matrix4)
    ensures
        m == spec_identity4(),
{
    Matrix4 {
        x0: Fx::one(), y0: Fx::zero(), z0: Fx::zero(), w0: Fx::zero(),
        x1: Fx::zero(), y1: Fx::one(), z1: Fx::zero(), w1: Fx::zero(),
        x2: Fx::zero(), y2: Fx::zero(), z2: Fx::one(), w2: Fx::zero(),
        x3: Fx::zero(), y3: Fx::zero(), z3: Fx::zero(), w3: Fx::one(),
    }
}

/// The four-term product sum of the matrix product.
fn mac4(a1: Fx, b1: Fx, a2: Fx, b2: Fx, a3: Fx, b3: Fx, a4: Fx, b4: Fx) -> (r: Fx)
    ensures
        r.raw == dot4(
            a1.raw as int, b1.raw as int,
            a2.raw as int, b2.raw as int,
            a3.raw as int, b3.raw as int,
            a4.raw as int, b4.raw as int,
        ),
{
    a1.mul(b1).add(a2.mul(b2).add(a3.mul(b3).add(a4.mul(b4))))
}

impl Matrix2 {
    /// The determinant.
    pub fn determinant(&self) -> (r: Fx)
        ensures
            r.raw == spec_det2(*self),
    {
        self.x0.mul(self.y1).add(self.x1.neg().mul(self.y0))
    }
}

impl Matrix3 {
    /// The submatrix with the given row and column removed.
    pub fn submatrix(&self, row: usize, column: usize) -> (r: Matrix2)
        requires
            row <= 2,
            column <= 2,
        ensures
            r == spec_sub3(*self, row as int, column as int),
    {
        if row == 0 {
            if column == 0 {
                Matrix2 { x0: self.y1, x1: self.y2, y0: self.z1, y1: self.z2 }
            } else if column == 1 {
                Matrix2 { x0: self.y0, x1: self.y2, y0: self.z0, y1: self.z2 }
            } else {
                Matrix2 { x0: self.y0, x1: self.y1, y0: self.z0, y1: self.z1 }
            }
        } else if row == 1 {
            if column == 0 {
                Matrix2 { x0: self.x1, x1: self.x2, y0: self.z1, y1: self.z2 }
            } else if column == 1 {
                Matrix2 { x0: self.x0, x1: self.x2, y0: self.z0, y1: self.z2 }
            } else {
                Matrix2 { x0: self.x0, x1: self.x1, y0: self.z0, y1: self.z1 }
            }
        } else {
            if column == 0 {
                Matrix2 { x0: self.x1, x1: self.x2, y0: self.y1, y1: self.y2 }
            } else if column == 1 {
                Matrix2 { x0: self.x0, x1: self.x2, y0: self.y0, y1: self.y2 }
            } else {
                Matrix2 { x0: self.x0, x1: self.x1, y0: self.y0, y1: self.y1 }
            }
        }
    }

    /// The minor: the determinant of the submatrix.
    pub fn minor(&self, row: usize, column: usize) -> (r: Fx)
        requires
            row <= 2,
            column <= 2,
        ensures
            r.raw == spec_minor3(*self, row as int, column as int),
    {
        self.submatrix(row, column).determinant()
    }

    /// The cofactor: the minor, negated where row plus column is odd.
    pub fn cofactor(&self, row: usize, column: usize) -> (r: Fx)
        requires
            row <= 2,
            column <= 2,
        ensures
            r.raw == spec_cofactor3(*self, row as int, column as int),
    {
        let m = self.minor(row, column);
        if (row + column) % 2 == 1 {
            m.neg()
        } else {
            m
        }
    }

    /// The determinant, expanded along the first row.
    pub fn determinant(&self) -> (r: Fx)
        ensures
            r.raw == spec_det3(*self),
    {
        let m00 = self.minor(0, 0);
        let m01 = self.minor(0, 1);
        let m02 = self.minor(0, 2);
        self.x0.mul(m00).add(self.x2.mul(m02)).sub(self.x1.mul(m01))
    }
}

/// Rows and columns exchanged.
pub open spec fn spec_transpose4(m: Matrix4) -> Matrix4 {
    Matrix4 {
        x0: m.x0, y0: m.x1, z0: m.x2, w0: m.x3,
        x1: m.y0, y1: m.y1, z1: m.y2, w1: m.y3,
        x2: m.z0, y2: m.z1, z2: m.z2, w2: m.z3,
        x3: m.w0, y3: m.w1, z3: m.w2, w3: m.w3,
    }
}

impl Matrix4 {
    /// Rows and columns exchanged.
    pub fn transpose(&self) -> (r: Matrix4)
        ensures
            r == spec_transpose4(*self),
    {
        Matrix4 {
            x0: self.x0, y0: self.x1, z0: self.x2, w0: self.x3,
            x1: self.y0, y1: self.y1, z1: self.y2, w1: self.y3,
            x2: self.z0, y2: self.z1, z2: self.z2, w2: self.z3,
            x3: self.w0, y3: self.w1, z3: self.w2, w3: self.w3,
        }
    }

    /// The submatrix with the given row and column removed.
    pub fn submatrix(&self, row: usize, column: usize) -> (r: Matrix3)
        requires
            row <= 3,
            column <= 3,
        ensures
            r == spec_sub4(*self, row as int, column as int),
    {
        let r0 = if row == 0 {
            (self.y0, self.y1, self.y2, self.y3)
        } else {
            (self.x0, self.x1, self.x2, self.x3)
        };
        let r1 = if row <= 1 {
            (self.z0, self.z1, self.z2, self.z3)
        } else {
            (self.y0, self.y1, self.y2, self.y3)
        };
        let r2 = if row <= 2 {
            (self.w0, self.w1, self.w2, self.w3)
        } else {
            (self.z0, self.z1, self.z2, self.z3)
        };
        let c0 = if column == 0 {
            (r0.1, r1.1, r2.1)
        } else {
            (r0.0, r1.0, r2.0)
        };
        let c1 = if column <= 1 {
            (r0.2, r1.2, r2.2)
        } else {
            (r0.1, r1.1, r2.1)
        };
        let c2 = if column <= 2 {
            (r0.3, r1.3, r2.3)
        } else {
            (r0.2, r1.2, r2.2)
        };
        Matrix3 {
            x0: c0.0, y0: c0.1, z0: c0.2,
            x1: c1.0, y1: c1.1, z1: c1.2,
            x2: c2.0, y2: c2.1, z2: c2.2,
        }
    }

    /// The minor: the determinant of the submatrix.
    pub fn minor(&self, row: usize, column: usize) -> (r: Fx)
        requires
            row <= 3,
            column <= 3,
        ensures
            r.raw == spec_minor4(*self, row as int, column as int),
    {
        self.submatrix(row, column).determinant()
    }

    /// The cofactor: the minor, negated where row plus column is odd.
    pub fn cofactor(&self, row: usize, column: usize) -> (r: Fx)
        requires
            row <= 3,
            column <= 3,
        ensures
            r.raw == spec_cofactor4(*self, row as int, column as int),
    {
        let m = self.minor(row, column);
        if (row + column) % 2 == 1 {
            m.neg()
        } else {
            m
        }
    }

    /// The determinant, expanded along the first row.
    pub fn determinant(&self) -> (r: Fx)
        ensures
            r.raw == spec_det4(*self),
    {
        let a = self.x0.mul(self.minor(0, 0)).add(self.x2.mul(self.minor(0, 2)));
        let b = self.x1.mul(self.minor(0, 1)).add(self.x3.mul(self.minor(0, 3)));
        a.sub(b)
    }

    /// Whether the determinant is nonzero, so that inversion recovers the
    /// matrix's action.
    pub fn is_invertible(&self) -> (r: bool)
        ensures
            r == (spec_det4(*self) != 0),
    {
        self.determinant().raw != 0
    }

    /// The inverse: each cofactor of the transposed cofactor matrix divided
    /// by the determinant. A degenerate (zero) determinant saturates the
    /// quotients instead of failing; `is_invertible` tells the cases apart.
    pub fn inverse(&self) -> (r: Matrix4)
        ensures
            r == spec_inverse4(*self),
    {
        let c00 = self.minor(0, 0);
        let c01 = self.minor(0, 1).neg();
        let c02 = self.minor(0, 2);
        let c03 = self.minor(0, 3).neg();
        let det = mac4(self.x0, c00, self.x1, c01, self.x2, c02, self.x3, c03);

        Matrix4 {
            x0: c00.div(det),
            y0: c01.div(det),
            z0: c02.div(det),
            w0: c03.div(det),
            x1: self.minor(1, 0).neg().div(det),
            y1: self.minor(1, 1).div(det),
            z1: self.minor(1, 2).neg().div(det),
            w1: self.minor(1, 3).div(det),
            x2: self.minor(2, 0).div(det),
            y2: self.minor(2, 1).neg().div(det),
            z2: self.minor(2, 2).div(det),
            w2: self.minor(2, 3).neg().div(det),
            x3: self.minor(3, 0).neg().div(det),
            y3: self.minor(3, 1).div(det),
            z3: self.minor(3, 2).neg().div(det),
            w3: self.minor(3, 3).div(det),
        }
    }

    /// The matrix product.
    pub fn mul(self, other: Matrix4) -> (r: Matrix4)
        ensures
            r == spec_mat4_mul(self, other),
    {
        let r = Matrix4 {
            x0: mac4(self.x0, other.x0, self.x1, other.y0, self.x2, other.z0, self.x3, other.w0),
            y0: mac4(self.y0, other.x0, self.y1, other.y0, self.y2, other.z0, self.y3, other.w0),
            z0: mac4(self.z0, other.x0, self.z1, other.y0, self.z2, other.z0, self.z3, other.w0),
            w0: mac4(self.w0, other.x0, self.w1, other.y0, self.w2, other.z0, self.w3, other.w0),
            x1: mac4(self.x0, other.x1, self.x1, other.y1, self.x2, other.z1, self.x3, other.w1),
            y1: mac4(self.y0, other.x1, self.y1, other.y1, self.y2, other.z1, self.y3, other.w1),
            z1: mac4(self.z0, other.x1, self.z1, other.y1, self.z2, other.z1, self.z3, other.w1),
            w1: mac4(self.w0, other.x1, self.w1, other.y1, self.w2, other.z1, self.w3, other.w1),
            x2: mac4(self.x0, other.x2, self.x1, other.y2, self.x2, other.z2, self.x3, other.w2),
            y2: mac4(self.y0, other.x2, self.y1, other.y2, self.y2, other.z2, self.y3, other.w2),
            z2: mac4(self.z0, other.x2, self.z1, other.y2, self.z2, other.z2, self.z3, other.w2),
            w2: mac4(self.w0, other.x2, self.w1, other.y2, self.w2, other.z2, self.w3, other.w2),
            x3: mac4(self.x0, other.x3, self.x1, other.y3, self.x2, other.z3, self.x3, other.w3),
            y3: mac4(self.y0, other.x3, self.y1, other.y3, self.y2, other.z3, self.y3, other.w3),
            z3: mac4(self.z0, other.x3, self.z1, other.y3, self.z2, other.z3, self.z3, other.w3),
            w3: mac4(self.w0, other.x3, self.w1, other.y3, self.w2, other.z3, self.w3, other.w3),
        };
        r
    }

    /// The matrix applied to a tuple.
    pub fn mul_tuple(self, other: Tuple4) -> (r: Tuple4)
        ensures
            r == spec_mat4_mul_tuple(self, other),
    {
        Tuple4 {
            x: mac4(self.x0, other.x, self.x1, other.y, self.x2, other.z, self.x3, other.w),
            y: mac4(self.y0, other.x, self.y1, other.y, self.y2, other.z, self.y3, other.w),
            z: mac4(self.z0, other.x, self.z1, other.y, self.z2, other.z, self.z3, other.w),
            w: mac4(self.w0, other.x, self.w1, other.y, self.w2, other.z, self.w3, other.w),
        }
    }
}

/// One entry of the 4x4 matrix product, by the two operands' rows.
pub open spec fn mul_entry4(
    a1: Fx, a2: Fx, a3: Fx, a4: Fx, b1: Fx, b2: Fx, b3: Fx, b4: Fx,
) -> Fx {
    Fx {
        raw: dot4(
            a1.raw as int, b1.raw as int,
            a2.raw as int, b2.raw as int,
            a3.raw as int, b3.raw as int,
            a4.raw as int, b4.raw as int,
        ) as i64,
    }
}

/// The 4x4 matrix product.
pub open spec fn spec_mat4_mul(a: Matrix4, b: Matrix4) -> Matrix4 {
    Matrix4 {
        x0: mul_entry4(a.x0, a.x1, a.x2, a.x3, b.x0, b.y0, b.z0, b.w0),
        y0: mul_entry4(a.y0, a.y1, a.y2, a.y3, b.x0, b.y0, b.z0, b.w0),
        z0: mul_entry4(a.z0, a.z1, a.z2, a.z3, b.x0, b.y0, b.z0, b.w0),
        w0: mul_entry4(a.w0, a.w1, a.w2, a.w3, b.x0, b.y0, b.z0, b.w0),
        x1: mul_entry4(a.x0, a.x1, a.x2, a.x3, b.x1, b.y1, b.z1, b.w1),
        y1: mul_entry4(a.y0, a.y1, a.y2, a.y3, b.x1, b.y1, b.z1, b.w1),
        z1: mul_entry4(a.z0, a.z1, a.z2, a.z3, b.x1, b.y1, b.z1, b.w1),
        w1: mul_entry4(a.w0, a.w1, a.w2, a.w3, b.x1, b.y1, b.z1, b.w1),
        x2: mul_entry4(a.x0, a.x1, a.x2, a.x3, b.x2, b.y2, b.z2, b.w2),
        y2: mul_entry4(a.y0, a.y1, a.y2, a.y3, b.x2, b.y2, b.z2, b.w2),
        z2: mul_entry4(a.z0, a.z1, a.z2, a.z3, b.x2, b.y2, b.z2, b.w2),
        w2: mul_entry4(a.w0, a.w1, a.w2, a.w3, b.x2, b.y2, b.z2, b.w2),
        x3: mul_entry4(a.x0, a.x1, a.x2, a.x3, b.x3, b.y3, b.z3, b.w3),
        y3: mul_entry4(a.y0, a.y1, a.y2, a.y3, b.x3, b.y3, b.z3, b.w3),
        z3: mul_entry4(a.z0, a.z1, a.z2, a.z3, b.x3, b.y3, b.z3, b.w3),
        w3: mul_entry4(a.w0, a.w1, a.w2, a.w3, b.x3, b.y3, b.z3, b.w3),
    }
}

/// The 4x4 matrix applied to a tuple.
pub open spec fn spec_mat4_mul_tuple(a: Matrix4, t: Tuple4) -> Tuple4 {
    Tuple4 {
        x: mul_entry4(a.x0, a.x1, a.x2, a.x3, t.x, t.y, t.z, t.w),
        y: mul_entry4(a.y0, a.y1, a.y2, a.y3, t.x, t.y, t.z, t.w),
        z: mul_entry4(a.z0, a.z1, a.z2, a.z3, t.x, t.y, t.z, t.w),
        w: mul_entry4(a.w0, a.w1, a.w2, a.w3, t.x, t.y, t.z, t.w),
    }
}

} // verus!
