//! Square matrices (2x2, 3x3, 4x4) over fixed-point scalars: multiply,
//! transpose, determinant and inverse by cofactor expansion, and the affine
//! transform factories.
//!
//! The matrices are small and fixed-size, so every operation is written out
//! entry by entry; each executable function returns exactly the value of its
//! spec mirror.

use crate::fx::fadd;
use crate::fx::fmul;
use crate::fx::fneg;
use crate::fx::fsub;
use crate::fx::Fx;
use crate::fx::SCALE;
use crate::trig::fcos;
use crate::trig::fsin;
use crate::tuple::spec_magnitude;
use crate::tuple::spec_neg;
use crate::tuple::spec_normalize;
use crate::tuple::spec_cross;
use crate::tuple::spec_sub;
use crate::tuple::Tuple;
use vstd::prelude::*;

verus! {

/// A 2x2 matrix of fixed-point scalars, row major.
#[derive(Clone, Copy, PartialEq, Eq, Structural, Debug)]
pub struct Matrix2 {
    pub m00: Fx,
    pub m01: Fx,
    pub m10: Fx,
    pub m11: Fx,
}

/// A 3x3 matrix of fixed-point scalars, row major.
#[derive(Clone, Copy, PartialEq, Eq, Structural, Debug)]
pub struct Matrix3 {
    pub m00: Fx,
    pub m01: Fx,
    pub m02: Fx,
    pub m10: Fx,
    pub m11: Fx,
    pub m12: Fx,
    pub m20: Fx,
    pub m21: Fx,
    pub m22: Fx,
}

/// A 4x4 matrix of fixed-point scalars, row major.
#[derive(Clone, Copy, PartialEq, Eq, Structural, Debug)]
pub struct Matrix4 {
    pub m00: Fx,
    pub m01: Fx,
    pub m02: Fx,
    pub m03: Fx,
    pub m10: Fx,
    pub m11: Fx,
    pub m12: Fx,
    pub m13: Fx,
    pub m20: Fx,
    pub m21: Fx,
    pub m22: Fx,
    pub m23: Fx,
    pub m30: Fx,
    pub m31: Fx,
    pub m32: Fx,
    pub m33: Fx,
}

/// Raw 4-term dot product, summed left to right.
pub open spec fn dot4(a0: int, a1: int, a2: int, a3: int, b0: int, b1: int, b2: int, b3: int) -> int {
    fadd(fadd(fadd(fmul(a0, b0), fmul(a1, b1)), fmul(a2, b2)), fmul(a3, b3))
}

/// Raw 3-term dot product, summed left to right.
pub open spec fn dot3(a0: int, a1: int, a2: int, b0: int, b1: int, b2: int) -> int {
    fadd(fadd(fmul(a0, b0), fmul(a1, b1)), fmul(a2, b2))
}

/// Raw 2-term dot product.
pub open spec fn dot2(a0: int, a1: int, b0: int, b1: int) -> int {
    fadd(fmul(a0, b0), fmul(a1, b1))
}

/// The matrix product `a * b`, entry by entry.
pub open spec fn spec_matmul2(a: Matrix2, b: Matrix2) -> Matrix2 {
    Matrix2 {
        m00: Fx { raw: dot2(a.m00.raw as int, a.m01.raw as int, b.m00.raw as int, b.m10.raw as int) as i64 },
        m01: Fx { raw: dot2(a.m00.raw as int, a.m01.raw as int, b.m01.raw as int, b.m11.raw as int) as i64 },
        m10: Fx { raw: dot2(a.m10.raw as int, a.m11.raw as int, b.m00.raw as int, b.m10.raw as int) as i64 },
        m11: Fx { raw: dot2(a.m10.raw as int, a.m11.raw as int, b.m01.raw as int, b.m11.raw as int) as i64 },
    }
}

/// The matrix product `a * b`, entry by entry.
pub open spec fn spec_matmul3(a: Matrix3, b: Matrix3) -> Matrix3 {
    Matrix3 {
        m00: Fx { raw: dot3(a.m00.raw as int, a.m01.raw as int, a.m02.raw as int, b.m00.raw as int, b.m10.raw as int, b.m20.raw as int) as i64 },
        m01: Fx { raw: dot3(a.m00.raw as int, a.m01.raw as int, a.m02.raw as int, b.m01.raw as int, b.m11.raw as int, b.m21.raw as int) as i64 },
        m02: Fx { raw: dot3(a.m00.raw as int, a.m01.raw as int, a.m02.raw as int, b.m02.raw as int, b.m12.raw as int, b.m22.raw as int) as i64 },
        m10: Fx { raw: dot3(a.m10.raw as int, a.m11.raw as int, a.m12.raw as int, b.m00.raw as int, b.m10.raw as int, b.m20.raw as int) as i64 },
        m11: Fx { raw: dot3(a.m10.raw as int, a.m11.raw as int, a.m12.raw as int, b.m01.raw as int, b.m11.raw as int, b.m21.raw as int) as i64 },
        m12: Fx { raw: dot3(a.m10.raw as int, a.m11.raw as int, a.m12.raw as int, b.m02.raw as int, b.m12.raw as int, b.m22.raw as int) as i64 },
        m20: Fx { raw: dot3(a.m20.raw as int, a.m21.raw as int, a.m22.raw as int, b.m00.raw as int, b.m10.raw as int, b.m20.raw as int) as i64 },
        m21: Fx { raw: dot3(a.m20.raw as int, a.m21.raw as int, a.m22.raw as int, b.m01.raw as int, b.m11.raw as int, b.m21.raw as int) as i64 },
        m22: Fx { raw: dot3(a.m20.raw as int, a.m21.raw as int, a.m22.raw as int, b.m02.raw as int, b.m12.raw as int, b.m22.raw as int) as i64 },
    }
}

/// The matrix product `a * b`, entry by entry.
pub open spec fn spec_matmul4(a: Matrix4, b: Matrix4) -> Matrix4 {
    Matrix4 {
        m00: Fx { raw: dot4(a.m00.raw as int, a.m01.raw as int, a.m02.raw as int, a.m03.raw as int, b.m00.raw as int, b.m10.raw as int, b.m20.raw as int, b.m30.raw as int) as i64 },
        m01: Fx { raw: dot4(a.m00.raw as int, a.m01.raw as int, a.m02.raw as int, a.m03.raw as int, b.m01.raw as int, b.m11.raw as int, b.m21.raw as int, b.m31.raw as int) as i64 },
        m02: Fx { raw: dot4(a.m00.raw as int, a.m01.raw as int, a.m02.raw as int, a.m03.raw as int, b.m02.raw as int, b.m12.raw as int, b.m22.raw as int, b.m32.raw as int) as i64 },
        m03: Fx { raw: dot4(a.m00.raw as int, a.m01.raw as int, a.m02.raw as int, a.m03.raw as int, b.m03.raw as int, b.m13.raw as int, b.m23.raw as int, b.m33.raw as int) as i64 },
        m10: Fx { raw: dot4(a.m10.raw as int, a.m11.raw as int, a.m12.raw as int, a.m13.raw as int, b.m00.raw as int, b.m10.raw as int, b.m20.raw as int, b.m30.raw as int) as i64 },
        m11: Fx { raw: dot4(a.m10.raw as int, a.m11.raw as int, a.m12.raw as int, a.m13.raw as int, b.m01.raw as int, b.m11.raw as int, b.m21.raw as int, b.m31.raw as int) as i64 },
        m12: Fx { raw: dot4(a.m10.raw as int, a.m11.raw as int, a.m12.raw as int, a.m13.raw as int, b.m02.raw as int, b.m12.raw as int, b.m22.raw as int, b.m32.raw as int) as i64 },
        m13: Fx { raw: dot4(a.m10.raw as int, a.m11.raw as int, a.m12.raw as int, a.m13.raw as int, b.m03.raw as int, b.m13.raw as int, b.m23.raw as int, b.m33.raw as int) as i64 },
        m20: Fx { raw: dot4(a.m20.raw as int, a.m21.raw as int, a.m22.raw as int, a.m23.raw as int, b.m00.raw as int, b.m10.raw as int, b.m20.raw as int, b.m30.raw as int) as i64 },
        m21: Fx { raw: dot4(a.m20.raw as int, a.m21.raw as int, a.m22.raw as int, a.m23.raw as int, b.m01.raw as int, b.m11.raw as int, b.m21.raw as int, b.m31.raw as int) as i64 },
        m22: Fx { raw: dot4(a.m20.raw as int, a.m21.raw as int, a.m22.raw as int, a.m23.raw as int, b.m02.raw as int, b.m12.raw as int, b.m22.raw as int, b.m32.raw as int) as i64 },
        m23: Fx { raw: dot4(a.m20.raw as int, a.m21.raw as int, a.m22.raw as int, a.m23.raw as int, b.m03.raw as int, b.m13.raw as int, b.m23.raw as int, b.m33.raw as int) as i64 },
        m30: Fx { raw: dot4(a.m30.raw as int, a.m31.raw as int, a.m32.raw as int, a.m33.raw as int, b.m00.raw as int, b.m10.raw as int, b.m20.raw as int, b.m30.raw as int) as i64 },
        m31: Fx { raw: dot4(a.m30.raw as int, a.m31.raw as int, a.m32.raw as int, a.m33.raw as int, b.m01.raw as int, b.m11.raw as int, b.m21.raw as int, b.m31.raw as int) as i64 },
        m32: Fx { raw: dot4(a.m30.raw as int, a.m31.raw as int, a.m32.raw as int, a.m33.raw as int, b.m02.raw as int, b.m12.raw as int, b.m22.raw as int, b.m32.raw as int) as i64 },
        m33: Fx { raw: dot4(a.m30.raw as int, a.m31.raw as int, a.m32.raw as int, a.m33.raw as int, b.m03.raw as int, b.m13.raw as int, b.m23.raw as int, b.m33.raw as int) as i64 },
    }
}

/// The transpose of `m`.
pub open spec fn spec_transpose2(m: Matrix2) -> Matrix2 {
    Matrix2 {
        m00: m.m00,
        m01: m.m10,
        m10: m.m01,
        m11: m.m11,
    }
}

/// The transpose of `m`.
pub open spec fn spec_transpose3(m: Matrix3) -> Matrix3 {
    Matrix3 {
        m00: m.m00,
        m01: m.m10,
        m02: m.m20,
        m10: m.m01,
        m11: m.m11,
        m12: m.m21,
        m20: m.m02,
        m21: m.m12,
        m22: m.m22,
    }
}

/// The transpose of `m`.
pub open spec fn spec_transpose4(m: Matrix4) -> Matrix4 {
    Matrix4 {
        m00: m.m00,
        m01: m.m10,
        m02: m.m20,
        m03: m.m30,
        m10: m.m01,
        m11: m.m11,
        m12: m.m21,
        m13: m.m31,
        m20: m.m02,
        m21: m.m12,
        m22: m.m22,
        m23: m.m32,
        m30: m.m03,
        m31: m.m13,
        m32: m.m23,
        m33: m.m33,
    }
}

/// The matrix applied to a tuple: each component is a row-tuple dot product.
pub open spec fn spec_mat_tuple(a: Matrix4, t: Tuple) -> Tuple {
    Tuple {
        x: Fx { raw: dot4(a.m00.raw as int, a.m01.raw as int, a.m02.raw as int, a.m03.raw as int, t.x.raw as int, t.y.raw as int, t.z.raw as int, t.w.raw as int) as i64 },
        y: Fx { raw: dot4(a.m10.raw as int, a.m11.raw as int, a.m12.raw as int, a.m13.raw as int, t.x.raw as int, t.y.raw as int, t.z.raw as int, t.w.raw as int) as i64 },
        z: Fx { raw: dot4(a.m20.raw as int, a.m21.raw as int, a.m22.raw as int, a.m23.raw as int, t.x.raw as int, t.y.raw as int, t.z.raw as int, t.w.raw as int) as i64 },
        w: Fx { raw: dot4(a.m30.raw as int, a.m31.raw as int, a.m32.raw as int, a.m33.raw as int, t.x.raw as int, t.y.raw as int, t.z.raw as int, t.w.raw as int) as i64 },
    }
}

/// The 2x2 identity matrix.
pub open spec fn spec_identity2() -> Matrix2 {
    Matrix2 {
        m00: Fx { raw: SCALE as i64 },
        m01: Fx { raw: 0 },
        m10: Fx { raw: 0 },
        m11: Fx { raw: SCALE as i64 },
    }
}

/// The 3x3 identity matrix.
pub open spec fn spec_identity3() -> Matrix3 {
    Matrix3 {
        m00: Fx { raw: SCALE as i64 },
        m01: Fx { raw: 0 },
        m02: Fx { raw: 0 },
        m10: Fx { raw: 0 },
        m11: Fx { raw: SCALE as i64 },
        m12: Fx { raw: 0 },
        m20: Fx { raw: 0 },
        m21: Fx { raw: 0 },
        m22: Fx { raw: SCALE as i64 },
    }
}

/// The 4x4 identity matrix.
pub open spec fn spec_identity4() -> Matrix4 {
    Matrix4 {
        m00: Fx { raw: SCALE as i64 },
        m01: Fx { raw: 0 },
        m02: Fx { raw: 0 },
        m03: Fx { raw: 0 },
        m10: Fx { raw: 0 },
        m11: Fx { raw: SCALE as i64 },
        m12: Fx { raw: 0 },
        m13: Fx { raw: 0 },
        m20: Fx { raw: 0 },
        m21: Fx { raw: 0 },
        m22: Fx { raw: SCALE as i64 },
        m23: Fx { raw: 0 },
        m30: Fx { raw: 0 },
        m31: Fx { raw: 0 },
        m32: Fx { raw: 0 },
        m33: Fx { raw: SCALE as i64 },
    }
}

/// `m` with row `r` and column `c` removed.
pub open spec fn spec_submatrix4(m: Matrix4, r: int, c: int) -> Matrix3 {
    if r == 0 {
        if c == 0 {
            Matrix3 {
                m00: m.m11,
                m01: m.m12,
                m02: m.m13,
                m10: m.m21,
                m11: m.m22,
                m12: m.m23,
                m20: m.m31,
                m21: m.m32,
                m22: m.m33,
            }
        } else if c == 1 {
            Matrix3 {
                m00: m.m10,
                m01: m.m12,
                m02: m.m13,
                m10: m.m20,
                m11: m.m22,
                m12: m.m23,
                m20: m.m30,
                m21: m.m32,
                m22: m.m33,
            }
        } else if c == 2 {
            Matrix3 {
                m00: m.m10,
                m01: m.m11,
                m02: m.m13,
                m10: m.m20,
                m11: m.m21,
                m12: m.m23,
                m20: m.m30,
                m21: m.m31,
                m22: m.m33,
            }
        } else {
            Matrix3 {
                m00: m.m10,
                m01: m.m11,
                m02: m.m12,
                m10: m.m20,
                m11: m.m21,
                m12: m.m22,
                m20: m.m30,
                m21: m.m31,
                m22: m.m32,
            }
        }
    } else if r == 1 {
        if c == 0 {
            Matrix3 {
                m00: m.m01,
                m01: m.m02,
                m02: m.m03,
                m10: m.m21,
                m11: m.m22,
                m12: m.m23,
                m20: m.m31,
                m21: m.m32,
                m22: m.m33,
            }
        } else if c == 1 {
            Matrix3 {
                m00: m.m00,
                m01: m.m02,
                m02: m.m03,
                m10: m.m20,
                m11: m.m22,
                m12: m.m23,
                m20: m.m30,
                m21: m.m32,
                m22: m.m33,
            }
        } else if c == 2 {
            Matrix3 {
                m00: m.m00,
                m01: m.m01,
                m02: m.m03,
                m10: m.m20,
                m11: m.m21,
                m12: m.m23,
                m20: m.m30,
                m21: m.m31,
                m22: m.m33,
            }
        } else {
            Matrix3 {
                m00: m.m00,
                m01: m.m01,
                m02: m.m02,
                m10: m.m20,
                m11: m.m21,
                m12: m.m22,
                m20: m.m30,
                m21: m.m31,
                m22: m.m32,
            }
        }
    } else if r == 2 {
        if c == 0 {
            Matrix3 {
                m00: m.m01,
                m01: m.m02,
                m02: m.m03,
                m10: m.m11,
                m11: m.m12,
                m12: m.m13,
                m20: m.m31,
                m21: m.m32,
                m22: m.m33,
            }
        } else if c == 1 {
            Matrix3 {
                m00: m.m00,
                m01: m.m02,
                m02: m.m03,
                m10: m.m10,
                m11: m.m12,
                m12: m.m13,
                m20: m.m30,
                m21: m.m32,
                m22: m.m33,
            }
        } else if c == 2 {
            Matrix3 {
                m00: m.m00,
                m01: m.m01,
                m02: m.m03,
                m10: m.m10,
                m11: m.m11,
                m12: m.m13,
                m20: m.m30,
                m21: m.m31,
                m22: m.m33,
            }
        } else {
            Matrix3 {
                m00: m.m00,
                m01: m.m01,
                m02: m.m02,
                m10: m.m10,
                m11: m.m11,
                m12: m.m12,
                m20: m.m30,
                m21: m.m31,
                m22: m.m32,
            }
        }
    } else {
        if c == 0 {
            Matrix3 {
                m00: m.m01,
                m01: m.m02,
                m02: m.m03,
                m10: m.m11,
                m11: m.m12,
                m12: m.m13,
                m20: m.m21,
                m21: m.m22,
                m22: m.m23,
            }
        } else if c == 1 {
            Matrix3 {
                m00: m.m00,
                m01: m.m02,
                m02: m.m03,
                m10: m.m10,
                m11: m.m12,
                m12: m.m13,
                m20: m.m20,
                m21: m.m22,
                m22: m.m23,
            }
        } else if c == 2 {
            Matrix3 {
                m00: m.m00,
                m01: m.m01,
                m02: m.m03,
                m10: m.m10,
                m11: m.m11,
                m12: m.m13,
                m20: m.m20,
                m21: m.m21,
                m22: m.m23,
            }
        } else {
            Matrix3 {
                m00: m.m00,
                m01: m.m01,
                m02: m.m02,
                m10: m.m10,
                m11: m.m11,
                m12: m.m12,
                m20: m.m20,
                m21: m.m21,
                m22: m.m22,
            }
        }
    }
}

/// `m` with row `r` and column `c` removed.
pub open spec fn spec_submatrix3(m: Matrix3, r: int, c: int) -> Matrix2 {
    if r == 0 {
        if c == 0 {
            Matrix2 {
                m00: m.m11,
                m01: m.m12,
                m10: m.m21,
                m11: m.m22,
            }
        } else if c == 1 {
            Matrix2 {
                m00: m.m10,
                m01: m.m12,
                m10: m.m20,
                m11: m.m22,
            }
        } else {
            Matrix2 {
                m00: m.m10,
                m01: m.m11,
                m10: m.m20,
                m11: m.m21,
            }
        }
    } else if r == 1 {
        if c == 0 {
            Matrix2 {
                m00: m.m01,
                m01: m.m02,
                m10: m.m21,
                m11: m.m22,
            }
        } else if c == 1 {
            Matrix2 {
                m00: m.m00,
                m01: m.m02,
                m10: m.m20,
                m11: m.m22,
            }
        } else {
            Matrix2 {
                m00: m.m00,
                m01: m.m01,
                m10: m.m20,
                m11: m.m21,
            }
        }
    } else {
        if c == 0 {
            Matrix2 {
                m00: m.m01,
                m01: m.m02,
                m10: m.m11,
                m11: m.m12,
            }
        } else if c == 1 {
            Matrix2 {
                m00: m.m00,
                m01: m.m02,
                m10: m.m10,
                m11: m.m12,
            }
        } else {
            Matrix2 {
                m00: m.m00,
                m01: m.m01,
                m10: m.m10,
                m11: m.m11,
            }
        }
    }
}

/// Determinant of a 2x2 matrix: `ad - bc`.
pub open spec fn spec_det2(m: Matrix2) -> int {
    fsub(fmul(m.m00.raw as int, m.m11.raw as int), fmul(m.m01.raw as int, m.m10.raw as int))
}

/// Minor of a 3x3 matrix: the determinant of the submatrix.
pub open spec fn spec_minor3(m: Matrix3, r: int, c: int) -> int {
    spec_det2(spec_submatrix3(m, r, c))
}

/// Cofactor of a 3x3 matrix: the minor with sign `(-1)^(r+c)`.
pub open spec fn spec_cofactor3(m: Matrix3, r: int, c: int) -> int {
    if (r + c) % 2 == 0 {
        spec_minor3(m, r, c)
    } else {
        fneg(spec_minor3(m, r, c))
    }
}

/// Determinant of a 3x3 matrix by first-row cofactor expansion.
pub open spec fn spec_det3(m: Matrix3) -> int {
    fadd(
        fadd(
            fmul(m.m00.raw as int, spec_cofactor3(m, 0, 0)),
            fmul(m.m01.raw as int, spec_cofactor3(m, 0, 1)),
        ),
        fmul(m.m02.raw as int, spec_cofactor3(m, 0, 2)),
    )
}

/// Minor of a 4x4 matrix: the determinant of the submatrix.
pub open spec fn spec_minor4(m: Matrix4, r: int, c: int) -> int {
    spec_det3(spec_submatrix4(m, r, c))
}

/// Cofactor of a 4x4 matrix: the minor with sign `(-1)^(r+c)`.
pub open spec fn spec_cofactor4(m: Matrix4, r: int, c: int) -> int {
    if (r + c) % 2 == 0 {
        spec_minor4(m, r, c)
    } else {
        fneg(spec_minor4(m, r, c))
    }
}

/// Determinant of a 4x4 matrix by first-row cofactor expansion.
pub open spec fn spec_det4(m: Matrix4) -> int {
    fadd(
        fadd(
            fadd(
                fmul(m.m00.raw as int, spec_cofactor4(m, 0, 0)),
                fmul(m.m01.raw as int, spec_cofactor4(m, 0, 1)),
            ),
            fmul(m.m02.raw as int, spec_cofactor4(m, 0, 2)),
        ),
        fmul(m.m03.raw as int, spec_cofactor4(m, 0, 3)),
    )
}

/// Whether the determinant is non-zero, so the inverse is defined.
pub open spec fn spec_invertible(m: Matrix4) -> bool {
    spec_det4(m) != 0
}

/// The inverse: entry `(c, r)` is `cofactor(r, c) / determinant`.
pub open spec fn spec_inverse4(m: Matrix4) -> Matrix4 {
    Matrix4 {
        m00: Fx { raw: crate::fx::fdiv(spec_cofactor4(m, 0, 0), spec_det4(m)) as i64 },
        m01: Fx { raw: crate::fx::fdiv(spec_cofactor4(m, 1, 0), spec_det4(m)) as i64 },
        m02: Fx { raw: crate::fx::fdiv(spec_cofactor4(m, 2, 0), spec_det4(m)) as i64 },
        m03: Fx { raw: crate::fx::fdiv(spec_cofactor4(m, 3, 0), spec_det4(m)) as i64 },
        m10: Fx { raw: crate::fx::fdiv(spec_cofactor4(m, 0, 1), spec_det4(m)) as i64 },
        m11: Fx { raw: crate::fx::fdiv(spec_cofactor4(m, 1, 1), spec_det4(m)) as i64 },
        m12: Fx { raw: crate::fx::fdiv(spec_cofactor4(m, 2, 1), spec_det4(m)) as i64 },
        m13: Fx { raw: crate::fx::fdiv(spec_cofactor4(m, 3, 1), spec_det4(m)) as i64 },
        m20: Fx { raw: crate::fx::fdiv(spec_cofactor4(m, 0, 2), spec_det4(m)) as i64 },
        m21: Fx { raw: crate::fx::fdiv(spec_cofactor4(m, 1, 2), spec_det4(m)) as i64 },
        m22: Fx { raw: crate::fx::fdiv(spec_cofactor4(m, 2, 2), spec_det4(m)) as i64 },
        m23: Fx { raw: crate::fx::fdiv(spec_cofactor4(m, 3, 2), spec_det4(m)) as i64 },
        m30: Fx { raw: crate::fx::fdiv(spec_cofactor4(m, 0, 3), spec_det4(m)) as i64 },
        m31: Fx { raw: crate::fx::fdiv(spec_cofactor4(m, 1, 3), spec_det4(m)) as i64 },
        m32: Fx { raw: crate::fx::fdiv(spec_cofactor4(m, 2, 3), spec_det4(m)) as i64 },
        m33: Fx { raw: crate::fx::fdiv(spec_cofactor4(m, 3, 3), spec_det4(m)) as i64 },
    }
}

/// Identity with a translation column.
pub open spec fn spec_translation(x: Fx, y: Fx, z: Fx) -> Matrix4 {
    Matrix4 { m03: x, m13: y, m23: z, ..spec_identity4() }
}

/// Identity with a scaled diagonal.
pub open spec fn spec_scaling(x: Fx, y: Fx, z: Fx) -> Matrix4 {
    Matrix4 { m00: x, m11: y, m22: z, ..spec_identity4() }
}

/// Rotation about the x axis by `r` radians (raw).
pub open spec fn spec_rotation_x(r: int) -> Matrix4 {
    Matrix4 {
        m11: Fx { raw: fcos(r) as i64 },
        m12: Fx { raw: fneg(fsin(r)) as i64 },
        m21: Fx { raw: fsin(r) as i64 },
        m22: Fx { raw: fcos(r) as i64 },
        ..spec_identity4()
    }
}

/// Rotation about the y axis by `r` radians (raw).
pub open spec fn spec_rotation_y(r: int) -> Matrix4 {
    Matrix4 {
        m00: Fx { raw: fcos(r) as i64 },
        m02: Fx { raw: fsin(r) as i64 },
        m20: Fx { raw: fneg(fsin(r)) as i64 },
        m22: Fx { raw: fcos(r) as i64 },
        ..spec_identity4()
    }
}

/// Rotation about the z axis by `r` radians (raw).
pub open spec fn spec_rotation_z(r: int) -> Matrix4 {
    Matrix4 {
        m00: Fx { raw: fcos(r) as i64 },
        m01: Fx { raw: fneg(fsin(r)) as i64 },
        m10: Fx { raw: fsin(r) as i64 },
        m11: Fx { raw: fcos(r) as i64 },
        ..spec_identity4()
    }
}

/// Shearing: each coordinate moved in proportion to the other two.
pub open spec fn spec_shearing(xy: Fx, xz: Fx, yx: Fx, yz: Fx, zx: Fx, zy: Fx) -> Matrix4 {
    Matrix4 { m01: xy, m02: xz, m10: yx, m12: yz, m20: zx, m21: zy, ..spec_identity4() }
}

/// The view transform: orient the axes toward `to` with `up` overhead,
/// then translate the eye at `from` to the origin.
pub open spec fn spec_view_transform(from: Tuple, to: Tuple, up: Tuple) -> Matrix4 {
    let forward = spec_normalize(spec_sub(to, from));
    let left = spec_cross(forward, spec_normalize(up));
    let true_up = spec_cross(left, forward);
    let orientation = Matrix4 {
        m00: left.x,
        m01: left.y,
        m02: left.z,
        m10: true_up.x,
        m11: true_up.y,
        m12: true_up.z,
        m20: Fx { raw: crate::fx::fneg(forward.x.raw as int) as i64 },
        m21: Fx { raw: crate::fx::fneg(forward.y.raw as int) as i64 },
        m22: Fx { raw: crate::fx::fneg(forward.z.raw as int) as i64 },
        ..spec_identity4()
    };
    let nf = spec_neg(from);
    spec_matmul4(orientation, spec_translation(nf.x, nf.y, nf.z))
}

impl Matrix2 {
    /// A matrix from a row-major grid.
    pub fn new(data: [[Fx; 2]; 2]) -> (r: Matrix2)
        ensures
            r.m00 == data@[0]@[0],
            r.m01 == data@[0]@[1],
            r.m10 == data@[1]@[0],
            r.m11 == data@[1]@[1],
    {
        Matrix2 {
            m00: data[0][0],
            m01: data[0][1],
            m10: data[1][0],
            m11: data[1][1],
        }
    }

    /// The entry at row `r`, column `c`.
    pub fn get(&self, r: usize, c: usize) -> (v: Fx)
        requires
            r < 2,
            c < 2,
        ensures
            r == 0 && c == 0 ==> v == self.m00,
            r == 0 && c == 1 ==> v == self.m01,
            r == 1 && c == 0 ==> v == self.m10,
            r == 1 && c == 1 ==> v == self.m11,
    {
        if r == 0 && c == 0 {
            self.m00
        } else if r == 0 && c == 1 {
            self.m01
        } else if r == 1 && c == 0 {
            self.m10
        } else {
            self.m11
        }
    }

    /// Replace the entry at row `r`, column `c`.
    pub fn set(&mut self, r: usize, c: usize, v: Fx)
        requires
            r < 2,
            c < 2,
        ensures
            r == 0 && c == 0 ==> *final(self) == (Matrix2 { m00: v, ..*old(self) }),
            r == 0 && c == 1 ==> *final(self) == (Matrix2 { m01: v, ..*old(self) }),
            r == 1 && c == 0 ==> *final(self) == (Matrix2 { m10: v, ..*old(self) }),
            r == 1 && c == 1 ==> *final(self) == (Matrix2 { m11: v, ..*old(self) }),
    {
        if r == 0 && c == 0 {
            self.m00 = v;
        } else if r == 0 && c == 1 {
            self.m01 = v;
        } else if r == 1 && c == 0 {
            self.m10 = v;
        } else {
            self.m11 = v;
        }
    }

    /// The transpose.
    pub fn transpose(&self) -> (r: Matrix2)
        ensures
            r == spec_transpose2(*self),
    {
        Matrix2 {
            m00: self.m00,
            m01: self.m10,
            m10: self.m01,
            m11: self.m11,
        }
    }

    /// Matrix product `self * rhs`.
    pub fn mul(&self, rhs: &Matrix2) -> (r: Matrix2)
        ensures
            r == spec_matmul2(*self, *rhs),
    {
        Matrix2 {
            m00: self.m00.mul(rhs.m00).add(self.m01.mul(rhs.m10)),
            m01: self.m00.mul(rhs.m01).add(self.m01.mul(rhs.m11)),
            m10: self.m10.mul(rhs.m00).add(self.m11.mul(rhs.m10)),
            m11: self.m10.mul(rhs.m01).add(self.m11.mul(rhs.m11)),
        }
    }

    /// The identity matrix.
    pub fn identity() -> (r: Matrix2)
        ensures
            r == spec_identity2(),
    {
        Matrix2 {
            m00: Fx { raw: SCALE },
            m01: Fx { raw: 0 },
            m10: Fx { raw: 0 },
            m11: Fx { raw: SCALE },
        }
    }

    /// Determinant: `ad - bc`.
    pub fn determinant(&self) -> (r: Fx)
        ensures
            r.raw as int == spec_det2(*self),
    {
        self.m00.mul(self.m11).sub(self.m01.mul(self.m10))
    }
}

impl Matrix3 {
    /// A matrix from a row-major grid.
    pub fn new(data: [[Fx; 3]; 3]) -> (r: Matrix3)
        ensures
            r.m00 == data@[0]@[0],
            r.m01 == data@[0]@[1],
            r.m02 == data@[0]@[2],
            r.m10 == data@[1]@[0],
            r.m11 == data@[1]@[1],
            r.m12 == data@[1]@[2],
            r.m20 == data@[2]@[0],
            r.m21 == data@[2]@[1],
            r.m22 == data@[2]@[2],
    {
        Matrix3 {
            m00: data[0][0],
            m01: data[0][1],
            m02: data[0][2],
            m10: data[1][0],
            m11: data[1][1],
            m12: data[1][2],
            m20: data[2][0],
            m21: data[2][1],
            m22: data[2][2],
        }
    }

    /// The entry at row `r`, column `c`.
    pub fn get(&self, r: usize, c: usize) -> (v: Fx)
        requires
            r < 3,
            c < 3,
        ensures
            r == 0 && c == 0 ==> v == self.m00,
            r == 0 && c == 1 ==> v == self.m01,
            r == 0 && c == 2 ==> v == self.m02,
            r == 1 && c == 0 ==> v == self.m10,
            r == 1 && c == 1 ==> v == self.m11,
            r == 1 && c == 2 ==> v == self.m12,
            r == 2 && c == 0 ==> v == self.m20,
            r == 2 && c == 1 ==> v == self.m21,
            r == 2 && c == 2 ==> v == self.m22,
    {
        if r == 0 && c == 0 {
            self.m00
        } else if r == 0 && c == 1 {
            self.m01
        } else if r == 0 && c == 2 {
            self.m02
        } else if r == 1 && c == 0 {
            self.m10
        } else if r == 1 && c == 1 {
            self.m11
        } else if r == 1 && c == 2 {
            self.m12
        } else if r == 2 && c == 0 {
            self.m20
        } else if r == 2 && c == 1 {
            self.m21
        } else {
            self.m22
        }
    }

    /// Replace the entry at row `r`, column `c`.
    pub fn set(&mut self, r: usize, c: usize, v: Fx)
        requires
            r < 3,
            c < 3,
        ensures
            r == 0 && c == 0 ==> *final(self) == (Matrix3 { m00: v, ..*old(self) }),
            r == 0 && c == 1 ==> *final(self) == (Matrix3 { m01: v, ..*old(self) }),
            r == 0 && c == 2 ==> *final(self) == (Matrix3 { m02: v, ..*old(self) }),
            r == 1 && c == 0 ==> *final(self) == (Matrix3 { m10: v, ..*old(self) }),
            r == 1 && c == 1 ==> *final(self) == (Matrix3 { m11: v, ..*old(self) }),
            r == 1 && c == 2 ==> *final(self) == (Matrix3 { m12: v, ..*old(self) }),
            r == 2 && c == 0 ==> *final(self) == (Matrix3 { m20: v, ..*old(self) }),
            r == 2 && c == 1 ==> *final(self) == (Matrix3 { m21: v, ..*old(self) }),
            r == 2 && c == 2 ==> *final(self) == (Matrix3 { m22: v, ..*old(self) }),
    {
        if r == 0 && c == 0 {
            self.m00 = v;
        } else if r == 0 && c == 1 {
            self.m01 = v;
        } else if r == 0 && c == 2 {
            self.m02 = v;
        } else if r == 1 && c == 0 {
            self.m10 = v;
        } else if r == 1 && c == 1 {
            self.m11 = v;
        } else if r == 1 && c == 2 {
            self.m12 = v;
        } else if r == 2 && c == 0 {
            self.m20 = v;
        } else if r == 2 && c == 1 {
            self.m21 = v;
        } else {
            self.m22 = v;
        }
    }

    /// The transpose.
    pub fn transpose(&self) -> (r: Matrix3)
        ensures
            r == spec_transpose3(*self),
    {
        Matrix3 {
            m00: self.m00,
            m01: self.m10,
            m02: self.m20,
            m10: self.m01,
            m11: self.m11,
            m12: self.m21,
            m20: self.m02,
            m21: self.m12,
            m22: self.m22,
        }
    }

    /// Matrix product `self * rhs`.
    pub fn mul(&self, rhs: &Matrix3) -> (r: Matrix3)
        ensures
            r == spec_matmul3(*self, *rhs),
    {
        Matrix3 {
            m00: self.m00.mul(rhs.m00).add(self.m01.mul(rhs.m10)).add(self.m02.mul(rhs.m20)),
            m01: self.m00.mul(rhs.m01).add(self.m01.mul(rhs.m11)).add(self.m02.mul(rhs.m21)),
            m02: self.m00.mul(rhs.m02).add(self.m01.mul(rhs.m12)).add(self.m02.mul(rhs.m22)),
            m10: self.m10.mul(rhs.m00).add(self.m11.mul(rhs.m10)).add(self.m12.mul(rhs.m20)),
            m11: self.m10.mul(rhs.m01).add(self.m11.mul(rhs.m11)).add(self.m12.mul(rhs.m21)),
            m12: self.m10.mul(rhs.m02).add(self.m11.mul(rhs.m12)).add(self.m12.mul(rhs.m22)),
            m20: self.m20.mul(rhs.m00).add(self.m21.mul(rhs.m10)).add(self.m22.mul(rhs.m20)),
            m21: self.m20.mul(rhs.m01).add(self.m21.mul(rhs.m11)).add(self.m22.mul(rhs.m21)),
            m22: self.m20.mul(rhs.m02).add(self.m21.mul(rhs.m12)).add(self.m22.mul(rhs.m22)),
        }
    }

    /// The identity matrix.
    pub fn identity() -> (r: Matrix3)
        ensures
            r == spec_identity3(),
    {
        Matrix3 {
            m00: Fx { raw: SCALE },
            m01: Fx { raw: 0 },
            m02: Fx { raw: 0 },
            m10: Fx { raw: 0 },
            m11: Fx { raw: SCALE },
            m12: Fx { raw: 0 },
            m20: Fx { raw: 0 },
            m21: Fx { raw: 0 },
            m22: Fx { raw: SCALE },
        }
    }

    /// The matrix with row `r` and column `c` removed.
    pub fn submatrix(&self, r: usize, c: usize) -> (s: Matrix2)
        requires
            r < 3,
            c < 3,
        ensures
            s == spec_submatrix3(*self, r as int, c as int),
    {
        if r == 0 && c == 0 {
            Matrix2 { m00: self.m11, m01: self.m12, m10: self.m21, m11: self.m22 }
        } else if r == 0 && c == 1 {
            Matrix2 { m00: self.m10, m01: self.m12, m10: self.m20, m11: self.m22 }
        } else if r == 0 && c == 2 {
            Matrix2 { m00: self.m10, m01: self.m11, m10: self.m20, m11: self.m21 }
        } else if r == 1 && c == 0 {
            Matrix2 { m00: self.m01, m01: self.m02, m10: self.m21, m11: self.m22 }
        } else if r == 1 && c == 1 {
            Matrix2 { m00: self.m00, m01: self.m02, m10: self.m20, m11: self.m22 }
        } else if r == 1 && c == 2 {
            Matrix2 { m00: self.m00, m01: self.m01, m10: self.m20, m11: self.m21 }
        } else if r == 2 && c == 0 {
            Matrix2 { m00: self.m01, m01: self.m02, m10: self.m11, m11: self.m12 }
        } else if r == 2 && c == 1 {
            Matrix2 { m00: self.m00, m01: self.m02, m10: self.m10, m11: self.m12 }
        } else {
            Matrix2 { m00: self.m00, m01: self.m01, m10: self.m10, m11: self.m11 }
        }
    }

    /// Minor: the determinant of the submatrix at `(r, c)`.
    pub fn minor(&self, r: usize, c: usize) -> (v: Fx)
        requires
            r < 3,
            c < 3,
        ensures
            v.raw as int == spec_minor3(*self, r as int, c as int),
    {
        self.submatrix(r, c).determinant()
    }

    /// Cofactor: the minor with sign `(-1)^(r+c)`.
    pub fn cofactor(&self, r: usize, c: usize) -> (v: Fx)
        requires
            r < 3,
            c < 3,
        ensures
            v.raw as int == spec_cofactor3(*self, r as int, c as int),
    {
        let m = self.minor(r, c);
        if (r + c) % 2 == 0 {
            m
        } else {
            m.neg()
        }
    }

    /// Determinant by first-row cofactor expansion.
    pub fn determinant(&self) -> (v: Fx)
        ensures
            v.raw as int == spec_det3(*self),
    {
        self.m00.mul(self.cofactor(0, 0)).add(self.m01.mul(self.cofactor(0, 1))).add(self.m02.mul(self.cofactor(0, 2)))
    }

}

impl Matrix4 {
    /// A matrix from a row-major grid.
    pub fn new(data: [[Fx; 4]; 4]) -> (r: Matrix4)
        ensures
            r.m00 == data@[0]@[0],
            r.m01 == data@[0]@[1],
            r.m02 == data@[0]@[2],
            r.m03 == data@[0]@[3],
            r.m10 == data@[1]@[0],
            r.m11 == data@[1]@[1],
            r.m12 == data@[1]@[2],
            r.m13 == data@[1]@[3],
            r.m20 == data@[2]@[0],
            r.m21 == data@[2]@[1],
            r.m22 == data@[2]@[2],
            r.m23 == data@[2]@[3],
            r.m30 == data@[3]@[0],
            r.m31 == data@[3]@[1],
            r.m32 == data@[3]@[2],
            r.m33 == data@[3]@[3],
    {
        Matrix4 {
            m00: data[0][0],
            m01: data[0][1],
            m02: data[0][2],
            m03: data[0][3],
            m10: data[1][0],
            m11: data[1][1],
            m12: data[1][2],
            m13: data[1][3],
            m20: data[2][0],
            m21: data[2][1],
            m22: data[2][2],
            m23: data[2][3],
            m30: data[3][0],
            m31: data[3][1],
            m32: data[3][2],
            m33: data[3][3],
        }
    }

    /// The entry at row `r`, column `c`.
    pub fn get(&self, r: usize, c: usize) -> (v: Fx)
        requires
            r < 4,
            c < 4,
        ensures
            r == 0 && c == 0 ==> v == self.m00,
            r == 0 && c == 1 ==> v == self.m01,
            r == 0 && c == 2 ==> v == self.m02,
            r == 0 && c == 3 ==> v == self.m03,
            r == 1 && c == 0 ==> v == self.m10,
            r == 1 && c == 1 ==> v == self.m11,
            r == 1 && c == 2 ==> v == self.m12,
            r == 1 && c == 3 ==> v == self.m13,
            r == 2 && c == 0 ==> v == self.m20,
            r == 2 && c == 1 ==> v == self.m21,
            r == 2 && c == 2 ==> v == self.m22,
            r == 2 && c == 3 ==> v == self.m23,
            r == 3 && c == 0 ==> v == self.m30,
            r == 3 && c == 1 ==> v == self.m31,
            r == 3 && c == 2 ==> v == self.m32,
            r == 3 && c == 3 ==> v == self.m33,
    {
        if r == 0 && c == 0 {
            self.m00
        } else if r == 0 && c == 1 {
            self.m01
        } else if r == 0 && c == 2 {
            self.m02
        } else if r == 0 && c == 3 {
            self.m03
        } else if r == 1 && c == 0 {
            self.m10
        } else if r == 1 && c == 1 {
            self.m11
        } else if r == 1 && c == 2 {
            self.m12
        } else if r == 1 && c == 3 {
            self.m13
        } else if r == 2 && c == 0 {
            self.m20
        } else if r == 2 && c == 1 {
            self.m21
        } else if r == 2 && c == 2 {
            self.m22
        } else if r == 2 && c == 3 {
            self.m23
        } else if r == 3 && c == 0 {
            self.m30
        } else if r == 3 && c == 1 {
            self.m31
        } else if r == 3 && c == 2 {
            self.m32
        } else {
            self.m33
        }
    }

    /// Replace the entry at row `r`, column `c`.
    pub fn set(&mut self, r: usize, c: usize, v: Fx)
        requires
            r < 4,
            c < 4,
        ensures
            r == 0 && c == 0 ==> *final(self) == (Matrix4 { m00: v, ..*old(self) }),
            r == 0 && c == 1 ==> *final(self) == (Matrix4 { m01: v, ..*old(self) }),
            r == 0 && c == 2 ==> *final(self) == (Matrix4 { m02: v, ..*old(self) }),
            r == 0 && c == 3 ==> *final(self) == (Matrix4 { m03: v, ..*old(self) }),
            r == 1 && c == 0 ==> *final(self) == (Matrix4 { m10: v, ..*old(self) }),
            r == 1 && c == 1 ==> *final(self) == (Matrix4 { m11: v, ..*old(self) }),
            r == 1 && c == 2 ==> *final(self) == (Matrix4 { m12: v, ..*old(self) }),
            r == 1 && c == 3 ==> *final(self) == (Matrix4 { m13: v, ..*old(self) }),
            r == 2 && c == 0 ==> *final(self) == (Matrix4 { m20: v, ..*old(self) }),
            r == 2 && c == 1 ==> *final(self) == (Matrix4 { m21: v, ..*old(self) }),
            r == 2 && c == 2 ==> *final(self) == (Matrix4 { m22: v, ..*old(self) }),
            r == 2 && c == 3 ==> *final(self) == (Matrix4 { m23: v, ..*old(self) }),
            r == 3 && c == 0 ==> *final(self) == (Matrix4 { m30: v, ..*old(self) }),
            r == 3 && c == 1 ==> *final(self) == (Matrix4 { m31: v, ..*old(self) }),
            r == 3 && c == 2 ==> *final(self) == (Matrix4 { m32: v, ..*old(self) }),
            r == 3 && c == 3 ==> *final(self) == (Matrix4 { m33: v, ..*old(self) }),
    {
        if r == 0 && c == 0 {
            self.m00 = v;
        } else if r == 0 && c == 1 {
            self.m01 = v;
        } else if r == 0 && c == 2 {
            self.m02 = v;
        } else if r == 0 && c == 3 {
            self.m03 = v;
        } else if r == 1 && c == 0 {
            self.m10 = v;
        } else if r == 1 && c == 1 {
            self.m11 = v;
        } else if r == 1 && c == 2 {
            self.m12 = v;
        } else if r == 1 && c == 3 {
            self.m13 = v;
        } else if r == 2 && c == 0 {
            self.m20 = v;
        } else if r == 2 && c == 1 {
            self.m21 = v;
        } else if r == 2 && c == 2 {
            self.m22 = v;
        } else if r == 2 && c == 3 {
            self.m23 = v;
        } else if r == 3 && c == 0 {
            self.m30 = v;
        } else if r == 3 && c == 1 {
            self.m31 = v;
        } else if r == 3 && c == 2 {
            self.m32 = v;
        } else {
            self.m33 = v;
        }
    }

    /// The transpose.
    pub fn transpose(&self) -> (r: Matrix4)
        ensures
            r == spec_transpose4(*self),
    {
        Matrix4 {
            m00: self.m00,
            m01: self.m10,
            m02: self.m20,
            m03: self.m30,
            m10: self.m01,
            m11: self.m11,
            m12: self.m21,
            m13: self.m31,
            m20: self.m02,
            m21: self.m12,
            m22: self.m22,
            m23: self.m32,
            m30: self.m03,
            m31: self.m13,
            m32: self.m23,
            m33: self.m33,
        }
    }

    /// Matrix product `self * rhs`.
    pub fn mul(&self, rhs: &Matrix4) -> (r: Matrix4)
        ensures
            r == spec_matmul4(*self, *rhs),
    {
        Matrix4 {
            m00: self.m00.mul(rhs.m00).add(self.m01.mul(rhs.m10)).add(self.m02.mul(rhs.m20)).add(self.m03.mul(rhs.m30)),
            m01: self.m00.mul(rhs.m01).add(self.m01.mul(rhs.m11)).add(self.m02.mul(rhs.m21)).add(self.m03.mul(rhs.m31)),
            m02: self.m00.mul(rhs.m02).add(self.m01.mul(rhs.m12)).add(self.m02.mul(rhs.m22)).add(self.m03.mul(rhs.m32)),
            m03: self.m00.mul(rhs.m03).add(self.m01.mul(rhs.m13)).add(self.m02.mul(rhs.m23)).add(self.m03.mul(rhs.m33)),
            m10: self.m10.mul(rhs.m00).add(self.m11.mul(rhs.m10)).add(self.m12.mul(rhs.m20)).add(self.m13.mul(rhs.m30)),
            m11: self.m10.mul(rhs.m01).add(self.m11.mul(rhs.m11)).add(self.m12.mul(rhs.m21)).add(self.m13.mul(rhs.m31)),
            m12: self.m10.mul(rhs.m02).add(self.m11.mul(rhs.m12)).add(self.m12.mul(rhs.m22)).add(self.m13.mul(rhs.m32)),
            m13: self.m10.mul(rhs.m03).add(self.m11.mul(rhs.m13)).add(self.m12.mul(rhs.m23)).add(self.m13.mul(rhs.m33)),
            m20: self.m20.mul(rhs.m00).add(self.m21.mul(rhs.m10)).add(self.m22.mul(rhs.m20)).add(self.m23.mul(rhs.m30)),
            m21: self.m20.mul(rhs.m01).add(self.m21.mul(rhs.m11)).add(self.m22.mul(rhs.m21)).add(self.m23.mul(rhs.m31)),
            m22: self.m20.mul(rhs.m02).add(self.m21.mul(rhs.m12)).add(self.m22.mul(rhs.m22)).add(self.m23.mul(rhs.m32)),
            m23: self.m20.mul(rhs.m03).add(self.m21.mul(rhs.m13)).add(self.m22.mul(rhs.m23)).add(self.m23.mul(rhs.m33)),
            m30: self.m30.mul(rhs.m00).add(self.m31.mul(rhs.m10)).add(self.m32.mul(rhs.m20)).add(self.m33.mul(rhs.m30)),
            m31: self.m30.mul(rhs.m01).add(self.m31.mul(rhs.m11)).add(self.m32.mul(rhs.m21)).add(self.m33.mul(rhs.m31)),
            m32: self.m30.mul(rhs.m02).add(self.m31.mul(rhs.m12)).add(self.m32.mul(rhs.m22)).add(self.m33.mul(rhs.m32)),
            m33: self.m30.mul(rhs.m03).add(self.m31.mul(rhs.m13)).add(self.m32.mul(rhs.m23)).add(self.m33.mul(rhs.m33)),
        }
    }

    /// The identity matrix.
    pub fn identity() -> (r: Matrix4)
        ensures
            r == spec_identity4(),
    {
        Matrix4 {
            m00: Fx { raw: SCALE },
            m01: Fx { raw: 0 },
            m02: Fx { raw: 0 },
            m03: Fx { raw: 0 },
            m10: Fx { raw: 0 },
            m11: Fx { raw: SCALE },
            m12: Fx { raw: 0 },
            m13: Fx { raw: 0 },
            m20: Fx { raw: 0 },
            m21: Fx { raw: 0 },
            m22: Fx { raw: SCALE },
            m23: Fx { raw: 0 },
            m30: Fx { raw: 0 },
            m31: Fx { raw: 0 },
            m32: Fx { raw: 0 },
            m33: Fx { raw: SCALE },
        }
    }

    /// The matrix with row `r` and column `c` removed.
    pub fn submatrix(&self, r: usize, c: usize) -> (s: Matrix3)
        requires
            r < 4,
            c < 4,
        ensures
            s == spec_submatrix4(*self, r as int, c as int),
    {
        if r == 0 && c == 0 {
            Matrix3 { m00: self.m11, m01: self.m12, m02: self.m13, m10: self.m21, m11: self.m22, m12: self.m23, m20: self.m31, m21: self.m32, m22: self.m33 }
        } else if r == 0 && c == 1 {
            Matrix3 { m00: self.m10, m01: self.m12, m02: self.m13, m10: self.m20, m11: self.m22, m12: self.m23, m20: self.m30, m21: self.m32, m22: self.m33 }
        } else if r == 0 && c == 2 {
            Matrix3 { m00: self.m10, m01: self.m11, m02: self.m13, m10: self.m20, m11: self.m21, m12: self.m23, m20: self.m30, m21: self.m31, m22: self.m33 }
        } else if r == 0 && c == 3 {
            Matrix3 { m00: self.m10, m01: self.m11, m02: self.m12, m10: self.m20, m11: self.m21, m12: self.m22, m20: self.m30, m21: self.m31, m22: self.m32 }
        } else if r == 1 && c == 0 {
            Matrix3 { m00: self.m01, m01: self.m02, m02: self.m03, m10: self.m21, m11: self.m22, m12: self.m23, m20: self.m31, m21: self.m32, m22: self.m33 }
        } else if r == 1 && c == 1 {
            Matrix3 { m00: self.m00, m01: self.m02, m02: self.m03, m10: self.m20, m11: self.m22, m12: self.m23, m20: self.m30, m21: self.m32, m22: self.m33 }
        } else if r == 1 && c == 2 {
            Matrix3 { m00: self.m00, m01: self.m01, m02: self.m03, m10: self.m20, m11: self.m21, m12: self.m23, m20: self.m30, m21: self.m31, m22: self.m33 }
        } else if r == 1 && c == 3 {
            Matrix3 { m00: self.m00, m01: self.m01, m02: self.m02, m10: self.m20, m11: self.m21, m12: self.m22, m20: self.m30, m21: self.m31, m22: self.m32 }
        } else if r == 2 && c == 0 {
            Matrix3 { m00: self.m01, m01: self.m02, m02: self.m03, m10: self.m11, m11: self.m12, m12: self.m13, m20: self.m31, m21: self.m32, m22: self.m33 }
        } else if r == 2 && c == 1 {
            Matrix3 { m00: self.m00, m01: self.m02, m02: self.m03, m10: self.m10, m11: self.m12, m12: self.m13, m20: self.m30, m21: self.m32, m22: self.m33 }
        } else if r == 2 && c == 2 {
            Matrix3 { m00: self.m00, m01: self.m01, m02: self.m03, m10: self.m10, m11: self.m11, m12: self.m13, m20: self.m30, m21: self.m31, m22: self.m33 }
        } else if r == 2 && c == 3 {
            Matrix3 { m00: self.m00, m01: self.m01, m02: self.m02, m10: self.m10, m11: self.m11, m12: self.m12, m20: self.m30, m21: self.m31, m22: self.m32 }
        } else if r == 3 && c == 0 {
            Matrix3 { m00: self.m01, m01: self.m02, m02: self.m03, m10: self.m11, m11: self.m12, m12: self.m13, m20: self.m21, m21: self.m22, m22: self.m23 }
        } else if r == 3 && c == 1 {
            Matrix3 { m00: self.m00, m01: self.m02, m02: self.m03, m10: self.m10, m11: self.m12, m12: self.m13, m20: self.m20, m21: self.m22, m22: self.m23 }
        } else if r == 3 && c == 2 {
            Matrix3 { m00: self.m00, m01: self.m01, m02: self.m03, m10: self.m10, m11: self.m11, m12: self.m13, m20: self.m20, m21: self.m21, m22: self.m23 }
        } else {
            Matrix3 { m00: self.m00, m01: self.m01, m02: self.m02, m10: self.m10, m11: self.m11, m12: self.m12, m20: self.m20, m21: self.m21, m22: self.m22 }
        }
    }

    /// Minor: the determinant of the submatrix at `(r, c)`.
    pub fn minor(&self, r: usize, c: usize) -> (v: Fx)
        requires
            r < 4,
            c < 4,
        ensures
            v.raw as int == spec_minor4(*self, r as int, c as int),
    {
        self.submatrix(r, c).determinant()
    }

    /// Cofactor: the minor with sign `(-1)^(r+c)`.
    pub fn cofactor(&self, r: usize, c: usize) -> (v: Fx)
        requires
            r < 4,
            c < 4,
        ensures
            v.raw as int == spec_cofactor4(*self, r as int, c as int),
    {
        let m = self.minor(r, c);
        if (r + c) % 2 == 0 {
            m
        } else {
            m.neg()
        }
    }

    /// Determinant by first-row cofactor expansion.
    pub fn determinant(&self) -> (v: Fx)
        ensures
            v.raw as int == spec_det4(*self),
    {
        self.m00.mul(self.cofactor(0, 0)).add(self.m01.mul(self.cofactor(0, 1))).add(self.m02.mul(self.cofactor(0, 2))).add(self.m03.mul(self.cofactor(0, 3)))
    }

    /// Whether the determinant is non-zero, so `inverse` is defined.
    pub fn is_invertable(&self) -> (r: bool)
        ensures
            r == spec_invertible(*self),
    {
        self.determinant().raw != 0
    }

    /// The inverse by cofactor expansion; the matrix must be invertible.
    #[verifier::rlimit(50)]
    pub fn inverse(&self) -> (r: Matrix4)
        requires
            spec_invertible(*self),
        ensures
            r == spec_inverse4(*self),
    {
        let d = self.determinant();
        Matrix4 {
            m00: self.cofactor(0, 0).div(d),
            m01: self.cofactor(1, 0).div(d),
            m02: self.cofactor(2, 0).div(d),
            m03: self.cofactor(3, 0).div(d),
            m10: self.cofactor(0, 1).div(d),
            m11: self.cofactor(1, 1).div(d),
            m12: self.cofactor(2, 1).div(d),
            m13: self.cofactor(3, 1).div(d),
            m20: self.cofactor(0, 2).div(d),
            m21: self.cofactor(1, 2).div(d),
            m22: self.cofactor(2, 2).div(d),
            m23: self.cofactor(3, 2).div(d),
            m30: self.cofactor(0, 3).div(d),
            m31: self.cofactor(1, 3).div(d),
            m32: self.cofactor(2, 3).div(d),
            m33: self.cofactor(3, 3).div(d),
        }
    }

    /// Translation by `(x, y, z)`.
    pub fn translation(x: Fx, y: Fx, z: Fx) -> (r: Matrix4)
        ensures
            r == spec_translation(x, y, z),
    {
        let mut out = Matrix4::identity();
        out.set(0, 3, x);
        out.set(1, 3, y);
        out.set(2, 3, z);
        out
    }

    /// Scaling by `(x, y, z)`.
    pub fn scaling(x: Fx, y: Fx, z: Fx) -> (r: Matrix4)
        ensures
            r == spec_scaling(x, y, z),
    {
        let mut out = Matrix4::identity();
        out.set(0, 0, x);
        out.set(1, 1, y);
        out.set(2, 2, z);
        out
    }

    /// Rotation about the x axis by `r` radians.
    pub fn rotation_x(r: Fx) -> (m: Matrix4)
        ensures
            m == spec_rotation_x(r.raw as int),
    {
        let mut out = Matrix4::identity();
        out.set(1, 1, r.cos());
        out.set(1, 2, r.sin().neg());
        out.set(2, 1, r.sin());
        out.set(2, 2, r.cos());
        out
    }

    /// Rotation about the y axis by `r` radians.
    pub fn rotation_y(r: Fx) -> (m: Matrix4)
        ensures
            m == spec_rotation_y(r.raw as int),
    {
        let mut out = Matrix4::identity();
        out.set(0, 0, r.cos());
        out.set(0, 2, r.sin());
        out.set(2, 0, r.sin().neg());
        out.set(2, 2, r.cos());
        out
    }

    /// Rotation about the z axis by `r` radians.
    pub fn rotation_z(r: Fx) -> (m: Matrix4)
        ensures
            m == spec_rotation_z(r.raw as int),
    {
        let mut out = Matrix4::identity();
        out.set(0, 0, r.cos());
        out.set(0, 1, r.sin().neg());
        out.set(1, 0, r.sin());
        out.set(1, 1, r.cos());
        out
    }

    /// Shearing: each coordinate moved in proportion to the other two.
    pub fn shearing(xy: Fx, xz: Fx, yx: Fx, yz: Fx, zx: Fx, zy: Fx) -> (r: Matrix4)
        ensures
            r == spec_shearing(xy, xz, yx, yz, zx, zy),
    {
        let mut out = Matrix4::identity();
        out.set(0, 1, xy);
        out.set(0, 2, xz);
        out.set(1, 0, yx);
        out.set(1, 2, yz);
        out.set(2, 0, zx);
        out.set(2, 1, zy);
        out
    }

    /// Apply the matrix to a tuple by row-tuple dot products.
    pub fn mul_tuple(&self, t: &Tuple) -> (r: Tuple)
        ensures
            r == spec_mat_tuple(*self, *t),
    {
        Tuple {
            x: self.m00.mul(t.x).add(self.m01.mul(t.y)).add(self.m02.mul(t.z)).add(
                self.m03.mul(t.w),
            ),
            y: self.m10.mul(t.x).add(self.m11.mul(t.y)).add(self.m12.mul(t.z)).add(
                self.m13.mul(t.w),
            ),
            z: self.m20.mul(t.x).add(self.m21.mul(t.y)).add(self.m22.mul(t.z)).add(
                self.m23.mul(t.w),
            ),
            w: self.m30.mul(t.x).add(self.m31.mul(t.y)).add(self.m32.mul(t.z)).add(
                self.m33.mul(t.w),
            ),
        }
    }

    /// The view transform that points the camera from `from` toward `to`
    /// with `up` overhead. The eye-to-target and up vectors must not have
    /// zero magnitude.
    pub fn view_transform(from: Tuple, to: Tuple, up: Tuple) -> (r: Matrix4)
        requires
            spec_magnitude(spec_sub(to, from)) != 0,
            spec_magnitude(up) != 0,
        ensures
            r == spec_view_transform(from, to, up),
    {
        let forward = to.sub(from).normalize();
        let left = forward.cross(&up.normalize());
        let true_up = left.cross(&forward);
        let mut orientation = Matrix4::identity();
        orientation.set(0, 0, left.x);
        orientation.set(0, 1, left.y);
        orientation.set(0, 2, left.z);
        orientation.set(1, 0, true_up.x);
        orientation.set(1, 1, true_up.y);
        orientation.set(1, 2, true_up.z);
        orientation.set(2, 0, forward.x.neg());
        orientation.set(2, 1, forward.y.neg());
        orientation.set(2, 2, forward.z.neg());
        let nf = from.neg();
        orientation.mul(&Matrix4::translation(nf.x, nf.y, nf.z))
    }
}

} // verus!
