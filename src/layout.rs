//! Index conventions shared by the parameter vector, the residual vector and
//! the Jacobian of a calibration problem with `M` images of `N` target points.
use vstd::prelude::*;
use vstd::arithmetic::div_mod::{lemma_fundamental_div_mod, lemma_fundamental_div_mod_converse};

use crate::error::CalibError;

verus! {

/// Number of intrinsic parameters `(fx, fy, cx, cy)` at the head of the
/// parameter vector.
pub const NUM_INTRINSICS: usize = 4;

/// Number of minimal SE(3) coordinates per pose: translation part, then
/// rotation vector.
pub const POSE_DIM: usize = 6;

/// Length of the parameter vector for `m` images: `4 + 6m`.
pub open spec fn param_len_of(m: nat) -> nat {
    4 + 6 * m
}

/// Length of the residual vector for `m` images of `n` points: `2mn`.
pub open spec fn residual_len_of(m: nat, n: nat) -> nat {
    2 * m * n
}

/// First parameter index of the pose of image `i`.
pub open spec fn pose_offset_of(i: nat) -> nat {
    4 + 6 * i
}

/// First residual row of point `j` of image `i`, with `n` points per image:
/// rows are ordered by image, then by point, two per point.
pub open spec fn residual_row_of(n: nat, i: nat, j: nat) -> nat {
    2 * (i * n + j)
}

/// The sizes of a problem with `m` images of `n` points can be indexed by
/// `usize`.
pub open spec fn fits(m: nat, n: nat) -> bool {
    param_len_of(m) <= usize::MAX && residual_len_of(m, n) <= usize::MAX
}

/// Where an entry of the Jacobian stands in its block structure.
#[derive(Clone, Copy, Debug, PartialEq, Eq, Structural)]
pub enum JacobianBlock {
    /// Partial with respect to intrinsic `k` (`fx, fy, cx, cy`).
    Intrinsic(usize),
    /// Partial with respect to coordinate `k` of the pose of the row's own
    /// image.
    Pose(usize),
    /// An entry that is zero by structure: the column belongs to the pose of
    /// another image.
    Zero,
}

/// The block of Jacobian entry `(row, col)` with `n` points per image: the
/// first four columns are intrinsic partials in every row; the six columns
/// of the pose of image `i` are filled only in the rows of image `i`.
pub open spec fn block_of(n: nat, row: nat, col: nat) -> JacobianBlock {
    let img = row / (2 * n);
    if col < 4 {
        JacobianBlock::Intrinsic(col as usize)
    } else if pose_offset_of(img) <= col < pose_offset_of(img) + 6 {
        JacobianBlock::Pose((col - pose_offset_of(img)) as usize)
    } else {
        JacobianBlock::Zero
    }
}

/// Where the two residual rows of one observation go, and the Jacobian
/// columns of the pose they depend on.
#[derive(Clone, Copy, Debug, PartialEq, Eq, Structural)]
pub struct Placement {
    /// Index of the image.
    pub image: usize,
    /// Index of the target point (and of its observation in the image's list).
    pub point: usize,
    /// First of the two residual rows.
    pub row: usize,
    /// First of the six Jacobian columns of the image's pose.
    pub pose_col: usize,
}

/// The placement of point `j` of image `i`, with `n` points per image.
pub open spec fn placement_of(n: nat, i: nat, j: nat) -> Placement {
    Placement {
        image: i as usize,
        point: j as usize,
        row: residual_row_of(n, i, j) as usize,
        pose_col: pose_offset_of(i) as usize,
    }
}

/// The dimensions of a calibration problem.
#[derive(Clone, Copy, Debug, PartialEq, Eq, Structural)]
pub struct Layout {
    num_images: usize,
    num_points: usize,
}

impl Layout {
    /// Number of images `M`.
    pub closed spec fn images(self) -> nat {
        self.num_images as nat
    }

    /// Number of target points `N` per image.
    pub closed spec fn points(self) -> nat {
        self.num_points as nat
    }

    pub open spec fn wf(self) -> bool {
        fits(self.images(), self.points())
    }

    /// A layout for `num_images` images of `num_points` target points each.
    pub fn new(num_images: usize, num_points: usize) -> (r: Layout)
        requires
            fits(num_images as nat, num_points as nat),
        ensures
            r.wf(),
            r.images() == num_images,
            r.points() == num_points,
    {
        Layout { num_images, num_points }
    }

    /// The layout of a problem with `num_points` target points and one
    /// observation list per image, of which `observation_lens` gives the
    /// lengths. Every list must hold exactly one observation per target
    /// point.
    pub fn from_observations(num_points: usize, observation_lens: &Vec<usize>) -> (r: Result<
        Layout,
        CalibError,
    >)
        requires
            fits(observation_lens@.len(), num_points as nat),
        ensures
            r.is_ok() <==> (forall|i: int|
                0 <= i < observation_lens@.len() ==> #[trigger] observation_lens@[i] == num_points),
            r matches Ok(l) ==> l.wf() && l.images() == observation_lens@.len() && l.points()
                == num_points,
            r matches Err(e) ==> e == CalibError::DimensionMismatch,
            (exists|i: int|
                0 <= i < observation_lens@.len() && #[trigger] observation_lens@[i] < num_points)
                ==> r == Err::<Layout, CalibError>(CalibError::DimensionMismatch),
    {
        let mut i: usize = 0;
        while i < observation_lens.len()
            invariant
                0 <= i <= observation_lens@.len(),
                forall|k: int| 0 <= k < i ==> #[trigger] observation_lens@[k] == num_points,
            decreases observation_lens@.len() - i,
        {
            if observation_lens[i] != num_points {
                return Err(CalibError::DimensionMismatch);
            }
            i = i + 1;
        }
        Ok(Layout { num_images: observation_lens.len(), num_points })
    }

    /// Number of images `M`.
    pub fn num_images(&self) -> (r: usize)
        ensures
            r == self.images(),
    {
        self.num_images
    }

    /// Number of target points `N` per image.
    pub fn num_points(&self) -> (r: usize)
        ensures
            r == self.points(),
    {
        self.num_points
    }

    /// Length of the parameter vector, `4 + 6M`; also the number of
    /// Jacobian columns.
    pub fn param_len(&self) -> (r: usize)
        requires
            self.wf(),
        ensures
            r == param_len_of(self.images()),
    {
        NUM_INTRINSICS + POSE_DIM * self.num_images
    }

    /// Length of the residual vector, `2MN`; also the number of Jacobian
    /// rows.
    pub fn residual_len(&self) -> (r: usize)
        requires
            self.wf(),
        ensures
            r == residual_len_of(self.images(), self.points()),
    {
        proof {
            let m = self.images() as int;
            let n = self.points() as int;
            assert(2 * m * n == 2 * (m * n)) by (nonlinear_arith);
            assert(m * n <= 2 * m * n) by (nonlinear_arith)
                requires m >= 0, n >= 0;
        }
        2 * (self.num_images * self.num_points)
    }

    /// First parameter index of the pose of image `i`; the pose occupies
    /// six indices from there.
    pub fn pose_offset(&self, i: usize) -> (r: usize)
        requires
            self.wf(),
            i < self.images(),
        ensures
            r == pose_offset_of(i as nat),
            r + POSE_DIM <= param_len_of(self.images()),
    {
        NUM_INTRINSICS + POSE_DIM * i
    }

    /// First of the two residual rows (`u` error, then `v` error) of point
    /// `j` in image `i`.
    pub fn residual_row(&self, i: usize, j: usize) -> (r: usize)
        requires
            self.wf(),
            i < self.images(),
            j < self.points(),
        ensures
            r == residual_row_of(self.points(), i as nat, j as nat),
            r + 2 <= residual_len_of(self.images(), self.points()),
    {
        proof {
            let m = self.images() as int;
            let n = self.points() as int;
            let ii = i as int;
            let jj = j as int;
            assert(ii * n + jj + 1 <= m * n) by (nonlinear_arith)
                requires 0 <= ii < m, 0 <= jj < n;
            assert(2 * m * n == 2 * (m * n)) by (nonlinear_arith);
        }
        2 * (i * self.num_points + j)
    }

    /// Checks that a parameter vector of length `len` fits this layout.
    pub fn check_param_len(&self, len: usize) -> (r: Result<(), CalibError>)
        requires
            self.wf(),
        ensures
            r.is_ok() <==> len == param_len_of(self.images()),
            r matches Err(e) ==> e == CalibError::DimensionMismatch,
    {
        if len == self.param_len() {
            Ok(())
        } else {
            Err(CalibError::DimensionMismatch)
        }
    }

    /// The block of Jacobian entry `(row, col)`.
    pub fn block_at(&self, row: usize, col: usize) -> (r: JacobianBlock)
        requires
            self.wf(),
            row < residual_len_of(self.images(), self.points()),
            col < param_len_of(self.images()),
        ensures
            r == block_of(self.points(), row as nat, col as nat),
    {
        let n = self.num_points;
        proof {
            let m = self.images() as int;
            let nn = n as int;
            assert(nn > 0 && 2 * nn <= 2 * m * nn && m * (2 * nn) == 2 * m * nn)
                by (nonlinear_arith)
                requires row < 2 * m * nn, nn >= 0, m >= 0;
        }
        let img = row / (2 * n);
        proof {
            let m = self.images() as int;
            let d = 2 * (n as int);
            let q = img as int;
            lemma_fundamental_div_mod(row as int, d);
            let rem = (row as int) % d;
            assert(q < m) by (nonlinear_arith)
                requires (row as int) < m * d, row as int == d * q + rem, 0 <= rem, d > 0;
        }
        let first = NUM_INTRINSICS + POSE_DIM * img;
        if col < NUM_INTRINSICS {
            JacobianBlock::Intrinsic(col)
        } else if first <= col && col < first + POSE_DIM {
            JacobianBlock::Pose(col - first)
        } else {
            JacobianBlock::Zero
        }
    }

    /// The first parameter index of every pose, in image order.
    pub fn pose_offsets(&self) -> (r: Vec<usize>)
        requires
            self.wf(),
        ensures
            r@.len() == self.images(),
            forall|i: int| 0 <= i < self.images() ==> #[trigger] r@[i] == pose_offset_of(i as nat),
    {
        let mut r: Vec<usize> = Vec::new();
        let mut i: usize = 0;
        while i < self.num_images
            invariant
                self.wf(),
                i <= self.images(),
                r@.len() == i,
                forall|k: int| 0 <= k < i ==> #[trigger] r@[k] == pose_offset_of(k as nat),
            decreases self.images() - i,
        {
            let off = self.pose_offset(i);
            r.push(off);
            i = i + 1;
        }
        r
    }

    /// The placements of all observations, ordered by image, then by point:
    /// entry `k` is point `k % N` of image `k / N`.
    pub fn assembly_plan(&self) -> (r: Vec<Placement>)
        requires
            self.wf(),
        ensures
            r@.len() == self.images() * self.points(),
            forall|k: int|
                0 <= k < r@.len() ==> #[trigger] r@[k] == placement_of(
                    self.points(),
                    (k / self.points() as int) as nat,
                    (k % self.points() as int) as nat,
                ),
    {
        let m = self.num_images;
        let n = self.num_points;
        let mut r: Vec<Placement> = Vec::new();
        let mut i: usize = 0;
        while i < m
            invariant
                self.wf(),
                m == self.images(),
                n == self.points(),
                i <= m,
                r@.len() == i * n,
                forall|k: int|
                    0 <= k < r@.len() ==> #[trigger] r@[k] == placement_of(
                        n as nat,
                        (k / n as int) as nat,
                        (k % n as int) as nat,
                    ),
            decreases m - i,
        {
            let mut j: usize = 0;
            while j < n
                invariant
                    self.wf(),
                    m == self.images(),
                    n == self.points(),
                    i < m,
                    j <= n,
                    r@.len() == i * n + j,
                    forall|k: int|
                        0 <= k < r@.len() ==> #[trigger] r@[k] == placement_of(
                            n as nat,
                            (k / n as int) as nat,
                            (k % n as int) as nat,
                        ),
                decreases n - j,
            {
                let row = self.residual_row(i, j);
                let pose_col = self.pose_offset(i);
                proof {
                    lemma_fundamental_div_mod_converse(
                        (i * n + j) as int,
                        n as int,
                        i as int,
                        j as int,
                    );
                }
                r.push(Placement { image: i, point: j, row, pose_col });
                j = j + 1;
            }
            proof {
                assert((i + 1) * n == i * n + n) by (nonlinear_arith);
            }
            i = i + 1;
        }
        r
    }
}

/// Distinct observations own distinct residual rows: the pairs of rows of
/// two different `(image, point)` pairs do not overlap.
pub proof fn lemma_residual_rows_disjoint(n: nat, i1: nat, j1: nat, i2: nat, j2: nat)
    requires
        j1 < n,
        j2 < n,
        i1 != i2 || j1 != j2,
    ensures
        residual_row_of(n, i1, j1) + 2 <= residual_row_of(n, i2, j2) || residual_row_of(n, i2, j2)
            + 2 <= residual_row_of(n, i1, j1),
{
    let a = i1 * n + j1;
    let b = i2 * n + j2;
    lemma_fundamental_div_mod_converse(a as int, n as int, i1 as int, j1 as int);
    lemma_fundamental_div_mod_converse(b as int, n as int, i2 as int, j2 as int);
    assert(a != b);
}

/// In both rows of point `j` of image `i`, the six columns of the pose of
/// image `i` hold pose partials, the first four columns hold intrinsic
/// partials, and the columns of the pose of any other image are zero.
pub proof fn lemma_placement_blocks(n: nat, i: nat, j: nat, t: nat, other: nat, k: nat)
    requires
        j < n,
        t < 2,
        k < 6,
        other != i,
    ensures
        block_of(n, residual_row_of(n, i, j) + t, pose_offset_of(i) + k) == JacobianBlock::Pose(
            k as usize,
        ),
        k < 4 ==> block_of(n, residual_row_of(n, i, j) + t, k) == JacobianBlock::Intrinsic(
            k as usize,
        ),
        block_of(n, residual_row_of(n, i, j) + t, pose_offset_of(other) + k) == JacobianBlock::Zero,
{
    let row = residual_row_of(n, i, j) + t;
    assert(row == (2 * n) * i + (2 * j + t)) by (nonlinear_arith)
        requires row == 2 * (i * n + j) + t;
    lemma_fundamental_div_mod_converse(row as int, (2 * n) as int, i as int, (2 * j + t) as int);
}

} // verus!
