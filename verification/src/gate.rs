//! Gates: square matrices of even dimension, applied in place to a
//! contiguous block of a memory's amplitude vector.
//!
//! Both variants (compile-time and runtime dimension) share one verified
//! multiply-into-slice algorithm, and one contract, `apply_rel`.

use vstd::prelude::*;

use crate::amplitude::{
    amp_add, amp_add_spec, amp_canon, amp_clean, amp_mul, amp_mul_spec, amp_one, amp_zero,
    Amplitude,
};
use crate::memory::Memory;

verus! {

/// Why a gate could not be constructed.
#[derive(Clone, Copy, Debug, PartialEq, Eq, Structural)]
pub enum GateError {
    /// The supplied matrix is not square.
    NotSquare { rows: usize, cols: usize },
    /// The supplied square matrix has an odd dimension; a gate must act on a
    /// whole number of qubits, that is, an even count of amplitudes.
    OddDimension { dim: usize },
}

/// Why a gate could not be applied.
#[derive(Clone, Copy, Debug, PartialEq, Eq, Structural)]
pub enum ApplyError {
    /// The slice of `dim` amplitudes starting at `start` does not lie inside
    /// an amplitude vector of length `len`.
    OutOfBounds { start: usize, dim: usize, len: usize },
}

/// Relies on num's `Integer::is_odd` for `usize`: true exactly on numbers
/// not divisible by two.
pub assume_specification[ <usize as num::Integer>::is_odd ](n: &usize) -> (r: bool)
    ensures
        r == (*n % 2 == 1),
;

/// Every amplitude of the sequence is finite and free of -0.0 components.
pub open spec fn amps_clean(s: Seq<Amplitude>) -> bool {
    forall|i: int| 0 <= i < s.len() ==> amp_clean(#[trigger] s[i])
}

/// The entry of the flattened row-major `dim`-square identity matrix at
/// flat index `i`: one on the diagonal, zero elsewhere.
pub open spec fn identity_entry(i: int, dim: int) -> Amplitude {
    if i / dim == i % dim {
        amp_one()
    } else {
        amp_zero()
    }
}

/// The `dim`-square identity matrix, flattened row-major.
pub open spec fn identity_mat(dim: int) -> Seq<Amplitude> {
    Seq::new((dim * dim) as nat, |i: int| identity_entry(i, dim))
}

/// The sum of the first `k` terms of row `row` of the product of the
/// flattened `dim`-square matrix `mat` and the vector `v`, accumulated left
/// to right from zero, exactly as the executable multiply does.  Entries
/// enter the fold NaN-canonicalized, since only a NaN's bits are not
/// determined by the binary64 arithmetic behind `amp_add_spec` and
/// `amp_mul_spec`.
pub open spec fn block_product_prefix(
    mat: Seq<Amplitude>,
    v: Seq<Amplitude>,
    dim: int,
    row: int,
    k: int,
) -> Amplitude
    decreases k,
{
    if k <= 0 {
        amp_zero()
    } else {
        amp_add_spec(
            block_product_prefix(mat, v, dim, row, k - 1),
            amp_mul_spec(amp_canon(mat[row * dim + (k - 1)]), amp_canon(v[k - 1])),
        )
    }
}

/// Row `row` of the product of the flattened `dim`-square matrix `mat` and
/// the `dim`-length vector `v`, up to NaN canonicalization.
pub open spec fn block_product(mat: Seq<Amplitude>, v: Seq<Amplitude>, dim: int, row: int) -> Amplitude {
    block_product_prefix(mat, v, dim, row, dim)
}

/// The one contract of gate application.  Application succeeds exactly when
/// the `dim`-length slice at `start` lies inside the vector; on failure the
/// vector is untouched; on success that slice is replaced by the product of
/// the matrix `mat` with the old slice (each new amplitude pinned up to the
/// bits of a produced NaN), and everything outside the slice is untouched.
/// Applying the identity matrix to a clean slice leaves the whole vector
/// unchanged, bit for bit.
pub open spec fn apply_rel(
    mat: Seq<Amplitude>,
    dim: int,
    pre: Seq<Amplitude>,
    post: Seq<Amplitude>,
    start: int,
    res: Result<(), ApplyError>,
) -> bool {
    &&& (res is Ok <==> start + dim <= pre.len())
    &&& (res is Err ==> post == pre && res == Err::<(), ApplyError>(
        ApplyError::OutOfBounds {
            start: start as usize,
            dim: dim as usize,
            len: pre.len() as usize,
        },
    ))
    &&& (res is Ok ==> {
        &&& post.len() == pre.len()
        &&& (forall|i: int|
            0 <= i < pre.len() && !(start <= i < start + dim) ==> post[i] == pre[i])
        &&& (forall|r: int|
            0 <= r < dim ==> amp_canon(post[start + r]) == #[trigger] block_product(
                mat,
                pre.subrange(start, start + dim),
                dim,
                r,
            ))
        &&& (mat == identity_mat(dim) && amps_clean(pre.subrange(start, start + dim)) ==> post
            == pre)
    })
}

/// The capability shared by both gate variants: apply its matrix to
/// the `dim`-length slice of the memory's amplitude vector at `start`,
/// replacing the slice with the product, in place.
pub trait Gate {
    /// This gate's matrix, flattened row-major.
    spec fn mat(&self) -> Seq<Amplitude>;

    /// The dimension (row count) of the matrix; twice the number of qubits
    /// this gate acts on.
    spec fn dim(&self) -> int;

    /// The shape consistency every constructed gate has: a square matrix of
    /// even dimension.
    spec fn wf(&self) -> bool;

    /// Multiply this gate's matrix into the amplitudes of `memory` at
    /// `start`.  Fails with a bounds error, leaving the memory untouched,
    /// when the slice does not fit.
    fn apply(&self, memory: &mut Memory, start: usize) -> (res: Result<(), ApplyError>)
        requires
            self.wf(),
        ensures
            apply_rel(self.mat(), self.dim(), old(memory)@, final(memory)@, start as int, res),
    ;
}

/// The flat index of row `row`, column `k` of a `dim`-square matrix decodes
/// back to that row and column.
pub proof fn lemma_flat_index(dim: int, row: int, k: int)
    requires
        0 <= row,
        0 <= k < dim,
    ensures
        (row * dim + k) / dim == row,
        (row * dim + k) % dim == k,
{
    vstd::arithmetic::div_mod::lemma_fundamental_div_mod_converse(row * dim + k, dim, row, k);
}

/// The shared core of both `apply` implementations: replace the
/// `dim`-length slice of `amps` at `start` with the product of the
/// flattened `dim`-square matrix `mat` and that slice.
pub(crate) fn multiply_block(mat: &Vec<Amplitude>, dim: usize, amps: &mut Vec<Amplitude>, start: usize)
    requires
        mat@.len() == dim * dim,
        start + dim <= old(amps)@.len(),
    ensures
        final(amps)@.len() == old(amps)@.len(),
        forall|i: int|
            0 <= i < old(amps)@.len() && !(start <= i < start + dim) ==> final(amps)@[i] == old(
                amps,
            )@[i],
        forall|r: int|
            0 <= r < dim ==> amp_canon(final(amps)@[start + r]) == #[trigger] block_product(
                mat@,
                old(amps)@.subrange(start as int, start + dim),
                dim as int,
                r,
            ),
        mat@ == identity_mat(dim as int) && amps_clean(
            old(amps)@.subrange(start as int, start + dim),
        ) ==> final(amps)@ == old(amps)@,
{
    let ghost pre = amps@;
    let ghost slice = pre.subrange(start as int, start + dim);
    let _vec_len = amps.len();
    let _mat_len = mat.len();
    let mut out: Vec<Amplitude> = Vec::new();
    let mut row: usize = 0;
    while row < dim
        invariant
            row <= dim,
            mat@.len() == dim * dim,
            dim * dim <= usize::MAX,
            start + dim <= pre.len(),
            pre.len() <= usize::MAX,
            amps@ == pre,
            slice == pre.subrange(start as int, start + dim),
            out@.len() == row,
            forall|j: int|
                0 <= j < row ==> amp_canon(out@[j]) == block_product(mat@, slice, dim as int, j),
            mat@ == identity_mat(dim as int) && amps_clean(slice) ==> (forall|j: int|
                0 <= j < row ==> out@[j] == slice[j]),
        decreases dim - row,
    {
        proof {
            crate::amplitude::lemma_basis_amps_clean();
            assert(amp_canon(amp_zero()) == amp_zero());
        }
        let mut acc = Amplitude::zero();
        let mut k: usize = 0;
        while k < dim
            invariant
                k <= dim,
                row < dim,
                mat@.len() == dim * dim,
                dim * dim <= usize::MAX,
                start + dim <= pre.len(),
                pre.len() <= usize::MAX,
                amps@ == pre,
                slice == pre.subrange(start as int, start + dim),
                amp_canon(acc) == block_product_prefix(mat@, slice, dim as int, row as int, k as int),
                mat@ == identity_mat(dim as int) && amps_clean(slice) ==> acc == (if k <= row {
                    amp_zero()
                } else {
                    slice[row as int]
                }),
            decreases dim - k,
        {
            proof {
                assert(row * dim + k < dim * dim) by (nonlinear_arith)
                    requires
                        row < dim,
                        k < dim,
                ;
            }
            let m = mat[row * dim + k];
            let v = amps[start + k];
            assert(v == slice[k as int]);
            proof {
                if mat@ == identity_mat(dim as int) && amps_clean(slice) {
                    lemma_flat_index(dim as int, row as int, k as int);
                    assert(m == identity_entry(row * dim + k, dim as int));
                }
            }
            let term = amp_mul(m, v);
            acc = amp_add(acc, term);
            k = k + 1;
        }
        out.push(acc);
        row = row + 1;
    }
    let mut j: usize = 0;
    while j < dim
        invariant
            j <= dim,
            out@.len() == dim,
            start + dim <= pre.len(),
            pre.len() <= usize::MAX,
            amps@.len() == pre.len(),
            slice == pre.subrange(start as int, start + dim),
            forall|i: int|
                0 <= i < pre.len() && !(start <= i < start + j) ==> amps@[i] == pre[i],
            forall|i: int| start <= i < start + j ==> amps@[i] == out@[i - start],
            forall|jj: int|
                0 <= jj < dim ==> amp_canon(out@[jj]) == block_product(mat@, slice, dim as int, jj),
            mat@ == identity_mat(dim as int) && amps_clean(slice) ==> (forall|jj: int|
                0 <= jj < dim ==> out@[jj] == slice[jj]),
        decreases dim - j,
    {
        amps[start + j] = out[j];
        j = j + 1;
    }
    proof {
        if mat@ == identity_mat(dim as int) && amps_clean(slice) {
            assert forall|i: int| 0 <= i < pre.len() implies amps@[i] == pre[i] by {
                if start <= i < start + dim {
                    assert(amps@[i] == out@[i - start]);
                    assert(out@[i - start] == slice[i - start]);
                    assert(slice[i - start] == pre[i]);
                }
            }
            assert(amps@ =~= pre);
        }
    }
}

/// A gate whose dimension `N` is a compile-time constant.
#[derive(Debug)]
pub struct SGate<const N: usize> {
    elements: Vec<Amplitude>,
}

impl<const N: usize> Gate for SGate<N> {
    closed spec fn mat(&self) -> Seq<Amplitude> {
        self.elements@
    }

    closed spec fn dim(&self) -> int {
        N as int
    }

    closed spec fn wf(&self) -> bool {
        self.elements@.len() == N * N && N % 2 == 0
    }

    fn apply(&self, memory: &mut Memory, start: usize) -> (res: Result<(), ApplyError>) {
        memory.apply_block(&self.elements, N, start)
    }
}

impl<const N: usize> SGate<N> {
    /// Build a gate from an `N`-square matrix, flattened row-major; the
    /// vector must hold exactly the matrix's N*N entries.  Construction
    /// fails exactly when `N` is odd.
    pub fn from_matrix(elements: Vec<Amplitude>) -> (res: Result<SGate<N>, GateError>)
        requires
            elements@.len() == N * N,
        ensures
            N % 2 == 0 ==> (res matches Ok(g) && g.mat() == elements@ && g.dim() == N && g.wf()),
            N % 2 != 0 ==> res == Err::<SGate<N>, GateError>(GateError::OddDimension { dim: N }),
    {
        let n = N;
        if num::Integer::is_odd(&n) {
            Err(GateError::OddDimension { dim: N })
        } else {
            Ok(SGate { elements })
        }
    }

    /// The plain constructor: a synonym of `from_matrix`, with the same
    /// validation.
    pub fn new(elements: Vec<Amplitude>) -> (res: Result<SGate<N>, GateError>)
        requires
            elements@.len() == N * N,
        ensures
            N % 2 == 0 ==> (res matches Ok(g) && g.mat() == elements@ && g.dim() == N && g.wf()),
            N % 2 != 0 ==> res == Err::<SGate<N>, GateError>(GateError::OddDimension { dim: N }),
    {
        SGate::from_matrix(elements)
    }

    /// The `N`-square identity gate.  Like every gate construction it fails
    /// exactly when `N` is odd.
    pub fn identity() -> (res: Result<SGate<N>, GateError>)
        ensures
            N % 2 == 0 ==> (res matches Ok(g) && g.mat() == identity_mat(N as int) && g.dim() == N
                && g.wf()),
            N % 2 != 0 ==> res == Err::<SGate<N>, GateError>(GateError::OddDimension { dim: N }),
    {
        let elements = identity_elements(N);
        SGate::from_matrix(elements)
    }
}

/// A gate whose dimension is determined at run time from the supplied
/// matrix.
#[derive(Debug)]
pub struct DGate {
    dim: usize,
    elements: Vec<Amplitude>,
}

impl Gate for DGate {
    closed spec fn mat(&self) -> Seq<Amplitude> {
        self.elements@
    }

    closed spec fn dim(&self) -> int {
        self.dim as int
    }

    closed spec fn wf(&self) -> bool {
        self.elements@.len() == self.dim * self.dim && self.dim % 2 == 0
    }

    fn apply(&self, memory: &mut Memory, start: usize) -> (res: Result<(), ApplyError>) {
        memory.apply_block(&self.elements, self.dim, start)
    }
}

impl DGate {
    /// Build a gate from a `rows` x `cols` matrix, flattened row-major; the
    /// vector must hold exactly the matrix's rows*cols entries.
    /// Construction fails exactly when the matrix is not square, or is
    /// square of odd dimension; the two failures are distinct.
    pub fn from_matrix(rows: usize, cols: usize, elements: Vec<Amplitude>) -> (res: Result<
        DGate,
        GateError,
    >)
        requires
            elements@.len() == rows * cols,
        ensures
            rows != cols ==> res == Err::<DGate, GateError>(
                GateError::NotSquare { rows, cols },
            ),
            rows == cols && rows % 2 != 0 ==> res == Err::<DGate, GateError>(
                GateError::OddDimension { dim: rows },
            ),
            rows == cols && rows % 2 == 0 ==> (res matches Ok(g) && g.mat() == elements@
                && g.dim() == rows && g.wf()),
    {
        if rows != cols {
            return Err(GateError::NotSquare { rows, cols });
        }
        if num::Integer::is_odd(&rows) {
            return Err(GateError::OddDimension { dim: rows });
        }
        Ok(DGate { dim: rows, elements })
    }

    /// The plain constructor: a synonym of `from_matrix`, with the same
    /// validation.
    pub fn new(rows: usize, cols: usize, elements: Vec<Amplitude>) -> (res: Result<
        DGate,
        GateError,
    >)
        requires
            elements@.len() == rows * cols,
        ensures
            rows != cols ==> res == Err::<DGate, GateError>(
                GateError::NotSquare { rows, cols },
            ),
            rows == cols && rows % 2 != 0 ==> res == Err::<DGate, GateError>(
                GateError::OddDimension { dim: rows },
            ),
            rows == cols && rows % 2 == 0 ==> (res matches Ok(g) && g.mat() == elements@
                && g.dim() == rows && g.wf()),
    {
        DGate::from_matrix(rows, cols, elements)
    }

    /// The identity gate on `size` qubits: the 2*size-square identity
    /// matrix.
    pub fn identity(size: usize) -> (g: DGate)
        requires
            size <= usize::MAX / 2,
        ensures
            g.wf(),
            g.dim() == 2 * size,
            g.mat() == identity_mat(2 * size as int),
    {
        let d = size * 2;
        let elements = identity_elements(d);
        DGate { dim: d, elements }
    }
}

/// Build the flattened `dim`-square identity matrix.
fn identity_elements(dim: usize) -> (r: Vec<Amplitude>)
    ensures
        r@ == identity_mat(dim as int),
        r@.len() == dim * dim,
{
    let mut v: Vec<Amplitude> = Vec::new();
    let mut row: usize = 0;
    while row < dim
        invariant
            row <= dim,
            v@.len() == row * dim,
            forall|i: int| 0 <= i < v@.len() ==> v@[i] == identity_entry(i, dim as int),
        decreases dim - row,
    {
        let mut k: usize = 0;
        while k < dim
            invariant
                k <= dim,
                row < dim,
                v@.len() == row * dim + k,
                forall|i: int| 0 <= i < v@.len() ==> v@[i] == identity_entry(i, dim as int),
            decreases dim - k,
        {
            let e = if row == k {
                Amplitude::one()
            } else {
                Amplitude::zero()
            };
            proof {
                lemma_flat_index(dim as int, row as int, k as int);
            }
            v.push(e);
            k = k + 1;
        }
        proof {
            assert((row + 1) * dim == row * dim + dim) by (nonlinear_arith);
        }
        row = row + 1;
    }
    proof {
        assert(row * dim == dim * dim) by (nonlinear_arith)
            requires
                row == dim,
        ;
        assert(v@ =~= identity_mat(dim as int));
    }
    v
}

/// LAW: applying an identity gate changes nothing.  Whenever an application
/// that satisfies the application contract is given the identity
/// matrix and a clean in-bounds slice, it succeeds and returns the
/// amplitude vector exactly as it was.
pub proof fn lemma_identity_apply_is_noop(
    mat: Seq<Amplitude>,
    dim: int,
    pre: Seq<Amplitude>,
    post: Seq<Amplitude>,
    start: int,
    res: Result<(), ApplyError>,
)
    requires
        mat == identity_mat(dim),
        0 <= start,
        0 <= dim,
        start + dim <= pre.len(),
        amps_clean(pre.subrange(start, start + dim)),
        apply_rel(mat, dim, pre, post, start, res),
    ensures
        res is Ok,
        post == pre,
{
}

} // verus!
