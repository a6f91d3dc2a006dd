//! The two dispatch strategies under comparison: a transform that stores a
//! raw callable as an address offset from an anchor symbol, and a transform
//! that wraps a `Mapper` by static type. Both expose the same capability:
//! map a buffer of integers to a new buffer of the same length, in order.

use crate::ops::Mapper;
use vstd::prelude::*;
use vstd::wrapping::usize_specs;

verus! {

/// Anchor symbol. It has no behaviour of its own: the function-pointer
/// transform records a callable's address relative to this function's
/// address, so that the stored value survives relocation of the whole
/// binary image within one run.
pub fn base() {
}

/// A transform that remembers a callable only as the wrapped difference
/// between the callable's address and the anchor's address.
///
/// The offset is meaningful only inside the process that computed it.
/// Re-interpreting the reconstructed address as a callable is inherently
/// unsafe and lives outside this library, at its one documented trust
/// boundary; the arithmetic on both sides of that boundary is proved here.
#[derive(PartialEq, Eq, Structural, Clone, Copy, Debug)]
pub struct FnPtrMapper {
    pub f: usize,
}

impl FnPtrMapper {
    /// Record the callable at address `f_addr` as its offset from the
    /// anchor at address `base_addr`, wrapping modulo the address width.
    pub fn new(f_addr: usize, base_addr: usize) -> (r: Self)
        ensures
            r.f == usize_specs::wrapping_sub(f_addr, base_addr),
    {
        FnPtrMapper { f: f_addr.wrapping_sub(base_addr) }
    }

    /// Reconstruct the stored callable's address from the anchor's
    /// current address.
    pub fn target_addr(&self, base_addr: usize) -> (r: usize)
        ensures
            r == usize_specs::wrapping_add(base_addr, self.f),
    {
        base_addr.wrapping_add(self.f)
    }

    /// Map the reconstructed callable over the whole buffer.
    ///
    /// The caller supplies the live callable `f` that it rebuilt from
    /// [`Self::target_addr`]; this library cannot tie `f` to the stored
    /// offset (that is the trust boundary), but it proves that the result
    /// is exactly `f` applied positionally to every element.
    pub fn run<F: Fn(usize) -> usize>(&self, f: F, v: Vec<usize>) -> (r: Vec<usize>)
        requires
            forall|x: usize| #[trigger] call_requires(f, (x,)),
        ensures
            r@.len() == v@.len(),
            forall|i: int| 0 <= i < v@.len() ==> call_ensures(f, (v@[i],), #[trigger] r@[i]),
    {
        let mut r: Vec<usize> = Vec::new();
        let mut j: usize = 0;
        while j < v.len()
            invariant
                forall|x: usize| #[trigger] call_requires(f, (x,)),
                j <= v@.len(),
                r@.len() == j,
                forall|i: int| 0 <= i < j ==> call_ensures(f, (v@[i],), #[trigger] r@[i]),
            decreases v@.len() - j,
        {
            r.push(f(v[j]));
            j += 1;
        }
        r
    }
}

/// The address offset stored by `FnPtrMapper::new` reconstructs, against
/// the same anchor address, exactly the callable address it was built
/// from, whatever the two addresses were.
pub proof fn lemma_offset_round_trip(f_addr: usize, base_addr: usize)
    ensures
        usize_specs::wrapping_add(
            base_addr,
            usize_specs::wrapping_sub(f_addr, base_addr),
        ) == f_addr,
{
}

/// The uniform capability the harness times: apply a transformation to a
/// buffer, producing a new buffer of the same length whose elements
/// correspond positionally to the input's, each the image of its input
/// element under the pure per-element function `elem_spec`.
pub trait MapRdd {
    /// The per-element function the transform computes.
    spec fn elem_spec(&self, x: usize) -> usize;

    /// Apply the transformation to the whole buffer.
    fn run(&self, v: Vec<usize>) -> (r: Vec<usize>)
        ensures
            r@.len() == v@.len(),
            forall|i: int| 0 <= i < v@.len() ==> #[trigger] r@[i] == self.elem_spec(v@[i]),
    ;
}

/// A transform that wraps one `Mapper` by static type, so that each call
/// site dispatches without indirection. This is the performance baseline
/// the dynamic strategies are measured against.
#[derive(PartialEq, Eq, Structural, Clone, Copy, Debug)]
#[verifier::ext_equal]
pub struct GenericsMapper<T> {
    pub mapper: T,
}

impl<T> GenericsMapper<T> where T: Mapper<Item = usize, Res = usize> {
    /// Wrap one operation variant.
    pub fn new(mapper: T) -> (r: Self)
        ensures
            r.mapper == mapper,
    {
        GenericsMapper { mapper }
    }
}

impl<T> MapRdd for GenericsMapper<T> where T: Mapper<Item = usize, Res = usize> {
    open spec fn elem_spec(&self, x: usize) -> usize {
        self.mapper.work_spec(x)
    }

    fn run(&self, v: Vec<usize>) -> (r: Vec<usize>)
        ensures
            r@.len() == v@.len(),
            forall|i: int| 0 <= i < v@.len() ==> #[trigger] r@[i] == self.elem_spec(v@[i]),
    {
        let mut r: Vec<usize> = Vec::new();
        let mut j: usize = 0;
        while j < v.len()
            invariant
                j <= v@.len(),
                r@.len() == j,
                forall|i: int| 0 <= i < j ==> #[trigger] r@[i] == self.elem_spec(v@[i]),
            decreases v@.len() - j,
        {
            r.push(self.mapper.work(v[j]));
            j += 1;
        }
        r
    }
}

/// Applying one transform to two equal buffers gives equal results: the
/// per-element function is pure, so `run` has no hidden state and any two
/// outputs that meet its contract on equal inputs coincide.
pub proof fn lemma_run_idempotent<M: MapRdd>(
    m: &M,
    v1: Seq<usize>,
    v2: Seq<usize>,
    r1: Seq<usize>,
    r2: Seq<usize>,
)
    requires
        v1 == v2,
        r1.len() == v1.len(),
        forall|i: int| 0 <= i < v1.len() ==> #[trigger] r1[i] == m.elem_spec(v1[i]),
        r2.len() == v2.len(),
        forall|i: int| 0 <= i < v2.len() ==> #[trigger] r2[i] == m.elem_spec(v2[i]),
    ensures
        r1 == r2,
{
    assert(r1 =~= r2);
}

/// The function-pointer strategy is idempotent too, whenever the callable
/// it was handed is deterministic (as a reconstructed pure function is):
/// any two outputs that `FnPtrMapper::run` can produce for equal buffers
/// coincide.
pub proof fn lemma_fnptr_run_idempotent<F: Fn(usize) -> usize>(
    f: F,
    v1: Seq<usize>,
    v2: Seq<usize>,
    r1: Seq<usize>,
    r2: Seq<usize>,
)
    requires
        v1 == v2,
        forall|x: usize, y1: usize, y2: usize|
            call_ensures(f, (x,), y1) && call_ensures(f, (x,), y2) ==> y1 == y2,
        r1.len() == v1.len(),
        forall|i: int| 0 <= i < v1.len() ==> call_ensures(f, (v1[i],), #[trigger] r1[i]),
        r2.len() == v2.len(),
        forall|i: int| 0 <= i < v2.len() ==> call_ensures(f, (v2[i],), #[trigger] r2[i]),
    ensures
        r1 == r2,
{
    assert(r1 =~= r2);
}

/// The two dispatch strategies agree: when the callable handed to the
/// function-pointer transform computes the same operation as a generic
/// transform's mapper, the two strategies' outputs for the same buffer are
/// identical, element for element and in order.
pub proof fn lemma_strategies_agree<F: Fn(usize) -> usize, M: MapRdd>(
    f: F,
    m: &M,
    v: Seq<usize>,
    r_fn: Seq<usize>,
    r_gen: Seq<usize>,
)
    requires
        forall|x: usize, y: usize| call_ensures(f, (x,), y) ==> y == m.elem_spec(x),
        r_fn.len() == v.len(),
        forall|i: int| 0 <= i < v.len() ==> call_ensures(f, (v[i],), #[trigger] r_fn[i]),
        r_gen.len() == v.len(),
        forall|i: int| 0 <= i < v.len() ==> #[trigger] r_gen[i] == m.elem_spec(v[i]),
    ensures
        r_fn == r_gen,
{
    assert(r_fn =~= r_gen);
}

} // verus!
