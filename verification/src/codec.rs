//! The dynamic transform container and its tagged serialization protocol.
//!
//! A container erases the concrete transform behind one apply-to-buffer
//! capability while staying serializable: its document form carries a
//! discriminant tag naming the concrete kind plus that kind's payload
//! (the address offset, or the operation variant's discriminant), and
//! deserialization switches on the tag to rebuild the exact concrete
//! transform. The kinds form a closed set, so the registry of
//! reconstruction routines is this one compile-time switch.

use crate::ops::{Mapper, Mul2Mapper, Pow2Mapper, RetZeroMapper};
use crate::transform::{FnPtrMapper, GenericsMapper, MapRdd};
use vstd::prelude::*;

verus! {

/// Discriminant tag of a serialized function-pointer transform.
pub const TAG_FN_PTR: u64 = 1;

/// Discriminant tag of a serialized generic transform.
pub const TAG_GENERIC: u64 = 2;

/// Payload discriminant of the doubling operation variant.
pub const OP_MUL2: u64 = 1;

/// Payload discriminant of the scaled-squaring operation variant.
pub const OP_POW2: u64 = 2;

/// Payload discriminant of the zeroing operation variant.
pub const OP_RET_ZERO: u64 = 3;

/// The persisted form of a container: a discriminant tag and the payload
/// belonging to that kind. Only the payload field that the tag calls for
/// has to be present; a document whose tag is unrecognized, or whose
/// expected payload field is missing or out of range, is rejected on load.
#[derive(PartialEq, Eq, Structural, Clone, Copy, Debug)]
pub struct Document {
    /// Which concrete transform kind the payload encodes.
    pub tag: u64,
    /// Payload of a function-pointer transform: its address offset.
    pub offset: Option<usize>,
    /// Payload of a generic transform: the operation variant's discriminant.
    pub op: Option<u64>,
}

/// The failures this tool can report. Both are unrecoverable: the run
/// that meets one stops with a diagnostic.
#[derive(PartialEq, Eq, Structural, Clone, Copy, Debug)]
pub enum Error {
    /// The storage location is missing, unreadable or unwritable.
    IoError,
    /// A document's tag is unrecognized, or its payload does not have
    /// the shape that its tag calls for.
    SchemaMismatch,
}

/// The dynamic transform container: sole owner of one concrete transform,
/// erased behind the apply-to-buffer capability, with enough type
/// information in its serialized form to rebuild the exact variant.
#[derive(PartialEq, Eq, Structural, Clone, Copy, Debug)]
pub enum RddContainer {
    /// A function-pointer transform (any stored offset).
    FnPtr(FnPtrMapper),
    /// A generic transform wrapping the doubling variant.
    GenMul2(GenericsMapper<Mul2Mapper>),
    /// A generic transform wrapping the scaled-squaring variant.
    GenPow2(GenericsMapper<Pow2Mapper>),
    /// A generic transform wrapping the zeroing variant.
    GenRetZero(GenericsMapper<RetZeroMapper>),
}

/// The document that `RddContainer::serialize` produces for a container.
pub open spec fn serialize_spec(c: RddContainer) -> Document {
    match c {
        RddContainer::FnPtr(m) => Document { tag: TAG_FN_PTR, offset: Some(m.f), op: None },
        RddContainer::GenMul2(_) => Document { tag: TAG_GENERIC, offset: None, op: Some(OP_MUL2) },
        RddContainer::GenPow2(_) => Document { tag: TAG_GENERIC, offset: None, op: Some(OP_POW2) },
        RddContainer::GenRetZero(_) => Document {
            tag: TAG_GENERIC,
            offset: None,
            op: Some(OP_RET_ZERO),
        },
    }
}

/// The container that `RddContainer::deserialize` rebuilds from a
/// document, or the error it reports: `SchemaMismatch` exactly when the
/// tag is unrecognized or the payload does not fit the tag.
pub open spec fn deserialize_spec(d: Document) -> Result<RddContainer, Error> {
    if d.tag == TAG_FN_PTR {
        match d.offset {
            Some(off) => Ok(RddContainer::FnPtr(FnPtrMapper { f: off })),
            None => Err(Error::SchemaMismatch),
        }
    } else if d.tag == TAG_GENERIC {
        match d.op {
            Some(op) => if op == OP_MUL2 {
                Ok(RddContainer::GenMul2(GenericsMapper { mapper: Mul2Mapper() }))
            } else if op == OP_POW2 {
                Ok(RddContainer::GenPow2(GenericsMapper { mapper: Pow2Mapper() }))
            } else if op == OP_RET_ZERO {
                Ok(RddContainer::GenRetZero(GenericsMapper { mapper: RetZeroMapper() }))
            } else {
                Err(Error::SchemaMismatch)
            },
            None => Err(Error::SchemaMismatch),
        }
    } else {
        Err(Error::SchemaMismatch)
    }
}

impl RddContainer {
    /// Whether this container holds the function-pointer transform, whose
    /// per-element behaviour lives behind the reconstruction trust
    /// boundary rather than in this library.
    pub open spec fn is_fn_ptr(&self) -> bool {
        self is FnPtr
    }

    /// The per-element function of the wrapped generic transform.
    /// Meaningful only when `!self.is_fn_ptr()`.
    pub open spec fn gen_elem_spec(&self, x: usize) -> usize {
        match self {
            RddContainer::FnPtr(_) => 0,
            RddContainer::GenMul2(g) => g.elem_spec(x),
            RddContainer::GenPow2(g) => g.elem_spec(x),
            RddContainer::GenRetZero(g) => g.elem_spec(x),
        }
    }

    /// Apply the owned transform to the buffer, delegating to the
    /// concrete transform's own `run`.
    ///
    /// For a function-pointer container the caller supplies the callable
    /// `f` it reconstructed from the stored offset (the trust boundary);
    /// the other containers ignore `f`. Either way the result has the
    /// buffer's length and corresponds to it positionally.
    pub fn run<F: Fn(usize) -> usize>(&self, f: F, v: Vec<usize>) -> (r: Vec<usize>)
        requires
            self.is_fn_ptr() ==> forall|x: usize| #[trigger] call_requires(f, (x,)),
        ensures
            r@.len() == v@.len(),
            self.is_fn_ptr() ==> forall|i: int|
                0 <= i < v@.len() ==> call_ensures(f, (v@[i],), #[trigger] r@[i]),
            !self.is_fn_ptr() ==> forall|i: int|
                0 <= i < v@.len() ==> #[trigger] r@[i] == self.gen_elem_spec(v@[i]),
    {
        match self {
            RddContainer::FnPtr(m) => m.run(f, v),
            RddContainer::GenMul2(g) => g.run(v),
            RddContainer::GenPow2(g) => g.run(v),
            RddContainer::GenRetZero(g) => g.run(v),
        }
    }

    /// Encode the concrete kind and its payload as a tagged document.
    pub fn serialize(&self) -> (r: Document)
        ensures
            r == serialize_spec(*self),
    {
        match self {
            RddContainer::FnPtr(m) => Document { tag: TAG_FN_PTR, offset: Some(m.f), op: None },
            RddContainer::GenMul2(_) => Document {
                tag: TAG_GENERIC,
                offset: None,
                op: Some(OP_MUL2),
            },
            RddContainer::GenPow2(_) => Document {
                tag: TAG_GENERIC,
                offset: None,
                op: Some(OP_POW2),
            },
            RddContainer::GenRetZero(_) => Document {
                tag: TAG_GENERIC,
                offset: None,
                op: Some(OP_RET_ZERO),
            },
        }
    }

    /// Rebuild the exact concrete transform a document encodes.
    ///
    /// Returns `Ok` exactly when the tag is recognized and the payload has
    /// the shape that tag calls for — for the function-pointer tag an
    /// offset, for the generic tag one of the three operation variants'
    /// discriminants — and `SchemaMismatch` otherwise, constructing
    /// nothing in that case.
    pub fn deserialize(d: &Document) -> (r: Result<RddContainer, Error>)
        ensures
            r == deserialize_spec(*d),
    {
        if d.tag == TAG_FN_PTR {
            match d.offset {
                Some(off) => Ok(RddContainer::FnPtr(FnPtrMapper { f: off })),
                None => Err(Error::SchemaMismatch),
            }
        } else if d.tag == TAG_GENERIC {
            match d.op {
                Some(op) => if op == OP_MUL2 {
                    Ok(RddContainer::GenMul2(GenericsMapper { mapper: Mul2Mapper() }))
                } else if op == OP_POW2 {
                    Ok(RddContainer::GenPow2(GenericsMapper { mapper: Pow2Mapper() }))
                } else if op == OP_RET_ZERO {
                    Ok(RddContainer::GenRetZero(GenericsMapper { mapper: RetZeroMapper() }))
                } else {
                    Err(Error::SchemaMismatch)
                },
                None => Err(Error::SchemaMismatch),
            }
        } else {
            Err(Error::SchemaMismatch)
        }
    }
}

/// Serialization round-trips: deserializing the document serialized from
/// any container rebuilds that very container, so the reloaded container's
/// apply-to-buffer behaviour is the original's.
pub proof fn lemma_serialize_round_trip(c: RddContainer)
    ensures
        deserialize_spec(serialize_spec(c)) == Ok::<RddContainer, Error>(c),
{
    match c {
        RddContainer::FnPtr(_) => {},
        RddContainer::GenMul2(g) => {
            assert(g =~= GenericsMapper { mapper: Mul2Mapper() });
        },
        RddContainer::GenPow2(g) => {
            assert(g =~= GenericsMapper { mapper: Pow2Mapper() });
        },
        RddContainer::GenRetZero(g) => {
            assert(g =~= GenericsMapper { mapper: RetZeroMapper() });
        },
    }
}

} // verus!
