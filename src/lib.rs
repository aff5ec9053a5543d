//! Canonical, fully qualified names of types, with the names of their type
//! arguments: `std::vec::Vec<i32>`, `(bool, char)`, `[u8; 4]`, `&mut i32`.
//!
//! Each type names itself through the [`TypeName`] trait. Types with type
//! parameters build their name with [`fmt::TypeFormatter`], which asks each
//! argument for its own name in turn.
use vstd::prelude::*;

pub mod derive;
pub mod emit;
pub mod fmt;
pub mod imp;
pub mod sink;

use crate::sink::{emits, NameSink, WriteError};

verus! {

/// A type that can write its canonical name.
///
/// The name holds the full path to the type and the names of the concrete
/// arguments of its type parameters, as in `std::vec::Vec<i32>`.
pub trait TypeName {
    /// The canonical name of the type.
    spec fn name() -> Seq<char>;

    /// Writes the name to `f`; fails exactly when the sink refuses a write.
    fn fmt(f: &mut NameSink) -> (r: Result<(), WriteError>)
        requires
            old(f).wf(),
        ensures
            emits(*old(f), *final(f), Self::name(), r),
    ;

    /// The canonical name of the type, as a string.
    fn canonical_name() -> (r: String)
        ensures
            r@ == Self::name(),
    {
        let mut f = NameSink::new();
        let _ = Self::fmt(&mut f);
        assert(Seq::<char>::empty() + Self::name() =~= Self::name());
        f.into_string()
    }

    /// The canonical name of the type of `self`.
    fn type_name_of(&self) -> (r: String)
        ensures
            r@ == Self::name(),
    {
        Self::canonical_name()
    }
}

} // verus!
