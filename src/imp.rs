//! Names of the primitive types, references, tuples, arrays, and the
//! common types of `std`.
use vstd::prelude::*;

use crate::fmt::{generic_name, Emitter, TypeFormatter};
use crate::sink::{lemma_emits_extends, NameSink, WriteError};
use crate::TypeName;

verus! {

/// The decimal digit `d`.
pub open spec fn digit_text(d: nat) -> Seq<char> {
    if d == 0 {
        "0"@
    } else if d == 1 {
        "1"@
    } else if d == 2 {
        "2"@
    } else if d == 3 {
        "3"@
    } else if d == 4 {
        "4"@
    } else if d == 5 {
        "5"@
    } else if d == 6 {
        "6"@
    } else if d == 7 {
        "7"@
    } else if d == 8 {
        "8"@
    } else {
        "9"@
    }
}

/// `n` in decimal, without leading zeros.
pub open spec fn decimal(n: nat) -> Seq<char>
    decreases n,
{
    if n < 10 {
        digit_text(n)
    } else {
        decimal(n / 10) + digit_text(n % 10)
    }
}

fn digit_str(d: usize) -> (r: &'static str)
    requires
        d < 10,
    ensures
        r@ == digit_text(d as nat),
{
    if d == 0 {
        "0"
    } else if d == 1 {
        "1"
    } else if d == 2 {
        "2"
    } else if d == 3 {
        "3"
    } else if d == 4 {
        "4"
    } else if d == 5 {
        "5"
    } else if d == 6 {
        "6"
    } else if d == 7 {
        "7"
    } else if d == 8 {
        "8"
    } else {
        "9"
    }
}

fn put_decimal(e: &mut Emitter, f: &mut NameSink, n: usize)
    requires
        old(e).inv(*old(f)),
    ensures
        final(e).inv(*final(f)),
        final(e).start == old(e).start,
        final(e).text@ == old(e).text@ + decimal(n as nat),
    decreases n,
{
    let ghost t0 = e.text@;
    if n >= 10 {
        put_decimal(e, f, n / 10);
    }
    e.put_str(f, digit_str(n % 10));
    proof {
        let d = digit_text((n % 10) as nat);
        if n < 10 {
            assert(n % 10 == n);
            assert(e.text@ =~= t0 + decimal(n as nat));
        } else {
            assert(decimal(n as nat) == decimal((n / 10) as nat) + d);
            assert(e.text@ =~= t0 + decimal(n as nat));
        }
    }
}

/// `std::path::PathBuf`, carried by name only.
#[verifier::external_type_specification]
#[verifier::external_body]
pub struct ExPathBuf(std::path::PathBuf);

/// `std::sync::RwLock`, carried by name only.
#[verifier::external_type_specification]
#[verifier::external_body]
#[verifier::reject_recursive_types(T)]
pub struct ExRwLock<T: ?Sized>(std::sync::RwLock<T>);

/// `std::sync::mpsc::Receiver`, carried by name only.
#[verifier::external_type_specification]
#[verifier::external_body]
#[verifier::reject_recursive_types(T)]
pub struct ExReceiver<T>(std::sync::mpsc::Receiver<T>);

/// `std::sync::mpsc::Sender`, carried by name only.
#[verifier::external_type_specification]
#[verifier::external_body]
#[verifier::reject_recursive_types(T)]
pub struct ExSender<T>(std::sync::mpsc::Sender<T>);

impl TypeName for u8 {
    open spec fn name() -> Seq<char> {
        "u8"@
    }

    fn fmt(f: &mut NameSink) -> (r: Result<(), WriteError>) {
        let mut t = TypeFormatter::new(f, "u8");
        t.finish(f)
    }
}

impl TypeName for u16 {
    open spec fn name() -> Seq<char> {
        "u16"@
    }

    fn fmt(f: &mut NameSink) -> (r: Result<(), WriteError>) {
        let mut t = TypeFormatter::new(f, "u16");
        t.finish(f)
    }
}

impl TypeName for u32 {
    open spec fn name() -> Seq<char> {
        "u32"@
    }

    fn fmt(f: &mut NameSink) -> (r: Result<(), WriteError>) {
        let mut t = TypeFormatter::new(f, "u32");
        t.finish(f)
    }
}

impl TypeName for u64 {
    open spec fn name() -> Seq<char> {
        "u64"@
    }

    fn fmt(f: &mut NameSink) -> (r: Result<(), WriteError>) {
        let mut t = TypeFormatter::new(f, "u64");
        t.finish(f)
    }
}

impl TypeName for usize {
    open spec fn name() -> Seq<char> {
        "usize"@
    }

    fn fmt(f: &mut NameSink) -> (r: Result<(), WriteError>) {
        let mut t = TypeFormatter::new(f, "usize");
        t.finish(f)
    }
}

impl TypeName for i8 {
    open spec fn name() -> Seq<char> {
        "i8"@
    }

    fn fmt(f: &mut NameSink) -> (r: Result<(), WriteError>) {
        let mut t = TypeFormatter::new(f, "i8");
        t.finish(f)
    }
}

impl TypeName for i16 {
    open spec fn name() -> Seq<char> {
        "i16"@
    }

    fn fmt(f: &mut NameSink) -> (r: Result<(), WriteError>) {
        let mut t = TypeFormatter::new(f, "i16");
        t.finish(f)
    }
}

impl TypeName for i32 {
    open spec fn name() -> Seq<char> {
        "i32"@
    }

    fn fmt(f: &mut NameSink) -> (r: Result<(), WriteError>) {
        let mut t = TypeFormatter::new(f, "i32");
        t.finish(f)
    }
}

impl TypeName for i64 {
    open spec fn name() -> Seq<char> {
        "i64"@
    }

    fn fmt(f: &mut NameSink) -> (r: Result<(), WriteError>) {
        let mut t = TypeFormatter::new(f, "i64");
        t.finish(f)
    }
}

impl TypeName for isize {
    open spec fn name() -> Seq<char> {
        "isize"@
    }

    fn fmt(f: &mut NameSink) -> (r: Result<(), WriteError>) {
        let mut t = TypeFormatter::new(f, "isize");
        t.finish(f)
    }
}

impl TypeName for char {
    open spec fn name() -> Seq<char> {
        "char"@
    }

    fn fmt(f: &mut NameSink) -> (r: Result<(), WriteError>) {
        let mut t = TypeFormatter::new(f, "char");
        t.finish(f)
    }
}

impl TypeName for bool {
    open spec fn name() -> Seq<char> {
        "bool"@
    }

    fn fmt(f: &mut NameSink) -> (r: Result<(), WriteError>) {
        let mut t = TypeFormatter::new(f, "bool");
        t.finish(f)
    }
}

impl TypeName for str {
    open spec fn name() -> Seq<char> {
        "str"@
    }

    fn fmt(f: &mut NameSink) -> (r: Result<(), WriteError>) {
        let mut t = TypeFormatter::new(f, "str");
        t.finish(f)
    }
}

impl<'a, T: TypeName> TypeName for &'a T {
    open spec fn name() -> Seq<char> {
        "&"@ + T::name()
    }

    /// A refused `"&"` leaves the sink as it was; an accepted one stays
    /// in place, whatever becomes of the target's name.
    fn fmt(f: &mut NameSink) -> (r: Result<(), WriteError>)
        ensures
            !old(f).accepts("&"@.len()) ==> *final(f) == *old(f),
            old(f).accepts("&"@.len()) ==> (old(f)@ + "&"@).is_prefix_of(final(f)@),
    {
        let mut e = Emitter::new(f);
        e.put_str(f, "&");
        let ghost f1 = *f;
        e.put_type::<T>(f);
        proof {
            if old(f).accepts("&"@.len()) {
                lemma_emits_extends(f1, *f, T::name(), e.result);
            }
        }
        assert(e.text@ =~= Self::name());
        e.result
    }
}

impl<'a, T: TypeName> TypeName for &'a mut T {
    open spec fn name() -> Seq<char> {
        "&mut "@ + T::name()
    }

    /// A refused `"&mut "` leaves the sink as it was; an accepted one stays
    /// in place, whatever becomes of the target's name.
    fn fmt(f: &mut NameSink) -> (r: Result<(), WriteError>)
        ensures
            !old(f).accepts("&mut "@.len()) ==> *final(f) == *old(f),
            old(f).accepts("&mut "@.len()) ==> (old(f)@ + "&mut "@).is_prefix_of(final(f)@),
    {
        let mut e = Emitter::new(f);
        e.put_str(f, "&mut ");
        let ghost f1 = *f;
        e.put_type::<T>(f);
        proof {
            if old(f).accepts("&mut "@.len()) {
                lemma_emits_extends(f1, *f, T::name(), e.result);
            }
        }
        assert(e.text@ =~= Self::name());
        e.result
    }
}

impl TypeName for String {
    open spec fn name() -> Seq<char> {
        generic_name("std::string::String"@, Seq::<Seq<char>>::empty())
    }

    fn fmt(f: &mut NameSink) -> (r: Result<(), WriteError>) {
        let mut t = TypeFormatter::new(f, "std::string::String");
        t.finish(f)
    }
}

impl<T: TypeName> TypeName for std::marker::PhantomData<T> {
    open spec fn name() -> Seq<char> {
        generic_name("std::marker::PhantomData"@, seq![T::name()])
    }

    fn fmt(f: &mut NameSink) -> (r: Result<(), WriteError>) {
        let mut t = TypeFormatter::new(f, "std::marker::PhantomData");
        t.type_param::<T>(f);
        assert(t.params() =~= seq![T::name()]);
        t.finish(f)
    }
}

impl<T: TypeName> TypeName for Vec<T> {
    open spec fn name() -> Seq<char> {
        generic_name("std::vec::Vec"@, seq![T::name()])
    }

    fn fmt(f: &mut NameSink) -> (r: Result<(), WriteError>) {
        let mut t = TypeFormatter::new(f, "std::vec::Vec");
        t.type_param::<T>(f);
        assert(t.params() =~= seq![T::name()]);
        t.finish(f)
    }
}

impl<K: TypeName, V: TypeName> TypeName for std::collections::HashMap<K, V> {
    open spec fn name() -> Seq<char> {
        generic_name("std::collections::HashMap"@, seq![K::name(), V::name()])
    }

    fn fmt(f: &mut NameSink) -> (r: Result<(), WriteError>) {
        let mut t = TypeFormatter::new(f, "std::collections::HashMap");
        t.type_param::<K>(f);
        t.type_param::<V>(f);
        assert(t.params() =~= seq![K::name(), V::name()]);
        t.finish(f)
    }
}

impl<T: TypeName> TypeName for Box<T> {
    open spec fn name() -> Seq<char> {
        generic_name("std::boxed::Box"@, seq![T::name()])
    }

    fn fmt(f: &mut NameSink) -> (r: Result<(), WriteError>) {
        let mut t = TypeFormatter::new(f, "std::boxed::Box");
        t.type_param::<T>(f);
        assert(t.params() =~= seq![T::name()]);
        t.finish(f)
    }
}

impl<T: TypeName> TypeName for Option<T> {
    open spec fn name() -> Seq<char> {
        generic_name("std::option::Option"@, seq![T::name()])
    }

    fn fmt(f: &mut NameSink) -> (r: Result<(), WriteError>) {
        let mut t = TypeFormatter::new(f, "std::option::Option");
        t.type_param::<T>(f);
        assert(t.params() =~= seq![T::name()]);
        t.finish(f)
    }
}

impl<T: TypeName, E: TypeName> TypeName for Result<T, E> {
    open spec fn name() -> Seq<char> {
        generic_name("std::result::Result"@, seq![T::name(), E::name()])
    }

    fn fmt(f: &mut NameSink) -> (r: Result<(), WriteError>) {
        let mut t = TypeFormatter::new(f, "std::result::Result");
        t.type_param::<T>(f);
        t.type_param::<E>(f);
        assert(t.params() =~= seq![T::name(), E::name()]);
        t.finish(f)
    }
}

impl<T: TypeName> TypeName for std::rc::Rc<T> {
    open spec fn name() -> Seq<char> {
        generic_name("std::rc::Rc"@, seq![T::name()])
    }

    fn fmt(f: &mut NameSink) -> (r: Result<(), WriteError>) {
        let mut t = TypeFormatter::new(f, "std::rc::Rc");
        t.type_param::<T>(f);
        assert(t.params() =~= seq![T::name()]);
        t.finish(f)
    }
}

impl<T: TypeName> TypeName for std::sync::Arc<T> {
    open spec fn name() -> Seq<char> {
        generic_name("std::sync::Arc"@, seq![T::name()])
    }

    fn fmt(f: &mut NameSink) -> (r: Result<(), WriteError>) {
        let mut t = TypeFormatter::new(f, "std::sync::Arc");
        t.type_param::<T>(f);
        assert(t.params() =~= seq![T::name()]);
        t.finish(f)
    }
}

impl TypeName for std::path::PathBuf {
    open spec fn name() -> Seq<char> {
        generic_name("std::path::PathBuf"@, Seq::<Seq<char>>::empty())
    }

    fn fmt(f: &mut NameSink) -> (r: Result<(), WriteError>) {
        let mut t = TypeFormatter::new(f, "std::path::PathBuf");
        t.finish(f)
    }
}

impl<T: TypeName> TypeName for std::sync::RwLock<T> {
    open spec fn name() -> Seq<char> {
        generic_name("std::sync::RwLock"@, seq![T::name()])
    }

    fn fmt(f: &mut NameSink) -> (r: Result<(), WriteError>) {
        let mut t = TypeFormatter::new(f, "std::sync::RwLock");
        t.type_param::<T>(f);
        assert(t.params() =~= seq![T::name()]);
        t.finish(f)
    }
}

impl<T: TypeName> TypeName for std::sync::mpsc::Receiver<T> {
    open spec fn name() -> Seq<char> {
        generic_name("std::sync::mpsc::Receiver"@, seq![T::name()])
    }

    fn fmt(f: &mut NameSink) -> (r: Result<(), WriteError>) {
        let mut t = TypeFormatter::new(f, "std::sync::mpsc::Receiver");
        t.type_param::<T>(f);
        assert(t.params() =~= seq![T::name()]);
        t.finish(f)
    }
}

impl<T: TypeName> TypeName for std::sync::mpsc::Sender<T> {
    open spec fn name() -> Seq<char> {
        generic_name("std::sync::mpsc::Sender"@, seq![T::name()])
    }

    fn fmt(f: &mut NameSink) -> (r: Result<(), WriteError>) {
        let mut t = TypeFormatter::new(f, "std::sync::mpsc::Sender");
        t.type_param::<T>(f);
        assert(t.params() =~= seq![T::name()]);
        t.finish(f)
    }
}

impl TypeName for () {
    open spec fn name() -> Seq<char> {
        "()"@
    }

    fn fmt(f: &mut NameSink) -> (r: Result<(), WriteError>)
        ensures
            r is Err ==> *final(f) == *old(f),
    {
        f.write_str("()")
    }
}

impl<A: TypeName> TypeName for (A,) {
    open spec fn name() -> Seq<char> {
        "("@ + A::name() + ",)"@
    }

    fn fmt(f: &mut NameSink) -> (r: Result<(), WriteError>) {
        let mut e = Emitter::new(f);
        e.put_str(f, "(");
        e.put_type::<A>(f);
        e.put_str(f, ",)");
        assert(e.text@ =~= Self::name());
        e.result
    }
}

impl<A: TypeName, B: TypeName> TypeName for (A, B) {
    open spec fn name() -> Seq<char> {
        "("@ + A::name() + ", "@ + B::name() + ")"@
    }

    fn fmt(f: &mut NameSink) -> (r: Result<(), WriteError>) {
        let mut e = Emitter::new(f);
        e.put_str(f, "(");
        e.put_type::<A>(f);
        e.put_str(f, ", ");
        e.put_type::<B>(f);
        e.put_str(f, ")");
        assert(e.text@ =~= Self::name());
        e.result
    }
}

impl<A: TypeName, B: TypeName, C: TypeName> TypeName for (A, B, C) {
    open spec fn name() -> Seq<char> {
        "("@ + A::name() + ", "@ + B::name() + ", "@ + C::name() + ")"@
    }

    fn fmt(f: &mut NameSink) -> (r: Result<(), WriteError>) {
        let mut e = Emitter::new(f);
        e.put_str(f, "(");
        e.put_type::<A>(f);
        e.put_str(f, ", ");
        e.put_type::<B>(f);
        e.put_str(f, ", ");
        e.put_type::<C>(f);
        e.put_str(f, ")");
        assert(e.text@ =~= Self::name());
        e.result
    }
}

impl<A: TypeName, B: TypeName, C: TypeName, D: TypeName> TypeName for (A, B, C, D) {
    open spec fn name() -> Seq<char> {
        "("@ + A::name() + ", "@ + B::name() + ", "@ + C::name() + ", "@ + D::name() + ")"@
    }

    fn fmt(f: &mut NameSink) -> (r: Result<(), WriteError>) {
        let mut e = Emitter::new(f);
        e.put_str(f, "(");
        e.put_type::<A>(f);
        e.put_str(f, ", ");
        e.put_type::<B>(f);
        e.put_str(f, ", ");
        e.put_type::<C>(f);
        e.put_str(f, ", ");
        e.put_type::<D>(f);
        e.put_str(f, ")");
        assert(e.text@ =~= Self::name());
        e.result
    }
}

impl<A: TypeName, B: TypeName, C: TypeName, D: TypeName, E: TypeName> TypeName for (A, B, C, D, E) {
    open spec fn name() -> Seq<char> {
        "("@ + A::name() + ", "@ + B::name() + ", "@ + C::name() + ", "@ + D::name() + ", "@ + E::name() + ")"@
    }

    fn fmt(f: &mut NameSink) -> (r: Result<(), WriteError>) {
        let mut e = Emitter::new(f);
        e.put_str(f, "(");
        e.put_type::<A>(f);
        e.put_str(f, ", ");
        e.put_type::<B>(f);
        e.put_str(f, ", ");
        e.put_type::<C>(f);
        e.put_str(f, ", ");
        e.put_type::<D>(f);
        e.put_str(f, ", ");
        e.put_type::<E>(f);
        e.put_str(f, ")");
        assert(e.text@ =~= Self::name());
        e.result
    }
}

impl<A: TypeName, B: TypeName, C: TypeName, D: TypeName, E: TypeName, F: TypeName> TypeName for (A, B, C, D, E, F) {
    open spec fn name() -> Seq<char> {
        "("@ + A::name() + ", "@ + B::name() + ", "@ + C::name() + ", "@ + D::name() + ", "@ + E::name() + ", "@ + F::name() + ")"@
    }

    fn fmt(f: &mut NameSink) -> (r: Result<(), WriteError>) {
        let mut e = Emitter::new(f);
        e.put_str(f, "(");
        e.put_type::<A>(f);
        e.put_str(f, ", ");
        e.put_type::<B>(f);
        e.put_str(f, ", ");
        e.put_type::<C>(f);
        e.put_str(f, ", ");
        e.put_type::<D>(f);
        e.put_str(f, ", ");
        e.put_type::<E>(f);
        e.put_str(f, ", ");
        e.put_type::<F>(f);
        e.put_str(f, ")");
        assert(e.text@ =~= Self::name());
        e.result
    }
}

impl<A: TypeName, B: TypeName, C: TypeName, D: TypeName, E: TypeName, F: TypeName, G: TypeName> TypeName for (A, B, C, D, E, F, G) {
    open spec fn name() -> Seq<char> {
        "("@ + A::name() + ", "@ + B::name() + ", "@ + C::name() + ", "@ + D::name() + ", "@ + E::name() + ", "@ + F::name() + ", "@ + G::name() + ")"@
    }

    fn fmt(f: &mut NameSink) -> (r: Result<(), WriteError>) {
        let mut e = Emitter::new(f);
        e.put_str(f, "(");
        e.put_type::<A>(f);
        e.put_str(f, ", ");
        e.put_type::<B>(f);
        e.put_str(f, ", ");
        e.put_type::<C>(f);
        e.put_str(f, ", ");
        e.put_type::<D>(f);
        e.put_str(f, ", ");
        e.put_type::<E>(f);
        e.put_str(f, ", ");
        e.put_type::<F>(f);
        e.put_str(f, ", ");
        e.put_type::<G>(f);
        e.put_str(f, ")");
        assert(e.text@ =~= Self::name());
        e.result
    }
}

impl<A: TypeName, B: TypeName, C: TypeName, D: TypeName, E: TypeName, F: TypeName, G: TypeName, H: TypeName> TypeName for (A, B, C, D, E, F, G, H) {
    open spec fn name() -> Seq<char> {
        "("@ + A::name() + ", "@ + B::name() + ", "@ + C::name() + ", "@ + D::name() + ", "@ + E::name() + ", "@ + F::name() + ", "@ + G::name() + ", "@ + H::name() + ")"@
    }

    fn fmt(f: &mut NameSink) -> (r: Result<(), WriteError>) {
        let mut e = Emitter::new(f);
        e.put_str(f, "(");
        e.put_type::<A>(f);
        e.put_str(f, ", ");
        e.put_type::<B>(f);
        e.put_str(f, ", ");
        e.put_type::<C>(f);
        e.put_str(f, ", ");
        e.put_type::<D>(f);
        e.put_str(f, ", ");
        e.put_type::<E>(f);
        e.put_str(f, ", ");
        e.put_type::<F>(f);
        e.put_str(f, ", ");
        e.put_type::<G>(f);
        e.put_str(f, ", ");
        e.put_type::<H>(f);
        e.put_str(f, ")");
        assert(e.text@ =~= Self::name());
        e.result
    }
}

impl<A: TypeName, B: TypeName, C: TypeName, D: TypeName, E: TypeName, F: TypeName, G: TypeName, H: TypeName, I: TypeName> TypeName for (A, B, C, D, E, F, G, H, I) {
    open spec fn name() -> Seq<char> {
        "("@ + A::name() + ", "@ + B::name() + ", "@ + C::name() + ", "@ + D::name() + ", "@ + E::name() + ", "@ + F::name() + ", "@ + G::name() + ", "@ + H::name() + ", "@ + I::name() + ")"@
    }

    fn fmt(f: &mut NameSink) -> (r: Result<(), WriteError>) {
        let mut e = Emitter::new(f);
        e.put_str(f, "(");
        e.put_type::<A>(f);
        e.put_str(f, ", ");
        e.put_type::<B>(f);
        e.put_str(f, ", ");
        e.put_type::<C>(f);
        e.put_str(f, ", ");
        e.put_type::<D>(f);
        e.put_str(f, ", ");
        e.put_type::<E>(f);
        e.put_str(f, ", ");
        e.put_type::<F>(f);
        e.put_str(f, ", ");
        e.put_type::<G>(f);
        e.put_str(f, ", ");
        e.put_type::<H>(f);
        e.put_str(f, ", ");
        e.put_type::<I>(f);
        e.put_str(f, ")");
        assert(e.text@ =~= Self::name());
        e.result
    }
}

impl<A: TypeName, B: TypeName, C: TypeName, D: TypeName, E: TypeName, F: TypeName, G: TypeName, H: TypeName, I: TypeName, J: TypeName> TypeName for (A, B, C, D, E, F, G, H, I, J) {
    open spec fn name() -> Seq<char> {
        "("@ + A::name() + ", "@ + B::name() + ", "@ + C::name() + ", "@ + D::name() + ", "@ + E::name() + ", "@ + F::name() + ", "@ + G::name() + ", "@ + H::name() + ", "@ + I::name() + ", "@ + J::name() + ")"@
    }

    fn fmt(f: &mut NameSink) -> (r: Result<(), WriteError>) {
        let mut e = Emitter::new(f);
        e.put_str(f, "(");
        e.put_type::<A>(f);
        e.put_str(f, ", ");
        e.put_type::<B>(f);
        e.put_str(f, ", ");
        e.put_type::<C>(f);
        e.put_str(f, ", ");
        e.put_type::<D>(f);
        e.put_str(f, ", ");
        e.put_type::<E>(f);
        e.put_str(f, ", ");
        e.put_type::<F>(f);
        e.put_str(f, ", ");
        e.put_type::<G>(f);
        e.put_str(f, ", ");
        e.put_type::<H>(f);
        e.put_str(f, ", ");
        e.put_type::<I>(f);
        e.put_str(f, ", ");
        e.put_type::<J>(f);
        e.put_str(f, ")");
        assert(e.text@ =~= Self::name());
        e.result
    }
}

impl<A: TypeName, B: TypeName, C: TypeName, D: TypeName, E: TypeName, F: TypeName, G: TypeName, H: TypeName, I: TypeName, J: TypeName, K: TypeName> TypeName for (A, B, C, D, E, F, G, H, I, J, K) {
    open spec fn name() -> Seq<char> {
        "("@ + A::name() + ", "@ + B::name() + ", "@ + C::name() + ", "@ + D::name() + ", "@ + E::name() + ", "@ + F::name() + ", "@ + G::name() + ", "@ + H::name() + ", "@ + I::name() + ", "@ + J::name() + ", "@ + K::name() + ")"@
    }

    fn fmt(f: &mut NameSink) -> (r: Result<(), WriteError>) {
        let mut e = Emitter::new(f);
        e.put_str(f, "(");
        e.put_type::<A>(f);
        e.put_str(f, ", ");
        e.put_type::<B>(f);
        e.put_str(f, ", ");
        e.put_type::<C>(f);
        e.put_str(f, ", ");
        e.put_type::<D>(f);
        e.put_str(f, ", ");
        e.put_type::<E>(f);
        e.put_str(f, ", ");
        e.put_type::<F>(f);
        e.put_str(f, ", ");
        e.put_type::<G>(f);
        e.put_str(f, ", ");
        e.put_type::<H>(f);
        e.put_str(f, ", ");
        e.put_type::<I>(f);
        e.put_str(f, ", ");
        e.put_type::<J>(f);
        e.put_str(f, ", ");
        e.put_type::<K>(f);
        e.put_str(f, ")");
        assert(e.text@ =~= Self::name());
        e.result
    }
}

impl<A: TypeName, B: TypeName, C: TypeName, D: TypeName, E: TypeName, F: TypeName, G: TypeName, H: TypeName, I: TypeName, J: TypeName, K: TypeName, L: TypeName> TypeName for (A, B, C, D, E, F, G, H, I, J, K, L) {
    open spec fn name() -> Seq<char> {
        "("@ + A::name() + ", "@ + B::name() + ", "@ + C::name() + ", "@ + D::name() + ", "@ + E::name() + ", "@ + F::name() + ", "@ + G::name() + ", "@ + H::name() + ", "@ + I::name() + ", "@ + J::name() + ", "@ + K::name() + ", "@ + L::name() + ")"@
    }

    fn fmt(f: &mut NameSink) -> (r: Result<(), WriteError>) {
        let mut e = Emitter::new(f);
        e.put_str(f, "(");
        e.put_type::<A>(f);
        e.put_str(f, ", ");
        e.put_type::<B>(f);
        e.put_str(f, ", ");
        e.put_type::<C>(f);
        e.put_str(f, ", ");
        e.put_type::<D>(f);
        e.put_str(f, ", ");
        e.put_type::<E>(f);
        e.put_str(f, ", ");
        e.put_type::<F>(f);
        e.put_str(f, ", ");
        e.put_type::<G>(f);
        e.put_str(f, ", ");
        e.put_type::<H>(f);
        e.put_str(f, ", ");
        e.put_type::<I>(f);
        e.put_str(f, ", ");
        e.put_type::<J>(f);
        e.put_str(f, ", ");
        e.put_type::<K>(f);
        e.put_str(f, ", ");
        e.put_type::<L>(f);
        e.put_str(f, ")");
        assert(e.text@ =~= Self::name());
        e.result
    }
}

impl<A: TypeName, B: TypeName, C: TypeName, D: TypeName, E: TypeName, F: TypeName, G: TypeName, H: TypeName, I: TypeName, J: TypeName, K: TypeName, L: TypeName, M: TypeName> TypeName for (A, B, C, D, E, F, G, H, I, J, K, L, M) {
    open spec fn name() -> Seq<char> {
        "("@ + A::name() + ", "@ + B::name() + ", "@ + C::name() + ", "@ + D::name() + ", "@ + E::name() + ", "@ + F::name() + ", "@ + G::name() + ", "@ + H::name() + ", "@ + I::name() + ", "@ + J::name() + ", "@ + K::name() + ", "@ + L::name() + ", "@ + M::name() + ")"@
    }

    fn fmt(f: &mut NameSink) -> (r: Result<(), WriteError>) {
        let mut e = Emitter::new(f);
        e.put_str(f, "(");
        e.put_type::<A>(f);
        e.put_str(f, ", ");
        e.put_type::<B>(f);
        e.put_str(f, ", ");
        e.put_type::<C>(f);
        e.put_str(f, ", ");
        e.put_type::<D>(f);
        e.put_str(f, ", ");
        e.put_type::<E>(f);
        e.put_str(f, ", ");
        e.put_type::<F>(f);
        e.put_str(f, ", ");
        e.put_type::<G>(f);
        e.put_str(f, ", ");
        e.put_type::<H>(f);
        e.put_str(f, ", ");
        e.put_type::<I>(f);
        e.put_str(f, ", ");
        e.put_type::<J>(f);
        e.put_str(f, ", ");
        e.put_type::<K>(f);
        e.put_str(f, ", ");
        e.put_type::<L>(f);
        e.put_str(f, ", ");
        e.put_type::<M>(f);
        e.put_str(f, ")");
        assert(e.text@ =~= Self::name());
        e.result
    }
}

impl<A: TypeName, B: TypeName, C: TypeName, D: TypeName, E: TypeName, F: TypeName, G: TypeName, H: TypeName, I: TypeName, J: TypeName, K: TypeName, L: TypeName, M: TypeName, N: TypeName> TypeName for (A, B, C, D, E, F, G, H, I, J, K, L, M, N) {
    open spec fn name() -> Seq<char> {
        "("@ + A::name() + ", "@ + B::name() + ", "@ + C::name() + ", "@ + D::name() + ", "@ + E::name() + ", "@ + F::name() + ", "@ + G::name() + ", "@ + H::name() + ", "@ + I::name() + ", "@ + J::name() + ", "@ + K::name() + ", "@ + L::name() + ", "@ + M::name() + ", "@ + N::name() + ")"@
    }

    fn fmt(f: &mut NameSink) -> (r: Result<(), WriteError>) {
        let mut e = Emitter::new(f);
        e.put_str(f, "(");
        e.put_type::<A>(f);
        e.put_str(f, ", ");
        e.put_type::<B>(f);
        e.put_str(f, ", ");
        e.put_type::<C>(f);
        e.put_str(f, ", ");
        e.put_type::<D>(f);
        e.put_str(f, ", ");
        e.put_type::<E>(f);
        e.put_str(f, ", ");
        e.put_type::<F>(f);
        e.put_str(f, ", ");
        e.put_type::<G>(f);
        e.put_str(f, ", ");
        e.put_type::<H>(f);
        e.put_str(f, ", ");
        e.put_type::<I>(f);
        e.put_str(f, ", ");
        e.put_type::<J>(f);
        e.put_str(f, ", ");
        e.put_type::<K>(f);
        e.put_str(f, ", ");
        e.put_type::<L>(f);
        e.put_str(f, ", ");
        e.put_type::<M>(f);
        e.put_str(f, ", ");
        e.put_type::<N>(f);
        e.put_str(f, ")");
        assert(e.text@ =~= Self::name());
        e.result
    }
}

impl<A: TypeName, B: TypeName, C: TypeName, D: TypeName, E: TypeName, F: TypeName, G: TypeName, H: TypeName, I: TypeName, J: TypeName, K: TypeName, L: TypeName, M: TypeName, N: TypeName, O: TypeName> TypeName for (A, B, C, D, E, F, G, H, I, J, K, L, M, N, O) {
    open spec fn name() -> Seq<char> {
        "("@ + A::name() + ", "@ + B::name() + ", "@ + C::name() + ", "@ + D::name() + ", "@ + E::name() + ", "@ + F::name() + ", "@ + G::name() + ", "@ + H::name() + ", "@ + I::name() + ", "@ + J::name() + ", "@ + K::name() + ", "@ + L::name() + ", "@ + M::name() + ", "@ + N::name() + ", "@ + O::name() + ")"@
    }

    fn fmt(f: &mut NameSink) -> (r: Result<(), WriteError>) {
        let mut e = Emitter::new(f);
        e.put_str(f, "(");
        e.put_type::<A>(f);
        e.put_str(f, ", ");
        e.put_type::<B>(f);
        e.put_str(f, ", ");
        e.put_type::<C>(f);
        e.put_str(f, ", ");
        e.put_type::<D>(f);
        e.put_str(f, ", ");
        e.put_type::<E>(f);
        e.put_str(f, ", ");
        e.put_type::<F>(f);
        e.put_str(f, ", ");
        e.put_type::<G>(f);
        e.put_str(f, ", ");
        e.put_type::<H>(f);
        e.put_str(f, ", ");
        e.put_type::<I>(f);
        e.put_str(f, ", ");
        e.put_type::<J>(f);
        e.put_str(f, ", ");
        e.put_type::<K>(f);
        e.put_str(f, ", ");
        e.put_type::<L>(f);
        e.put_str(f, ", ");
        e.put_type::<M>(f);
        e.put_str(f, ", ");
        e.put_type::<N>(f);
        e.put_str(f, ", ");
        e.put_type::<O>(f);
        e.put_str(f, ")");
        assert(e.text@ =~= Self::name());
        e.result
    }
}

impl<A: TypeName, B: TypeName, C: TypeName, D: TypeName, E: TypeName, F: TypeName, G: TypeName, H: TypeName, I: TypeName, J: TypeName, K: TypeName, L: TypeName, M: TypeName, N: TypeName, O: TypeName, P: TypeName> TypeName for (A, B, C, D, E, F, G, H, I, J, K, L, M, N, O, P) {
    open spec fn name() -> Seq<char> {
        "("@ + A::name() + ", "@ + B::name() + ", "@ + C::name() + ", "@ + D::name() + ", "@ + E::name() + ", "@ + F::name() + ", "@ + G::name() + ", "@ + H::name() + ", "@ + I::name() + ", "@ + J::name() + ", "@ + K::name() + ", "@ + L::name() + ", "@ + M::name() + ", "@ + N::name() + ", "@ + O::name() + ", "@ + P::name() + ")"@
    }

    fn fmt(f: &mut NameSink) -> (r: Result<(), WriteError>) {
        let mut e = Emitter::new(f);
        e.put_str(f, "(");
        e.put_type::<A>(f);
        e.put_str(f, ", ");
        e.put_type::<B>(f);
        e.put_str(f, ", ");
        e.put_type::<C>(f);
        e.put_str(f, ", ");
        e.put_type::<D>(f);
        e.put_str(f, ", ");
        e.put_type::<E>(f);
        e.put_str(f, ", ");
        e.put_type::<F>(f);
        e.put_str(f, ", ");
        e.put_type::<G>(f);
        e.put_str(f, ", ");
        e.put_type::<H>(f);
        e.put_str(f, ", ");
        e.put_type::<I>(f);
        e.put_str(f, ", ");
        e.put_type::<J>(f);
        e.put_str(f, ", ");
        e.put_type::<K>(f);
        e.put_str(f, ", ");
        e.put_type::<L>(f);
        e.put_str(f, ", ");
        e.put_type::<M>(f);
        e.put_str(f, ", ");
        e.put_type::<N>(f);
        e.put_str(f, ", ");
        e.put_type::<O>(f);
        e.put_str(f, ", ");
        e.put_type::<P>(f);
        e.put_str(f, ")");
        assert(e.text@ =~= Self::name());
        e.result
    }
}

impl<A: TypeName, B: TypeName, C: TypeName, D: TypeName, E: TypeName, F: TypeName, G: TypeName, H: TypeName, I: TypeName, J: TypeName, K: TypeName, L: TypeName, M: TypeName, N: TypeName, O: TypeName, P: TypeName, Q: TypeName> TypeName for (A, B, C, D, E, F, G, H, I, J, K, L, M, N, O, P, Q) {
    open spec fn name() -> Seq<char> {
        "("@ + A::name() + ", "@ + B::name() + ", "@ + C::name() + ", "@ + D::name() + ", "@ + E::name() + ", "@ + F::name() + ", "@ + G::name() + ", "@ + H::name() + ", "@ + I::name() + ", "@ + J::name() + ", "@ + K::name() + ", "@ + L::name() + ", "@ + M::name() + ", "@ + N::name() + ", "@ + O::name() + ", "@ + P::name() + ", "@ + Q::name() + ")"@
    }

    fn fmt(f: &mut NameSink) -> (r: Result<(), WriteError>) {
        let mut e = Emitter::new(f);
        e.put_str(f, "(");
        e.put_type::<A>(f);
        e.put_str(f, ", ");
        e.put_type::<B>(f);
        e.put_str(f, ", ");
        e.put_type::<C>(f);
        e.put_str(f, ", ");
        e.put_type::<D>(f);
        e.put_str(f, ", ");
        e.put_type::<E>(f);
        e.put_str(f, ", ");
        e.put_type::<F>(f);
        e.put_str(f, ", ");
        e.put_type::<G>(f);
        e.put_str(f, ", ");
        e.put_type::<H>(f);
        e.put_str(f, ", ");
        e.put_type::<I>(f);
        e.put_str(f, ", ");
        e.put_type::<J>(f);
        e.put_str(f, ", ");
        e.put_type::<K>(f);
        e.put_str(f, ", ");
        e.put_type::<L>(f);
        e.put_str(f, ", ");
        e.put_type::<M>(f);
        e.put_str(f, ", ");
        e.put_type::<N>(f);
        e.put_str(f, ", ");
        e.put_type::<O>(f);
        e.put_str(f, ", ");
        e.put_type::<P>(f);
        e.put_str(f, ", ");
        e.put_type::<Q>(f);
        e.put_str(f, ")");
        assert(e.text@ =~= Self::name());
        e.result
    }
}

impl<A: TypeName, B: TypeName, C: TypeName, D: TypeName, E: TypeName, F: TypeName, G: TypeName, H: TypeName, I: TypeName, J: TypeName, K: TypeName, L: TypeName, M: TypeName, N: TypeName, O: TypeName, P: TypeName, Q: TypeName, R: TypeName> TypeName for (A, B, C, D, E, F, G, H, I, J, K, L, M, N, O, P, Q, R) {
    open spec fn name() -> Seq<char> {
        "("@ + A::name() + ", "@ + B::name() + ", "@ + C::name() + ", "@ + D::name() + ", "@ + E::name() + ", "@ + F::name() + ", "@ + G::name() + ", "@ + H::name() + ", "@ + I::name() + ", "@ + J::name() + ", "@ + K::name() + ", "@ + L::name() + ", "@ + M::name() + ", "@ + N::name() + ", "@ + O::name() + ", "@ + P::name() + ", "@ + Q::name() + ", "@ + R::name() + ")"@
    }

    fn fmt(f: &mut NameSink) -> (r: Result<(), WriteError>) {
        let mut e = Emitter::new(f);
        e.put_str(f, "(");
        e.put_type::<A>(f);
        e.put_str(f, ", ");
        e.put_type::<B>(f);
        e.put_str(f, ", ");
        e.put_type::<C>(f);
        e.put_str(f, ", ");
        e.put_type::<D>(f);
        e.put_str(f, ", ");
        e.put_type::<E>(f);
        e.put_str(f, ", ");
        e.put_type::<F>(f);
        e.put_str(f, ", ");
        e.put_type::<G>(f);
        e.put_str(f, ", ");
        e.put_type::<H>(f);
        e.put_str(f, ", ");
        e.put_type::<I>(f);
        e.put_str(f, ", ");
        e.put_type::<J>(f);
        e.put_str(f, ", ");
        e.put_type::<K>(f);
        e.put_str(f, ", ");
        e.put_type::<L>(f);
        e.put_str(f, ", ");
        e.put_type::<M>(f);
        e.put_str(f, ", ");
        e.put_type::<N>(f);
        e.put_str(f, ", ");
        e.put_type::<O>(f);
        e.put_str(f, ", ");
        e.put_type::<P>(f);
        e.put_str(f, ", ");
        e.put_type::<Q>(f);
        e.put_str(f, ", ");
        e.put_type::<R>(f);
        e.put_str(f, ")");
        assert(e.text@ =~= Self::name());
        e.result
    }
}

impl<A: TypeName, B: TypeName, C: TypeName, D: TypeName, E: TypeName, F: TypeName, G: TypeName, H: TypeName, I: TypeName, J: TypeName, K: TypeName, L: TypeName, M: TypeName, N: TypeName, O: TypeName, P: TypeName, Q: TypeName, R: TypeName, S: TypeName> TypeName for (A, B, C, D, E, F, G, H, I, J, K, L, M, N, O, P, Q, R, S) {
    open spec fn name() -> Seq<char> {
        "("@ + A::name() + ", "@ + B::name() + ", "@ + C::name() + ", "@ + D::name() + ", "@ + E::name() + ", "@ + F::name() + ", "@ + G::name() + ", "@ + H::name() + ", "@ + I::name() + ", "@ + J::name() + ", "@ + K::name() + ", "@ + L::name() + ", "@ + M::name() + ", "@ + N::name() + ", "@ + O::name() + ", "@ + P::name() + ", "@ + Q::name() + ", "@ + R::name() + ", "@ + S::name() + ")"@
    }

    fn fmt(f: &mut NameSink) -> (r: Result<(), WriteError>) {
        let mut e = Emitter::new(f);
        e.put_str(f, "(");
        e.put_type::<A>(f);
        e.put_str(f, ", ");
        e.put_type::<B>(f);
        e.put_str(f, ", ");
        e.put_type::<C>(f);
        e.put_str(f, ", ");
        e.put_type::<D>(f);
        e.put_str(f, ", ");
        e.put_type::<E>(f);
        e.put_str(f, ", ");
        e.put_type::<F>(f);
        e.put_str(f, ", ");
        e.put_type::<G>(f);
        e.put_str(f, ", ");
        e.put_type::<H>(f);
        e.put_str(f, ", ");
        e.put_type::<I>(f);
        e.put_str(f, ", ");
        e.put_type::<J>(f);
        e.put_str(f, ", ");
        e.put_type::<K>(f);
        e.put_str(f, ", ");
        e.put_type::<L>(f);
        e.put_str(f, ", ");
        e.put_type::<M>(f);
        e.put_str(f, ", ");
        e.put_type::<N>(f);
        e.put_str(f, ", ");
        e.put_type::<O>(f);
        e.put_str(f, ", ");
        e.put_type::<P>(f);
        e.put_str(f, ", ");
        e.put_type::<Q>(f);
        e.put_str(f, ", ");
        e.put_type::<R>(f);
        e.put_str(f, ", ");
        e.put_type::<S>(f);
        e.put_str(f, ")");
        assert(e.text@ =~= Self::name());
        e.result
    }
}

impl<A: TypeName, B: TypeName, C: TypeName, D: TypeName, E: TypeName, F: TypeName, G: TypeName, H: TypeName, I: TypeName, J: TypeName, K: TypeName, L: TypeName, M: TypeName, N: TypeName, O: TypeName, P: TypeName, Q: TypeName, R: TypeName, S: TypeName, T: TypeName> TypeName for (A, B, C, D, E, F, G, H, I, J, K, L, M, N, O, P, Q, R, S, T) {
    open spec fn name() -> Seq<char> {
        "("@ + A::name() + ", "@ + B::name() + ", "@ + C::name() + ", "@ + D::name() + ", "@ + E::name() + ", "@ + F::name() + ", "@ + G::name() + ", "@ + H::name() + ", "@ + I::name() + ", "@ + J::name() + ", "@ + K::name() + ", "@ + L::name() + ", "@ + M::name() + ", "@ + N::name() + ", "@ + O::name() + ", "@ + P::name() + ", "@ + Q::name() + ", "@ + R::name() + ", "@ + S::name() + ", "@ + T::name() + ")"@
    }

    fn fmt(f: &mut NameSink) -> (r: Result<(), WriteError>) {
        let mut e = Emitter::new(f);
        e.put_str(f, "(");
        e.put_type::<A>(f);
        e.put_str(f, ", ");
        e.put_type::<B>(f);
        e.put_str(f, ", ");
        e.put_type::<C>(f);
        e.put_str(f, ", ");
        e.put_type::<D>(f);
        e.put_str(f, ", ");
        e.put_type::<E>(f);
        e.put_str(f, ", ");
        e.put_type::<F>(f);
        e.put_str(f, ", ");
        e.put_type::<G>(f);
        e.put_str(f, ", ");
        e.put_type::<H>(f);
        e.put_str(f, ", ");
        e.put_type::<I>(f);
        e.put_str(f, ", ");
        e.put_type::<J>(f);
        e.put_str(f, ", ");
        e.put_type::<K>(f);
        e.put_str(f, ", ");
        e.put_type::<L>(f);
        e.put_str(f, ", ");
        e.put_type::<M>(f);
        e.put_str(f, ", ");
        e.put_type::<N>(f);
        e.put_str(f, ", ");
        e.put_type::<O>(f);
        e.put_str(f, ", ");
        e.put_type::<P>(f);
        e.put_str(f, ", ");
        e.put_type::<Q>(f);
        e.put_str(f, ", ");
        e.put_type::<R>(f);
        e.put_str(f, ", ");
        e.put_type::<S>(f);
        e.put_str(f, ", ");
        e.put_type::<T>(f);
        e.put_str(f, ")");
        assert(e.text@ =~= Self::name());
        e.result
    }
}

impl<A: TypeName, B: TypeName, C: TypeName, D: TypeName, E: TypeName, F: TypeName, G: TypeName, H: TypeName, I: TypeName, J: TypeName, K: TypeName, L: TypeName, M: TypeName, N: TypeName, O: TypeName, P: TypeName, Q: TypeName, R: TypeName, S: TypeName, T: TypeName, U: TypeName> TypeName for (A, B, C, D, E, F, G, H, I, J, K, L, M, N, O, P, Q, R, S, T, U) {
    open spec fn name() -> Seq<char> {
        "("@ + A::name() + ", "@ + B::name() + ", "@ + C::name() + ", "@ + D::name() + ", "@ + E::name() + ", "@ + F::name() + ", "@ + G::name() + ", "@ + H::name() + ", "@ + I::name() + ", "@ + J::name() + ", "@ + K::name() + ", "@ + L::name() + ", "@ + M::name() + ", "@ + N::name() + ", "@ + O::name() + ", "@ + P::name() + ", "@ + Q::name() + ", "@ + R::name() + ", "@ + S::name() + ", "@ + T::name() + ", "@ + U::name() + ")"@
    }

    fn fmt(f: &mut NameSink) -> (r: Result<(), WriteError>) {
        let mut e = Emitter::new(f);
        e.put_str(f, "(");
        e.put_type::<A>(f);
        e.put_str(f, ", ");
        e.put_type::<B>(f);
        e.put_str(f, ", ");
        e.put_type::<C>(f);
        e.put_str(f, ", ");
        e.put_type::<D>(f);
        e.put_str(f, ", ");
        e.put_type::<E>(f);
        e.put_str(f, ", ");
        e.put_type::<F>(f);
        e.put_str(f, ", ");
        e.put_type::<G>(f);
        e.put_str(f, ", ");
        e.put_type::<H>(f);
        e.put_str(f, ", ");
        e.put_type::<I>(f);
        e.put_str(f, ", ");
        e.put_type::<J>(f);
        e.put_str(f, ", ");
        e.put_type::<K>(f);
        e.put_str(f, ", ");
        e.put_type::<L>(f);
        e.put_str(f, ", ");
        e.put_type::<M>(f);
        e.put_str(f, ", ");
        e.put_type::<N>(f);
        e.put_str(f, ", ");
        e.put_type::<O>(f);
        e.put_str(f, ", ");
        e.put_type::<P>(f);
        e.put_str(f, ", ");
        e.put_type::<Q>(f);
        e.put_str(f, ", ");
        e.put_type::<R>(f);
        e.put_str(f, ", ");
        e.put_type::<S>(f);
        e.put_str(f, ", ");
        e.put_type::<T>(f);
        e.put_str(f, ", ");
        e.put_type::<U>(f);
        e.put_str(f, ")");
        assert(e.text@ =~= Self::name());
        e.result
    }
}

impl<A: TypeName, B: TypeName, C: TypeName, D: TypeName, E: TypeName, F: TypeName, G: TypeName, H: TypeName, I: TypeName, J: TypeName, K: TypeName, L: TypeName, M: TypeName, N: TypeName, O: TypeName, P: TypeName, Q: TypeName, R: TypeName, S: TypeName, T: TypeName, U: TypeName, V: TypeName> TypeName for (A, B, C, D, E, F, G, H, I, J, K, L, M, N, O, P, Q, R, S, T, U, V) {
    open spec fn name() -> Seq<char> {
        "("@ + A::name() + ", "@ + B::name() + ", "@ + C::name() + ", "@ + D::name() + ", "@ + E::name() + ", "@ + F::name() + ", "@ + G::name() + ", "@ + H::name() + ", "@ + I::name() + ", "@ + J::name() + ", "@ + K::name() + ", "@ + L::name() + ", "@ + M::name() + ", "@ + N::name() + ", "@ + O::name() + ", "@ + P::name() + ", "@ + Q::name() + ", "@ + R::name() + ", "@ + S::name() + ", "@ + T::name() + ", "@ + U::name() + ", "@ + V::name() + ")"@
    }

    fn fmt(f: &mut NameSink) -> (r: Result<(), WriteError>) {
        let mut e = Emitter::new(f);
        e.put_str(f, "(");
        e.put_type::<A>(f);
        e.put_str(f, ", ");
        e.put_type::<B>(f);
        e.put_str(f, ", ");
        e.put_type::<C>(f);
        e.put_str(f, ", ");
        e.put_type::<D>(f);
        e.put_str(f, ", ");
        e.put_type::<E>(f);
        e.put_str(f, ", ");
        e.put_type::<F>(f);
        e.put_str(f, ", ");
        e.put_type::<G>(f);
        e.put_str(f, ", ");
        e.put_type::<H>(f);
        e.put_str(f, ", ");
        e.put_type::<I>(f);
        e.put_str(f, ", ");
        e.put_type::<J>(f);
        e.put_str(f, ", ");
        e.put_type::<K>(f);
        e.put_str(f, ", ");
        e.put_type::<L>(f);
        e.put_str(f, ", ");
        e.put_type::<M>(f);
        e.put_str(f, ", ");
        e.put_type::<N>(f);
        e.put_str(f, ", ");
        e.put_type::<O>(f);
        e.put_str(f, ", ");
        e.put_type::<P>(f);
        e.put_str(f, ", ");
        e.put_type::<Q>(f);
        e.put_str(f, ", ");
        e.put_type::<R>(f);
        e.put_str(f, ", ");
        e.put_type::<S>(f);
        e.put_str(f, ", ");
        e.put_type::<T>(f);
        e.put_str(f, ", ");
        e.put_type::<U>(f);
        e.put_str(f, ", ");
        e.put_type::<V>(f);
        e.put_str(f, ")");
        assert(e.text@ =~= Self::name());
        e.result
    }
}

impl<A: TypeName, B: TypeName, C: TypeName, D: TypeName, E: TypeName, F: TypeName, G: TypeName, H: TypeName, I: TypeName, J: TypeName, K: TypeName, L: TypeName, M: TypeName, N: TypeName, O: TypeName, P: TypeName, Q: TypeName, R: TypeName, S: TypeName, T: TypeName, U: TypeName, V: TypeName, W: TypeName> TypeName for (A, B, C, D, E, F, G, H, I, J, K, L, M, N, O, P, Q, R, S, T, U, V, W) {
    open spec fn name() -> Seq<char> {
        "("@ + A::name() + ", "@ + B::name() + ", "@ + C::name() + ", "@ + D::name() + ", "@ + E::name() + ", "@ + F::name() + ", "@ + G::name() + ", "@ + H::name() + ", "@ + I::name() + ", "@ + J::name() + ", "@ + K::name() + ", "@ + L::name() + ", "@ + M::name() + ", "@ + N::name() + ", "@ + O::name() + ", "@ + P::name() + ", "@ + Q::name() + ", "@ + R::name() + ", "@ + S::name() + ", "@ + T::name() + ", "@ + U::name() + ", "@ + V::name() + ", "@ + W::name() + ")"@
    }

    fn fmt(f: &mut NameSink) -> (r: Result<(), WriteError>) {
        let mut e = Emitter::new(f);
        e.put_str(f, "(");
        e.put_type::<A>(f);
        e.put_str(f, ", ");
        e.put_type::<B>(f);
        e.put_str(f, ", ");
        e.put_type::<C>(f);
        e.put_str(f, ", ");
        e.put_type::<D>(f);
        e.put_str(f, ", ");
        e.put_type::<E>(f);
        e.put_str(f, ", ");
        e.put_type::<F>(f);
        e.put_str(f, ", ");
        e.put_type::<G>(f);
        e.put_str(f, ", ");
        e.put_type::<H>(f);
        e.put_str(f, ", ");
        e.put_type::<I>(f);
        e.put_str(f, ", ");
        e.put_type::<J>(f);
        e.put_str(f, ", ");
        e.put_type::<K>(f);
        e.put_str(f, ", ");
        e.put_type::<L>(f);
        e.put_str(f, ", ");
        e.put_type::<M>(f);
        e.put_str(f, ", ");
        e.put_type::<N>(f);
        e.put_str(f, ", ");
        e.put_type::<O>(f);
        e.put_str(f, ", ");
        e.put_type::<P>(f);
        e.put_str(f, ", ");
        e.put_type::<Q>(f);
        e.put_str(f, ", ");
        e.put_type::<R>(f);
        e.put_str(f, ", ");
        e.put_type::<S>(f);
        e.put_str(f, ", ");
        e.put_type::<T>(f);
        e.put_str(f, ", ");
        e.put_type::<U>(f);
        e.put_str(f, ", ");
        e.put_type::<V>(f);
        e.put_str(f, ", ");
        e.put_type::<W>(f);
        e.put_str(f, ")");
        assert(e.text@ =~= Self::name());
        e.result
    }
}

impl<A: TypeName, B: TypeName, C: TypeName, D: TypeName, E: TypeName, F: TypeName, G: TypeName, H: TypeName, I: TypeName, J: TypeName, K: TypeName, L: TypeName, M: TypeName, N: TypeName, O: TypeName, P: TypeName, Q: TypeName, R: TypeName, S: TypeName, T: TypeName, U: TypeName, V: TypeName, W: TypeName, X: TypeName> TypeName for (A, B, C, D, E, F, G, H, I, J, K, L, M, N, O, P, Q, R, S, T, U, V, W, X) {
    open spec fn name() -> Seq<char> {
        "("@ + A::name() + ", "@ + B::name() + ", "@ + C::name() + ", "@ + D::name() + ", "@ + E::name() + ", "@ + F::name() + ", "@ + G::name() + ", "@ + H::name() + ", "@ + I::name() + ", "@ + J::name() + ", "@ + K::name() + ", "@ + L::name() + ", "@ + M::name() + ", "@ + N::name() + ", "@ + O::name() + ", "@ + P::name() + ", "@ + Q::name() + ", "@ + R::name() + ", "@ + S::name() + ", "@ + T::name() + ", "@ + U::name() + ", "@ + V::name() + ", "@ + W::name() + ", "@ + X::name() + ")"@
    }

    fn fmt(f: &mut NameSink) -> (r: Result<(), WriteError>) {
        let mut e = Emitter::new(f);
        e.put_str(f, "(");
        e.put_type::<A>(f);
        e.put_str(f, ", ");
        e.put_type::<B>(f);
        e.put_str(f, ", ");
        e.put_type::<C>(f);
        e.put_str(f, ", ");
        e.put_type::<D>(f);
        e.put_str(f, ", ");
        e.put_type::<E>(f);
        e.put_str(f, ", ");
        e.put_type::<F>(f);
        e.put_str(f, ", ");
        e.put_type::<G>(f);
        e.put_str(f, ", ");
        e.put_type::<H>(f);
        e.put_str(f, ", ");
        e.put_type::<I>(f);
        e.put_str(f, ", ");
        e.put_type::<J>(f);
        e.put_str(f, ", ");
        e.put_type::<K>(f);
        e.put_str(f, ", ");
        e.put_type::<L>(f);
        e.put_str(f, ", ");
        e.put_type::<M>(f);
        e.put_str(f, ", ");
        e.put_type::<N>(f);
        e.put_str(f, ", ");
        e.put_type::<O>(f);
        e.put_str(f, ", ");
        e.put_type::<P>(f);
        e.put_str(f, ", ");
        e.put_type::<Q>(f);
        e.put_str(f, ", ");
        e.put_type::<R>(f);
        e.put_str(f, ", ");
        e.put_type::<S>(f);
        e.put_str(f, ", ");
        e.put_type::<T>(f);
        e.put_str(f, ", ");
        e.put_type::<U>(f);
        e.put_str(f, ", ");
        e.put_type::<V>(f);
        e.put_str(f, ", ");
        e.put_type::<W>(f);
        e.put_str(f, ", ");
        e.put_type::<X>(f);
        e.put_str(f, ")");
        assert(e.text@ =~= Self::name());
        e.result
    }
}

impl<A: TypeName, B: TypeName, C: TypeName, D: TypeName, E: TypeName, F: TypeName, G: TypeName, H: TypeName, I: TypeName, J: TypeName, K: TypeName, L: TypeName, M: TypeName, N: TypeName, O: TypeName, P: TypeName, Q: TypeName, R: TypeName, S: TypeName, T: TypeName, U: TypeName, V: TypeName, W: TypeName, X: TypeName, Y: TypeName> TypeName for (A, B, C, D, E, F, G, H, I, J, K, L, M, N, O, P, Q, R, S, T, U, V, W, X, Y) {
    open spec fn name() -> Seq<char> {
        "("@ + A::name() + ", "@ + B::name() + ", "@ + C::name() + ", "@ + D::name() + ", "@ + E::name() + ", "@ + F::name() + ", "@ + G::name() + ", "@ + H::name() + ", "@ + I::name() + ", "@ + J::name() + ", "@ + K::name() + ", "@ + L::name() + ", "@ + M::name() + ", "@ + N::name() + ", "@ + O::name() + ", "@ + P::name() + ", "@ + Q::name() + ", "@ + R::name() + ", "@ + S::name() + ", "@ + T::name() + ", "@ + U::name() + ", "@ + V::name() + ", "@ + W::name() + ", "@ + X::name() + ", "@ + Y::name() + ")"@
    }

    fn fmt(f: &mut NameSink) -> (r: Result<(), WriteError>) {
        let mut e = Emitter::new(f);
        e.put_str(f, "(");
        e.put_type::<A>(f);
        e.put_str(f, ", ");
        e.put_type::<B>(f);
        e.put_str(f, ", ");
        e.put_type::<C>(f);
        e.put_str(f, ", ");
        e.put_type::<D>(f);
        e.put_str(f, ", ");
        e.put_type::<E>(f);
        e.put_str(f, ", ");
        e.put_type::<F>(f);
        e.put_str(f, ", ");
        e.put_type::<G>(f);
        e.put_str(f, ", ");
        e.put_type::<H>(f);
        e.put_str(f, ", ");
        e.put_type::<I>(f);
        e.put_str(f, ", ");
        e.put_type::<J>(f);
        e.put_str(f, ", ");
        e.put_type::<K>(f);
        e.put_str(f, ", ");
        e.put_type::<L>(f);
        e.put_str(f, ", ");
        e.put_type::<M>(f);
        e.put_str(f, ", ");
        e.put_type::<N>(f);
        e.put_str(f, ", ");
        e.put_type::<O>(f);
        e.put_str(f, ", ");
        e.put_type::<P>(f);
        e.put_str(f, ", ");
        e.put_type::<Q>(f);
        e.put_str(f, ", ");
        e.put_type::<R>(f);
        e.put_str(f, ", ");
        e.put_type::<S>(f);
        e.put_str(f, ", ");
        e.put_type::<T>(f);
        e.put_str(f, ", ");
        e.put_type::<U>(f);
        e.put_str(f, ", ");
        e.put_type::<V>(f);
        e.put_str(f, ", ");
        e.put_type::<W>(f);
        e.put_str(f, ", ");
        e.put_type::<X>(f);
        e.put_str(f, ", ");
        e.put_type::<Y>(f);
        e.put_str(f, ")");
        assert(e.text@ =~= Self::name());
        e.result
    }
}

impl<A: TypeName, B: TypeName, C: TypeName, D: TypeName, E: TypeName, F: TypeName, G: TypeName, H: TypeName, I: TypeName, J: TypeName, K: TypeName, L: TypeName, M: TypeName, N: TypeName, O: TypeName, P: TypeName, Q: TypeName, R: TypeName, S: TypeName, T: TypeName, U: TypeName, V: TypeName, W: TypeName, X: TypeName, Y: TypeName, Z: TypeName> TypeName for (A, B, C, D, E, F, G, H, I, J, K, L, M, N, O, P, Q, R, S, T, U, V, W, X, Y, Z) {
    open spec fn name() -> Seq<char> {
        "("@ + A::name() + ", "@ + B::name() + ", "@ + C::name() + ", "@ + D::name() + ", "@ + E::name() + ", "@ + F::name() + ", "@ + G::name() + ", "@ + H::name() + ", "@ + I::name() + ", "@ + J::name() + ", "@ + K::name() + ", "@ + L::name() + ", "@ + M::name() + ", "@ + N::name() + ", "@ + O::name() + ", "@ + P::name() + ", "@ + Q::name() + ", "@ + R::name() + ", "@ + S::name() + ", "@ + T::name() + ", "@ + U::name() + ", "@ + V::name() + ", "@ + W::name() + ", "@ + X::name() + ", "@ + Y::name() + ", "@ + Z::name() + ")"@
    }

    fn fmt(f: &mut NameSink) -> (r: Result<(), WriteError>) {
        let mut e = Emitter::new(f);
        e.put_str(f, "(");
        e.put_type::<A>(f);
        e.put_str(f, ", ");
        e.put_type::<B>(f);
        e.put_str(f, ", ");
        e.put_type::<C>(f);
        e.put_str(f, ", ");
        e.put_type::<D>(f);
        e.put_str(f, ", ");
        e.put_type::<E>(f);
        e.put_str(f, ", ");
        e.put_type::<F>(f);
        e.put_str(f, ", ");
        e.put_type::<G>(f);
        e.put_str(f, ", ");
        e.put_type::<H>(f);
        e.put_str(f, ", ");
        e.put_type::<I>(f);
        e.put_str(f, ", ");
        e.put_type::<J>(f);
        e.put_str(f, ", ");
        e.put_type::<K>(f);
        e.put_str(f, ", ");
        e.put_type::<L>(f);
        e.put_str(f, ", ");
        e.put_type::<M>(f);
        e.put_str(f, ", ");
        e.put_type::<N>(f);
        e.put_str(f, ", ");
        e.put_type::<O>(f);
        e.put_str(f, ", ");
        e.put_type::<P>(f);
        e.put_str(f, ", ");
        e.put_type::<Q>(f);
        e.put_str(f, ", ");
        e.put_type::<R>(f);
        e.put_str(f, ", ");
        e.put_type::<S>(f);
        e.put_str(f, ", ");
        e.put_type::<T>(f);
        e.put_str(f, ", ");
        e.put_type::<U>(f);
        e.put_str(f, ", ");
        e.put_type::<V>(f);
        e.put_str(f, ", ");
        e.put_type::<W>(f);
        e.put_str(f, ", ");
        e.put_type::<X>(f);
        e.put_str(f, ", ");
        e.put_type::<Y>(f);
        e.put_str(f, ", ");
        e.put_type::<Z>(f);
        e.put_str(f, ")");
        assert(e.text@ =~= Self::name());
        e.result
    }
}

impl<A: TypeName, B: TypeName, C: TypeName, D: TypeName, E: TypeName, F: TypeName, G: TypeName, H: TypeName, I: TypeName, J: TypeName, K: TypeName, L: TypeName, M: TypeName, N: TypeName, O: TypeName, P: TypeName, Q: TypeName, R: TypeName, S: TypeName, T: TypeName, U: TypeName, V: TypeName, W: TypeName, X: TypeName, Y: TypeName, Z: TypeName, AA: TypeName> TypeName for (A, B, C, D, E, F, G, H, I, J, K, L, M, N, O, P, Q, R, S, T, U, V, W, X, Y, Z, AA) {
    open spec fn name() -> Seq<char> {
        "("@ + A::name() + ", "@ + B::name() + ", "@ + C::name() + ", "@ + D::name() + ", "@ + E::name() + ", "@ + F::name() + ", "@ + G::name() + ", "@ + H::name() + ", "@ + I::name() + ", "@ + J::name() + ", "@ + K::name() + ", "@ + L::name() + ", "@ + M::name() + ", "@ + N::name() + ", "@ + O::name() + ", "@ + P::name() + ", "@ + Q::name() + ", "@ + R::name() + ", "@ + S::name() + ", "@ + T::name() + ", "@ + U::name() + ", "@ + V::name() + ", "@ + W::name() + ", "@ + X::name() + ", "@ + Y::name() + ", "@ + Z::name() + ", "@ + AA::name() + ")"@
    }

    fn fmt(f: &mut NameSink) -> (r: Result<(), WriteError>) {
        let mut e = Emitter::new(f);
        e.put_str(f, "(");
        e.put_type::<A>(f);
        e.put_str(f, ", ");
        e.put_type::<B>(f);
        e.put_str(f, ", ");
        e.put_type::<C>(f);
        e.put_str(f, ", ");
        e.put_type::<D>(f);
        e.put_str(f, ", ");
        e.put_type::<E>(f);
        e.put_str(f, ", ");
        e.put_type::<F>(f);
        e.put_str(f, ", ");
        e.put_type::<G>(f);
        e.put_str(f, ", ");
        e.put_type::<H>(f);
        e.put_str(f, ", ");
        e.put_type::<I>(f);
        e.put_str(f, ", ");
        e.put_type::<J>(f);
        e.put_str(f, ", ");
        e.put_type::<K>(f);
        e.put_str(f, ", ");
        e.put_type::<L>(f);
        e.put_str(f, ", ");
        e.put_type::<M>(f);
        e.put_str(f, ", ");
        e.put_type::<N>(f);
        e.put_str(f, ", ");
        e.put_type::<O>(f);
        e.put_str(f, ", ");
        e.put_type::<P>(f);
        e.put_str(f, ", ");
        e.put_type::<Q>(f);
        e.put_str(f, ", ");
        e.put_type::<R>(f);
        e.put_str(f, ", ");
        e.put_type::<S>(f);
        e.put_str(f, ", ");
        e.put_type::<T>(f);
        e.put_str(f, ", ");
        e.put_type::<U>(f);
        e.put_str(f, ", ");
        e.put_type::<V>(f);
        e.put_str(f, ", ");
        e.put_type::<W>(f);
        e.put_str(f, ", ");
        e.put_type::<X>(f);
        e.put_str(f, ", ");
        e.put_type::<Y>(f);
        e.put_str(f, ", ");
        e.put_type::<Z>(f);
        e.put_str(f, ", ");
        e.put_type::<AA>(f);
        e.put_str(f, ")");
        assert(e.text@ =~= Self::name());
        e.result
    }
}

impl<A: TypeName, B: TypeName, C: TypeName, D: TypeName, E: TypeName, F: TypeName, G: TypeName, H: TypeName, I: TypeName, J: TypeName, K: TypeName, L: TypeName, M: TypeName, N: TypeName, O: TypeName, P: TypeName, Q: TypeName, R: TypeName, S: TypeName, T: TypeName, U: TypeName, V: TypeName, W: TypeName, X: TypeName, Y: TypeName, Z: TypeName, AA: TypeName, AB: TypeName> TypeName for (A, B, C, D, E, F, G, H, I, J, K, L, M, N, O, P, Q, R, S, T, U, V, W, X, Y, Z, AA, AB) {
    open spec fn name() -> Seq<char> {
        "("@ + A::name() + ", "@ + B::name() + ", "@ + C::name() + ", "@ + D::name() + ", "@ + E::name() + ", "@ + F::name() + ", "@ + G::name() + ", "@ + H::name() + ", "@ + I::name() + ", "@ + J::name() + ", "@ + K::name() + ", "@ + L::name() + ", "@ + M::name() + ", "@ + N::name() + ", "@ + O::name() + ", "@ + P::name() + ", "@ + Q::name() + ", "@ + R::name() + ", "@ + S::name() + ", "@ + T::name() + ", "@ + U::name() + ", "@ + V::name() + ", "@ + W::name() + ", "@ + X::name() + ", "@ + Y::name() + ", "@ + Z::name() + ", "@ + AA::name() + ", "@ + AB::name() + ")"@
    }

    fn fmt(f: &mut NameSink) -> (r: Result<(), WriteError>) {
        let mut e = Emitter::new(f);
        e.put_str(f, "(");
        e.put_type::<A>(f);
        e.put_str(f, ", ");
        e.put_type::<B>(f);
        e.put_str(f, ", ");
        e.put_type::<C>(f);
        e.put_str(f, ", ");
        e.put_type::<D>(f);
        e.put_str(f, ", ");
        e.put_type::<E>(f);
        e.put_str(f, ", ");
        e.put_type::<F>(f);
        e.put_str(f, ", ");
        e.put_type::<G>(f);
        e.put_str(f, ", ");
        e.put_type::<H>(f);
        e.put_str(f, ", ");
        e.put_type::<I>(f);
        e.put_str(f, ", ");
        e.put_type::<J>(f);
        e.put_str(f, ", ");
        e.put_type::<K>(f);
        e.put_str(f, ", ");
        e.put_type::<L>(f);
        e.put_str(f, ", ");
        e.put_type::<M>(f);
        e.put_str(f, ", ");
        e.put_type::<N>(f);
        e.put_str(f, ", ");
        e.put_type::<O>(f);
        e.put_str(f, ", ");
        e.put_type::<P>(f);
        e.put_str(f, ", ");
        e.put_type::<Q>(f);
        e.put_str(f, ", ");
        e.put_type::<R>(f);
        e.put_str(f, ", ");
        e.put_type::<S>(f);
        e.put_str(f, ", ");
        e.put_type::<T>(f);
        e.put_str(f, ", ");
        e.put_type::<U>(f);
        e.put_str(f, ", ");
        e.put_type::<V>(f);
        e.put_str(f, ", ");
        e.put_type::<W>(f);
        e.put_str(f, ", ");
        e.put_type::<X>(f);
        e.put_str(f, ", ");
        e.put_type::<Y>(f);
        e.put_str(f, ", ");
        e.put_type::<Z>(f);
        e.put_str(f, ", ");
        e.put_type::<AA>(f);
        e.put_str(f, ", ");
        e.put_type::<AB>(f);
        e.put_str(f, ")");
        assert(e.text@ =~= Self::name());
        e.result
    }
}

impl<A: TypeName, B: TypeName, C: TypeName, D: TypeName, E: TypeName, F: TypeName, G: TypeName, H: TypeName, I: TypeName, J: TypeName, K: TypeName, L: TypeName, M: TypeName, N: TypeName, O: TypeName, P: TypeName, Q: TypeName, R: TypeName, S: TypeName, T: TypeName, U: TypeName, V: TypeName, W: TypeName, X: TypeName, Y: TypeName, Z: TypeName, AA: TypeName, AB: TypeName, AC: TypeName> TypeName for (A, B, C, D, E, F, G, H, I, J, K, L, M, N, O, P, Q, R, S, T, U, V, W, X, Y, Z, AA, AB, AC) {
    open spec fn name() -> Seq<char> {
        "("@ + A::name() + ", "@ + B::name() + ", "@ + C::name() + ", "@ + D::name() + ", "@ + E::name() + ", "@ + F::name() + ", "@ + G::name() + ", "@ + H::name() + ", "@ + I::name() + ", "@ + J::name() + ", "@ + K::name() + ", "@ + L::name() + ", "@ + M::name() + ", "@ + N::name() + ", "@ + O::name() + ", "@ + P::name() + ", "@ + Q::name() + ", "@ + R::name() + ", "@ + S::name() + ", "@ + T::name() + ", "@ + U::name() + ", "@ + V::name() + ", "@ + W::name() + ", "@ + X::name() + ", "@ + Y::name() + ", "@ + Z::name() + ", "@ + AA::name() + ", "@ + AB::name() + ", "@ + AC::name() + ")"@
    }

    fn fmt(f: &mut NameSink) -> (r: Result<(), WriteError>) {
        let mut e = Emitter::new(f);
        e.put_str(f, "(");
        e.put_type::<A>(f);
        e.put_str(f, ", ");
        e.put_type::<B>(f);
        e.put_str(f, ", ");
        e.put_type::<C>(f);
        e.put_str(f, ", ");
        e.put_type::<D>(f);
        e.put_str(f, ", ");
        e.put_type::<E>(f);
        e.put_str(f, ", ");
        e.put_type::<F>(f);
        e.put_str(f, ", ");
        e.put_type::<G>(f);
        e.put_str(f, ", ");
        e.put_type::<H>(f);
        e.put_str(f, ", ");
        e.put_type::<I>(f);
        e.put_str(f, ", ");
        e.put_type::<J>(f);
        e.put_str(f, ", ");
        e.put_type::<K>(f);
        e.put_str(f, ", ");
        e.put_type::<L>(f);
        e.put_str(f, ", ");
        e.put_type::<M>(f);
        e.put_str(f, ", ");
        e.put_type::<N>(f);
        e.put_str(f, ", ");
        e.put_type::<O>(f);
        e.put_str(f, ", ");
        e.put_type::<P>(f);
        e.put_str(f, ", ");
        e.put_type::<Q>(f);
        e.put_str(f, ", ");
        e.put_type::<R>(f);
        e.put_str(f, ", ");
        e.put_type::<S>(f);
        e.put_str(f, ", ");
        e.put_type::<T>(f);
        e.put_str(f, ", ");
        e.put_type::<U>(f);
        e.put_str(f, ", ");
        e.put_type::<V>(f);
        e.put_str(f, ", ");
        e.put_type::<W>(f);
        e.put_str(f, ", ");
        e.put_type::<X>(f);
        e.put_str(f, ", ");
        e.put_type::<Y>(f);
        e.put_str(f, ", ");
        e.put_type::<Z>(f);
        e.put_str(f, ", ");
        e.put_type::<AA>(f);
        e.put_str(f, ", ");
        e.put_type::<AB>(f);
        e.put_str(f, ", ");
        e.put_type::<AC>(f);
        e.put_str(f, ")");
        assert(e.text@ =~= Self::name());
        e.result
    }
}

impl<A: TypeName, B: TypeName, C: TypeName, D: TypeName, E: TypeName, F: TypeName, G: TypeName, H: TypeName, I: TypeName, J: TypeName, K: TypeName, L: TypeName, M: TypeName, N: TypeName, O: TypeName, P: TypeName, Q: TypeName, R: TypeName, S: TypeName, T: TypeName, U: TypeName, V: TypeName, W: TypeName, X: TypeName, Y: TypeName, Z: TypeName, AA: TypeName, AB: TypeName, AC: TypeName, AD: TypeName> TypeName for (A, B, C, D, E, F, G, H, I, J, K, L, M, N, O, P, Q, R, S, T, U, V, W, X, Y, Z, AA, AB, AC, AD) {
    open spec fn name() -> Seq<char> {
        "("@ + A::name() + ", "@ + B::name() + ", "@ + C::name() + ", "@ + D::name() + ", "@ + E::name() + ", "@ + F::name() + ", "@ + G::name() + ", "@ + H::name() + ", "@ + I::name() + ", "@ + J::name() + ", "@ + K::name() + ", "@ + L::name() + ", "@ + M::name() + ", "@ + N::name() + ", "@ + O::name() + ", "@ + P::name() + ", "@ + Q::name() + ", "@ + R::name() + ", "@ + S::name() + ", "@ + T::name() + ", "@ + U::name() + ", "@ + V::name() + ", "@ + W::name() + ", "@ + X::name() + ", "@ + Y::name() + ", "@ + Z::name() + ", "@ + AA::name() + ", "@ + AB::name() + ", "@ + AC::name() + ", "@ + AD::name() + ")"@
    }

    fn fmt(f: &mut NameSink) -> (r: Result<(), WriteError>) {
        let mut e = Emitter::new(f);
        e.put_str(f, "(");
        e.put_type::<A>(f);
        e.put_str(f, ", ");
        e.put_type::<B>(f);
        e.put_str(f, ", ");
        e.put_type::<C>(f);
        e.put_str(f, ", ");
        e.put_type::<D>(f);
        e.put_str(f, ", ");
        e.put_type::<E>(f);
        e.put_str(f, ", ");
        e.put_type::<F>(f);
        e.put_str(f, ", ");
        e.put_type::<G>(f);
        e.put_str(f, ", ");
        e.put_type::<H>(f);
        e.put_str(f, ", ");
        e.put_type::<I>(f);
        e.put_str(f, ", ");
        e.put_type::<J>(f);
        e.put_str(f, ", ");
        e.put_type::<K>(f);
        e.put_str(f, ", ");
        e.put_type::<L>(f);
        e.put_str(f, ", ");
        e.put_type::<M>(f);
        e.put_str(f, ", ");
        e.put_type::<N>(f);
        e.put_str(f, ", ");
        e.put_type::<O>(f);
        e.put_str(f, ", ");
        e.put_type::<P>(f);
        e.put_str(f, ", ");
        e.put_type::<Q>(f);
        e.put_str(f, ", ");
        e.put_type::<R>(f);
        e.put_str(f, ", ");
        e.put_type::<S>(f);
        e.put_str(f, ", ");
        e.put_type::<T>(f);
        e.put_str(f, ", ");
        e.put_type::<U>(f);
        e.put_str(f, ", ");
        e.put_type::<V>(f);
        e.put_str(f, ", ");
        e.put_type::<W>(f);
        e.put_str(f, ", ");
        e.put_type::<X>(f);
        e.put_str(f, ", ");
        e.put_type::<Y>(f);
        e.put_str(f, ", ");
        e.put_type::<Z>(f);
        e.put_str(f, ", ");
        e.put_type::<AA>(f);
        e.put_str(f, ", ");
        e.put_type::<AB>(f);
        e.put_str(f, ", ");
        e.put_type::<AC>(f);
        e.put_str(f, ", ");
        e.put_type::<AD>(f);
        e.put_str(f, ")");
        assert(e.text@ =~= Self::name());
        e.result
    }
}

impl<A: TypeName, B: TypeName, C: TypeName, D: TypeName, E: TypeName, F: TypeName, G: TypeName, H: TypeName, I: TypeName, J: TypeName, K: TypeName, L: TypeName, M: TypeName, N: TypeName, O: TypeName, P: TypeName, Q: TypeName, R: TypeName, S: TypeName, T: TypeName, U: TypeName, V: TypeName, W: TypeName, X: TypeName, Y: TypeName, Z: TypeName, AA: TypeName, AB: TypeName, AC: TypeName, AD: TypeName, AE: TypeName> TypeName for (A, B, C, D, E, F, G, H, I, J, K, L, M, N, O, P, Q, R, S, T, U, V, W, X, Y, Z, AA, AB, AC, AD, AE) {
    open spec fn name() -> Seq<char> {
        "("@ + A::name() + ", "@ + B::name() + ", "@ + C::name() + ", "@ + D::name() + ", "@ + E::name() + ", "@ + F::name() + ", "@ + G::name() + ", "@ + H::name() + ", "@ + I::name() + ", "@ + J::name() + ", "@ + K::name() + ", "@ + L::name() + ", "@ + M::name() + ", "@ + N::name() + ", "@ + O::name() + ", "@ + P::name() + ", "@ + Q::name() + ", "@ + R::name() + ", "@ + S::name() + ", "@ + T::name() + ", "@ + U::name() + ", "@ + V::name() + ", "@ + W::name() + ", "@ + X::name() + ", "@ + Y::name() + ", "@ + Z::name() + ", "@ + AA::name() + ", "@ + AB::name() + ", "@ + AC::name() + ", "@ + AD::name() + ", "@ + AE::name() + ")"@
    }

    fn fmt(f: &mut NameSink) -> (r: Result<(), WriteError>) {
        let mut e = Emitter::new(f);
        e.put_str(f, "(");
        e.put_type::<A>(f);
        e.put_str(f, ", ");
        e.put_type::<B>(f);
        e.put_str(f, ", ");
        e.put_type::<C>(f);
        e.put_str(f, ", ");
        e.put_type::<D>(f);
        e.put_str(f, ", ");
        e.put_type::<E>(f);
        e.put_str(f, ", ");
        e.put_type::<F>(f);
        e.put_str(f, ", ");
        e.put_type::<G>(f);
        e.put_str(f, ", ");
        e.put_type::<H>(f);
        e.put_str(f, ", ");
        e.put_type::<I>(f);
        e.put_str(f, ", ");
        e.put_type::<J>(f);
        e.put_str(f, ", ");
        e.put_type::<K>(f);
        e.put_str(f, ", ");
        e.put_type::<L>(f);
        e.put_str(f, ", ");
        e.put_type::<M>(f);
        e.put_str(f, ", ");
        e.put_type::<N>(f);
        e.put_str(f, ", ");
        e.put_type::<O>(f);
        e.put_str(f, ", ");
        e.put_type::<P>(f);
        e.put_str(f, ", ");
        e.put_type::<Q>(f);
        e.put_str(f, ", ");
        e.put_type::<R>(f);
        e.put_str(f, ", ");
        e.put_type::<S>(f);
        e.put_str(f, ", ");
        e.put_type::<T>(f);
        e.put_str(f, ", ");
        e.put_type::<U>(f);
        e.put_str(f, ", ");
        e.put_type::<V>(f);
        e.put_str(f, ", ");
        e.put_type::<W>(f);
        e.put_str(f, ", ");
        e.put_type::<X>(f);
        e.put_str(f, ", ");
        e.put_type::<Y>(f);
        e.put_str(f, ", ");
        e.put_type::<Z>(f);
        e.put_str(f, ", ");
        e.put_type::<AA>(f);
        e.put_str(f, ", ");
        e.put_type::<AB>(f);
        e.put_str(f, ", ");
        e.put_type::<AC>(f);
        e.put_str(f, ", ");
        e.put_type::<AD>(f);
        e.put_str(f, ", ");
        e.put_type::<AE>(f);
        e.put_str(f, ")");
        assert(e.text@ =~= Self::name());
        e.result
    }
}

impl<A: TypeName, B: TypeName, C: TypeName, D: TypeName, E: TypeName, F: TypeName, G: TypeName, H: TypeName, I: TypeName, J: TypeName, K: TypeName, L: TypeName, M: TypeName, N: TypeName, O: TypeName, P: TypeName, Q: TypeName, R: TypeName, S: TypeName, T: TypeName, U: TypeName, V: TypeName, W: TypeName, X: TypeName, Y: TypeName, Z: TypeName, AA: TypeName, AB: TypeName, AC: TypeName, AD: TypeName, AE: TypeName, AF: TypeName> TypeName for (A, B, C, D, E, F, G, H, I, J, K, L, M, N, O, P, Q, R, S, T, U, V, W, X, Y, Z, AA, AB, AC, AD, AE, AF) {
    open spec fn name() -> Seq<char> {
        "("@ + A::name() + ", "@ + B::name() + ", "@ + C::name() + ", "@ + D::name() + ", "@ + E::name() + ", "@ + F::name() + ", "@ + G::name() + ", "@ + H::name() + ", "@ + I::name() + ", "@ + J::name() + ", "@ + K::name() + ", "@ + L::name() + ", "@ + M::name() + ", "@ + N::name() + ", "@ + O::name() + ", "@ + P::name() + ", "@ + Q::name() + ", "@ + R::name() + ", "@ + S::name() + ", "@ + T::name() + ", "@ + U::name() + ", "@ + V::name() + ", "@ + W::name() + ", "@ + X::name() + ", "@ + Y::name() + ", "@ + Z::name() + ", "@ + AA::name() + ", "@ + AB::name() + ", "@ + AC::name() + ", "@ + AD::name() + ", "@ + AE::name() + ", "@ + AF::name() + ")"@
    }

    fn fmt(f: &mut NameSink) -> (r: Result<(), WriteError>) {
        let mut e = Emitter::new(f);
        e.put_str(f, "(");
        e.put_type::<A>(f);
        e.put_str(f, ", ");
        e.put_type::<B>(f);
        e.put_str(f, ", ");
        e.put_type::<C>(f);
        e.put_str(f, ", ");
        e.put_type::<D>(f);
        e.put_str(f, ", ");
        e.put_type::<E>(f);
        e.put_str(f, ", ");
        e.put_type::<F>(f);
        e.put_str(f, ", ");
        e.put_type::<G>(f);
        e.put_str(f, ", ");
        e.put_type::<H>(f);
        e.put_str(f, ", ");
        e.put_type::<I>(f);
        e.put_str(f, ", ");
        e.put_type::<J>(f);
        e.put_str(f, ", ");
        e.put_type::<K>(f);
        e.put_str(f, ", ");
        e.put_type::<L>(f);
        e.put_str(f, ", ");
        e.put_type::<M>(f);
        e.put_str(f, ", ");
        e.put_type::<N>(f);
        e.put_str(f, ", ");
        e.put_type::<O>(f);
        e.put_str(f, ", ");
        e.put_type::<P>(f);
        e.put_str(f, ", ");
        e.put_type::<Q>(f);
        e.put_str(f, ", ");
        e.put_type::<R>(f);
        e.put_str(f, ", ");
        e.put_type::<S>(f);
        e.put_str(f, ", ");
        e.put_type::<T>(f);
        e.put_str(f, ", ");
        e.put_type::<U>(f);
        e.put_str(f, ", ");
        e.put_type::<V>(f);
        e.put_str(f, ", ");
        e.put_type::<W>(f);
        e.put_str(f, ", ");
        e.put_type::<X>(f);
        e.put_str(f, ", ");
        e.put_type::<Y>(f);
        e.put_str(f, ", ");
        e.put_type::<Z>(f);
        e.put_str(f, ", ");
        e.put_type::<AA>(f);
        e.put_str(f, ", ");
        e.put_type::<AB>(f);
        e.put_str(f, ", ");
        e.put_type::<AC>(f);
        e.put_str(f, ", ");
        e.put_type::<AD>(f);
        e.put_str(f, ", ");
        e.put_type::<AE>(f);
        e.put_str(f, ", ");
        e.put_type::<AF>(f);
        e.put_str(f, ")");
        assert(e.text@ =~= Self::name());
        e.result
    }
}

impl<T: TypeName, const N: usize> TypeName for [T; N] {
    open spec fn name() -> Seq<char> {
        "["@ + T::name() + "; "@ + decimal(N as nat) + "]"@
    }

    fn fmt(f: &mut NameSink) -> (r: Result<(), WriteError>) {
        let mut e = Emitter::new(f);
        e.put_str(f, "[");
        e.put_type::<T>(f);
        e.put_str(f, "; ");
        put_decimal(&mut e, f, N);
        e.put_str(f, "]");
        assert(e.text@ =~= Self::name());
        e.result
    }
}

/// A type without type parameters is named by its base name alone, with
/// no angle brackets; so are the primitive types.
pub proof fn lemma_bare_names(base: Seq<char>)
    ensures
        generic_name(base, Seq::empty()) == base,
        <u8 as TypeName>::name() == "u8"@,
        <u16 as TypeName>::name() == "u16"@,
        <u32 as TypeName>::name() == "u32"@,
        <u64 as TypeName>::name() == "u64"@,
        <usize as TypeName>::name() == "usize"@,
        <i8 as TypeName>::name() == "i8"@,
        <i16 as TypeName>::name() == "i16"@,
        <i32 as TypeName>::name() == "i32"@,
        <i64 as TypeName>::name() == "i64"@,
        <isize as TypeName>::name() == "isize"@,
        <char as TypeName>::name() == "char"@,
        <bool as TypeName>::name() == "bool"@,
        <str as TypeName>::name() == "str"@,
        <String as TypeName>::name() == "std::string::String"@,
{
}

/// A type with one type parameter is named `base<P>`, with the name of the
/// argument `P` in the brackets; `Vec<T>` is one such type.
pub proof fn lemma_one_param_name<T: TypeName>(base: Seq<char>, p: Seq<char>)
    ensures
        generic_name(base, seq![p]) == base + seq!['<'] + p + seq!['>'],
        <Vec<T> as TypeName>::name() == "std::vec::Vec"@ + seq!['<'] + T::name() + seq!['>'],
{
}

/// The empty tuple is `()`, a one-element tuple keeps its trailing comma,
/// and the elements of longer tuples are separated by `", "`.
pub proof fn lemma_tuple_names<A: TypeName, B: TypeName>()
    ensures
        <() as TypeName>::name() == "()"@,
        <(A,) as TypeName>::name() == "("@ + A::name() + ",)"@,
        <(A, B) as TypeName>::name() == "("@ + A::name() + ", "@ + B::name() + ")"@,
{
}

} // verus!
