//! Building names of the form `some::path::Name<TArg1, TArg2>`. The angle
//! brackets are left out where no type argument is given.
use vstd::prelude::*;

use crate::sink::{emits, lemma_emits_extends, lemma_emits_nothing, lemma_emits_skip, lemma_emits_then, NameSink, WriteError};
use crate::TypeName;

verus! {

/// The names in `ps`, separated by `", "`.
pub open spec fn join_names(ps: Seq<Seq<char>>) -> Seq<char>
    decreases ps.len(),
{
    if ps.len() == 0 {
        Seq::empty()
    } else if ps.len() == 1 {
        ps[0]
    } else {
        join_names(ps.drop_last()) + seq![',', ' '] + ps.last()
    }
}

/// `base`, followed by the argument names in angle brackets if there are any.
pub open spec fn generic_name(base: Seq<char>, ps: Seq<Seq<char>>) -> Seq<char> {
    if ps.len() == 0 {
        base
    } else {
        base + seq!['<'] + join_names(ps) + seq!['>']
    }
}

/// What a formatter has written before it closes the bracket.
pub open spec fn open_name(base: Seq<char>, ps: Seq<Seq<char>>) -> Seq<char> {
    if ps.len() == 0 {
        base
    } else {
        base + seq!['<'] + join_names(ps)
    }
}

/// What goes before the name of an argument when `n` arguments are
/// attached already: `"<"` before the first, `", "` before each later one.
pub open spec fn separator(n: nat) -> Seq<char> {
    if n == 0 {
        "<"@
    } else {
        ", "@
    }
}

/// Writes a sequence of pieces to a sink, skipping all of them after the
/// first refusal. It tracks what it was asked to write since `start`.
pub(crate) struct Emitter {
    pub(crate) result: Result<(), WriteError>,
    pub(crate) start: Ghost<NameSink>,
    pub(crate) text: Ghost<Seq<char>>,
}

impl Emitter {
    pub(crate) open spec fn inv(self, f: NameSink) -> bool {
        emits(self.start@, f, self.text@, self.result)
    }

    pub(crate) fn new(f: &NameSink) -> (e: Self)
        requires
            f.wf(),
        ensures
            e.inv(*f),
            e.start@ == *f,
            e.text@ == Seq::<char>::empty(),
    {
        proof {
            lemma_emits_nothing(*f);
        }
        Emitter { result: Ok(()), start: Ghost(*f), text: Ghost(Seq::empty()) }
    }

    pub(crate) fn put_str(&mut self, f: &mut NameSink, s: &str)
        requires
            old(self).inv(*old(f)),
        ensures
            final(self).inv(*final(f)),
            final(self).start == old(self).start,
            final(self).text@ == old(self).text@ + s@,
            old(self).result is Ok ==> emits(*old(f), *final(f), s@, final(self).result),
            old(self).result is Ok && final(self).result is Err ==> *final(f) == *old(f),
            old(self).result is Err ==> *final(f) == *old(f) && final(self).result == old(self).result,
    {
        let ghost mid = *f;
        if self.result.is_ok() {
            self.result = f.write_str(s);
            proof {
                lemma_emits_then(self.start@, mid, *f, self.text@, s@, self.result);
            }
        } else {
            proof {
                lemma_emits_skip(self.start@, *f, self.text@, s@);
            }
        }
        self.text = Ghost(self.text@ + s@);
    }

    pub(crate) fn put_type<T: TypeName + ?Sized>(&mut self, f: &mut NameSink)
        requires
            old(self).inv(*old(f)),
        ensures
            final(self).inv(*final(f)),
            final(self).start == old(self).start,
            final(self).text@ == old(self).text@ + T::name(),
            old(self).result is Ok ==> emits(*old(f), *final(f), T::name(), final(self).result),
            old(self).result is Err ==> *final(f) == *old(f) && final(self).result == old(self).result,
    {
        let ghost mid = *f;
        if self.result.is_ok() {
            self.result = T::fmt(f);
            proof {
                lemma_emits_then(self.start@, mid, *f, self.text@, T::name(), self.result);
            }
        } else {
            proof {
                lemma_emits_skip(self.start@, *f, self.text@, T::name());
            }
        }
        self.text = Ghost(self.text@ + T::name());
    }
}

/// A builder for type names, after the debug builders of `std::fmt`.
///
/// It writes eagerly to the sink handed to each call, keeps the first
/// refusal, and turns every later step into a no-op until `finish`
/// reports it.
pub struct TypeFormatter {
    out: Emitter,
    has_params: bool,
    base: Ghost<Seq<char>>,
    params: Ghost<Seq<Seq<char>>>,
}

impl TypeFormatter {
    /// The sink as it was when the formatter was made.
    pub closed spec fn start(self) -> NameSink {
        self.out.start@
    }

    /// The base name the formatter was made with.
    pub closed spec fn base(self) -> Seq<char> {
        self.base@
    }

    /// The names of the type arguments attached so far, in order.
    pub closed spec fn params(self) -> Seq<Seq<char>> {
        self.params@
    }

    /// The outcome kept so far: the first refusal, if any write was refused.
    pub closed spec fn result(self) -> Result<(), WriteError> {
        self.out.result
    }

    /// The formatter is in step with the sink `f`.
    pub closed spec fn inv(self, f: NameSink) -> bool {
        &&& self.out.inv(f)
        &&& self.out.text@ == open_name(self.base@, self.params@)
        &&& self.has_params == (self.params@.len() > 0)
    }

    /// Makes a builder that has written `name` to `f`, or has kept the refusal.
    pub fn new(f: &mut NameSink, name: &str) -> (r: Self)
        requires
            old(f).wf(),
        ensures
            r.inv(*final(f)),
            r.start() == *old(f),
            r.base() == name@,
            r.params() == Seq::<Seq<char>>::empty(),
            emits(*old(f), *final(f), name@, r.result()),
            r.result() is Err ==> *final(f) == *old(f),
    {
        let mut out = Emitter::new(f);
        out.put_str(f, name);
        assert(out.text@ =~= name@);
        TypeFormatter { out, has_params: false, base: Ghost(name@), params: Ghost(Seq::empty()) }
    }

    /// Writes the separator before the next argument.
    fn open_param(&mut self, f: &mut NameSink, Ghost(p): Ghost<Seq<char>>)
        requires
            old(self).inv(*old(f)),
        ensures
            final(self).out.inv(*final(f)),
            final(self).out.start == old(self).out.start,
            final(self).out.text@ + p == open_name(old(self).base@, old(self).params@.push(p)),
            final(self).has_params,
            final(self).base == old(self).base,
            final(self).params@ == old(self).params@.push(p),
            old(self).out.result is Ok ==> emits(
                *old(f),
                *final(f),
                separator(old(self).params@.len()),
                final(self).out.result,
            ),
            old(self).out.result is Ok && final(self).out.result is Err ==> *final(f) == *old(f),
            old(self).out.result is Err ==> *final(f) == *old(f) && final(self).out.result
                == old(self).out.result,
    {
        let ghost ps = self.params@;
        proof {
            reveal_strlit("<");
            reveal_strlit(", ");
        }
        if self.has_params {
            self.out.put_str(f, ", ");
            assert(ps.push(p).drop_last() =~= ps);
        } else {
            self.out.put_str(f, "<");
        }
        self.has_params = true;
        self.params = Ghost(ps.push(p));
    }

    /// Attaches the name of the type argument `T`.
    pub fn type_param<T: TypeName + ?Sized>(&mut self, f: &mut NameSink)
        requires
            old(self).inv(*old(f)),
        ensures
            final(self).inv(*final(f)),
            final(self).start() == old(self).start(),
            final(self).base() == old(self).base(),
            final(self).params() == old(self).params().push(T::name()),
            old(self).result() is Ok ==> emits(
                *old(f),
                *final(f),
                separator(old(self).params().len()) + T::name(),
                final(self).result(),
            ),
            old(self).result() is Ok && !old(f).accepts(separator(old(self).params().len()).len())
                ==> *final(f) == *old(f),
            old(self).result() is Err ==> *final(f) == *old(f) && final(self).result()
                == old(self).result(),
            old(f)@.is_prefix_of(final(f)@),
    {
        let ghost f0 = *f;
        let ghost r0 = self.out.result;
        let ghost sep = separator(self.params@.len());
        self.open_param(f, Ghost(T::name()));
        let ghost f1 = *f;
        let ghost r1 = self.out.result;
        self.out.put_type::<T>(f);
        proof {
            if r0 is Ok {
                if r1 is Ok {
                    lemma_emits_then(f0, f1, *f, sep, T::name(), self.out.result);
                } else {
                    lemma_emits_skip(f0, f1, sep, T::name());
                }
                lemma_emits_extends(f0, *f, sep + T::name(), self.out.result);
            } else {
                lemma_emits_nothing(f0);
                lemma_emits_extends(f0, *f, Seq::empty(), Ok(()));
            }
        }
    }

    /// Attaches `name` as the name of the next type argument.
    pub fn param_name(&mut self, f: &mut NameSink, name: &str)
        requires
            old(self).inv(*old(f)),
        ensures
            final(self).inv(*final(f)),
            final(self).start() == old(self).start(),
            final(self).base() == old(self).base(),
            final(self).params() == old(self).params().push(name@),
            old(self).result() is Ok ==> emits(
                *old(f),
                *final(f),
                separator(old(self).params().len()) + name@,
                final(self).result(),
            ),
            old(self).result() is Ok && !old(f).accepts(separator(old(self).params().len()).len())
                ==> *final(f) == *old(f),
            old(self).result() is Err ==> *final(f) == *old(f) && final(self).result()
                == old(self).result(),
            old(f)@.is_prefix_of(final(f)@),
    {
        let ghost f0 = *f;
        let ghost r0 = self.out.result;
        let ghost sep = separator(self.params@.len());
        self.open_param(f, Ghost(name@));
        let ghost f1 = *f;
        let ghost r1 = self.out.result;
        self.out.put_str(f, name);
        proof {
            if r0 is Ok {
                if r1 is Ok {
                    lemma_emits_then(f0, f1, *f, sep, name@, self.out.result);
                } else {
                    lemma_emits_skip(f0, f1, sep, name@);
                }
                lemma_emits_extends(f0, *f, sep + name@, self.out.result);
            } else {
                lemma_emits_nothing(f0);
                lemma_emits_extends(f0, *f, Seq::empty(), Ok(()));
            }
        }
    }

    /// Closes the argument list, if one was opened, and reports the first
    /// refusal, if any: the whole name was written exactly when it fit.
    pub fn finish(&mut self, f: &mut NameSink) -> (r: Result<(), WriteError>)
        requires
            old(self).inv(*old(f)),
        ensures
            emits(old(self).start(), *final(f), generic_name(old(self).base(), old(self).params()), r),
            old(self).params().len() == 0 ==> *final(f) == *old(f) && r == old(self).result(),
            old(self).params().len() > 0 && old(self).result() is Ok ==> emits(
                *old(f),
                *final(f),
                ">"@,
                r,
            ),
            old(self).result() is Err ==> r == old(self).result() && *final(f) == *old(f),
            r == final(self).result(),
            old(f)@.is_prefix_of(final(f)@),
    {
        let ghost f0 = *f;
        if self.has_params {
            proof {
                reveal_strlit(">");
            }
            self.out.put_str(f, ">");
            assert(self.out.text@ =~= generic_name(self.base@, self.params@));
            proof {
                if self.out.result is Ok {
                    lemma_emits_extends(f0, *f, ">"@, self.out.result);
                }
            }
        }
        assert(f0@ =~= f@.subrange(0, f0@.len() as int));
        self.out.result
    }
}

} // verus!
