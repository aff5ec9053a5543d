//! The rule that derives a `TypeName` implementation from a type
//! declaration.
//!
//! The derived implementation depends only on the declaration's qualified
//! name and its type parameters, never on its fields or variants, so it is
//! the same for structs with named or positional fields, unit structs and
//! enums.
use vstd::prelude::*;

use crate::fmt::{generic_name, TypeFormatter};
use crate::sink::{emits, NameSink, WriteError};

verus! {

/// The kind of a generic parameter.
#[derive(Clone, Copy, Debug, PartialEq, Eq, Structural)]
pub enum ParamKind {
    Lifetime,
    Type,
    Const,
}

/// A generic parameter as declared: `'a`, `T: Clone`, `const N: usize`.
pub struct GenericParam {
    pub kind: ParamKind,
    /// The parameter's name, `T` or `'a`.
    pub ident: String,
    /// What follows the colon, as source text: bounds, or a const's type.
    pub bounds: String,
}

/// What the rule reads of a struct or enum declaration.
pub struct TypeDecl {
    /// The path of the declaring module, `my_crate::shapes`.
    pub module: String,
    /// The type's own name.
    pub ident: String,
    /// The generic parameters, in declaration order.
    pub params: Vec<GenericParam>,
    /// The where-clause predicates of the declaration, as source text.
    pub predicates: Vec<String>,
}

/// The derived implementation of `TypeName` for a declaration.
pub struct DerivedImpl {
    /// The type's own name.
    pub ident: String,
    /// The qualified name the implementation starts the type's name with.
    pub base_name: String,
    /// The generic parameters of the implementation, as declared.
    pub params: Vec<GenericParam>,
    /// The where-clause predicates of the implementation.
    pub predicates: Vec<String>,
    /// The type parameters whose names follow the base name, in order.
    pub type_args: Vec<String>,
}

/// The texts of a sequence of strings.
pub open spec fn texts(v: Seq<String>) -> Seq<Seq<char>> {
    v.map_values(|s: String| s@)
}

/// The names of the type parameters among `ps`, in order; lifetimes and
/// consts name nothing and are left out.
pub open spec fn type_param_idents(ps: Seq<GenericParam>) -> Seq<Seq<char>>
    decreases ps.len(),
{
    if ps.len() == 0 {
        Seq::empty()
    } else if ps.last().kind == ParamKind::Type {
        type_param_idents(ps.drop_last()).push(ps.last().ident@)
    } else {
        type_param_idents(ps.drop_last())
    }
}

/// The predicate that asks the parameter `id` to name itself.
pub open spec fn naming_bound(id: Seq<char>) -> Seq<char> {
    id + ": ::typename::TypeName"@
}

/// The qualified name of the declared type.
pub open spec fn derived_base(decl: TypeDecl) -> Seq<char> {
    decl.module@ + "::"@ + decl.ident@
}

/// The declaration's own predicates, then one naming bound for each type
/// parameter, in order.
pub open spec fn derived_predicates(decl: TypeDecl) -> Seq<Seq<char>> {
    texts(decl.predicates@) + type_param_idents(decl.params@).map_values(|id: Seq<char>| naming_bound(id))
}

/// Derives the `TypeName` implementation for `decl`: its base name is the
/// module path and the type's name; it keeps the declaration's generic
/// parameters and predicates, adds a naming bound on every type parameter
/// (whatever bounds it has already), and names the type parameters in
/// declaration order.
pub fn derive_type_name(decl: TypeDecl) -> (r: DerivedImpl)
    ensures
        r.ident@ == decl.ident@,
        r.base_name@ == derived_base(decl),
        r.params@ == decl.params@,
        texts(r.predicates@) == derived_predicates(decl),
        texts(r.type_args@) == type_param_idents(decl.params@),
{
    let mut base_name = decl.module.clone();
    base_name.append("::");
    base_name.append(decl.ident.as_str());
    let mut predicates = decl.predicates;
    let mut type_args: Vec<String> = Vec::new();
    let ghost preds0 = texts(predicates@);
    let n = decl.params.len();
    let mut i: usize = 0;
    while i < n
        invariant
            n == decl.params@.len(),
            i <= n,
            preds0 == texts(decl.predicates@),
            texts(type_args@) == type_param_idents(decl.params@.take(i as int)),
            texts(predicates@) == preds0 + type_param_idents(decl.params@.take(i as int)).map_values(
                |id: Seq<char>| naming_bound(id),
            ),
        decreases n - i,
    {
        let ghost ids = type_param_idents(decl.params@.take(i as int));
        let ghost next = decl.params@.take(i + 1);
        assert(next.drop_last() =~= decl.params@.take(i as int));
        let p = &decl.params[i];
        if p.kind == ParamKind::Type {
            let mut bound = p.ident.clone();
            bound.append(": ::typename::TypeName");
            let ghost pre = predicates@;
            let ghost b = bound@;
            type_args.push(p.ident.clone());
            predicates.push(bound);
            assert(texts(predicates@) =~= texts(pre).push(b));
            assert(texts(type_args@) =~= ids.push(p.ident@));
            let ghost bounds = ids.map_values(|id: Seq<char>| naming_bound(id));
            assert(ids.push(p.ident@).map_values(|id: Seq<char>| naming_bound(id)) =~= bounds.push(
                naming_bound(p.ident@),
            ));
            assert(b == naming_bound(p.ident@));
            assert(texts(predicates@) =~= preds0 + bounds.push(naming_bound(p.ident@)));
        }
        i = i + 1;
    }
    assert(decl.params@.take(n as int) =~= decl.params@);
    DerivedImpl { ident: decl.ident, base_name, params: decl.params, predicates, type_args }
}

impl DerivedImpl {
    /// Writes, as the derived implementation does, the name of the instance
    /// whose type arguments are named `args`.
    pub fn fmt_instance(&self, f: &mut NameSink, args: &Vec<String>) -> (r: Result<(), WriteError>)
        requires
            old(f).wf(),
        ensures
            emits(*old(f), *final(f), generic_name(self.base_name@, texts(args@)), r),
    {
        let mut t = TypeFormatter::new(f, self.base_name.as_str());
        let mut i: usize = 0;
        while i < args.len()
            invariant
                i <= args@.len(),
                t.inv(*f),
                t.start() == *old(f),
                t.base() == self.base_name@,
                t.params() == texts(args@.take(i as int)),
            decreases args@.len() - i,
        {
            t.param_name(f, args[i].as_str());
            assert(texts(args@.take(i + 1)) =~= texts(args@.take(i as int)).push(args@[i as int]@));
            i = i + 1;
        }
        assert(args@.take(args@.len() as int) =~= args@);
        t.finish(f)
    }

    /// The name of the instance whose type arguments are named `args`.
    pub fn instance_name(&self, args: &Vec<String>) -> (r: String)
        ensures
            r@ == generic_name(self.base_name@, texts(args@)),
    {
        let mut f = NameSink::new();
        let _ = self.fmt_instance(&mut f, args);
        assert(Seq::<char>::empty() + generic_name(self.base_name@, texts(args@)) =~= generic_name(
            self.base_name@,
            texts(args@),
        ));
        f.into_string()
    }
}

/// A derived implementation keeps every predicate of the declaration and
/// adds a naming bound for each type parameter, whatever bounds that
/// parameter carries already.
pub proof fn lemma_derived_bounds(decl: TypeDecl)
    ensures
        derived_predicates(decl).take(decl.predicates@.len() as int) == texts(decl.predicates@),
        forall|j: int|
            0 <= j < type_param_idents(decl.params@).len() ==> derived_predicates(decl).contains(
                naming_bound(#[trigger] type_param_idents(decl.params@)[j]),
            ),
{
    let own = texts(decl.predicates@);
    let added = type_param_idents(decl.params@).map_values(|id: Seq<char>| naming_bound(id));
    assert((own + added).take(own.len() as int) =~= own);
    assert forall|j: int| 0 <= j < type_param_idents(decl.params@).len() implies derived_predicates(
        decl,
    ).contains(naming_bound(#[trigger] type_param_idents(decl.params@)[j])) by {
        assert((own + added)[own.len() + j] == added[j]);
    }
}

/// Instantiated with one type argument named `arg`, a type whose derived
/// implementation has one type parameter is named `module::Name<arg>`.
pub proof fn lemma_derived_one_param(decl: TypeDecl, arg: Seq<char>)
    requires
        type_param_idents(decl.params@).len() == 1,
    ensures
        generic_name(derived_base(decl), seq![arg]) == decl.module@ + "::"@ + decl.ident@ + seq!['<']
            + arg + seq!['>'],
{
}

/// A type whose declaration has no type parameters is named by its
/// qualified name alone, with no brackets.
pub proof fn lemma_derived_no_params(decl: TypeDecl)
    requires
        type_param_idents(decl.params@).len() == 0,
    ensures
        generic_name(derived_base(decl), Seq::empty()) == decl.module@ + "::"@ + decl.ident@,
{
}

} // verus!
