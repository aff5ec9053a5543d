//! The source text of a derived `TypeName` implementation.
use vstd::prelude::*;

use crate::derive::{texts, DerivedImpl, GenericParam, ParamKind};
use crate::fmt::join_names;

verus! {

/// The items, separated by `", "` and in angle brackets; nothing if there
/// are none.
pub open spec fn angle_list(items: Seq<Seq<char>>) -> Seq<char> {
    if items.len() == 0 {
        Seq::empty()
    } else {
        "<"@ + join_names(items) + ">"@
    }
}

/// A where clause of the predicates; nothing if there are none.
pub open spec fn where_text(preds: Seq<Seq<char>>) -> Seq<char> {
    if preds.len() == 0 {
        Seq::empty()
    } else {
        " where "@ + join_names(preds)
    }
}

/// Each item with `pre` before it and `post` after it, one after another.
pub open spec fn wrapped(items: Seq<Seq<char>>, pre: Seq<char>, post: Seq<char>) -> Seq<char>
    decreases items.len(),
{
    if items.len() == 0 {
        Seq::empty()
    } else {
        wrapped(items.drop_last(), pre, post) + pre + items.last() + post
    }
}

/// A generic parameter as it is declared in an impl header.
pub open spec fn param_text(p: GenericParam) -> Seq<char> {
    if p.kind == ParamKind::Const {
        "const "@ + p.ident@ + ": "@ + p.bounds@
    } else if p.bounds@.len() == 0 {
        p.ident@
    } else {
        p.ident@ + ": "@ + p.bounds@
    }
}

/// The implementation's header: its generics, the type with its
/// parameters, and the where clause.
pub open spec fn header_text(d: DerivedImpl) -> Seq<char> {
    "impl"@ + angle_list(d.params@.map_values(|p: GenericParam| param_text(p)))
        + " ::typename::TypeName for "@ + d.ident@ + angle_list(
        d.params@.map_values(|p: GenericParam| p.ident@),
    ) + where_text(texts(d.predicates@))
}

/// The source text of the implementation: `name` is the base name with
/// the type parameters' names, and `fmt` starts a formatter with the base
/// name, attaches each type parameter in order, and finishes.
pub open spec fn rendered(d: DerivedImpl) -> Seq<char> {
    header_text(d) + " {\n    open spec fn name() -> Seq<char> {\n        ::typename::fmt::generic_name(\""@
        + d.base_name@ + "\"@, Seq::empty()"@ + wrapped(
        texts(d.type_args@),
        ".push(<"@,
        " as ::typename::TypeName>::name())"@,
    )
        + ")\n    }\n\n    fn fmt(f: &mut ::typename::sink::NameSink) -> (r: Result<(), ::typename::sink::WriteError>) {\n        let mut t = ::typename::fmt::TypeFormatter::new(f, \""@
        + d.base_name@ + "\");\n"@ + wrapped(texts(d.type_args@), "        t.type_param::<"@, ">(f);\n"@)
        + "        t.finish(f)\n    }\n}\n"@
}

fn append_joined(out: &mut String, items: &Vec<String>)
    ensures
        final(out)@ == old(out)@ + join_names(texts(items@)),
{
    let ghost o0 = out@;
    let mut i: usize = 0;
    while i < items.len()
        invariant
            i <= items@.len(),
            out@ == o0 + join_names(texts(items@.take(i as int))),
        decreases items@.len() - i,
    {
        let ghost t = texts(items@.take(i + 1));
        assert(t.drop_last() =~= texts(items@.take(i as int)));
        if i > 0 {
            proof {
                reveal_strlit(", ");
            }
            out.append(", ");
        }
        out.append(items[i].as_str());
        proof {
            if i == 0 {
                assert(join_names(t) == items@[0]@);
            }
        }
        assert(out@ =~= o0 + join_names(t));
        i = i + 1;
    }
    assert(items@.take(items@.len() as int) =~= items@);
}

fn append_angle_list(out: &mut String, items: &Vec<String>)
    ensures
        final(out)@ == old(out)@ + angle_list(texts(items@)),
{
    if items.len() > 0 {
        let ghost o0 = out@;
        out.append("<");
        append_joined(out, items);
        out.append(">");
        assert(out@ =~= o0 + angle_list(texts(items@)));
    } else {
        assert(out@ =~= out@ + angle_list(texts(items@)));
    }
}

fn append_wrapped(out: &mut String, items: &Vec<String>, pre: &str, post: &str)
    ensures
        final(out)@ == old(out)@ + wrapped(texts(items@), pre@, post@),
{
    let ghost o0 = out@;
    let mut i: usize = 0;
    while i < items.len()
        invariant
            i <= items@.len(),
            out@ == o0 + wrapped(texts(items@.take(i as int)), pre@, post@),
        decreases items@.len() - i,
    {
        let ghost t = texts(items@.take(i + 1));
        assert(t.drop_last() =~= texts(items@.take(i as int)));
        out.append(pre);
        out.append(items[i].as_str());
        out.append(post);
        assert(out@ =~= o0 + wrapped(t, pre@, post@));
        i = i + 1;
    }
    assert(items@.take(items@.len() as int) =~= items@);
}

fn param_decl(p: &GenericParam) -> (r: String)
    ensures
        r@ == param_text(*p),
{
    let mut s = String::new();
    match p.kind {
        ParamKind::Const => {
            s.append("const ");
            s.append(p.ident.as_str());
            s.append(": ");
            s.append(p.bounds.as_str());
        },
        _ => {
            s.append(p.ident.as_str());
            if p.bounds.as_str().unicode_len() > 0 {
                s.append(": ");
                s.append(p.bounds.as_str());
            }
        },
    }
    assert(s@ =~= param_text(*p));
    s
}

impl DerivedImpl {
    /// The source text of the implementation.
    pub fn render(&self) -> (r: String)
        ensures
            r@ == rendered(*self),
    {
        let mut decls: Vec<String> = Vec::new();
        let mut idents: Vec<String> = Vec::new();
        let mut i: usize = 0;
        while i < self.params.len()
            invariant
                i <= self.params@.len(),
                texts(decls@) == self.params@.take(i as int).map_values(|p: GenericParam| param_text(p)),
                texts(idents@) == self.params@.take(i as int).map_values(|p: GenericParam| p.ident@),
            decreases self.params@.len() - i,
        {
            let p = &self.params[i];
            let ghost d0 = decls@;
            let ghost n0 = idents@;
            let d = param_decl(p);
            let ghost dv = d@;
            decls.push(d);
            idents.push(p.ident.clone());
            assert(texts(decls@) =~= texts(d0).push(dv));
            assert(texts(idents@) =~= texts(n0).push(p.ident@));
            assert(self.params@.take(i + 1) =~= self.params@.take(i as int).push(*p));
            assert(texts(decls@) =~= self.params@.take(i + 1).map_values(|p: GenericParam| param_text(p)));
            assert(texts(idents@) =~= self.params@.take(i + 1).map_values(|p: GenericParam| p.ident@));
            i = i + 1;
        }
        assert(self.params@.take(self.params@.len() as int) =~= self.params@);
        let mut out = String::new();
        out.append("impl");
        append_angle_list(&mut out, &decls);
        out.append(" ::typename::TypeName for ");
        out.append(self.ident.as_str());
        append_angle_list(&mut out, &idents);
        if self.predicates.len() > 0 {
            out.append(" where ");
            append_joined(&mut out, &self.predicates);
        }
        assert(out@ =~= Seq::<char>::empty() + header_text(*self));
        out.append(" {\n    open spec fn name() -> Seq<char> {\n        ::typename::fmt::generic_name(\"");
        out.append(self.base_name.as_str());
        out.append("\"@, Seq::empty()");
        append_wrapped(&mut out, &self.type_args, ".push(<", " as ::typename::TypeName>::name())");
        out.append(")\n    }\n\n    fn fmt(f: &mut ::typename::sink::NameSink) -> (r: Result<(), ::typename::sink::WriteError>) {\n        let mut t = ::typename::fmt::TypeFormatter::new(f, \"");
        out.append(self.base_name.as_str());
        out.append("\");\n");
        append_wrapped(&mut out, &self.type_args, "        t.type_param::<", ">(f);\n");
        out.append("        t.finish(f)\n    }\n}\n");
        assert(out@ =~= rendered(*self));
        out
    }
}

} // verus!
