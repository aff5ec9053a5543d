use typename::derive::{derive_type_name, DerivedImpl, GenericParam, ParamKind, TypeDecl};
use typename::TypeName;

fn param(kind: ParamKind, ident: &str, bounds: &str) -> GenericParam {
    GenericParam { kind, ident: ident.to_string(), bounds: bounds.to_string() }
}

fn decl(module: &str, ident: &str, params: Vec<GenericParam>, predicates: Vec<&str>) -> TypeDecl {
    TypeDecl {
        module: module.to_string(),
        ident: ident.to_string(),
        params,
        predicates: predicates.into_iter().map(|p| p.to_string()).collect(),
    }
}

fn unit_struct() -> DerivedImpl {
    derive_type_name(decl("tests", "UnitStruct", vec![], vec![]))
}

#[test]
fn check_type_name() {
    let unit = unit_struct();
    let unit_name = unit.instance_name(&vec![]);
    assert_eq!("tests::UnitStruct", unit_name);

    let tuple_struct = derive_type_name(decl(
        "tests",
        "TupleStruct",
        vec![param(ParamKind::Type, "T", "")],
        vec![],
    ));
    assert_eq!(
        "tests::TupleStruct<tests::UnitStruct>",
        tuple_struct.instance_name(&vec![unit_name.clone()])
    );

    let plain_struct = derive_type_name(decl(
        "tests",
        "Struct",
        vec![
            param(ParamKind::Type, "T", "Clone"),
            param(ParamKind::Type, "S", "Clone + TypeName"),
        ],
        vec![],
    ));
    assert_eq!(
        "tests::Struct<tests::UnitStruct, i32>",
        plain_struct.instance_name(&vec![unit_name.clone(), i32::canonical_name()])
    );

    let some_enum = derive_type_name(decl("tests", "SomeEnum", vec![], vec![]));
    assert_eq!("tests::SomeEnum", some_enum.instance_name(&vec![]));
}

#[test]
fn custom_with_i32() {
    let custom = derive_type_name(decl(
        "m",
        "Custom",
        vec![param(ParamKind::Type, "T", "Copy + TypeName")],
        vec!["T: Default"],
    ));
    assert_eq!(custom.instance_name(&vec![i32::canonical_name()]), "m::Custom<i32>");
    assert_eq!(custom.predicates, vec!["T: Default", "T: ::typename::TypeName"]);
    assert_eq!(custom.params[0].bounds, "Copy + TypeName");
}

#[test]
fn bounds_follow_declaration_order() {
    let d = derive_type_name(decl(
        "a::b",
        "Pair",
        vec![
            param(ParamKind::Lifetime, "'x", ""),
            param(ParamKind::Type, "K", "Ord"),
            param(ParamKind::Const, "N", "usize"),
            param(ParamKind::Type, "V", ""),
        ],
        vec!["K: Clone"],
    ));
    assert_eq!(d.base_name, "a::b::Pair");
    assert_eq!(d.type_args, vec!["K", "V"]);
    assert_eq!(
        d.predicates,
        vec!["K: Clone", "K: ::typename::TypeName", "V: ::typename::TypeName"]
    );
    assert_eq!(d.params.len(), 4);
    assert_eq!(
        d.instance_name(&vec![String::from("u8"), String::from("bool")]),
        "a::b::Pair<u8, bool>"
    );
}

#[test]
fn unit_struct_has_no_brackets() {
    let unit = unit_struct();
    assert!(unit.type_args.is_empty());
    assert!(unit.predicates.is_empty());
    assert_eq!(unit.instance_name(&vec![]), "tests::UnitStruct");
}

#[test]
fn instance_refused_by_small_sink() {
    let d = derive_type_name(decl("m", "Custom", vec![param(ParamKind::Type, "T", "")], vec![]));
    let mut f = typename::sink::NameSink::with_limit(9);
    assert!(d.fmt_instance(&mut f, &vec![String::from("i32")]).is_err());
    assert_eq!(f.as_str(), "m::Custom");
}

#[test]
fn render_unit_struct() {
    let text = unit_struct().render();
    let expected = [
        "impl ::typename::TypeName for UnitStruct {\n",
        "    open spec fn name() -> Seq<char> {\n",
        "        ::typename::fmt::generic_name(\"tests::UnitStruct\"@, Seq::empty())\n",
        "    }\n",
        "\n",
        "    fn fmt(f: &mut ::typename::sink::NameSink) -> (r: Result<(), ::typename::sink::WriteError>) {\n",
        "        let mut t = ::typename::fmt::TypeFormatter::new(f, \"tests::UnitStruct\");\n",
        "        t.finish(f)\n",
        "    }\n",
        "}\n",
    ]
    .concat();
    assert_eq!(text, expected);
}

#[test]
fn render_generic_struct() {
    let d = derive_type_name(decl(
        "a::b",
        "Pair",
        vec![
            param(ParamKind::Lifetime, "'x", ""),
            param(ParamKind::Type, "K", "Ord"),
            param(ParamKind::Const, "N", "usize"),
            param(ParamKind::Type, "V", ""),
        ],
        vec!["K: Clone"],
    ));
    let text = d.render();
    assert!(text.starts_with(&[
        "impl<'x, K: Ord, const N: usize, V> ::typename::TypeName for Pair<'x, K, N, V> ",
        "where K: Clone, K: ::typename::TypeName, V: ::typename::TypeName {\n",
    ]
    .concat()));
    assert!(text.contains(&[
        "generic_name(\"a::b::Pair\"@, Seq::empty()",
        ".push(<K as ::typename::TypeName>::name())",
        ".push(<V as ::typename::TypeName>::name()))\n",
    ]
    .concat()));
    assert!(text.contains(&[
        "TypeFormatter::new(f, \"a::b::Pair\");\n",
        "        t.type_param::<K>(f);\n",
        "        t.type_param::<V>(f);\n",
        "        t.finish(f)\n",
    ]
    .concat()));
}
