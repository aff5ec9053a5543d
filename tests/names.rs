use std::marker::PhantomData;
use std::path::PathBuf;
use std::rc::Rc;
use std::sync::mpsc::{Receiver, Sender};
use std::sync::Arc;

use typename::fmt::TypeFormatter;
use typename::sink::{NameSink, WriteError};
use typename::TypeName;

fn name_of<T: TypeName>() -> String {
    T::canonical_name()
}

#[test]
fn primitive_types() {
    assert_eq!(name_of::<u8>(), "u8");
    assert_eq!(name_of::<u16>(), "u16");
    assert_eq!(name_of::<u32>(), "u32");
    assert_eq!(name_of::<u64>(), "u64");
    assert_eq!(name_of::<usize>(), "usize");

    assert_eq!(name_of::<i8>(), "i8");
    assert_eq!(name_of::<i16>(), "i16");
    assert_eq!(name_of::<i32>(), "i32");
    assert_eq!(name_of::<i64>(), "i64");
    assert_eq!(name_of::<isize>(), "isize");

    assert_eq!(name_of::<char>(), "char");
    assert_eq!(name_of::<bool>(), "bool");
    assert_eq!(name_of::<()>(), "()");
}

#[test]
fn array_types() {
    assert_eq!(name_of::<[i32; 0]>(), "[i32; 0]");
    assert_eq!(name_of::<[bool; 4]>(), "[bool; 4]");
    assert_eq!(name_of::<[(char, i32); 10]>(), "[(char, i32); 10]");
    assert_eq!(name_of::<&mut [usize; 32]>(), "&mut [usize; 32]");
}

#[test]
fn ref_types() {
    assert_eq!(name_of::<&u8>(), "&u8");
    assert_eq!(name_of::<&mut i32>(), "&mut i32");
}

#[test]
fn tuples_types() {
    assert_eq!(name_of::<(i32,)>(), "(i32,)");
    assert_eq!(name_of::<(i32, i32)>(), "(i32, i32)");
    assert_eq!(
        name_of::<(i8, i8, i8, i8, i8, i8, i8, i8, i8, i8, i8)>(),
        "(i8, i8, i8, i8, i8, i8, i8, i8, i8, i8, i8)"
    );
}

#[test]
fn std_types() {
    assert_eq!(name_of::<Box<i32>>(), "std::boxed::Box<i32>");
    assert_eq!(name_of::<Vec<String>>(), "std::vec::Vec<std::string::String>");
    assert_eq!(
        name_of::<&mut Box<Vec<(bool, i32)>>>(),
        "&mut std::boxed::Box<std::vec::Vec<(bool, i32)>>"
    );
    assert_eq!(name_of::<[Rc<i32>; 5]>(), "[std::rc::Rc<i32>; 5]");
    assert_eq!(name_of::<PhantomData<&i32>>(), "std::marker::PhantomData<&i32>");
    assert_eq!(name_of::<Arc<i32>>(), "std::sync::Arc<i32>");
    assert_eq!(name_of::<Receiver<i32>>(), "std::sync::mpsc::Receiver<i32>");
    assert_eq!(name_of::<Sender<i32>>(), "std::sync::mpsc::Sender<i32>");
    assert_eq!(name_of::<PathBuf>(), "std::path::PathBuf");
}

#[test]
fn two_param_std_types() {
    assert_eq!(
        name_of::<Result<u8, String>>(),
        "std::result::Result<u8, std::string::String>"
    );
    assert_eq!(
        name_of::<std::collections::HashMap<u32, Option<bool>>>(),
        "std::collections::HashMap<u32, std::option::Option<bool>>"
    );
    assert_eq!(name_of::<std::sync::RwLock<u64>>(), "std::sync::RwLock<u64>");
}

#[test]
fn vec_of_i32() {
    assert_eq!(name_of::<Vec<i32>>(), "std::vec::Vec<i32>");
}

#[test]
fn empty_and_pair_tuples() {
    assert_eq!(name_of::<()>(), "()");
    assert_eq!(name_of::<(bool,)>(), "(bool,)");
    assert_eq!(name_of::<(bool, char)>(), "(bool, char)");
}

#[test]
fn three_bools() {
    assert_eq!(name_of::<[bool; 3]>(), "[bool; 3]");
}

#[test]
fn large_array_size() {
    assert_eq!(name_of::<[u8; 1000]>(), "[u8; 1000]");
}

#[test]
fn nested_box_under_mut_ref() {
    assert_eq!(
        name_of::<&mut Box<Vec<(bool, i32)>>>(),
        "&mut std::boxed::Box<std::vec::Vec<(bool, i32)>>"
    );
}

#[test]
fn naming_twice_is_identical() {
    let a = name_of::<Option<(u8, [char; 2])>>();
    let b = name_of::<Option<(u8, [char; 2])>>();
    assert_eq!(a, b);
    assert_eq!(a, "std::option::Option<(u8, [char; 2])>");
}

#[test]
fn name_of_a_value() {
    assert_eq!([0i32, 1, 2].type_name_of(), "[i32; 3]");
    assert_eq!(vec![0i32, 1, 2].type_name_of(), "std::vec::Vec<i32>");
}

#[test]
fn formatter_without_params_has_no_brackets() {
    let mut f = NameSink::new();
    let mut t = TypeFormatter::new(&mut f, "a::B");
    assert_eq!(t.finish(&mut f), Ok(()));
    assert_eq!(f.as_str(), "a::B");
}

#[test]
fn formatter_separates_params() {
    let mut f = NameSink::new();
    let mut t = TypeFormatter::new(&mut f, "a::B");
    t.type_param::<i32>(&mut f);
    t.param_name(&mut f, "x::Y");
    t.type_param::<(bool,)>(&mut f);
    assert_eq!(t.finish(&mut f), Ok(()));
    assert_eq!(f.as_str(), "a::B<i32, x::Y, (bool,)>");
}

#[test]
fn sink_refuses_whole_write() {
    let mut f = NameSink::with_limit(3);
    assert_eq!(f.write_str("ab"), Ok(()));
    assert_eq!(f.write_str("cd"), Err(WriteError));
    assert_eq!(f.as_str(), "ab");
    assert_eq!(f.write_str("c"), Ok(()));
    assert_eq!(f.into_string(), "abc");
}

#[test]
fn refusal_surfaces_at_finish() {
    let mut f = NameSink::with_limit(14);
    assert_eq!(<Vec<i32>>::fmt(&mut f), Err(WriteError));
    assert_eq!(f.as_str(), "std::vec::Vec<");

    let mut g = NameSink::with_limit(18);
    assert_eq!(<Vec<i32>>::fmt(&mut g), Ok(()));
    assert_eq!(g.as_str(), "std::vec::Vec<i32>");
}

#[test]
fn refused_base_name_writes_nothing() {
    let mut f = NameSink::with_limit(5);
    let mut t = TypeFormatter::new(&mut f, "std::vec::Vec");
    t.type_param::<u8>(&mut f);
    assert_eq!(t.finish(&mut f), Err(WriteError));
    assert_eq!(f.as_str(), "");
}

#[test]
fn refused_closing_bracket() {
    let mut f = NameSink::with_limit(7);
    let mut t = TypeFormatter::new(&mut f, "a::B");
    t.type_param::<u8>(&mut f);
    assert_eq!(t.finish(&mut f), Err(WriteError));
    assert_eq!(f.as_str(), "a::B<u8");
}

#[test]
fn refused_mut_prefix_leaves_sink() {
    let mut f = NameSink::with_limit(3);
    assert_eq!(<&mut u8>::fmt(&mut f), Err(WriteError));
    assert_eq!(f.as_str(), "");

    let mut g = NameSink::with_limit(6);
    assert_eq!(<&mut u8>::fmt(&mut g), Err(WriteError));
    assert_eq!(g.as_str(), "&mut ");
}

#[test]
fn failed_builder_writes_nothing_more() {
    let mut f = NameSink::with_limit(6);
    let mut t = TypeFormatter::new(&mut f, "a::B");
    t.type_param::<u16>(&mut f);
    assert_eq!(f.as_str(), "a::B<");
    t.type_param::<u8>(&mut f);
    assert_eq!(f.as_str(), "a::B<");
    assert_eq!(t.finish(&mut f), Err(WriteError));
    assert_eq!(f.as_str(), "a::B<");
}
