#![allow(dead_code)]
#![allow(unused_imports)]

use interop_bindings::cc_api::generate_rs_api_impl;
use interop_bindings::emit::generate_rs_api;
use interop_bindings::rs_api::{
    format_generic_params, generate_derives, make_ident, thunk_ident, RsTypeKind,
};
use interop_bindings::rs_snippet::Mutability;
use interop_bindings::words::{word_str, Word};

use interop_bindings::ir::{
    make_ir_from_items, AccessSpecifier, BazelLabel, CcType, Comment, DeclId, Field, Func,
    FuncParam, HeaderName, Identifier, InstanceMethodMetadata, Item, LifetimeId, LifetimeName,
    MappedType, MemberFuncMetadata, Record, RsType, SourceLoc, SpecialMemberFunc, TypeAlias,
    UnqualifiedIdentifier, UnsupportedItem, IR,
};
use proc_macro2::{Delimiter, TokenStream, TokenTree};

const TESTING_TARGET: &str = "//test:testing_target";
const DEPENDENCY_TARGET: &str = "//test:dependency";

fn ident(name: &str) -> Identifier {
    Identifier { identifier: name.to_string() }
}

fn label(name: &str) -> BazelLabel {
    BazelLabel(name.to_string())
}

fn loc(line: u64) -> SourceLoc {
    SourceLoc { filename: "ir_from_cc_virtual_header.h".to_string(), line, column: 1 }
}

fn rs_named(name: &str, type_args: Vec<RsType>) -> RsType {
    RsType { name: Some(name.to_string()), lifetime_args: vec![], type_args, decl_id: None }
}

fn rs_ref(name: &str, lifetime: i32, referent: RsType) -> RsType {
    RsType {
        name: Some(name.to_string()),
        lifetime_args: vec![LifetimeId(lifetime)],
        type_args: vec![referent],
        decl_id: None,
    }
}

fn rs_decl(id: usize) -> RsType {
    RsType { name: None, lifetime_args: vec![], type_args: vec![], decl_id: Some(DeclId(id)) }
}

fn cc_named(name: &str, is_const: bool, type_args: Vec<CcType>) -> CcType {
    CcType { name: Some(name.to_string()), is_const, type_args, decl_id: None }
}

fn cc_decl(id: usize, is_const: bool) -> CcType {
    CcType { name: None, is_const, type_args: vec![], decl_id: Some(DeclId(id)) }
}

fn mapped(rs_type: RsType, cc_type: CcType) -> MappedType {
    MappedType { rs_type, cc_type }
}

fn int_type() -> MappedType {
    mapped(rs_named("i32", vec![]), cc_named("int", false, vec![]))
}

fn void_type() -> MappedType {
    mapped(rs_named("()", vec![]), cc_named("void", false, vec![]))
}

fn record_type(id: usize) -> MappedType {
    mapped(rs_decl(id), cc_decl(id, false))
}

/// `T*` without lifetimes: a pointer on both sides.
fn ptr_to_record(id: usize, is_const: bool) -> MappedType {
    mapped(
        rs_named(if is_const { "*const" } else { "*mut" }, vec![rs_decl(id)]),
        cc_named("*", false, vec![cc_decl(id, is_const)]),
    )
}

/// `T&` with the lifetime `lifetime`: a reference on the generated side.
fn ref_to_record(id: usize, is_const: bool, lifetime: i32) -> MappedType {
    mapped(
        rs_ref(if is_const { "&" } else { "&mut" }, lifetime, rs_decl(id)),
        cc_named("&", false, vec![cc_decl(id, is_const)]),
    )
}

fn param(name: &str, type_: MappedType) -> FuncParam {
    FuncParam { type_, identifier: ident(name) }
}

fn ir_record(name: &str) -> Record {
    Record {
        identifier: ident(name),
        cc_name: name.to_string(),
        cc_preferred_name: name.to_string(),
        id: DeclId(0),
        owning_target: label(TESTING_TARGET),
        defining_target: None,
        enclosing_namespace_id: None,
        template_specialization: None,
        bridge_type_info: None,
        doc_comment: None,
        fields: vec![],
        size: 0,
        alignment: 0,
        copy_constructor: SpecialMemberFunc::Trivial,
        move_constructor: SpecialMemberFunc::Trivial,
        destructor: SpecialMemberFunc::Trivial,
        is_trivial_abi: true,
        is_final: true,
        is_abstract: false,
        is_union: false,
        source_loc: loc(1),
    }
}

/// A record as it is read from `struct Name {...};`: one byte, not final.
fn cc_struct(name: &str, id: usize) -> Record {
    let mut record = ir_record(name);
    record.id = DeclId(id);
    record.size = 1;
    record.alignment = 1;
    record.is_final = false;
    record
}

fn field(name: &str, type_: MappedType, access: AccessSpecifier, offset: usize) -> Field {
    Field { identifier: ident(name), doc_comment: None, type_, access, offset }
}

fn ir_func(name: &str) -> Func {
    Func {
        name: UnqualifiedIdentifier::Identifier(ident(name)),
        owning_target: label(TESTING_TARGET),
        mangled_name: "_Z3foov".to_string(),
        doc_comment: None,
        return_type: void_type(),
        params: vec![],
        lifetime_params: vec![],
        is_inline: true,
        member_func_metadata: None,
        source_loc: loc(1),
    }
}

fn free_func(name: &str, mangled: &str, return_type: MappedType, params: Vec<FuncParam>) -> Func {
    let mut func = ir_func(name);
    func.mangled_name = mangled.to_string();
    func.return_type = return_type;
    func.params = params;
    func.is_inline = false;
    func
}

fn method_meta(record_id: usize, is_const: bool, is_virtual: bool) -> Option<MemberFuncMetadata> {
    Some(MemberFuncMetadata {
        record_id: DeclId(record_id),
        instance_method_metadata: Some(InstanceMethodMetadata { is_const, is_virtual }),
    })
}

fn static_meta(record_id: usize) -> Option<MemberFuncMetadata> {
    Some(MemberFuncMetadata { record_id: DeclId(record_id), instance_method_metadata: None })
}

/// The implicit or declared destructor `~Name()` of the record `record_id`.
fn destructor(record_id: usize, mangled: &str) -> Func {
    let mut func = ir_func("unused");
    func.name = UnqualifiedIdentifier::Destructor;
    func.mangled_name = mangled.to_string();
    func.params = vec![param("__this", ptr_to_record(record_id, false))];
    func.member_func_metadata = method_meta(record_id, false, false);
    func
}

/// The constructor `Name(params...)` of the record `record_id`.
fn constructor(record_id: usize, mangled: &str, mut more: Vec<FuncParam>) -> Func {
    let mut func = ir_func("unused");
    func.name = UnqualifiedIdentifier::Constructor;
    func.mangled_name = mangled.to_string();
    let mut params = vec![param("__this", ptr_to_record(record_id, false))];
    params.append(&mut more);
    func.params = params;
    func.member_func_metadata = static_meta(record_id);
    func
}

fn make_ir(items: Vec<Item>) -> IR {
    make_ir_from_items(label(TESTING_TARGET), vec![], items).unwrap()
}

fn flatten_into(stream: TokenStream, out: &mut Vec<String>) {
    for tree in stream {
        match tree {
            TokenTree::Group(group) => {
                let (open, close) = match group.delimiter() {
                    Delimiter::Parenthesis => ("(", ")"),
                    Delimiter::Brace => ("{", "}"),
                    Delimiter::Bracket => ("[", "]"),
                    Delimiter::None => ("", ""),
                };
                out.push(open.to_string());
                flatten_into(group.stream(), out);
                out.push(close.to_string());
            }
            other => out.push(other.to_string()),
        }
    }
}

fn flatten(stream: &TokenStream) -> Vec<String> {
    let mut out = Vec::new();
    flatten_into(stream.clone(), &mut out);
    out
}

fn pattern_tokens(pattern: &str) -> Vec<String> {
    let stream: TokenStream = pattern.parse().unwrap();
    let flat = flatten(&stream);
    let mut out = Vec::new();
    let mut i = 0;
    while i < flat.len() {
        if i + 2 < flat.len() && flat[i] == "." && flat[i + 1] == "." && flat[i + 2] == "." {
            out.push("...".to_string());
            i += 3;
        } else {
            out.push(flat[i].clone());
            i += 1;
        }
    }
    out
}

fn matches_at(actual: &[String], pattern: &[String]) -> bool {
    if pattern.is_empty() {
        return true;
    }
    if pattern[0] == "..." {
        return (0..=actual.len()).any(|skip| matches_at(&actual[skip..], &pattern[1..]));
    }
    !actual.is_empty() && actual[0] == pattern[0] && matches_at(&actual[1..], &pattern[1..])
}

/// Whether the tokens of `pattern` stand in `actual` one after another;
/// `...` in the pattern stands for any tokens.
fn token_match(actual: &TokenStream, pattern: &str) -> bool {
    let actual = flatten(actual);
    let pattern = pattern_tokens(pattern);
    (0..=actual.len()).any(|start| matches_at(&actual[start..], &pattern))
}

fn assert_matches(actual: &TokenStream, pattern: &str) {
    assert!(token_match(actual, pattern), "no match for `{}` in:\n{}", pattern, actual);
}

fn assert_not_matches(actual: &TokenStream, pattern: &str) {
    assert!(!token_match(actual, pattern), "unexpected match for `{}` in:\n{}", pattern, actual);
}

fn add_func(is_inline: bool) -> Func {
    let mut func = free_func(
        "Add",
        "_Z3Addii",
        int_type(),
        vec![param("a", int_type()), param("b", int_type())],
    );
    func.is_inline = is_inline;
    func
}

fn derive_names(record: &Record) -> Vec<&'static str> {
    generate_derives(record).into_iter().map(word_str).collect()
}

#[test]
fn test_duplicate_decl_ids_err() {
    let mut r1 = ir_record("R1");
    r1.id = DeclId(42);
    let mut r2 = ir_record("R2");
    r2.id = DeclId(42);
    let result =
        make_ir_from_items(label(TESTING_TARGET), vec![], vec![Item::Record(r1), Item::Record(r2)]);
    assert!(result.is_err());
    assert!(result.unwrap_err().message().contains("Duplicate decl_id found in"));
}

#[test]
fn test_simple_function() {
    // int Add(int a, int b);
    let ir = make_ir(vec![Item::Func(add_func(false))]);
    let rs_api = generate_rs_api(&ir);
    assert_matches(
        &rs_api,
        "#[inline(always)]
         pub fn Add(a: i32, b: i32) -> i32 {
             unsafe { crate::detail::__rust_thunk___Z3Addii(a, b) }
         }",
    );
    assert_matches(
        &rs_api,
        "mod detail {
             #[allow(unused_imports)]
             use super::*;
             extern \"C\" {
                 #[link_name = \"_Z3Addii\"]
                 pub(crate) fn __rust_thunk___Z3Addii(a: i32, b: i32) -> i32;
             }
         }",
    );
    assert_not_matches(&generate_rs_api_impl(&ir), "__rust_thunk___Z3Addii");
}

#[test]
fn test_inline_function() {
    // inline int Add(int a, int b);
    let ir = make_ir(vec![Item::Func(add_func(true))]);
    let rs_api = generate_rs_api(&ir);
    assert_matches(
        &rs_api,
        "#[inline(always)]
         pub fn Add(a: i32, b: i32) -> i32 {
             unsafe { crate::detail::__rust_thunk___Z3Addii(a, b) }
         }",
    );
    assert_matches(
        &rs_api,
        "mod detail {
             #[allow(unused_imports)]
             use super::*;
             extern \"C\" {
                 pub(crate) fn __rust_thunk___Z3Addii(a: i32, b: i32) -> i32;
             }
         }",
    );
    assert_matches(
        &generate_rs_api_impl(&ir),
        "extern \"C\" int __rust_thunk___Z3Addii(int a, int b) {
             return Add(a, b);
         }",
    );
}

#[test]
fn test_simple_function_with_types_from_other_target() {
    // inline ReturnStruct DoSomething(ParamStruct param);
    // with `struct ReturnStruct {}; struct ParamStruct {};` in a dependency.
    let mut return_struct = cc_struct("ReturnStruct", 1);
    return_struct.owning_target = label(DEPENDENCY_TARGET);
    let mut param_struct = cc_struct("ParamStruct", 2);
    param_struct.owning_target = label(DEPENDENCY_TARGET);
    let mut func = free_func(
        "DoSomething",
        "_Z11DoSomething11ParamStruct",
        record_type(1),
        vec![param("param", record_type(2))],
    );
    func.is_inline = true;
    let ir = make_ir(vec![
        Item::Record(return_struct),
        Item::Record(param_struct),
        Item::Func(func),
    ]);

    let rs_api = generate_rs_api(&ir);
    assert_matches(
        &rs_api,
        "#[inline(always)]
         pub fn DoSomething(param: dependency::ParamStruct)
             -> dependency::ReturnStruct {
             unsafe { crate::detail::__rust_thunk___Z11DoSomething11ParamStruct(param) }
         }",
    );
    assert_matches(
        &rs_api,
        "mod detail {
            #[allow(unused_imports)]
            use super::*;
            extern \"C\" {
                pub(crate) fn __rust_thunk___Z11DoSomething11ParamStruct(param: dependency::ParamStruct)
                    -> dependency::ReturnStruct;
            }
        }",
    );
    assert_matches(
        &generate_rs_api_impl(&ir),
        "extern \"C\" class ReturnStruct __rust_thunk___Z11DoSomething11ParamStruct(class ParamStruct param) {
             return DoSomething(param);
         }",
    );
}

fn some_struct() -> Record {
    // struct SomeStruct final {
    //     int public_int;
    //   protected:
    //     int protected_int;
    //   private:
    //     int private_int;
    // };
    let mut record = ir_record("SomeStruct");
    record.id = DeclId(1);
    record.size = 12;
    record.alignment = 4;
    record.fields = vec![
        field("public_int", int_type(), AccessSpecifier::Public, 0),
        field("protected_int", int_type(), AccessSpecifier::Protected, 32),
        field("private_int", int_type(), AccessSpecifier::Private, 64),
    ];
    record
}

#[test]
fn test_simple_struct() {
    let ir = make_ir(vec![
        Item::Record(some_struct()),
        Item::Func(destructor(1, "_ZN10SomeStructD1Ev")),
    ]);

    let rs_api = generate_rs_api(&ir);
    assert_matches(
        &rs_api,
        "#[derive(Clone, Copy)]
         #[repr(C)]
         pub struct SomeStruct {
             pub public_int: i32,
             protected_int: i32,
             private_int: i32,
         }",
    );
    assert_matches(
        &rs_api,
        "const _: () = assert!(std::mem::size_of::<Option<&i32>>() == std::mem::size_of::<&i32>());
         ...
         const _: () = assert!(std::mem::size_of::<SomeStruct>() == 12usize);
         const _: () = assert!(std::mem::align_of::<SomeStruct>() == 4usize);
         const _: () = assert!(offset_of!(SomeStruct, public_int) * 8 == 0usize);
         const _: () = assert!(offset_of!(SomeStruct, protected_int) * 8 == 32usize);
         const _: () = assert!(offset_of!(SomeStruct, private_int) * 8 == 64usize);",
    );
    let rs_api_impl = generate_rs_api_impl(&ir);
    assert_matches(
        &rs_api_impl,
        "extern \"C\" void __rust_thunk___ZN10SomeStructD1Ev(class SomeStruct * __this) {
             std :: destroy_at (__this) ;
         }",
    );
    assert_matches(
        &rs_api_impl,
        "static_assert(sizeof(class SomeStruct) == 12);
         static_assert(alignof(class SomeStruct) == 4);
         static_assert(offsetof(class SomeStruct, public_int) * 8 == 0);",
    );
}

fn foo_taking(mangled: &str, param_name: &str, type_: MappedType) -> Func {
    let mut func = free_func("foo", mangled, void_type(), vec![param(param_name, type_)]);
    func.is_inline = true;
    func
}

#[test]
fn test_ref_to_struct_in_thunk_impls() {
    // struct S{}; inline void foo(class S& s) {}
    let s_ref = mapped(
        rs_named("*mut", vec![rs_decl(1)]),
        cc_named("&", false, vec![cc_decl(1, false)]),
    );
    let ir = make_ir(vec![
        Item::Record(cc_struct("S", 1)),
        Item::Func(foo_taking("_Z3fooR1S", "s", s_ref)),
    ]);
    assert_matches(
        &generate_rs_api_impl(&ir),
        "extern \"C\" void __rust_thunk___Z3fooR1S(class S& s) {
             foo(s);
         }",
    );
}

#[test]
fn test_const_ref_to_struct_in_thunk_impls() {
    // struct S{}; inline void foo(const class S& s) {}
    let s_ref = mapped(
        rs_named("*const", vec![rs_decl(1)]),
        cc_named("&", false, vec![cc_decl(1, true)]),
    );
    let ir = make_ir(vec![
        Item::Record(cc_struct("S", 1)),
        Item::Func(foo_taking("_Z3fooRK1S", "s", s_ref)),
    ]);
    assert_matches(
        &generate_rs_api_impl(&ir),
        "extern \"C\" void __rust_thunk___Z3fooRK1S(const class S& s) {
             foo(s);
         }",
    );
}

#[test]
fn test_unsigned_int_in_thunk_impls() {
    // inline void foo(unsigned int i) {}
    let unsigned = mapped(rs_named("u32", vec![]), cc_named("unsigned int", false, vec![]));
    let ir = make_ir(vec![Item::Func(foo_taking("_Z3fooj", "i", unsigned))]);
    assert_matches(
        &generate_rs_api_impl(&ir),
        "extern \"C\" void __rust_thunk___Z3fooj(unsigned int i) {
             foo(i);
         }",
    );
}

#[test]
fn test_record_static_methods_qualify_call_in_thunk() {
    // struct SomeStruct {
    //     static inline int some_func() { return 42; }
    // };
    let mut func = free_func("some_func", "_ZN10SomeStruct9some_funcEv", int_type(), vec![]);
    func.is_inline = true;
    func.member_func_metadata = static_meta(1);
    let ir = make_ir(vec![Item::Record(cc_struct("SomeStruct", 1)), Item::Func(func)]);
    assert_matches(
        &generate_rs_api_impl(&ir),
        "extern \"C\" int __rust_thunk___ZN10SomeStruct9some_funcEv() {
             return SomeStruct::some_func();
         }",
    );
}

#[test]
fn test_record_instance_methods_deref_this_in_thunk() {
    // struct SomeStruct {
    //     inline int some_func(int arg) const { return 42 + arg; }
    // };
    let mut func = free_func(
        "some_func",
        "_ZNK10SomeStruct9some_funcEi",
        int_type(),
        vec![param("__this", ptr_to_record(1, true)), param("arg", int_type())],
    );
    func.is_inline = true;
    func.member_func_metadata = method_meta(1, true, false);
    let ir = make_ir(vec![Item::Record(cc_struct("SomeStruct", 1)), Item::Func(func)]);
    assert_matches(
        &generate_rs_api_impl(&ir),
        "extern \"C\" int __rust_thunk___ZNK10SomeStruct9some_funcEi(
                 const class SomeStruct* __this, int arg) {
             return __this->some_func(arg);
         }",
    );
}

#[test]
fn test_struct_from_other_target() {
    // `struct SomeStruct {};` in a dependency, nothing in the unit itself.
    let mut record = cc_struct("SomeStruct", 1);
    record.owning_target = label(DEPENDENCY_TARGET);
    let ir = make_ir(vec![Item::Record(record)]);
    assert_not_matches(&generate_rs_api(&ir), "SomeStruct");
    assert_not_matches(&generate_rs_api_impl(&ir), "SomeStruct");
}

#[test]
fn test_copy_derives() {
    let record = ir_record("S");
    assert_eq!(derive_names(&record), ["Clone", "Copy"]);
}

#[test]
fn test_copy_derives_not_is_trivial_abi() {
    let mut record = ir_record("S");
    record.is_trivial_abi = false;
    assert_eq!(derive_names(&record), [""; 0]);
}

#[test]
fn test_copy_derives_not_final() {
    let mut record = ir_record("S");
    record.is_final = false;
    assert_eq!(derive_names(&record), [""; 0]);
}

#[test]
fn test_copy_derives_ctor_nonpublic() {
    // A copy constructor that is protected or private cannot be called.
    let mut record = ir_record("S");
    for _access in [AccessSpecifier::Protected, AccessSpecifier::Private] {
        record.copy_constructor = SpecialMemberFunc::Unavailable;
        assert_eq!(derive_names(&record), [""; 0]);
    }
}

#[test]
fn test_copy_derives_ctor_deleted() {
    let mut record = ir_record("S");
    record.copy_constructor = SpecialMemberFunc::Deleted;
    assert_eq!(derive_names(&record), [""; 0]);
}

#[test]
fn test_copy_derives_ctor_nontrivial_members() {
    let mut record = ir_record("S");
    record.copy_constructor = SpecialMemberFunc::NontrivialMembers;
    assert_eq!(derive_names(&record), [""; 0]);
}

#[test]
fn test_copy_derives_ctor_nontrivial_self() {
    let mut record = ir_record("S");
    record.copy_constructor = SpecialMemberFunc::NontrivialUserDefined;
    assert_eq!(derive_names(&record), [""; 0]);
}

#[test]
fn test_ptr_func() {
    // inline int* Deref(int*const* p);
    let int_ptr = mapped(
        rs_named("*mut", vec![rs_named("i32", vec![])]),
        cc_named("*", false, vec![cc_named("int", false, vec![])]),
    );
    let p = mapped(
        rs_named("*const", vec![rs_named("*mut", vec![rs_named("i32", vec![])])]),
        cc_named("*", false, vec![cc_named("*", true, vec![cc_named("int", false, vec![])])]),
    );
    let mut func = free_func("Deref", "_Z5DerefPKPi", int_ptr, vec![param("p", p)]);
    func.is_inline = true;
    let ir = make_ir(vec![Item::Func(func)]);

    let rs_api = generate_rs_api(&ir);
    assert_matches(
        &rs_api,
        "#[inline(always)]
         pub fn Deref(p: *const *mut i32) -> *mut i32 {
             unsafe { crate::detail::__rust_thunk___Z5DerefPKPi(p) }
         }",
    );
    assert_matches(
        &rs_api,
        "mod detail {
             #[allow(unused_imports)]
             use super::*;
             extern \"C\" {
                 pub(crate) fn __rust_thunk___Z5DerefPKPi(p: *const *mut i32) -> *mut i32;
             }
         }",
    );
    assert_matches(
        &generate_rs_api_impl(&ir),
        "extern \"C\" int* __rust_thunk___Z5DerefPKPi(int* const * p) {
             return Deref(p);
         }",
    );
}

#[test]
fn test_const_char_ptr_func() {
    // inline void f(const char *str);
    let str_type = mapped(
        rs_named("*const", vec![rs_named("i8", vec![])]),
        cc_named("*", false, vec![cc_named("char", true, vec![])]),
    );
    let mut func = free_func("f", "_Z1fPKc", void_type(), vec![param("str", str_type)]);
    func.is_inline = true;
    let ir = make_ir(vec![Item::Func(func)]);

    let rs_api = generate_rs_api(&ir);
    assert_matches(
        &rs_api,
        "#[inline(always)]
         pub fn f(str: *const i8) {
             unsafe { crate::detail::__rust_thunk___Z1fPKc(str) }
         }",
    );
    assert_matches(
        &rs_api,
        "extern \"C\" {
             pub(crate) fn __rust_thunk___Z1fPKc(str: *const i8);
         }",
    );
    assert_matches(
        &generate_rs_api_impl(&ir),
        "extern \"C\" void __rust_thunk___Z1fPKc(char const * str){ f(str) ; }",
    );
}

#[test]
fn test_item_order() {
    // int first_func();
    // struct FirstStruct {};
    // int second_func();
    // struct SecondStruct {};
    let ir = make_ir(vec![
        Item::Func(free_func("first_func", "_Z10first_funcv", int_type(), vec![])),
        Item::Record(cc_struct("FirstStruct", 1)),
        Item::Func(free_func("second_func", "_Z11second_funcv", int_type(), vec![])),
        Item::Record(cc_struct("SecondStruct", 2)),
    ]);

    let rs_api = generate_rs_api(&ir).to_string();
    let idx = |s: &str| match rs_api.find(s) {
        Some(i) => i,
        None => panic!("'{}' missing", s),
    };

    let f1 = idx("fn first_func");
    let f2 = idx("fn second_func");
    let s1 = idx("struct FirstStruct");
    let s2 = idx("struct SecondStruct");
    let t1 = idx("fn __rust_thunk___Z10first_funcv");
    let t2 = idx("fn __rust_thunk___Z11second_funcv");

    assert!(f1 < s1);
    assert!(s1 < f2);
    assert!(f2 < s2);
    assert!(s2 < t1);
    assert!(t1 < t2);
}

#[test]
fn test_doc_comment_func() {
    // // Doc Comment
    // // with two lines
    // int func();
    let mut func = free_func("func", "_Z4funcv", int_type(), vec![]);
    func.doc_comment = Some("Doc Comment\nwith two lines".to_string());
    let ir = make_ir(vec![Item::Func(func)]);
    assert_matches(
        &generate_rs_api(&ir),
        "#[doc = \" Doc Comment\\n with two lines\"]
         #[inline(always)]
         pub fn func",
    );
}

#[test]
fn test_doc_comment_record() {
    // // Doc Comment
    // //
    // //  * with bullet
    // struct SomeStruct final {
    //     // Field doc
    //     int field;
    // };
    let mut record = ir_record("SomeStruct");
    record.id = DeclId(1);
    record.size = 4;
    record.alignment = 4;
    record.doc_comment = Some("Doc Comment\n\n * with bullet".to_string());
    let mut documented = field("field", int_type(), AccessSpecifier::Public, 0);
    documented.doc_comment = Some("Field doc".to_string());
    record.fields = vec![documented];
    let ir = make_ir(vec![Item::Record(record)]);
    assert_matches(
        &generate_rs_api(&ir),
        "#[doc = \" Doc Comment\\n \\n  * with bullet\"]
         #[derive(Clone, Copy)]
         #[repr(C)]
         pub struct SomeStruct {
             # [doc = \" Field doc\"]
             pub field: i32,
         }",
    );
}

#[test]
fn test_virtual_thunk() {
    // struct Polymorphic { virtual void Foo(); };
    let mut record = cc_struct("Polymorphic", 1);
    record.is_trivial_abi = false;
    let mut func = free_func(
        "Foo",
        "_ZN11Polymorphic3FooEv",
        void_type(),
        vec![param("__this", ptr_to_record(1, false))],
    );
    func.member_func_metadata = method_meta(1, false, true);
    let ir = make_ir(vec![Item::Record(record), Item::Func(func)]);
    assert_matches(
        &generate_rs_api_impl(&ir),
        "extern \"C\" void __rust_thunk___ZN11Polymorphic3FooEv(class Polymorphic * __this)",
    );
}

#[test]
fn test_no_negative_impl_unpin() {
    // struct Trivial final {};
    let mut record = cc_struct("Trivial", 1);
    record.is_final = true;
    let ir = make_ir(vec![Item::Record(record)]);
    assert_not_matches(&generate_rs_api(&ir), "impl !Unpin");
}

#[test]
fn test_negative_impl_unpin_nonfinal() {
    // struct Nonfinal {};
    let ir = make_ir(vec![Item::Record(cc_struct("Nonfinal", 1))]);
    assert_matches(&generate_rs_api(&ir), "impl !Unpin for Nonfinal {}");
}

#[test]
fn test_no_impl_drop() {
    // struct Trivial {};
    let ir = make_ir(vec![
        Item::Record(cc_struct("Trivial", 1)),
        Item::Func(destructor(1, "_ZN7TrivialD1Ev")),
    ]);
    let rs_api = generate_rs_api(&ir).to_string();
    assert!(!rs_api.contains("impl Drop"));
}

#[test]
fn test_impl_drop_user_defined_destructor() {
    // struct NontrivialStruct { ~NontrivialStruct(); };
    // struct UserDefinedDestructor {
    //     ~UserDefinedDestructor();
    //     int x;
    //     NontrivialStruct nts;
    // };
    let mut nontrivial = cc_struct("NontrivialStruct", 1);
    nontrivial.is_trivial_abi = false;
    nontrivial.destructor = SpecialMemberFunc::NontrivialUserDefined;
    let mut record = cc_struct("UserDefinedDestructor", 2);
    record.is_trivial_abi = false;
    record.destructor = SpecialMemberFunc::NontrivialUserDefined;
    record.size = 8;
    record.alignment = 4;
    record.fields = vec![
        field("x", int_type(), AccessSpecifier::Public, 0),
        field("nts", record_type(1), AccessSpecifier::Public, 32),
    ];
    let mut dtor1 = destructor(1, "_ZN16NontrivialStructD1Ev");
    dtor1.is_inline = false;
    let mut dtor2 = destructor(2, "_ZN21UserDefinedDestructorD1Ev");
    dtor2.is_inline = false;
    let ir = make_ir(vec![
        Item::Record(nontrivial),
        Item::Func(dtor1),
        Item::Record(record),
        Item::Func(dtor2),
    ]);
    let rs_api = generate_rs_api(&ir);
    assert_matches(
        &rs_api,
        "impl Drop for UserDefinedDestructor {
             #[inline(always)]
             fn drop(&mut self) {
                 unsafe { crate::detail::__rust_thunk___ZN21UserDefinedDestructorD1Ev(self) }
             }
         }",
    );
    assert_matches(&rs_api, "pub x: i32,");
    assert_matches(&rs_api, "pub nts: std::mem::ManuallyDrop<NontrivialStruct>,");
}

#[test]
fn test_impl_drop_nontrivial_member_destructor() {
    // struct UserDefinedDestructor final {
    //     ~UserDefinedDestructor();
    // };
    // struct TrivialStruct final { int i; };
    // struct NontrivialMembers final {
    //     UserDefinedDestructor udd;
    //     TrivialStruct ts;
    //     int x;
    // };
    let mut udd = cc_struct("UserDefinedDestructor", 1);
    udd.is_final = true;
    udd.is_trivial_abi = false;
    udd.destructor = SpecialMemberFunc::NontrivialUserDefined;
    let mut trivial = ir_record("TrivialStruct");
    trivial.id = DeclId(2);
    trivial.size = 4;
    trivial.alignment = 4;
    trivial.fields = vec![field("i", int_type(), AccessSpecifier::Public, 0)];
    let mut members = ir_record("NontrivialMembers");
    members.id = DeclId(3);
    members.size = 12;
    members.alignment = 4;
    members.is_trivial_abi = false;
    members.destructor = SpecialMemberFunc::NontrivialMembers;
    members.fields = vec![
        field("udd", record_type(1), AccessSpecifier::Public, 0),
        field("ts", record_type(2), AccessSpecifier::Public, 32),
        field("x", int_type(), AccessSpecifier::Public, 64),
    ];
    let ir = make_ir(vec![
        Item::Record(udd),
        Item::Record(trivial),
        Item::Record(members),
        Item::Func(destructor(3, "_ZN17NontrivialMembersD1Ev")),
    ]);
    let rs_api = generate_rs_api(&ir);
    assert_matches(
        &rs_api,
        "impl Drop for NontrivialMembers {
             #[inline(always)]
             fn drop(&mut self) {
                 unsafe { crate::detail::__rust_thunk___ZN17NontrivialMembersD1Ev(self) }
             }
         }",
    );
    assert_matches(&rs_api, "pub x: i32,");
    assert_matches(&rs_api, "pub ts: TrivialStruct,");
    assert_matches(&rs_api, "pub udd: std::mem::ManuallyDrop<UserDefinedDestructor>,");
}

#[test]
fn test_impl_drop_trivial() {
    // struct Trivial final {
    //     ~Trivial() = default;
    //     int x;
    // };
    let mut record = ir_record("Trivial");
    record.id = DeclId(1);
    record.size = 4;
    record.alignment = 4;
    record.fields = vec![field("x", int_type(), AccessSpecifier::Public, 0)];
    let ir = make_ir(vec![Item::Record(record), Item::Func(destructor(1, "_ZN7TrivialD1Ev"))]);
    let rs_api = generate_rs_api(&ir);
    assert_not_matches(&rs_api, "impl Drop");
    assert_matches(&rs_api, "pub x: i32");
    let rs_api_impl = generate_rs_api_impl(&ir);
    assert_matches(&rs_api_impl, "std::destroy_at");
}

#[test]
fn test_impl_default_explicitly_defaulted_constructor() {
    // struct DefaultedConstructor final {
    //     DefaultedConstructor() = default;
    // };
    let mut record = cc_struct("DefaultedConstructor", 1);
    record.is_final = true;
    let ir = make_ir(vec![
        Item::Record(record),
        Item::Func(constructor(1, "_ZN20DefaultedConstructorC1Ev", vec![])),
    ]);
    let rs_api = generate_rs_api(&ir);
    assert_matches(
        &rs_api,
        "impl Default for DefaultedConstructor {
             #[inline(always)]
             fn default() -> Self {
                 let mut tmp = std::mem::MaybeUninit::<Self>::zeroed();
                 unsafe {
                     crate::detail::__rust_thunk___ZN20DefaultedConstructorC1Ev(&mut tmp);
                     tmp.assume_init()
                 }
             }
         }",
    );
    let rs_api_impl = generate_rs_api_impl(&ir);
    assert_matches(
        &rs_api_impl,
        "extern \"C\" void __rust_thunk___ZN20DefaultedConstructorC1Ev(
                 class DefaultedConstructor* __this) {
             rs_api_impl_support::construct_at (__this) ;
         }",
    );
}

#[test]
fn test_impl_default_non_trivial_struct() {
    // struct NonTrivialStructWithConstructors final {
    //     NonTrivialStructWithConstructors();
    //     ~NonTrivialStructWithConstructors();  // Non-trivial
    // };
    let mut record = cc_struct("NonTrivialStructWithConstructors", 1);
    record.is_final = true;
    record.is_trivial_abi = false;
    record.destructor = SpecialMemberFunc::NontrivialUserDefined;
    let mut ctor = constructor(1, "_ZN32NonTrivialStructWithConstructorsC1Ev", vec![]);
    ctor.is_inline = false;
    let mut dtor = destructor(1, "_ZN32NonTrivialStructWithConstructorsD1Ev");
    dtor.is_inline = false;
    let ir = make_ir(vec![Item::Record(record), Item::Func(ctor), Item::Func(dtor)]);
    let rs_api = generate_rs_api(&ir);
    assert_not_matches(&rs_api, "impl Default");
}

#[test]
fn test_thunk_ident_function() {
    let func = ir_func("foo");
    assert_eq!(
        thunk_ident(&func).unwrap().to_string(),
        make_ident("__rust_thunk___Z3foov").unwrap().to_string()
    );
}

#[test]
fn test_thunk_ident_special_names() {
    // struct Class {};
    let ir = make_ir(vec![
        Item::Record(cc_struct("Class", 1)),
        Item::Func(constructor(1, "_ZN5ClassC1Ev", vec![])),
        Item::Func(destructor(1, "_ZN5ClassD1Ev")),
    ]);
    let functions: Vec<&Func> = ir
        .items
        .iter()
        .filter_map(|item| match item {
            Item::Func(func) => Some(func),
            _ => None,
        })
        .collect();

    let destructor =
        functions.iter().find(|f| matches!(f.name, UnqualifiedIdentifier::Destructor)).unwrap();
    assert_eq!(
        thunk_ident(destructor).unwrap().to_string(),
        make_ident("__rust_thunk___ZN5ClassD1Ev").unwrap().to_string()
    );

    let constructor =
        functions.iter().find(|f| matches!(f.name, UnqualifiedIdentifier::Constructor)).unwrap();
    assert_eq!(
        thunk_ident(constructor).unwrap().to_string(),
        make_ident("__rust_thunk___ZN5ClassC1Ev").unwrap().to_string()
    );
}

#[test]
fn test_elided_lifetimes() {
    // #pragma clang lifetime_elision
    // struct S final {
    //   int& f(int& i);
    // };
    let mut record = cc_struct("S", 1);
    record.is_final = true;
    let int_ref = |lifetime: i32| {
        mapped(
            rs_ref("&mut", lifetime, rs_named("i32", vec![])),
            cc_named("&", false, vec![cc_named("int", false, vec![])]),
        )
    };
    let mut func = free_func(
        "f",
        "_ZN1S1fERi",
        int_ref(1),
        vec![param("__this", ref_to_record(1, false, 1)), param("i", int_ref(2))],
    );
    func.lifetime_params = vec![
        LifetimeName { name: "a".to_string(), id: LifetimeId(1) },
        LifetimeName { name: "b".to_string(), id: LifetimeId(2) },
    ];
    func.member_func_metadata = method_meta(1, false, false);
    let ir = make_ir(vec![Item::Record(record), Item::Func(func)]);
    let rs_api = generate_rs_api(&ir);
    assert_matches(
        &rs_api,
        "pub fn f<'a, 'b>(&'a mut self, i: &'b mut i32) -> &'a mut i32 { ... }",
    );
    assert_matches(
        &rs_api,
        "pub(crate) fn __rust_thunk___ZN1S1fERi<'a, 'b>(__this: &'a mut S, i: &'b mut i32)
             -> &'a mut i32;",
    );
}

#[test]
fn test_format_generic_params() {
    assert!(format_generic_params(&vec![]).is_empty());

    let idents: Vec<TokenStream> =
        ["T1", "T2"].iter().map(|s| make_ident(s).unwrap()).collect();
    assert_eq!(
        flatten(&format_generic_params(&idents)),
        pattern_tokens("< T1, T2 >")
    );

    let lifetimes: Vec<TokenStream> =
        ["a", "b"].iter().map(|s| format!("'{}", s).parse().unwrap()).collect();
    assert_eq!(
        flatten(&format_generic_params(&lifetimes)),
        pattern_tokens("< 'a, 'b >")
    );
}

fn overloads_ir(with_lifetimes: bool) -> IR {
    // void f();
    // void f(int i);
    // struct S1 final {
    //   void f();
    //   void f(int i);
    // };
    // struct S2 final {
    //   void f();
    // };
    // struct S3 final {
    //   S3(int i);
    //   S3(double d);
    // };
    let final_struct = |name: &str, id: usize| {
        let mut record = cc_struct(name, id);
        record.is_final = true;
        record
    };
    let method = |record_id: usize, mangled: &str, mut more: Vec<FuncParam>| {
        let this = if with_lifetimes {
            ref_to_record(record_id, false, 1)
        } else {
            ptr_to_record(record_id, false)
        };
        let mut params = vec![param("__this", this)];
        params.append(&mut more);
        let mut func = free_func("f", mangled, void_type(), params);
        if with_lifetimes {
            func.lifetime_params =
                vec![LifetimeName { name: "a".to_string(), id: LifetimeId(1) }];
        }
        func.member_func_metadata = method_meta(record_id, false, false);
        func
    };
    let double_type = mapped(rs_named("f64", vec![]), cc_named("double", false, vec![]));
    let mut ctor_int = constructor(3, "_ZN2S3C1Ei", vec![param("i", int_type())]);
    ctor_int.is_inline = false;
    let mut ctor_double = constructor(3, "_ZN2S3C1Ed", vec![param("d", double_type)]);
    ctor_double.is_inline = false;
    make_ir(vec![
        Item::Func(free_func("f", "_Z1fv", void_type(), vec![])),
        Item::Func(free_func("f", "_Z1fi", void_type(), vec![param("i", int_type())])),
        Item::Record(final_struct("S1", 1)),
        Item::Func(method(1, "_ZN2S11fEv", vec![])),
        Item::Func(method(1, "_ZN2S11fEi", vec![param("i", int_type())])),
        Item::Record(final_struct("S2", 2)),
        Item::Func(method(2, "_ZN2S21fEv", vec![])),
        Item::Record(final_struct("S3", 3)),
        Item::Func(ctor_int),
        Item::Func(ctor_double),
    ])
}

#[test]
fn test_overloaded_functions() {
    let ir = overloads_ir(false);
    let rs_api = generate_rs_api(&ir);
    let rs_api_str = rs_api.to_string();

    // Cannot overload free functions.
    assert!(rs_api_str.contains("Error while generating bindings for item 'f'"));
    assert!(rs_api_str.contains("Cannot generate bindings for overloaded function"));
    assert_not_matches(&rs_api, "pub fn f()");
    assert_not_matches(&rs_api, "pub fn f(i: i32)");

    // Cannot overload member functions.
    assert!(rs_api_str.contains("Error while generating bindings for item 'S1::f'"));
    assert_not_matches(&rs_api, "pub fn f(... S1 ...)");

    // A member function that has the same name as a free function does not
    // collide with it. Without lifetimes its receiver is a pointer, from
    // which no `self` can be made: it gets a placeholder that says so.
    assert!(rs_api_str.contains("Error while generating bindings for item 'S2::f'"));
    assert!(rs_api_str.contains("`self` has no lifetime"));
    assert_not_matches(&rs_api, "pub fn f(__this: *mut S2)");

    // We can also import overloaded single-parameter constructors.
    assert_matches(&rs_api, "impl From<i32> for S3");
    assert_matches(&rs_api, "impl From<f64> for S3");
}

#[test]
fn test_overloaded_methods_with_lifetimes() {
    let ir = overloads_ir(true);
    let rs_api = generate_rs_api(&ir);
    let rs_api_str = rs_api.to_string();

    // Both free functions and both methods of S1 are placeholders.
    assert_eq!(rs_api_str.matches("Cannot generate bindings for overloaded function").count(), 4);
    assert!(rs_api_str.contains("Error while generating bindings for item 'f'"));
    assert!(rs_api_str.contains("Error while generating bindings for item 'S1::f'"));
    assert_not_matches(&rs_api, "pub fn f()");
    assert_not_matches(&rs_api, "impl S1");

    // The method of S2 shares only the bare name and is emitted normally.
    assert!(!rs_api_str.contains("Error while generating bindings for item 'S2::f'"));
    assert_matches(
        &rs_api,
        "impl S2 {
             #[inline(always)]
             pub fn f<'a>(&'a mut self) {
                 unsafe { crate::detail::__rust_thunk___ZN2S21fEv(self) }
             }
         }",
    );
    assert_matches(&rs_api, "pub(crate) fn __rust_thunk___ZN2S21fEv<'a>(__this: &'a mut S2);");
    assert_not_matches(&rs_api, "__rust_thunk___ZN2S11fEv");
}

#[test]
fn test_type_alias() {
    // typedef int MyTypedefDecl;
    // using MyTypeAliasDecl = int;
    // using MyTypeAliasDecl_Alias = MyTypeAliasDecl;
    //
    // struct S final {};
    // using S_Alias = S;
    // using S_Alias_Alias = S_Alias;
    //
    // inline void f(MyTypedefDecl t) {}
    let alias = |name: &str, id: usize, underlying: MappedType| TypeAlias {
        identifier: ident(name),
        id: DeclId(id),
        owning_target: label(TESTING_TARGET),
        enclosing_namespace_id: None,
        doc_comment: None,
        underlying_type: underlying,
        source_loc: loc(1),
    };
    let mut s = cc_struct("S", 4);
    s.is_final = true;
    let mut f = free_func("f", "_Z1fi", void_type(), vec![param("t", record_type(1))]);
    f.is_inline = true;
    let ir = make_ir(vec![
        Item::TypeAlias(alias("MyTypedefDecl", 1, int_type())),
        Item::TypeAlias(alias("MyTypeAliasDecl", 2, int_type())),
        Item::TypeAlias(alias("MyTypeAliasDecl_Alias", 3, record_type(2))),
        Item::Record(s),
        Item::TypeAlias(alias("S_Alias", 5, record_type(4))),
        Item::TypeAlias(alias("S_Alias_Alias", 6, record_type(5))),
        Item::Func(f),
    ]);
    let rs_api = generate_rs_api(&ir);
    assert_matches(&rs_api, "pub type MyTypedefDecl = i32;");
    assert_matches(&rs_api, "pub type MyTypeAliasDecl = i32;");
    assert_matches(&rs_api, "pub type MyTypeAliasDecl_Alias = MyTypeAliasDecl;");
    assert_matches(&rs_api, "pub type S_Alias = S;");
    assert_matches(&rs_api, "pub type S_Alias_Alias = S_Alias;");
    assert_matches(&rs_api, "pub fn f(t: MyTypedefDecl)");
    assert_matches(
        &generate_rs_api_impl(&ir),
        "extern \"C\" void __rust_thunk___Z1fi(MyTypedefDecl t){ f (t) ; }",
    );
}

#[test]
fn test_rs_type_kind_implements_copy() {
    // #pragma clang lifetime_elision
    // struct [[clang::trivial_abi]] TrivialStruct final { int i; };
    // struct [[clang::trivial_abi]] UserDefinedCopyConstructor final {
    //     UserDefinedCopyConstructor(const UserDefinedCopyConstructor&);
    // };
    // using IntAlias = int;
    // using TrivialAlias = TrivialStruct;
    // using NonTrivialAlias = UserDefinedCopyConstructor;
    // void func(PARAM_TYPE some_param);
    let int = || rs_named("i32", vec![]);
    let tests: Vec<(&str, RsType, bool)> = vec![
        ("int", int(), true),
        ("const int&", rs_ref("&", 1, int()), true),
        ("int&", rs_ref("&mut", 1, int()), false),
        ("const int*", rs_named("*const", vec![int()]), true),
        ("int*", rs_named("*mut", vec![int()]), true),
        ("TrivialStruct", rs_decl(1), true),
        ("UserDefinedCopyConstructor", rs_decl(2), false),
        ("IntAlias", rs_decl(3), true),
        ("TrivialAlias", rs_decl(4), true),
        ("NonTrivialAlias", rs_decl(5), false),
    ];
    for (type_str, rs_type, is_copy_expected) in tests {
        let mut trivial = ir_record("TrivialStruct");
        trivial.id = DeclId(1);
        trivial.size = 4;
        trivial.alignment = 4;
        trivial.fields = vec![field("i", int_type(), AccessSpecifier::Public, 0)];
        let mut user_defined = ir_record("UserDefinedCopyConstructor");
        user_defined.id = DeclId(2);
        user_defined.copy_constructor = SpecialMemberFunc::NontrivialUserDefined;
        let alias = |name: &str, id: usize, underlying: MappedType| TypeAlias {
            identifier: ident(name),
            id: DeclId(id),
            owning_target: label(TESTING_TARGET),
            enclosing_namespace_id: None,
            doc_comment: None,
            underlying_type: underlying,
            source_loc: loc(1),
        };
        let func = free_func(
            "func",
            "_Z4funcX",
            void_type(),
            vec![param("some_param", mapped(rs_type, cc_named("int", false, vec![])))],
        );
        let ir = make_ir(vec![
            Item::Record(trivial),
            Item::Record(user_defined),
            Item::TypeAlias(alias("IntAlias", 3, int_type())),
            Item::TypeAlias(alias("TrivialAlias", 4, record_type(1))),
            Item::TypeAlias(alias("NonTrivialAlias", 5, record_type(2))),
            Item::Func(func),
        ]);
        let f = ir
            .items
            .iter()
            .find_map(|item| match item {
                Item::Func(f) => match &f.name {
                    UnqualifiedIdentifier::Identifier(id) if id.identifier == "func" => Some(f),
                    _ => None,
                },
                _ => None,
            })
            .unwrap();
        let t = RsTypeKind::new(&f.params[0].type_.rs_type, &ir).unwrap();
        assert_eq!(is_copy_expected, t.implements_copy(), "Testing '{}'", type_str);
    }
}

fn first_record(ir: &IR) -> &Record {
    ir.items
        .iter()
        .find_map(|item| match item {
            Item::Record(record) => Some(record),
            _ => None,
        })
        .unwrap()
}

fn func_named<'a>(ir: &'a IR, name: &str) -> &'a Func {
    ir.items
        .iter()
        .find_map(|item| match item {
            Item::Func(f) => match &f.name {
                UnqualifiedIdentifier::Identifier(id) if id.identifier == name => Some(f),
                _ => None,
            },
            _ => None,
        })
        .unwrap()
}

#[test]
fn test_rs_type_kind_is_shared_ref_to_with_lifetimes() {
    // #pragma clang lifetime_elision
    // struct SomeStruct {};
    // void foo(const SomeStruct& foo_param);
    // void bar(SomeStruct& bar_param);
    let mut foo = free_func(
        "foo",
        "_Z3fooRK10SomeStruct",
        void_type(),
        vec![param("foo_param", ref_to_record(1, true, 1))],
    );
    foo.lifetime_params = vec![LifetimeName { name: "a".to_string(), id: LifetimeId(1) }];
    let mut bar = free_func(
        "bar",
        "_Z3barR10SomeStruct",
        void_type(),
        vec![param("bar_param", ref_to_record(1, false, 1))],
    );
    bar.lifetime_params = vec![LifetimeName { name: "a".to_string(), id: LifetimeId(1) }];
    let ir = make_ir(vec![
        Item::Record(cc_struct("SomeStruct", 1)),
        Item::Func(foo),
        Item::Func(bar),
    ]);
    let record = first_record(&ir);
    let foo_func = func_named(&ir, "foo");
    let bar_func = func_named(&ir, "bar");

    // const-ref + lifetimes in C++  ===>  shared-ref in Rust
    assert_eq!(foo_func.params.len(), 1);
    let foo_param = &foo_func.params[0];
    assert_eq!(&foo_param.identifier.identifier, "foo_param");
    let foo_type = RsTypeKind::new(&foo_param.type_.rs_type, &ir).unwrap();
    assert!(foo_type.is_shared_ref_to(record));
    assert!(matches!(foo_type, RsTypeKind::Reference { mutability: Mutability::Const, .. }));

    // non-const-ref + lifetimes in C++  ===>  mutable-ref in Rust
    assert_eq!(bar_func.params.len(), 1);
    let bar_param = &bar_func.params[0];
    assert_eq!(&bar_param.identifier.identifier, "bar_param");
    let bar_type = RsTypeKind::new(&bar_param.type_.rs_type, &ir).unwrap();
    assert!(!bar_type.is_shared_ref_to(record));
    assert!(matches!(bar_type, RsTypeKind::Reference { mutability: Mutability::Mut, .. }));
}

#[test]
fn test_rs_type_kind_is_shared_ref_to_without_lifetimes() {
    // struct SomeStruct {};
    // void foo(const SomeStruct& foo_param);
    let foo = free_func(
        "foo",
        "_Z3fooRK10SomeStruct",
        void_type(),
        vec![param(
            "foo_param",
            mapped(
                rs_named("*const", vec![rs_decl(1)]),
                cc_named("&", false, vec![cc_decl(1, true)]),
            ),
        )],
    );
    let ir = make_ir(vec![Item::Record(cc_struct("SomeStruct", 1)), Item::Func(foo)]);
    let record = first_record(&ir);
    let foo_func = func_named(&ir, "foo");

    // const-ref + *no* lifetimes in C++  ===>  const-pointer in Rust
    assert_eq!(foo_func.params.len(), 1);
    let foo_param = &foo_func.params[0];
    assert_eq!(&foo_param.identifier.identifier, "foo_param");
    let foo_type = RsTypeKind::new(&foo_param.type_.rs_type, &ir).unwrap();
    assert!(!foo_type.is_shared_ref_to(record));
    assert!(matches!(foo_type, RsTypeKind::Pointer { mutability: Mutability::Const, .. }));
}
