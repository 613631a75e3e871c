#![allow(dead_code)]
#![allow(unused_imports)]

use interop_bindings::cc_api::{
    cc_struct_layout_assertion, cc_type_name_for_item, format_cc_type, generate_cc_thunk,
    generate_rs_api_impl,
};
use interop_bindings::emit::{
    cxx_function_name, emit_items, generate_comment, generate_rs_api, generate_type_alias,
    generate_unsupported,
};
use interop_bindings::error::ErrorKind;
use interop_bindings::features::RustFeatures;
use interop_bindings::rs_api::{
    format_lifetime, format_rs_type, generate_doc_comment, generate_record, make_ident,
    needs_manually_drop, rs_type_name_for_target_and_identifier, RsTypeKind,
};
use interop_bindings::rs_snippet::Mutability;
use interop_bindings::signature::{can_skip_cc_thunk, generate_func, FunctionId};
use interop_bindings::lifetimes::{check_elision, collect_lifetimes, holds_elided, holds_one_named, param_lifetimes};

use interop_bindings::ir::{
    make_ir_from_items, AccessSpecifier, BazelLabel, CcType, Comment, DeclId, Field, Func,
    FuncParam, HeaderName, Identifier, InstanceMethodMetadata, Item, LifetimeId, LifetimeName,
    MappedType, MemberFuncMetadata, Record, RsType, SourceLoc, SpecialMemberFunc, TypeAlias,
    UnqualifiedIdentifier, UnsupportedItem, IR,
};
use proc_macro2::{Delimiter, TokenStream, TokenTree};

const TESTING_TARGET: &str = "//test:testing_target";
const DEPENDENCY_TARGET: &str = "//test:dependency";

fn ident(name: &str) -> Identifier {
    Identifier { identifier: name.to_string() }
}

fn label(name: &str) -> BazelLabel {
    BazelLabel(name.to_string())
}

fn loc(line: u64) -> SourceLoc {
    SourceLoc { filename: "ir_from_cc_virtual_header.h".to_string(), line, column: 1 }
}

fn rs_named(name: &str, type_args: Vec<RsType>) -> RsType {
    RsType { name: Some(name.to_string()), lifetime_args: vec![], type_args, decl_id: None }
}

fn rs_ref(name: &str, lifetime: i32, referent: RsType) -> RsType {
    RsType {
        name: Some(name.to_string()),
        lifetime_args: vec![LifetimeId(lifetime)],
        type_args: vec![referent],
        decl_id: None,
    }
}

fn rs_decl(id: usize) -> RsType {
    RsType { name: None, lifetime_args: vec![], type_args: vec![], decl_id: Some(DeclId(id)) }
}

fn cc_named(name: &str, is_const: bool, type_args: Vec<CcType>) -> CcType {
    CcType { name: Some(name.to_string()), is_const, type_args, decl_id: None }
}

fn cc_decl(id: usize, is_const: bool) -> CcType {
    CcType { name: None, is_const, type_args: vec![], decl_id: Some(DeclId(id)) }
}

fn mapped(rs_type: RsType, cc_type: CcType) -> MappedType {
    MappedType { rs_type, cc_type }
}

fn int_type() -> MappedType {
    mapped(rs_named("i32", vec![]), cc_named("int", false, vec![]))
}

fn void_type() -> MappedType {
    mapped(rs_named("()", vec![]), cc_named("void", false, vec![]))
}

fn record_type(id: usize) -> MappedType {
    mapped(rs_decl(id), cc_decl(id, false))
}

/// `T*` without lifetimes: a pointer on both sides.
fn ptr_to_record(id: usize, is_const: bool) -> MappedType {
    mapped(
        rs_named(if is_const { "*const" } else { "*mut" }, vec![rs_decl(id)]),
        cc_named("*", false, vec![cc_decl(id, is_const)]),
    )
}

/// `T&` with the lifetime `lifetime`: a reference on the generated side.
fn ref_to_record(id: usize, is_const: bool, lifetime: i32) -> MappedType {
    mapped(
        rs_ref(if is_const { "&" } else { "&mut" }, lifetime, rs_decl(id)),
        cc_named("&", false, vec![cc_decl(id, is_const)]),
    )
}

fn param(name: &str, type_: MappedType) -> FuncParam {
    FuncParam { type_, identifier: ident(name) }
}

fn ir_record(name: &str) -> Record {
    Record {
        identifier: ident(name),
        cc_name: name.to_string(),
        cc_preferred_name: name.to_string(),
        id: DeclId(0),
        owning_target: label(TESTING_TARGET),
        defining_target: None,
        enclosing_namespace_id: None,
        template_specialization: None,
        bridge_type_info: None,
        doc_comment: None,
        fields: vec![],
        size: 0,
        alignment: 0,
        copy_constructor: SpecialMemberFunc::Trivial,
        move_constructor: SpecialMemberFunc::Trivial,
        destructor: SpecialMemberFunc::Trivial,
        is_trivial_abi: true,
        is_final: true,
        is_abstract: false,
        is_union: false,
        source_loc: loc(1),
    }
}

/// A record as it is read from `struct Name {...};`: one byte, not final.
fn cc_struct(name: &str, id: usize) -> Record {
    let mut record = ir_record(name);
    record.id = DeclId(id);
    record.size = 1;
    record.alignment = 1;
    record.is_final = false;
    record
}

fn field(name: &str, type_: MappedType, access: AccessSpecifier, offset: usize) -> Field {
    Field { identifier: ident(name), doc_comment: None, type_, access, offset }
}

fn ir_func(name: &str) -> Func {
    Func {
        name: UnqualifiedIdentifier::Identifier(ident(name)),
        owning_target: label(TESTING_TARGET),
        mangled_name: "_Z3foov".to_string(),
        doc_comment: None,
        return_type: void_type(),
        params: vec![],
        lifetime_params: vec![],
        is_inline: true,
        member_func_metadata: None,
        source_loc: loc(1),
    }
}

fn free_func(name: &str, mangled: &str, return_type: MappedType, params: Vec<FuncParam>) -> Func {
    let mut func = ir_func(name);
    func.mangled_name = mangled.to_string();
    func.return_type = return_type;
    func.params = params;
    func.is_inline = false;
    func
}

fn method_meta(record_id: usize, is_const: bool, is_virtual: bool) -> Option<MemberFuncMetadata> {
    Some(MemberFuncMetadata {
        record_id: DeclId(record_id),
        instance_method_metadata: Some(InstanceMethodMetadata { is_const, is_virtual }),
    })
}

fn static_meta(record_id: usize) -> Option<MemberFuncMetadata> {
    Some(MemberFuncMetadata { record_id: DeclId(record_id), instance_method_metadata: None })
}

/// The implicit or declared destructor `~Name()` of the record `record_id`.
fn destructor(record_id: usize, mangled: &str) -> Func {
    let mut func = ir_func("unused");
    func.name = UnqualifiedIdentifier::Destructor;
    func.mangled_name = mangled.to_string();
    func.params = vec![param("__this", ptr_to_record(record_id, false))];
    func.member_func_metadata = method_meta(record_id, false, false);
    func
}

/// The constructor `Name(params...)` of the record `record_id`.
fn constructor(record_id: usize, mangled: &str, mut more: Vec<FuncParam>) -> Func {
    let mut func = ir_func("unused");
    func.name = UnqualifiedIdentifier::Constructor;
    func.mangled_name = mangled.to_string();
    let mut params = vec![param("__this", ptr_to_record(record_id, false))];
    params.append(&mut more);
    func.params = params;
    func.member_func_metadata = static_meta(record_id);
    func
}

fn make_ir(items: Vec<Item>) -> IR {
    make_ir_from_items(label(TESTING_TARGET), vec![], items).unwrap()
}

fn flatten_into(stream: TokenStream, out: &mut Vec<String>) {
    for tree in stream {
        match tree {
            TokenTree::Group(group) => {
                let (open, close) = match group.delimiter() {
                    Delimiter::Parenthesis => ("(", ")"),
                    Delimiter::Brace => ("{", "}"),
                    Delimiter::Bracket => ("[", "]"),
                    Delimiter::None => ("", ""),
                };
                out.push(open.to_string());
                flatten_into(group.stream(), out);
                out.push(close.to_string());
            }
            other => out.push(other.to_string()),
        }
    }
}

fn flatten(stream: &TokenStream) -> Vec<String> {
    let mut out = Vec::new();
    flatten_into(stream.clone(), &mut out);
    out
}

fn pattern_tokens(pattern: &str) -> Vec<String> {
    let stream: TokenStream = pattern.parse().unwrap();
    let flat = flatten(&stream);
    let mut out = Vec::new();
    let mut i = 0;
    while i < flat.len() {
        if i + 2 < flat.len() && flat[i] == "." && flat[i + 1] == "." && flat[i + 2] == "." {
            out.push("...".to_string());
            i += 3;
        } else {
            out.push(flat[i].clone());
            i += 1;
        }
    }
    out
}

fn matches_at(actual: &[String], pattern: &[String]) -> bool {
    if pattern.is_empty() {
        return true;
    }
    if pattern[0] == "..." {
        return (0..=actual.len()).any(|skip| matches_at(&actual[skip..], &pattern[1..]));
    }
    !actual.is_empty() && actual[0] == pattern[0] && matches_at(&actual[1..], &pattern[1..])
}

/// Whether the tokens of `pattern` stand in `actual` one after another;
/// `...` in the pattern stands for any tokens.
fn token_match(actual: &TokenStream, pattern: &str) -> bool {
    let actual = flatten(actual);
    let pattern = pattern_tokens(pattern);
    (0..=actual.len()).any(|start| matches_at(&actual[start..], &pattern))
}

fn assert_matches(actual: &TokenStream, pattern: &str) {
    assert!(token_match(actual, pattern), "no match for `{}` in:\n{}", pattern, actual);
}

fn assert_not_matches(actual: &TokenStream, pattern: &str) {
    assert!(!token_match(actual, pattern), "unexpected match for `{}` in:\n{}", pattern, actual);
}

fn unit_ir() -> IR {
    make_ir(vec![])
}

fn kind_error(ty: &RsType, ir: &IR) -> (ErrorKind, String) {
    match RsTypeKind::new(ty, ir) {
        Ok(_) => panic!("expected an error"),
        Err(err) => (err.kind, err.message()),
    }
}

#[test]
fn test_resolution_errors() {
    let mut record = ir_record("R");
    record.id = DeclId(1);
    let ir = make_ir(vec![
        Item::Record(record),
        Item::Func(ir_func("f")),
        Item::Comment(Comment { text: "c".to_string() }),
    ]);
    let int = || rs_named("i32", vec![]);

    assert_eq!(
        kind_error(&rs_named("*mut", vec![]), &ir),
        (
            ErrorKind::MissingTypeArgument,
            "Missing pointee/referent type (need exactly 1 type argument)".to_string()
        )
    );
    assert_eq!(
        kind_error(&rs_named("*const", vec![int(), int()]), &ir).0,
        ErrorKind::MissingTypeArgument
    );
    assert_eq!(
        kind_error(&rs_named("&", vec![int()]), &ir),
        (
            ErrorKind::MissingLifetime,
            "Missing reference lifetime (need exactly 1 lifetime argument)".to_string()
        )
    );
    let mut two_lifetimes = rs_ref("&mut", 1, int());
    two_lifetimes.lifetime_args.push(LifetimeId(2));
    assert_eq!(kind_error(&two_lifetimes, &ir).0, ErrorKind::MissingLifetime);
    // The referent is looked at before the lifetime.
    assert_eq!(kind_error(&rs_named("&", vec![]), &ir).0, ErrorKind::MissingTypeArgument);
    assert_eq!(
        kind_error(&rs_decl(99), &ir),
        (ErrorKind::UnresolvableIdentifier, "Couldn't find decl_id 99 in the IR.".to_string())
    );
    let nameless = RsType { name: None, lifetime_args: vec![], type_args: vec![], decl_id: None };
    assert_eq!(
        kind_error(&nameless, &ir),
        (
            ErrorKind::UnresolvableIdentifier,
            "Type does not have an associated item.".to_string()
        )
    );
    let mut with_args = rs_decl(1);
    with_args.type_args.push(int());
    assert_eq!(
        kind_error(&with_args, &ir),
        (
            ErrorKind::UnsupportedTypeArguments,
            "Type arguments on records nor type aliases are not yet supported".to_string()
        )
    );
    assert_eq!(
        kind_error(&rs_named("()", vec![int()]), &ir),
        (
            ErrorKind::UnsupportedTypeArguments,
            "Unit type must not have type arguments".to_string()
        )
    );
    // An error in a type argument is the error of the whole type.
    assert_eq!(
        kind_error(&rs_named("Pair", vec![int(), rs_named("*mut", vec![])]), &ir).0,
        ErrorKind::MissingTypeArgument
    );
}

#[test]
fn test_resolution_of_a_declaration_that_is_no_type() {
    let ns = interop_bindings::ir::Namespace {
        name: ident("ns"),
        id: DeclId(5),
        enclosing_namespace_id: None,
    };
    let ir = make_ir(vec![Item::Namespace(ns)]);
    assert_eq!(
        kind_error(&rs_decl(5), &ir),
        (ErrorKind::NotAType, "Item does not define a type".to_string())
    );
}

fn alias(name: &str, id: usize, underlying: MappedType) -> TypeAlias {
    TypeAlias {
        identifier: ident(name),
        id: DeclId(id),
        owning_target: label(TESTING_TARGET),
        enclosing_namespace_id: None,
        doc_comment: None,
        underlying_type: underlying,
        source_loc: loc(3),
    }
}

#[test]
fn test_resolution_sees_through_aliases() {
    let ir = make_ir(vec![
        Item::TypeAlias(alias("A", 1, record_type(2))),
        Item::TypeAlias(alias("B", 2, int_type())),
    ]);
    match RsTypeKind::new(&rs_decl(1), &ir).unwrap() {
        RsTypeKind::TypeAlias { type_alias, underlying_type } => {
            assert_eq!(type_alias.identifier.identifier, "A");
            match *underlying_type {
                RsTypeKind::TypeAlias { type_alias, underlying_type } => {
                    assert_eq!(type_alias.identifier.identifier, "B");
                    assert!(matches!(*underlying_type, RsTypeKind::Other { name: "i32", .. }));
                }
                _ => panic!("expected an alias"),
            }
        }
        _ => panic!("expected an alias"),
    }
    assert!(matches!(RsTypeKind::new(&rs_named("()", vec![]), &ir).unwrap(), RsTypeKind::Unit));
}

#[test]
fn test_resolution_of_aliases_that_lead_back() {
    let ir = make_ir(vec![
        Item::TypeAlias(alias("A", 1, record_type(2))),
        Item::TypeAlias(alias("B", 2, record_type(1))),
    ]);
    assert_eq!(
        kind_error(&rs_decl(1), &ir),
        (ErrorKind::CyclicAlias, "Type alias refers to itself".to_string())
    );
    let rs_api = generate_rs_api(&ir).to_string();
    assert!(rs_api.contains("Error while generating bindings for item 'A'"));
    assert!(rs_api.contains(
        "Failed to format underlying type for `A`: Failed to format Rust type: Type alias refers to itself"
    ));
}

#[test]
fn test_format_of_types() {
    let mut far = cc_struct("Far", 1);
    far.owning_target = label(DEPENDENCY_TARGET);
    let mut nowhere = cc_struct("Nowhere", 2);
    nowhere.owning_target = label("no_target");
    let ir = make_ir(vec![Item::Record(far), Item::Record(nowhere)]);
    let lifetimes = vec![
        LifetimeName { name: "a".to_string(), id: LifetimeId(1) },
        LifetimeName { name: "bad name".to_string(), id: LifetimeId(2) },
        LifetimeName { name: "later".to_string(), id: LifetimeId(1) },
    ];
    let format = |ty: &RsType| format_rs_type(ty, &ir, &lifetimes).map(|ts| flatten(&ts));
    let int = || rs_named("i32", vec![]);

    assert_eq!(format(&rs_named("()", vec![])).unwrap(), pattern_tokens("()"));
    assert_eq!(
        format(&rs_named("Pair", vec![int(), rs_named("*mut", vec![int()])])).unwrap(),
        pattern_tokens("Pair<i32, *mut i32>")
    );
    // The last declaration of a lifetime gives its name.
    assert_eq!(format(&rs_ref("&", 1, int())).unwrap(), pattern_tokens("&'later i32"));
    assert_eq!(format(&rs_decl(1)).unwrap(), pattern_tokens("dependency::Far"));

    let err = format(&rs_ref("&mut", 7, int())).unwrap_err();
    assert_eq!(err.kind, ErrorKind::UnknownLifetime);
    assert!(err.message().starts_with("Failed to format Rust type: `lifetime_to_name`"));
    let err = format(&rs_ref("&mut", 2, int())).unwrap_err();
    assert_eq!(err.kind, ErrorKind::InvalidIdentifier);
    assert_eq!(
        err.message(),
        "Failed to format Rust type: Can't format `bad name` as an identifier"
    );
    let err = format(&rs_decl(2)).unwrap_err();
    assert_eq!(err.kind, ErrorKind::InvalidLabel);
    assert_eq!(err.message(), "Failed to format Rust type: Unsupported label format: no_target");
    let err = format(&rs_named("not an ident", vec![])).unwrap_err();
    assert_eq!(err.kind, ErrorKind::InvalidIdentifier);
    assert!(format_lifetime(LifetimeId(1), &lifetimes).is_ok());
    assert!(format_lifetime(LifetimeId(3), &vec![]).is_err());
    assert_eq!(
        flatten(
            &rs_type_name_for_target_and_identifier(&label(TESTING_TARGET), &ident("Near"), &ir)
                .unwrap()
        ),
        pattern_tokens("Near")
    );
}

#[test]
fn test_record_without_fields_gets_a_placeholder_byte() {
    // struct Empty final {};
    let mut record = ir_record("Empty");
    record.size = 1;
    record.alignment = 1;
    let ir = unit_ir();
    let (snippet, assertions) = generate_record(&record, &ir).unwrap();
    assert_eq!(
        flatten(&snippet.tokens),
        pattern_tokens(
            "#[derive(Clone, Copy)]
             #[repr(C)]
             pub struct Empty {
                 #[doc = \" Prevent empty C++ struct being zero-size in Rust.\"]
                 placeholder: std::mem::MaybeUninit<u8>,
             }"
        )
    );
    assert!(snippet.features.is_empty());
    assert_eq!(
        flatten(&assertions.tokens),
        pattern_tokens(
            "const _: () = assert!(std::mem::size_of::<Empty>() == 1usize);
             const _: () = assert!(std::mem::align_of::<Empty>() == 1usize);"
        )
    );
    assert_eq!(
        assertions.features,
        RustFeatures {
            arbitrary_self_types: false,
            const_ptr_offset_from: true,
            custom_inner_attributes: false,
            negative_impls: false,
        }
    );
}

#[test]
fn test_layout_assertions_state_what_the_unit_reports() {
    let mut record = ir_record("Layout");
    record.is_final = false;
    record.size = 24;
    record.alignment = 8;
    record.fields = vec![
        field("a", int_type(), AccessSpecifier::Private, 0),
        field("b", int_type(), AccessSpecifier::Public, 64),
        field("c", int_type(), AccessSpecifier::Protected, 128),
    ];
    let ir = unit_ir();
    let (snippet, assertions) = generate_record(&record, &ir).unwrap();
    assert_eq!(
        flatten(&assertions.tokens),
        pattern_tokens(
            "const _: () = assert!(std::mem::size_of::<Layout>() == 24usize);
             const _: () = assert!(std::mem::align_of::<Layout>() == 8usize);
             const _: () = assert!(offset_of!(Layout, a) * 8 == 0usize);
             const _: () = assert!(offset_of!(Layout, b) * 8 == 64usize);
             const _: () = assert!(offset_of!(Layout, c) * 8 == 128usize);"
        )
    );
    assert_eq!(
        flatten(&snippet.tokens),
        pattern_tokens(
            "#[repr(C)]
             pub struct Layout {
                 a: i32,
                 pub b: i32,
                 c: i32,
             }
             __NEWLINE__ __NEWLINE__
             impl !Unpin for Layout {}"
        )
    );
    assert!(snippet.features.negative_impls);
    // On the other side only public fields can be named.
    assert_eq!(
        flatten(&cc_struct_layout_assertion(&record, &ir).unwrap()),
        pattern_tokens(
            "static_assert(sizeof(class Layout) == 24);
             static_assert(alignof(class Layout) == 8);
             static_assert(offsetof(class Layout, b) * 8 == 64);"
        )
    );
    record.owning_target = label(DEPENDENCY_TARGET);
    assert!(cc_struct_layout_assertion(&record, &ir).unwrap().is_empty());
}

#[test]
fn test_record_errors() {
    let ir = unit_ir();
    let mut record = ir_record("not an ident");
    let err = generate_record(&record, &ir).err().unwrap();
    assert_eq!(err.message(), "Can't format `not an ident` as an identifier");
    record.identifier = ident("R");
    record.fields = vec![
        field("ok", int_type(), AccessSpecifier::Public, 0),
        field("bad", mapped(rs_decl(42), cc_decl(42, false)), AccessSpecifier::Public, 32),
        field("not ident", int_type(), AccessSpecifier::Public, 64),
    ];
    // The names of all fields are looked at before their types.
    let err = generate_record(&record, &ir).err().unwrap();
    assert_eq!(err.message(), "Can't format `not ident` as an identifier");
    record.fields.pop();
    let err = generate_record(&record, &ir).err().unwrap();
    assert_eq!(err.kind, ErrorKind::UnresolvableIdentifier);
    assert_eq!(
        err.message(),
        "Failed to format type for field `bad` on record `R`: Failed to format Rust type: \
         Couldn't find decl_id 42 in the IR."
    );
    // The whole unit is emitted all the same.
    let mut other_record = ir_record("Fine");
    other_record.id = DeclId(1);
    other_record.size = 1;
    other_record.alignment = 1;
    record.id = DeclId(2);
    let ir = make_ir(vec![Item::Record(record), Item::Record(other_record)]);
    let rs_api = generate_rs_api(&ir);
    assert!(rs_api.to_string().contains("Error while generating bindings for item 'R'"));
    assert_matches(&rs_api, "pub struct Fine");
    assert_matches(&rs_api, "std::mem::size_of::<Fine>() == 1usize");
    assert_not_matches(&rs_api, "pub struct R");
}

#[test]
fn test_needs_manually_drop() {
    let mut pinned = cc_struct("Pinned", 1);
    pinned.destructor = SpecialMemberFunc::NontrivialUserDefined;
    let mut plain = ir_record("Plain");
    plain.id = DeclId(2);
    let ir = make_ir(vec![Item::Record(pinned), Item::Record(plain)]);
    assert_eq!(needs_manually_drop(&rs_decl(1), &ir).unwrap(), true);
    assert_eq!(needs_manually_drop(&rs_decl(2), &ir).unwrap(), false);
    assert_eq!(needs_manually_drop(&rs_named("i32", vec![]), &ir).unwrap(), false);
    assert_eq!(
        needs_manually_drop(&rs_ref("&mut", 1, rs_named("i32", vec![])), &ir).unwrap(),
        true
    );
    assert!(needs_manually_drop(&rs_decl(3), &ir).is_err());
}

#[test]
fn test_doc_comments() {
    assert!(generate_doc_comment(&None).is_empty());
    assert_eq!(
        flatten(&generate_doc_comment(&Some("one\ntwo\n\nthree\n".to_string()))),
        pattern_tokens("#[doc = \" one\\n two\\n \\n three\\n \"]")
    );
    assert_eq!(
        flatten(&generate_doc_comment(&Some(String::new()))),
        pattern_tokens("#[doc = \" \"]")
    );
}

#[test]
fn test_can_skip_cc_thunk() {
    let mut func = ir_func("f");
    func.is_inline = false;
    assert!(can_skip_cc_thunk(&func));
    func.member_func_metadata = static_meta(1);
    assert!(can_skip_cc_thunk(&func));
    func.member_func_metadata = method_meta(1, false, false);
    assert!(can_skip_cc_thunk(&func));
    func.member_func_metadata = method_meta(1, false, true);
    assert!(!can_skip_cc_thunk(&func));
    func.member_func_metadata = None;
    func.is_inline = true;
    assert!(!can_skip_cc_thunk(&func));
}

fn lowered(func: &Func, ir: &IR) -> (Vec<String>, Vec<String>, FunctionId) {
    match generate_func(func, ir) {
        Ok(Some((api_func, thunk, function_id))) => {
            assert!(api_func.features.is_empty());
            assert!(thunk.features.is_empty());
            (flatten(&api_func.tokens), flatten(&thunk.tokens), function_id)
        }
        Ok(None) => panic!("expected a binding"),
        Err(err) => panic!("unexpected error: {}", err.message()),
    }
}

fn lowering_error(func: &Func, ir: &IR) -> (ErrorKind, String) {
    match generate_func(func, ir) {
        Err(err) => (err.kind, err.message()),
        Ok(_) => panic!("expected an error"),
    }
}

fn final_struct(name: &str, id: usize) -> Record {
    let mut record = cc_struct(name, id);
    record.is_final = true;
    record
}

#[test]
fn test_function_keys() {
    let ir = make_ir(vec![Item::Record(final_struct("S", 1))]);
    let free = free_func("f", "_Z1fv", void_type(), vec![]);
    let (_, _, id) = lowered(&free, &ir);
    assert_eq!(id.self_type, None);
    assert_eq!(id.function_path, "f");

    let mut method = free_func("f", "_ZN1S1fEv", void_type(), vec![]);
    method.member_func_metadata = static_meta(1);
    let (api, _, method_id) = lowered(&method, &ir);
    assert_eq!(method_id.self_type, None);
    assert_eq!(method_id.function_path, "S::f");
    assert!(!id.same_as(&method_id));
    assert!(id.same_as(&lowered(&free, &ir).2));
    assert_eq!(
        api,
        pattern_tokens(
            "impl S { #[inline(always)] pub fn f() { unsafe { crate::detail::__rust_thunk___ZN1S1fEv() } } }"
        )
    );

    let ctor = constructor(1, "_ZN1SC1Ev", vec![]);
    let (_, _, ctor_id) = lowered(&ctor, &ir);
    assert_eq!(ctor_id.self_type, Some("S".to_string()));
    assert_eq!(ctor_id.function_path, "Default::default");

    let from_int = constructor(1, "_ZN1SC1Ei", vec![param("i", int_type())]);
    let (api, thunk, from_id) = lowered(&from_int, &ir);
    assert_eq!(from_id.self_type, Some("S".to_string()));
    assert_eq!(from_id.function_path, "From<i32>::from");
    assert_eq!(
        api,
        pattern_tokens(
            "impl From<i32> for S {
                 #[inline(always)]
                 fn from(i: i32) -> Self {
                     let mut tmp = std::mem::MaybeUninit::<Self>::zeroed();
                     unsafe {
                         crate::detail::__rust_thunk___ZN1SC1Ei(&mut tmp, i);
                         tmp.assume_init()
                     }
                 }
             }"
        )
    );
    assert_eq!(
        thunk,
        pattern_tokens(
            "pub(crate) fn __rust_thunk___ZN1SC1Ei(__this: &mut std::mem::MaybeUninit<S>, i: i32);"
        )
    );
}

#[test]
fn test_constructors() {
    let mut user_copy = final_struct("UserCopy", 1);
    user_copy.copy_constructor = SpecialMemberFunc::NontrivialUserDefined;
    let ir = make_ir(vec![
        Item::Record(user_copy),
        Item::Record(final_struct("Trivial", 2)),
        Item::Record(cc_struct("Pinned", 3)),
    ]);
    let copy_ctor = |record_id: usize, mangled: &str| {
        let mut func = constructor(
            record_id,
            mangled,
            vec![param("__param_0", ref_to_record(record_id, true, 2))],
        );
        func.params[0] = param("__this", ref_to_record(record_id, false, 1));
        func.lifetime_params = vec![
            LifetimeName { name: "a".to_string(), id: LifetimeId(1) },
            LifetimeName { name: "b".to_string(), id: LifetimeId(2) },
        ];
        func.is_inline = false;
        func
    };

    // A user-defined copy constructor becomes an explicit clone.
    let (api, thunk, id) = lowered(&copy_ctor(1, "_ZN8UserCopyC1ERKS_"), &ir);
    assert_eq!(id.function_path, "Clone::clone");
    assert_eq!(
        api,
        pattern_tokens(
            "impl Clone for UserCopy {
                 #[inline(always)]
                 fn clone<'a, 'b>(&'b self) -> Self {
                     let mut tmp = std::mem::MaybeUninit::<Self>::zeroed();
                     unsafe {
                         crate::detail::__rust_thunk___ZN8UserCopyC1ERKS_(&mut tmp, self);
                         tmp.assume_init()
                     }
                 }
             }"
        )
    );
    assert_eq!(
        thunk,
        pattern_tokens(
            "#[link_name = \"_ZN8UserCopyC1ERKS_\"]
             pub(crate) fn __rust_thunk___ZN8UserCopyC1ERKS_<'a, 'b>(
                 __this: &'a mut std::mem::MaybeUninit<UserCopy>,
                 __param_0: &'b UserCopy);"
        )
    );
    // A trivial copy constructor is covered by the derived clone.
    assert!(generate_func(&copy_ctor(2, "_ZN7TrivialC1ERKS_"), &ir).unwrap().is_none());
    // A record that must not move gets no constructor at all.
    assert!(generate_func(&constructor(3, "_ZN6PinnedC1Ev", vec![]), &ir).unwrap().is_none());
    assert!(generate_func(&copy_ctor(3, "_ZN6PinnedC1ERKS_"), &ir).unwrap().is_none());
    // Neither does a constructor with more parameters.
    let many = constructor(2, "_ZN7TrivialC1Eii", vec![param("a", int_type()), param("b", int_type())]);
    assert!(generate_func(&many, &ir).unwrap().is_none());

    let mut no_this = constructor(2, "_ZN7TrivialC1Ev", vec![]);
    no_this.params.clear();
    assert_eq!(
        lowering_error(&no_this, &ir),
        (
            ErrorKind::MissingParameter,
            "Constructor should have at least 1 parameter (__this)".to_string()
        )
    );
    let mut pinned_no_this = constructor(3, "_ZN6PinnedC1Ev", vec![]);
    pinned_no_this.params.clear();
    assert_eq!(
        lowering_error(&pinned_no_this, &ir),
        (
            ErrorKind::MissingParameter,
            "Constructor should have at least 1 parameter (__this)".to_string()
        )
    );
    let mut free = constructor(2, "_ZN7TrivialC1Ev", vec![]);
    free.member_func_metadata = None;
    assert_eq!(
        lowering_error(&free, &ir),
        (ErrorKind::MissingRecord, "Constructors must be member functions.".to_string())
    );
    let mut by_value_this = constructor(2, "_ZN7TrivialC1Ev", vec![]);
    by_value_this.params[0] = param("__this", record_type(2));
    assert_eq!(
        lowering_error(&by_value_this, &ir),
        (
            ErrorKind::InvalidSelf,
            "Failed to format `__this` param for a thunk: `__this`: Unexpected type of `__this` \
             parameter in a constructor"
                .to_string()
        )
    );
}

#[test]
fn test_destructors() {
    let mut dropped = cc_struct("Dropped", 1);
    dropped.is_trivial_abi = false;
    dropped.destructor = SpecialMemberFunc::NontrivialMembers;
    let ir = make_ir(vec![Item::Record(dropped), Item::Record(final_struct("Trivial", 2))]);
    assert!(generate_func(&destructor(2, "_ZN7TrivialD1Ev"), &ir).unwrap().is_none());
    let (api, thunk, id) = lowered(&destructor(1, "_ZN7DroppedD1Ev"), &ir);
    assert_eq!(id.self_type, Some("Dropped".to_string()));
    assert_eq!(id.function_path, "Drop::drop");
    assert_eq!(
        api,
        pattern_tokens(
            "impl Drop for Dropped {
                 #[inline(always)]
                 fn drop(&mut self) {
                     unsafe { crate::detail::__rust_thunk___ZN7DroppedD1Ev(self) }
                 }
             }"
        )
    );
    assert_eq!(
        thunk,
        pattern_tokens("pub(crate) fn __rust_thunk___ZN7DroppedD1Ev(__this: *mut Dropped);")
    );
    let mut free = destructor(1, "_ZN7DroppedD1Ev");
    free.member_func_metadata = None;
    assert_eq!(
        lowering_error(&free, &ir),
        (ErrorKind::MissingRecord, "Destructors must be member functions.".to_string())
    );
    let mut const_this = destructor(1, "_ZN7DroppedD1Ev");
    const_this.params[0] = param("__this", ptr_to_record(1, true));
    assert_eq!(lowering_error(&const_this, &ir).0, ErrorKind::InvalidSelf);
}

#[test]
fn test_receivers() {
    let ir = make_ir(vec![
        Item::Record(final_struct("Plain", 1)),
        Item::Record(cc_struct("Pinned", 2)),
    ]);
    let method = |record_id: usize, this: MappedType| {
        let mut func = free_func("m", "_Zm", void_type(), vec![param("__this", this)]);
        func.lifetime_params = vec![LifetimeName { name: "a".to_string(), id: LifetimeId(1) }];
        func.member_func_metadata = method_meta(record_id, false, false);
        func
    };
    let receiver = |func: &Func| {
        let (api, _, _) = lowered(func, &ir);
        let name = api.iter().position(|t| t == "fn").unwrap();
        let start = name + api[name..].iter().position(|t| t == "(").unwrap();
        let end = start + api[start..].iter().position(|t| t == ")").unwrap();
        api[start + 1..end].join(" ")
    };

    assert_eq!(receiver(&method(1, ref_to_record(1, true, 1))), "& ' a self");
    assert_eq!(receiver(&method(1, ref_to_record(1, false, 1))), "& ' a mut self");
    // A shared reference does not let the value move.
    assert_eq!(receiver(&method(2, ref_to_record(2, true, 1))), "& ' a self");
    // A mutable reference to a record that must not move is pinned.
    assert_eq!(
        receiver(&method(2, ref_to_record(2, false, 1))),
        "self : : : core : : pin : : Pin < & ' a mut Self >"
    );

    let (kind, message) = lowering_error(&method(1, ptr_to_record(1, false)), &ir);
    assert_eq!(kind, ErrorKind::InvalidSelf);
    assert!(message.starts_with("Failed to format as `self` param: `__this`: `self` has no lifetime."));
    let (kind, message) = lowering_error(&method(1, int_type()), &ir);
    assert_eq!(kind, ErrorKind::InvalidSelf);
    assert!(message.ends_with("Unexpected type of `self` parameter in an instance method"));
    let (_, message) = lowering_error(
        &method(1, mapped(rs_ref("&", 1, rs_named("i32", vec![])), cc_named("int", false, vec![]))),
        &ir,
    );
    assert!(message.ends_with("`self` reference unexpectedly doesn't point to a Record"));
    let (kind, message) = lowering_error(&method(1, ref_to_record(2, false, 1)), &ir);
    assert_eq!(kind, ErrorKind::MissingRecord);
    assert!(message.ends_with("`self` refers to an unexpected record type"));
    let (kind, message) = lowering_error(&method(9, ref_to_record(1, false, 1)), &ir);
    assert_eq!(kind, ErrorKind::UnresolvableIdentifier);
    assert_eq!(message, "Couldn't find decl_id 9 in the IR.");
    let mut no_params = method(1, ref_to_record(1, false, 1));
    no_params.params.clear();
    assert_eq!(
        lowering_error(&no_params, &ir),
        (ErrorKind::MissingParameter, "No parameter to format as 'self'".to_string())
    );
}

#[test]
fn test_lowering_errors_name_what_was_attempted() {
    let ir = unit_ir();
    let bad = mapped(rs_decl(7), cc_decl(7, false));
    let f = free_func("f", "_Z1f", bad, vec![]);
    assert_eq!(
        lowering_error(&f, &ir).1,
        "Failed to format return type for `_Z1f`: Failed to format Rust type: \
         Couldn't find decl_id 7 in the IR."
    );
    let bad = mapped(rs_decl(7), cc_decl(7, false));
    let f = free_func("f", "_Z1f", void_type(), vec![param("p", int_type()), param("q", bad)]);
    assert_eq!(
        lowering_error(&f, &ir).1,
        "Failed to format type for parameter `q` on `_Z1f`: Failed to format Rust type: \
         Couldn't find decl_id 7 in the IR."
    );
    let f = free_func("f", "not mangled", void_type(), vec![]);
    assert_eq!(
        lowering_error(&f, &ir),
        (
            ErrorKind::InvalidIdentifier,
            "Can't format `__rust_thunk__not mangled` as an identifier".to_string()
        )
    );
    let f = free_func("operator+", "_Zpl", void_type(), vec![]);
    assert_eq!(lowering_error(&f, &ir).1, "Can't format `operator+` as an identifier");
    let f = free_func("f", "_Z1f", void_type(), vec![param("a b", int_type())]);
    assert_eq!(lowering_error(&f, &ir).1, "Can't format `a b` as an identifier");
    let mut f = free_func("f", "_Z1f", void_type(), vec![]);
    f.lifetime_params = vec![LifetimeName { name: "1".to_string(), id: LifetimeId(1) }];
    assert_eq!(lowering_error(&f, &ir).1, "Can't format `1` as an identifier");
    let mut f = free_func("f", "_Z1f", void_type(), vec![]);
    f.member_func_metadata = static_meta(3);
    assert_eq!(lowering_error(&f, &ir).1, "Couldn't find decl_id 3 in the IR.");
}

#[test]
fn test_a_failed_function_becomes_a_placeholder_and_the_rest_is_emitted() {
    let bad = mapped(rs_decl(7), cc_decl(7, false));
    let mut broken = free_func("broken", "_Z6brokenv", bad, vec![]);
    broken.source_loc = SourceLoc { filename: "dir/header.h".to_string(), line: 12, column: 3 };
    let mut inline_broken =
        free_func("inline_broken", "_Z13inline_brokenv", mapped(rs_named("i32", vec![]), cc_decl(7, false)), vec![]);
    inline_broken.is_inline = true;
    inline_broken.source_loc = SourceLoc { filename: String::new(), line: 0, column: 0 };
    let ir = make_ir(vec![
        Item::Func(broken),
        Item::Func(add_func_named("Fine", "_Z4Fineii")),
        Item::Func(inline_broken),
    ]);
    let rs_api = generate_rs_api(&ir);
    let text = "google3/dir/header.h;l=12\nError while generating bindings for item 'broken':\n\
                Failed to format return type for `_Z6brokenv`: Failed to format Rust type: \
                Couldn't find decl_id 7 in the IR.";
    let mut pattern = "__COMMENT__".parse::<TokenStream>().unwrap();
    pattern.extend([TokenTree::Literal(proc_macro2::Literal::string(text))]);
    assert_matches(&rs_api, &pattern.to_string());
    assert_matches(&rs_api, "pub fn Fine(a: i32, b: i32) -> i32");
    assert_not_matches(&rs_api, "pub fn broken");
    assert_not_matches(&rs_api, "__rust_thunk___Z6brokenv");

    // On the other side the adapter that cannot be made is a comment too.
    let rs_api_impl = generate_rs_api_impl(&ir);
    let text = "<unknown location>\nError while generating bindings for item 'inline_broken':\n\
                Couldn't find decl_id 7 in the IR.";
    let mut pattern = "__COMMENT__".parse::<TokenStream>().unwrap();
    pattern.extend([TokenTree::Literal(proc_macro2::Literal::string(text))]);
    assert_matches(&rs_api_impl, &pattern.to_string());
    assert_not_matches(&rs_api_impl, "__rust_thunk___Z13inline_brokenv");
}

fn add_func_named(name: &str, mangled: &str) -> Func {
    free_func(name, mangled, int_type(), vec![param("a", int_type()), param("b", int_type())])
}

#[test]
fn test_emission_is_deterministic() {
    let ir = make_ir(vec![
        Item::Func(add_func_named("Add", "_Z3Addii")),
        Item::Record(cc_struct("S", 1)),
        Item::Comment(Comment { text: "a comment".to_string() }),
        Item::Func(destructor(1, "_ZN1SD1Ev")),
    ]);
    assert_eq!(generate_rs_api(&ir).to_string(), generate_rs_api(&ir).to_string());
    assert_eq!(generate_rs_api_impl(&ir).to_string(), generate_rs_api_impl(&ir).to_string());
    assert_eq!(flatten(&generate_rs_api(&ir)), flatten(&generate_rs_api(&ir)));
}

#[test]
fn test_every_item_is_emitted_in_source_order() {
    let unsupported = UnsupportedItem {
        name: "ns::Thing".to_string(),
        message: "not yet".to_string(),
        source_loc: loc(4),
    };
    let ir = make_ir(vec![
        Item::Comment(Comment { text: "first".to_string() }),
        Item::Func(add_func_named("second", "_Z6secondii")),
        Item::UnsupportedItem(unsupported),
        Item::Record(final_struct("Fourth", 1)),
        Item::TypeAlias(alias("Fifth", 2, int_type())),
        Item::Func(add_func_named("sixth", "_Z5sixthii")),
    ]);
    let text = generate_rs_api(&ir).to_string();
    let places: Vec<usize> = [
        "__COMMENT__ \"first\"",
        "fn second",
        "Error while generating bindings for item 'ns::Thing'",
        "struct Fourth",
        "type Fifth",
        "fn sixth",
        "mod detail",
        "fn __rust_thunk___Z6secondii",
        "fn __rust_thunk___Z5sixthii",
        "size_of :: < Fourth >",
    ]
    .iter()
    .map(|part| match text.find(part) {
        Some(place) => place,
        None => panic!("`{}` missing in {}", part, text),
    })
    .collect();
    assert!(places.windows(2).all(|pair| pair[0] < pair[1]));

    let emitted = emit_items(&ir);
    assert!(emitted.has_thunk);
    assert!(emitted.has_record);
    assert!(emitted.features.custom_inner_attributes);
    assert!(emitted.features.const_ptr_offset_from);
    assert!(!emitted.features.negative_impls);
}

#[test]
fn test_two_colliding_functions_are_both_placeholders() {
    for (first, second) in [("_Z1fv", "_Z1fi"), ("_Z1fi", "_Z1fv")] {
        let ir = make_ir(vec![
            Item::Func(free_func("f", first, void_type(), vec![])),
            Item::Func(free_func("g", "_Z1gv", void_type(), vec![])),
            Item::Func(free_func("f", second, void_type(), vec![param("i", int_type())])),
        ]);
        let rs_api = generate_rs_api(&ir);
        let text = rs_api.to_string();
        assert_eq!(text.matches("Cannot generate bindings for overloaded function").count(), 2);
        assert_eq!(text.matches("Error while generating bindings for item 'f'").count(), 2);
        assert_not_matches(&rs_api, "pub fn f");
        assert_not_matches(&rs_api, "__rust_thunk___Z1fv");
        assert_not_matches(&rs_api, "__rust_thunk___Z1fi");
        assert_matches(&rs_api, "pub fn g()");
        assert_matches(&rs_api, "pub(crate) fn __rust_thunk___Z1gv();");
    }
}

#[test]
fn test_surface_of_a_unit_without_declarations() {
    let ir = unit_ir();
    assert_eq!(
        flatten(&generate_rs_api(&ir)),
        pattern_tokens(
            "#![feature(custom_inner_attributes)] __NEWLINE__
             #![allow(non_camel_case_types)] __NEWLINE__
             #![allow(non_snake_case)] __NEWLINE__ __NEWLINE__
             __NEWLINE__ __NEWLINE__
             __NEWLINE__ __NEWLINE__
             const _: () = assert!(std::mem::size_of::<Option<&i32>>() == std::mem::size_of::<&i32>());
             __NEWLINE__ __NEWLINE__"
        )
    );
    assert_eq!(
        flatten(&generate_rs_api_impl(&ir)),
        pattern_tokens(
            "__HASH_TOKEN__ include <memory> __NEWLINE__
             __HASH_TOKEN__ include \"rs_bindings_from_cc/support/cxx20_backports.h\" __NEWLINE__
             __NEWLINE__
             __NEWLINE__ __NEWLINE__
             __NEWLINE__"
        )
    );
}

#[test]
fn test_whole_surface_of_a_small_unit() {
    let mut ir = make_ir(vec![
        Item::Record(cc_struct("S", 1)),
        Item::Func(add_func_named("Add", "_Z3Addii")),
    ]);
    ir.used_headers = vec![HeaderName { name: "a/b.h".to_string() }];
    assert_eq!(
        flatten(&generate_rs_api(&ir)),
        pattern_tokens(
            "#![feature(const_ptr_offset_from, custom_inner_attributes, negative_impls)] __NEWLINE__
             #![allow(non_camel_case_types)] __NEWLINE__
             #![allow(non_snake_case)] __NEWLINE__ __NEWLINE__
             use memoffset_unstable_const::offset_of; __NEWLINE__ __NEWLINE__
             #[repr(C)]
             pub struct S {
                 #[doc = \" Prevent empty C++ struct being zero-size in Rust.\"]
                 placeholder: std::mem::MaybeUninit<u8>,
             }
             __NEWLINE__ __NEWLINE__
             impl !Unpin for S {}
             __NEWLINE__ __NEWLINE__
             #[inline(always)]
             pub fn Add(a: i32, b: i32) -> i32 {
                 unsafe { crate::detail::__rust_thunk___Z3Addii(a, b) }
             }
             __NEWLINE__ __NEWLINE__
             mod detail {
                 #[allow(unused_imports)]
                 use super::*;
                 extern \"C\" {
                     #[link_name = \"_Z3Addii\"]
                     pub(crate) fn __rust_thunk___Z3Addii(a: i32, b: i32) -> i32;
                 }
             }
             __NEWLINE__ __NEWLINE__
             const _: () = assert!(std::mem::size_of::<Option<&i32>>() == std::mem::size_of::<&i32>());
             __NEWLINE__ __NEWLINE__
             const _: () = assert!(std::mem::size_of::<S>() == 1usize);
             const _: () = assert!(std::mem::align_of::<S>() == 1usize);
             __NEWLINE__ __NEWLINE__"
        )
    );
    assert_eq!(
        flatten(&generate_rs_api_impl(&ir)),
        pattern_tokens(
            "__HASH_TOKEN__ include <cstddef> __NEWLINE__
             __HASH_TOKEN__ include <memory> __NEWLINE__
             __HASH_TOKEN__ include \"rs_bindings_from_cc/support/cxx20_backports.h\" __NEWLINE__
             __HASH_TOKEN__ include \"a/b.h\" __NEWLINE__
             __NEWLINE__
             __NEWLINE__ __NEWLINE__
             static_assert(sizeof(class S) == 1);
             static_assert(alignof(class S) == 1);
             __NEWLINE__ __NEWLINE__
             __NEWLINE__"
        )
    );
}

#[test]
fn test_cxx_function_name() {
    let ir = make_ir(vec![Item::Record(cc_struct("S", 1))]);
    assert_eq!(cxx_function_name(&ir_func("f"), &ir).unwrap(), "f");
    let mut method = ir_func("m");
    method.member_func_metadata = static_meta(1);
    assert_eq!(cxx_function_name(&method, &ir).unwrap(), "S::m");
    assert_eq!(cxx_function_name(&destructor(1, "_ZN1SD1Ev"), &ir).unwrap(), "S::~S");
    assert_eq!(cxx_function_name(&constructor(1, "_ZN1SC1Ev", vec![]), &ir).unwrap(), "S::~S");
    method.member_func_metadata = static_meta(2);
    assert_eq!(
        cxx_function_name(&method, &ir).unwrap_err().message(),
        "Couldn't find decl_id 2 in the IR."
    );
    let mut free_destructor = destructor(1, "_ZN1SD1Ev");
    free_destructor.member_func_metadata = None;
    let err = cxx_function_name(&free_destructor, &ir).unwrap_err();
    assert_eq!(err.kind, ErrorKind::MissingRecord);
    let mut not_record = ir_func("m");
    not_record.member_func_metadata = static_meta(3);
    let ir = make_ir(vec![Item::TypeAlias(alias("A", 3, int_type()))]);
    assert_eq!(
        cxx_function_name(&not_record, &ir).unwrap_err().message(),
        "DeclId 3 doesn't refer to a Record"
    );
}

#[test]
fn test_unsupported_items_and_comments() {
    let item = UnsupportedItem {
        name: "ns::f".to_string(),
        message: "why".to_string(),
        source_loc: SourceLoc { filename: "x/y.h".to_string(), line: 1234567890, column: 1 },
    };
    let expected = "google3/x/y.h;l=1234567890\nError while generating bindings for item 'ns::f':\nwhy";
    let mut pattern = "__COMMENT__".parse::<TokenStream>().unwrap();
    pattern.extend([TokenTree::Literal(proc_macro2::Literal::string(expected))]);
    assert_eq!(generate_unsupported(&item).to_string(), pattern.to_string());
    let item = UnsupportedItem {
        name: "g".to_string(),
        message: "because".to_string(),
        source_loc: SourceLoc { filename: String::new(), line: 5, column: 1 },
    };
    let expected = "<unknown location>\nError while generating bindings for item 'g':\nbecause";
    let mut pattern = "__COMMENT__".parse::<TokenStream>().unwrap();
    pattern.extend([TokenTree::Literal(proc_macro2::Literal::string(expected))]);
    assert_eq!(generate_unsupported(&item).to_string(), pattern.to_string());
    assert_eq!(
        flatten(&generate_comment(&Comment { text: "note".to_string() })),
        pattern_tokens("__COMMENT__ \"note\"")
    );
}

#[test]
fn test_type_alias_of_another_unit_is_skipped() {
    let mut far = alias("Far", 1, int_type());
    far.owning_target = label(DEPENDENCY_TARGET);
    let mut ir = make_ir(vec![Item::TypeAlias(far)]);
    assert_not_matches(&generate_rs_api(&ir), "Far");
    // Unless that unit counts as the standard library.
    ir.stdlib_targets = vec![label("//:other"), label(DEPENDENCY_TARGET)];
    assert_matches(&generate_rs_api(&ir), "pub type Far = i32;");
    let broken = alias("x y", 2, int_type());
    assert_eq!(
        generate_type_alias(&broken, &ir).unwrap_err().message(),
        "Can't format `x y` as an identifier"
    );
}

#[test]
fn test_cc_types() {
    let ir = make_ir(vec![
        Item::Record(cc_struct("S", 1)),
        Item::TypeAlias(alias("A", 2, int_type())),
        Item::Func(ir_func("f")),
    ]);
    let format = |ty: &CcType| format_cc_type(ty, &ir).map(|ts| flatten(&ts));
    let int = || cc_named("int", false, vec![]);

    assert_eq!(format(&cc_named("unsigned  long\tlong", true, vec![])).unwrap(),
        pattern_tokens("unsigned long long const"));
    assert_eq!(format(&cc_named("*", true, vec![int()])).unwrap(), pattern_tokens("int * const"));
    assert_eq!(format(&cc_named("&", true, vec![int()])).unwrap(), pattern_tokens("int &"));
    assert_eq!(format(&cc_decl(1, true)).unwrap(), pattern_tokens("const class S"));
    assert_eq!(format(&cc_decl(2, false)).unwrap(), pattern_tokens("A"));
    assert!(format(&cc_named("", false, vec![])).unwrap().is_empty());

    let err = format(&cc_named("*", false, vec![])).unwrap_err();
    assert_eq!(err.kind, ErrorKind::MissingTypeArgument);
    assert_eq!(err.message(), "Invalid pointer type (need exactly 1 type argument)");
    let err = format(&cc_named("&", false, vec![int(), int()])).unwrap_err();
    assert_eq!(err.message(), "Invalid reference type (need exactly 1 type argument)");
    let err = format(&cc_named("vector", false, vec![int()])).unwrap_err();
    assert_eq!(err.kind, ErrorKind::UnsupportedTypeArguments);
    assert_eq!(err.message(), "Type not yet supported");
    let err = format(&cc_named("std::string", false, vec![])).unwrap_err();
    assert_eq!(err.message(), "Can't format `std::string` as an identifier");
    assert_eq!(format(&cc_decl(9, false)).unwrap_err().kind, ErrorKind::UnresolvableIdentifier);
    let err = cc_type_name_for_item(&ir.items[2]).unwrap_err();
    assert_eq!((err.kind, err.message()), (ErrorKind::NotAType, "Item does not define a type".to_string()));
}

#[test]
fn test_cc_thunk_errors() {
    let ir = make_ir(vec![Item::Record(cc_struct("S", 1))]);
    let mut method = free_func("m", "_ZN1S1mEv", void_type(), vec![]);
    method.is_inline = true;
    method.member_func_metadata = method_meta(1, false, false);
    let err = generate_cc_thunk(&method, &ir).unwrap_err();
    assert_eq!(err.kind, ErrorKind::MissingParameter);
    assert_eq!(err.message(), "Instance methods must have `__this` param.");
    method.member_func_metadata = static_meta(1);
    assert_eq!(
        flatten(&generate_cc_thunk(&method, &ir).unwrap()),
        pattern_tokens("extern \"C\" void __rust_thunk___ZN1S1mEv() { S::m(); }")
    );
}

fn int_ref(lifetime: i32) -> MappedType {
    mapped(
        rs_ref("&", lifetime, rs_named("i32", vec![])),
        cc_named("&", false, vec![cc_named("int", true, vec![])]),
    )
}

fn with_lifetimes(return_type: MappedType, params: Vec<MappedType>) -> Func {
    let params = params
        .into_iter()
        .enumerate()
        .map(|(i, type_)| param(&format!("p{}", i), type_))
        .collect();
    let mut func = free_func("f", "_Z1f", return_type, params);
    func.lifetime_params = vec![
        LifetimeName { name: "_".to_string(), id: LifetimeId(0) },
        LifetimeName { name: "a".to_string(), id: LifetimeId(1) },
        LifetimeName { name: "b".to_string(), id: LifetimeId(2) },
        LifetimeName { name: "a".to_string(), id: LifetimeId(3) },
    ];
    func
}

#[test]
fn test_elided_lifetime_in_the_return_type() {
    let ir = make_ir(vec![]);
    let message =
        "The elided lifetime in the return type needs exactly one named lifetime among the parameters";
    let valid = [
        // Nothing elided in the return type.
        with_lifetimes(int_type(), vec![]),
        with_lifetimes(int_type(), vec![int_ref(0), int_ref(0)]),
        with_lifetimes(int_ref(1), vec![]),
        with_lifetimes(int_ref(2), vec![int_ref(1), int_ref(2)]),
        // One named lifetime to borrow from.
        with_lifetimes(int_ref(0), vec![int_ref(1)]),
        with_lifetimes(int_ref(0), vec![int_type(), int_ref(0), int_ref(2)]),
        // The same name under two identifiers is one lifetime.
        with_lifetimes(int_ref(0), vec![int_ref(1), int_ref(3), int_ref(1)]),
    ];
    for func in &valid {
        assert!(check_elision(func).is_ok());
        assert!(generate_func(func, &ir).unwrap().is_some());
    }
    let invalid = [
        with_lifetimes(int_ref(0), vec![]),
        with_lifetimes(int_ref(0), vec![int_type()]),
        with_lifetimes(int_ref(0), vec![int_ref(0)]),
        with_lifetimes(int_ref(0), vec![int_ref(1), int_ref(2)]),
        with_lifetimes(int_ref(0), vec![int_ref(2), int_ref(0), int_ref(3)]),
        with_lifetimes(
            mapped(
                rs_named("Pair", vec![rs_named("i32", vec![]), rs_ref("&", 0, rs_named("i32", vec![]))]),
                cc_named("int", false, vec![]),
            ),
            vec![int_type()],
        ),
    ];
    for func in &invalid {
        let err = check_elision(func).unwrap_err();
        assert_eq!((err.kind, err.message()), (ErrorKind::MissingLifetime, message.to_string()));
        assert_eq!(lowering_error(func, &ir), (ErrorKind::MissingLifetime, message.to_string()));
    }
    let rs_api = generate_rs_api(&make_ir(vec![Item::Func(with_lifetimes(int_ref(0), vec![]))]));
    assert!(rs_api.to_string().contains("The elided lifetime in the return type"));
    assert_not_matches(&rs_api, "pub fn f");
}

#[test]
fn test_lifetimes_of_type_nodes() {
    let nested = rs_ref(
        "&",
        1,
        rs_named(
            "Pair",
            vec![rs_ref("&mut", 2, rs_named("i32", vec![])), rs_ref("&", 3, rs_ref("&", 1, rs_named("i32", vec![])))],
        ),
    );
    let mut ids = vec![LifetimeId(9)];
    collect_lifetimes(&nested, &mut ids);
    assert_eq!(ids, [LifetimeId(9), LifetimeId(1), LifetimeId(2), LifetimeId(3), LifetimeId(1)]);
    let func = with_lifetimes(int_type(), vec![int_ref(2), int_type(), int_ref(0)]);
    assert_eq!(param_lifetimes(&func), [LifetimeId(2), LifetimeId(0)]);
    let lifetimes = &func.lifetime_params;
    assert!(holds_elided(&vec![LifetimeId(2), LifetimeId(0)], lifetimes));
    assert!(!holds_elided(&vec![LifetimeId(2), LifetimeId(7)], lifetimes));
    assert!(!holds_elided(&vec![], lifetimes));
    assert!(holds_one_named(&vec![LifetimeId(0), LifetimeId(1), LifetimeId(7), LifetimeId(3)], lifetimes));
    assert!(!holds_one_named(&vec![LifetimeId(1), LifetimeId(2)], lifetimes));
    assert!(!holds_one_named(&vec![LifetimeId(0), LifetimeId(7)], lifetimes));
    assert!(!holds_one_named(&vec![], lifetimes));
}
