#![allow(dead_code)]
#![allow(unused_imports)]

use interop_bindings::golden::{
    DocCommentBang, DocCommentSlashes, LineComment, MultilineCommentTwoStars, MultilineOneStar,
};
use interop_bindings::rs_api::generate_record;

use interop_bindings::ir::{
    make_ir_from_items, AccessSpecifier, BazelLabel, CcType, Comment, DeclId, Field, Func,
    FuncParam, HeaderName, Identifier, InstanceMethodMetadata, Item, LifetimeId, LifetimeName,
    MappedType, MemberFuncMetadata, Record, RsType, SourceLoc, SpecialMemberFunc, TypeAlias,
    UnqualifiedIdentifier, UnsupportedItem, IR,
};
use proc_macro2::{Delimiter, TokenStream, TokenTree};

const TESTING_TARGET: &str = "//test:testing_target";
const DEPENDENCY_TARGET: &str = "//test:dependency";

fn ident(name: &str) -> Identifier {
    Identifier { identifier: name.to_string() }
}

fn label(name: &str) -> BazelLabel {
    BazelLabel(name.to_string())
}

fn loc(line: u64) -> SourceLoc {
    SourceLoc { filename: "ir_from_cc_virtual_header.h".to_string(), line, column: 1 }
}

fn rs_named(name: &str, type_args: Vec<RsType>) -> RsType {
    RsType { name: Some(name.to_string()), lifetime_args: vec![], type_args, decl_id: None }
}

fn rs_ref(name: &str, lifetime: i32, referent: RsType) -> RsType {
    RsType {
        name: Some(name.to_string()),
        lifetime_args: vec![LifetimeId(lifetime)],
        type_args: vec![referent],
        decl_id: None,
    }
}

fn rs_decl(id: usize) -> RsType {
    RsType { name: None, lifetime_args: vec![], type_args: vec![], decl_id: Some(DeclId(id)) }
}

fn cc_named(name: &str, is_const: bool, type_args: Vec<CcType>) -> CcType {
    CcType { name: Some(name.to_string()), is_const, type_args, decl_id: None }
}

fn cc_decl(id: usize, is_const: bool) -> CcType {
    CcType { name: None, is_const, type_args: vec![], decl_id: Some(DeclId(id)) }
}

fn mapped(rs_type: RsType, cc_type: CcType) -> MappedType {
    MappedType { rs_type, cc_type }
}

fn int_type() -> MappedType {
    mapped(rs_named("i32", vec![]), cc_named("int", false, vec![]))
}

fn void_type() -> MappedType {
    mapped(rs_named("()", vec![]), cc_named("void", false, vec![]))
}

fn record_type(id: usize) -> MappedType {
    mapped(rs_decl(id), cc_decl(id, false))
}

/// `T*` without lifetimes: a pointer on both sides.
fn ptr_to_record(id: usize, is_const: bool) -> MappedType {
    mapped(
        rs_named(if is_const { "*const" } else { "*mut" }, vec![rs_decl(id)]),
        cc_named("*", false, vec![cc_decl(id, is_const)]),
    )
}

/// `T&` with the lifetime `lifetime`: a reference on the generated side.
fn ref_to_record(id: usize, is_const: bool, lifetime: i32) -> MappedType {
    mapped(
        rs_ref(if is_const { "&" } else { "&mut" }, lifetime, rs_decl(id)),
        cc_named("&", false, vec![cc_decl(id, is_const)]),
    )
}

fn param(name: &str, type_: MappedType) -> FuncParam {
    FuncParam { type_, identifier: ident(name) }
}

fn ir_record(name: &str) -> Record {
    Record {
        identifier: ident(name),
        cc_name: name.to_string(),
        cc_preferred_name: name.to_string(),
        id: DeclId(0),
        owning_target: label(TESTING_TARGET),
        defining_target: None,
        enclosing_namespace_id: None,
        template_specialization: None,
        bridge_type_info: None,
        doc_comment: None,
        fields: vec![],
        size: 0,
        alignment: 0,
        copy_constructor: SpecialMemberFunc::Trivial,
        move_constructor: SpecialMemberFunc::Trivial,
        destructor: SpecialMemberFunc::Trivial,
        is_trivial_abi: true,
        is_final: true,
        is_abstract: false,
        is_union: false,
        source_loc: loc(1),
    }
}

/// A record as it is read from `struct Name {...};`: one byte, not final.
fn cc_struct(name: &str, id: usize) -> Record {
    let mut record = ir_record(name);
    record.id = DeclId(id);
    record.size = 1;
    record.alignment = 1;
    record.is_final = false;
    record
}

fn field(name: &str, type_: MappedType, access: AccessSpecifier, offset: usize) -> Field {
    Field { identifier: ident(name), doc_comment: None, type_, access, offset }
}

fn ir_func(name: &str) -> Func {
    Func {
        name: UnqualifiedIdentifier::Identifier(ident(name)),
        owning_target: label(TESTING_TARGET),
        mangled_name: "_Z3foov".to_string(),
        doc_comment: None,
        return_type: void_type(),
        params: vec![],
        lifetime_params: vec![],
        is_inline: true,
        member_func_metadata: None,
        source_loc: loc(1),
    }
}

fn free_func(name: &str, mangled: &str, return_type: MappedType, params: Vec<FuncParam>) -> Func {
    let mut func = ir_func(name);
    func.mangled_name = mangled.to_string();
    func.return_type = return_type;
    func.params = params;
    func.is_inline = false;
    func
}

fn method_meta(record_id: usize, is_const: bool, is_virtual: bool) -> Option<MemberFuncMetadata> {
    Some(MemberFuncMetadata {
        record_id: DeclId(record_id),
        instance_method_metadata: Some(InstanceMethodMetadata { is_const, is_virtual }),
    })
}

fn static_meta(record_id: usize) -> Option<MemberFuncMetadata> {
    Some(MemberFuncMetadata { record_id: DeclId(record_id), instance_method_metadata: None })
}

/// The implicit or declared destructor `~Name()` of the record `record_id`.
fn destructor(record_id: usize, mangled: &str) -> Func {
    let mut func = ir_func("unused");
    func.name = UnqualifiedIdentifier::Destructor;
    func.mangled_name = mangled.to_string();
    func.params = vec![param("__this", ptr_to_record(record_id, false))];
    func.member_func_metadata = method_meta(record_id, false, false);
    func
}

/// The constructor `Name(params...)` of the record `record_id`.
fn constructor(record_id: usize, mangled: &str, mut more: Vec<FuncParam>) -> Func {
    let mut func = ir_func("unused");
    func.name = UnqualifiedIdentifier::Constructor;
    func.mangled_name = mangled.to_string();
    let mut params = vec![param("__this", ptr_to_record(record_id, false))];
    params.append(&mut more);
    func.params = params;
    func.member_func_metadata = static_meta(record_id);
    func
}

fn make_ir(items: Vec<Item>) -> IR {
    make_ir_from_items(label(TESTING_TARGET), vec![], items).unwrap()
}

fn flatten_into(stream: TokenStream, out: &mut Vec<String>) {
    for tree in stream {
        match tree {
            TokenTree::Group(group) => {
                let (open, close) = match group.delimiter() {
                    Delimiter::Parenthesis => ("(", ")"),
                    Delimiter::Brace => ("{", "}"),
                    Delimiter::Bracket => ("[", "]"),
                    Delimiter::None => ("", ""),
                };
                out.push(open.to_string());
                flatten_into(group.stream(), out);
                out.push(close.to_string());
            }
            other => out.push(other.to_string()),
        }
    }
}

fn flatten(stream: &TokenStream) -> Vec<String> {
    let mut out = Vec::new();
    flatten_into(stream.clone(), &mut out);
    out
}

fn pattern_tokens(pattern: &str) -> Vec<String> {
    let stream: TokenStream = pattern.parse().unwrap();
    let flat = flatten(&stream);
    let mut out = Vec::new();
    let mut i = 0;
    while i < flat.len() {
        if i + 2 < flat.len() && flat[i] == "." && flat[i + 1] == "." && flat[i + 2] == "." {
            out.push("...".to_string());
            i += 3;
        } else {
            out.push(flat[i].clone());
            i += 1;
        }
    }
    out
}

fn matches_at(actual: &[String], pattern: &[String]) -> bool {
    if pattern.is_empty() {
        return true;
    }
    if pattern[0] == "..." {
        return (0..=actual.len()).any(|skip| matches_at(&actual[skip..], &pattern[1..]));
    }
    !actual.is_empty() && actual[0] == pattern[0] && matches_at(&actual[1..], &pattern[1..])
}

/// Whether the tokens of `pattern` stand in `actual` one after another;
/// `...` in the pattern stands for any tokens.
fn token_match(actual: &TokenStream, pattern: &str) -> bool {
    let actual = flatten(actual);
    let pattern = pattern_tokens(pattern);
    (0..=actual.len()).any(|start| matches_at(&actual[start..], &pattern))
}

fn assert_matches(actual: &TokenStream, pattern: &str) {
    assert!(token_match(actual, pattern), "no match for `{}` in:\n{}", pattern, actual);
}

fn assert_not_matches(actual: &TokenStream, pattern: &str) {
    assert!(!token_match(actual, pattern), "unexpected match for `{}` in:\n{}", pattern, actual);
}

fn commented_record(name: &str, comment: &str, field_comment: &str) -> Record {
    let mut record = ir_record(name);
    record.size = 4;
    record.alignment = 4;
    record.doc_comment = Some(comment.to_string());
    let mut i = field("i", int_type(), AccessSpecifier::Public, 0);
    i.doc_comment = Some(field_comment.to_string());
    record.fields = vec![i];
    record
}

fn expected_binding(name: &str, doc: &str, field_doc: &str) -> Vec<String> {
    pattern_tokens(&format!(
        "#[doc = {doc:?}]
         #[derive(Clone, Copy)]
         #[repr(C)]
         pub struct {name} {{
             #[doc = {field_doc:?}]
             pub i: i32,
         }}"
    ))
}

#[test]
fn test_sample_types_have_the_layout_that_is_asserted_of_them() {
    assert_eq!(std::mem::size_of::<DocCommentSlashes>(), 4);
    assert_eq!(std::mem::align_of::<DocCommentSlashes>(), 4);
    assert_eq!(std::mem::size_of::<DocCommentBang>(), 4);
    assert_eq!(std::mem::align_of::<DocCommentBang>(), 4);
    assert_eq!(std::mem::size_of::<MultilineCommentTwoStars>(), 4);
    assert_eq!(std::mem::align_of::<MultilineCommentTwoStars>(), 4);
    assert_eq!(std::mem::size_of::<LineComment>(), 4);
    assert_eq!(std::mem::align_of::<LineComment>(), 4);
    assert_eq!(std::mem::size_of::<MultilineOneStar>(), 4);
    assert_eq!(std::mem::align_of::<MultilineOneStar>(), 4);
    let value = DocCommentSlashes { i: 7 };
    let copy = value;
    assert_eq!(value.i + copy.i, 14);
    assert_eq!(DocCommentBang { i: 1 }.clone().i, 1);
    assert_eq!(MultilineCommentTwoStars { i: 2 }.i, 2);
    assert_eq!(LineComment { i: 3 }.i, 3);
    assert_eq!(MultilineOneStar { i: 4 }.i, 4);
}

#[test]
fn test_sample_types_are_what_is_generated_for_their_records() {
    let ir = make_ir(vec![]);
    let samples = [
        ("DocCommentSlashes", "Doc comment\n\n * with three slashes", "A field."),
        ("DocCommentBang", "Doc comment\n\n * with slashes and bang", "A field"),
        ("MultilineCommentTwoStars", "Multiline comment\n\n with two stars", "A field"),
        ("LineComment", "Line comment\n\n * with two slashes", "A field"),
        ("MultilineOneStar", "Multiline comment\n\n with one star", "A field"),
    ];
    for (name, comment, field_comment) in samples {
        let record = commented_record(name, comment, field_comment);
        let (snippet, assertions) = generate_record(&record, &ir).unwrap();
        let doc = format!(" {}", comment.replace('\n', "\n "));
        let field_doc = format!(" {}", field_comment);
        assert_eq!(flatten(&snippet.tokens), expected_binding(name, &doc, &field_doc));
        assert_eq!(
            flatten(&assertions.tokens),
            pattern_tokens(&format!(
                "const _: () = assert!(std::mem::size_of::<{name}>() == 4usize);
                 const _: () = assert!(std::mem::align_of::<{name}>() == 4usize);
                 const _: () = assert!(offset_of!({name}, i) * 8 == 0usize);"
            ))
        );
    }
}
