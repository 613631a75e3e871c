#![allow(dead_code)]
#![allow(unused_imports)]

use interop_bindings::error::{with_context, BindingError, ErrorKind};
use interop_bindings::features::{CrubitFeature, CrubitFeatures, RustFeatures};
use interop_bindings::strings::{
    char_is_space, concat_str, decimal_string, split_path, split_words, str_eq, str_lt,
};
use interop_bindings::ir::{cc_type_eq, rs_type_eq, template_arg_eq, TemplateArg};
use interop_bindings::tokens;
use interop_bindings::tokens::{
    append, arrow, brace, bracket, char_is_ident_continue, char_is_ident_start, comma_separated,
    concat_all, duplicate, eq_eq, int_literal, is_identifier, joint, lex, paren, path_sep,
    punct, stream_text, string_literal,
};
use interop_bindings::words::{word, word_str, Word};

use interop_bindings::ir::{
    make_ir_from_items, AccessSpecifier, BazelLabel, CcType, Comment, DeclId, Field, Func,
    FuncParam, HeaderName, Identifier, InstanceMethodMetadata, Item, LifetimeId, LifetimeName,
    MappedType, MemberFuncMetadata, Record, RsType, SourceLoc, SpecialMemberFunc, TypeAlias,
    UnqualifiedIdentifier, UnsupportedItem, IR,
};
use proc_macro2::{Delimiter, TokenStream, TokenTree};

const TESTING_TARGET: &str = "//test:testing_target";
const DEPENDENCY_TARGET: &str = "//test:dependency";

fn ident(name: &str) -> Identifier {
    Identifier { identifier: name.to_string() }
}

fn label(name: &str) -> BazelLabel {
    BazelLabel(name.to_string())
}

fn loc(line: u64) -> SourceLoc {
    SourceLoc { filename: "ir_from_cc_virtual_header.h".to_string(), line, column: 1 }
}

fn rs_named(name: &str, type_args: Vec<RsType>) -> RsType {
    RsType { name: Some(name.to_string()), lifetime_args: vec![], type_args, decl_id: None }
}

fn rs_ref(name: &str, lifetime: i32, referent: RsType) -> RsType {
    RsType {
        name: Some(name.to_string()),
        lifetime_args: vec![LifetimeId(lifetime)],
        type_args: vec![referent],
        decl_id: None,
    }
}

fn rs_decl(id: usize) -> RsType {
    RsType { name: None, lifetime_args: vec![], type_args: vec![], decl_id: Some(DeclId(id)) }
}

fn cc_named(name: &str, is_const: bool, type_args: Vec<CcType>) -> CcType {
    CcType { name: Some(name.to_string()), is_const, type_args, decl_id: None }
}

fn cc_decl(id: usize, is_const: bool) -> CcType {
    CcType { name: None, is_const, type_args: vec![], decl_id: Some(DeclId(id)) }
}

fn mapped(rs_type: RsType, cc_type: CcType) -> MappedType {
    MappedType { rs_type, cc_type }
}

fn int_type() -> MappedType {
    mapped(rs_named("i32", vec![]), cc_named("int", false, vec![]))
}

fn void_type() -> MappedType {
    mapped(rs_named("()", vec![]), cc_named("void", false, vec![]))
}

fn record_type(id: usize) -> MappedType {
    mapped(rs_decl(id), cc_decl(id, false))
}

/// `T*` without lifetimes: a pointer on both sides.
fn ptr_to_record(id: usize, is_const: bool) -> MappedType {
    mapped(
        rs_named(if is_const { "*const" } else { "*mut" }, vec![rs_decl(id)]),
        cc_named("*", false, vec![cc_decl(id, is_const)]),
    )
}

/// `T&` with the lifetime `lifetime`: a reference on the generated side.
fn ref_to_record(id: usize, is_const: bool, lifetime: i32) -> MappedType {
    mapped(
        rs_ref(if is_const { "&" } else { "&mut" }, lifetime, rs_decl(id)),
        cc_named("&", false, vec![cc_decl(id, is_const)]),
    )
}

fn param(name: &str, type_: MappedType) -> FuncParam {
    FuncParam { type_, identifier: ident(name) }
}

fn ir_record(name: &str) -> Record {
    Record {
        identifier: ident(name),
        cc_name: name.to_string(),
        cc_preferred_name: name.to_string(),
        id: DeclId(0),
        owning_target: label(TESTING_TARGET),
        defining_target: None,
        enclosing_namespace_id: None,
        template_specialization: None,
        bridge_type_info: None,
        doc_comment: None,
        fields: vec![],
        size: 0,
        alignment: 0,
        copy_constructor: SpecialMemberFunc::Trivial,
        move_constructor: SpecialMemberFunc::Trivial,
        destructor: SpecialMemberFunc::Trivial,
        is_trivial_abi: true,
        is_final: true,
        is_abstract: false,
        is_union: false,
        source_loc: loc(1),
    }
}

/// A record as it is read from `struct Name {...};`: one byte, not final.
fn cc_struct(name: &str, id: usize) -> Record {
    let mut record = ir_record(name);
    record.id = DeclId(id);
    record.size = 1;
    record.alignment = 1;
    record.is_final = false;
    record
}

fn field(name: &str, type_: MappedType, access: AccessSpecifier, offset: usize) -> Field {
    Field { identifier: ident(name), doc_comment: None, type_, access, offset }
}

fn ir_func(name: &str) -> Func {
    Func {
        name: UnqualifiedIdentifier::Identifier(ident(name)),
        owning_target: label(TESTING_TARGET),
        mangled_name: "_Z3foov".to_string(),
        doc_comment: None,
        return_type: void_type(),
        params: vec![],
        lifetime_params: vec![],
        is_inline: true,
        member_func_metadata: None,
        source_loc: loc(1),
    }
}

fn free_func(name: &str, mangled: &str, return_type: MappedType, params: Vec<FuncParam>) -> Func {
    let mut func = ir_func(name);
    func.mangled_name = mangled.to_string();
    func.return_type = return_type;
    func.params = params;
    func.is_inline = false;
    func
}

fn method_meta(record_id: usize, is_const: bool, is_virtual: bool) -> Option<MemberFuncMetadata> {
    Some(MemberFuncMetadata {
        record_id: DeclId(record_id),
        instance_method_metadata: Some(InstanceMethodMetadata { is_const, is_virtual }),
    })
}

fn static_meta(record_id: usize) -> Option<MemberFuncMetadata> {
    Some(MemberFuncMetadata { record_id: DeclId(record_id), instance_method_metadata: None })
}

/// The implicit or declared destructor `~Name()` of the record `record_id`.
fn destructor(record_id: usize, mangled: &str) -> Func {
    let mut func = ir_func("unused");
    func.name = UnqualifiedIdentifier::Destructor;
    func.mangled_name = mangled.to_string();
    func.params = vec![param("__this", ptr_to_record(record_id, false))];
    func.member_func_metadata = method_meta(record_id, false, false);
    func
}

/// The constructor `Name(params...)` of the record `record_id`.
fn constructor(record_id: usize, mangled: &str, mut more: Vec<FuncParam>) -> Func {
    let mut func = ir_func("unused");
    func.name = UnqualifiedIdentifier::Constructor;
    func.mangled_name = mangled.to_string();
    let mut params = vec![param("__this", ptr_to_record(record_id, false))];
    params.append(&mut more);
    func.params = params;
    func.member_func_metadata = static_meta(record_id);
    func
}

fn make_ir(items: Vec<Item>) -> IR {
    make_ir_from_items(label(TESTING_TARGET), vec![], items).unwrap()
}

fn flatten_into(stream: TokenStream, out: &mut Vec<String>) {
    for tree in stream {
        match tree {
            TokenTree::Group(group) => {
                let (open, close) = match group.delimiter() {
                    Delimiter::Parenthesis => ("(", ")"),
                    Delimiter::Brace => ("{", "}"),
                    Delimiter::Bracket => ("[", "]"),
                    Delimiter::None => ("", ""),
                };
                out.push(open.to_string());
                flatten_into(group.stream(), out);
                out.push(close.to_string());
            }
            other => out.push(other.to_string()),
        }
    }
}

fn flatten(stream: &TokenStream) -> Vec<String> {
    let mut out = Vec::new();
    flatten_into(stream.clone(), &mut out);
    out
}

fn pattern_tokens(pattern: &str) -> Vec<String> {
    let stream: TokenStream = pattern.parse().unwrap();
    let flat = flatten(&stream);
    let mut out = Vec::new();
    let mut i = 0;
    while i < flat.len() {
        if i + 2 < flat.len() && flat[i] == "." && flat[i + 1] == "." && flat[i + 2] == "." {
            out.push("...".to_string());
            i += 3;
        } else {
            out.push(flat[i].clone());
            i += 1;
        }
    }
    out
}

fn matches_at(actual: &[String], pattern: &[String]) -> bool {
    if pattern.is_empty() {
        return true;
    }
    if pattern[0] == "..." {
        return (0..=actual.len()).any(|skip| matches_at(&actual[skip..], &pattern[1..]));
    }
    !actual.is_empty() && actual[0] == pattern[0] && matches_at(&actual[1..], &pattern[1..])
}

/// Whether the tokens of `pattern` stand in `actual` one after another;
/// `...` in the pattern stands for any tokens.
fn token_match(actual: &TokenStream, pattern: &str) -> bool {
    let actual = flatten(actual);
    let pattern = pattern_tokens(pattern);
    (0..=actual.len()).any(|start| matches_at(&actual[start..], &pattern))
}

fn assert_matches(actual: &TokenStream, pattern: &str) {
    assert!(token_match(actual, pattern), "no match for `{}` in:\n{}", pattern, actual);
}

fn assert_not_matches(actual: &TokenStream, pattern: &str) {
    assert!(!token_match(actual, pattern), "unexpected match for `{}` in:\n{}", pattern, actual);
}

#[test]
fn test_decimal_string() {
    assert_eq!(decimal_string(0), "0");
    assert_eq!(decimal_string(7), "7");
    assert_eq!(decimal_string(10), "10");
    assert_eq!(decimal_string(305), "305");
    assert_eq!(decimal_string(1234567890), "1234567890");
    assert_eq!(decimal_string(u64::MAX), "18446744073709551615");
}

#[test]
fn test_string_comparisons() {
    assert!(str_eq("", ""));
    assert!(str_eq("ab", "ab"));
    assert!(!str_eq("ab", "abc"));
    assert!(!str_eq("ab", "aB"));
    let samples = ["", "a", "aa", "ab", "b", "B", "ba", "\u{e9}", "z", "zz", "\u{1F600}"];
    for a in samples {
        for b in samples {
            assert_eq!(str_lt(a, b), a < b, "{:?} < {:?}", a, b);
        }
    }
    assert_eq!(concat_str("ab", "cd"), "abcd");
    assert_eq!(concat_str("", ""), "");
}

#[test]
fn test_split_words() {
    let samples = [
        "",
        " ",
        "one",
        "unsigned int",
        "  unsigned \t long\nlong  ",
        "a\u{a0}b\u{2003}c\u{3000}d",
        "a\u{85}b\u{1680}c\u{2028}d\u{2029}e\u{202f}f\u{205f}g",
        "no\u{200b}break",
    ];
    for text in samples {
        let expected: Vec<String> = text.split_whitespace().map(String::from).collect();
        assert_eq!(split_words(text), expected, "{:?}", text);
    }
    for code in 0..0x3100u32 {
        if let Some(c) = char::from_u32(code) {
            assert_eq!(char_is_space(c), c.is_whitespace(), "U+{:04X}", code);
        }
    }
}

#[test]
fn test_split_path() {
    let samples = ["", "a", "a::b", "cc_std::std::unique_ptr", "::a", "a::", ":::", "a:b", "::::", "a:::b"];
    for text in samples {
        let expected: Vec<String> = text.split("::").map(String::from).collect();
        assert_eq!(split_path(text), expected, "{:?}", text);
    }
}

#[test]
fn test_identifiers() {
    for name in ["a", "_", "_1", "snake_case", "CamelCase", "x9", "__rust_thunk___Z3foov", "fn"] {
        assert!(is_identifier(name), "{:?}", name);
        assert_eq!(tokens::ident(name).unwrap().to_string(), name);
    }
    for name in ["", "1", "9lives", "a b", "a-b", "a::b", "r#fn", "\u{e9}t\u{e9}", "x!", " x"] {
        assert!(!is_identifier(name), "{:?}", name);
        assert!(tokens::ident(name).is_none());
    }
    assert!(char_is_ident_start('_') && char_is_ident_start('q') && char_is_ident_start('Q'));
    assert!(!char_is_ident_start('0') && !char_is_ident_start('-'));
    assert!(char_is_ident_continue('0') && char_is_ident_continue('z'));
    assert!(!char_is_ident_continue(' ') && !char_is_ident_continue('\u{e9}'));
}

#[test]
fn test_token_builders() {
    let tokens_of = |ts: &TokenStream| flatten(ts);
    assert_eq!(punct(',').to_string(), ",");
    assert_eq!(tokens::concat(joint(':'), punct(':')).to_string(), "::");
    assert_eq!(tokens::concat(punct(':'), punct(':')).to_string(), ": :");
    assert_eq!(path_sep().to_string(), "::");
    assert_eq!(arrow().to_string(), "->");
    assert_eq!(eq_eq().to_string(), "==");
    assert_eq!(string_literal("a \"b\"\n").to_string(), "\"a \\\"b\\\"\\n\"");
    assert_eq!(int_literal(12, true).to_string(), "12usize");
    assert_eq!(int_literal(12, false).to_string(), "12");
    assert_eq!(int_literal(0, false).to_string(), "0");
    let inner = || tokens::concat(word(Word::Pub), word(Word::Fn));
    assert_eq!(tokens_of(&paren(inner())), ["(", "pub", "fn", ")"]);
    assert_eq!(tokens_of(&brace(inner())), ["{", "pub", "fn", "}"]);
    assert_eq!(tokens_of(&bracket(inner())), ["[", "pub", "fn", "]"]);
    assert!(matches!(
        paren(inner()).into_iter().next(),
        Some(TokenTree::Group(group)) if group.delimiter() == Delimiter::Parenthesis
    ));

    let mut out = word(Word::Let);
    append(&mut out, word(Word::Mut));
    append(&mut out, TokenStream::new());
    append(&mut out, word(Word::Tmp));
    assert_eq!(tokens_of(&out), ["let", "mut", "tmp"]);
    let copy = duplicate(&out);
    append(&mut out, punct(';'));
    assert_eq!(tokens_of(&copy), ["let", "mut", "tmp"]);
    assert_eq!(tokens_of(&out), ["let", "mut", "tmp", ";"]);

    let parts = vec![word(Word::U8), inner(), word(Word::I32)];
    assert_eq!(tokens_of(&concat_all(&parts)), ["u8", "pub", "fn", "i32"]);
    assert_eq!(tokens_of(&comma_separated(&parts)), ["u8", ",", "pub", "fn", ",", "i32"]);
    assert_eq!(tokens_of(&comma_separated(&parts[..1].to_vec())), ["u8"]);
    assert!(comma_separated(&vec![]).is_empty());
    assert!(concat_all(&vec![]).is_empty());
}

#[test]
fn test_lexing_and_printing() {
    assert_eq!(flatten(&lex("::std::vec::Vec<'a, T>").unwrap()),
        [":", ":", "std", ":", ":", "vec", ":", ":", "Vec", "<", "'", "a", ",", "T", ">"]);
    assert!(lex("").unwrap().is_empty());
    assert!(lex("unbalanced (").is_none());
    assert!(lex("\"open string").is_none());
    let stream = lex("a :: b ( c )").unwrap();
    assert_eq!(stream_text(&stream), stream.to_string());
    assert_eq!(stream_text(&lex("x  +  1").unwrap()), "x + 1");
}

#[test]
fn test_words() {
    for (w, text) in [
        (Word::Pub, "pub"),
        (Word::SelfValue, "self"),
        (Word::SelfType, "Self"),
        (Word::Newline, "__NEWLINE__"),
        (Word::Comment, "__COMMENT__"),
        (Word::HashToken, "__HASH_TOKEN__"),
        (Word::Underscore, "_"),
        (Word::CloneTrait, "Clone"),
        (Word::Clone, "clone"),
        (Word::UpperC, "C"),
        (Word::CUlonglong, "c_ulonglong"),
        (Word::StaticAssert, "static_assert"),
    ] {
        assert_eq!(word_str(w), text);
        assert_eq!(word(w).to_string(), text);
    }
}

#[test]
fn test_errors_keep_their_chain() {
    let root = BindingError::from_str(ErrorKind::MissingLifetime, "cause");
    assert_eq!(root.kind, ErrorKind::MissingLifetime);
    assert_eq!(root.messages, ["cause"]);
    assert_eq!(root.message(), "cause");
    let wrapped = root.with_context("doing b".to_string()).with_context("doing a".to_string());
    assert_eq!(wrapped.kind, ErrorKind::MissingLifetime);
    assert_eq!(wrapped.messages, ["doing a", "doing b", "cause"]);
    assert_eq!(wrapped.message(), "doing a: doing b: cause");
    let made = BindingError::new(ErrorKind::Overloaded, "x".to_string());
    assert_eq!((made.kind, made.message()), (ErrorKind::Overloaded, "x".to_string()));

    let ok = with_context(Ok(word(Word::Pub)), "unused".to_string()).unwrap();
    assert_eq!(ok.to_string(), "pub");
    let err = with_context(
        Err(BindingError::from_str(ErrorKind::NotAType, "inner")),
        "outer".to_string(),
    )
    .unwrap_err();
    assert_eq!(err.message(), "outer: inner");
}

#[test]
fn test_rust_features() {
    let none = RustFeatures::empty();
    assert!(none.is_empty());
    assert!(none.list().is_empty());
    let a = RustFeatures { negative_impls: true, ..none };
    let b = RustFeatures { arbitrary_self_types: true, custom_inner_attributes: true, ..none };
    assert!(!a.is_empty());
    assert_eq!(a.list().to_string(), "negative_impls");
    let both = a.union(b);
    assert_eq!(both, b.union(a));
    assert_eq!(both.union(both), both);
    assert_eq!(
        flatten(&both.list()),
        ["arbitrary_self_types", ",", "custom_inner_attributes", ",", "negative_impls"]
    );
    let all = both.union(RustFeatures { const_ptr_offset_from: true, ..none });
    assert_eq!(
        flatten(&all.list()),
        [
            "arbitrary_self_types",
            ",",
            "const_ptr_offset_from",
            ",",
            "custom_inner_attributes",
            ",",
            "negative_impls"
        ]
    );
}

#[test]
fn test_crubit_features() {
    let none = CrubitFeatures::empty();
    let supported = CrubitFeatures::only(CrubitFeature::Supported);
    let experimental = CrubitFeatures::only(CrubitFeature::Experimental);
    let both = supported.union(experimental);
    assert!(none.is_empty() && !supported.is_empty());
    assert!(supported.contains(CrubitFeature::Supported));
    assert!(!supported.contains(CrubitFeature::Experimental));
    assert!(both.contains(CrubitFeature::Supported) && both.contains(CrubitFeature::Experimental));
    assert_eq!(both.difference(supported), experimental);
    assert_eq!(both.difference(both), none);
    assert_eq!(supported.difference(experimental), supported);
    assert_eq!(none.union(none), none);
}

#[test]
fn test_labels() {
    assert_eq!(label("//a/b:target").target_name().unwrap(), "target");
    assert_eq!(label("//a:b:c").target_name().unwrap(), "b:c");
    assert_eq!(label("//a:").target_name().unwrap(), "");
    assert_eq!(label(":x").target_name().unwrap(), "x");
    let err = label("//a/b").target_name().unwrap_err();
    assert_eq!((err.kind, err.message()), (ErrorKind::InvalidLabel, "Unsupported label format: //a/b".to_string()));
    assert!(label("x").same_as(&label("x")));
    assert!(!label("x").same_as(&label("y")));
}

#[test]
fn test_unit_lookups() {
    let mut first = ir_record("First");
    first.id = DeclId(10);
    let mut second = ir_record("Second");
    second.id = DeclId(20);
    let mut ir = make_ir(vec![
        Item::Func(ir_func("f")),
        Item::Record(first),
        Item::Comment(Comment { text: String::new() }),
        Item::Record(second),
    ]);
    assert_eq!(ir.find(DeclId(10)), Some(1));
    assert_eq!(ir.find(DeclId(20)), Some(3));
    assert_eq!(ir.find(DeclId(0)), None);
    assert!(matches!(ir.find_decl(DeclId(20)).unwrap(), Item::Record(r) if r.identifier.identifier == "Second"));
    assert!(matches!(ir.item_for_type(Some(DeclId(10))).unwrap(), Item::Record(r) if r.identifier.identifier == "First"));
    assert_eq!(
        ir.item_for_type(None).unwrap_err().message(),
        "Type does not have an associated item."
    );
    assert_eq!(ir.find_decl(DeclId(5)).unwrap_err().message(), "Couldn't find decl_id 5 in the IR.");
    assert_eq!(ir.items[0].id(), None);
    assert_eq!(ir.items[1].id(), Some(DeclId(10)));

    assert!(ir.is_current_target(&label(TESTING_TARGET)));
    assert!(!ir.is_current_target(&label(DEPENDENCY_TARGET)));
    assert!(!ir.is_stdlib_target(&label(DEPENDENCY_TARGET)));
    assert!(ir.is_bound_here(&label(TESTING_TARGET)));
    assert!(!ir.is_bound_here(&label(DEPENDENCY_TARGET)));
    ir.stdlib_targets = vec![label("//std:a"), label("//std:b")];
    assert!(ir.is_stdlib_target(&label("//std:b")));
    assert!(ir.is_bound_here(&label("//std:a")));
    assert!(!ir.is_stdlib_target(&label(TESTING_TARGET)));

    let meta = static_meta(20).unwrap();
    assert_eq!(meta.find_record(&ir).unwrap().identifier.identifier, "Second");
}

#[test]
fn test_units_with_one_identifier_twice_are_refused() {
    let with_ids = |ids: &[usize]| {
        let items = ids
            .iter()
            .map(|id| {
                let mut record = ir_record("R");
                record.id = DeclId(*id);
                Item::Record(record)
            })
            .chain([Item::Func(ir_func("f")), Item::Func(ir_func("f"))])
            .collect();
        make_ir_from_items(label(TESTING_TARGET), vec![], items)
    };
    assert!(with_ids(&[]).is_ok());
    assert!(with_ids(&[1, 2, 3]).is_ok());
    for ids in [[1, 1, 2], [1, 2, 1], [2, 1, 1]] {
        let err = with_ids(&ids).unwrap_err();
        assert_eq!(err.kind, ErrorKind::DuplicateDeclaration);
        assert_eq!(err.message(), "Duplicate decl_id found in the IR: 1");
    }
    let ir = with_ids(&[4]).unwrap();
    assert_eq!(ir.items.len(), 3);
    assert!(ir.stdlib_targets.is_empty());
    assert!(ir.crate_root_path.is_none());
    assert!(ir.used_headers.is_empty());
    assert_eq!(ir.current_target.0, TESTING_TARGET);
}

#[test]
fn test_type_equality() {
    let a = || rs_named("Pair", vec![rs_named("i32", vec![]), rs_ref("&", 1, rs_decl(3))]);
    assert!(rs_type_eq(&a(), &a()));
    let mut b = a();
    b.type_args[1].type_args[0].decl_id = Some(DeclId(4));
    assert!(!rs_type_eq(&a(), &b));
    let mut b = a();
    b.type_args[1].lifetime_args[0] = LifetimeId(2);
    assert!(!rs_type_eq(&a(), &b));
    let mut b = a();
    b.type_args.pop();
    assert!(!rs_type_eq(&a(), &b));
    let mut b = a();
    b.name = None;
    assert!(!rs_type_eq(&a(), &b));

    let c = || cc_named("*", true, vec![cc_decl(1, false)]);
    assert!(cc_type_eq(&c(), &c()));
    let mut d = c();
    d.is_const = false;
    assert!(!cc_type_eq(&c(), &d));
    let mut d = c();
    d.type_args[0].is_const = true;
    assert!(!cc_type_eq(&c(), &d));

    let ok = || TemplateArg { type_: Ok(mapped(a(), c())) };
    let err = |text: &str| TemplateArg { type_: Err(text.to_string()) };
    assert!(template_arg_eq(&ok(), &ok()));
    assert!(template_arg_eq(&err("x"), &err("x")));
    assert!(!template_arg_eq(&err("x"), &err("y")));
    assert!(!template_arg_eq(&ok(), &err("x")));
}

#[test]
fn test_types_that_are_unit_or_void() {
    assert!(rs_named("()", vec![]).is_unit_type());
    assert!(!rs_named("( )", vec![]).is_unit_type());
    assert!(!rs_decl(1).is_unit_type());
    assert!(cc_named("void", false, vec![]).is_void());
    assert!(!cc_named("int", false, vec![]).is_void());
    assert!(!cc_decl(1, false).is_void());
    let mut method = ir_func("m");
    assert!(!method.is_instance_method());
    method.member_func_metadata = static_meta(1);
    assert!(!method.is_instance_method());
    method.member_func_metadata = method_meta(1, true, false);
    assert!(method.is_instance_method());
    let mut record = ir_record("R");
    assert!(record.is_unpin());
    record.is_final = false;
    assert!(!record.is_unpin());
    record.is_final = true;
    record.is_trivial_abi = false;
    assert!(!record.is_unpin());
}
