//! The intermediate representation of a compilation unit: an ordered list of
//! declarations with resolved types, layout and special-member
//! classification.

use crate::error::{BindingError, ErrorKind, ErrorModel};
use crate::strings::{decimal, decimal_string, str_eq, texts_of};
use vstd::prelude::*;

verus! {

/// Identifies a declaration within a unit.
#[derive(Clone, Copy, Debug, PartialEq, Eq, Structural)]
pub struct DeclId(pub usize);

/// Identifies a lifetime within a function.
#[derive(Clone, Copy, Debug, PartialEq, Eq, Structural)]
pub struct LifetimeId(pub i32);

/// A name as the source spells it.
#[derive(Debug)]
pub struct Identifier {
    pub identifier: String,
}

/// The label of a compilation unit, in the form `package:target`.
#[derive(Debug)]
pub struct BazelLabel(pub String);

/// A header that the unit's declarations come from.
#[derive(Debug)]
pub struct HeaderName {
    pub name: String,
}

/// A lifetime parameter of a function.
#[derive(Debug)]
pub struct LifetimeName {
    pub name: String,
    pub id: LifetimeId,
}

/// A type node on the generated side: a named constructor with arguments
/// (`name` is set), or a reference to a declaration (`decl_id` is set).
#[derive(Debug)]
pub struct RsType {
    pub name: Option<String>,
    pub lifetime_args: Vec<LifetimeId>,
    pub type_args: Vec<RsType>,
    pub decl_id: Option<DeclId>,
}

/// A type node on the source side.
#[derive(Debug)]
pub struct CcType {
    pub name: Option<String>,
    pub is_const: bool,
    pub type_args: Vec<CcType>,
    pub decl_id: Option<DeclId>,
}

/// One type, as both sides see it.
#[derive(Debug)]
pub struct MappedType {
    pub rs_type: RsType,
    pub cc_type: CcType,
}

/// The name of a function: an identifier, or one of the special members.
#[derive(Debug)]
pub enum UnqualifiedIdentifier {
    Identifier(Identifier),
    Constructor,
    Destructor,
}

/// What is known of a non-static member function.
#[derive(Clone, Copy, Debug, PartialEq, Eq, Structural)]
pub struct InstanceMethodMetadata {
    pub is_const: bool,
    pub is_virtual: bool,
}

/// What is known of a member function: its record, and whether it is an
/// instance method.
#[derive(Clone, Copy, Debug)]
pub struct MemberFuncMetadata {
    pub record_id: DeclId,
    pub instance_method_metadata: Option<InstanceMethodMetadata>,
}

/// A parameter of a function.
#[derive(Debug)]
pub struct FuncParam {
    pub type_: MappedType,
    pub identifier: Identifier,
}

/// Where a declaration stands in the source.
#[derive(Debug)]
pub struct SourceLoc {
    pub filename: String,
    pub line: u64,
    pub column: u64,
}

/// A callable declaration.
#[derive(Debug)]
pub struct Func {
    pub name: UnqualifiedIdentifier,
    pub owning_target: BazelLabel,
    pub mangled_name: String,
    pub doc_comment: Option<String>,
    pub return_type: MappedType,
    pub params: Vec<FuncParam>,
    pub lifetime_params: Vec<LifetimeName>,
    pub is_inline: bool,
    pub member_func_metadata: Option<MemberFuncMetadata>,
    pub source_loc: SourceLoc,
}

/// Who may access a member.
#[derive(Clone, Copy, Debug, PartialEq, Eq, Structural)]
pub enum AccessSpecifier {
    Public,
    Protected,
    Private,
}

/// A field of a record. `offset` is in bits.
#[derive(Debug)]
pub struct Field {
    pub identifier: Identifier,
    pub doc_comment: Option<String>,
    pub type_: MappedType,
    pub access: AccessSpecifier,
    pub offset: usize,
}

/// How a record's copy constructor, move constructor or destructor is
/// defined.
#[derive(Clone, Copy, Debug, PartialEq, Eq, Structural)]
pub enum SpecialMemberFunc {
    /// Nothing runs.
    Trivial,
    /// Not user-defined, but a member's is not trivial.
    NontrivialMembers,
    /// User-defined.
    NontrivialUserDefined,
    /// Deleted.
    Deleted,
    /// Not public, or otherwise not callable.
    Unavailable,
}

/// A template instantiation that a record comes from.
#[derive(Debug)]
pub struct TemplateSpecialization {
    pub template_name: String,
    pub template_args: Vec<TemplateArg>,
}

/// One argument of a template instantiation: a type, or the reason for which
/// it has none.
#[derive(Debug)]
pub struct TemplateArg {
    pub type_: Result<MappedType, String>,
}

/// A hand-written type that stands for a record, with the functions that
/// convert in both directions.
#[derive(Debug)]
pub struct BridgeTypeInfo {
    pub bridge_type: String,
    pub rust_to_cpp_converter: String,
    pub cpp_to_rust_converter: String,
}

/// A record: struct, class or union.
#[derive(Debug)]
pub struct Record {
    pub identifier: Identifier,
    pub cc_name: String,
    pub cc_preferred_name: String,
    pub id: DeclId,
    pub owning_target: BazelLabel,
    pub defining_target: Option<BazelLabel>,
    pub enclosing_namespace_id: Option<DeclId>,
    pub template_specialization: Option<TemplateSpecialization>,
    pub bridge_type_info: Option<BridgeTypeInfo>,
    pub doc_comment: Option<String>,
    pub fields: Vec<Field>,
    pub size: usize,
    pub alignment: usize,
    pub copy_constructor: SpecialMemberFunc,
    pub move_constructor: SpecialMemberFunc,
    pub destructor: SpecialMemberFunc,
    pub is_trivial_abi: bool,
    pub is_final: bool,
    pub is_abstract: bool,
    pub is_union: bool,
    pub source_loc: SourceLoc,
}

/// A record that is declared but not defined in this unit.
#[derive(Debug)]
pub struct IncompleteRecord {
    pub identifier: Identifier,
    pub cc_name: String,
    pub id: DeclId,
    pub owning_target: BazelLabel,
    pub enclosing_namespace_id: Option<DeclId>,
}

/// An enumeration.
#[derive(Debug)]
pub struct Enum {
    pub identifier: Identifier,
    pub id: DeclId,
    pub owning_target: BazelLabel,
    pub enclosing_namespace_id: Option<DeclId>,
}

/// A type alias.
#[derive(Debug)]
pub struct TypeAlias {
    pub identifier: Identifier,
    pub id: DeclId,
    pub owning_target: BazelLabel,
    pub enclosing_namespace_id: Option<DeclId>,
    pub doc_comment: Option<String>,
    pub underlying_type: MappedType,
    pub source_loc: SourceLoc,
}

/// A namespace.
#[derive(Debug)]
pub struct Namespace {
    pub name: Identifier,
    pub id: DeclId,
    pub enclosing_namespace_id: Option<DeclId>,
}

/// A type that is spelled by a fixed name on the generated side.
#[derive(Debug)]
pub struct TypeMapOverride {
    pub rs_name: String,
    pub cc_name: String,
    pub type_parameters: Vec<MappedType>,
    pub is_same_abi: bool,
    pub id: DeclId,
}

/// A declaration for which no binding can be generated, with the reason.
#[derive(Debug)]
pub struct UnsupportedItem {
    pub name: String,
    pub message: String,
    pub source_loc: SourceLoc,
}

/// A free-standing comment.
#[derive(Debug)]
pub struct Comment {
    pub text: String,
}

/// One declaration of a unit.
#[derive(Debug)]
pub enum Item {
    Func(Func),
    Record(Record),
    IncompleteRecord(IncompleteRecord),
    Enum(Enum),
    TypeAlias(TypeAlias),
    Namespace(Namespace),
    TypeMapOverride(TypeMapOverride),
    UnsupportedItem(UnsupportedItem),
    Comment(Comment),
}

/// A compilation unit: its declarations in source order, the unit they are
/// generated for, and the units that count as the standard library.
#[derive(Debug)]
pub struct IR {
    pub used_headers: Vec<HeaderName>,
    pub current_target: BazelLabel,
    pub stdlib_targets: Vec<BazelLabel>,
    pub crate_root_path: Option<String>,
    pub items: Vec<Item>,
}

impl RsType {
    /// Whether this is the unit type: the constructor `()`.
    pub open spec fn spec_is_unit_type(&self) -> bool {
        self.name matches Some(name) && name@ == "()"@
    }

    /// Whether this is the unit type: the constructor `()`.
    pub fn is_unit_type(&self) -> (b: bool)
        ensures
            b == self.spec_is_unit_type(),
    {
        match &self.name {
            Some(name) => str_eq(name.as_str(), "()"),
            None => false,
        }
    }
}

impl CcType {
    /// Whether this is `void`.
    pub open spec fn spec_is_void(&self) -> bool {
        self.name matches Some(name) && name@ == "void"@
    }

    /// Whether this is `void`.
    pub fn is_void(&self) -> (b: bool)
        ensures
            b == self.spec_is_void(),
    {
        match &self.name {
            Some(name) => str_eq(name.as_str(), "void"),
            None => false,
        }
    }
}

/// The place of the first `:` in `text` at or after `from`, or the length of
/// `text` where there is none.
pub open spec fn colon_index(text: Seq<char>, from: int) -> int
    decreases text.len() - from,
{
    if from >= text.len() {
        text.len() as int
    } else if text[from] == ':' {
        from
    } else {
        colon_index(text, from + 1)
    }
}

impl BazelLabel {
    /// Whether the label has a target part: whether it holds a `:`.
    pub open spec fn spec_has_target(&self) -> bool {
        colon_index(self.0@, 0) < self.0@.len()
    }

    /// The target part of the label: what follows its first `:`.
    pub open spec fn spec_target_name(&self) -> Seq<char> {
        self.0@.subrange(colon_index(self.0@, 0) + 1, self.0@.len() as int)
    }

    /// The error for a label without a `:`.
    pub open spec fn label_error(&self) -> ErrorModel {
        ErrorModel::root(ErrorKind::InvalidLabel, "Unsupported label format: "@ + self.0@)
    }

    /// The target part of the label, which follows its first `:`; an error
    /// where the label holds no `:`.
    pub fn target_name(&self) -> (r: Result<&str, BindingError>)
        ensures
            self.spec_has_target() ==> (r matches Ok(name) && name@ == self.spec_target_name()),
            !self.spec_has_target() ==> (r matches Err(e) && e@ == self.label_error()),
    {
        let text = self.0.as_str();
        let n = text.unicode_len();
        let mut i: usize = 0;
        while i < n
            invariant
                n == text@.len(),
                text@ == self.0@,
                i <= n,
                colon_index(text@, 0) == colon_index(text@, i as int),
            decreases n - i,
        {
            if text.get_char(i) == ':' {
                return Ok(text.substring_char(i + 1, n));
            }
            i += 1;
        }
        let mut message = String::from_str("Unsupported label format: ");
        message.append(text);
        Err(BindingError::new(ErrorKind::InvalidLabel, message))
    }

    /// Whether two labels are the same.
    pub fn same_as(&self, other: &BazelLabel) -> (b: bool)
        ensures
            b == (self.0@ == other.0@),
    {
        self.0 == other.0
    }
}

impl Record {
    /// Whether a value of the record may be moved by copying its bytes, and
    /// so may be handed out by mutable reference: it has a trivial ABI and
    /// nothing can derive from it.
    pub open spec fn spec_is_unpin(&self) -> bool {
        self.is_trivial_abi && self.is_final
    }

    /// Whether a value of the record may be moved by copying its bytes.
    pub fn is_unpin(&self) -> (b: bool)
        ensures
            b == self.spec_is_unpin(),
    {
        self.is_trivial_abi && self.is_final
    }
}

impl Func {
    /// Whether the function is a non-static member function.
    pub open spec fn spec_is_instance_method(&self) -> bool {
        self.member_func_metadata matches Some(meta) && meta.instance_method_metadata is Some
    }

    /// Whether the function is a non-static member function.
    pub fn is_instance_method(&self) -> (b: bool)
        ensures
            b == self.spec_is_instance_method(),
    {
        match &self.member_func_metadata {
            Some(meta) => meta.instance_method_metadata.is_some(),
            None => false,
        }
    }
}

impl Item {
    /// The identifier of the declaration, if its kind has one.
    pub open spec fn spec_id(&self) -> Option<DeclId> {
        match self {
            Item::Record(record) => Some(record.id),
            Item::IncompleteRecord(record) => Some(record.id),
            Item::Enum(enum_) => Some(enum_.id),
            Item::TypeAlias(alias) => Some(alias.id),
            Item::Namespace(namespace) => Some(namespace.id),
            Item::TypeMapOverride(type_map_override) => Some(type_map_override.id),
            Item::Func(_) => None,
            Item::UnsupportedItem(_) => None,
            Item::Comment(_) => None,
        }
    }

    /// The identifier of the declaration, if its kind has one.
    pub fn id(&self) -> (id: Option<DeclId>)
        ensures
            id == self.spec_id(),
    {
        match self {
            Item::Record(record) => Some(record.id),
            Item::IncompleteRecord(record) => Some(record.id),
            Item::Enum(enum_) => Some(enum_.id),
            Item::TypeAlias(alias) => Some(alias.id),
            Item::Namespace(namespace) => Some(namespace.id),
            Item::TypeMapOverride(type_map_override) => Some(type_map_override.id),
            Item::Func(_) => None,
            Item::UnsupportedItem(_) => None,
            Item::Comment(_) => None,
        }
    }
}

/// The index of the first of `items`, at or after `from`, that has the
/// identifier `id`.
pub open spec fn find_from(items: Seq<Item>, id: DeclId, from: int) -> Option<int>
    decreases items.len() - from,
{
    if from < 0 || from >= items.len() {
        None
    } else if items[from].spec_id() == Some(id) {
        Some(from)
    } else {
        find_from(items, id, from + 1)
    }
}

/// Whether one of `labels` is `label`.
pub open spec fn holds_label(labels: Seq<BazelLabel>, label: BazelLabel) -> bool {
    exists|i: int| 0 <= i < labels.len() && #[trigger] labels[i].0@ == label.0@
}

/// Whether no two of `items` have the same identifier.
pub open spec fn distinct_ids(items: Seq<Item>) -> bool {
    forall|i: int, j: int|
        0 <= i < j < items.len() && (#[trigger] items[i].spec_id()) is Some ==> items[i].spec_id()
            != #[trigger] items[j].spec_id()
}

impl IR {
    /// The index of the declaration with the identifier `id`.
    pub open spec fn spec_find(&self, id: DeclId) -> Option<int> {
        find_from(self.items@, id, 0)
    }

    /// The error for an identifier that no declaration has.
    pub open spec fn not_found_error(id: DeclId) -> ErrorModel {
        ErrorModel::root(
            ErrorKind::UnresolvableIdentifier,
            "Couldn't find decl_id "@ + decimal(id.0 as nat) + " in the IR."@,
        )
    }

    /// The error for a type that names no declaration.
    pub open spec fn no_item_error() -> ErrorModel {
        ErrorModel::root(
            ErrorKind::UnresolvableIdentifier,
            "Type does not have an associated item."@,
        )
    }

    /// The declaration that a type with `decl_id` refers to, or the error
    /// for it.
    pub open spec fn spec_item_for_type(&self, decl_id: Option<DeclId>) -> Result<Item, ErrorModel> {
        match decl_id {
            None => Err(IR::no_item_error()),
            Some(id) => match self.spec_find(id) {
                Some(index) => Ok(self.items@[index]),
                None => Err(IR::not_found_error(id)),
            },
        }
    }

    /// The index of the first declaration with the identifier `id`.
    pub fn find(&self, id: DeclId) -> (r: Option<usize>)
        ensures
            match r {
                Some(index) => self.spec_find(id) == Some(index as int) && index < self.items@.len(),
                None => self.spec_find(id) is None,
            },
    {
        let mut i: usize = 0;
        while i < self.items.len()
            invariant
                i <= self.items.len(),
                find_from(self.items@, id, 0) == find_from(self.items@, id, i as int),
            decreases self.items.len() - i,
        {
            match self.items[i].id() {
                Some(found) => {
                    if found.0 == id.0 {
                        return Some(i);
                    }
                },
                None => {},
            }
            i += 1;
        }
        None
    }

    /// The declaration with the identifier `id`; an error where there is
    /// none.
    pub fn find_decl(&self, id: DeclId) -> (r: Result<&Item, BindingError>)
        ensures
            match self.spec_find(id) {
                Some(index) => r == Ok::<&Item, BindingError>(&self.items@[index]),
                None => r matches Err(e) && e@ == IR::not_found_error(id),
            },
    {
        match self.find(id) {
            Some(index) => Ok(&self.items[index]),
            None => {
                let mut message = String::from_str("Couldn't find decl_id ");
                message.append(decimal_string(id.0 as u64).as_str());
                message.append(" in the IR.");
                Err(BindingError::new(ErrorKind::UnresolvableIdentifier, message))
            },
        }
    }

    /// The declaration that a type with `decl_id` refers to; an error where
    /// the type names none, or none has that identifier.
    pub fn item_for_type(&self, decl_id: Option<DeclId>) -> (r: Result<&Item, BindingError>)
        ensures
            match self.spec_item_for_type(decl_id) {
                Ok(item) => r == Ok::<&Item, BindingError>(&item),
                Err(error) => r matches Err(e) && e@ == error,
            },
    {
        match decl_id {
            None => Err(
                BindingError::from_str(
                    ErrorKind::UnresolvableIdentifier,
                    "Type does not have an associated item.",
                ),
            ),
            Some(id) => self.find_decl(id),
        }
    }

    /// Whether `label` is the unit that bindings are generated for.
    pub open spec fn spec_is_current_target(&self, label: BazelLabel) -> bool {
        self.current_target.0@ == label.0@
    }

    /// Whether `label` is the unit that bindings are generated for.
    pub fn is_current_target(&self, label: &BazelLabel) -> (b: bool)
        ensures
            b == self.spec_is_current_target(*label),
    {
        self.current_target.same_as(label)
    }

    /// Whether `label` is one of the units that count as the standard
    /// library.
    pub open spec fn spec_is_stdlib_target(&self, label: BazelLabel) -> bool {
        holds_label(self.stdlib_targets@, label)
    }

    /// Whether `label` is one of the units that count as the standard
    /// library.
    pub fn is_stdlib_target(&self, label: &BazelLabel) -> (b: bool)
        ensures
            b == self.spec_is_stdlib_target(*label),
    {
        let mut i: usize = 0;
        while i < self.stdlib_targets.len()
            invariant
                i <= self.stdlib_targets.len(),
                forall|j: int| 0 <= j < i ==> (#[trigger] self.stdlib_targets@[j]).0@ != label.0@,
            decreases self.stdlib_targets.len() - i,
        {
            if self.stdlib_targets[i].same_as(label) {
                return true;
            }
            i += 1;
        }
        false
    }

    /// Whether declarations of the unit `label` get bindings here: the
    /// current unit and the standard library do.
    pub open spec fn spec_is_bound_here(&self, label: BazelLabel) -> bool {
        self.spec_is_current_target(label) || self.spec_is_stdlib_target(label)
    }

    /// Whether declarations of the unit `label` get bindings here.
    pub fn is_bound_here(&self, label: &BazelLabel) -> (b: bool)
        ensures
            b == self.spec_is_bound_here(*label),
    {
        self.is_current_target(label) || self.is_stdlib_target(label)
    }
}

impl MemberFuncMetadata {
    /// The error for a member function whose record identifier names
    /// something else.
    pub open spec fn not_a_record_error(id: DeclId) -> ErrorModel {
        ErrorModel::root(
            ErrorKind::MissingRecord,
            "DeclId "@ + decimal(id.0 as nat) + " doesn't refer to a Record"@,
        )
    }

    /// The record of the member function, or the error for it.
    pub open spec fn spec_find_record(&self, ir: &IR) -> Result<Record, ErrorModel> {
        match ir.spec_find(self.record_id) {
            None => Err(IR::not_found_error(self.record_id)),
            Some(index) => match ir.items@[index] {
                Item::Record(record) => Ok(record),
                _ => Err(MemberFuncMetadata::not_a_record_error(self.record_id)),
            },
        }
    }

    /// The record that the member function belongs to; an error where no
    /// declaration has its identifier, or the declaration is no record.
    pub fn find_record<'a>(&self, ir: &'a IR) -> (r: Result<&'a Record, BindingError>)
        ensures
            match self.spec_find_record(ir) {
                Ok(record) => r == Ok::<&Record, BindingError>(&record),
                Err(error) => r matches Err(e) && e@ == error,
            },
    {
        match ir.find_decl(self.record_id) {
            Err(e) => Err(e),
            Ok(item) => match item {
                Item::Record(record) => Ok(record),
                _ => {
                    let mut message = String::from_str("DeclId ");
                    message.append(decimal_string(self.record_id.0 as u64).as_str());
                    message.append(" doesn't refer to a Record");
                    Err(BindingError::new(ErrorKind::MissingRecord, message))
                },
            },
        }
    }
}

/// The error for two declarations with one identifier.
pub open spec fn duplicate_error(id: DeclId) -> ErrorModel {
    ErrorModel::root(
        ErrorKind::DuplicateDeclaration,
        "Duplicate decl_id found in the IR: "@ + decimal(id.0 as nat),
    )
}

/// A unit of the given declarations, in their order, for the unit
/// `current_target`; an error where two of them have the same identifier.
pub fn make_ir_from_items(
    current_target: BazelLabel,
    used_headers: Vec<HeaderName>,
    items: Vec<Item>,
) -> (r: Result<IR, BindingError>)
    ensures
        distinct_ids(items@) ==> (r matches Ok(ir) && ir.items == items && ir.current_target
            == current_target && ir.used_headers == used_headers && ir.stdlib_targets@.len() == 0
            && ir.crate_root_path is None),
        !distinct_ids(items@) ==> (r matches Err(e) && exists|i: int|
            0 <= i < items@.len() && (#[trigger] items@[i].spec_id()) is Some && e@
                == duplicate_error(items@[i].spec_id()->0)),
{
    let mut j: usize = 0;
    while j < items.len()
        invariant
            j <= items.len(),
            forall|a: int, b: int|
                0 <= a < b < j && (#[trigger] items@[a].spec_id()) is Some ==> items@[a].spec_id()
                    != #[trigger] items@[b].spec_id(),
        decreases items.len() - j,
    {
        match items[j].id() {
            None => {},
            Some(id) => {
                let mut i: usize = 0;
                while i < j
                    invariant
                        i <= j,
                        j < items.len(),
                        items@[j as int].spec_id() == Some(id),
                        forall|a: int|
                            0 <= a < i ==> (#[trigger] items@[a].spec_id()) != Some(id),
                    decreases j - i,
                {
                    match items[i].id() {
                        Some(other) => {
                            if other.0 == id.0 {
                                let mut message = String::from_str(
                                    "Duplicate decl_id found in the IR: ",
                                );
                                message.append(decimal_string(id.0 as u64).as_str());
                                let e = BindingError::new(
                                    ErrorKind::DuplicateDeclaration,
                                    message,
                                );
                                assert(e@ == duplicate_error(items@[j as int].spec_id()->0));
                                return Err(e);
                            }
                        },
                        None => {},
                    }
                    i += 1;
                }
            },
        }
        j += 1;
    }
    Ok(
        IR {
            used_headers,
            current_target,
            stdlib_targets: Vec::new(),
            crate_root_path: None,
            items,
        },
    )
}

/// The error for a namespace whose identifier names another declaration.
pub open spec fn not_a_namespace_error(id: DeclId) -> ErrorModel {
    ErrorModel::root(
        ErrorKind::UnresolvableIdentifier,
        "DeclId "@ + decimal(id.0 as nat) + " doesn't refer to a Namespace"@,
    )
}

/// The error for namespaces that enclose one another without end.
pub open spec fn namespace_cycle_error() -> ErrorModel {
    ErrorModel::root(ErrorKind::CyclicAlias, "Namespace encloses itself"@)
}

/// The names of the namespaces from `enclosing` outwards, the outermost
/// first, following at most `fuel` of them.
pub open spec fn namespaces_from(ir: &IR, enclosing: Option<DeclId>, fuel: nat) -> Result<
    Seq<Seq<char>>,
    ErrorModel,
>
    decreases fuel,
{
    match enclosing {
        None => Ok(Seq::empty()),
        Some(id) => if fuel == 0 {
            Err(namespace_cycle_error())
        } else {
            match ir.spec_find(id) {
                None => Err(IR::not_found_error(id)),
                Some(index) => match ir.items@[index] {
                    Item::Namespace(namespace) => match namespaces_from(
                        ir,
                        namespace.enclosing_namespace_id,
                        (fuel - 1) as nat,
                    ) {
                        Err(e) => Err(e),
                        Ok(outer) => Ok(outer.push(namespace.name.identifier@)),
                    },
                    _ => Err(not_a_namespace_error(id)),
                },
            }
        },
    }
}

fn collect_namespaces(ir: &IR, enclosing: Option<DeclId>, fuel: usize) -> (r: Result<
    Vec<String>,
    BindingError,
>)
    ensures
        match namespaces_from(ir, enclosing, fuel as nat) {
            Ok(names) => r matches Ok(found) && texts_of(found@) == names,
            Err(error) => r matches Err(e) && e@ == error,
        },
    decreases fuel,
{
    match enclosing {
        None => {
            let names: Vec<String> = Vec::new();
            assert(texts_of(names@) =~= Seq::<Seq<char>>::empty());
            Ok(names)
        },
        Some(id) => {
            if fuel == 0 {
                return Err(
                    BindingError::from_str(ErrorKind::CyclicAlias, "Namespace encloses itself"),
                );
            }
            match ir.find_decl(id) {
                Err(e) => Err(e),
                Ok(item) => match item {
                    Item::Namespace(namespace) => {
                        match collect_namespaces(ir, namespace.enclosing_namespace_id, fuel - 1) {
                            Err(e) => Err(e),
                            Ok(outer) => {
                                let mut names = outer;
                                let ghost before = texts_of(names@);
                                names.push(namespace.name.identifier.clone());
                                assert(texts_of(names@) =~= before.push(
                                    namespace.name.identifier@,
                                ));
                                Ok(names)
                            },
                        }
                    },
                    _ => {
                        let mut message = String::from_str("DeclId ");
                        message.append(decimal_string(id.0 as u64).as_str());
                        message.append(" doesn't refer to a Namespace");
                        Err(BindingError::new(ErrorKind::UnresolvableIdentifier, message))
                    },
                },
            }
        },
    }
}

impl IR {
    /// The names of the namespaces that enclose a declaration whose
    /// innermost namespace is `enclosing`, the outermost first; an error
    /// where one of them is not a namespace of the unit.
    pub fn namespace_qualifier(&self, enclosing: Option<DeclId>) -> (r: Result<
        Vec<String>,
        BindingError,
    >)
        ensures
            match namespaces_from(self, enclosing, self.items@.len()) {
                Ok(names) => r matches Ok(found) && texts_of(found@) == names,
                Err(error) => r matches Err(e) && e@ == error,
            },
    {
        collect_namespaces(self, enclosing, self.items.len())
    }
}

/// Whether two optional texts are the same.
pub open spec fn same_opt_text(a: Option<String>, b: Option<String>) -> bool {
    match (a, b) {
        (Some(x), Some(y)) => x@ == y@,
        (None, None) => true,
        _ => false,
    }
}

/// Whether two type nodes of the generated side are the same: the same
/// name, lifetimes and declaration, and the same type arguments in order.
pub open spec fn same_rs_type(a: &RsType, b: &RsType) -> bool
    decreases a,
{
    &&& same_opt_text(a.name, b.name)
    &&& a.lifetime_args@ == b.lifetime_args@
    &&& a.decl_id == b.decl_id
    &&& a.type_args@.len() == b.type_args@.len()
    &&& forall|i: int|
        0 <= i < a.type_args@.len() ==> same_rs_type(
            #[trigger] &a.type_args@[i],
            &b.type_args@[i],
        )
}

/// Whether two type nodes of the source side are the same.
pub open spec fn same_cc_type(a: &CcType, b: &CcType) -> bool
    decreases a,
{
    &&& same_opt_text(a.name, b.name)
    &&& a.is_const == b.is_const
    &&& a.decl_id == b.decl_id
    &&& a.type_args@.len() == b.type_args@.len()
    &&& forall|i: int|
        0 <= i < a.type_args@.len() ==> same_cc_type(
            #[trigger] &a.type_args@[i],
            &b.type_args@[i],
        )
}

/// Whether two template arguments are the same: the same type, or the same
/// reason for having none.
pub open spec fn same_template_arg(a: &TemplateArg, b: &TemplateArg) -> bool {
    match (a.type_, b.type_) {
        (Ok(x), Ok(y)) => same_rs_type(&x.rs_type, &y.rs_type) && same_cc_type(
            &x.cc_type,
            &y.cc_type,
        ),
        (Err(x), Err(y)) => x@ == y@,
        _ => false,
    }
}

fn opt_text_eq(a: &Option<String>, b: &Option<String>) -> (same: bool)
    ensures
        same == same_opt_text(*a, *b),
{
    match (a, b) {
        (Some(x), Some(y)) => *x == *y,
        (None, None) => true,
        _ => false,
    }
}

fn opt_id_eq(a: Option<DeclId>, b: Option<DeclId>) -> (same: bool)
    ensures
        same == (a == b),
{
    match (a, b) {
        (Some(x), Some(y)) => x.0 == y.0,
        (None, None) => true,
        _ => false,
    }
}

fn lifetimes_eq(a: &Vec<LifetimeId>, b: &Vec<LifetimeId>) -> (same: bool)
    ensures
        same == (a@ == b@),
{
    if a.len() != b.len() {
        return false;
    }
    let mut i: usize = 0;
    while i < a.len()
        invariant
            i <= a.len(),
            a@.len() == b@.len(),
            forall|k: int| 0 <= k < i ==> a@[k] == b@[k],
        decreases a.len() - i,
    {
        if a[i].0 != b[i].0 {
            assert(a@[i as int] != b@[i as int]);
            return false;
        }
        i += 1;
    }
    assert(a@ =~= b@);
    true
}

/// Whether two type nodes of the generated side are the same.
pub fn rs_type_eq(a: &RsType, b: &RsType) -> (same: bool)
    ensures
        same == same_rs_type(a, b),
    decreases a,
{
    if !opt_text_eq(&a.name, &b.name) || !lifetimes_eq(&a.lifetime_args, &b.lifetime_args)
        || !opt_id_eq(a.decl_id, b.decl_id) || a.type_args.len() != b.type_args.len() {
        return false;
    }
    let mut i: usize = 0;
    while i < a.type_args.len()
        invariant
            i <= a.type_args.len(),
            a.type_args@.len() == b.type_args@.len(),
            forall|k: int|
                0 <= k < i ==> same_rs_type(#[trigger] &a.type_args@[k], &b.type_args@[k]),
        decreases a.type_args.len() - i,
    {
        proof {
            assert(decreases_to!(a => a.type_args));
            assert(decreases_to!(a.type_args => a.type_args@));
            assert(decreases_to!(a.type_args@ => a.type_args@[i as int]));
        }
        if !rs_type_eq(&a.type_args[i], &b.type_args[i]) {
            assert(!same_rs_type(&a.type_args@[i as int], &b.type_args@[i as int]));
            return false;
        }
        i += 1;
    }
    true
}

/// Whether two type nodes of the source side are the same.
pub fn cc_type_eq(a: &CcType, b: &CcType) -> (same: bool)
    ensures
        same == same_cc_type(a, b),
    decreases a,
{
    if !opt_text_eq(&a.name, &b.name) || a.is_const != b.is_const || !opt_id_eq(
        a.decl_id,
        b.decl_id,
    ) || a.type_args.len() != b.type_args.len() {
        return false;
    }
    let mut i: usize = 0;
    while i < a.type_args.len()
        invariant
            i <= a.type_args.len(),
            a.type_args@.len() == b.type_args@.len(),
            forall|k: int|
                0 <= k < i ==> same_cc_type(#[trigger] &a.type_args@[k], &b.type_args@[k]),
        decreases a.type_args.len() - i,
    {
        proof {
            assert(decreases_to!(a => a.type_args));
            assert(decreases_to!(a.type_args => a.type_args@));
            assert(decreases_to!(a.type_args@ => a.type_args@[i as int]));
        }
        if !cc_type_eq(&a.type_args[i], &b.type_args[i]) {
            assert(!same_cc_type(&a.type_args@[i as int], &b.type_args@[i as int]));
            return false;
        }
        i += 1;
    }
    true
}

/// Whether two template arguments are the same.
pub fn template_arg_eq(a: &TemplateArg, b: &TemplateArg) -> (same: bool)
    ensures
        same == same_template_arg(a, b),
{
    match (&a.type_, &b.type_) {
        (Ok(x), Ok(y)) => rs_type_eq(&x.rs_type, &y.rs_type) && cc_type_eq(
            &x.cc_type,
            &y.cc_type,
        ),
        (Err(x), Err(y)) => *x == *y,
        _ => false,
    }
}

} // verus!
