//! The database provider model: data models, field types, capability sets,
//! the conformance rules a provider descriptor must meet, the studio
//! workspaces of each model and the matrix of remote engines.
use crate::text::{bump, bump2, concat, contains_sorted, dec_chars, is_token, token_ok, u64_text_of, ByteClass};
use vstd::prelude::*;

verus! {

#[derive(Debug, Clone, Copy, PartialEq, Eq, Structural)]
pub enum DataModel {
    Relational,
    Document,
    KeyValue,
    Graph,
    Search,
    TimeSeries,
    Column,
    Vector,
    Custom,
}

#[derive(Debug, Clone, Copy, PartialEq, Eq, Structural)]
pub enum FieldType {
    Integer,
    Decimal,
    Boolean,
    Text,
    LongText,
    Date,
    DateTime,
    Json,
    Binary,
    Uuid,
    Enum,
    Relation,
    Geo,
    Vector,
    Unknown,
}

/// What a provider can do.
#[derive(Debug, Clone, Copy, PartialEq, Eq, Structural)]
pub struct CapabilitySet {
    pub connect: bool,
    pub introspect: bool,
    pub query: bool,
    pub browse: bool,
    pub insert: bool,
    pub update: bool,
    pub delete: bool,
    pub schemas: bool,
    pub indexes: bool,
    pub relations: bool,
    pub functions: bool,
    pub users: bool,
    pub permissions: bool,
    pub import: bool,
    pub export: bool,
    pub backup: bool,
    pub restore: bool,
    pub statistics: bool,
}

impl CapabilitySet {
    /// The empty capability set.
    pub fn none() -> (r: CapabilitySet)
        ensures
            !r.connect && !r.introspect && !r.query && !r.browse && !r.insert && !r.update
                && !r.delete && !r.schemas && !r.indexes && !r.relations && !r.functions
                && !r.users && !r.permissions && !r.import && !r.export && !r.backup && !r.restore
                && !r.statistics,
    {
        CapabilitySet {
            connect: false,
            introspect: false,
            query: false,
            browse: false,
            insert: false,
            update: false,
            delete: false,
            schemas: false,
            indexes: false,
            relations: false,
            functions: false,
            users: false,
            permissions: false,
            import: false,
            export: false,
            backup: false,
            restore: false,
            statistics: false,
        }
    }
}

/// A page request: how many rows, from where, in which order.
#[derive(Debug, Clone, PartialEq, Eq)]
pub struct BrowseRequest {
    pub limit: u32,
    pub offset: u64,
    pub order_by: Option<String>,
    pub descending: bool,
}

impl BrowseRequest {
    /// 100 rows from the start, in storage order.
    pub fn standard() -> (r: BrowseRequest)
        ensures
            r.limit == 100 && r.offset == 0 && r.order_by is None && !r.descending,
    {
        BrowseRequest { limit: 100, offset: 0, order_by: None, descending: false }
    }
}

#[derive(Debug, Clone, Copy, PartialEq, Eq, Structural)]
pub struct MutationResult {
    pub affected_rows: u64,
    pub last_insert_id: Option<i64>,
}

#[derive(Debug, Clone, PartialEq, Eq)]
pub struct RelationMeta {
    pub name: String,
    pub from_entity: String,
    pub from_fields: Vec<String>,
    pub to_entity: String,
    pub to_fields: Vec<String>,
    pub on_update: Option<String>,
    pub on_delete: Option<String>,
}

#[derive(Debug, Clone, PartialEq, Eq)]
pub struct DataTransferResult {
    pub format: String,
    pub path: String,
    pub records: Option<u64>,
    pub bytes: Option<u64>,
}

#[derive(Debug, Clone, PartialEq, Eq)]
pub struct BackupResult {
    pub path: String,
    pub bytes: Option<u64>,
    pub checksum_sha256: Option<String>,
}

#[derive(Debug, Clone, PartialEq, Eq)]
pub struct ProviderDescriptor {
    pub sdk_version: u32,
    pub id: String,
    pub model: DataModel,
    pub capabilities: CapabilitySet,
}

#[derive(Debug, Clone, PartialEq, Eq)]
pub struct ProviderConformanceIssue {
    pub severity: String,
    pub capability: String,
    pub message: String,
}

#[derive(Debug, Clone, PartialEq, Eq)]
pub struct ProviderConformanceReport {
    pub descriptor: ProviderDescriptor,
    pub passed: bool,
    pub issues: Vec<ProviderConformanceIssue>,
}

/// The provider SDK version this library speaks.
pub const DATABASE_SDK_VERSION: u32 = 1;

#[derive(Debug, Clone, PartialEq, Eq)]
pub enum DatabaseError {
    Provider(String),
    Unsupported(&'static str),
    Invalid(String),
}

impl DatabaseError {
    /// The error as it is reported.
    pub fn message(&self) -> (r: String)
        ensures
            r@ == match self {
                DatabaseError::Provider(m) => "database provider error: "@ + m@,
                DatabaseError::Unsupported(m) => "unsupported database capability: "@ + m@,
                DatabaseError::Invalid(m) => "invalid database request: "@ + m@,
            },
    {
        match self {
            DatabaseError::Provider(m) => concat("database provider error: ", m.as_str()),
            DatabaseError::Unsupported(m) => concat("unsupported database capability: ", m),
            DatabaseError::Invalid(m) => concat("invalid database request: ", m.as_str()),
        }
    }
}

/// Whether `r` failed with `Invalid(msg)`.
pub open spec fn db_invalid<T>(r: Result<T, DatabaseError>, msg: Seq<char>) -> bool {
    r matches Err(DatabaseError::Invalid(m)) && m@ == msg
}

// ---------------------------------------------------------------------------
// Descriptor conformance
// ---------------------------------------------------------------------------

/// An issue as (severity, capability, message).
pub open spec fn issue_view(i: ProviderConformanceIssue) -> (Seq<char>, Seq<char>, Seq<char>) {
    (i.severity@, i.capability@, i.message@)
}

pub open spec fn issues_view(v: Seq<ProviderConformanceIssue>) -> Seq<
    (Seq<char>, Seq<char>, Seq<char>),
> {
    v.map_values(|i: ProviderConformanceIssue| issue_view(i))
}

/// Provider ids: 1 to 96 bytes of lower-case letters, digits, `-`, `_`, `.`.
pub open spec fn is_provider_id(id: Seq<char>) -> bool {
    is_token(id, 1, 96, ByteClass::LowerDotted)
}

/// The error that an enabled capability needs `connect`.
pub open spec fn needs_connect(name: Seq<char>, enabled: bool) -> Seq<
    (Seq<char>, Seq<char>, Seq<char>),
> {
    if enabled {
        seq![("error"@, name, name + " requires connect capability"@)]
    } else {
        seq![]
    }
}

/// The capabilities that need `connect`, in the order they are reported.
pub open spec fn connect_issues(c: CapabilitySet) -> Seq<(Seq<char>, Seq<char>, Seq<char>)> {
    needs_connect("introspect"@, c.introspect) + needs_connect("query"@, c.query) + needs_connect(
        "browse"@,
        c.browse,
    ) + needs_connect("insert"@, c.insert) + needs_connect("update"@, c.update) + needs_connect(
        "delete"@,
        c.delete,
    ) + needs_connect("backup"@, c.backup) + needs_connect("restore"@, c.restore)
}

/// Every issue of a descriptor, in the order they are reported.
pub open spec fn descriptor_issues(d: ProviderDescriptor) -> Seq<(Seq<char>, Seq<char>, Seq<char>)> {
    let c = d.capabilities;
    (if d.sdk_version != 1 {
        seq![
            (
                "error"@,
                "sdk_version"@,
                "provider SDK version "@ + dec_chars(d.sdk_version as nat) + " does not match 1"@,
            ),
        ]
    } else {
        seq![]
    }) + (if !is_provider_id(d.id@) {
        seq![("error"@, "id"@, "provider id must be a lowercase stable identifier"@)]
    } else {
        seq![]
    }) + (if !c.connect {
        connect_issues(c)
    } else {
        seq![]
    }) + (if c.browse && !c.introspect {
        seq![("error"@, "browse"@, "browse requires introspection metadata"@)]
    } else {
        seq![]
    }) + (if (c.indexes || c.relations || c.statistics || c.schemas) && !c.introspect {
        seq![
            (
                "error"@,
                "introspect"@,
                "schema/index/relation/statistics capabilities require introspect"@,
            ),
        ]
    } else {
        seq![]
    }) + (if (c.insert || c.update || c.delete) && !c.browse {
        seq![
            (
                "warning"@,
                "mutation"@,
                "mutation-capable provider without browse support limits schema-driven studio UX"@,
            ),
        ]
    } else {
        seq![]
    })
}

/// Whether any of `issues` is an error.
pub open spec fn has_error(issues: Seq<(Seq<char>, Seq<char>, Seq<char>)>) -> bool {
    exists|i: int| 0 <= i < issues.len() && (#[trigger] issues[i]).0 == "error"@
}

fn text(v: &str) -> (r: String)
    ensures
        r@ == v@,
{
    v.to_owned()
}

fn push_issue(issues: &mut Vec<ProviderConformanceIssue>, severity: &str, capability: &str, message: String)
    ensures
        issues_view(final(issues)@) =~= issues_view(old(issues)@).push(
            (severity@, capability@, message@),
        ),
{
    issues.push(
        ProviderConformanceIssue { severity: text(severity), capability: text(capability), message },
    );
}

fn push_needs_connect(issues: &mut Vec<ProviderConformanceIssue>, name: &str, enabled: bool)
    ensures
        issues_view(final(issues)@) =~= issues_view(old(issues)@) + needs_connect(name@, enabled),
{
    if enabled {
        push_issue(issues, "error", name, concat(name, " requires connect capability"));
    }
}

fn push_if(
    issues: &mut Vec<ProviderConformanceIssue>,
    cond: bool,
    severity: &str,
    capability: &str,
    message: &str,
)
    ensures
        issues_view(final(issues)@) =~= issues_view(old(issues)@) + (if cond {
            seq![(severity@, capability@, message@)]
        } else {
            seq![]
        }),
{
    if cond {
        push_issue(issues, severity, capability, text(message));
    }
}

/// A copy of a descriptor.
pub fn copy_descriptor(d: &ProviderDescriptor) -> (r: ProviderDescriptor)
    ensures
        r == *d,
{
    ProviderDescriptor {
        sdk_version: d.sdk_version,
        id: d.id.clone(),
        model: d.model,
        capabilities: d.capabilities,
    }
}

fn connect_issue_list(c: CapabilitySet) -> (r: Vec<ProviderConformanceIssue>)
    ensures
        issues_view(r@) =~= connect_issues(c),
{
    let mut issues: Vec<ProviderConformanceIssue> = Vec::new();
    push_needs_connect(&mut issues, "introspect", c.introspect);
    push_needs_connect(&mut issues, "query", c.query);
    push_needs_connect(&mut issues, "browse", c.browse);
    push_needs_connect(&mut issues, "insert", c.insert);
    push_needs_connect(&mut issues, "update", c.update);
    push_needs_connect(&mut issues, "delete", c.delete);
    push_needs_connect(&mut issues, "backup", c.backup);
    push_needs_connect(&mut issues, "restore", c.restore);
    issues
}

fn push_version_issue(issues: &mut Vec<ProviderConformanceIssue>, version: u32)
    ensures
        issues_view(final(issues)@) =~= issues_view(old(issues)@) + (if version != 1 {
            seq![
                (
                    "error"@,
                    "sdk_version"@,
                    "provider SDK version "@ + dec_chars(version as nat) + " does not match 1"@,
                ),
            ]
        } else {
            seq![]
        }),
{
    if version != 1 {
        let mut m = concat("provider SDK version ", u64_text_of(version as u64).as_str());
        vstd::string::StringExecFns::append(&mut m, " does not match 1");
        push_issue(issues, "error", "sdk_version", m);
    }
}

fn descriptor_issue_list(descriptor: &ProviderDescriptor) -> (r: Vec<ProviderConformanceIssue>)
    ensures
        issues_view(r@) =~= descriptor_issues(*descriptor),
{
    let mut issues: Vec<ProviderConformanceIssue> = Vec::new();
    let c = descriptor.capabilities;
    push_version_issue(&mut issues, descriptor.sdk_version);
    push_if(
        &mut issues,
        !token_ok(descriptor.id.as_str(), 1, 96, ByteClass::LowerDotted),
        "error",
        "id",
        "provider id must be a lowercase stable identifier",
    );
    let ghost v2 = issues_view(issues@);
    if !c.connect {
        let mut more = connect_issue_list(c);
        issues.append(&mut more);
    }
    assert(issues_view(issues@) =~= v2 + (if !c.connect {
        connect_issues(c)
    } else {
        seq![]
    }));
    push_if(
        &mut issues,
        c.browse && !c.introspect,
        "error",
        "browse",
        "browse requires introspection metadata",
    );
    push_if(
        &mut issues,
        (c.indexes || c.relations || c.statistics || c.schemas) && !c.introspect,
        "error",
        "introspect",
        "schema/index/relation/statistics capabilities require introspect",
    );
    push_if(
        &mut issues,
        (c.insert || c.update || c.delete) && !c.browse,
        "warning",
        "mutation",
        "mutation-capable provider without browse support limits schema-driven studio UX",
    );
    issues
}

/// Checks a provider descriptor: the SDK version, the id, that every
/// connected capability comes with `connect`, and that browsing and schema
/// capabilities come with introspection. Mutation without browsing is a
/// warning; the descriptor passes when there is no error.
pub fn validate_provider_descriptor(descriptor: &ProviderDescriptor) -> (r: ProviderConformanceReport)
    ensures
        r.descriptor == *descriptor,
        issues_view(r.issues@) =~= descriptor_issues(*descriptor),
        r.passed == !has_error(descriptor_issues(*descriptor)),
{
    let issues = descriptor_issue_list(descriptor);
    let ghost iv = issues_view(issues@);
    let mut passed = true;
    let mut i: usize = 0;
    while i < issues.len()
        invariant
            iv == issues_view(issues@),
            0 <= i <= issues@.len(),
            passed == !(exists|j: int| 0 <= j < i && (#[trigger] iv[j]).0 == "error"@),
        decreases issues@.len() - i,
    {
        assert(iv[i as int] == issue_view(issues@[i as int]));
        if crate::text::str_eq(issues[i].severity.as_str(), "error") {
            passed = false;
        }
        i += 1;
    }
    ProviderConformanceReport { descriptor: copy_descriptor(descriptor), passed, issues }
}

// ---------------------------------------------------------------------------
// Studio workspaces
// ---------------------------------------------------------------------------

/// The workspace tabs the studio opens for each data model.
pub open spec fn workspace_tabs(m: DataModel) -> Seq<Seq<char>> {
    match m {
        DataModel::Relational => seq!["schemas"@, "tables"@, "views"@, "query"@],
        DataModel::Document => seq!["collections"@, "documents"@, "json_editor"@, "query"@],
        DataModel::KeyValue => seq!["keys"@, "value_editor"@, "ttl"@, "memory"@],
        DataModel::Graph => seq!["nodes"@, "relationships"@, "graph_view"@, "query"@],
        DataModel::Search => seq!["indexes"@, "documents"@, "mappings"@, "search"@],
        DataModel::TimeSeries => seq!["measurements"@, "series"@, "time_chart"@, "query"@],
        DataModel::Column => seq!["keyspaces"@, "tables"@, "partitions"@, "query"@],
        DataModel::Vector => seq!["collections"@, "vectors"@, "metadata"@, "similarity_search"@],
        DataModel::Custom => seq!["entities"@, "raw"@, "query"@],
    }
}

// ---------------------------------------------------------------------------
// Generated entity forms
// ---------------------------------------------------------------------------

/// A field of an entity; `metadata` is the provider's JSON text about it.
#[derive(Debug, Clone, PartialEq, Eq)]
pub struct FieldMeta {
    pub name: String,
    pub field_type: FieldType,
    pub nullable: bool,
    pub primary: bool,
    pub generated: bool,
    pub enum_values: Vec<String>,
    pub relation_target: Option<String>,
    pub metadata: String,
}

/// An entity (table, collection, ...); `metadata` is JSON text.
#[derive(Debug, Clone, PartialEq, Eq)]
pub struct EntityMeta {
    pub name: String,
    pub display_name: String,
    pub fields: Vec<FieldMeta>,
    pub metadata: String,
}

#[derive(Debug, Clone, Copy, PartialEq, Eq, Structural)]
pub enum UiControl {
    Number,
    Decimal,
    Toggle,
    Text,
    TextArea,
    Date,
    DateTime,
    JsonEditor,
    FileViewer,
    Uuid,
    Select,
    RelationSelector,
    GeoMap,
    VectorViewer,
    Raw,
}

#[derive(Debug, Clone, PartialEq, Eq)]
pub struct UiField {
    pub name: String,
    pub label: String,
    pub control: UiControl,
    pub required: bool,
    pub read_only: bool,
    pub options: Vec<String>,
    pub relation_target: Option<String>,
}

#[derive(Debug, Clone, PartialEq, Eq)]
pub struct EntityUiSchema {
    pub entity: String,
    pub fields: Vec<UiField>,
    pub tabs: Vec<String>,
    pub actions: Vec<String>,
}

/// The form control that edits a field type.
pub open spec fn control_of(t: FieldType) -> UiControl {
    match t {
        FieldType::Integer => UiControl::Number,
        FieldType::Decimal => UiControl::Decimal,
        FieldType::Boolean => UiControl::Toggle,
        FieldType::Text => UiControl::Text,
        FieldType::LongText => UiControl::TextArea,
        FieldType::Date => UiControl::Date,
        FieldType::DateTime => UiControl::DateTime,
        FieldType::Json => UiControl::JsonEditor,
        FieldType::Binary => UiControl::FileViewer,
        FieldType::Uuid => UiControl::Uuid,
        FieldType::Enum => UiControl::Select,
        FieldType::Relation => UiControl::RelationSelector,
        FieldType::Geo => UiControl::GeoMap,
        FieldType::Vector => UiControl::VectorViewer,
        FieldType::Unknown => UiControl::Raw,
    }
}

pub fn control_for(field_type: FieldType) -> (r: UiControl)
    ensures
        r == control_of(field_type),
{
    match field_type {
        FieldType::Integer => UiControl::Number,
        FieldType::Decimal => UiControl::Decimal,
        FieldType::Boolean => UiControl::Toggle,
        FieldType::Text => UiControl::Text,
        FieldType::LongText => UiControl::TextArea,
        FieldType::Date => UiControl::Date,
        FieldType::DateTime => UiControl::DateTime,
        FieldType::Json => UiControl::JsonEditor,
        FieldType::Binary => UiControl::FileViewer,
        FieldType::Uuid => UiControl::Uuid,
        FieldType::Enum => UiControl::Select,
        FieldType::Relation => UiControl::RelationSelector,
        FieldType::Geo => UiControl::GeoMap,
        FieldType::Vector => UiControl::VectorViewer,
        FieldType::Unknown => UiControl::Raw,
    }
}

/// The uppercase mapping of a character.
pub uninterp spec fn char_upper(c: char) -> Seq<char>;

/// `c.to_uppercase().collect::<String>()`: the uppercase mapping of `c`,
/// one or more characters (`c` itself when it has none). Trusted: the
/// mapping is named.
#[verifier::external_body]
fn char_to_upper(c: char) -> (r: String)
    ensures
        r@ == char_upper(c),
        r@.len() >= 1,
{
    c.to_uppercase().collect::<String>()
}

/// A word with its first character in upper case.
pub open spec fn capitalized(w: Seq<char>) -> Seq<char> {
    char_upper(w[0]) + w.drop_first()
}

/// The non-empty words, capitalized.
pub open spec fn capitalized_words(ws: Seq<Seq<char>>) -> Seq<Seq<char>>
    decreases ws.len(),
{
    if ws.len() == 0 {
        Seq::empty()
    } else if ws.last().len() == 0 {
        capitalized_words(ws.drop_last())
    } else {
        capitalized_words(ws.drop_last()).push(capitalized(ws.last()))
    }
}

/// A label from a field name: the words between underscores, each
/// capitalized, joined by spaces (`created_at` reads `Created At`).
pub open spec fn humanized(v: Seq<char>) -> Seq<char> {
    crate::text::join(capitalized_words(crate::text::split_all(v, '_')), " "@)
}

fn capitalize(w: &str) -> (r: String)
    requires
        w@.len() > 0,
    ensures
        r@ == capitalized(w@),
{
    let v = crate::text::chars_of(w);
    let mut out = char_to_upper(v[0]);
    let rest = crate::text::string_of_chars(&v, 1, v.len());
    assert(rest@ =~= w@.drop_first());
    vstd::string::StringExecFns::append(&mut out, rest.as_str());
    out
}

pub fn humanize(value: &str) -> (r: String)
    ensures
        r@ == humanized(value@),
{
    let pieces = crate::text::split_on(value, '_');
    let ghost ws = pieces@.map_values(|x: String| x@);
    let mut out: Vec<String> = Vec::new();
    let mut i: usize = 0;
    while i < pieces.len()
        invariant
            ws == pieces@.map_values(|x: String| x@),
            0 <= i <= pieces@.len(),
            out@.map_values(|x: String| x@) == capitalized_words(ws.subrange(0, i as int)),
        decreases pieces@.len() - i,
    {
        let ghost pre = ws.subrange(0, i as int);
        assert(ws.subrange(0, i + 1).drop_last() =~= pre);
        assert(ws.subrange(0, i + 1).last() == pieces@[i as int]@);
        if pieces[i].as_str().unicode_len() > 0 {
            let c = capitalize(pieces[i].as_str());
            out.push(c);
            assert(out@.map_values(|x: String| x@) =~= capitalized_words(pre).push(
                capitalized(pieces@[i as int]@),
            ));
        }
        i += 1;
    }
    assert(ws.subrange(0, pieces@.len() as int) =~= ws);
    crate::text::join_texts(&out, " ")
}

/// The tabs of an entity form: browse and structure, then indexes,
/// relations, query and statistics where the provider has them.
pub open spec fn ui_tabs(c: CapabilitySet) -> Seq<Seq<char>> {
    seq!["browse"@, "structure"@] + (if c.indexes {
        seq!["indexes"@]
    } else {
        seq![]
    }) + (if c.relations {
        seq!["relations"@]
    } else {
        seq![]
    }) + (if c.query {
        seq!["query"@]
    } else {
        seq![]
    }) + (if c.statistics {
        seq!["statistics"@]
    } else {
        seq![]
    })
}

/// The actions of an entity form, in order, where the provider has them.
pub open spec fn ui_actions(c: CapabilitySet) -> Seq<Seq<char>> {
    (if c.insert {
        seq!["insert"@]
    } else {
        seq![]
    }) + (if c.update {
        seq!["update"@]
    } else {
        seq![]
    }) + (if c.delete {
        seq!["delete"@]
    } else {
        seq![]
    }) + (if c.import {
        seq!["import"@]
    } else {
        seq![]
    }) + (if c.export {
        seq!["export"@]
    } else {
        seq![]
    }) + (if c.backup {
        seq!["backup"@]
    } else {
        seq![]
    })
}

pub open spec fn names(v: Seq<String>) -> Seq<Seq<char>> {
    v.map_values(|x: String| x@)
}

fn push_name_if(v: &mut Vec<String>, cond: bool, t: &str)
    ensures
        names(final(v)@) =~= names(old(v)@) + (if cond {
            seq![t@]
        } else {
            seq![]
        }),
{
    if cond {
        v.push(t.to_owned());
    }
}

fn copy_strings(v: &Vec<String>) -> (r: Vec<String>)
    ensures
        r@ == v@,
{
    let mut out: Vec<String> = Vec::new();
    let mut i: usize = 0;
    while i < v.len()
        invariant
            0 <= i <= v@.len(),
            out@ == v@.subrange(0, i as int),
        decreases v@.len() - i,
    {
        out.push(v[i].clone());
        assert(out@ =~= v@.subrange(0, i + 1));
        i += 1;
    }
    assert(v@.subrange(0, v@.len() as int) =~= v@);
    out
}

/// Whether `u` is the form field generated for `f`.
pub open spec fn form_field(u: UiField, f: FieldMeta) -> bool {
    &&& u.name == f.name
    &&& u.label@ == humanized(f.name@)
    &&& u.control == control_of(f.field_type)
    &&& u.required == (!f.nullable && !f.generated)
    &&& u.read_only == f.generated
    &&& u.options@ == f.enum_values@
    &&& u.relation_target == f.relation_target
}

/// The form field generated for one entity field.
pub fn ui_field(f: &FieldMeta) -> (u: UiField)
    ensures
        form_field(u, *f),
{
    let relation_target = match &f.relation_target {
        Some(t) => Some(t.clone()),
        None => None,
    };
    UiField {
        name: f.name.clone(),
        label: humanize(f.name.as_str()),
        control: control_for(f.field_type),
        required: !f.nullable && !f.generated,
        read_only: f.generated,
        options: copy_strings(&f.enum_values),
        relation_target,
    }
}

fn tabs_for(capabilities: &CapabilitySet) -> (r: Vec<String>)
    ensures
        names(r@) =~= ui_tabs(*capabilities),
{
    let mut tabs: Vec<String> = Vec::new();
    push_name_if(&mut tabs, true, "browse");
    push_name_if(&mut tabs, true, "structure");
    push_name_if(&mut tabs, capabilities.indexes, "indexes");
    push_name_if(&mut tabs, capabilities.relations, "relations");
    push_name_if(&mut tabs, capabilities.query, "query");
    push_name_if(&mut tabs, capabilities.statistics, "statistics");
    tabs
}

fn actions_for(capabilities: &CapabilitySet) -> (r: Vec<String>)
    ensures
        names(r@) =~= ui_actions(*capabilities),
{
    let mut actions: Vec<String> = Vec::new();
    push_name_if(&mut actions, capabilities.insert, "insert");
    push_name_if(&mut actions, capabilities.update, "update");
    push_name_if(&mut actions, capabilities.delete, "delete");
    push_name_if(&mut actions, capabilities.import, "import");
    push_name_if(&mut actions, capabilities.export, "export");
    push_name_if(&mut actions, capabilities.backup, "backup");
    actions
}

/// The generated form of an entity: one field per entity field (labelled
/// from its name, edited by the control of its type, required when neither
/// nullable nor generated, read-only when generated), and the tabs and
/// actions the provider's capabilities allow.
pub fn generate_ui_schema(entity: &EntityMeta, capabilities: &CapabilitySet) -> (r: EntityUiSchema)
    ensures
        r.entity == entity.name,
        r.fields@.len() == entity.fields@.len(),
        forall|i: int| 0 <= i < r.fields@.len() ==> form_field(#[trigger] r.fields@[i], entity.fields@[i]),
        names(r.tabs@) =~= ui_tabs(*capabilities),
        names(r.actions@) =~= ui_actions(*capabilities),
{
    let mut fields: Vec<UiField> = Vec::new();
    let mut i: usize = 0;
    while i < entity.fields.len()
        invariant
            0 <= i <= entity.fields@.len(),
            fields@.len() == i,
            forall|j: int| 0 <= j < i ==> form_field(#[trigger] fields@[j], entity.fields@[j]),
        decreases entity.fields@.len() - i,
    {
        fields.push(ui_field(&entity.fields[i]));
        i += 1;
    }
    let tabs = tabs_for(capabilities);
    let actions = actions_for(capabilities);
    EntityUiSchema { entity: entity.name.clone(), fields, tabs, actions }
}

pub open spec fn strs(v: Seq<&'static str>) -> Seq<Seq<char>> {
    v.map_values(|s: &'static str| s@)
}

fn tabs4(a: &'static str, b: &'static str, c: &'static str, d: &'static str) -> (r: Vec<
    &'static str,
>)
    ensures
        strs(r@) =~= seq![a@, b@, c@, d@],
{
    let mut v: Vec<&'static str> = Vec::new();
    v.push(a);
    v.push(b);
    v.push(c);
    v.push(d);
    v
}

pub fn workspace_for_model(model: DataModel) -> (r: Vec<&'static str>)
    ensures
        strs(r@) =~= workspace_tabs(model),
{
    match model {
        DataModel::Relational => tabs4("schemas", "tables", "views", "query"),
        DataModel::Document => tabs4("collections", "documents", "json_editor", "query"),
        DataModel::KeyValue => tabs4("keys", "value_editor", "ttl", "memory"),
        DataModel::Graph => tabs4("nodes", "relationships", "graph_view", "query"),
        DataModel::Search => tabs4("indexes", "documents", "mappings", "search"),
        DataModel::TimeSeries => tabs4("measurements", "series", "time_chart", "query"),
        DataModel::Column => tabs4("keyspaces", "tables", "partitions", "query"),
        DataModel::Vector => tabs4("collections", "vectors", "metadata", "similarity_search"),
        DataModel::Custom => {
            let mut v: Vec<&'static str> = Vec::new();
            v.push("entities");
            v.push("raw");
            v.push("query");
            assert(strs(v@) =~= seq!["entities"@, "raw"@, "query"@]);
            v
        },
    }
}

#[derive(Debug, Clone, PartialEq, Eq)]
pub struct DatabaseStudioModelCoverage {
    pub model: DataModel,
    pub workspace_tabs: Vec<String>,
    pub analyzer: bool,
    pub ui_schema: bool,
}

#[derive(Debug, Clone, PartialEq, Eq)]
pub struct DatabaseStudioConformanceReport {
    pub ok: bool,
    pub models: Vec<DatabaseStudioModelCoverage>,
    pub missing: Vec<String>,
}

/// The data models in the order the studio reports them.
pub open spec fn model_at(i: int) -> DataModel {
    if i == 0 {
        DataModel::Relational
    } else if i == 1 {
        DataModel::Document
    } else if i == 2 {
        DataModel::KeyValue
    } else if i == 3 {
        DataModel::Graph
    } else if i == 4 {
        DataModel::Search
    } else if i == 5 {
        DataModel::TimeSeries
    } else if i == 6 {
        DataModel::Column
    } else if i == 7 {
        DataModel::Vector
    } else {
        DataModel::Custom
    }
}

/// The models that have a sample analyser: all but relational and custom.
pub open spec fn has_analyzer(m: DataModel) -> bool {
    !(m == DataModel::Relational || m == DataModel::Custom)
}

/// The `Debug` name of a model.
pub open spec fn model_label(m: DataModel) -> Seq<char> {
    match m {
        DataModel::Relational => "Relational"@,
        DataModel::Document => "Document"@,
        DataModel::KeyValue => "KeyValue"@,
        DataModel::Graph => "Graph"@,
        DataModel::Search => "Search"@,
        DataModel::TimeSeries => "TimeSeries"@,
        DataModel::Column => "Column"@,
        DataModel::Vector => "Vector"@,
        DataModel::Custom => "Custom"@,
    }
}

/// The `Debug` name of a model.
pub fn model_name(m: DataModel) -> (r: &'static str)
    ensures
        r@ == model_label(m),
{
    match m {
        DataModel::Relational => "Relational",
        DataModel::Document => "Document",
        DataModel::KeyValue => "KeyValue",
        DataModel::Graph => "Graph",
        DataModel::Search => "Search",
        DataModel::TimeSeries => "TimeSeries",
        DataModel::Column => "Column",
        DataModel::Vector => "Vector",
        DataModel::Custom => "Custom",
    }
}

fn owned_tabs(v: Vec<&'static str>) -> (r: Vec<String>)
    ensures
        r@.map_values(|s: String| s@) =~= strs(v@),
{
    let mut out: Vec<String> = Vec::new();
    let mut i: usize = 0;
    while i < v.len()
        invariant
            0 <= i <= v@.len(),
            out@.map_values(|s: String| s@) =~= strs(v@.subrange(0, i as int)),
        decreases v@.len() - i,
    {
        out.push(text(v[i]));
        assert(strs(v@.subrange(0, i + 1)) =~= strs(v@.subrange(0, i as int)).push(v@[i as int]@));
        i += 1;
    }
    assert(v@.subrange(0, v@.len() as int) =~= v@);
    out
}

/// Every data model has a workspace and a UI schema; all but relational and
/// custom have an analyser.
pub fn database_studio_conformance() -> (r: DatabaseStudioConformanceReport)
    ensures
        r.ok,
        r.missing@.len() == 0,
        r.models@.len() == 9,
        forall|i: int|
            0 <= i < 9 ==> {
                let c = #[trigger] r.models@[i];
                &&& c.model == model_at(i)
                &&& c.workspace_tabs@.map_values(|s: String| s@) =~= workspace_tabs(model_at(i))
                &&& c.analyzer == has_analyzer(model_at(i))
                &&& c.ui_schema
            },
{
    let models = [
        DataModel::Relational,
        DataModel::Document,
        DataModel::KeyValue,
        DataModel::Graph,
        DataModel::Search,
        DataModel::TimeSeries,
        DataModel::Column,
        DataModel::Vector,
        DataModel::Custom,
    ];
    let mut coverage: Vec<DatabaseStudioModelCoverage> = Vec::new();
    let mut missing: Vec<String> = Vec::new();
    let mut i: usize = 0;
    while i < 9
        invariant
            models@ == seq![
                DataModel::Relational,
                DataModel::Document,
                DataModel::KeyValue,
                DataModel::Graph,
                DataModel::Search,
                DataModel::TimeSeries,
                DataModel::Column,
                DataModel::Vector,
                DataModel::Custom,
            ],
            0 <= i <= 9,
            coverage@.len() == i,
            missing@.len() == 0,
            forall|j: int|
                0 <= j < i ==> {
                    let c = #[trigger] coverage@[j];
                    &&& c.model == model_at(j)
                    &&& c.workspace_tabs@.map_values(|s: String| s@) =~= workspace_tabs(model_at(j))
                    &&& c.analyzer == has_analyzer(model_at(j))
                    &&& c.ui_schema
                },
        decreases 9 - i,
    {
        let model = models[i];
        assert(model == model_at(i as int));
        let tabs = owned_tabs(workspace_for_model(model));
        assert(tabs@.map_values(|s: String| s@).len() > 0);
        if tabs.len() == 0 {
            missing.push(concat(model_name(model), ":workspace"));
        }
        let analyzer = match model {
            DataModel::Relational | DataModel::Custom => false,
            _ => true,
        };
        let ui_schema = tabs.len() > 0;
        coverage.push(DatabaseStudioModelCoverage { model, workspace_tabs: tabs, analyzer, ui_schema });
        i += 1;
    }
    DatabaseStudioConformanceReport { ok: missing.len() == 0, models: coverage, missing }
}


// ---------------------------------------------------------------------------
// Remote engines
// ---------------------------------------------------------------------------

/// What the library offers for one remote engine.
#[derive(Debug, Clone, PartialEq, Eq)]
pub struct RemoteDatabaseCapability {
    pub engine: String,
    pub inspect: bool,
    pub browse: bool,
    pub query: bool,
    pub write: bool,
    pub indexes: bool,
    pub relations: bool,
    pub statistics: bool,
    pub durable_jobs: bool,
    pub cancellable_jobs: bool,
    pub transactions: bool,
    pub live_stream_read: bool,
    pub plaintext_loopback: bool,
    pub verified_tls_remote: bool,
    pub notes: Vec<String>,
}

#[derive(Debug, Clone, PartialEq, Eq)]
pub struct RemoteDatabaseConformanceReport {
    pub valid: bool,
    pub engines: Vec<RemoteDatabaseCapability>,
    pub issues: Vec<String>,
}

/// The issues of the `i`-th engine of `s`: a repeated engine, a missing
/// transport policy, or a capability without the one it relies on.
pub open spec fn engine_issues(s: Seq<RemoteDatabaseCapability>, i: int) -> Seq<Seq<char>> {
    let c = s[i];
    let e = c.engine@;
    (if exists|j: int| 0 <= j < i && (#[trigger] s[j]).engine@ == e {
        seq!["duplicate remote database engine: "@ + e]
    } else {
        seq![]
    }) + (if !c.plaintext_loopback {
        seq![e + " does not declare exact-loopback plaintext policy"@]
    } else {
        seq![]
    }) + (if !c.verified_tls_remote {
        seq![e + " does not declare verified remote TLS policy"@]
    } else {
        seq![]
    }) + (if c.write && !c.inspect {
        seq![e + " exposes writes without inspection"@]
    } else {
        seq![]
    }) + (if c.transactions && !c.query {
        seq![e + " exposes transactions without query"@]
    } else {
        seq![]
    }) + (if c.cancellable_jobs && !c.durable_jobs && e != "postgresql"@ {
        seq![e + " exposes cancellable jobs without job lifecycle"@]
    } else {
        seq![]
    }) + (if c.live_stream_read && !c.query && !c.browse {
        seq![e + " exposes live read stream without query/browse"@]
    } else {
        seq![]
    })
}

/// The issues of the first `n` engines of `s`, in order.
pub open spec fn matrix_issues(s: Seq<RemoteDatabaseCapability>, n: int) -> Seq<Seq<char>>
    decreases n,
{
    if n <= 0 {
        seq![]
    } else {
        matrix_issues(s, n - 1) + engine_issues(s, n - 1)
    }
}

fn push_text(v: &mut Vec<String>, t: String)
    ensures
        final(v)@.map_values(|x: String| x@) =~= old(v)@.map_values(|x: String| x@).push(t@),
{
    v.push(t);
}

fn push_text_if(v: &mut Vec<String>, cond: bool, e: &str, suffix: &str)
    ensures
        final(v)@.map_values(|x: String| x@) =~= old(v)@.map_values(|x: String| x@) + (if cond {
            seq![e@ + suffix@]
        } else {
            seq![]
        }),
{
    if cond {
        push_text(v, concat(e, suffix));
    }
}

#[verifier::spinoff_prover]
fn one_engine_issues(s: &Vec<RemoteDatabaseCapability>, i: usize) -> (r: Vec<String>)
    requires
        i < s@.len(),
    ensures
        r@.map_values(|x: String| x@) =~= engine_issues(s@, i as int),
{
    let c = &s[i];
    let e = c.engine.as_str();
    let mut out: Vec<String> = Vec::new();
    let mut dup = false;
    let mut j: usize = 0;
    while j < i
        invariant
            i < s@.len(),
            e@ == s@[i as int].engine@,
            0 <= j <= i,
            dup == exists|k: int| 0 <= k < j && (#[trigger] s@[k]).engine@ == e@,
        decreases i - j,
    {
        if crate::text::str_eq(s[j].engine.as_str(), e) {
            dup = true;
        }
        j += 1;
    }
    if dup {
        push_text(&mut out, concat("duplicate remote database engine: ", e));
    }
    push_text_if(&mut out, !c.plaintext_loopback, e, " does not declare exact-loopback plaintext policy");
    push_text_if(&mut out, !c.verified_tls_remote, e, " does not declare verified remote TLS policy");
    push_text_if(&mut out, c.write && !c.inspect, e, " exposes writes without inspection");
    push_text_if(&mut out, c.transactions && !c.query, e, " exposes transactions without query");
    let not_pg = !crate::text::str_eq(e, "postgresql");
    push_text_if(
        &mut out,
        c.cancellable_jobs && !c.durable_jobs && not_pg,
        e,
        " exposes cancellable jobs without job lifecycle",
    );
    push_text_if(
        &mut out,
        c.live_stream_read && !c.query && !c.browse,
        e,
        " exposes live read stream without query/browse",
    );
    out
}

/// Checks a matrix of remote engines: each engine appears once, declares the
/// loopback and TLS transport policies, and every capability comes with the
/// one it relies on. The matrix is valid when there is no issue.
pub fn check_remote_capabilities(engines: Vec<RemoteDatabaseCapability>) -> (r:
    RemoteDatabaseConformanceReport)
    ensures
        r.engines == engines,
        r.issues@.map_values(|x: String| x@) =~= matrix_issues(engines@, engines@.len() as int),
        r.valid == (matrix_issues(engines@, engines@.len() as int).len() == 0),
{
    let mut issues: Vec<String> = Vec::new();
    let mut i: usize = 0;
    while i < engines.len()
        invariant
            0 <= i <= engines@.len(),
            issues@.map_values(|x: String| x@) =~= matrix_issues(engines@, i as int),
        decreases engines@.len() - i,
    {
        let mut more = one_engine_issues(&engines, i);
        let ghost before = issues@;
        issues.append(&mut more);
        assert(issues@.map_values(|x: String| x@) =~= before.map_values(|x: String| x@) + engine_issues(
            engines@,
            i as int,
        ));
        i += 1;
    }
    let valid = issues.len() == 0;
    RemoteDatabaseConformanceReport { valid, engines, issues }
}

/// Whether `c` is the row of the remote engine matrix for `engine`, with the
/// capabilities listed in that order (inspect, browse, query, write, indexes,
/// relations, statistics, durable jobs, cancellable jobs, transactions, live
/// stream read) and the given notes; every engine declares both transport
/// policies.
pub open spec fn remote_row(
    c: RemoteDatabaseCapability,
    engine: Seq<char>,
    flags: Seq<bool>,
    notes: Seq<Seq<char>>,
) -> bool {
    &&& c.engine@ == engine
    &&& c.inspect == flags[0] && c.browse == flags[1] && c.query == flags[2] && c.write == flags[3]
    &&& c.indexes == flags[4] && c.relations == flags[5] && c.statistics == flags[6]
    &&& c.durable_jobs == flags[7] && c.cancellable_jobs == flags[8] && c.transactions == flags[9]
    &&& c.live_stream_read == flags[10]
    &&& c.plaintext_loopback && c.verified_tls_remote
    &&& c.notes@.map_values(|x: String| x@) =~= notes
}

pub open spec fn native_notes() -> Seq<Seq<char>> {
    seq![
        "native plaintext is exact-loopback only; verified TLS is available for remote reads"@,
        "structured writes remain DatabaseWrite-gated and native loopback-only"@,
    ]
}

/// The remote engine matrix: PostgreSQL, MySQL, MariaDB, MongoDB and Redis.
pub open spec fn remote_matrix(v: Seq<RemoteDatabaseCapability>) -> bool {
    &&& v.len() == 5
    &&& remote_row(
        v[0],
        "postgresql"@,
        seq![true, true, true, true, true, true, true, true, true, true, true],
        native_notes(),
    )
    &&& remote_row(
        v[1],
        "mysql"@,
        seq![true, true, true, true, true, true, true, true, true, false, true],
        native_notes(),
    )
    &&& remote_row(
        v[2],
        "mariadb"@,
        seq![true, false, true, false, false, false, false, true, true, false, true],
        seq![
            "external client read/query beta only; remote use forces CA and server-certificate verification"@,
        ],
    )
    &&& remote_row(
        v[3],
        "mongodb"@,
        seq![true, true, false, true, true, false, true, false, false, false, false],
        seq![
            "structured document browse/filter and CRUD; arbitrary JavaScript/query execution is unavailable"@,
            "remote native SRV and external client paths reject insecure TLS overrides"@,
        ],
    )
    &&& remote_row(
        v[4],
        "redis"@,
        seq![true, false, false, true, false, false, false, false, false, false, false],
        seq![
            "typed key inspection/get/set/delete baseline; arbitrary Redis command execution is unavailable"@,
            "remote TLS uses trusted certificate verification; insecure mode is rejected"@,
        ],
    )
}

fn notes_of(a: &str, b: Option<&str>) -> (r: Vec<String>)
    ensures
        r@.map_values(|x: String| x@) =~= (match b {
            Some(t) => seq![a@, t@],
            None => seq![a@],
        }),
{
    let mut v: Vec<String> = Vec::new();
    push_text(&mut v, text(a));
    if let Some(t) = b {
        push_text(&mut v, text(t));
    }
    v
}

fn row(
    engine: &str,
    flags: [bool; 11],
    notes: Vec<String>,
) -> (r: RemoteDatabaseCapability)
    ensures
        remote_row(r, engine@, flags@, notes@.map_values(|x: String| x@)),
{
    RemoteDatabaseCapability {
        engine: text(engine),
        inspect: flags[0],
        browse: flags[1],
        query: flags[2],
        write: flags[3],
        indexes: flags[4],
        relations: flags[5],
        statistics: flags[6],
        durable_jobs: flags[7],
        cancellable_jobs: flags[8],
        transactions: flags[9],
        live_stream_read: flags[10],
        plaintext_loopback: true,
        verified_tls_remote: true,
        notes,
    }
}

pub fn remote_database_capabilities() -> (r: Vec<RemoteDatabaseCapability>)
    ensures
        remote_matrix(r@),
{
    let native_a = "native plaintext is exact-loopback only; verified TLS is available for remote reads";
    let native_b = "structured writes remain DatabaseWrite-gated and native loopback-only";
    let mut v: Vec<RemoteDatabaseCapability> = Vec::new();
    v.push(row("postgresql", [true, true, true, true, true, true, true, true, true, true, true], notes_of(native_a, Some(native_b))));
    v.push(row("mysql", [true, true, true, true, true, true, true, true, true, false, true], notes_of(native_a, Some(native_b))));
    v.push(
        row(
            "mariadb",
            [true, false, true, false, false, false, false, true, true, false, true],
            notes_of(
                "external client read/query beta only; remote use forces CA and server-certificate verification",
                None,
            ),
        ),
    );
    v.push(
        row(
            "mongodb",
            [true, true, false, true, true, false, true, false, false, false, false],
            notes_of(
                "structured document browse/filter and CRUD; arbitrary JavaScript/query execution is unavailable",
                Some("remote native SRV and external client paths reject insecure TLS overrides"),
            ),
        ),
    );
    v.push(
        row(
            "redis",
            [true, false, false, true, false, false, false, false, false, false, false],
            notes_of(
                "typed key inspection/get/set/delete baseline; arbitrary Redis command execution is unavailable",
                Some("remote TLS uses trusted certificate verification; insecure mode is rejected"),
            ),
        ),
    );
    v
}

/// The matrix of remote engines this library ships, checked: it is valid.
pub fn validate_remote_database_capabilities() -> (r: RemoteDatabaseConformanceReport)
    ensures
        remote_matrix(r.engines@),
        r.valid,
        r.issues@.len() == 0,
{
    let engines = remote_database_capabilities();
    proof {
        reveal_strlit("postgresql");
        reveal_strlit("mysql");
        reveal_strlit("mariadb");
        reveal_strlit("mongodb");
        reveal_strlit("redis");
        let s = engines@;
        assert forall|i: int| 0 <= i < 5 implies engine_issues(s, i).len() == 0 by {
            assert forall|j: int| 0 <= j < i implies (#[trigger] s[j]).engine@ != s[i].engine@ by {
                assert(s[j].engine@.len() != s[i].engine@.len() || s[j].engine@[0] != s[i].engine@[0]
                    || s[j].engine@[2] != s[i].engine@[2]);
            }
        }
        assert(matrix_issues(s, 1) =~= matrix_issues(s, 0) + engine_issues(s, 0));
        assert(matrix_issues(s, 2) =~= matrix_issues(s, 1) + engine_issues(s, 1));
        assert(matrix_issues(s, 3) =~= matrix_issues(s, 2) + engine_issues(s, 2));
        assert(matrix_issues(s, 4) =~= matrix_issues(s, 3) + engine_issues(s, 3));
        assert(matrix_issues(s, 5) =~= matrix_issues(s, 4) + engine_issues(s, 4));
    }
    check_remote_capabilities(engines)
}

} // verus!

verus! {

// ---------------------------------------------------------------------------
// Graph samples
// ---------------------------------------------------------------------------

#[derive(Debug, Clone, PartialEq, Eq)]
pub struct GraphNodeSample {
    pub id: String,
    pub label: Option<String>,
}

#[derive(Debug, Clone, PartialEq, Eq)]
pub struct GraphEdgeSample {
    pub from: String,
    pub to: String,
    pub label: Option<String>,
}

/// What a graph sample shows: its size, the edges whose ends are not among
/// the nodes, and how often each node and edge label occurs (sorted by
/// label).
#[derive(Debug, Clone, PartialEq, Eq)]
pub struct GraphAnalysis {
    pub records: usize,
    pub nodes: usize,
    pub edges: usize,
    pub dangling_edges: u64,
    pub node_labels: Vec<(String, u64)>,
    pub edge_labels: Vec<(String, u64)>,
    pub warnings: Vec<String>,
}

/// The most records one analysis takes.
pub const ANALYSIS_MAX_RECORDS: usize = 10000;

/// Whether a label is `x`.
pub open spec fn is_label(o: Option<String>, x: Seq<char>) -> bool {
    match o {
        Some(l) => l@ == x,
        None => false,
    }
}

/// How often `x` occurs among the labels.
pub open spec fn label_count(ls: Seq<Option<String>>, x: Seq<char>) -> nat
    decreases ls.len(),
{
    if ls.len() == 0 {
        0
    } else {
        label_count(ls.drop_last(), x) + crate::text::one_if(is_label(ls.last(), x))
    }
}

proof fn lemma_label_count_bound(ls: Seq<Option<String>>, x: Seq<char>)
    ensures
        label_count(ls, x) <= ls.len(),
    decreases ls.len(),
{
    if ls.len() > 0 {
        lemma_label_count_bound(ls.drop_last(), x);
    }
}

pub open spec fn node_labels_of(nodes: Seq<GraphNodeSample>) -> Seq<Option<String>> {
    nodes.map_values(|n: GraphNodeSample| n.label)
}

pub open spec fn edge_labels_of(edges: Seq<GraphEdgeSample>) -> Seq<Option<String>> {
    edges.map_values(|e: GraphEdgeSample| e.label)
}

/// The ids of the nodes.
pub open spec fn node_ids(nodes: Seq<GraphNodeSample>) -> Set<Seq<char>> {
    Set::new(|x: Seq<char>| exists|j: int| 0 <= j < nodes.len() && (#[trigger] nodes[j]).id@ == x)
}

/// Whether node `i` has an empty id, one over 512 bytes, or the id of an
/// earlier node.
pub open spec fn bad_node(nodes: Seq<GraphNodeSample>, i: int) -> bool {
    crate::text::blen(nodes[i].id@) == 0 || crate::text::blen(nodes[i].id@) > 512 || exists|j: int|
        0 <= j < i && (#[trigger] nodes[j]).id@ == nodes[i].id@
}

/// The edges with an end that is not a node.
pub open spec fn dangling_count(edges: Seq<GraphEdgeSample>, ids: Set<Seq<char>>) -> nat
    decreases edges.len(),
{
    if edges.len() == 0 {
        0
    } else {
        dangling_count(edges.drop_last(), ids) + crate::text::one_if(
            !(ids.contains(edges.last().from@) && ids.contains(edges.last().to@)),
        )
    }
}

proof fn lemma_dangling_bound(edges: Seq<GraphEdgeSample>, ids: Set<Seq<char>>)
    ensures
        dangling_count(edges, ids) <= edges.len(),
    decreases edges.len(),
{
    if edges.len() > 0 {
        lemma_dangling_bound(edges.drop_last(), ids);
    }
}

/// Whether `v` counts the labels `ls`: sorted by label, each label once,
/// each with the number of times it occurs, and every label that occurs.
pub open spec fn counts_labels(v: Seq<(String, u64)>, ls: Seq<Option<String>>) -> bool {
    &&& crate::text::strictly_sorted(crate::text::keys_of(v))
    &&& forall|t: int| 0 <= t < v.len() ==> (#[trigger] v[t]).1 == label_count(ls, v[t].0@)
    &&& forall|x: Seq<char>| !crate::text::keys_of(v).contains(x) ==> label_count(ls, x) == 0
}

fn count_label(
    v: &mut Vec<(String, u64)>,
    label: &Option<String>,
    Ghost(ls): Ghost<Seq<Option<String>>>,
)
    requires
        counts_labels(old(v)@, ls),
        ls.len() < 10000,
    ensures
        counts_labels(final(v)@, ls.push(*label)),
{
    proof {
        assert(ls.push(*label).drop_last() =~= ls);
    }
    match label {
        Some(l) => {
            proof {
                lemma_label_count_bound(ls, l@);
            }
            bump(v, l.as_str(), Ghost(|x: Seq<char>| label_count(ls, x)));
            proof {
                let ls1 = ls.push(*label);
                assert forall|x: Seq<char>| #![auto] label_count(ls1, x) == label_count(ls, x)
                    + crate::text::one_if(x == l@) by {
                    assert(ls1.last() == *label);
                }
            }
        },
        None => {
            proof {
                let ls1 = ls.push(*label);
                assert forall|x: Seq<char>| #![auto] label_count(ls1, x) == label_count(ls, x) by {
                    assert(ls1.last() == *label);
                }
            }
        },
    }
}

/// The graph analysis of a sample: at most 10,000 nodes and edges together;
/// node ids non-empty, at most 512 bytes and unique; then the labels
/// counted and the dangling edges (an end that is no node's id) counted and
/// reported.
pub fn analyze_graph(nodes: &Vec<GraphNodeSample>, edges: &Vec<GraphEdgeSample>) -> (r: Result<
    GraphAnalysis,
    DatabaseError,
>)
    ensures
        nodes@.len() + edges@.len() > ANALYSIS_MAX_RECORDS ==> db_invalid(
            r,
            "advanced model analysis is limited to 10,000 records"@,
        ),
        nodes@.len() + edges@.len() <= ANALYSIS_MAX_RECORDS && (exists|i: int|
            0 <= i < nodes@.len() && bad_node(nodes@, i)) ==> db_invalid(
            r,
            "graph node IDs must be unique, non-empty and <= 512 characters"@,
        ),
        nodes@.len() + edges@.len() <= ANALYSIS_MAX_RECORDS && !(exists|i: int|
            0 <= i < nodes@.len() && bad_node(nodes@, i)) ==> (r matches Ok(a) && {
            &&& a.records == nodes@.len() + edges@.len()
            &&& a.nodes == nodes@.len()
            &&& a.edges == edges@.len()
            &&& a.dangling_edges == dangling_count(edges@, node_ids(nodes@))
            &&& counts_labels(a.node_labels@, node_labels_of(nodes@))
            &&& counts_labels(a.edge_labels@, edge_labels_of(edges@))
            &&& crate::text::views(a.warnings@) =~= (if a.dangling_edges > 0 {
                seq![crate::text::dec_chars(a.dangling_edges as nat) + " edges reference missing nodes"@]
            } else {
                seq![]
            })
        }),
{
    if nodes.len() > ANALYSIS_MAX_RECORDS || edges.len() > ANALYSIS_MAX_RECORDS - nodes.len() {
        return Err(DatabaseError::Invalid("advanced model analysis is limited to 10,000 records".to_owned()));
    }
    let ghost ns = nodes@;
    let ghost nls = node_labels_of(nodes@);
    let mut ids: Vec<String> = Vec::new();
    let mut node_labels: Vec<(String, u64)> = Vec::new();
    let mut i: usize = 0;
    proof {
        assert(crate::text::views(ids@).to_set() =~= Set::<Seq<char>>::empty());
        assert(nls.subrange(0, 0) =~= Seq::<Option<String>>::empty());
        assert(crate::text::keys_of(node_labels@) =~= Seq::<Seq<char>>::empty());
    }
    while i < nodes.len()
        invariant
            ns == nodes@,
            nls == node_labels_of(nodes@),
            nodes@.len() + edges@.len() <= ANALYSIS_MAX_RECORDS,
            0 <= i <= nodes@.len(),
            crate::text::strictly_sorted(crate::text::views(ids@)),
            crate::text::views(ids@).to_set() == node_ids(ns.subrange(0, i as int)),
            forall|j: int| 0 <= j < i ==> !bad_node(ns, j),
            counts_labels(node_labels@, nls.subrange(0, i as int)),
        decreases nodes@.len() - i,
    {
        let n = &nodes[i];
        let len = n.id.as_str().as_bytes().len();
        let dup = contains_sorted(&ids, n.id.as_str());
        if len == 0 || len > 512 || dup {
            proof {
                if dup {
                    assert(crate::text::views(ids@).to_set().contains(n.id@));
                    let j = choose|j: int| 0 <= j < i && (#[trigger] ns.subrange(0, i as int)[j]).id@ == n.id@;
                    assert(ns[j].id@ == ns[i as int].id@);
                }
                assert(bad_node(ns, i as int));
            }
            return Err(
                DatabaseError::Invalid(
                    "graph node IDs must be unique, non-empty and <= 512 characters".to_owned(),
                ),
            );
        }
        let ghost before = crate::text::views(ids@).to_set();
        crate::text::insert_sorted(&mut ids, n.id.clone());
        proof {
            assert(nls.subrange(0, i + 1) =~= nls.subrange(0, i as int).push(n.label));
            let p0 = ns.subrange(0, i as int);
            let p1 = ns.subrange(0, i + 1);
            assert forall|x: Seq<char>| node_ids(p1).contains(x) == before.insert(n.id@).contains(x) by {
                if node_ids(p1).contains(x) {
                    let j = choose|j: int| 0 <= j < p1.len() && (#[trigger] p1[j]).id@ == x;
                    if j < i {
                        assert(p0[j] == p1[j]);
                        assert(node_ids(p0).contains(x));
                    }
                }
                if node_ids(p0).contains(x) {
                    let j = choose|j: int| 0 <= j < p0.len() && (#[trigger] p0[j]).id@ == x;
                    assert(p1[j] == p0[j]);
                }
                if x == n.id@ {
                    assert(p1[i as int] == *n);
                }
            }
            assert(node_ids(p1) =~= before.insert(n.id@));
            assert(!bad_node(ns, i as int)) by {
                if exists|j: int| 0 <= j < i && (#[trigger] ns[j]).id@ == ns[i as int].id@ {
                    let j = choose|j: int| 0 <= j < i && (#[trigger] ns[j]).id@ == ns[i as int].id@;
                    assert(p0[j] == ns[j]);
                    assert(node_ids(p0).contains(n.id@));
                }
            }
        }
        count_label(&mut node_labels, &n.label, Ghost(nls.subrange(0, i as int)));
        proof {
            assert(nls.subrange(0, i + 1) =~= nls.subrange(0, i as int).push(n.label));
        }
        i += 1;
    }
    proof {
        assert(ns.subrange(0, nodes@.len() as int) =~= ns);
        assert(nls.subrange(0, nodes@.len() as int) =~= nls);
    }
    let ghost ids_set = node_ids(nodes@);
    let ghost es = edges@;
    let ghost els = edge_labels_of(edges@);
    let mut dangling: u64 = 0;
    let mut edge_labels: Vec<(String, u64)> = Vec::new();
    let mut k: usize = 0;
    proof {
        assert(els.subrange(0, 0) =~= Seq::<Option<String>>::empty());
        assert(es.subrange(0, 0) =~= Seq::<GraphEdgeSample>::empty());
        assert(crate::text::keys_of(edge_labels@) =~= Seq::<Seq<char>>::empty());
    }
    while k < edges.len()
        invariant
            es == edges@,
            els == edge_labels_of(edges@),
            edges@.len() <= ANALYSIS_MAX_RECORDS,
            ids_set == node_ids(nodes@),
            crate::text::strictly_sorted(crate::text::views(ids@)),
            crate::text::views(ids@).to_set() == ids_set,
            0 <= k <= edges@.len(),
            dangling == dangling_count(es.subrange(0, k as int), ids_set),
            dangling <= k,
            counts_labels(edge_labels@, els.subrange(0, k as int)),
        decreases edges@.len() - k,
    {
        let e = &edges[k];
        let has_from = contains_sorted(&ids, e.from.as_str());
        let has_to = contains_sorted(&ids, e.to.as_str());
        proof {
            let p1 = es.subrange(0, k + 1);
            assert(p1.drop_last() =~= es.subrange(0, k as int));
            assert(p1.last() == *e);
            assert(crate::text::views(ids@).to_set().contains(e.from@) == crate::text::views(ids@).contains(e.from@));
            assert(crate::text::views(ids@).to_set().contains(e.to@) == crate::text::views(ids@).contains(e.to@));
        }
        if !(has_from && has_to) {
            dangling += 1;
        }
        count_label(&mut edge_labels, &e.label, Ghost(els.subrange(0, k as int)));
        proof {
            assert(els.subrange(0, k + 1) =~= els.subrange(0, k as int).push(e.label));
        }
        k += 1;
    }
    proof {
        assert(es.subrange(0, edges@.len() as int) =~= es);
        assert(els.subrange(0, edges@.len() as int) =~= els);
    }
    let mut warnings: Vec<String> = Vec::new();
    if dangling > 0 {
        warnings.push(concat(u64_text_of(dangling).as_str(), " edges reference missing nodes"));
    }
    Ok(
        GraphAnalysis {
            records: nodes.len() + edges.len(),
            nodes: nodes.len(),
            edges: edges.len(),
            dangling_edges: dangling,
            node_labels,
            edge_labels,
            warnings,
        },
    )
}

} // verus!

verus! {

// ---------------------------------------------------------------------------
// Key-value samples
// ---------------------------------------------------------------------------

/// The kind of a JSON value.
#[derive(Debug, Clone, Copy, PartialEq, Eq, Structural)]
pub enum ValueKind {
    Null,
    Boolean,
    Integer,
    Decimal,
    String,
    Array,
    Object,
}

pub open spec fn kind_label(k: ValueKind) -> Seq<char> {
    match k {
        ValueKind::Null => "null"@,
        ValueKind::Boolean => "boolean"@,
        ValueKind::Integer => "integer"@,
        ValueKind::Decimal => "decimal"@,
        ValueKind::String => "string"@,
        ValueKind::Array => "array"@,
        ValueKind::Object => "object"@,
    }
}

/// The name a value kind is counted under.
pub fn kind_name(k: ValueKind) -> (r: &'static str)
    ensures
        r@ == kind_label(k),
{
    match k {
        ValueKind::Null => "null",
        ValueKind::Boolean => "boolean",
        ValueKind::Integer => "integer",
        ValueKind::Decimal => "decimal",
        ValueKind::String => "string",
        ValueKind::Array => "array",
        ValueKind::Object => "object",
    }
}

/// A key-value sample: its key, the kind of its value and its TTL, if any.
#[derive(Debug, Clone, PartialEq, Eq)]
pub struct KeyValueSample {
    pub key: String,
    pub value_kind: ValueKind,
    pub ttl_seconds: Option<u64>,
}

/// What a key-value sample shows: the kinds of its values (sorted by name,
/// with their counts), how many entries have a TTL, how many distinct keys
/// there are, and a warning for each repeated key.
#[derive(Debug, Clone, PartialEq, Eq)]
pub struct KeyValueAnalysis {
    pub records: usize,
    pub value_kinds: Vec<(String, u64)>,
    pub ttl_entries: u64,
    pub unique_keys: u64,
    pub warnings: Vec<String>,
}

/// A key that cannot be analysed: empty, over 4096 bytes, or holding a
/// control character.
pub open spec fn bad_sample_key(k: Seq<char>) -> bool {
    crate::text::blen(k) == 0 || crate::text::blen(k) > 4096 || crate::text::has_control(k)
}

/// How often values of the kind named `x` occur.
pub open spec fn kind_count(es: Seq<KeyValueSample>, x: Seq<char>) -> nat
    decreases es.len(),
{
    if es.len() == 0 {
        0
    } else {
        kind_count(es.drop_last(), x) + crate::text::one_if(kind_label(es.last().value_kind) == x)
    }
}

proof fn lemma_kind_count_bound(es: Seq<KeyValueSample>, x: Seq<char>)
    ensures
        kind_count(es, x) <= es.len(),
    decreases es.len(),
{
    if es.len() > 0 {
        lemma_kind_count_bound(es.drop_last(), x);
    }
}

/// Whether entry `i` repeats the key of an earlier entry.
pub open spec fn repeats_key(es: Seq<KeyValueSample>, i: int) -> bool {
    exists|j: int| 0 <= j < i && (#[trigger] es[j]).key@ == es[i].key@
}

/// The entries with a TTL.
pub open spec fn ttl_count(es: Seq<KeyValueSample>) -> nat
    decreases es.len(),
{
    if es.len() == 0 {
        0
    } else {
        ttl_count(es.drop_last()) + crate::text::one_if(es.last().ttl_seconds is Some)
    }
}

/// The entries whose key was not seen before: the distinct keys.
pub open spec fn first_keys(es: Seq<KeyValueSample>) -> nat
    decreases es.len(),
{
    if es.len() == 0 {
        0
    } else {
        first_keys(es.drop_last()) + crate::text::one_if(!repeats_key(es, es.len() - 1))
    }
}

/// A warning for each entry that repeats a key, in order.
pub open spec fn duplicate_warnings(es: Seq<KeyValueSample>) -> Seq<Seq<char>>
    decreases es.len(),
{
    if es.len() == 0 {
        seq![]
    } else {
        duplicate_warnings(es.drop_last()) + (if repeats_key(es, es.len() - 1) {
            seq!["duplicate key sample: "@ + es.last().key@]
        } else {
            seq![]
        })
    }
}

/// Whether `v` counts the value kinds of `es` by name.
pub open spec fn counts_kinds(v: Seq<(String, u64)>, es: Seq<KeyValueSample>) -> bool {
    &&& crate::text::strictly_sorted(crate::text::keys_of(v))
    &&& forall|t: int| 0 <= t < v.len() ==> (#[trigger] v[t]).1 == kind_count(es, v[t].0@)
    &&& forall|x: Seq<char>| !crate::text::keys_of(v).contains(x) ==> kind_count(es, x) == 0
}

proof fn lemma_repeats_prefix(es: Seq<KeyValueSample>, i: int, n: int)
    requires
        0 <= i < n <= es.len(),
    ensures
        repeats_key(es.subrange(0, n), i) == repeats_key(es, i),
{
    let p = es.subrange(0, n);
    if repeats_key(es, i) {
        let j = choose|j: int| 0 <= j < i && (#[trigger] es[j]).key@ == es[i].key@;
        assert(p[j] == es[j]);
    }
    if repeats_key(p, i) {
        let j = choose|j: int| 0 <= j < i && (#[trigger] p[j]).key@ == p[i].key@;
        assert(p[j] == es[j]);
    }
}

/// The key-value analysis of a sample: at most 10,000 entries, each key
/// non-empty, at most 4096 bytes and free of control characters; then the
/// value kinds and TTLs counted and the repeated keys reported.
pub fn analyze_key_values(entries: &Vec<KeyValueSample>) -> (r: Result<KeyValueAnalysis, DatabaseError>)
    ensures
        entries@.len() > ANALYSIS_MAX_RECORDS ==> db_invalid(
            r,
            "advanced model analysis is limited to 10,000 records"@,
        ),
        entries@.len() <= ANALYSIS_MAX_RECORDS && (exists|i: int|
            0 <= i < entries@.len() && bad_sample_key(#[trigger] entries@[i].key@)) ==> db_invalid(
            r,
            "key-value key is invalid"@,
        ),
        entries@.len() <= ANALYSIS_MAX_RECORDS && !(exists|i: int|
            0 <= i < entries@.len() && bad_sample_key(#[trigger] entries@[i].key@)) ==> (r matches Ok(
            a,
        ) && {
            &&& a.records == entries@.len()
            &&& counts_kinds(a.value_kinds@, entries@)
            &&& a.ttl_entries == ttl_count(entries@)
            &&& a.unique_keys == first_keys(entries@)
            &&& crate::text::views(a.warnings@) =~= duplicate_warnings(entries@)
        }),
{
    if entries.len() > ANALYSIS_MAX_RECORDS {
        return Err(DatabaseError::Invalid("advanced model analysis is limited to 10,000 records".to_owned()));
    }
    let ghost es = entries@;
    let mut kinds: Vec<(String, u64)> = Vec::new();
    let mut seen: Vec<String> = Vec::new();
    let mut ttl: u64 = 0;
    let mut unique: u64 = 0;
    let mut warnings: Vec<String> = Vec::new();
    let mut i: usize = 0;
    proof {
        assert(crate::text::views(seen@).to_set() =~= Set::<Seq<char>>::empty());
        assert(crate::text::keys_of(kinds@) =~= Seq::<Seq<char>>::empty());
        assert(crate::text::views(warnings@) =~= Seq::<Seq<char>>::empty());
        assert(es.subrange(0, 0) =~= Seq::<KeyValueSample>::empty());
    }
    while i < entries.len()
        invariant
            es == entries@,
            entries@.len() <= ANALYSIS_MAX_RECORDS,
            0 <= i <= entries@.len(),
            forall|j: int| 0 <= j < i ==> !bad_sample_key(#[trigger] es[j].key@),
            crate::text::strictly_sorted(crate::text::views(seen@)),
            forall|x: Seq<char>| crate::text::views(seen@).contains(x) <==> exists|j: int|
                0 <= j < i && (#[trigger] es[j]).key@ == x,
            counts_kinds(kinds@, es.subrange(0, i as int)),
            ttl == ttl_count(es.subrange(0, i as int)),
            ttl <= i,
            unique == first_keys(es.subrange(0, i as int)),
            unique <= i,
            crate::text::views(warnings@) =~= duplicate_warnings(es.subrange(0, i as int)),
        decreases entries@.len() - i,
    {
        let e = &entries[i];
        let n = e.key.as_str().as_bytes().len();
        if n == 0 || n > 4096 || crate::text::any_control(e.key.as_str()) {
            proof {
                assert(bad_sample_key(es[i as int].key@));
            }
            return Err(DatabaseError::Invalid("key-value key is invalid".to_owned()));
        }
        let ghost p0 = es.subrange(0, i as int);
        let ghost p1 = es.subrange(0, i + 1);
        proof {
            assert(p1.drop_last() =~= p0);
            assert(p1.last() == *e);
            lemma_repeats_prefix(es, i as int, i + 1);
            lemma_kind_count_bound(p0, kind_label(e.value_kind));
        }
        let ghost seen0 = crate::text::views(seen@);
        let dup = contains_sorted(&seen, e.key.as_str());
        proof {
            if dup {
                let j = choose|j: int| 0 <= j < i && (#[trigger] es[j]).key@ == e.key@;
                assert(repeats_key(es, i as int));
            } else {
                assert(!repeats_key(es, i as int));
            }
        }
        if dup {
            warnings.push(concat("duplicate key sample: ", e.key.as_str()));
        } else {
            unique += 1;
            crate::text::insert_sorted(&mut seen, e.key.clone());
        }
        if e.ttl_seconds.is_some() {
            ttl += 1;
        }
        bump(&mut kinds, kind_name(e.value_kind), Ghost(|x: Seq<char>| kind_count(p0, x)));
        proof {
            assert forall|x: Seq<char>| #![auto] kind_count(p1, x) == kind_count(p0, x)
                + crate::text::one_if(x == kind_label(e.value_kind)) by {}
            let seen1 = crate::text::views(seen@);
            assert(!dup ==> seen1.to_set() == seen0.to_set().insert(e.key@));
            assert(dup ==> seen1 == seen0);
            assert forall|x: Seq<char>| seen1.contains(x) <==> exists|j: int|
                0 <= j < i + 1 && (#[trigger] es[j]).key@ == x by {
                assert(seen1.contains(x) == seen1.to_set().contains(x));
                assert(seen0.contains(x) == seen0.to_set().contains(x));
                assert(seen0.contains(x) <==> exists|j: int| 0 <= j < i && (#[trigger] es[j]).key@ == x);
                if x == e.key@ {
                    assert(es[i as int].key@ == x);
                }
                if exists|j: int| 0 <= j < i + 1 && (#[trigger] es[j]).key@ == x {
                    let j = choose|j: int| 0 <= j < i + 1 && (#[trigger] es[j]).key@ == x;
                    if j < i {
                        assert(seen0.contains(x));
                    }
                }
            }
        }
        i += 1;
    }
    proof {
        assert(es.subrange(0, entries@.len() as int) =~= es);
    }
    Ok(KeyValueAnalysis { records: entries.len(), value_kinds: kinds, ttl_entries: ttl, unique_keys: unique, warnings })
}

} // verus!

verus! {

// ---------------------------------------------------------------------------
// Document samples
// ---------------------------------------------------------------------------

/// The fields of a document: each name with the kind of its value.
pub type DocumentFields = Vec<(String, ValueKind)>;

/// The fields seen in a sample, each with the count of every value kind
/// seen under it (sorted by field, then by kind).
pub type FieldKinds = Vec<(String, Vec<(String, u64)>)>;

/// What a document sample shows: its fields and their value kinds, and a
/// warning for every field seen with more than two kinds.
#[derive(Debug, Clone, PartialEq, Eq)]
pub struct DocumentAnalysis {
    pub records: usize,
    pub fields: FieldKinds,
    pub distinct_fields: u64,
    pub heterogeneous_fields: u64,
    pub warnings: Vec<String>,
}

/// How often field `n` holds a value of the kind named `x` among `es`.
pub open spec fn entry_count(es: Seq<(String, ValueKind)>, n: Seq<char>, x: Seq<char>) -> nat
    decreases es.len(),
{
    if es.len() == 0 {
        0
    } else {
        entry_count(es.drop_last(), n, x) + crate::text::one_if(
            es.last().0@ == n && kind_label(es.last().1) == x,
        )
    }
}

proof fn lemma_entry_count_bound(es: Seq<(String, ValueKind)>, n: Seq<char>, x: Seq<char>)
    ensures
        entry_count(es, n, x) <= es.len(),
    decreases es.len(),
{
    if es.len() > 0 {
        lemma_entry_count_bound(es.drop_last(), n, x);
    }
}

pub open spec fn doc_entries(d: Option<DocumentFields>) -> Seq<(String, ValueKind)> {
    match d {
        Some(v) => v@,
        None => seq![],
    }
}

/// How often field `n` holds a value of the kind named `x` across documents.
pub open spec fn docs_count(ds: Seq<Option<DocumentFields>>, n: Seq<char>, x: Seq<char>) -> nat
    decreases ds.len(),
{
    if ds.len() == 0 {
        0
    } else {
        docs_count(ds.drop_last(), n, x) + entry_count(doc_entries(ds.last()), n, x)
    }
}

proof fn lemma_docs_count_bound(ds: Seq<Option<DocumentFields>>, n: Seq<char>, x: Seq<char>)
    requires
        forall|j: int| 0 <= j < ds.len() ==> doc_entries(#[trigger] ds[j]).len() <= 1024,
    ensures
        docs_count(ds, n, x) <= 1024 * ds.len(),
    decreases ds.len(),
{
    if ds.len() > 0 {
        assert forall|j: int| 0 <= j < ds.drop_last().len() implies doc_entries(
            #[trigger] ds.drop_last()[j],
        ).len() <= 1024 by {
            assert(ds.drop_last()[j] == ds[j]);
        }
        lemma_docs_count_bound(ds.drop_last(), n, x);
        lemma_entry_count_bound(doc_entries(ds.last()), n, x);
        assert(doc_entries(ds[ds.len() - 1]).len() <= 1024);
    }
}

/// A field name that cannot be analysed: over 512 bytes, or holding a
/// control character.
pub open spec fn bad_field_name(k: Seq<char>) -> bool {
    crate::text::blen(k) > 512 || crate::text::has_control(k)
}

/// Why document `i` is refused, if it is.
pub open spec fn doc_refusal(d: Option<DocumentFields>, i: int) -> Option<Seq<char>> {
    match d {
        None => Some("document "@ + dec_chars(i as nat) + " is not an object"@),
        Some(v) => if v@.len() > 1024 {
            Some("document exceeds 1,024 top-level fields"@)
        } else if exists|j: int| 0 <= j < v@.len() && bad_field_name((#[trigger] v@[j]).0@) {
            Some("document field name is invalid"@)
        } else {
            None
        },
    }
}

/// The refusal of the first refused document from `i` on, if any.
pub open spec fn docs_refusal(ds: Seq<Option<DocumentFields>>, i: int) -> Option<Seq<char>>
    decreases ds.len() - i,
{
    if i < 0 || i >= ds.len() {
        None
    } else if doc_refusal(ds[i], i) is Some {
        doc_refusal(ds[i], i)
    } else {
        docs_refusal(ds, i + 1)
    }
}

/// A warning for each field seen with more than two value kinds, in field
/// order.
pub open spec fn kind_warnings(fs: Seq<(String, Vec<(String, u64)>)>) -> Seq<Seq<char>>
    decreases fs.len(),
{
    if fs.len() == 0 {
        seq![]
    } else {
        kind_warnings(fs.drop_last()) + (if fs.last().1@.len() > 2 {
            seq![
                "field "@ + fs.last().0@ + " has "@ + dec_chars(fs.last().1@.len()) + " observed value types"@,
            ]
        } else {
            seq![]
        })
    }
}

fn warn_kinds(fields: &FieldKinds) -> (r: Vec<String>)
    ensures
        crate::text::views(r@) =~= kind_warnings(fields@),
{
    let mut out: Vec<String> = Vec::new();
    let mut t: usize = 0;
    while t < fields.len()
        invariant
            0 <= t <= fields@.len(),
            crate::text::views(out@) =~= kind_warnings(fields@.subrange(0, t as int)),
        decreases fields@.len() - t,
    {
        proof {
            assert(fields@.subrange(0, t + 1).drop_last() =~= fields@.subrange(0, t as int));
        }
        let n = fields[t].1.len();
        if n > 2 {
            let mut w = concat("field ", fields[t].0.as_str());
            vstd::string::StringExecFns::append(&mut w, " has ");
            vstd::string::StringExecFns::append(&mut w, u64_text_of(n as u64).as_str());
            vstd::string::StringExecFns::append(&mut w, " observed value types");
            out.push(w);
        }
        t += 1;
    }
    proof {
        assert(fields@.subrange(0, fields@.len() as int) =~= fields@);
    }
    out
}

proof fn lemma_docs_refusal_skip(ds: Seq<Option<DocumentFields>>, i: int)
    requires
        0 <= i < ds.len(),
        doc_refusal(ds[i], i) is None,
    ensures
        docs_refusal(ds, i) == docs_refusal(ds, i + 1),
{
}

/// The document analysis of a sample: at most 10,000 documents, each an
/// object of at most 1,024 fields with names of at most 512 bytes and no
/// control characters; then the value kinds of every field counted, and
/// the fields seen with more than two kinds reported.
pub fn analyze_documents(documents: &Vec<Option<DocumentFields>>) -> (r: Result<
    DocumentAnalysis,
    DatabaseError,
>)
    ensures
        documents@.len() > ANALYSIS_MAX_RECORDS ==> db_invalid(
            r,
            "advanced model analysis is limited to 10,000 records"@,
        ),
        documents@.len() <= ANALYSIS_MAX_RECORDS ==> match docs_refusal(documents@, 0) {
            Some(m) => db_invalid(r, m),
            None => r matches Ok(a) && {
                &&& a.records == documents@.len()
                &&& crate::text::holds_counts(
                    a.fields@,
                    |n: Seq<char>, x: Seq<char>| docs_count(documents@, n, x),
                )
                &&& crate::text::views(a.warnings@) =~= kind_warnings(a.fields@)
                &&& a.distinct_fields == a.fields@.len()
                &&& a.heterogeneous_fields == a.warnings@.len()
            },
        },
{
    if documents.len() > ANALYSIS_MAX_RECORDS {
        return Err(DatabaseError::Invalid("advanced model analysis is limited to 10,000 records".to_owned()));
    }
    let ghost ds = documents@;
    let mut fields: FieldKinds = Vec::new();
    let mut i: usize = 0;
    proof {
        assert(ds.subrange(0, 0) =~= Seq::<Option<DocumentFields>>::empty());
        assert(crate::text::outer_keys(fields@) =~= Seq::<Seq<char>>::empty());
    }
    while i < documents.len()
        invariant
            ds == documents@,
            documents@.len() <= ANALYSIS_MAX_RECORDS,
            0 <= i <= documents@.len(),
            docs_refusal(ds, 0) == docs_refusal(ds, i as int),
            forall|j: int| 0 <= j < i ==> doc_entries(#[trigger] ds[j]).len() <= 1024,
            crate::text::holds_counts(
                fields@,
                |n: Seq<char>, x: Seq<char>| docs_count(ds.subrange(0, i as int), n, x),
            ),
        decreases documents@.len() - i,
    {
        let ghost p0 = ds.subrange(0, i as int);
        proof {
            assert(ds.subrange(0, i + 1).drop_last() =~= p0);
            assert forall|j: int| 0 <= j < p0.len() implies doc_entries(#[trigger] p0[j]).len() <= 1024 by {
                assert(p0[j] == ds[j]);
            }
        }
        match &documents[i] {
            None => {
                let mut m = concat("document ", u64_text_of(i as u64).as_str());
                vstd::string::StringExecFns::append(&mut m, " is not an object");
                return Err(DatabaseError::Invalid(m));
            },
            Some(v) => {
                if v.len() > 1024 {
                    return Err(DatabaseError::Invalid("document exceeds 1,024 top-level fields".to_owned()));
                }
                let mut j: usize = 0;
                proof {
                    assert(v@.subrange(0, 0) =~= Seq::<(String, ValueKind)>::empty());
                    assert forall|n: Seq<char>, x: Seq<char>| #![auto] docs_count(p0, n, x) + entry_count(
                        v@.subrange(0, 0),
                        n,
                        x,
                    ) == docs_count(p0, n, x) by {}
                    assert((|n: Seq<char>, x: Seq<char>| docs_count(p0, n, x) + entry_count(
                        v@.subrange(0, 0),
                        n,
                        x,
                    )) =~= (|n: Seq<char>, x: Seq<char>| docs_count(p0, n, x)));
                }
                while j < v.len()
                    invariant
                        ds == documents@,
                        0 <= i < documents@.len(),
                        p0 == ds.subrange(0, i as int),
                        ds[i as int] == Some(*v),
                        v@.len() <= 1024,
                        0 <= j <= v@.len(),
                        p0.len() == i,
                        i < ANALYSIS_MAX_RECORDS,
                        documents@.len() <= ANALYSIS_MAX_RECORDS,
                        docs_refusal(ds, 0) == docs_refusal(ds, i as int),
                        forall|jj: int| 0 <= jj < p0.len() ==> doc_entries(#[trigger] p0[jj]).len() <= 1024,
                        forall|jj: int| 0 <= jj < j ==> !bad_field_name((#[trigger] v@[jj]).0@),
                        crate::text::holds_counts(
                            fields@,
                            |n: Seq<char>, x: Seq<char>| docs_count(p0, n, x) + entry_count(
                                v@.subrange(0, j as int),
                                n,
                                x,
                            ),
                        ),
                    decreases v@.len() - j,
                {
                    let name = &v[j].0;
                    let nb = name.as_str().as_bytes().len();
                    if nb > 512 || crate::text::any_control(name.as_str()) {
                        proof {
                            assert(bad_field_name(v@[j as int].0@));
                        }
                        return Err(DatabaseError::Invalid("document field name is invalid".to_owned()));
                    }
                    let ghost e0 = v@.subrange(0, j as int);
                    let ghost occ = |n: Seq<char>, x: Seq<char>| docs_count(p0, n, x) + entry_count(e0, n, x);
                    proof {
                        lemma_docs_count_bound(p0, name@, kind_label(v@[j as int].1));
                        lemma_entry_count_bound(e0, name@, kind_label(v@[j as int].1));
                    }
                    let kn = kind_name(v[j].1);
                    bump2(&mut fields, name.as_str(), kn, Ghost(occ));
                    proof {
                        let e1 = v@.subrange(0, j + 1);
                        assert(e1.drop_last() =~= e0);
                        assert(e1.last() == v@[j as int]);
                        let lhs = |n: Seq<char>, x: Seq<char>| occ(n, x) + crate::text::one_if(
                            n == name@ && x == kn@,
                        );
                        let rhs = |n: Seq<char>, x: Seq<char>| docs_count(p0, n, x) + entry_count(
                            v@.subrange(0, j + 1),
                            n,
                            x,
                        );
                        assert(lhs =~= rhs);
                        assert(crate::text::holds_counts(fields@, rhs));
                    }
                    j += 1;
                }
                proof {
                    let p1 = ds.subrange(0, i + 1);
                    assert(v@.subrange(0, v@.len() as int) =~= v@);
                    assert(p1.last() == Some(*v));
                    let lhs = |n: Seq<char>, x: Seq<char>| docs_count(p0, n, x) + entry_count(v@, n, x);
                    let rhs = |n: Seq<char>, x: Seq<char>| docs_count(p1, n, x);
                    assert(lhs =~= rhs);
                    assert(!(exists|jj: int| 0 <= jj < v@.len() && bad_field_name((#[trigger] v@[jj]).0@)));
                    assert(doc_refusal(ds[i as int], i as int) is None);
                    lemma_docs_refusal_skip(ds, i as int);
                }
            },
        }
        i += 1;
    }
    proof {
        assert(ds.subrange(0, documents@.len() as int) =~= ds);
    }
    let warnings = warn_kinds(&fields);
    let distinct = fields.len() as u64;
    let heterogeneous = warnings.len() as u64;
    Ok(
        DocumentAnalysis {
            records: documents.len(),
            fields,
            distinct_fields: distinct,
            heterogeneous_fields: heterogeneous,
            warnings,
        },
    )
}

} // verus!

verus! {

// ---------------------------------------------------------------------------
// Search samples
// ---------------------------------------------------------------------------

/// A search document: its id and its fields, each name with the kind of its
/// value.
#[derive(Debug, Clone, PartialEq, Eq)]
pub struct SearchDocumentSample {
    pub id: String,
    pub fields: DocumentFields,
}

/// What a search sample shows: its fields and their value kinds, the
/// distinct documents, the fields that hold text, and a warning for each
/// repeated document id.
#[derive(Debug, Clone, PartialEq, Eq)]
pub struct SearchAnalysis {
    pub records: usize,
    pub fields: FieldKinds,
    pub unique_documents: u64,
    pub text_fields: Vec<String>,
    pub field_count: u64,
    pub warnings: Vec<String>,
}

/// A field name that cannot be indexed: empty, over 512 bytes, or holding
/// a control character.
pub open spec fn bad_index_name(k: Seq<char>) -> bool {
    crate::text::blen(k) == 0 || bad_field_name(k)
}

/// Why search document `d` is refused, if it is.
pub open spec fn search_doc_refusal(d: SearchDocumentSample) -> Option<Seq<char>> {
    if crate::text::blen(d.id@) == 0 || crate::text::blen(d.id@) > 512 {
        Some("search document id is invalid"@)
    } else if d.fields@.len() > 1024 {
        Some("search document exceeds 1,024 fields"@)
    } else if exists|j: int| 0 <= j < d.fields@.len() && bad_index_name((#[trigger] d.fields@[j]).0@) {
        Some("search field name is invalid"@)
    } else {
        None
    }
}

/// The refusal of the first refused document from `i` on, if any.
pub open spec fn search_refusal(ds: Seq<SearchDocumentSample>, i: int) -> Option<Seq<char>>
    decreases ds.len() - i,
{
    if i < 0 || i >= ds.len() {
        None
    } else if search_doc_refusal(ds[i]) is Some {
        search_doc_refusal(ds[i])
    } else {
        search_refusal(ds, i + 1)
    }
}

/// How often field `n` holds a value of the kind named `x` across documents.
pub open spec fn search_count(ds: Seq<SearchDocumentSample>, n: Seq<char>, x: Seq<char>) -> nat
    decreases ds.len(),
{
    if ds.len() == 0 {
        0
    } else {
        search_count(ds.drop_last(), n, x) + entry_count(ds.last().fields@, n, x)
    }
}

proof fn lemma_search_count_bound(ds: Seq<SearchDocumentSample>, n: Seq<char>, x: Seq<char>)
    requires
        forall|j: int| 0 <= j < ds.len() ==> (#[trigger] ds[j]).fields@.len() <= 1024,
    ensures
        search_count(ds, n, x) <= 1024 * ds.len(),
    decreases ds.len(),
{
    if ds.len() > 0 {
        assert forall|j: int| 0 <= j < ds.drop_last().len() implies (#[trigger] ds.drop_last()[j]).fields@.len()
            <= 1024 by {
            assert(ds.drop_last()[j] == ds[j]);
        }
        lemma_search_count_bound(ds.drop_last(), n, x);
        lemma_entry_count_bound(ds.last().fields@, n, x);
        assert(ds[ds.len() - 1].fields@.len() <= 1024);
    }
}

/// Whether document `i` repeats the id of an earlier one.
pub open spec fn repeats_id(ds: Seq<SearchDocumentSample>, i: int) -> bool {
    exists|j: int| 0 <= j < i && (#[trigger] ds[j]).id@ == ds[i].id@
}

/// The documents whose id was not seen before.
pub open spec fn first_ids(ds: Seq<SearchDocumentSample>) -> nat
    decreases ds.len(),
{
    if ds.len() == 0 {
        0
    } else {
        first_ids(ds.drop_last()) + crate::text::one_if(!repeats_id(ds, ds.len() - 1))
    }
}

/// A warning for each document that repeats an id, in order.
pub open spec fn duplicate_id_warnings(ds: Seq<SearchDocumentSample>) -> Seq<Seq<char>>
    decreases ds.len(),
{
    if ds.len() == 0 {
        seq![]
    } else {
        duplicate_id_warnings(ds.drop_last()) + (if repeats_id(ds, ds.len() - 1) {
            seq!["duplicate search document id: "@ + ds.last().id@]
        } else {
            seq![]
        })
    }
}

/// The fields that hold a string in some document.
pub open spec fn text_field_names(ds: Seq<SearchDocumentSample>) -> Set<Seq<char>> {
    Set::new(
        |k: Seq<char>|
            exists|i: int, j: int|
                0 <= i < ds.len() && 0 <= j < ds[i].fields@.len() && (#[trigger] ds[i].fields@[j]).0@ == k
                    && ds[i].fields@[j].1 == ValueKind::String,
    )
}

proof fn lemma_repeats_id_prefix(ds: Seq<SearchDocumentSample>, i: int, n: int)
    requires
        0 <= i < n <= ds.len(),
    ensures
        repeats_id(ds.subrange(0, n), i) == repeats_id(ds, i),
{
    let p = ds.subrange(0, n);
    if repeats_id(ds, i) {
        let j = choose|j: int| 0 <= j < i && (#[trigger] ds[j]).id@ == ds[i].id@;
        assert(p[j] == ds[j]);
    }
    if repeats_id(p, i) {
        let j = choose|j: int| 0 <= j < i && (#[trigger] p[j]).id@ == p[i].id@;
        assert(p[j] == ds[j]);
    }
}

/// The search analysis of a sample: at most 10,000 documents, each with an
/// id of 1 to 512 bytes and at most 1,024 fields whose names are 1 to 512
/// bytes without control characters; then the value kinds of every field
/// counted, the text fields and distinct documents found, and repeated ids
/// reported.
pub fn analyze_search(documents: &Vec<SearchDocumentSample>) -> (r: Result<
    SearchAnalysis,
    DatabaseError,
>)
    ensures
        documents@.len() > ANALYSIS_MAX_RECORDS ==> db_invalid(
            r,
            "advanced model analysis is limited to 10,000 records"@,
        ),
        documents@.len() <= ANALYSIS_MAX_RECORDS ==> match search_refusal(documents@, 0) {
            Some(m) => db_invalid(r, m),
            None => r matches Ok(a) && {
                &&& a.records == documents@.len()
                &&& crate::text::holds_counts(
                    a.fields@,
                    |n: Seq<char>, x: Seq<char>| search_count(documents@, n, x),
                )
                &&& a.unique_documents == first_ids(documents@)
                &&& crate::text::strictly_sorted(crate::text::views(a.text_fields@))
                &&& crate::text::views(a.text_fields@).to_set() == text_field_names(documents@)
                &&& a.field_count == a.fields@.len()
                &&& crate::text::views(a.warnings@) =~= duplicate_id_warnings(documents@)
            },
        },
{
    if documents.len() > ANALYSIS_MAX_RECORDS {
        return Err(DatabaseError::Invalid("advanced model analysis is limited to 10,000 records".to_owned()));
    }
    let ghost ds = documents@;
    let mut fields: FieldKinds = Vec::new();
    let mut ids: Vec<String> = Vec::new();
    let mut text_fields: Vec<String> = Vec::new();
    let mut unique: u64 = 0;
    let mut warnings: Vec<String> = Vec::new();
    let mut i: usize = 0;
    proof {
        assert(ds.subrange(0, 0) =~= Seq::<SearchDocumentSample>::empty());
        assert(crate::text::outer_keys(fields@) =~= Seq::<Seq<char>>::empty());
        assert(crate::text::views(ids@).to_set() =~= Set::<Seq<char>>::empty());
        assert(crate::text::views(text_fields@).to_set() =~= text_field_names(ds.subrange(0, 0)));
        assert(crate::text::views(warnings@) =~= Seq::<Seq<char>>::empty());
    }
    while i < documents.len()
        invariant
            ds == documents@,
            documents@.len() <= ANALYSIS_MAX_RECORDS,
            0 <= i <= documents@.len(),
            search_refusal(ds, 0) == search_refusal(ds, i as int),
            forall|j: int| 0 <= j < i ==> (#[trigger] ds[j]).fields@.len() <= 1024,
            crate::text::holds_counts(
                fields@,
                |n: Seq<char>, x: Seq<char>| search_count(ds.subrange(0, i as int), n, x),
            ),
            crate::text::strictly_sorted(crate::text::views(ids@)),
            forall|x: Seq<char>| crate::text::views(ids@).contains(x) <==> exists|j: int|
                0 <= j < i && (#[trigger] ds[j]).id@ == x,
            unique == first_ids(ds.subrange(0, i as int)),
            unique <= i,
            crate::text::views(warnings@) =~= duplicate_id_warnings(ds.subrange(0, i as int)),
            crate::text::strictly_sorted(crate::text::views(text_fields@)),
            crate::text::views(text_fields@).to_set() == text_field_names(ds.subrange(0, i as int)),
        decreases documents@.len() - i,
    {
        let d = &documents[i];
        let ghost p0 = ds.subrange(0, i as int);
        let ghost p1 = ds.subrange(0, i + 1);
        proof {
            assert(p1.drop_last() =~= p0);
            assert(p1.last() == *d);
            assert forall|j: int| 0 <= j < p0.len() implies (#[trigger] p0[j]).fields@.len() <= 1024 by {
                assert(p0[j] == ds[j]);
            }
            lemma_repeats_id_prefix(ds, i as int, i + 1);
        }
        let idn = d.id.as_str().as_bytes().len();
        if idn == 0 || idn > 512 {
            return Err(DatabaseError::Invalid("search document id is invalid".to_owned()));
        }
        let ghost ids0 = crate::text::views(ids@);
        let dup = contains_sorted(&ids, d.id.as_str());
        proof {
            if dup {
                let j = choose|j: int| 0 <= j < i && (#[trigger] ds[j]).id@ == d.id@;
                assert(repeats_id(ds, i as int));
            } else {
                assert(!repeats_id(ds, i as int));
            }
        }
        if dup {
            warnings.push(concat("duplicate search document id: ", d.id.as_str()));
        } else {
            unique += 1;
            crate::text::insert_sorted(&mut ids, d.id.clone());
        }
        proof {
            let ids1 = crate::text::views(ids@);
            assert(!dup ==> ids1.to_set() == ids0.to_set().insert(d.id@));
            assert forall|x: Seq<char>| ids1.contains(x) <==> exists|j: int|
                0 <= j < i + 1 && (#[trigger] ds[j]).id@ == x by {
                assert(ids1.contains(x) == ids1.to_set().contains(x));
                assert(ids0.contains(x) == ids0.to_set().contains(x));
                assert(ids0.contains(x) <==> exists|j: int| 0 <= j < i && (#[trigger] ds[j]).id@ == x);
                if x == d.id@ {
                    assert(ds[i as int].id@ == x);
                }
                if exists|j: int| 0 <= j < i + 1 && (#[trigger] ds[j]).id@ == x {
                    let j = choose|j: int| 0 <= j < i + 1 && (#[trigger] ds[j]).id@ == x;
                    if j < i {
                        assert(ids0.contains(x));
                    }
                }
            }
        }
        if d.fields.len() > 1024 {
            return Err(DatabaseError::Invalid("search document exceeds 1,024 fields".to_owned()));
        }
        let v = &d.fields;
        let mut j: usize = 0;
        proof {
            assert(v@.subrange(0, 0) =~= Seq::<(String, ValueKind)>::empty());
            assert((|n: Seq<char>, x: Seq<char>| search_count(p0, n, x) + entry_count(
                v@.subrange(0, 0),
                n,
                x,
            )) =~= (|n: Seq<char>, x: Seq<char>| search_count(p0, n, x)));
        }
        while j < v.len()
            invariant
                ds == documents@,
                0 <= i < documents@.len(),
                documents@.len() <= ANALYSIS_MAX_RECORDS,
                search_refusal(ds, 0) == search_refusal(ds, i as int),
                p0 == ds.subrange(0, i as int),
                ds[i as int] == *d,
                *v == d.fields,
                crate::text::blen(d.id@) > 0 && crate::text::blen(d.id@) <= 512,
                v@.len() <= 1024,
                0 <= j <= v@.len(),
                p0.len() == i,
                forall|jj: int| 0 <= jj < p0.len() ==> (#[trigger] p0[jj]).fields@.len() <= 1024,
                forall|jj: int| 0 <= jj < j ==> !bad_index_name((#[trigger] v@[jj]).0@),
                crate::text::holds_counts(
                    fields@,
                    |n: Seq<char>, x: Seq<char>| search_count(p0, n, x) + entry_count(
                        v@.subrange(0, j as int),
                        n,
                        x,
                    ),
                ),
                crate::text::strictly_sorted(crate::text::views(text_fields@)),
                forall|k: Seq<char>| crate::text::views(text_fields@).to_set().contains(k) <==> (
                text_field_names(p0).contains(k) || exists|jj: int|
                    0 <= jj < j && (#[trigger] v@[jj]).0@ == k && v@[jj].1 == ValueKind::String),
            decreases v@.len() - j,
        {
            let ghost tf0 = crate::text::views(text_fields@).to_set();
            assert(forall|k: Seq<char>| tf0.contains(k) <==> (text_field_names(p0).contains(k) || exists|jj: int|
                0 <= jj < j && (#[trigger] v@[jj]).0@ == k && v@[jj].1 == ValueKind::String));
            let name = &v[j].0;
            let nb = name.as_str().as_bytes().len();
            if nb == 0 || nb > 512 || crate::text::any_control(name.as_str()) {
                proof {
                    assert(bad_index_name(v@[j as int].0@));
                }
                return Err(DatabaseError::Invalid("search field name is invalid".to_owned()));
            }
            let ghost e0 = v@.subrange(0, j as int);
            let ghost occ = |n: Seq<char>, x: Seq<char>| search_count(p0, n, x) + entry_count(e0, n, x);
            proof {
                lemma_search_count_bound(p0, name@, kind_label(v@[j as int].1));
                lemma_entry_count_bound(e0, name@, kind_label(v@[j as int].1));
            }
            let kn = kind_name(v[j].1);
            bump2(&mut fields, name.as_str(), kn, Ghost(occ));
            if v[j].1 == ValueKind::String {
                crate::text::insert_sorted(&mut text_fields, name.clone());
            }
            proof {
                let e1 = v@.subrange(0, j + 1);
                assert(e1.drop_last() =~= e0);
                assert(e1.last() == v@[j as int]);
                let lhs = |n: Seq<char>, x: Seq<char>| occ(n, x) + crate::text::one_if(
                    n == name@ && x == kn@,
                );
                let rhs = |n: Seq<char>, x: Seq<char>| search_count(p0, n, x) + entry_count(
                    v@.subrange(0, j + 1),
                    n,
                    x,
                );
                assert(lhs =~= rhs);
                assert(crate::text::holds_counts(fields@, rhs));
                let tf1 = crate::text::views(text_fields@).to_set();
                assert(v@[j as int].1 == ValueKind::String ==> tf1 == tf0.insert(name@));
                assert(v@[j as int].1 != ValueKind::String ==> tf1 == tf0);
                assert forall|k: Seq<char>| tf1.contains(k) <==> (text_field_names(p0).contains(k)
                    || exists|jj: int|
                    0 <= jj < j + 1 && (#[trigger] v@[jj]).0@ == k && v@[jj].1 == ValueKind::String) by {
                    assert(tf0.contains(k) <==> (text_field_names(p0).contains(k) || exists|jj: int|
                        0 <= jj < j && (#[trigger] v@[jj]).0@ == k && v@[jj].1 == ValueKind::String));
                    if tf0.contains(k) && !text_field_names(p0).contains(k) {
                        let jj = choose|jj: int| 0 <= jj < j && (#[trigger] v@[jj]).0@ == k && v@[jj].1
                            == ValueKind::String;
                        assert(0 <= jj < j + 1 && v@[jj].0@ == k && v@[jj].1 == ValueKind::String);
                    }
                    if tf1.contains(k) && !tf0.contains(k) {
                        assert(k == name@ && v@[j as int].1 == ValueKind::String);
                        assert(v@[j as int].0@ == k);
                    }
                    if exists|jj: int| 0 <= jj < j + 1 && (#[trigger] v@[jj]).0@ == k && v@[jj].1
                        == ValueKind::String {
                        let jj = choose|jj: int| 0 <= jj < j + 1 && (#[trigger] v@[jj]).0@ == k && v@[jj].1
                            == ValueKind::String;
                        if jj < j {
                            assert(0 <= jj < j && v@[jj].0@ == k && v@[jj].1 == ValueKind::String);
                            assert(tf0.contains(k));
                        } else {
                            assert(v@[j as int].0@ == k);
                        }
                    }
                    if text_field_names(p0).contains(k) {
                        assert(tf0.contains(k));
                    }
                }
            }
            j += 1;
        }
        proof {
            assert(v@.subrange(0, v@.len() as int) =~= v@);
            let lhs = |n: Seq<char>, x: Seq<char>| search_count(p0, n, x) + entry_count(v@, n, x);
            let rhs = |n: Seq<char>, x: Seq<char>| search_count(p1, n, x);
            assert(lhs =~= rhs);
            assert(search_doc_refusal(ds[i as int]) is None);
            assert forall|k: Seq<char>| text_field_names(p1).contains(k) <==> (text_field_names(p0).contains(k)
                || exists|jj: int| 0 <= jj < v@.len() && (#[trigger] v@[jj]).0@ == k && v@[jj].1
                == ValueKind::String) by {
                if text_field_names(p1).contains(k) {
                    let (a, b) = choose|a: int, b: int|
                        0 <= a < p1.len() && 0 <= b < p1[a].fields@.len() && (#[trigger] p1[a].fields@[b]).0@ == k
                            && p1[a].fields@[b].1 == ValueKind::String;
                    if a < i {
                        assert(p0[a] == p1[a]);
                        assert(p0[a].fields@[b].0@ == k);
                    } else {
                        assert(p1[a] == *d);
                        assert(v@[b].0@ == k);
                    }
                }
                if text_field_names(p0).contains(k) {
                    let (a, b) = choose|a: int, b: int|
                        0 <= a < p0.len() && 0 <= b < p0[a].fields@.len() && (#[trigger] p0[a].fields@[b]).0@ == k
                            && p0[a].fields@[b].1 == ValueKind::String;
                    assert(p1[a] == p0[a]);
                    assert(p1[a].fields@[b].0@ == k);
                }
                if exists|jj: int| 0 <= jj < v@.len() && (#[trigger] v@[jj]).0@ == k && v@[jj].1 == ValueKind::String {
                    let jj = choose|jj: int| 0 <= jj < v@.len() && (#[trigger] v@[jj]).0@ == k && v@[jj].1
                        == ValueKind::String;
                    assert(p1[i as int].fields@[jj].0@ == k);
                }
            }
            assert(crate::text::views(text_fields@).to_set() =~= text_field_names(p1));
        }
        i += 1;
    }
    proof {
        assert(ds.subrange(0, documents@.len() as int) =~= ds);
    }
    let field_count = fields.len() as u64;
    Ok(
        SearchAnalysis {
            records: documents.len(),
            fields,
            unique_documents: unique,
            text_fields,
            field_count,
            warnings,
        },
    )
}

} // verus!

verus! {

// ---------------------------------------------------------------------------
// Wide-column samples
// ---------------------------------------------------------------------------

/// A wide-column row: its partition key, its clustering key if any, and its
/// columns, each name with the kind of its value.
#[derive(Debug, Clone, PartialEq, Eq)]
pub struct ColumnRowSample {
    pub partition_key: String,
    pub clustering_key: Option<String>,
    pub columns: DocumentFields,
}

/// What a wide-column sample shows: the rows per partition key, the value
/// kinds of every column, the largest partition, and warnings for repeated
/// rows and for a sample that one partition dominates.
#[derive(Debug, Clone, PartialEq, Eq)]
pub struct ColumnAnalysis {
    pub records: usize,
    pub partitions: Vec<(String, u64)>,
    pub fields: FieldKinds,
    pub partition_count: u64,
    pub largest_partition_sample: u64,
    pub column_count: u64,
    pub warnings: Vec<String>,
}

/// Why row `r` is refused, if it is.
pub open spec fn column_row_refusal(r: ColumnRowSample) -> Option<Seq<char>> {
    if crate::text::blen(r.partition_key@) == 0 || crate::text::blen(r.partition_key@) > 2048
        || crate::text::has_control(r.partition_key@) {
        Some("column partition key is invalid"@)
    } else if r.columns@.len() > 1024 {
        Some("column row exceeds 1,024 columns"@)
    } else if exists|j: int| 0 <= j < r.columns@.len() && bad_index_name((#[trigger] r.columns@[j]).0@) {
        Some("column name is invalid"@)
    } else {
        None
    }
}

/// The refusal of the first refused row from `i` on, if any.
pub open spec fn column_refusal(rs: Seq<ColumnRowSample>, i: int) -> Option<Seq<char>>
    decreases rs.len() - i,
{
    if i < 0 || i >= rs.len() {
        None
    } else if column_row_refusal(rs[i]) is Some {
        column_row_refusal(rs[i])
    } else {
        column_refusal(rs, i + 1)
    }
}

/// How often column `n` holds a value of the kind named `x` across rows.
pub open spec fn column_count_of(rs: Seq<ColumnRowSample>, n: Seq<char>, x: Seq<char>) -> nat
    decreases rs.len(),
{
    if rs.len() == 0 {
        0
    } else {
        column_count_of(rs.drop_last(), n, x) + entry_count(rs.last().columns@, n, x)
    }
}

proof fn lemma_column_count_bound(rs: Seq<ColumnRowSample>, n: Seq<char>, x: Seq<char>)
    requires
        forall|j: int| 0 <= j < rs.len() ==> (#[trigger] rs[j]).columns@.len() <= 1024,
    ensures
        column_count_of(rs, n, x) <= 1024 * rs.len(),
    decreases rs.len(),
{
    if rs.len() > 0 {
        assert forall|j: int| 0 <= j < rs.drop_last().len() implies (#[trigger] rs.drop_last()[j]).columns@.len()
            <= 1024 by {
            assert(rs.drop_last()[j] == rs[j]);
        }
        lemma_column_count_bound(rs.drop_last(), n, x);
        lemma_entry_count_bound(rs.last().columns@, n, x);
        assert(rs[rs.len() - 1].columns@.len() <= 1024);
    }
}

/// How many rows have partition key `x`.
pub open spec fn partition_rows(rs: Seq<ColumnRowSample>, x: Seq<char>) -> nat
    decreases rs.len(),
{
    if rs.len() == 0 {
        0
    } else {
        partition_rows(rs.drop_last(), x) + crate::text::one_if(rs.last().partition_key@ == x)
    }
}

proof fn lemma_partition_rows_bound(rs: Seq<ColumnRowSample>, x: Seq<char>)
    ensures
        partition_rows(rs, x) <= rs.len(),
    decreases rs.len(),
{
    if rs.len() > 0 {
        lemma_partition_rows_bound(rs.drop_last(), x);
    }
}

/// The clustering key of a row, empty when it has none.
pub open spec fn clustering_of(r: ColumnRowSample) -> Seq<char> {
    match r.clustering_key {
        Some(c) => c@,
        None => Seq::empty(),
    }
}

/// Whether row `i` has the partition and clustering keys of an earlier row.
pub open spec fn repeats_row(rs: Seq<ColumnRowSample>, i: int) -> bool {
    exists|j: int|
        0 <= j < i && (#[trigger] rs[j]).partition_key@ == rs[i].partition_key@ && clustering_of(rs[j])
            == clustering_of(rs[i])
}

/// A warning for each repeated row, in order.
pub open spec fn duplicate_row_warnings(rs: Seq<ColumnRowSample>) -> Seq<Seq<char>>
    decreases rs.len(),
{
    if rs.len() == 0 {
        seq![]
    } else {
        duplicate_row_warnings(rs.drop_last()) + (if repeats_row(rs, rs.len() - 1) {
            seq!["duplicate partition/clustering sample for "@ + rs.last().partition_key@]
        } else {
            seq![]
        })
    }
}

/// The largest count of a list of counts (0 for none).
pub open spec fn max_count(v: Seq<(String, u64)>) -> u64
    decreases v.len(),
{
    if v.len() == 0 {
        0
    } else if v.last().1 > max_count(v.drop_last()) {
        v.last().1
    } else {
        max_count(v.drop_last())
    }
}

/// The text a row's keys are remembered by: the partition key, a NUL, then
/// the clustering key.
pub open spec fn identity_text(r: ColumnRowSample) -> Seq<char> {
    r.partition_key@ + seq!['\0'] + clustering_of(r)
}

/// Keys without NUL are told apart by their identity text.
proof fn lemma_identity_injective(p1: Seq<char>, c1: Seq<char>, p2: Seq<char>, c2: Seq<char>)
    requires
        !p1.contains('\0'),
        !p2.contains('\0'),
        p1 + seq!['\0'] + c1 == p2 + seq!['\0'] + c2,
    ensures
        p1 == p2 && c1 == c2,
{
    let a = p1 + seq!['\0'] + c1;
    let b = p2 + seq!['\0'] + c2;
    if p1.len() < p2.len() {
        assert(a[p1.len() as int] == '\0');
        assert(b[p1.len() as int] == p2[p1.len() as int]);
        assert(p2.contains(p2[p1.len() as int]));
    } else if p2.len() < p1.len() {
        assert(b[p2.len() as int] == '\0');
        assert(a[p2.len() as int] == p1[p2.len() as int]);
        assert(p1.contains(p1[p2.len() as int]));
    } else {
        assert(p1 =~= a.subrange(0, p1.len() as int));
        assert(p2 =~= b.subrange(0, p2.len() as int));
        assert(c1 =~= a.subrange(p1.len() as int + 1, a.len() as int));
        assert(c2 =~= b.subrange(p2.len() as int + 1, b.len() as int));
    }
}

proof fn lemma_no_nul(s: Seq<char>)
    requires
        !crate::text::has_control(s),
    ensures
        !s.contains('\0'),
{
    if s.contains('\0') {
        let i = choose|i: int| 0 <= i < s.len() && s[i] == '\0';
        assert(crate::text::is_control(s[i]));
    }
}

fn identity_of(r: &ColumnRowSample) -> (t: String)
    ensures
        t@ == identity_text(*r),
{
    let mut t = r.partition_key.clone();
    crate::digest::string_push(&mut t, '\0');
    match &r.clustering_key {
        Some(c) => {
            vstd::string::StringExecFns::append(&mut t, c.as_str());
        },
        None => {
            assert(t@ + Seq::<char>::empty() =~= t@);
        },
    }
    t
}

proof fn lemma_repeats_row_prefix(rs: Seq<ColumnRowSample>, i: int, n: int)
    requires
        0 <= i < n <= rs.len(),
    ensures
        repeats_row(rs.subrange(0, n), i) == repeats_row(rs, i),
{
    let p = rs.subrange(0, n);
    if repeats_row(rs, i) {
        let j = choose|j: int|
            0 <= j < i && (#[trigger] rs[j]).partition_key@ == rs[i].partition_key@ && clustering_of(rs[j])
                == clustering_of(rs[i]);
        assert(p[j] == rs[j]);
    }
    if repeats_row(p, i) {
        let j = choose|j: int|
            0 <= j < i && (#[trigger] p[j]).partition_key@ == p[i].partition_key@ && clustering_of(p[j])
                == clustering_of(p[i]);
        assert(p[j] == rs[j]);
    }
}

fn largest(v: &Vec<(String, u64)>) -> (m: u64)
    ensures
        m == max_count(v@),
{
    let mut m: u64 = 0;
    let mut t: usize = 0;
    while t < v.len()
        invariant
            0 <= t <= v@.len(),
            m == max_count(v@.subrange(0, t as int)),
        decreases v@.len() - t,
    {
        proof {
            assert(v@.subrange(0, t + 1).drop_last() =~= v@.subrange(0, t as int));
        }
        if v[t].1 > m {
            m = v[t].1;
        }
        t += 1;
    }
    proof {
        assert(v@.subrange(0, v@.len() as int) =~= v@);
    }
    m
}

/// The wide-column analysis of a sample: at most 10,000 rows, each with a
/// partition key of 1 to 2048 bytes without control characters and at most
/// 1,024 columns named as for search fields; then the rows per partition and
/// the value kinds of every column counted, repeated rows reported, and a
/// sample of 100 rows or more that one partition holds more than half of
/// flagged.
pub fn analyze_column(rows: &Vec<ColumnRowSample>) -> (r: Result<ColumnAnalysis, DatabaseError>)
    ensures
        rows@.len() > ANALYSIS_MAX_RECORDS ==> db_invalid(
            r,
            "advanced model analysis is limited to 10,000 records"@,
        ),
        rows@.len() <= ANALYSIS_MAX_RECORDS ==> match column_refusal(rows@, 0) {
            Some(m) => db_invalid(r, m),
            None => r matches Ok(a) && {
                &&& a.records == rows@.len()
                &&& crate::text::strictly_sorted(crate::text::keys_of(a.partitions@))
                &&& (forall|t: int|
                    0 <= t < a.partitions@.len() ==> (#[trigger] a.partitions@[t]).1 == partition_rows(
                        rows@,
                        a.partitions@[t].0@,
                    ))
                &&& (forall|x: Seq<char>| !crate::text::keys_of(a.partitions@).contains(x) ==> partition_rows(
                    rows@,
                    x,
                ) == 0)
                &&& crate::text::holds_counts(
                    a.fields@,
                    |n: Seq<char>, x: Seq<char>| column_count_of(rows@, n, x),
                )
                &&& a.partition_count == a.partitions@.len()
                &&& a.largest_partition_sample == max_count(a.partitions@)
                &&& a.column_count == a.fields@.len()
                &&& crate::text::views(a.warnings@) =~= duplicate_row_warnings(rows@) + (if rows@.len()
                    >= 100 && a.largest_partition_sample > rows@.len() / 2 {
                    seq!["sample is dominated by a single partition key"@]
                } else {
                    seq![]
                })
            },
        },
{
    if rows.len() > ANALYSIS_MAX_RECORDS {
        return Err(DatabaseError::Invalid("advanced model analysis is limited to 10,000 records".to_owned()));
    }
    let ghost rs = rows@;
    let mut partitions: Vec<(String, u64)> = Vec::new();
    let mut fields: FieldKinds = Vec::new();
    let mut seen: Vec<String> = Vec::new();
    let mut warnings: Vec<String> = Vec::new();
    let mut i: usize = 0;
    proof {
        assert(rs.subrange(0, 0) =~= Seq::<ColumnRowSample>::empty());
        assert(crate::text::outer_keys(fields@) =~= Seq::<Seq<char>>::empty());
        assert(crate::text::keys_of(partitions@) =~= Seq::<Seq<char>>::empty());
        assert(crate::text::views(seen@) =~= Seq::<Seq<char>>::empty());
        assert(crate::text::views(warnings@) =~= Seq::<Seq<char>>::empty());
    }
    while i < rows.len()
        invariant
            rs == rows@,
            rows@.len() <= ANALYSIS_MAX_RECORDS,
            0 <= i <= rows@.len(),
            column_refusal(rs, 0) == column_refusal(rs, i as int),
            forall|j: int| 0 <= j < i ==> column_row_refusal(#[trigger] rs[j]) is None,
            crate::text::holds_counts(
                fields@,
                |n: Seq<char>, x: Seq<char>| column_count_of(rs.subrange(0, i as int), n, x),
            ),
            crate::text::strictly_sorted(crate::text::keys_of(partitions@)),
            forall|t: int|
                0 <= t < partitions@.len() ==> (#[trigger] partitions@[t]).1 == partition_rows(
                    rs.subrange(0, i as int),
                    partitions@[t].0@,
                ),
            forall|x: Seq<char>| !crate::text::keys_of(partitions@).contains(x) ==> partition_rows(
                rs.subrange(0, i as int),
                x,
            ) == 0,
            crate::text::strictly_sorted(crate::text::views(seen@)),
            forall|x: Seq<char>| crate::text::views(seen@).contains(x) <==> exists|j: int|
                0 <= j < i && identity_text(#[trigger] rs[j]) == x,
            crate::text::views(warnings@) =~= duplicate_row_warnings(rs.subrange(0, i as int)),
        decreases rows@.len() - i,
    {
        let row = &rows[i];
        let ghost p0 = rs.subrange(0, i as int);
        let ghost p1 = rs.subrange(0, i + 1);
        proof {
            assert(p1.drop_last() =~= p0);
            assert(p1.last() == *row);
            assert forall|j: int| 0 <= j < p0.len() implies (#[trigger] p0[j]).columns@.len() <= 1024 by {
                assert(p0[j] == rs[j]);
                assert(column_row_refusal(rs[j]) is None);
            }
            lemma_repeats_row_prefix(rs, i as int, i + 1);
        }
        let pkn = row.partition_key.as_str().as_bytes().len();
        if pkn == 0 || pkn > 2048 || crate::text::any_control(row.partition_key.as_str()) {
            return Err(DatabaseError::Invalid("column partition key is invalid".to_owned()));
        }
        proof {
            lemma_partition_rows_bound(p0, row.partition_key@);
        }
        bump(
            &mut partitions,
            row.partition_key.as_str(),
            Ghost(|x: Seq<char>| partition_rows(p0, x)),
        );
        let ident = identity_of(row);
        let ghost seen0 = crate::text::views(seen@);
        let dup = contains_sorted(&seen, ident.as_str());
        proof {
            lemma_no_nul(row.partition_key@);
            if dup {
                let j = choose|j: int| 0 <= j < i && identity_text(#[trigger] rs[j]) == ident@;
                assert(column_row_refusal(rs[j]) is None);
                lemma_no_nul(rs[j].partition_key@);
                lemma_identity_injective(
                    rs[j].partition_key@,
                    clustering_of(rs[j]),
                    row.partition_key@,
                    clustering_of(*row),
                );
                assert(repeats_row(rs, i as int));
            } else {
                if repeats_row(rs, i as int) {
                    let j = choose|j: int|
                        0 <= j < i && (#[trigger] rs[j]).partition_key@ == rs[i as int].partition_key@
                            && clustering_of(rs[j]) == clustering_of(rs[i as int]);
                    assert(identity_text(rs[j]) == ident@);
                }
            }
        }
        if dup {
            warnings.push(concat("duplicate partition/clustering sample for ", row.partition_key.as_str()));
        } else {
            crate::text::insert_sorted(&mut seen, ident);
        }
        proof {
            let seen1 = crate::text::views(seen@);
            assert(!dup ==> seen1.to_set() == seen0.to_set().insert(identity_text(*row)));
            assert forall|x: Seq<char>| seen1.contains(x) <==> exists|j: int|
                0 <= j < i + 1 && identity_text(#[trigger] rs[j]) == x by {
                assert(seen1.contains(x) == seen1.to_set().contains(x));
                assert(seen0.contains(x) == seen0.to_set().contains(x));
                assert(seen0.contains(x) <==> exists|j: int| 0 <= j < i && identity_text(#[trigger] rs[j]) == x);
                if x == identity_text(*row) {
                    assert(identity_text(rs[i as int]) == x);
                }
                if exists|j: int| 0 <= j < i + 1 && identity_text(#[trigger] rs[j]) == x {
                    let j = choose|j: int| 0 <= j < i + 1 && identity_text(#[trigger] rs[j]) == x;
                    if j < i {
                        assert(seen0.contains(x));
                    }
                }
            }
        }
        if row.columns.len() > 1024 {
            return Err(DatabaseError::Invalid("column row exceeds 1,024 columns".to_owned()));
        }
        let v = &row.columns;
        let mut j: usize = 0;
        proof {
            assert(v@.subrange(0, 0) =~= Seq::<(String, ValueKind)>::empty());
            assert((|n: Seq<char>, x: Seq<char>| column_count_of(p0, n, x) + entry_count(
                v@.subrange(0, 0),
                n,
                x,
            )) =~= (|n: Seq<char>, x: Seq<char>| column_count_of(p0, n, x)));
        }
        while j < v.len()
            invariant
                rs == rows@,
                0 <= i < rows@.len(),
                rows@.len() <= ANALYSIS_MAX_RECORDS,
                column_refusal(rs, 0) == column_refusal(rs, i as int),
                p0 == rs.subrange(0, i as int),
                rs[i as int] == *row,
                *v == row.columns,
                crate::text::blen(row.partition_key@) > 0 && crate::text::blen(row.partition_key@) <= 2048
                    && !crate::text::has_control(row.partition_key@),
                v@.len() <= 1024,
                0 <= j <= v@.len(),
                p0.len() == i,
                forall|jj: int| 0 <= jj < p0.len() ==> (#[trigger] p0[jj]).columns@.len() <= 1024,
                forall|jj: int| 0 <= jj < j ==> !bad_index_name((#[trigger] v@[jj]).0@),
                crate::text::holds_counts(
                    fields@,
                    |n: Seq<char>, x: Seq<char>| column_count_of(p0, n, x) + entry_count(
                        v@.subrange(0, j as int),
                        n,
                        x,
                    ),
                ),
            decreases v@.len() - j,
        {
            let name = &v[j].0;
            let nb = name.as_str().as_bytes().len();
            if nb == 0 || nb > 512 || crate::text::any_control(name.as_str()) {
                proof {
                    assert(bad_index_name(v@[j as int].0@));
                }
                return Err(DatabaseError::Invalid("column name is invalid".to_owned()));
            }
            let ghost e0 = v@.subrange(0, j as int);
            let ghost occ = |n: Seq<char>, x: Seq<char>| column_count_of(p0, n, x) + entry_count(e0, n, x);
            proof {
                lemma_column_count_bound(p0, name@, kind_label(v@[j as int].1));
                lemma_entry_count_bound(e0, name@, kind_label(v@[j as int].1));
            }
            let kn = kind_name(v[j].1);
            bump2(&mut fields, name.as_str(), kn, Ghost(occ));
            proof {
                let e1 = v@.subrange(0, j + 1);
                assert(e1.drop_last() =~= e0);
                assert(e1.last() == v@[j as int]);
                let lhs = |n: Seq<char>, x: Seq<char>| occ(n, x) + crate::text::one_if(
                    n == name@ && x == kn@,
                );
                let rhs = |n: Seq<char>, x: Seq<char>| column_count_of(p0, n, x) + entry_count(
                    v@.subrange(0, j + 1),
                    n,
                    x,
                );
                assert(lhs =~= rhs);
                assert(crate::text::holds_counts(fields@, rhs));
            }
            j += 1;
        }
        proof {
            assert(v@.subrange(0, v@.len() as int) =~= v@);
            let lhs = |n: Seq<char>, x: Seq<char>| column_count_of(p0, n, x) + entry_count(v@, n, x);
            let rhs = |n: Seq<char>, x: Seq<char>| column_count_of(p1, n, x);
            assert(lhs =~= rhs);
            assert(column_row_refusal(rs[i as int]) is None);
        }
        i += 1;
    }
    proof {
        assert(rs.subrange(0, rows@.len() as int) =~= rs);
    }
    let max_partition = largest(&partitions);
    if rows.len() >= 100 && max_partition > (rows.len() / 2) as u64 {
        warnings.push("sample is dominated by a single partition key".to_owned());
    }
    let partition_count = partitions.len() as u64;
    let column_count = fields.len() as u64;
    Ok(
        ColumnAnalysis {
            records: rows.len(),
            partitions,
            fields,
            partition_count,
            largest_partition_sample: max_partition,
            column_count,
            warnings,
        },
    )
}

} // verus!

verus! {

// ---------------------------------------------------------------------------
// Time-series samples
// ---------------------------------------------------------------------------

/// A time-series point as the analysis reads it: its series, its time,
/// whether its value is a finite number, and its tags.
#[derive(Debug, Clone, PartialEq, Eq)]
pub struct TimePointSample {
    pub series: String,
    pub timestamp_unix_ms: i64,
    pub value_finite: bool,
    pub tags: Vec<(String, String)>,
}

/// What a time-series sample shows, its values aside: the series, the time
/// span, the tag keys (sorted) and the series whose points go back in time.
#[derive(Debug, Clone, PartialEq, Eq)]
pub struct TimeSeriesAnalysis {
    pub records: usize,
    pub series_count: u64,
    pub min_timestamp_unix_ms: i64,
    pub max_timestamp_unix_ms: i64,
    pub tag_keys: Vec<String>,
    pub warnings: Vec<String>,
}

/// A tag that cannot be analysed.
pub open spec fn bad_tag(t: (String, String)) -> bool {
    crate::text::blen(t.0@) == 0 || crate::text::blen(t.0@) > 256 || crate::text::blen(t.1@) > 1024
        || crate::text::has_control(t.0@) || crate::text::has_control(t.1@)
}

/// Why point `p` is refused, if it is.
pub open spec fn point_refusal(p: TimePointSample) -> Option<Seq<char>> {
    if crate::text::blen(p.series@) == 0 || crate::text::blen(p.series@) > 512
        || crate::text::has_control(p.series@) {
        Some("time-series name is invalid"@)
    } else if !p.value_finite {
        Some("time-series value must be finite"@)
    } else if p.tags@.len() > 128 || exists|j: int| 0 <= j < p.tags@.len() && bad_tag(#[trigger] p.tags@[j]) {
        Some("time-series tags are invalid"@)
    } else {
        None
    }
}

/// The refusal of the first refused point from `i` on, if any.
pub open spec fn points_refusal(ps: Seq<TimePointSample>, i: int) -> Option<Seq<char>>
    decreases ps.len() - i,
{
    if i < 0 || i >= ps.len() {
        None
    } else if point_refusal(ps[i]) is Some {
        point_refusal(ps[i])
    } else {
        points_refusal(ps, i + 1)
    }
}

/// The time of the last point of series `s`, if it has one.
pub open spec fn last_time(ps: Seq<TimePointSample>, s: Seq<char>) -> Option<i64>
    decreases ps.len(),
{
    if ps.len() == 0 {
        None
    } else if ps.last().series@ == s {
        Some(ps.last().timestamp_unix_ms)
    } else {
        last_time(ps.drop_last(), s)
    }
}

/// Whether some point of series `s` is earlier than the point of `s` before it.
pub open spec fn goes_back(ps: Seq<TimePointSample>, s: Seq<char>) -> bool
    decreases ps.len(),
{
    if ps.len() == 0 {
        false
    } else if ps.last().series@ == s {
        goes_back(ps.drop_last(), s) || (match last_time(ps.drop_last(), s) {
            Some(t) => ps.last().timestamp_unix_ms < t,
            None => false,
        })
    } else {
        goes_back(ps.drop_last(), s)
    }
}

/// The names of a list of tracked series.
pub open spec fn series_names(v: Seq<(String, i64, bool)>) -> Seq<Seq<char>> {
    v.map_values(|e: (String, i64, bool)| e.0@)
}

/// Whether `v` tracks the series of `ps`: sorted by name, each once, each
/// with the time of its last point and whether it goes back in time.
pub open spec fn tracks(v: Seq<(String, i64, bool)>, ps: Seq<TimePointSample>) -> bool {
    &&& crate::text::strictly_sorted(series_names(v))
    &&& forall|t: int|
        0 <= t < v.len() ==> last_time(ps, (#[trigger] v[t]).0@) == Some(v[t].1) && goes_back(ps, v[t].0@)
            == v[t].2
    &&& forall|x: Seq<char>|
        !(#[trigger] series_names(v).contains(x)) ==> last_time(ps, x) is None && !goes_back(ps, x)
}

proof fn lemma_no_series(ps: Seq<TimePointSample>, x: Seq<char>)
    requires
        last_time(ps, x) is None,
    ensures
        !goes_back(ps, x),
    decreases ps.len(),
{
    if ps.len() > 0 {
        lemma_no_series(ps.drop_last(), x);
    }
}

fn track(v: &mut Vec<(String, i64, bool)>, p: &TimePointSample, Ghost(ps): Ghost<Seq<TimePointSample>>)
    requires
        tracks(old(v)@, ps),
    ensures
        tracks(final(v)@, ps.push(*p)),
{
    let ghost ps1 = ps.push(*p);
    let ghost s0 = series_names(v@);
    let ghost v0 = v@;
    let s = p.series.as_str();
    proof {
        assert(ps1.drop_last() =~= ps);
        assert(ps1.last() == *p);
    }
    let mut q: usize = 0;
    while q < v.len() && crate::text::str_lt_exec(v[q].0.as_str(), s)
        invariant
            v@ == v0,
            s0 == series_names(v0),
            crate::text::strictly_sorted(s0),
            0 <= q <= v@.len(),
            forall|j: int| 0 <= j < q ==> crate::text::str_lt(#[trigger] s0[j], s@),
        decreases v@.len() - q,
    {
        assert(s0[q as int] == v@[q as int].0@);
        q += 1;
    }
    if q < v.len() && crate::text::str_eq(v[q].0.as_str(), s) {
        assert(s0[q as int] == s@);
        let (name, last, back) = v.remove(q);
        proof {
            assert(v0[q as int] == (name, last, back));
            assert(v0[q as int].0@ == s@);
            assert(last_time(ps, s@) == Some(last) && goes_back(ps, s@) == back);
            assert(last_time(ps1, s@) == Some(p.timestamp_unix_ms));
            assert(goes_back(ps1, s@) == (back || p.timestamp_unix_ms < last));
        }
        let now_back = back || p.timestamp_unix_ms < last;
        v.insert(q, (name, p.timestamp_unix_ms, now_back));
        proof {
            assert(v@ =~= v0.update(q as int, (name, p.timestamp_unix_ms, now_back)));
            assert(series_names(v@) =~= s0);
            assert forall|t: int| 0 <= t < v@.len() && t != q implies v@[t].0@ != s@ by {
                assert(v@[t] == v0[t]);
                assert(s0[t] == v0[t].0@);
                if v0[t].0@ == s@ {
                    crate::text::lemma_lex_irreflexive(crate::text::utf8(s@));
                    if t < q {
                        assert(crate::text::str_lt(s0[t], s0[q as int]));
                    } else {
                        assert(crate::text::str_lt(s0[q as int], s0[t]));
                    }
                }
            }
            assert forall|t: int| 0 <= t < v@.len() implies last_time(ps1, (#[trigger] v@[t]).0@) == Some(
                v@[t].1,
            ) && goes_back(ps1, v@[t].0@) == v@[t].2 by {
                if t != q {
                    assert(v@[t] == v0[t]);
                }
            }
            assert forall|x: Seq<char>| !(#[trigger] series_names(v@).contains(x)) implies last_time(ps1, x) is None
                && !goes_back(ps1, x) by {
                if x == s@ {
                    assert(series_names(v@)[q as int] == x);
                }
                assert(x != s@);
                assert(!s0.contains(x));
                assert(last_time(ps1, x) == last_time(ps, x));
                assert(goes_back(ps1, x) == goes_back(ps, x));
            }
        }
        return;
    }
    proof {
        if q < v@.len() {
            assert(s0[q as int] == v@[q as int].0@);
            assert(!crate::text::str_lt(s0[q as int], s@));
            if crate::text::utf8(s0[q as int]) == crate::text::utf8(s@) {
                crate::text::lemma_utf8_injective(s0[q as int], s@);
            }
            crate::text::lemma_lex_total(crate::text::utf8(s0[q as int]), crate::text::utf8(s@));
            assert(crate::text::str_lt(s@, s0[q as int]));
        }
        assert(q < s0.len() ==> crate::text::str_lt(s@, s0[q as int]));
        assert(!s0.contains(s@)) by {
            if s0.contains(s@) {
                let j = choose|j: int| 0 <= j < s0.len() && s0[j] == s@;
                crate::text::lemma_lex_irreflexive(crate::text::utf8(s@));
                if j < q {
                    assert(crate::text::str_lt(s0[j], s@));
                } else if j > q {
                    assert(crate::text::str_lt(s0[q as int], s0[j]));
                    crate::text::lemma_lex_transitive(
                        crate::text::utf8(s@),
                        crate::text::utf8(s0[q as int]),
                        crate::text::utf8(s0[j]),
                    );
                }
            }
        }
        assert(tracks(v0, ps));
        assert(!series_names(v0).contains(s@));
        assert(last_time(ps, s@) is None);
    }
    v.insert(q, (p.series.clone(), p.timestamp_unix_ms, false));
    proof {
        let s1 = series_names(v@);
        assert(s1 =~= s0.insert(q as int, s@));
        assert forall|i: int, j: int| 0 <= i < j < s1.len() implies crate::text::str_lt(
            #[trigger] s1[i],
            #[trigger] s1[j],
        ) by {
            if j < q {
                assert(s1[i] == s0[i] && s1[j] == s0[j]);
            } else if j == q {
                assert(s1[i] == s0[i]);
            } else if i < q {
                assert(s1[i] == s0[i] && s1[j] == s0[j - 1]);
                if j - 1 > q {
                    assert(crate::text::str_lt(s0[q as int], s0[j - 1]));
                    crate::text::lemma_lex_transitive(
                        crate::text::utf8(s@),
                        crate::text::utf8(s0[q as int]),
                        crate::text::utf8(s0[j - 1]),
                    );
                }
                crate::text::lemma_lex_transitive(
                    crate::text::utf8(s0[i]),
                    crate::text::utf8(s@),
                    crate::text::utf8(s0[j - 1]),
                );
            } else if i == q {
                assert(s1[j] == s0[j - 1]);
                if j - 1 > q {
                    assert(crate::text::str_lt(s0[q as int], s0[j - 1]));
                    crate::text::lemma_lex_transitive(
                        crate::text::utf8(s@),
                        crate::text::utf8(s0[q as int]),
                        crate::text::utf8(s0[j - 1]),
                    );
                }
            } else {
                assert(s1[i] == s0[i - 1] && s1[j] == s0[j - 1]);
            }
        }
        assert forall|t: int| 0 <= t < v@.len() implies last_time(ps1, (#[trigger] v@[t]).0@) == Some(v@[t].1)
            && goes_back(ps1, v@[t].0@) == v@[t].2 by {
            if t < q {
                assert(v@[t] == v0[t]);
                assert(s0[t] == v0[t].0@);
                if v0[t].0@ == s@ {
                    assert(s0.contains(s@));
                }
            } else if t > q {
                assert(v@[t] == v0[t - 1]);
                assert(s0[t - 1] == v0[t - 1].0@);
                if v0[t - 1].0@ == s@ {
                    assert(s0.contains(s@));
                }
            } else {
                lemma_no_series(ps, s@);
            }
        }
        assert forall|x: Seq<char>| !(#[trigger] series_names(v@).contains(x)) implies last_time(ps1, x) is None
            && !goes_back(ps1, x) by {
            if x == s@ {
                assert(s1[q as int] == x);
            }
            if s0.contains(x) {
                let j = choose|j: int| 0 <= j < s0.len() && s0[j] == x;
                if j < q {
                    assert(s1[j] == x);
                } else {
                    assert(s1[j + 1] == x);
                }
            }
            assert(x != s@);
            assert(!series_names(v0).contains(x));
            assert(last_time(ps1, x) == last_time(ps, x));
            assert(goes_back(ps1, x) == goes_back(ps, x));
        }
    }
}

/// The earliest time among the points (0 for none).
pub open spec fn min_time(ps: Seq<TimePointSample>) -> i64
    decreases ps.len(),
{
    if ps.len() == 0 {
        0
    } else if ps.len() == 1 {
        ps[0].timestamp_unix_ms
    } else if ps.last().timestamp_unix_ms < min_time(ps.drop_last()) {
        ps.last().timestamp_unix_ms
    } else {
        min_time(ps.drop_last())
    }
}

/// The latest time among the points (0 for none).
pub open spec fn max_time(ps: Seq<TimePointSample>) -> i64
    decreases ps.len(),
{
    if ps.len() == 0 {
        0
    } else if ps.len() == 1 {
        ps[0].timestamp_unix_ms
    } else if ps.last().timestamp_unix_ms > max_time(ps.drop_last()) {
        ps.last().timestamp_unix_ms
    } else {
        max_time(ps.drop_last())
    }
}

/// Every tag key of every point.
pub open spec fn tag_keys_of(ps: Seq<TimePointSample>) -> Set<Seq<char>> {
    Set::new(
        |k: Seq<char>|
            exists|i: int, j: int|
                0 <= i < ps.len() && 0 <= j < ps[i].tags@.len() && (#[trigger] ps[i].tags@[j]).0@ == k,
    )
}

/// A warning for each series that goes back in time, in name order.
pub open spec fn order_warnings(v: Seq<(String, i64, bool)>) -> Seq<Seq<char>>
    decreases v.len(),
{
    if v.len() == 0 {
        seq![]
    } else {
        order_warnings(v.drop_last()) + (if v.last().2 {
            seq!["series "@ + v.last().0@ + " contains out-of-order timestamps"@]
        } else {
            seq![]
        })
    }
}

fn tag_check(tags: &Vec<(String, String)>) -> (r: bool)
    ensures
        r == (tags@.len() > 128 || exists|j: int| 0 <= j < tags@.len() && bad_tag(#[trigger] tags@[j])),
{
    if tags.len() > 128 {
        return true;
    }
    let mut j: usize = 0;
    while j < tags.len()
        invariant
            0 <= j <= tags@.len(),
            forall|jj: int| 0 <= jj < j ==> !bad_tag(#[trigger] tags@[jj]),
        decreases tags@.len() - j,
    {
        let k = tags[j].0.as_str();
        let val = tags[j].1.as_str();
        let kn = k.as_bytes().len();
        if kn == 0 || kn > 256 || val.as_bytes().len() > 1024 || crate::text::any_control(k)
            || crate::text::any_control(val) {
            assert(bad_tag(tags@[j as int]));
            return true;
        }
        j += 1;
    }
    false
}

/// The time-series analysis of a sample, its values aside: at most 10,000
/// points, each with a series name of 1 to 512 bytes without control
/// characters, a finite value, and at most 128 tags (keys of 1 to 256 bytes,
/// values of at most 1024, neither with control characters); then the
/// series, the time span and the tag keys found, and the series whose points
/// go back in time reported.
pub fn analyze_time_series(points: &Vec<TimePointSample>) -> (r: Result<
    TimeSeriesAnalysis,
    DatabaseError,
>)
    ensures
        points@.len() > ANALYSIS_MAX_RECORDS ==> db_invalid(
            r,
            "advanced model analysis is limited to 10,000 records"@,
        ),
        points@.len() <= ANALYSIS_MAX_RECORDS ==> match points_refusal(points@, 0) {
            Some(m) => db_invalid(r, m),
            None => r matches Ok(a) && exists|v: Seq<(String, i64, bool)>| {
                &&& #[trigger] tracks(v, points@)
                &&& a.records == points@.len()
                &&& a.series_count == v.len()
                &&& a.min_timestamp_unix_ms == min_time(points@)
                &&& a.max_timestamp_unix_ms == max_time(points@)
                &&& crate::text::strictly_sorted(crate::text::views(a.tag_keys@))
                &&& crate::text::views(a.tag_keys@).to_set() == tag_keys_of(points@)
                &&& crate::text::views(a.warnings@) =~= order_warnings(v)
            },
        },
{
    if points.len() > ANALYSIS_MAX_RECORDS {
        return Err(DatabaseError::Invalid("advanced model analysis is limited to 10,000 records".to_owned()));
    }
    let ghost ps = points@;
    let mut series: Vec<(String, i64, bool)> = Vec::new();
    let mut tag_keys: Vec<String> = Vec::new();
    let mut min_ts: i64 = 0;
    let mut max_ts: i64 = 0;
    let mut i: usize = 0;
    proof {
        assert(ps.subrange(0, 0) =~= Seq::<TimePointSample>::empty());
        assert(series_names(series@) =~= Seq::<Seq<char>>::empty());
        assert(crate::text::views(tag_keys@).to_set() =~= tag_keys_of(ps.subrange(0, 0)));
    }
    while i < points.len()
        invariant
            ps == points@,
            points@.len() <= ANALYSIS_MAX_RECORDS,
            0 <= i <= points@.len(),
            points_refusal(ps, 0) == points_refusal(ps, i as int),
            tracks(series@, ps.subrange(0, i as int)),
            crate::text::strictly_sorted(crate::text::views(tag_keys@)),
            crate::text::views(tag_keys@).to_set() == tag_keys_of(ps.subrange(0, i as int)),
            min_ts == min_time(ps.subrange(0, i as int)),
            max_ts == max_time(ps.subrange(0, i as int)),
        decreases points@.len() - i,
    {
        let p = &points[i];
        let ghost p0 = ps.subrange(0, i as int);
        let ghost p1 = ps.subrange(0, i + 1);
        proof {
            assert(p1.drop_last() =~= p0);
            assert(p1.last() == *p);
            assert(p1 =~= p0.push(*p));
        }
        let sn = p.series.as_str().as_bytes().len();
        if sn == 0 || sn > 512 || crate::text::any_control(p.series.as_str()) {
            return Err(DatabaseError::Invalid("time-series name is invalid".to_owned()));
        }
        if !p.value_finite {
            return Err(DatabaseError::Invalid("time-series value must be finite".to_owned()));
        }
        if tag_check(&p.tags) {
            return Err(DatabaseError::Invalid("time-series tags are invalid".to_owned()));
        }
        track(&mut series, p, Ghost(p0));
        let mut j: usize = 0;
        while j < p.tags.len()
            invariant
                0 <= j <= p.tags@.len(),
                crate::text::strictly_sorted(crate::text::views(tag_keys@)),
                forall|k: Seq<char>| crate::text::views(tag_keys@).to_set().contains(k) <==> (
                tag_keys_of(p0).contains(k) || exists|jj: int|
                    0 <= jj < j && (#[trigger] p.tags@[jj]).0@ == k),
            decreases p.tags@.len() - j,
        {
            let ghost tk0 = crate::text::views(tag_keys@).to_set();
            assert(forall|k: Seq<char>| tk0.contains(k) <==> (tag_keys_of(p0).contains(k) || exists|jj: int|
                0 <= jj < j && (#[trigger] p.tags@[jj]).0@ == k));
            crate::text::insert_sorted(&mut tag_keys, p.tags[j].0.clone());
            proof {
                let tk1 = crate::text::views(tag_keys@).to_set();
                assert(tk1 == tk0.insert(p.tags@[j as int].0@));
                assert forall|k: Seq<char>| tk1.contains(k) <==> (tag_keys_of(p0).contains(k) || exists|jj: int|
                    0 <= jj < j + 1 && (#[trigger] p.tags@[jj]).0@ == k) by {
                    if tk0.contains(k) && !tag_keys_of(p0).contains(k) {
                        let jj = choose|jj: int| 0 <= jj < j && (#[trigger] p.tags@[jj]).0@ == k;
                        assert(0 <= jj < j + 1 && p.tags@[jj].0@ == k);
                    }
                    if k == p.tags@[j as int].0@ {
                        assert(0 <= j < j + 1 && p.tags@[j as int].0@ == k);
                    }
                    if exists|jj: int| 0 <= jj < j + 1 && (#[trigger] p.tags@[jj]).0@ == k {
                        let jj = choose|jj: int| 0 <= jj < j + 1 && (#[trigger] p.tags@[jj]).0@ == k;
                        if jj < j {
                            assert(0 <= jj < j && p.tags@[jj].0@ == k);
                            assert(tk0.contains(k));
                        }
                    }
                }
            }
            j += 1;
        }
        let ghost tk = crate::text::views(tag_keys@).to_set();
        assert(forall|k: Seq<char>| tk.contains(k) <==> (tag_keys_of(p0).contains(k) || exists|jj: int|
            0 <= jj < j && (#[trigger] p.tags@[jj]).0@ == k));
        proof {
            assert forall|k: Seq<char>| tag_keys_of(p1).contains(k) <==> (tag_keys_of(p0).contains(k) || exists|jj: int|
                0 <= jj < p.tags@.len() && (#[trigger] p.tags@[jj]).0@ == k) by {
                if tag_keys_of(p1).contains(k) {
                    let (a, b) = choose|a: int, b: int|
                        0 <= a < p1.len() && 0 <= b < p1[a].tags@.len() && (#[trigger] p1[a].tags@[b]).0@ == k;
                    if a < i {
                        assert(p0[a] == p1[a]);
                        assert(p0[a].tags@[b].0@ == k);
                    } else {
                        assert(p1[a] == *p);
                        assert(p.tags@[b].0@ == k);
                    }
                }
                if tag_keys_of(p0).contains(k) {
                    let (a, b) = choose|a: int, b: int|
                        0 <= a < p0.len() && 0 <= b < p0[a].tags@.len() && (#[trigger] p0[a].tags@[b]).0@ == k;
                    assert(p1[a] == p0[a]);
                    assert(p1[a].tags@[b].0@ == k);
                }
                if exists|jj: int| 0 <= jj < p.tags@.len() && (#[trigger] p.tags@[jj]).0@ == k {
                    let jj = choose|jj: int| 0 <= jj < p.tags@.len() && (#[trigger] p.tags@[jj]).0@ == k;
                    assert(p1[i as int].tags@[jj].0@ == k);
                }
            }
            assert forall|k: Seq<char>| tk.contains(k) == tag_keys_of(p1).contains(k) by {
                assert(tk.contains(k) <==> (tag_keys_of(p0).contains(k) || exists|jj: int|
                    0 <= jj < j && (#[trigger] p.tags@[jj]).0@ == k));
                assert(tag_keys_of(p1).contains(k) <==> (tag_keys_of(p0).contains(k) || exists|jj: int|
                    0 <= jj < p.tags@.len() && (#[trigger] p.tags@[jj]).0@ == k));
            }
            assert(tk =~= tag_keys_of(p1));
        }
        if i == 0 {
            min_ts = p.timestamp_unix_ms;
            max_ts = p.timestamp_unix_ms;
        } else {
            if p.timestamp_unix_ms < min_ts {
                min_ts = p.timestamp_unix_ms;
            }
            if p.timestamp_unix_ms > max_ts {
                max_ts = p.timestamp_unix_ms;
            }
        }
        proof {
            assert(point_refusal(ps[i as int]) is None);
        }
        i += 1;
    }
    proof {
        assert(ps.subrange(0, points@.len() as int) =~= ps);
    }
    let mut warnings: Vec<String> = Vec::new();
    let mut t: usize = 0;
    while t < series.len()
        invariant
            0 <= t <= series@.len(),
            crate::text::views(warnings@) =~= order_warnings(series@.subrange(0, t as int)),
        decreases series@.len() - t,
    {
        proof {
            assert(series@.subrange(0, t + 1).drop_last() =~= series@.subrange(0, t as int));
        }
        if series[t].2 {
            let mut w = concat("series ", series[t].0.as_str());
            vstd::string::StringExecFns::append(&mut w, " contains out-of-order timestamps");
            warnings.push(w);
        }
        t += 1;
    }
    proof {
        assert(series@.subrange(0, series@.len() as int) =~= series@);
    }
    let series_count = series.len() as u64;
    let ghost v = series@;
    let a = TimeSeriesAnalysis {
        records: points.len(),
        series_count,
        min_timestamp_unix_ms: min_ts,
        max_timestamp_unix_ms: max_ts,
        tag_keys,
        warnings,
    };
    assert(tracks(v, points@));
    Ok(a)
}

} // verus!
