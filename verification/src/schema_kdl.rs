//! Reading a schema from a KDL document.
//!
//! Each top-level node declares an object type: its name is the node's kind
//! (`doc`, `object`, `image`, `file`, or `graphql`, which is skipped), its
//! first argument names the object and its second argument is the title.
//! Properties `title`, `icon`, `description` and `preview` set those parts;
//! child nodes `title`, `icon`, `description` and `preview` set them again,
//! `fieldsets` is ignored, and every other child node declares a field whose
//! type is the child's name and whose name is the child's first argument.

use vstd::prelude::*;
use crate::text::str_eq;
use crate::kdl_doc::{
    is_prop, KdlEntryData, KdlNodeData, kdl_parse_outcome, parse_kdl_nodes, nth_arg, last_prop,
    last_prop_upto, get_arg, string_or_empty, find_arg, find_prop, find_child_arg,
    string_or_default,
};
use crate::schema::{
    BaseType, ObjectType, ObjectTypeView, FieldType, FieldTypeView, Preview, PreviewView, Field,
    FieldView, Object, ObjectView, Schema, SchemaView, fields_view,
};

verus! {

/// A variant name that none of an enum's variants has.
#[derive(Debug, Clone, Copy, PartialEq, Eq, Structural)]
pub struct VariantNotFound;

/// Why a schema could not be read.
#[derive(Debug)]
pub enum SchemaError {
    /// The text is no KDL document; the parser's message.
    Kdl(String),
    /// A top-level node has a name that is no object kind.
    UnknownRootType(String),
    /// A child node that sets a part or declares a field has no argument;
    /// the child node's name.
    MissingArgument(String),
}

/// The view of a [`SchemaError`].
pub enum SchemaErrorView {
    Kdl(Seq<char>),
    UnknownRootType(Seq<char>),
    MissingArgument(Seq<char>),
}

impl View for SchemaError {
    type V = SchemaErrorView;

    open spec fn view(&self) -> SchemaErrorView {
        match self {
            SchemaError::Kdl(m) => SchemaErrorView::Kdl(m@),
            SchemaError::UnknownRootType(n) => SchemaErrorView::UnknownRootType(n@),
            SchemaError::MissingArgument(n) => SchemaErrorView::MissingArgument(n@),
        }
    }
}

/// The kind of a top-level node of a schema document.
#[derive(Debug, Clone, Copy, PartialEq, Eq, Structural)]
pub enum RootType {
    Graphql,
    Doc,
    Object,
    Image,
    File,
}

/// The root type a node name stands for.
pub open spec fn root_type_named(s: Seq<char>) -> Option<RootType> {
    if s == "graphql"@ {
        Some(RootType::Graphql)
    } else if s == "doc"@ {
        Some(RootType::Doc)
    } else if s == "object"@ {
        Some(RootType::Object)
    } else if s == "image"@ {
        Some(RootType::Image)
    } else if s == "file"@ {
        Some(RootType::File)
    } else {
        None
    }
}

/// The object kind of a root type; `graphql` counts as a plain object.
pub open spec fn base_type_of(t: RootType) -> BaseType {
    match t {
        RootType::Doc => BaseType::Doc,
        RootType::Object => BaseType::Object,
        RootType::Image => BaseType::Image,
        RootType::File => BaseType::File,
        RootType::Graphql => BaseType::Object,
    }
}

impl RootType {
    /// The root type named `s` in snake case.
    pub fn from_str(s: &str) -> (r: Result<RootType, VariantNotFound>)
        ensures
            r matches Ok(t) ==> root_type_named(s@) == Some(t),
            r is Err ==> root_type_named(s@) is None,
    {
        if str_eq(s, "graphql") {
            Ok(RootType::Graphql)
        } else if str_eq(s, "doc") {
            Ok(RootType::Doc)
        } else if str_eq(s, "object") {
            Ok(RootType::Object)
        } else if str_eq(s, "image") {
            Ok(RootType::Image)
        } else if str_eq(s, "file") {
            Ok(RootType::File)
        } else {
            Err(VariantNotFound)
        }
    }

    /// The object kind of this root type.
    pub fn into_base_type(self) -> (r: BaseType)
        ensures
            r == base_type_of(self),
    {
        match self {
            RootType::Doc => BaseType::Doc,
            RootType::Object => BaseType::Object,
            RootType::Image => BaseType::Image,
            RootType::File => BaseType::File,
            _ => BaseType::Object,
        }
    }
}

/// The base type named `s`: its snake-case name, and `document` for `Doc`.
pub open spec fn base_type_named(s: Seq<char>) -> Option<BaseType> {
    if s == "doc"@ || s == "document"@ {
        Some(BaseType::Doc)
    } else if s == "object"@ {
        Some(BaseType::Object)
    } else if s == "image"@ {
        Some(BaseType::Image)
    } else if s == "file"@ {
        Some(BaseType::File)
    } else if s == "action"@ {
        Some(BaseType::Action)
    } else {
        None
    }
}

impl BaseType {
    /// The base type named `s`.
    pub fn from_str(s: &str) -> (r: Result<BaseType, VariantNotFound>)
        ensures
            r matches Ok(t) ==> base_type_named(s@) == Some(t),
            r is Err ==> base_type_named(s@) is None,
    {
        if str_eq(s, "doc") || str_eq(s, "document") {
            Ok(BaseType::Doc)
        } else if str_eq(s, "object") {
            Ok(BaseType::Object)
        } else if str_eq(s, "image") {
            Ok(BaseType::Image)
        } else if str_eq(s, "file") {
            Ok(BaseType::File)
        } else if str_eq(s, "action") {
            Ok(BaseType::Action)
        } else {
            Err(VariantNotFound)
        }
    }
}

/// The object type named `s`: its snake-case name, and `document` for
/// `Doc`; `custom` gives a custom kind with an empty name.
pub open spec fn object_type_named(s: Seq<char>) -> Option<ObjectTypeView> {
    if s == "doc"@ || s == "document"@ {
        Some(ObjectTypeView::Doc)
    } else if s == "object"@ {
        Some(ObjectTypeView::Object)
    } else if s == "image"@ {
        Some(ObjectTypeView::Image)
    } else if s == "custom"@ {
        Some(ObjectTypeView::Custom(seq![]))
    } else {
        None
    }
}

impl ObjectType {
    /// The object type named `s`.
    pub fn from_str(s: &str) -> (r: Result<ObjectType, VariantNotFound>)
        ensures
            r matches Ok(t) ==> object_type_named(s@) == Some(t@),
            r is Err ==> object_type_named(s@) is None,
    {
        if str_eq(s, "doc") || str_eq(s, "document") {
            Ok(ObjectType::Doc)
        } else if str_eq(s, "object") {
            Ok(ObjectType::Object)
        } else if str_eq(s, "image") {
            Ok(ObjectType::Image)
        } else if str_eq(s, "custom") {
            Ok(ObjectType::Custom(String::new()))
        } else {
            Err(VariantNotFound)
        }
    }
}

/// The field type named `s`: its snake-case name, `bool` or `boolean` for
/// `Boolean`, `ref` or `reference` for `Reference`, and `object` for an
/// object type with an empty name.
pub open spec fn field_type_named(s: Seq<char>) -> Option<FieldTypeView> {
    if s == "array"@ {
        Some(FieldTypeView::Array)
    } else if s == "bloc"@ {
        Some(FieldTypeView::Bloc)
    } else if s == "bool"@ || s == "boolean"@ {
        Some(FieldTypeView::Boolean)
    } else if s == "date"@ {
        Some(FieldTypeView::Date)
    } else if s == "datetime"@ {
        Some(FieldTypeView::Datetime)
    } else if s == "file"@ {
        Some(FieldTypeView::File)
    } else if s == "geopoint"@ {
        Some(FieldTypeView::Geopoint)
    } else if s == "image"@ {
        Some(FieldTypeView::Image)
    } else if s == "number"@ {
        Some(FieldTypeView::Number)
    } else if s == "ref"@ || s == "reference"@ {
        Some(FieldTypeView::Reference)
    } else if s == "slug"@ {
        Some(FieldTypeView::Slug)
    } else if s == "span"@ {
        Some(FieldTypeView::Span)
    } else if s == "string"@ {
        Some(FieldTypeView::String)
    } else if s == "text"@ {
        Some(FieldTypeView::Text)
    } else if s == "url"@ {
        Some(FieldTypeView::Url)
    } else if s == "object"@ {
        Some(FieldTypeView::Object(seq![]))
    } else {
        None
    }
}

impl FieldType {
    /// The field type named `s`.
    pub fn from_str(s: &str) -> (r: Result<FieldType, VariantNotFound>)
        ensures
            r matches Ok(t) ==> field_type_named(s@) == Some(t@),
            r is Err ==> field_type_named(s@) is None,
    {
        if str_eq(s, "array") {
            Ok(FieldType::Array)
        } else if str_eq(s, "bloc") {
            Ok(FieldType::Bloc)
        } else if str_eq(s, "bool") || str_eq(s, "boolean") {
            Ok(FieldType::Boolean)
        } else if str_eq(s, "date") {
            Ok(FieldType::Date)
        } else if str_eq(s, "datetime") {
            Ok(FieldType::Datetime)
        } else if str_eq(s, "file") {
            Ok(FieldType::File)
        } else if str_eq(s, "geopoint") {
            Ok(FieldType::Geopoint)
        } else if str_eq(s, "image") {
            Ok(FieldType::Image)
        } else if str_eq(s, "number") {
            Ok(FieldType::Number)
        } else if str_eq(s, "ref") || str_eq(s, "reference") {
            Ok(FieldType::Reference)
        } else if str_eq(s, "slug") {
            Ok(FieldType::Slug)
        } else if str_eq(s, "span") {
            Ok(FieldType::Span)
        } else if str_eq(s, "string") {
            Ok(FieldType::String)
        } else if str_eq(s, "text") {
            Ok(FieldType::Text)
        } else if str_eq(s, "url") {
            Ok(FieldType::Url)
        } else if str_eq(s, "object") {
            Ok(FieldType::Object(String::new()))
        } else {
            Err(VariantNotFound)
        }
    }
}

/// The snake-case name of a field type that is no object type; `object`
/// for an object type.
pub open spec fn field_type_name(t: FieldTypeView) -> Seq<char> {
    match t {
        FieldTypeView::Array => "array"@,
        FieldTypeView::Bloc => "bloc"@,
        FieldTypeView::Boolean => "boolean"@,
        FieldTypeView::Date => "date"@,
        FieldTypeView::Datetime => "datetime"@,
        FieldTypeView::File => "file"@,
        FieldTypeView::Geopoint => "geopoint"@,
        FieldTypeView::Image => "image"@,
        FieldTypeView::Number => "number"@,
        FieldTypeView::Reference => "reference"@,
        FieldTypeView::Slug => "slug"@,
        FieldTypeView::Span => "span"@,
        FieldTypeView::String => "string"@,
        FieldTypeView::Text => "text"@,
        FieldTypeView::Url => "url"@,
        FieldTypeView::Object(_) => "object"@,
    }
}

/// Each name that reads as a field type, with the field type it reads as:
/// the snake-case name of each variant, `bool` beside `boolean`, `ref`
/// beside `reference`, and `object` for an object type with an empty name.
pub proof fn law_field_type_names()
    ensures
        field_type_named("array"@) == Some(FieldTypeView::Array),
        field_type_named("bloc"@) == Some(FieldTypeView::Bloc),
        field_type_named("bool"@) == Some(FieldTypeView::Boolean),
        field_type_named("boolean"@) == Some(FieldTypeView::Boolean),
        field_type_named("date"@) == Some(FieldTypeView::Date),
        field_type_named("datetime"@) == Some(FieldTypeView::Datetime),
        field_type_named("file"@) == Some(FieldTypeView::File),
        field_type_named("geopoint"@) == Some(FieldTypeView::Geopoint),
        field_type_named("image"@) == Some(FieldTypeView::Image),
        field_type_named("number"@) == Some(FieldTypeView::Number),
        field_type_named("ref"@) == Some(FieldTypeView::Reference),
        field_type_named("reference"@) == Some(FieldTypeView::Reference),
        field_type_named("slug"@) == Some(FieldTypeView::Slug),
        field_type_named("span"@) == Some(FieldTypeView::Span),
        field_type_named("string"@) == Some(FieldTypeView::String),
        field_type_named("text"@) == Some(FieldTypeView::Text),
        field_type_named("url"@) == Some(FieldTypeView::Url),
        field_type_named("object"@) == Some(FieldTypeView::Object(seq![])),
{
    reveal_strlit("array");
    reveal_strlit("bloc");
    reveal_strlit("bool");
    reveal_strlit("boolean");
    reveal_strlit("date");
    reveal_strlit("datetime");
    reveal_strlit("file");
    reveal_strlit("geopoint");
    reveal_strlit("image");
    reveal_strlit("number");
    reveal_strlit("ref");
    reveal_strlit("reference");
    reveal_strlit("slug");
    reveal_strlit("span");
    reveal_strlit("string");
    reveal_strlit("text");
    reveal_strlit("url");
    reveal_strlit("object");
    assert("array"@.len() == 5 && "array"@[0] == 'a' && "array"@[1] == 'r');
    assert("bloc"@.len() == 4 && "bloc"@[0] == 'b' && "bloc"@[1] == 'l');
    assert("bool"@.len() == 4 && "bool"@[0] == 'b' && "bool"@[1] == 'o');
    assert("boolean"@.len() == 7 && "boolean"@[0] == 'b' && "boolean"@[1] == 'o');
    assert("date"@.len() == 4 && "date"@[0] == 'd' && "date"@[1] == 'a');
    assert("datetime"@.len() == 8 && "datetime"@[0] == 'd' && "datetime"@[1] == 'a');
    assert("file"@.len() == 4 && "file"@[0] == 'f' && "file"@[1] == 'i');
    assert("geopoint"@.len() == 8 && "geopoint"@[0] == 'g' && "geopoint"@[1] == 'e');
    assert("image"@.len() == 5 && "image"@[0] == 'i' && "image"@[1] == 'm');
    assert("number"@.len() == 6 && "number"@[0] == 'n' && "number"@[1] == 'u');
    assert("ref"@.len() == 3 && "ref"@[0] == 'r' && "ref"@[1] == 'e');
    assert("reference"@.len() == 9 && "reference"@[0] == 'r' && "reference"@[1] == 'e');
    assert("slug"@.len() == 4 && "slug"@[0] == 's' && "slug"@[1] == 'l');
    assert("span"@.len() == 4 && "span"@[0] == 's' && "span"@[1] == 'p');
    assert("string"@.len() == 6 && "string"@[0] == 's' && "string"@[1] == 't');
    assert("text"@.len() == 4 && "text"@[0] == 't' && "text"@[1] == 'e');
    assert("url"@.len() == 3 && "url"@[0] == 'u' && "url"@[1] == 'r');
    assert("object"@.len() == 6 && "object"@[0] == 'o' && "object"@[1] == 'b');
}

/// Every field type but an object type reads back from its snake-case
/// name, and a child node named so declares a field of that type.
pub proof fn law_field_type_name_reads_back(t: FieldTypeView)
    requires
        !(t is Object),
    ensures
        field_type_named(field_type_name(t)) == Some(t),
        field_type_for(field_type_name(t)) == t,
{
    law_field_type_names();
}

/// The type of a field declared by a child node named `s`: the field type
/// of that name, else an object type named `s`.
pub open spec fn field_type_for(s: Seq<char>) -> FieldTypeView {
    match field_type_named(s) {
        Some(t) => t,
        None => FieldTypeView::Object(s),
    }
}

/// The text of a node's first argument.
pub open spec fn first_arg_text(c: KdlNodeData) -> Seq<char> {
    match nth_arg(c.entries@, 0) {
        Some(e) => e.text@,
        None => seq![],
    }
}

/// The field declared by a child node: its type from the node's name, its
/// name the text of the node's first argument.
pub open spec fn field_of(c: KdlNodeData) -> FieldView {
    FieldView::blank(first_arg_text(c), field_type_for(c.name@))
}

/// The preview that a `preview` node describes: properties `title`,
/// `subtitle`, `media` and `js` first, then the first arguments of child
/// nodes of those names.
pub open spec fn preview_of(node: KdlNodeData) -> PreviewView {
    let es = node.entries@;
    let title1 = match last_prop(es, "title"@) {
        Some(e) => string_or_empty(e),
        None => seq![],
    };
    let subtitle1 = match last_prop(es, "subtitle"@) {
        Some(e) => Some(string_or_empty(e)),
        None => None,
    };
    let media1 = match last_prop(es, "media"@) {
        Some(e) => Some(string_or_empty(e)),
        None => None,
    };
    let fun1 = match last_prop(es, "js"@) {
        Some(e) => Some(string_or_empty(e)),
        None => None,
    };
    match node.children {
        Some(cs) => PreviewView {
            title: match get_arg(cs@, "title"@) {
                Some(e) => string_or_empty(e),
                None => title1,
            },
            subtitle: match get_arg(cs@, "subtitle"@) {
                Some(e) => Some(string_or_empty(e)),
                None => subtitle1,
            },
            media: match get_arg(cs@, "media"@) {
                Some(e) => Some(string_or_empty(e)),
                None => media1,
            },
            select: seq![],
            fun: match get_arg(cs@, "js"@) {
                Some(e) => Some(string_or_empty(e)),
                None => fun1,
            },
        },
        None => PreviewView { title: title1, subtitle: subtitle1, media: media1, select: seq![], fun: fun1 },
    }
}

/// A child node can be read: every child but `preview` and `fieldsets`
/// needs a first argument.
pub open spec fn child_ok(c: KdlNodeData) -> bool {
    c.name@ == "preview"@ || c.name@ == "fieldsets"@ || nth_arg(c.entries@, 0) is Some
}

/// The object after one child node is read.
pub open spec fn apply_child(o: ObjectView, c: KdlNodeData) -> ObjectView {
    let n = c.name@;
    if n == "preview"@ {
        ObjectView { preview: preview_of(c), ..o }
    } else if n == "fieldsets"@ {
        o
    } else if n == "title"@ {
        ObjectView { title: first_arg_text(c), ..o }
    } else if n == "icon"@ {
        ObjectView { icon: first_arg_text(c), ..o }
    } else if n == "description"@ {
        ObjectView { description: first_arg_text(c), ..o }
    } else {
        ObjectView { fields: o.fields.push(field_of(c)), ..o }
    }
}

/// The object after the first `n` child nodes are read in order.
pub open spec fn children_applied(o: ObjectView, cs: Seq<KdlNodeData>, n: int) -> ObjectView
    decreases n,
{
    if n <= 0 || n > cs.len() {
        o
    } else {
        apply_child(children_applied(o, cs, n - 1), cs[n - 1])
    }
}

/// The position of the first child node from `i` on that cannot be read.
pub open spec fn first_bad_child_from(cs: Seq<KdlNodeData>, i: int) -> Option<int>
    decreases cs.len() - i,
{
    if i < 0 || i >= cs.len() {
        None
    } else if !child_ok(cs[i]) {
        Some(i)
    } else {
        first_bad_child_from(cs, i + 1)
    }
}

/// The value that a property sets: its string, or the empty string.
pub open spec fn prop_or(es: Seq<KdlEntryData>, key: Seq<char>, n: int, d: Seq<char>) -> Seq<char> {
    match last_prop_upto(es, key, n) {
        Some(e) => string_or_empty(e),
        None => d,
    }
}

/// The title an object node gives before its properties: its second
/// argument's string, or the empty string.
pub open spec fn arg_title(es: Seq<KdlEntryData>) -> Seq<char> {
    match nth_arg(es, 1) {
        Some(e) => string_or_empty(e),
        None => seq![],
    }
}

/// The preview that a `preview` property gives, after the first `n` entries.
pub open spec fn prop_preview(es: Seq<KdlEntryData>, n: int) -> PreviewView {
    match last_prop_upto(es, "preview"@, n) {
        Some(e) => PreviewView::titled(string_or_empty(e)),
        None => PreviewView::titled(seq![]),
    }
}

/// The object that a top-level node's own entries describe, named `name`.
pub open spec fn object_from_entries(node: KdlNodeData, t: RootType, name: Seq<char>) -> ObjectView {
    let es = node.entries@;
    let n = es.len() as int;
    ObjectView {
        title: prop_or(es, "title"@, n, arg_title(es)),
        icon: prop_or(es, "icon"@, n, seq![]),
        description: prop_or(es, "description"@, n, seq![]),
        preview: prop_preview(es, n),
        ..ObjectView::blank(name, base_type_of(t))
    }
}

/// The object that a top-level node describes, named `name`.
pub open spec fn object_of(node: KdlNodeData, t: RootType, name: Seq<char>) -> ObjectView {
    match node.children {
        Some(cs) => children_applied(object_from_entries(node, t, name), cs@, cs@.len() as int),
        None => object_from_entries(node, t, name),
    }
}

/// The name of the object that a top-level node declares: its first
/// argument's string, `object` when that argument is no string, and `anon`
/// when the node has no argument.
pub open spec fn object_name_of(node: KdlNodeData) -> Seq<char> {
    match nth_arg(node.entries@, 0) {
        Some(e) => match e.string {
            Some(s) => s@,
            None => "object"@,
        },
        None => "anon"@,
    }
}

/// Why a top-level node cannot be read, if it cannot.
pub open spec fn node_error(node: KdlNodeData) -> Option<SchemaErrorView> {
    match root_type_named(node.name@) {
        None => Some(SchemaErrorView::UnknownRootType(node.name@)),
        Some(RootType::Graphql) => None,
        Some(_) => match node.children {
            Some(cs) => match first_bad_child_from(cs@, 0) {
                Some(k) => Some(SchemaErrorView::MissingArgument(cs@[k].name@)),
                None => None,
            },
            None => None,
        },
    }
}

/// The first reason, from the `i`-th top-level node on, why a node cannot
/// be read.
pub open spec fn first_error_from(nodes: Seq<KdlNodeData>, i: int) -> Option<SchemaErrorView>
    decreases nodes.len() - i,
{
    if i < 0 || i >= nodes.len() {
        None
    } else if node_error(nodes[i]) is Some {
        node_error(nodes[i])
    } else {
        first_error_from(nodes, i + 1)
    }
}

/// The schema after the first `n` top-level nodes are read into `s`:
/// each node of an object kind adds its object, `graphql` nodes add nothing.
pub open spec fn schema_upto(s: SchemaView, nodes: Seq<KdlNodeData>, n: int) -> SchemaView
    decreases n,
{
    if n <= 0 || n > nodes.len() {
        s
    } else {
        let prev = schema_upto(s, nodes, n - 1);
        let node = nodes[n - 1];
        match root_type_named(node.name@) {
            Some(t) => if t == RootType::Graphql {
                prev
            } else {
                prev.add(object_of(node, t, object_name_of(node)))
            },
            None => prev,
        }
    }
}

/// The schema named `name` with base `base` that a KDL document's nodes
/// describe, or the first reason why a node cannot be read.
pub open spec fn kdl_schema_outcome(
    nodes: Seq<KdlNodeData>,
    name: Seq<char>,
    base: std::path::PathBuf,
) -> Result<SchemaView, SchemaErrorView> {
    match first_error_from(nodes, 0) {
        Some(e) => Err(e),
        None => Ok(schema_upto(SchemaView::empty(name, base), nodes, nodes.len() as int)),
    }
}

/// The view of a schema outcome.
pub open spec fn outcome_view(r: Result<Schema, SchemaError>) -> Result<SchemaView, SchemaErrorView> {
    match r {
        Ok(s) => Ok(s@),
        Err(e) => Err(e@),
    }
}

/// Reads the preview that a `preview` node describes.
fn handle_preview(node: &KdlNodeData) -> (r: Preview)
    ensures
        r@ == preview_of(*node),
{
    let mut preview = Preview::new(String::new());
    match find_prop(&node.entries, "title") {
        Some(i) => preview.title = string_or_default(&node.entries[i]),
        None => {},
    }
    match find_prop(&node.entries, "subtitle") {
        Some(i) => preview.subtitle = Some(string_or_default(&node.entries[i])),
        None => {},
    }
    match find_prop(&node.entries, "media") {
        Some(i) => preview.media = Some(string_or_default(&node.entries[i])),
        None => {},
    }
    match find_prop(&node.entries, "js") {
        Some(i) => preview.fun = Some(string_or_default(&node.entries[i])),
        None => {},
    }
    match &node.children {
        Some(cs) => {
            match find_child_arg(cs, "title") {
                Some(e) => preview.title = string_or_default(e),
                None => {},
            }
            match find_child_arg(cs, "subtitle") {
                Some(e) => preview.subtitle = Some(string_or_default(e)),
                None => {},
            }
            match find_child_arg(cs, "media") {
                Some(e) => preview.media = Some(string_or_default(e)),
                None => {},
            }
            match find_child_arg(cs, "js") {
                Some(e) => preview.fun = Some(string_or_default(e)),
                None => {},
            }
        },
        None => {},
    }
    assert(preview@.select =~= seq![]);
    preview
}

/// Reads the field that a child node declares; the node has a first
/// argument, the field's name.
fn handle_field(ftype: &str, node: &KdlNodeData, arg: usize) -> (r: Field)
    requires
        ftype@ == node.name@,
        arg < node.entries@.len(),
        nth_arg(node.entries@, 0) == Some(node.entries@[arg as int]),
    ensures
        r@ == field_of(*node),
{
    let name = node.entries[arg].text.clone();
    let t = match FieldType::from_str(ftype) {
        Ok(t) => t,
        Err(_) => FieldType::Object(ftype.to_owned()),
    };
    Field::new(name.as_str(), t)
}

/// Reads the child nodes of an object node into the object, in order.
fn handle_object_fields(o: &mut Object, children: &Option<Vec<KdlNodeData>>) -> (r: Result<
    (),
    SchemaError,
>)
    ensures
        match *children {
            None => r is Ok && final(o)@ == old(o)@,
            Some(cs) => match first_bad_child_from(cs@, 0) {
                Some(k) => r matches Err(e) && e@ == SchemaErrorView::MissingArgument(
                    cs@[k].name@,
                ),
                None => r is Ok && final(o)@ == children_applied(
                    old(o)@,
                    cs@,
                    cs@.len() as int,
                ),
            },
        },
{
    let cs = match children {
        Some(cs) => cs,
        None => {
            return Ok(());
        },
    };
    let ghost start = o@;
    let n = cs.len();
    let mut i: usize = 0;
    while i < n
        invariant
            n == cs@.len(),
            i <= n,
            *children == Some(*cs),
            first_bad_child_from(cs@, 0) == first_bad_child_from(cs@, i as int),
            o@ == children_applied(start, cs@, i as int),
        decreases n - i,
    {
        let node = &cs[i];
        let ftype = node.name.as_str();
        let ghost before = o@;
        if str_eq(ftype, "preview") {
            o.preview = handle_preview(node);
        } else if str_eq(ftype, "fieldsets") {
        } else {
            match find_arg(&node.entries, 0) {
                None => {
                    assert(!child_ok(*node));
                    assert(first_bad_child_from(cs@, i as int) == Some(i as int));
                    return Err(SchemaError::MissingArgument(node.name.clone()));
                },
                Some(j) => {
                    if str_eq(ftype, "title") {
                        o.title = node.entries[j].text.clone();
                    } else if str_eq(ftype, "icon") {
                        o.icon = node.entries[j].text.clone();
                    } else if str_eq(ftype, "description") {
                        o.description = node.entries[j].text.clone();
                    } else {
                        let f = handle_field(ftype, node, j);
                        o.fields.push(f);
                        assert(fields_view(o.fields@) =~= before.fields.push(field_of(*node)));
                    }
                },
            }
        }
        assert(o@ == apply_child(before, *node));
        i = i + 1;
    }
    Ok(())
}

/// The property names an object node reads are pairwise distinct.
proof fn lemma_property_keys_distinct()
    ensures
        "title"@ != "icon"@,
        "title"@ != "description"@,
        "title"@ != "preview"@,
        "icon"@ != "description"@,
        "icon"@ != "preview"@,
        "description"@ != "preview"@,
{
    reveal_strlit("title");
    reveal_strlit("icon");
    reveal_strlit("description");
    reveal_strlit("preview");
    assert("title"@.len() == 5);
    assert("icon"@.len() == 4);
    assert("description"@.len() == 11);
    assert("preview"@.len() == 7);
}

/// The child node names an object node reads are pairwise distinct.
proof fn lemma_child_names_distinct()
    ensures
        "title"@ != "icon"@,
        "title"@ != "description"@,
        "icon"@ != "description"@,
        "title"@ != "preview"@,
        "icon"@ != "preview"@,
        "description"@ != "preview"@,
        "title"@ != "fieldsets"@,
        "icon"@ != "fieldsets"@,
        "description"@ != "fieldsets"@,
{
    lemma_property_keys_distinct();
    reveal_strlit("title");
    reveal_strlit("icon");
    reveal_strlit("description");
    reveal_strlit("fieldsets");
    assert("title"@.len() == 5);
    assert("icon"@.len() == 4);
    assert("description"@.len() == 11);
    assert("fieldsets"@.len() == 9);
}

/// Reading child nodes sets the object's title, icon or description to the
/// text of the first argument of the last child node of that name: once the
/// `k`-th child, whose first argument is `e`, is read, and no later child
/// has its name, the property stays `e`'s text to the end.
pub proof fn law_last_child_sets_text(
    o: ObjectView,
    cs: Seq<KdlNodeData>,
    k: int,
    e: KdlEntryData,
    n: int,
)
    requires
        0 <= k < n <= cs.len(),
        nth_arg(cs[k].entries@, 0) == Some(e),
        forall|m: int| k < m < n ==> (#[trigger] cs[m]).name@ != cs[k].name@,
    ensures
        cs[k].name@ == "title"@ ==> children_applied(o, cs, n).title == e.text@,
        cs[k].name@ == "icon"@ ==> children_applied(o, cs, n).icon == e.text@,
        cs[k].name@ == "description"@ ==> children_applied(o, cs, n).description == e.text@,
    decreases n - k,
{
    lemma_child_names_distinct();
    if n > k + 1 {
        law_last_child_sets_text(o, cs, k, e, n - 1);
        assert(cs[n - 1].name@ != cs[k].name@);
    }
}

/// A child node whose name is not `title`, `icon` or `description` leaves
/// that property as it was: with no child of that name the object keeps
/// what its own entries gave.
pub proof fn law_other_children_keep_text(o: ObjectView, cs: Seq<KdlNodeData>, n: int)
    requires
        0 <= n <= cs.len(),
    ensures
        (forall|m: int| 0 <= m < n ==> (#[trigger] cs[m]).name@ != "title"@)
            ==> children_applied(o, cs, n).title == o.title,
        (forall|m: int| 0 <= m < n ==> (#[trigger] cs[m]).name@ != "icon"@)
            ==> children_applied(o, cs, n).icon == o.icon,
        (forall|m: int| 0 <= m < n ==> (#[trigger] cs[m]).name@ != "description"@)
            ==> children_applied(o, cs, n).description == o.description,
    decreases n,
{
    if n > 0 {
        law_other_children_keep_text(o, cs, n - 1);
        assert(forall|m: int| 0 <= m < n - 1 ==> cs[m] == #[trigger] cs[m]);
    }
}

/// The description of an object read from a node with child nodes is the
/// text of the first argument of its last `description` child.
pub proof fn law_object_description(
    node: KdlNodeData,
    t: RootType,
    name: Seq<char>,
    k: int,
    e: KdlEntryData,
)
    requires
        node.children is Some,
        0 <= k < node.children->Some_0@.len(),
        node.children->Some_0@[k].name@ == "description"@,
        nth_arg(node.children->Some_0@[k].entries@, 0) == Some(e),
        forall|m: int|
            k < m < node.children->Some_0@.len() ==> (#[trigger] node.children->Some_0@[m]).name@
                != "description"@,
    ensures
        object_of(node, t, name).description == e.text@,
{
    let cs = node.children->Some_0@;
    law_last_child_sets_text(object_from_entries(node, t, name), cs, k, e, cs.len() as int);
}

/// The kinds of top-level node: `graphql`, `doc`, `object`, `image` and
/// `file`, each read as an object of the kind of that name but `graphql`,
/// which adds no object.
pub proof fn law_root_type_names()
    ensures
        root_type_named("graphql"@) == Some(RootType::Graphql),
        root_type_named("doc"@) == Some(RootType::Doc),
        root_type_named("object"@) == Some(RootType::Object),
        root_type_named("image"@) == Some(RootType::Image),
        root_type_named("file"@) == Some(RootType::File),
        base_type_of(RootType::Doc) == BaseType::Doc,
        base_type_of(RootType::Object) == BaseType::Object,
        base_type_of(RootType::Image) == BaseType::Image,
        base_type_of(RootType::File) == BaseType::File,
{
    reveal_strlit("graphql");
    reveal_strlit("doc");
    reveal_strlit("object");
    reveal_strlit("image");
    reveal_strlit("file");
    assert("graphql"@.len() == 7);
    assert("doc"@.len() == 3);
    assert("object"@.len() == 6);
    assert("image"@.len() == 5);
    assert("file"@.len() == 4);
}

/// A child node that is no `preview`, `fieldsets`, `title`, `icon` or
/// `description` node, with first argument `e`, declares one more field,
/// appended after the fields before it: named by `e`'s text, of the field
/// type its node name reads as, or else of the object type of that name.
/// Nothing else of the object changes.
pub proof fn law_field_child(o: ObjectView, c: KdlNodeData, e: KdlEntryData)
    requires
        c.name@ != "preview"@,
        c.name@ != "fieldsets"@,
        c.name@ != "title"@,
        c.name@ != "icon"@,
        c.name@ != "description"@,
        nth_arg(c.entries@, 0) == Some(e),
    ensures
        apply_child(o, c) == (ObjectView { fields: apply_child(o, c).fields, ..o }),
        apply_child(o, c).fields.len() == o.fields.len() + 1,
        apply_child(o, c).fields.take(o.fields.len() as int) == o.fields,
        apply_child(o, c).fields.last().name == e.text@,
        apply_child(o, c).fields.last() == FieldView::blank(
            e.text@,
            apply_child(o, c).fields.last().field_type,
        ),
        field_type_named(c.name@) matches Some(t) ==> apply_child(o, c).fields.last().field_type
            == t,
        field_type_named(c.name@) is None ==> apply_child(o, c).fields.last().field_type
            == FieldTypeView::Object(c.name@),
{
    assert(o.fields.push(field_of(c)).take(o.fields.len() as int) =~= o.fields);
}

/// Reading child nodes keeps the object's name and kind, and keeps the
/// fields it had, in front of those the children declare.
pub proof fn law_children_keep_object(o: ObjectView, cs: Seq<KdlNodeData>, n: int)
    requires
        0 <= n <= cs.len(),
    ensures
        children_applied(o, cs, n).name == o.name,
        children_applied(o, cs, n).base_type == o.base_type,
        children_applied(o, cs, n).fields.len() >= o.fields.len(),
        children_applied(o, cs, n).fields.take(o.fields.len() as int) == o.fields,
    decreases n,
{
    if n > 0 {
        law_children_keep_object(o, cs, n - 1);
        let p = children_applied(o, cs, n - 1);
        let c = cs[n - 1];
        let f = apply_child(p, c).fields;
        if f != p.fields {
            assert(f == p.fields.push(field_of(c)));
            assert(f.take(o.fields.len() as int) =~= p.fields.take(o.fields.len() as int));
        }
    }
}

/// An object read from a top-level node of kind `t` under the name `name`
/// has that name and the object kind of `t`.
pub proof fn law_object_identity(node: KdlNodeData, t: RootType, name: Seq<char>)
    ensures
        object_of(node, t, name).name == name,
        object_of(node, t, name).base_type == base_type_of(t),
{
    match node.children {
        Some(cs) => law_children_keep_object(
            object_from_entries(node, t, name),
            cs@,
            cs@.len() as int,
        ),
        None => {},
    }
}

/// The entries of an object node: the `title` property gives the title,
/// else the second argument does, else it is empty; the `icon` and
/// `description` properties give the icon and description, else they are
/// empty. A property that occurs twice counts by its last occurrence.
pub proof fn law_object_entries(node: KdlNodeData, t: RootType, name: Seq<char>)
    ensures
        ({
            let es = node.entries@;
            let o = object_from_entries(node, t, name);
            &&& (last_prop(es, "title"@) matches Some(e) ==> o.title == string_or_empty(e))
            &&& (last_prop(es, "title"@) is None ==> o.title == match nth_arg(es, 1) {
                Some(e) => string_or_empty(e),
                None => Seq::<char>::empty(),
            })
            &&& (last_prop(es, "icon"@) matches Some(e) ==> o.icon == string_or_empty(e))
            &&& (last_prop(es, "icon"@) is None ==> o.icon == Seq::<char>::empty())
            &&& (last_prop(es, "description"@) matches Some(e) ==> o.description
                == string_or_empty(e))
            &&& (last_prop(es, "description"@) is None ==> o.description == Seq::<char>::empty())
            &&& o.name == name
            &&& o.base_type == base_type_of(t)
            &&& o.fields.len() == 0
        }),
{
}

/// Each object node of a schema document is stored under its name: once
/// the `k`-th node, of an object kind, is read, and no later object node
/// declares the same name, the schema holds under that name the object the
/// node describes.
pub proof fn law_node_stored_under_name(s: SchemaView, nodes: Seq<KdlNodeData>, k: int, n: int)
    requires
        0 <= k < n <= nodes.len(),
        root_type_named(nodes[k].name@) matches Some(t) && t != RootType::Graphql,
        forall|m: int|
            k < m < n && (root_type_named((#[trigger] nodes[m]).name@) matches Some(u) && u
                != RootType::Graphql) ==> object_name_of(nodes[m]) != object_name_of(nodes[k]),
    ensures
        schema_upto(s, nodes, n).objects.contains_key(object_name_of(nodes[k])),
        schema_upto(s, nodes, n).objects[object_name_of(nodes[k])] == object_of(
            nodes[k],
            root_type_named(nodes[k].name@)->Some_0,
            object_name_of(nodes[k]),
        ),
    decreases n - k,
{
    let key = object_name_of(nodes[k]);
    if n == k + 1 {
        let t = root_type_named(nodes[k].name@)->Some_0;
        law_object_identity(nodes[k], t, key);
        crate::schema::law_lookup_after_add(
            schema_upto(s, nodes, k),
            object_of(nodes[k], t, key),
            key,
        );
    } else {
        law_node_stored_under_name(s, nodes, k, n - 1);
        let prev = schema_upto(s, nodes, n - 1);
        let node = nodes[n - 1];
        match root_type_named(node.name@) {
            Some(u) => {
                if u != RootType::Graphql {
                    let o = object_of(node, u, object_name_of(node));
                    law_object_identity(node, u, object_name_of(node));
                    crate::schema::law_lookup_after_add(prev, o, key);
                }
            },
            None => {},
        }
    }
}

/// Reads the object that a top-level node of kind `rtype` declares under
/// the name `name`.
fn handle_object(node: &KdlNodeData, rtype: RootType, name: &str) -> (r: Result<
    Object,
    SchemaError,
>)
    ensures
        match node.children {
            Some(cs) => match first_bad_child_from(cs@, 0) {
                Some(k) => r matches Err(e) && e@ == SchemaErrorView::MissingArgument(
                    cs@[k].name@,
                ),
                None => r matches Ok(o) && o@ == object_of(*node, rtype, name@),
            },
            None => r matches Ok(o) && o@ == object_of(*node, rtype, name@),
        },
{
    let mut o = Object::from_kdl(name, rtype.into_base_type());
    let es = &node.entries;
    match find_arg(es, 1) {
        Some(i) => o.title = string_or_default(&es[i]),
        None => {},
    }
    let ghost title0 = o.title@;
    let n = es.len();
    let mut i: usize = 0;
    while i < n
        invariant
            n == es@.len(),
            i <= n,
            title0 == arg_title(es@),
            o@ == (ObjectView {
                title: prop_or(es@, "title"@, i as int, title0),
                icon: prop_or(es@, "icon"@, i as int, seq![]),
                description: prop_or(es@, "description"@, i as int, seq![]),
                preview: prop_preview(es@, i as int),
                ..ObjectView::blank(name@, base_type_of(rtype))
            }),
        decreases n - i,
    {
        match &es[i].name {
            None => {},
            Some(key) => {
                let k = key.as_str();
                proof {
                    lemma_property_keys_distinct();
                }
                if str_eq(k, "title") {
                    o.title = string_or_default(&es[i]);
                } else if str_eq(k, "icon") {
                    o.icon = string_or_default(&es[i]);
                } else if str_eq(k, "description") {
                    o.description = string_or_default(&es[i]);
                } else if str_eq(k, "preview") {
                    o.preview = Preview::new(string_or_default(&es[i]));
                }
            },
        }
        i = i + 1;
    }
    match handle_object_fields(&mut o, &node.children) {
        Ok(()) => Ok(o),
        Err(e) => Err(e),
    }
}

impl Object {
    /// An object with the given name and kind, every other part empty.
    pub fn from_kdl(name: &str, base_type: BaseType) -> (r: Object)
        ensures
            r@ == ObjectView::blank(name@, base_type),
    {
        Self::new(name, base_type)
    }
}

/// Reads a schema named `name` with base `base` from the nodes of a KDL
/// document, node by node; the first node that cannot be read ends it.
pub fn schema_from_kdl(nodes: &Vec<KdlNodeData>, name: &str, base: std::path::PathBuf) -> (r:
    Result<Schema, SchemaError>)
    ensures
        outcome_view(r) == kdl_schema_outcome(nodes@, name@, base),
        r matches Ok(s) ==> s.wf(),
{
    let mut s = Schema::new(name, base);
    let ghost s0 = s@;
    let n = nodes.len();
    let mut i: usize = 0;
    while i < n
        invariant
            n == nodes@.len(),
            i <= n,
            s.wf(),
            first_error_from(nodes@, 0) == first_error_from(nodes@, i as int),
            s@ == schema_upto(s0, nodes@, i as int),
            s0 == SchemaView::empty(name@, base),
        decreases n - i,
    {
        let node = &nodes[i];
        match RootType::from_str(node.name.as_str()) {
            Err(_) => {
                return Err(SchemaError::UnknownRootType(node.name.clone()));
            },
            Ok(t) => {
                let oname: String = match find_arg(&node.entries, 0) {
                    Some(j) => match &node.entries[j].string {
                        Some(x) => x.clone(),
                        None => "object".to_owned(),
                    },
                    None => "anon".to_owned(),
                };
                match t {
                    RootType::Graphql => {},
                    _ => {
                        match handle_object(node, t, oname.as_str()) {
                            Ok(o) => s.add_object(o),
                            Err(e) => {
                                return Err(e);
                            },
                        }
                    },
                }
            },
        }
        i = i + 1;
    }
    Ok(s)
}

impl Schema {
    /// Reads a schema named `name` with base `base` from a KDL text: the
    /// text is parsed with the `kdl` crate, then read node by node (see
    /// [`schema_from_kdl`]).
    pub fn parse_kdl(doc_str: String, name: &str, base: &std::path::PathBuf) -> (r: Result<
        Schema,
        SchemaError,
    >)
        ensures
            match kdl_parse_outcome(doc_str@) {
                Ok(nodes) => outcome_view(r) == kdl_schema_outcome(nodes@, name@, *base),
                Err(m) => outcome_view(r) == Err::<SchemaView, SchemaErrorView>(
                    SchemaErrorView::Kdl(m@),
                ),
            },
            r matches Ok(s) ==> s.wf(),
    {
        match parse_kdl_nodes(doc_str.as_str()) {
            Ok(nodes) => schema_from_kdl(&nodes, name, base.clone()),
            Err(m) => Err(SchemaError::Kdl(m)),
        }
    }
}

} // verus!
