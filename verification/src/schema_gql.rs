//! The GraphQL schema that a content schema publishes, as a plan: the types
//! to register, in order, with their fields, arguments and the resolver
//! each field uses. The server turns the plan into `async-graphql` dynamic
//! types.

use vstd::prelude::*;
use vstd::string::StringExecFns;
use crate::schema::{
    BaseType, FieldType, FieldTypeView, Field, FieldView, Object, ObjectView, Schema, SchemaView,
    fields_view,
};

verus! {

/// A reference to a GraphQL type: by name, optionally non-null or a list.
#[derive(Debug, Clone)]
pub struct GqlTypeRef {
    pub name: String,
    pub non_null: bool,
    pub list: bool,
}

/// The view of a [`GqlTypeRef`].
pub struct TypeRefView {
    pub name: Seq<char>,
    pub non_null: bool,
    pub list: bool,
}

impl View for GqlTypeRef {
    type V = TypeRefView;

    open spec fn view(&self) -> TypeRefView {
        TypeRefView { name: self.name@, non_null: self.non_null, list: self.list }
    }
}

/// A nullable reference to the type named `n`.
pub open spec fn named(n: Seq<char>) -> TypeRefView {
    TypeRefView { name: n, non_null: false, list: false }
}

/// A non-null reference to the type named `n`.
pub open spec fn named_nn(n: Seq<char>) -> TypeRefView {
    TypeRefView { name: n, non_null: true, list: false }
}

/// A list of the type named `n`.
pub open spec fn named_list(n: Seq<char>) -> TypeRefView {
    TypeRefView { name: n, non_null: false, list: true }
}

fn type_ref(name: &str, non_null: bool, list: bool) -> (r: GqlTypeRef)
    ensures
        r@ == (TypeRefView { name: name@, non_null, list }),
{
    GqlTypeRef { name: name.to_owned(), non_null, list }
}

/// How a field's value is found.
#[derive(Debug, Clone, Copy, PartialEq, Eq, Structural)]
pub enum Resolver {
    /// A member of the parent document, as a string.
    Field,
    /// A member of an embedded object.
    ObjectField,
    /// An embedded object.
    Object,
    /// A document by identifier.
    Entity,
    /// All documents of a type.
    EntityList,
}

/// A named and typed argument, interface field or input field.
#[derive(Debug, Clone)]
pub struct GqlArg {
    pub name: String,
    pub ty: GqlTypeRef,
}

/// The view of a [`GqlArg`].
pub struct GqlArgView {
    pub name: Seq<char>,
    pub ty: TypeRefView,
}

impl View for GqlArg {
    type V = GqlArgView;

    open spec fn view(&self) -> GqlArgView {
        GqlArgView { name: self.name@, ty: self.ty@ }
    }
}

/// The views of a list of arguments.
pub open spec fn args_view(v: Seq<GqlArg>) -> Seq<GqlArgView> {
    v.map_values(|a: GqlArg| a@)
}

fn gql_arg(name: &str, ty: GqlTypeRef) -> (r: GqlArg)
    ensures
        r@ == (GqlArgView { name: name@, ty: ty@ }),
{
    GqlArg { name: name.to_owned(), ty }
}

/// A field of an object type.
#[derive(Debug, Clone)]
pub struct GqlField {
    pub name: String,
    pub ty: GqlTypeRef,
    pub resolver: Resolver,
    pub args: Vec<GqlArg>,
}

/// The view of a [`GqlField`].
pub struct GqlFieldView {
    pub name: Seq<char>,
    pub ty: TypeRefView,
    pub resolver: Resolver,
    pub args: Seq<GqlArgView>,
}

impl View for GqlField {
    type V = GqlFieldView;

    open spec fn view(&self) -> GqlFieldView {
        GqlFieldView {
            name: self.name@,
            ty: self.ty@,
            resolver: self.resolver,
            args: args_view(self.args@),
        }
    }
}

/// A field without arguments.
pub open spec fn plain_field(name: Seq<char>, ty: TypeRefView, resolver: Resolver) -> GqlFieldView {
    GqlFieldView { name, ty, resolver, args: seq![] }
}

fn gql_field(name: &str, ty: GqlTypeRef, resolver: Resolver) -> (r: GqlField)
    ensures
        r@ == plain_field(name@, ty@, resolver),
{
    let r = GqlField { name: name.to_owned(), ty, resolver, args: Vec::new() };
    assert(args_view(r.args@) =~= seq![]);
    r
}

/// The views of a list of fields.
pub open spec fn gql_fields_view(v: Seq<GqlField>) -> Seq<GqlFieldView> {
    v.map_values(|f: GqlField| f@)
}

/// An object type.
#[derive(Debug, Clone)]
pub struct GqlObject {
    pub name: String,
    pub description: Option<String>,
    pub interface_object: bool,
    pub implements: Vec<String>,
    pub key: Option<String>,
    pub fields: Vec<GqlField>,
}

/// The view of a [`GqlObject`].
pub struct GqlObjectView {
    pub name: Seq<char>,
    pub description: Option<Seq<char>>,
    pub interface_object: bool,
    pub implements: Seq<Seq<char>>,
    pub key: Option<Seq<char>>,
    pub fields: Seq<GqlFieldView>,
}

impl View for GqlObject {
    type V = GqlObjectView;

    open spec fn view(&self) -> GqlObjectView {
        GqlObjectView {
            name: self.name@,
            description: crate::schema::opt_view(self.description),
            interface_object: self.interface_object,
            implements: crate::schema::strings_view(self.implements@),
            key: crate::schema::opt_view(self.key),
            fields: gql_fields_view(self.fields@),
        }
    }
}

/// An interface type.
#[derive(Debug, Clone)]
pub struct GqlInterface {
    pub name: String,
    pub fields: Vec<GqlArg>,
}

/// An enum type.
#[derive(Debug, Clone)]
pub struct GqlEnum {
    pub name: String,
    pub items: Vec<String>,
}

/// An input object type.
#[derive(Debug, Clone)]
pub struct GqlInputObject {
    pub name: String,
    pub fields: Vec<GqlArg>,
}

/// A type to register.
#[derive(Debug, Clone)]
pub enum GqlType {
    Object(GqlObject),
    Interface(GqlInterface),
    Enum(GqlEnum),
    Input(GqlInputObject),
}

/// The view of a [`GqlType`].
pub enum GqlTypeView {
    Object(GqlObjectView),
    Interface { name: Seq<char>, fields: Seq<GqlArgView> },
    Enum { name: Seq<char>, items: Seq<Seq<char>> },
    Input { name: Seq<char>, fields: Seq<GqlArgView> },
}

impl View for GqlType {
    type V = GqlTypeView;

    open spec fn view(&self) -> GqlTypeView {
        match self {
            GqlType::Object(o) => GqlTypeView::Object(o@),
            GqlType::Interface(i) => GqlTypeView::Interface {
                name: i.name@,
                fields: args_view(i.fields@),
            },
            GqlType::Enum(e) => GqlTypeView::Enum {
                name: e.name@,
                items: crate::schema::strings_view(e.items@),
            },
            GqlType::Input(i) => GqlTypeView::Input { name: i.name@, fields: args_view(i.fields@) },
        }
    }
}

/// A GraphQL schema: the name of its query type and the types to register,
/// in order.
#[derive(Debug, Clone)]
pub struct GqlSchema {
    pub query: String,
    pub types: Vec<GqlType>,
}

/// The views of a list of types.
pub open spec fn types_view(v: Seq<GqlType>) -> Seq<GqlTypeView> {
    v.map_values(|t: GqlType| t@)
}

/// The GraphQL type a field type is published as: `Boolean`, `Int`, the
/// `slug` object, the named object, or `String` for every other type.
pub open spec fn type_ref_of(t: FieldTypeView) -> TypeRefView {
    match t {
        FieldTypeView::Boolean => named("Boolean"@),
        FieldTypeView::Slug => named("slug"@),
        FieldTypeView::Number => named("Int"@),
        FieldTypeView::Object(n) => named(n),
        _ => named("String"@),
    }
}

impl FieldType {
    /// The GraphQL type this field type is published as.
    pub fn to_graphql(&self) -> (r: GqlTypeRef)
        ensures
            r@ == type_ref_of(self@),
    {
        match self {
            FieldType::Boolean => type_ref("Boolean", false, false),
            FieldType::Slug => type_ref("slug", false, false),
            FieldType::Number => type_ref("Int", false, false),
            FieldType::Object(name) => type_ref(name.as_str(), false, false),
            _ => type_ref("String", false, false),
        }
    }
}

/// The GraphQL field of a schema field: embedded objects and slugs resolve
/// as objects, every other field as a member of the parent document.
pub open spec fn gql_field_of(f: FieldView) -> GqlFieldView {
    plain_field(
        f.name,
        type_ref_of(f.field_type),
        match f.field_type {
            FieldTypeView::Object(_) => Resolver::Object,
            FieldTypeView::Slug => Resolver::Object,
            _ => Resolver::Field,
        },
    )
}

impl Field {
    /// The GraphQL field this field is published as.
    pub fn to_graphql(&self) -> (r: GqlField)
        ensures
            r@ == gql_field_of(self@),
    {
        let resolver = match self.field_type {
            FieldType::Object(_) => Resolver::Object,
            FieldType::Slug => Resolver::Object,
            _ => Resolver::Field,
        };
        gql_field(self.name.as_str(), self.field_type.to_graphql(), resolver)
    }
}

/// The fields every document type has: `_id: ID!`, `_type: String!` and
/// `_rev: String!`.
pub open spec fn document_fields() -> Seq<GqlFieldView> {
    seq![
        plain_field("_id"@, named_nn("ID"@), Resolver::Field),
        plain_field("_type"@, named_nn("String"@), Resolver::Field),
        plain_field("_rev"@, named_nn("String"@), Resolver::Field),
    ]
}

/// The GraphQL object type of an object type: its fields, and for a
/// document type the document fields, the `Document` interface and the key
/// `_id`.
pub open spec fn gql_object_of(o: ObjectView) -> GqlObjectView {
    let is_doc = o.base_type == BaseType::Doc;
    GqlObjectView {
        name: o.name,
        description: Some(o.description),
        interface_object: false,
        implements: if is_doc {
            seq!["Document"@]
        } else {
            seq![]
        },
        key: if is_doc {
            Some("_id"@)
        } else {
            None
        },
        fields: o.fields.map_values(|f: FieldView| gql_field_of(f)) + if is_doc {
            document_fields()
        } else {
            seq![]
        },
    }
}

/// The query of one document by identifier: named like the object type,
/// of type `gql_type`, with the argument `id: ID!`.
pub open spec fn entity_query_of(o: ObjectView, gql_type: Seq<char>) -> GqlFieldView {
    GqlFieldView {
        name: o.name,
        ty: named(gql_type),
        resolver: Resolver::Entity,
        args: seq![GqlArgView { name: "id"@, ty: named_nn("ID"@) }],
    }
}

/// The query of all documents of a type: named `all` and the object type's
/// name, of type `gql_type`.
pub open spec fn list_query_of(o: ObjectView, gql_type: Seq<char>) -> GqlFieldView {
    plain_field("all"@ + o.name, named(gql_type), Resolver::EntityList)
}

impl Object {
    /// The GraphQL object type of this object type.
    pub fn to_graphql(&self) -> (r: GqlObject)
        ensures
            r@ == gql_object_of(self@),
    {
        let mut fields: Vec<GqlField> = Vec::new();
        let n = self.fields.len();
        let mut i: usize = 0;
        while i < n
            invariant
                n == self.fields@.len(),
                i <= n,
                gql_fields_view(fields@) == fields_view(self.fields@).take(i as int).map_values(
                    |f: FieldView| gql_field_of(f),
                ),
            decreases n - i,
        {
            let f = self.fields[i].to_graphql();
            let ghost prev = gql_fields_view(fields@);
            fields.push(f);
            assert(fields_view(self.fields@)[i as int] == self.fields@[i as int]@);
            assert(gql_fields_view(fields@) =~= prev.push(f@));
            assert(gql_fields_view(fields@) =~= fields_view(self.fields@).take(i + 1).map_values(
                |f: FieldView| gql_field_of(f),
            ));
            i = i + 1;
        }
        assert(fields_view(self.fields@).take(n as int) =~= fields_view(self.fields@));
        let ghost mapped = gql_fields_view(fields@);
        let is_doc = match self.base_type {
            BaseType::Doc => true,
            _ => false,
        };
        let mut implements: Vec<String> = Vec::new();
        let mut key: Option<String> = None;
        if is_doc {
            implements.push("Document".to_owned());
            key = Some("_id".to_owned());
            fields.push(gql_field("_id", type_ref("ID", true, false), Resolver::Field));
            fields.push(gql_field("_type", type_ref("String", true, false), Resolver::Field));
            fields.push(gql_field("_rev", type_ref("String", true, false), Resolver::Field));
            assert(gql_fields_view(fields@) =~= mapped + document_fields());
        } else {
            assert(gql_fields_view(fields@) =~= mapped + Seq::<GqlFieldView>::empty());
        }
        let r = GqlObject {
            name: self.name.clone(),
            description: Some(self.description.clone()),
            interface_object: false,
            implements,
            key,
            fields,
        };
        assert(crate::schema::strings_view(r.implements@) =~= gql_object_of(self@).implements);
        r
    }

    /// The query of one document of this type by identifier.
    pub fn to_graphql_entity_query(&self, gql_type: &str) -> (r: GqlField)
        ensures
            r@ == entity_query_of(self@, gql_type@),
    {
        let mut f = gql_field(self.name.as_str(), type_ref(gql_type, false, false), Resolver::Entity);
        f.args.push(gql_arg("id", type_ref("ID", true, false)));
        assert(args_view(f.args@) =~= seq![GqlArgView { name: "id"@, ty: named_nn("ID"@) }]);
        f
    }

    /// The query of all documents of this type.
    pub fn to_graphql_list_query(&self, gql_type: &str) -> (r: GqlField)
        ensures
            r@ == list_query_of(self@, gql_type@),
    {
        let mut name = "all".to_owned();
        name.append(self.name.as_str());
        gql_field(name.as_str(), type_ref(gql_type, false, false), Resolver::EntityList)
    }
}

/// The interface every document type implements.
pub open spec fn default_interfaces() -> Seq<GqlTypeView> {
    seq![
        GqlTypeView::Interface {
            name: "Document"@,
            fields: seq![
                GqlArgView { name: "_id"@, ty: named_nn("ID"@) },
                GqlArgView { name: "_type"@, ty: named_nn("String"@) },
                GqlArgView { name: "_rev"@, ty: named_nn("String"@) },
            ],
        },
    ]
}

/// The enums for sorting and filtering.
pub open spec fn default_enums() -> Seq<GqlTypeView> {
    seq![
        GqlTypeView::Enum { name: "SortOperator"@, items: seq!["ASC"@, "DESC"@] },
        GqlTypeView::Enum { name: "FilterOperator"@, items: seq!["eq"@, "ne"@] },
    ]
}

/// The object types every schema has: `slug`, `ref` and `hotspot`.
pub open spec fn default_types() -> Seq<GqlTypeView> {
    seq![
        GqlTypeView::Object(
            GqlObjectView {
                name: "slug"@,
                description: Some("A slug"@),
                interface_object: true,
                implements: seq![],
                key: None,
                fields: seq![plain_field("current"@, named("String"@), Resolver::ObjectField)],
            },
        ),
        GqlTypeView::Object(
            GqlObjectView {
                name: "ref"@,
                description: Some("reference another document"@),
                interface_object: false,
                implements: seq![],
                key: None,
                fields: seq![plain_field("_rev"@, named("ID"@), Resolver::Field)],
            },
        ),
        GqlTypeView::Object(
            GqlObjectView {
                name: "hotspot"@,
                description: Some("reference another document"@),
                interface_object: false,
                implements: seq![],
                key: None,
                fields: seq![
                    plain_field("x"@, named("Float"@), Resolver::Field),
                    plain_field("y"@, named("Float"@), Resolver::Field),
                    plain_field("width"@, named("Float"@), Resolver::Field),
                    plain_field("height"@, named("Float"@), Resolver::Field),
                ],
            },
        ),
    ]
}

/// The input type for filter conditions.
pub open spec fn default_inputs() -> Seq<GqlTypeView> {
    seq![
        GqlTypeView::Input {
            name: "FilterCondition"@,
            fields: seq![
                GqlArgView { name: "eq"@, ty: named("String"@) },
                GqlArgView { name: "ne"@, ty: named("String"@) },
                GqlArgView { name: "like"@, ty: named("String"@) },
                GqlArgView { name: "ilike"@, ty: named("String"@) },
                GqlArgView { name: "in"@, ty: named_list("String"@) },
                GqlArgView { name: "nin"@, ty: named_list("String"@) },
            ],
        },
    ]
}

/// The query fields for the objects: for each document type, in order, the
/// query of one document and the query of all.
pub open spec fn query_fields_of(objs: Seq<ObjectView>) -> Seq<GqlFieldView>
    decreases objs.len(),
{
    if objs.len() == 0 {
        seq![]
    } else {
        let o = objs.last();
        query_fields_of(objs.drop_last()) + if o.base_type == BaseType::Doc {
            seq![entity_query_of(o, o.name), list_query_of(o, o.name)]
        } else {
            seq![]
        }
    }
}

/// The query type: named `Query`, with the query fields of the objects.
pub open spec fn query_root_of(objs: Seq<ObjectView>) -> GqlObjectView {
    GqlObjectView {
        name: "Query"@,
        description: None,
        interface_object: false,
        implements: seq![],
        key: None,
        fields: query_fields_of(objs),
    }
}

/// The GraphQL schema of a list of object types: the default interfaces,
/// enums, object types and inputs, then the object type of each object,
/// then the query type.
pub open spec fn gql_schema_of(objs: Seq<ObjectView>) -> Seq<GqlTypeView> {
    default_interfaces() + default_enums() + default_types() + default_inputs() + objs.map_values(
        |o: ObjectView| GqlTypeView::Object(gql_object_of(o)),
    ) + seq![GqlTypeView::Object(query_root_of(objs))]
}

/// Every field type is published as a nullable, non-list reference: a
/// number as `Int`, a boolean as `Boolean`, a slug as the `slug` object, an
/// object type as the object named by it, and every other field type as
/// `String`.
pub proof fn law_field_type_publishing(t: FieldTypeView)
    ensures
        !type_ref_of(t).non_null,
        !type_ref_of(t).list,
        t == FieldTypeView::Number ==> type_ref_of(t).name == "Int"@,
        t == FieldTypeView::Boolean ==> type_ref_of(t).name == "Boolean"@,
        t == FieldTypeView::Slug ==> type_ref_of(t).name == "slug"@,
        t matches FieldTypeView::Object(n) ==> type_ref_of(t).name == n,
        !(t is Number || t is Boolean || t is Slug || t is Object) ==> type_ref_of(t).name
            == "String"@,
{
}

/// A field is published under its own name, with no arguments, as a
/// reference to the type its field type is published as. A field of an
/// object type or of the slug type resolves as an embedded object, every
/// other field as a member of the parent document; a number field has the
/// type `Int`.
pub proof fn law_field_publishing(f: FieldView)
    ensures
        gql_field_of(f).name == f.name,
        gql_field_of(f).args.len() == 0,
        gql_field_of(f).ty == type_ref_of(f.field_type),
        f.field_type == FieldTypeView::Number ==> gql_field_of(f).ty == (TypeRefView {
            name: "Int"@,
            non_null: false,
            list: false,
        }),
        f.field_type matches FieldTypeView::Object(n) ==> gql_field_of(f).resolver
            == Resolver::Object && gql_field_of(f).ty == (TypeRefView {
            name: n,
            non_null: false,
            list: false,
        }),
        f.field_type == FieldTypeView::Slug ==> gql_field_of(f).resolver == Resolver::Object,
        !(f.field_type is Object || f.field_type is Slug) ==> gql_field_of(f).resolver
            == Resolver::Field,
{
}

/// In the published schema, the object type of the `j`-th object stands
/// right after the default types; it is named like the object and its
/// `i`-th field is the published `i`-th field of the object: a number field
/// of type `Int`, a field of object type `n` resolved as an embedded object
/// of type `n`.
pub proof fn law_schema_publishes_fields(objs: Seq<ObjectView>, j: int, i: int)
    requires
        0 <= j < objs.len(),
        0 <= i < objs[j].fields.len(),
    ensures
        ({
            let base = default_interfaces().len() + default_enums().len() + default_types().len()
                + default_inputs().len();
            let f = objs[j].fields[i];
            &&& gql_schema_of(objs)[base + j] matches GqlTypeView::Object(g)
            &&& g.name == objs[j].name
            &&& g.fields[i] == gql_field_of(f)
            &&& g.fields[i].name == f.name
            &&& (f.field_type == FieldTypeView::Number ==> g.fields[i].ty.name == "Int"@)
            &&& (f.field_type matches FieldTypeView::Object(n) ==> g.fields[i].resolver
                == Resolver::Object && g.fields[i].ty.name == n)
        }),
{
    let base = default_interfaces().len() + default_enums().len() + default_types().len()
        + default_inputs().len();
    let pre = default_interfaces() + default_enums() + default_types() + default_inputs();
    let mapped = objs.map_values(|o: ObjectView| GqlTypeView::Object(gql_object_of(o)));
    assert(pre.len() == base);
    assert(gql_schema_of(objs) == pre + mapped + seq![GqlTypeView::Object(query_root_of(objs))]);
    assert(gql_schema_of(objs)[base + j] == mapped[j]);
    let g = gql_object_of(objs[j]);
    assert(g.fields[i] == objs[j].fields.map_values(|f: FieldView| gql_field_of(f))[i]);
    law_field_publishing(objs[j].fields[i]);
}

/// The object type of an object is named like it and described by its
/// description, and publishes its fields first, in order. A document type
/// also implements `Document`, is keyed by `_id`, and ends with the fields
/// `_id: ID!`, `_type: String!` and `_rev: String!`; any other object type
/// has no interface, no key and no further field.
pub proof fn law_object_publishing(o: ObjectView)
    ensures
        gql_object_of(o).name == o.name,
        gql_object_of(o).description == Some(o.description),
        !gql_object_of(o).interface_object,
        forall|i: int|
            0 <= i < o.fields.len() ==> #[trigger] gql_object_of(o).fields[i] == gql_field_of(
                o.fields[i],
            ),
        o.base_type == BaseType::Doc ==> {
            let g = gql_object_of(o);
            let n = o.fields.len() as int;
            &&& g.implements == seq!["Document"@]
            &&& g.key == Some("_id"@)
            &&& g.fields.len() == n + 3
            &&& g.fields[n] == (GqlFieldView {
                name: "_id"@,
                ty: TypeRefView { name: "ID"@, non_null: true, list: false },
                resolver: Resolver::Field,
                args: seq![],
            })
            &&& g.fields[n + 1] == (GqlFieldView {
                name: "_type"@,
                ty: TypeRefView { name: "String"@, non_null: true, list: false },
                resolver: Resolver::Field,
                args: seq![],
            })
            &&& g.fields[n + 2] == (GqlFieldView {
                name: "_rev"@,
                ty: TypeRefView { name: "String"@, non_null: true, list: false },
                resolver: Resolver::Field,
                args: seq![],
            })
        },
        o.base_type != BaseType::Doc ==> {
            let g = gql_object_of(o);
            &&& g.implements == Seq::<Seq<char>>::empty()
            &&& g.key is None
            &&& g.fields.len() == o.fields.len()
        },
{
    let mapped = o.fields.map_values(|f: FieldView| gql_field_of(f));
    if o.base_type == BaseType::Doc {
        assert(gql_object_of(o).fields == mapped + document_fields());
    } else {
        assert(gql_object_of(o).fields == mapped + Seq::<GqlFieldView>::empty());
    }
}

/// For each document type among the objects, the query type has, side by
/// side, the query of one document by `id: ID!`, named like the type, and
/// the query of all documents, named `all` and the type's name; both have
/// the document type as their type.
pub proof fn law_query_has_document_queries(objs: Seq<ObjectView>, j: int)
    requires
        0 <= j < objs.len(),
        objs[j].base_type == BaseType::Doc,
    ensures
        exists|p: int|
            0 <= p && p + 1 < query_fields_of(objs).len() && #[trigger] query_fields_of(objs)[p]
                == (GqlFieldView {
                name: objs[j].name,
                ty: TypeRefView { name: objs[j].name, non_null: false, list: false },
                resolver: Resolver::Entity,
                args: seq![
                    GqlArgView {
                        name: "id"@,
                        ty: TypeRefView { name: "ID"@, non_null: true, list: false },
                    },
                ],
            }) && query_fields_of(objs)[p + 1] == (GqlFieldView {
                name: "all"@ + objs[j].name,
                ty: TypeRefView { name: objs[j].name, non_null: false, list: false },
                resolver: Resolver::EntityList,
                args: seq![],
            }),
    decreases objs.len(),
{
    let rest = objs.drop_last();
    let o = objs.last();
    let tail: Seq<GqlFieldView> = if o.base_type == BaseType::Doc {
        seq![entity_query_of(o, o.name), list_query_of(o, o.name)]
    } else {
        seq![]
    };
    assert(query_fields_of(objs) == query_fields_of(rest) + tail);
    if j == objs.len() - 1 {
        let p = query_fields_of(rest).len() as int;
        assert(query_fields_of(objs)[p] == tail[0]);
        assert(query_fields_of(objs)[p + 1] == tail[1]);
    } else {
        assert(rest[j] == objs[j]);
        law_query_has_document_queries(rest, j);
        let p = choose|p: int|
            0 <= p && p + 1 < query_fields_of(rest).len() && #[trigger] query_fields_of(rest)[p]
                == (GqlFieldView {
                name: objs[j].name,
                ty: TypeRefView { name: objs[j].name, non_null: false, list: false },
                resolver: Resolver::Entity,
                args: seq![
                    GqlArgView {
                        name: "id"@,
                        ty: TypeRefView { name: "ID"@, non_null: true, list: false },
                    },
                ],
            }) && query_fields_of(rest)[p + 1] == (GqlFieldView {
                name: "all"@ + objs[j].name,
                ty: TypeRefView { name: objs[j].name, non_null: false, list: false },
                resolver: Resolver::EntityList,
                args: seq![],
            });
        assert(query_fields_of(objs)[p] == query_fields_of(rest)[p]);
        assert(query_fields_of(objs)[p + 1] == query_fields_of(rest)[p + 1]);
    }
}

/// The published schema ends with the query type, named `Query`, whose
/// fields are the queries of the document types.
pub proof fn law_schema_ends_with_query(objs: Seq<ObjectView>)
    ensures
        gql_schema_of(objs).last() == GqlTypeView::Object(
            GqlObjectView {
                name: "Query"@,
                description: None,
                interface_object: false,
                implements: seq![],
                key: None,
                fields: query_fields_of(objs),
            },
        ),
{
}

fn object_type(
    name: &str,
    description: &str,
    interface_object: bool,
    fields: Vec<GqlField>,
) -> (r: GqlType)
    ensures
        r@ == GqlTypeView::Object(
            GqlObjectView {
                name: name@,
                description: Some(description@),
                interface_object,
                implements: seq![],
                key: None,
                fields: gql_fields_view(fields@),
            },
        ),
{
    let r = GqlObject {
        name: name.to_owned(),
        description: Some(description.to_owned()),
        interface_object,
        implements: Vec::new(),
        key: None,
        fields,
    };
    assert(crate::schema::strings_view(r.implements@) =~= seq![]);
    GqlType::Object(r)
}

/// Appends the default interfaces, enums, object types and inputs.
fn push_defaults(types: &mut Vec<GqlType>)
    ensures
        types_view(final(types)@) == types_view(old(types)@) + default_interfaces()
            + default_enums() + default_types() + default_inputs(),
{
    let ghost start = types_view(types@);
    let iface = vec![
        gql_arg("_id", type_ref("ID", true, false)),
        gql_arg("_type", type_ref("String", true, false)),
        gql_arg("_rev", type_ref("String", true, false)),
    ];
    assert(args_view(iface@) =~= seq![
        GqlArgView { name: "_id"@, ty: named_nn("ID"@) },
        GqlArgView { name: "_type"@, ty: named_nn("String"@) },
        GqlArgView { name: "_rev"@, ty: named_nn("String"@) },
    ]);
    types.push(GqlType::Interface(GqlInterface { name: "Document".to_owned(), fields: iface }));
    let sort = vec!["ASC".to_owned(), "DESC".to_owned()];
    assert(crate::schema::strings_view(sort@) =~= seq!["ASC"@, "DESC"@]);
    types.push(GqlType::Enum(GqlEnum { name: "SortOperator".to_owned(), items: sort }));
    let filter = vec!["eq".to_owned(), "ne".to_owned()];
    assert(crate::schema::strings_view(filter@) =~= seq!["eq"@, "ne"@]);
    types.push(GqlType::Enum(GqlEnum { name: "FilterOperator".to_owned(), items: filter }));
    let slug_fields = vec![gql_field("current", type_ref("String", false, false), Resolver::ObjectField)];
    assert(gql_fields_view(slug_fields@) =~= seq![
        plain_field("current"@, named("String"@), Resolver::ObjectField),
    ]);
    types.push(object_type("slug", "A slug", true, slug_fields));
    let ref_fields = vec![gql_field("_rev", type_ref("ID", false, false), Resolver::Field)];
    assert(gql_fields_view(ref_fields@) =~= seq![
        plain_field("_rev"@, named("ID"@), Resolver::Field),
    ]);
    types.push(object_type("ref", "reference another document", false, ref_fields));
    let hotspot_fields = vec![
        gql_field("x", type_ref("Float", false, false), Resolver::Field),
        gql_field("y", type_ref("Float", false, false), Resolver::Field),
        gql_field("width", type_ref("Float", false, false), Resolver::Field),
        gql_field("height", type_ref("Float", false, false), Resolver::Field),
    ];
    assert(gql_fields_view(hotspot_fields@) =~= seq![
        plain_field("x"@, named("Float"@), Resolver::Field),
        plain_field("y"@, named("Float"@), Resolver::Field),
        plain_field("width"@, named("Float"@), Resolver::Field),
        plain_field("height"@, named("Float"@), Resolver::Field),
    ]);
    types.push(object_type("hotspot", "reference another document", false, hotspot_fields));
    let inputs = vec![
        gql_arg("eq", type_ref("String", false, false)),
        gql_arg("ne", type_ref("String", false, false)),
        gql_arg("like", type_ref("String", false, false)),
        gql_arg("ilike", type_ref("String", false, false)),
        gql_arg("in", type_ref("String", false, true)),
        gql_arg("nin", type_ref("String", false, true)),
    ];
    assert(args_view(inputs@) =~= seq![
        GqlArgView { name: "eq"@, ty: named("String"@) },
        GqlArgView { name: "ne"@, ty: named("String"@) },
        GqlArgView { name: "like"@, ty: named("String"@) },
        GqlArgView { name: "ilike"@, ty: named("String"@) },
        GqlArgView { name: "in"@, ty: named_list("String"@) },
        GqlArgView { name: "nin"@, ty: named_list("String"@) },
    ]);
    types.push(GqlType::Input(GqlInputObject { name: "FilterCondition".to_owned(), fields: inputs }));
    assert(types_view(types@) =~= start + default_interfaces() + default_enums() + default_types()
        + default_inputs());
}

impl Schema {
    /// The GraphQL schema this schema publishes: the default types, the
    /// object type of each stored object in storage order, and the query
    /// type with a query of one and a query of all documents for each
    /// document type.
    pub fn build_gql_schema(&self) -> (r: GqlSchema)
        ensures
            r.query@ == "Query"@,
            types_view(r.types@) == gql_schema_of(self.object_list()),
    {
        let mut types: Vec<GqlType> = Vec::new();
        push_defaults(&mut types);
        let ghost base = types_view(types@);
        let mut query_fields: Vec<GqlField> = Vec::new();
        let n = self.object_count();
        let mut i: usize = 0;
        while i < n
            invariant
                i <= n,
                self.object_list().len() == n,
                types_view(types@) == base + self.object_list().take(i as int).map_values(
                    |o: ObjectView| GqlTypeView::Object(gql_object_of(o)),
                ),
                gql_fields_view(query_fields@) == query_fields_of(self.object_list().take(i as int)),
            decreases n - i,
        {
            let obj = self.object_at(i);
            let gobj = obj.to_graphql();
            let gtype = gobj.name.clone();
            let ghost prev_t = types_view(types@);
            let ghost gv = gobj@;
            types.push(GqlType::Object(gobj));
            assert(types_view(types@) =~= prev_t.push(GqlTypeView::Object(gv)));
            let ghost before_q = gql_fields_view(query_fields@);
            match obj.base_type {
                BaseType::Doc => {
                    query_fields.push(obj.to_graphql_entity_query(gtype.as_str()));
                    query_fields.push(obj.to_graphql_list_query(gtype.as_str()));
                },
                _ => {},
            }
            let ghost objs = self.object_list();
            assert(objs.take(i + 1).drop_last() =~= objs.take(i as int));
            assert(objs.take(i + 1).last() == obj@);
            assert(objs.take(i + 1).map_values(|o: ObjectView| GqlTypeView::Object(gql_object_of(o)))
                =~= objs.take(i as int).map_values(|o: ObjectView| GqlTypeView::Object(gql_object_of(o))).push(
                GqlTypeView::Object(gql_object_of(obj@)),
            ));
            assert(gql_fields_view(query_fields@) =~= query_fields_of(objs.take(i + 1)));
            assert(types_view(types@) =~= base + objs.take(i + 1).map_values(
                |o: ObjectView| GqlTypeView::Object(gql_object_of(o)),
            ));
            i = i + 1;
        }
        assert(self.object_list().take(n as int) =~= self.object_list());
        let ghost before = types_view(types@);
        let root = GqlObject {
            name: "Query".to_owned(),
            description: None,
            interface_object: false,
            implements: Vec::new(),
            key: None,
            fields: query_fields,
        };
        assert(crate::schema::strings_view(root.implements@) =~= seq![]);
        assert(root@ == query_root_of(self.object_list()));
        types.push(GqlType::Object(root));
        assert(types_view(types@) =~= gql_schema_of(self.object_list()));
        GqlSchema { query: "Query".to_owned(), types }
    }
}

} // verus!
