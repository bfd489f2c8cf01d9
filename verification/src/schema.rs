//! The content schema: object types, their fields and previews, and the
//! schema that collects them by name.

use vstd::prelude::*;
use crate::text::str_eq;

verus! {

#[verifier::external_type_specification]
#[verifier::external_body]
pub struct ExPathBuf(std::path::PathBuf);

/// `PathBuf::clone` (std) gives the same path.
pub assume_specification[ <std::path::PathBuf as Clone>::clone ](p: &std::path::PathBuf) -> (r:
    std::path::PathBuf)
    ensures
        r == *p,
;

/// Copies a string with std's `String::clone`.
pub fn copy_string(s: &String) -> (r: String)
    ensures
        r@ == s@,
{
    s.clone()
}

/// The character sequences of a list of strings.
pub open spec fn strings_view(v: Seq<String>) -> Seq<Seq<char>> {
    v.map_values(|s: String| s@)
}

/// The character sequence of an optional string.
pub open spec fn opt_view(o: Option<String>) -> Option<Seq<char>> {
    match o {
        Some(s) => Some(s@),
        None => None,
    }
}

/// The kind of an object type.
#[derive(Clone, Copy, Debug, PartialEq, Eq, Structural)]
pub enum BaseType {
    Doc,
    Object,
    Image,
    File,
    Action,
}

impl Default for BaseType {
    fn default() -> (r: Self)
        ensures
            r == BaseType::Object,
    {
        BaseType::Object
    }
}

/// The kind of an object, with a custom kind named by a string.
#[derive(Debug, Clone)]
pub enum ObjectType {
    Doc,
    Object,
    Image,
    Custom(String),
}

/// The view of an [`ObjectType`].
pub enum ObjectTypeView {
    Doc,
    Object,
    Image,
    Custom(Seq<char>),
}

impl View for ObjectType {
    type V = ObjectTypeView;

    open spec fn view(&self) -> ObjectTypeView {
        match self {
            ObjectType::Doc => ObjectTypeView::Doc,
            ObjectType::Object => ObjectTypeView::Object,
            ObjectType::Image => ObjectTypeView::Image,
            ObjectType::Custom(s) => ObjectTypeView::Custom(s@),
        }
    }
}

impl Default for ObjectType {
    fn default() -> (r: Self)
        ensures
            r@ == ObjectTypeView::Object,
    {
        ObjectType::Object
    }
}

/// The type of a field of an object.
#[derive(Debug, Clone)]
pub enum FieldType {
    Array,
    Bloc,
    Boolean,
    Date,
    Datetime,
    File,
    Geopoint,
    Image,
    Number,
    Reference,
    Slug,
    Span,
    String,
    Text,
    Url,
    Object(String),
}

/// The view of a [`FieldType`]: a custom object type is named by its
/// characters.
pub enum FieldTypeView {
    Array,
    Bloc,
    Boolean,
    Date,
    Datetime,
    File,
    Geopoint,
    Image,
    Number,
    Reference,
    Slug,
    Span,
    String,
    Text,
    Url,
    Object(Seq<char>),
}

impl View for FieldType {
    type V = FieldTypeView;

    open spec fn view(&self) -> FieldTypeView {
        match self {
            FieldType::Array => FieldTypeView::Array,
            FieldType::Bloc => FieldTypeView::Bloc,
            FieldType::Boolean => FieldTypeView::Boolean,
            FieldType::Date => FieldTypeView::Date,
            FieldType::Datetime => FieldTypeView::Datetime,
            FieldType::File => FieldTypeView::File,
            FieldType::Geopoint => FieldTypeView::Geopoint,
            FieldType::Image => FieldTypeView::Image,
            FieldType::Number => FieldTypeView::Number,
            FieldType::Reference => FieldTypeView::Reference,
            FieldType::Slug => FieldTypeView::Slug,
            FieldType::Span => FieldTypeView::Span,
            FieldType::String => FieldTypeView::String,
            FieldType::Text => FieldTypeView::Text,
            FieldType::Url => FieldTypeView::Url,
            FieldType::Object(s) => FieldTypeView::Object(s@),
        }
    }
}

impl Default for FieldType {
    fn default() -> (r: Self)
        ensures
            r@ == FieldTypeView::String,
    {
        FieldType::String
    }
}

/// Options of a field (none are defined yet).
#[derive(Debug, Clone, Copy, PartialEq, Eq, Structural, Default)]
pub struct FieldOptions {}

/// Validation rules of a field (none are defined yet).
#[derive(Debug, Clone, Copy, PartialEq, Eq, Structural, Default)]
pub struct FieldValidations {}

/// An action on an object (none are defined yet).
#[derive(Debug, Clone, Copy, PartialEq, Eq, Structural, Default)]
pub struct Action {}

/// How a document is previewed in listings.
#[derive(Debug, Clone)]
pub struct Preview {
    pub title: String,
    pub subtitle: Option<String>,
    pub media: Option<String>,
    pub select: Vec<String>,
    pub fun: Option<String>,
}

/// The view of a [`Preview`].
pub struct PreviewView {
    pub title: Seq<char>,
    pub subtitle: Option<Seq<char>>,
    pub media: Option<Seq<char>>,
    pub select: Seq<Seq<char>>,
    pub fun: Option<Seq<char>>,
}

impl PreviewView {
    /// A preview with the given title and nothing else.
    pub open spec fn titled(title: Seq<char>) -> PreviewView {
        PreviewView { title, subtitle: None, media: None, select: seq![], fun: None }
    }
}

impl View for Preview {
    type V = PreviewView;

    open spec fn view(&self) -> PreviewView {
        PreviewView {
            title: self.title@,
            subtitle: opt_view(self.subtitle),
            media: opt_view(self.media),
            select: strings_view(self.select@),
            fun: opt_view(self.fun),
        }
    }
}

impl Preview {
    /// A preview with the given title and nothing else.
    pub fn new(title: String) -> (r: Preview)
        ensures
            r@ == PreviewView::titled(title@),
    {
        let r = Preview { title, subtitle: None, media: None, select: Vec::new(), fun: None };
        assert(strings_view(r.select@) =~= seq![]);
        r
    }
}

impl Default for Preview {
    fn default() -> (r: Self)
        ensures
            r@ == PreviewView::titled(seq![]),
    {
        Preview::new(String::new())
    }
}

/// A field of an object type.
#[derive(Debug, Clone)]
pub struct Field {
    pub name: String,
    pub field_type: FieldType,
    pub title: String,
    pub description: String,
    pub hidden: bool,
    pub read_only: bool,
    pub component: String,
    pub to: Vec<String>,
    pub of: Vec<String>,
    pub options: FieldOptions,
    pub initital_value: String,
    pub validation: FieldValidations,
}

/// The view of a [`Field`].
pub struct FieldView {
    pub name: Seq<char>,
    pub field_type: FieldTypeView,
    pub title: Seq<char>,
    pub description: Seq<char>,
    pub hidden: bool,
    pub read_only: bool,
    pub component: Seq<char>,
    pub to: Seq<Seq<char>>,
    pub of: Seq<Seq<char>>,
    pub options: FieldOptions,
    pub initital_value: Seq<char>,
    pub validation: FieldValidations,
}

impl FieldView {
    /// A field with the given name and type, every other part empty.
    pub open spec fn blank(name: Seq<char>, field_type: FieldTypeView) -> FieldView {
        FieldView {
            name,
            field_type,
            title: seq![],
            description: seq![],
            hidden: false,
            read_only: false,
            component: seq![],
            to: seq![],
            of: seq![],
            options: FieldOptions {},
            initital_value: seq![],
            validation: FieldValidations {},
        }
    }
}

impl View for Field {
    type V = FieldView;

    open spec fn view(&self) -> FieldView {
        FieldView {
            name: self.name@,
            field_type: self.field_type@,
            title: self.title@,
            description: self.description@,
            hidden: self.hidden,
            read_only: self.read_only,
            component: self.component@,
            to: strings_view(self.to@),
            of: strings_view(self.of@),
            options: self.options,
            initital_value: self.initital_value@,
            validation: self.validation,
        }
    }
}

impl Field {
    /// A field with the given name and type, every other part empty.
    pub fn new(name: &str, field_type: FieldType) -> (r: Field)
        ensures
            r@ == FieldView::blank(name@, field_type@),
    {
        let r = Field {
            name: name.to_owned(),
            field_type,
            title: String::new(),
            description: String::new(),
            hidden: false,
            read_only: false,
            component: String::new(),
            to: Vec::new(),
            of: Vec::new(),
            options: FieldOptions {},
            initital_value: String::new(),
            validation: FieldValidations {},
        };
        assert(strings_view(r.to@) =~= seq![]);
        assert(strings_view(r.of@) =~= seq![]);
        r
    }
}

impl Default for Field {
    fn default() -> (r: Self)
        ensures
            r@ == FieldView::blank(seq![], FieldTypeView::String),
    {
        proof {
            reveal_strlit("");
            assert(""@ =~= Seq::<char>::empty());
        }
        Field::new("", FieldType::String)
    }
}

/// An object type of the schema.
#[derive(Debug, Clone)]
pub struct Object {
    pub name: String,
    pub base_type: BaseType,
    pub title: String,
    pub description: String,
    pub preview: Preview,
    pub icon: String,
    pub fields: Vec<Field>,
    pub actions: Vec<Action>,
}

/// The view of an [`Object`].
pub struct ObjectView {
    pub name: Seq<char>,
    pub base_type: BaseType,
    pub title: Seq<char>,
    pub description: Seq<char>,
    pub preview: PreviewView,
    pub icon: Seq<char>,
    pub fields: Seq<FieldView>,
    pub actions: Seq<Action>,
}

impl ObjectView {
    /// An object with the given name and kind, every other part empty.
    pub open spec fn blank(name: Seq<char>, base_type: BaseType) -> ObjectView {
        ObjectView {
            name,
            base_type,
            title: seq![],
            description: seq![],
            preview: PreviewView::titled(seq![]),
            icon: seq![],
            fields: seq![],
            actions: seq![],
        }
    }
}

/// The views of a list of fields.
pub open spec fn fields_view(v: Seq<Field>) -> Seq<FieldView> {
    v.map_values(|f: Field| f@)
}

impl View for Object {
    type V = ObjectView;

    open spec fn view(&self) -> ObjectView {
        ObjectView {
            name: self.name@,
            base_type: self.base_type,
            title: self.title@,
            description: self.description@,
            preview: self.preview@,
            icon: self.icon@,
            fields: fields_view(self.fields@),
            actions: self.actions@,
        }
    }
}

impl Object {
    /// An object with the given name and kind, every other part empty.
    pub fn new(name: &str, base_type: BaseType) -> (r: Object)
        ensures
            r@ == ObjectView::blank(name@, base_type),
    {
        let r = Object {
            name: name.to_owned(),
            base_type,
            title: String::new(),
            description: String::new(),
            preview: Preview::new(String::new()),
            icon: String::new(),
            fields: Vec::new(),
            actions: Vec::new(),
        };
        assert(fields_view(r.fields@) =~= seq![]);
        assert(r.actions@ =~= seq![]);
        r
    }
}

impl Default for Object {
    fn default() -> (r: Self)
        ensures
            r@ == ObjectView::blank(seq![], BaseType::Object),
    {
        proof {
            reveal_strlit("");
            assert(""@ =~= Seq::<char>::empty());
        }
        Object::new("", BaseType::Object)
    }
}

/// The objects of a list keyed by their names; where two share a name the
/// later one counts.
pub open spec fn object_map(objs: Seq<ObjectView>) -> Map<Seq<char>, ObjectView>
    decreases objs.len(),
{
    if objs.len() == 0 {
        Map::empty()
    } else {
        object_map(objs.drop_last()).insert(objs.last().name, objs.last())
    }
}

/// No two objects of the list share a name.
pub open spec fn names_distinct(objs: Seq<ObjectView>) -> bool {
    forall|i: int, j: int|
        0 <= i < objs.len() && 0 <= j < objs.len() && i != j ==> #[trigger] objs[i].name
            != #[trigger] objs[j].name
}

/// The views of a list of objects.
pub open spec fn objects_view(v: Seq<Object>) -> Seq<ObjectView> {
    v.map_values(|o: Object| o@)
}

/// A name is a key of the map exactly when some object of the list has it.
pub proof fn lemma_object_map_dom(objs: Seq<ObjectView>, k: Seq<char>)
    ensures
        object_map(objs).contains_key(k) <==> exists|i: int|
            0 <= i < objs.len() && #[trigger] objs[i].name == k,
    decreases objs.len(),
{
    if objs.len() > 0 {
        let init = objs.drop_last();
        lemma_object_map_dom(init, k);
        if exists|i: int| 0 <= i < init.len() && #[trigger] init[i].name == k {
            let i = choose|i: int| 0 <= i < init.len() && #[trigger] init[i].name == k;
            assert(objs[i].name == k);
        }
        if exists|i: int| 0 <= i < objs.len() && #[trigger] objs[i].name == k {
            let i = choose|i: int| 0 <= i < objs.len() && #[trigger] objs[i].name == k;
            if i < objs.len() - 1 {
                assert(init[i].name == k);
            }
        }
    }
}

/// With distinct names, each object is found under its own name.
pub proof fn lemma_object_map_at(objs: Seq<ObjectView>, i: int)
    requires
        names_distinct(objs),
        0 <= i < objs.len(),
    ensures
        object_map(objs).contains_key(objs[i].name),
        object_map(objs)[objs[i].name] == objs[i],
    decreases objs.len(),
{
    if i < objs.len() - 1 {
        let init = objs.drop_last();
        assert(init[i] == objs[i]);
        assert(names_distinct(init)) by {
            assert forall|a: int, b: int|
                0 <= a < init.len() && 0 <= b < init.len() && a != b implies #[trigger] init[a].name
                != #[trigger] init[b].name by {
                assert(init[a] == objs[a] && init[b] == objs[b]);
            }
        }
        lemma_object_map_at(init, i);
        assert(objs[i].name != objs.last().name);
    }
}

/// Replacing the object at an index by one of the same name updates the map
/// at that name and nowhere else.
proof fn lemma_object_map_update(objs: Seq<ObjectView>, j: int, o: ObjectView)
    requires
        names_distinct(objs),
        0 <= j < objs.len(),
        objs[j].name == o.name,
    ensures
        names_distinct(objs.update(j, o)),
        object_map(objs.update(j, o)) == object_map(objs).insert(o.name, o),
{
    let new = objs.update(j, o);
    assert(names_distinct(new)) by {
        assert forall|a: int, b: int|
            0 <= a < new.len() && 0 <= b < new.len() && a != b implies #[trigger] new[a].name
            != #[trigger] new[b].name by {
            assert(new[a].name == objs[a].name && new[b].name == objs[b].name);
        }
    }
    let lhs = object_map(new);
    let rhs = object_map(objs).insert(o.name, o);
    assert forall|k: Seq<char>| #[trigger] lhs.contains_key(k) <==> rhs.contains_key(k) by {
        lemma_object_map_dom(new, k);
        lemma_object_map_dom(objs, k);
        if exists|i: int| 0 <= i < new.len() && #[trigger] new[i].name == k {
            let i = choose|i: int| 0 <= i < new.len() && #[trigger] new[i].name == k;
            assert(objs[i].name == k);
        }
        if exists|i: int| 0 <= i < objs.len() && #[trigger] objs[i].name == k {
            let i = choose|i: int| 0 <= i < objs.len() && #[trigger] objs[i].name == k;
            assert(new[i].name == k);
        }
    }
    assert forall|k: Seq<char>| #[trigger] lhs.contains_key(k) implies lhs[k] == rhs[k] by {
        lemma_object_map_dom(new, k);
        let i = choose|i: int| 0 <= i < new.len() && #[trigger] new[i].name == k;
        lemma_object_map_at(new, i);
        if i != j {
            lemma_object_map_at(objs, i);
        }
    }
    assert(lhs =~= rhs);
}

/// The object type collection of a dataset.
#[derive(Debug, Clone)]
pub struct Schema {
    pub base: std::path::PathBuf,
    pub name: String,
    pub objects: Vec<Object>,
    image_types: Vec<String>,
    file_types: Vec<String>,
    pub object_types: Vec<String>,
    reference_types: Vec<String>,
    pub document_types: Vec<String>,
}

/// The view of a [`Schema`]: its objects keyed by name, and the names of
/// the objects of each kind in the order they were added.
#[verifier::ext_equal]
pub struct SchemaView {
    pub base: std::path::PathBuf,
    pub name: Seq<char>,
    pub objects: Map<Seq<char>, ObjectView>,
    pub image_types: Seq<Seq<char>>,
    pub file_types: Seq<Seq<char>>,
    pub object_types: Seq<Seq<char>>,
    pub reference_types: Seq<Seq<char>>,
    pub document_types: Seq<Seq<char>>,
}

impl SchemaView {
    /// The schema with the given name and base and no objects.
    pub open spec fn empty(name: Seq<char>, base: std::path::PathBuf) -> SchemaView {
        SchemaView {
            base,
            name,
            objects: Map::empty(),
            image_types: seq![],
            file_types: seq![],
            object_types: seq![],
            reference_types: seq![],
            document_types: seq![],
        }
    }

    /// The schema after `o` is added: it is stored under its name,
    /// replacing an object of that name; an image's name is appended to the
    /// image types, a file's to the file types, a document's to the
    /// document types and to the object types, and any other object's to
    /// the object types.
    pub open spec fn add(self, o: ObjectView) -> SchemaView {
        SchemaView {
            objects: self.objects.insert(o.name, o),
            object_types: if o.base_type == BaseType::Image || o.base_type == BaseType::File {
                self.object_types
            } else {
                self.object_types.push(o.name)
            },
            image_types: if o.base_type == BaseType::Image {
                self.image_types.push(o.name)
            } else {
                self.image_types
            },
            document_types: if o.base_type == BaseType::Doc {
                self.document_types.push(o.name)
            } else {
                self.document_types
            },
            file_types: if o.base_type == BaseType::File {
                self.file_types.push(o.name)
            } else {
                self.file_types
            },
            ..self
        }
    }

    /// Every listed name is the name of a stored object.
    pub open spec fn names_known(self) -> bool {
        &&& forall|i: int|
            0 <= i < self.object_types.len() ==> self.objects.contains_key(
                #[trigger] self.object_types[i],
            )
        &&& forall|i: int|
            0 <= i < self.image_types.len() ==> self.objects.contains_key(
                #[trigger] self.image_types[i],
            )
        &&& forall|i: int|
            0 <= i < self.file_types.len() ==> self.objects.contains_key(
                #[trigger] self.file_types[i],
            )
        &&& forall|i: int|
            0 <= i < self.reference_types.len() ==> self.objects.contains_key(
                #[trigger] self.reference_types[i],
            )
        &&& forall|i: int|
            0 <= i < self.document_types.len() ==> self.objects.contains_key(
                #[trigger] self.document_types[i],
            )
    }
}

impl View for Schema {
    type V = SchemaView;

    closed spec fn view(&self) -> SchemaView {
        SchemaView {
            base: self.base,
            name: self.name@,
            objects: object_map(objects_view(self.objects@)),
            image_types: strings_view(self.image_types@),
            file_types: strings_view(self.file_types@),
            object_types: strings_view(self.object_types@),
            reference_types: strings_view(self.reference_types@),
            document_types: strings_view(self.document_types@),
        }
    }
}

impl Schema {
    /// The schema is well formed: no two stored objects share a name and
    /// every listed name is the name of a stored object.
    pub closed spec fn wf(&self) -> bool {
        &&& names_distinct(objects_view(self.objects@))
        &&& self@.names_known()
    }

    /// The stored objects in storage order.
    pub closed spec fn object_list(&self) -> Seq<ObjectView> {
        objects_view(self.objects@)
    }

    /// The number of stored objects.
    pub fn object_count(&self) -> (r: usize)
        ensures
            r == self.object_list().len(),
    {
        self.objects.len()
    }

    /// The stored object at a position of the object list.
    pub fn object_at(&self, i: usize) -> (r: &Object)
        requires
            i < self.object_list().len(),
        ensures
            r@ == self.object_list()[i as int],
    {
        &self.objects[i]
    }

    /// The object list of a well-formed schema names each object once, and
    /// keyed by name it is the schema's objects.
    pub proof fn lemma_object_list(&self)
        requires
            self.wf(),
        ensures
            names_distinct(self.object_list()),
            object_map(self.object_list()) == self@.objects,
    {
    }

    /// The names of the image types, in the order they were added.
    pub fn image_types(&self) -> (r: &Vec<String>)
        ensures
            strings_view(r@) == self@.image_types,
    {
        &self.image_types
    }

    /// The names of the file types, in the order they were added.
    pub fn file_types(&self) -> (r: &Vec<String>)
        ensures
            strings_view(r@) == self@.file_types,
    {
        &self.file_types
    }

    /// The names of the reference types.
    pub fn reference_types(&self) -> (r: &Vec<String>)
        ensures
            strings_view(r@) == self@.reference_types,
    {
        &self.reference_types
    }

    /// An empty schema with the given name and base directory.
    pub fn new(name: &str, base: std::path::PathBuf) -> (r: Schema)
        ensures
            r.wf(),
            r@ == SchemaView::empty(name@, base),
    {
        let r = Schema {
            name: name.to_owned(),
            base,
            objects: Vec::new(),
            object_types: Vec::new(),
            image_types: Vec::new(),
            reference_types: Vec::new(),
            file_types: Vec::new(),
            document_types: Vec::new(),
        };
        assert(objects_view(r.objects@) =~= seq![]);
        assert(strings_view(r.object_types@) =~= seq![]);
        assert(strings_view(r.image_types@) =~= seq![]);
        assert(strings_view(r.reference_types@) =~= seq![]);
        assert(strings_view(r.file_types@) =~= seq![]);
        assert(strings_view(r.document_types@) =~= seq![]);
        assert(r@ =~= SchemaView::empty(name@, r.base));
        r
    }

    /// The index of the stored object with the given name, if any.
    fn position_of(&self, name: &str) -> (r: Option<usize>)
        ensures
            r matches Some(i) ==> i < self.objects@.len() && self.objects@[i as int].name@
                == name@,
            r is None ==> forall|i: int|
                0 <= i < self.objects@.len() ==> #[trigger] self.objects@[i].name@ != name@,
    {
        let n = self.objects.len();
        let mut i: usize = 0;
        while i < n
            invariant
                n == self.objects@.len(),
                i <= n,
                forall|k: int| 0 <= k < i ==> #[trigger] self.objects@[k].name@ != name@,
            decreases n - i,
        {
            if str_eq(self.objects[i].name.as_str(), name) {
                return Some(i);
            }
            i = i + 1;
        }
        None
    }

    /// Adds an object: it replaces a stored object of the same name; its
    /// name is appended to the image types for an image, to the file types
    /// for a file, to the document types and the object types for a
    /// document, and to the object types for any other kind.
    pub fn add_object(&mut self, o: Object)
        requires
            old(self).wf(),
        ensures
            final(self).wf(),
            final(self)@ == old(self)@.add(o@),
    {
        let ghost old_view = self@;
        let ghost ov = o@;
        let ghost old_objs = objects_view(self.objects@);
        let ghost old_vec = self.objects@;
        let bt = o.base_type;
        let name = copy_string(&o.name);
        match self.position_of(name.as_str()) {
            Some(j) => {
                proof {
                    assert(old_objs[j as int].name == ov.name);
                    lemma_object_map_update(old_objs, j as int, ov);
                }
                self.objects.set(j, o);
                assert(objects_view(self.objects@) =~= old_objs.update(j as int, ov));
            },
            None => {
                self.objects.push(o);
                assert(objects_view(self.objects@) =~= old_objs.push(ov));
                assert(objects_view(self.objects@).drop_last() =~= old_objs);
                assert(names_distinct(objects_view(self.objects@))) by {
                    let objs = objects_view(self.objects@);
                    assert forall|a: int, b: int|
                        0 <= a < objs.len() && 0 <= b < objs.len() && a != b implies #[trigger] objs[a].name
                        != #[trigger] objs[b].name by {
                        if a < old_objs.len() {
                            assert(objs[a] == old_objs[a]);
                            assert(old_vec[a].name@ != name@);
                        }
                        if b < old_objs.len() {
                            assert(objs[b] == old_objs[b]);
                            assert(old_vec[b].name@ != name@);
                        }
                    }
                }
            },
        }
        match bt {
            BaseType::Image => self.image_types.push(name),
            BaseType::Doc => {
                self.document_types.push(copy_string(&name));
                self.object_types.push(name);
            },
            BaseType::File => self.file_types.push(name),
            _ => self.object_types.push(name),
        }
        assert(self@.object_types =~= old_view.add(ov).object_types);
        assert(self@.image_types =~= old_view.add(ov).image_types);
        assert(self@.document_types =~= old_view.add(ov).document_types);
        assert(self@.file_types =~= old_view.add(ov).file_types);
        assert(self@.reference_types =~= old_view.reference_types);
        assert(self@.objects == old_view.add(ov).objects);
        assert(self@ =~= old_view.add(ov));
        assert(self@.names_known()) by {
            let s = self@;
            assert forall|i: int| 0 <= i < s.object_types.len() implies s.objects.contains_key(
                #[trigger] s.object_types[i],
            ) by {
                if i < old_view.object_types.len() {
                    assert(s.object_types[i] == old_view.object_types[i]);
                }
            }
            assert forall|i: int| 0 <= i < s.image_types.len() implies s.objects.contains_key(
                #[trigger] s.image_types[i],
            ) by {
                if i < old_view.image_types.len() {
                    assert(s.image_types[i] == old_view.image_types[i]);
                }
            }
            assert forall|i: int| 0 <= i < s.file_types.len() implies s.objects.contains_key(
                #[trigger] s.file_types[i],
            ) by {
                if i < old_view.file_types.len() {
                    assert(s.file_types[i] == old_view.file_types[i]);
                }
            }
            assert forall|i: int| 0 <= i < s.document_types.len() implies s.objects.contains_key(
                #[trigger] s.document_types[i],
            ) by {
                if i < old_view.document_types.len() {
                    assert(s.document_types[i] == old_view.document_types[i]);
                }
            }
            assert forall|i: int|
                0 <= i < s.reference_types.len() implies s.objects.contains_key(
                #[trigger] s.reference_types[i],
            ) by {
                assert(s.reference_types[i] == old_view.reference_types[i]);
            }
        }
    }

    /// The stored object with the given name, if any.
    pub fn get_object(&self, name: &str) -> (r: Option<&Object>)
        requires
            self.wf(),
        ensures
            r is Some <==> self@.objects.contains_key(name@),
            r matches Some(o) ==> o@ == self@.objects[name@],
    {
        let ghost objs = objects_view(self.objects@);
        proof {
            lemma_object_map_dom(objs, name@);
        }
        match self.position_of(name) {
            Some(i) => {
                proof {
                    lemma_object_map_at(objs, i as int);
                }
                Some(&self.objects[i])
            },
            None => {
                proof {
                    if exists|k: int| 0 <= k < objs.len() && #[trigger] objs[k].name == name@ {
                        let k = choose|k: int| 0 <= k < objs.len() && #[trigger] objs[k].name == name@;
                        assert(self.objects@[k].name@ == name@);
                    }
                }
                None
            },
        }
    }

    /// The objects of the document types, in the order the document types
    /// were added.
    pub fn documents(&self) -> (r: Vec<&Object>)
        requires
            self.wf(),
        ensures
            r@.len() == self@.document_types.len(),
            forall|i: int|
                0 <= i < r@.len() ==> (#[trigger] r@[i])@ == self@.objects[self@.document_types[i]],
    {
        let mut r: Vec<&Object> = Vec::new();
        let n = self.document_types.len();
        let mut i: usize = 0;
        while i < n
            invariant
                self.wf(),
                n == self.document_types@.len(),
                i <= n,
                r@.len() == i,
                forall|k: int|
                    0 <= k < i ==> (#[trigger] r@[k])@ == self@.objects[self@.document_types[k]],
            decreases n - i,
        {
            assert(self@.document_types[i as int] == self.document_types@[i as int]@);
            assert(self@.objects.contains_key(self@.document_types[i as int]));
            match self.get_object(self.document_types[i].as_str()) {
                Some(o) => r.push(o),
                None => {},
            }
            i = i + 1;
        }
        r
    }
}

/// Adding an object stores it under its name: a lookup of that name after
/// the addition finds exactly the added object, and every other name keeps
/// the object it had.
pub proof fn law_lookup_after_add(s: SchemaView, o: ObjectView, k: Seq<char>)
    ensures
        s.add(o).objects.contains_key(o.name),
        s.add(o).objects[o.name] == o,
        k != o.name ==> (s.add(o).objects.contains_key(k) == s.objects.contains_key(k)),
        k != o.name && s.objects.contains_key(k) ==> s.add(o).objects[k] == s.objects[k],
{
}

/// Adding objects keeps every listed name known: a well-formed schema stays
/// well formed, so the document listing never meets an unknown name.
pub proof fn law_add_keeps_names_known(s: SchemaView, o: ObjectView)
    requires
        s.names_known(),
    ensures
        s.add(o).names_known(),
{
    let t = s.add(o);
    assert forall|i: int| 0 <= i < t.object_types.len() implies t.objects.contains_key(
        #[trigger] t.object_types[i],
    ) by {
        if i < s.object_types.len() {
            assert(t.object_types[i] == s.object_types[i]);
        }
    }
    assert forall|i: int| 0 <= i < t.image_types.len() implies t.objects.contains_key(
        #[trigger] t.image_types[i],
    ) by {
        if i < s.image_types.len() {
            assert(t.image_types[i] == s.image_types[i]);
        }
    }
    assert forall|i: int| 0 <= i < t.file_types.len() implies t.objects.contains_key(
        #[trigger] t.file_types[i],
    ) by {
        if i < s.file_types.len() {
            assert(t.file_types[i] == s.file_types[i]);
        }
    }
    assert forall|i: int| 0 <= i < t.document_types.len() implies t.objects.contains_key(
        #[trigger] t.document_types[i],
    ) by {
        if i < s.document_types.len() {
            assert(t.document_types[i] == s.document_types[i]);
        }
    }
}

/// Adding an object lists its name by its kind, after the names already
/// listed: a document among the documents and the object types, an image
/// among the images, a file among the files, any other object among the
/// object types; every other list is left as it was, references included.
pub proof fn law_add_lists_by_kind(s: SchemaView, o: ObjectView)
    ensures
        s.add(o).reference_types == s.reference_types,
        s.add(o).name == s.name,
        o.base_type == BaseType::Doc ==> s.add(o).document_types == s.document_types.push(o.name)
            && s.add(o).object_types == s.object_types.push(o.name) && s.add(o).image_types
            == s.image_types && s.add(o).file_types == s.file_types,
        o.base_type == BaseType::Image ==> s.add(o).image_types == s.image_types.push(o.name)
            && s.add(o).object_types == s.object_types && s.add(o).document_types
            == s.document_types && s.add(o).file_types == s.file_types,
        o.base_type == BaseType::File ==> s.add(o).file_types == s.file_types.push(o.name)
            && s.add(o).object_types == s.object_types && s.add(o).document_types
            == s.document_types && s.add(o).image_types == s.image_types,
        (o.base_type == BaseType::Object || o.base_type == BaseType::Action) ==> s.add(
            o,
        ).object_types == s.object_types.push(o.name) && s.add(o).document_types
            == s.document_types && s.add(o).image_types == s.image_types && s.add(o).file_types
            == s.file_types,
{
}

} // verus!
