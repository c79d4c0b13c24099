//! Handshake schema: the typed field-definition tree a plugin declares, and
//! its wire form as carried by the `Initialize` message.

use vstd::prelude::*;

verus! {

/// The type of a declared field.
#[derive(Clone, Copy, Debug, PartialEq, Eq, Structural)]
pub enum FieldType {
    Undefined,
    String,
    Int,
    Bool,
    Float,
    Bytes,
    Mapping,
    Array,
    Object,
}

/// The number that stands for a field type on the wire.
pub open spec fn type_code_spec(t: FieldType) -> i32 {
    match t {
        FieldType::Undefined => 0,
        FieldType::String => 1,
        FieldType::Int => 2,
        FieldType::Bool => 3,
        FieldType::Float => 4,
        FieldType::Bytes => 5,
        FieldType::Mapping => 6,
        FieldType::Array => 7,
        FieldType::Object => 8,
    }
}

impl FieldType {
    /// The number that stands for this type on the wire.
    pub fn code(&self) -> (r: i32)
        ensures
            r == type_code_spec(*self),
    {
        match self {
            FieldType::Undefined => 0,
            FieldType::String => 1,
            FieldType::Int => 2,
            FieldType::Bool => 3,
            FieldType::Float => 4,
            FieldType::Bytes => 5,
            FieldType::Mapping => 6,
            FieldType::Array => 7,
            FieldType::Object => 8,
        }
    }

    /// The type that a wire number stands for; unknown numbers give `None`.
    pub fn from_code(code: i32) -> (r: Option<FieldType>)
        ensures
            (0 <= code <= 8) <==> r is Some,
            r is Some ==> type_code_spec(r.unwrap()) == code,
    {
        match code {
            0 => Some(FieldType::Undefined),
            1 => Some(FieldType::String),
            2 => Some(FieldType::Int),
            3 => Some(FieldType::Bool),
            4 => Some(FieldType::Float),
            5 => Some(FieldType::Bytes),
            6 => Some(FieldType::Mapping),
            7 => Some(FieldType::Array),
            8 => Some(FieldType::Object),
            _ => None,
        }
    }
}

/// One declared field: a key, an optional description, a type, and children.
/// `nested_type_definition` is the element type of a `Map` or `Array`;
/// `object_fields` are the members of an `Object`.
pub struct FieldDefinition {
    pub key: String,
    pub description: Option<String>,
    pub type_: FieldType,
    pub nested_type_definition: Option<Box<FieldDefinition>>,
    pub object_fields: Option<Vec<FieldDefinition>>,
}

/// The ordered list of fields a plugin declares.
pub struct SchemaDefinition {
    pub fields: Vec<FieldDefinition>,
}

/// What a plugin reports about itself when it starts.
pub struct InitializeRequest {
    pub id: String,
    pub version: String,
    pub schema: SchemaDefinition,
}

/// Wire form of a field: the description is always present (empty when
/// absent) and object members are always a list (empty when absent).
pub struct WireFieldDefinition {
    pub key: String,
    pub type_code: i32,
    pub description: String,
    pub nested_type_definition: Option<Box<WireFieldDefinition>>,
    pub object_fields: Vec<WireFieldDefinition>,
}

/// Wire form of a schema.
pub struct WireSchemaDefinition {
    pub fields: Vec<WireFieldDefinition>,
}

/// The handshake payload: plugin identity, version and schema.
pub struct Initialize {
    pub plugin_id: String,
    pub plugin_version: String,
    pub schema: Option<WireSchemaDefinition>,
}

/// The description as the wire carries it.
pub open spec fn wire_description(d: Option<String>) -> Seq<char> {
    match d {
        Some(s) => s@,
        None => Seq::empty(),
    }
}

/// `w` is the wire form of `f`, node for node.
pub open spec fn wire_matches(f: FieldDefinition, w: WireFieldDefinition) -> bool
    decreases f,
{
    &&& w.key@ == f.key@
    &&& w.type_code == type_code_spec(f.type_)
    &&& w.description@ == wire_description(f.description)
    &&& match f.nested_type_definition {
        None => w.nested_type_definition is None,
        Some(n) => w.nested_type_definition is Some && wire_matches(*n, *w.nested_type_definition.unwrap()),
    }
    &&& match f.object_fields {
        None => w.object_fields@.len() == 0,
        Some(v) => {
            &&& w.object_fields@.len() == v@.len()
            &&& forall|i: int| 0 <= i < v@.len() ==> wire_matches(#[trigger] v@[i], w.object_fields@[i])
        },
    }
}

/// `ws` is the wire form of `fs`, field for field and in order.
pub open spec fn wire_fields_match(fs: Seq<FieldDefinition>, ws: Seq<WireFieldDefinition>) -> bool {
    &&& ws.len() == fs.len()
    &&& forall|i: int| 0 <= i < fs.len() ==> wire_matches(#[trigger] fs[i], ws[i])
}

impl FieldDefinition {
    /// A field with an empty key, no description, type `String` and no children.
    pub fn new() -> (r: FieldDefinition)
        ensures
            r.key@ == Seq::<char>::empty(),
            r.description is None,
            r.type_ == FieldType::String,
            r.nested_type_definition is None,
            r.object_fields is None,
    {
        FieldDefinition {
            key: String::new(),
            description: None,
            type_: FieldType::String,
            nested_type_definition: None,
            object_fields: None,
        }
    }

    /// This field with its key replaced.
    pub fn with_key(self, key: String) -> (r: FieldDefinition)
        ensures
            r == (FieldDefinition { key, ..self }),
    {
        FieldDefinition { key, ..self }
    }

    /// This field with a description.
    pub fn with_description(self, description: String) -> (r: FieldDefinition)
        ensures
            r == (FieldDefinition { description: Some(description), ..self }),
    {
        FieldDefinition { description: Some(description), ..self }
    }

    /// This field with its type replaced.
    pub fn with_type(self, type_: FieldType) -> (r: FieldDefinition)
        ensures
            r == (FieldDefinition { type_, ..self }),
    {
        FieldDefinition { type_, ..self }
    }

    /// This field with an element type, for a `Mapping` or an `Array`.
    pub fn with_nested_type_definition(self, definition: FieldDefinition) -> (r: FieldDefinition)
        ensures
            r == (FieldDefinition { nested_type_definition: Some(Box::new(definition)), ..self }),
    {
        FieldDefinition { nested_type_definition: Some(Box::new(definition)), ..self }
    }

    /// This field with members, for an `Object`.
    pub fn with_object_fields(self, fields: Vec<FieldDefinition>) -> (r: FieldDefinition)
        ensures
            r == (FieldDefinition { object_fields: Some(fields), ..self }),
    {
        FieldDefinition { object_fields: Some(fields), ..self }
    }

    /// The wire form of this field and of all its descendants.
    pub fn to_wire(&self) -> (r: WireFieldDefinition)
        ensures
            wire_matches(*self, r),
        decreases self,
    {
        let description = match &self.description {
            Some(d) => d.clone(),
            None => String::new(),
        };
        let nested_type_definition = match &self.nested_type_definition {
            Some(n) => Some(Box::new((**n).to_wire())),
            None => None,
        };
        let object_fields = match &self.object_fields {
            Some(v) => fields_to_wire(v),
            None => Vec::new(),
        };
        WireFieldDefinition {
            key: self.key.clone(),
            type_code: self.type_.code(),
            description,
            nested_type_definition,
            object_fields,
        }
    }
}

/// The wire form of each field of `fields`, in order.
pub fn fields_to_wire(fields: &Vec<FieldDefinition>) -> (r: Vec<WireFieldDefinition>)
    ensures
        wire_fields_match(fields@, r@),
    decreases fields,
{
    let mut out: Vec<WireFieldDefinition> = Vec::new();
    let mut i: usize = 0;
    while i < fields.len()
        invariant
            i <= fields@.len(),
            out@.len() == i,
            forall|j: int| 0 <= j < i ==> wire_matches(#[trigger] fields@[j], out@[j]),
        decreases fields@.len() - i,
    {
        out.push(fields[i].to_wire());
        i = i + 1;
    }
    out
}

/// The members of a field as the wire carries them: none when absent.
pub open spec fn members(f: FieldDefinition) -> Seq<FieldDefinition> {
    match f.object_fields {
        Some(v) => v@,
        None => Seq::empty(),
    }
}

/// `f` and `g` are the same tree, taking an absent description as an empty
/// one and absent members as an empty list, as the wire does.
pub open spec fn same_field(f: FieldDefinition, g: FieldDefinition) -> bool
    decreases f,
{
    &&& f.key@ == g.key@
    &&& f.type_ == g.type_
    &&& wire_description(f.description) == wire_description(g.description)
    &&& match f.nested_type_definition {
        None => g.nested_type_definition is None,
        Some(a) => g.nested_type_definition is Some && same_field(*a, *g.nested_type_definition.unwrap()),
    }
    &&& match f.object_fields {
        None => members(g).len() == 0,
        Some(v) => {
            &&& members(g).len() == v@.len()
            &&& forall|i: int| 0 <= i < v@.len() ==> same_field(#[trigger] v@[i], members(g)[i])
        },
    }
}

/// The wire form loses nothing of a field tree: two trees with the same wire
/// form are the same tree, at every depth, with every key, type, element type
/// and member in place.
pub proof fn lemma_wire_form_determines_field(f: FieldDefinition, g: FieldDefinition, w: WireFieldDefinition)
    requires
        wire_matches(f, w),
        wire_matches(g, w),
    ensures
        same_field(f, g),
    decreases f,
{
    match f.nested_type_definition {
        Some(a) => {
            lemma_wire_form_determines_field(*a, *g.nested_type_definition.unwrap(), *w.nested_type_definition.unwrap());
        },
        None => {},
    }
    match f.object_fields {
        Some(v) => {
            assert(members(g).len() == v@.len());
            assert forall|i: int| 0 <= i < v@.len() implies same_field(#[trigger] v@[i], members(g)[i]) by {
                assert(wire_matches(v@[i], w.object_fields@[i]));
                assert(wire_matches(members(g)[i], w.object_fields@[i]));
                lemma_wire_form_determines_field(v@[i], members(g)[i], w.object_fields@[i]);
            }
        },
        None => {},
    }
}

impl SchemaDefinition {
    /// A schema with no fields.
    pub fn new() -> (r: SchemaDefinition)
        ensures
            r.fields@ == Seq::<FieldDefinition>::empty(),
    {
        SchemaDefinition { fields: Vec::new() }
    }

    /// This schema with `field` declared after the others.
    pub fn add_field(self, field: FieldDefinition) -> (r: SchemaDefinition)
        ensures
            r.fields@ == self.fields@.push(field),
    {
        let mut fields = self.fields;
        fields.push(field);
        SchemaDefinition { fields }
    }

    /// This schema with its field list replaced.
    pub fn with_fields(self, fields: Vec<FieldDefinition>) -> (r: SchemaDefinition)
        ensures
            r.fields == fields,
    {
        SchemaDefinition { fields }
    }

    /// This schema without the field at position `idx`.
    pub fn remove_field(self, idx: usize) -> (r: SchemaDefinition)
        requires
            idx < self.fields@.len(),
        ensures
            r.fields@ == self.fields@.remove(idx as int),
    {
        let mut fields = self.fields;
        fields.remove(idx);
        SchemaDefinition { fields }
    }

    /// The wire form of this schema: each field's wire form, in order.
    pub fn into_wire(self) -> (r: WireSchemaDefinition)
        ensures
            wire_fields_match(self.fields@, r.fields@),
    {
        WireSchemaDefinition { fields: fields_to_wire(&self.fields) }
    }
}

impl InitializeRequest {
    /// A request with empty id and version and an empty schema.
    pub fn new() -> (r: InitializeRequest)
        ensures
            r.id@ == Seq::<char>::empty(),
            r.version@ == Seq::<char>::empty(),
            r.schema.fields@ == Seq::<FieldDefinition>::empty(),
    {
        InitializeRequest { id: String::new(), version: String::new(), schema: SchemaDefinition::new() }
    }

    /// This request with its plugin id replaced.
    pub fn with_id(self, id: String) -> (r: InitializeRequest)
        ensures
            r == (InitializeRequest { id, ..self }),
    {
        InitializeRequest { id, ..self }
    }

    /// This request with its plugin version replaced.
    pub fn with_version(self, version: String) -> (r: InitializeRequest)
        ensures
            r == (InitializeRequest { version, ..self }),
    {
        InitializeRequest { version, ..self }
    }

    /// This request with its schema replaced.
    pub fn with_schema(self, schema: SchemaDefinition) -> (r: InitializeRequest)
        ensures
            r == (InitializeRequest { schema, ..self }),
    {
        InitializeRequest { schema, ..self }
    }

    /// The handshake payload that carries this request.
    pub fn into_initialize(self) -> (r: Initialize)
        ensures
            r.plugin_id == self.id,
            r.plugin_version == self.version,
            r.schema is Some,
            wire_fields_match(self.schema.fields@, r.schema.unwrap().fields@),
    {
        let InitializeRequest { id, version, schema } = self;
        Initialize { plugin_id: id, plugin_version: version, schema: Some(schema.into_wire()) }
    }
}

} // verus!
