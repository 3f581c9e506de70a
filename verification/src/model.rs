//! The fact model: fields, entities, services and the calls between them.
//!
//! Every record has a mathematical view. Two records are equal exactly when
//! their views are, and a clone has the view of its source.

use vstd::prelude::*;

verus! {

/// `str::eq` holds exactly when the two slices spell the same characters.
pub assume_specification[ <str as PartialEq>::eq ](a: &str, b: &str) -> (same: bool)
    ensures
        same == (a@ == b@),
;

/// A typed member of an entity.
#[derive(Debug, Hash)]
pub struct Field {
    pub name: String,
    pub ty: String,
    pub is_collection: bool,
}

/// The value of a [`Field`].
pub struct FieldView {
    pub name: Seq<char>,
    pub ty: Seq<char>,
    pub is_collection: bool,
}

impl View for Field {
    type V = FieldView;

    open spec fn view(&self) -> FieldView {
        FieldView { name: self.name@, ty: self.ty@, is_collection: self.is_collection }
    }
}

impl DeepView for Field {
    type V = FieldView;

    open spec fn deep_view(&self) -> FieldView {
        self@
    }
}

impl Field {
    /// A field of these parts.
    pub fn new(name: &str, ty: &str, is_collection: bool) -> (field: Field)
        ensures
            field@ == (FieldView { name: name@, ty: ty@, is_collection }),
    {
        Field { name: name.to_owned(), ty: ty.to_owned(), is_collection }
    }
}

impl Clone for Field {
    fn clone(&self) -> (copy: Field)
        ensures
            copy@ == self@,
    {
        Field { name: self.name.clone(), ty: self.ty.clone(), is_collection: self.is_collection }
    }
}

impl PartialEq for Field {
    fn eq(&self, other: &Field) -> (same: bool) {
        self.name == other.name && self.ty == other.ty && self.is_collection == other.is_collection
    }
}

impl Eq for Field {

}

impl vstd::std_specs::cmp::PartialEqSpecImpl for Field {
    open spec fn obeys_eq_spec() -> bool {
        true
    }

    open spec fn eq_spec(&self, other: &Field) -> bool {
        self@ == other@
    }
}

/// Where an entity is stored.
#[derive(Debug, Hash)]
pub enum DatabaseType {
    MySQL,
    MongoDB,
    Unknown(String),
}

/// The value of a [`DatabaseType`].
pub enum DatabaseTypeView {
    MySQL,
    MongoDB,
    Unknown(Seq<char>),
}

impl View for DatabaseType {
    type V = DatabaseTypeView;

    open spec fn view(&self) -> DatabaseTypeView {
        match self {
            DatabaseType::MySQL => DatabaseTypeView::MySQL,
            DatabaseType::MongoDB => DatabaseTypeView::MongoDB,
            DatabaseType::Unknown(name) => DatabaseTypeView::Unknown(name@),
        }
    }
}

impl DatabaseTypeView {
    /// The storage type that a tag stands for: the two known tags name
    /// themselves, every other tag is kept as an unknown one.
    pub open spec fn of_tag(tag: Seq<char>) -> DatabaseTypeView {
        if tag == "MySQL"@ {
            DatabaseTypeView::MySQL
        } else if tag == "MongoDB"@ {
            DatabaseTypeView::MongoDB
        } else {
            DatabaseTypeView::Unknown(tag)
        }
    }

    /// The word a diagram shows for a storage type. An unknown storage type
    /// shows as `Unknown`, whatever its tag.
    pub open spec fn label(self) -> Seq<char> {
        match self {
            DatabaseTypeView::MySQL => "MySQL"@,
            DatabaseTypeView::MongoDB => "MongoDB"@,
            DatabaseTypeView::Unknown(_) => "Unknown"@,
        }
    }
}

impl DatabaseType {
    /// The word a diagram shows for this storage type.
    pub fn to_string(&self) -> (label: String)
        ensures
            label@ == self@.label(),
    {
        match self {
            DatabaseType::MySQL => "MySQL".to_owned(),
            DatabaseType::MongoDB => "MongoDB".to_owned(),
            DatabaseType::Unknown(_) => "Unknown".to_owned(),
        }
    }
}

impl From<String> for DatabaseType {
    fn from(value: String) -> (ty: DatabaseType)
        ensures
            ty@ == DatabaseTypeView::of_tag(value@),
    {
        if value.as_str().eq("MySQL") {
            DatabaseType::MySQL
        } else if value.as_str().eq("MongoDB") {
            DatabaseType::MongoDB
        } else {
            DatabaseType::Unknown(value)
        }
    }
}

impl vstd::std_specs::convert::FromSpecImpl<String> for DatabaseType {
    open spec fn obeys_from_spec() -> bool {
        true
    }

    open spec fn from_spec(value: String) -> DatabaseType {
        if value@ == "MySQL"@ {
            DatabaseType::MySQL
        } else if value@ == "MongoDB"@ {
            DatabaseType::MongoDB
        } else {
            DatabaseType::Unknown(value)
        }
    }
}

impl Clone for DatabaseType {
    fn clone(&self) -> (copy: DatabaseType)
        ensures
            copy@ == self@,
    {
        match self {
            DatabaseType::MySQL => DatabaseType::MySQL,
            DatabaseType::MongoDB => DatabaseType::MongoDB,
            DatabaseType::Unknown(name) => DatabaseType::Unknown(name.clone()),
        }
    }
}

impl PartialEq for DatabaseType {
    fn eq(&self, other: &DatabaseType) -> (same: bool) {
        match (self, other) {
            (DatabaseType::MySQL, DatabaseType::MySQL) => true,
            (DatabaseType::MongoDB, DatabaseType::MongoDB) => true,
            (DatabaseType::Unknown(a), DatabaseType::Unknown(b)) => *a == *b,
            _ => false,
        }
    }
}

impl Eq for DatabaseType {

}

impl vstd::std_specs::cmp::PartialEqSpecImpl for DatabaseType {
    open spec fn obeys_eq_spec() -> bool {
        true
    }

    open spec fn eq_spec(&self, other: &DatabaseType) -> bool {
        self@ == other@
    }
}

/// A named record with typed fields, as one service declares it.
#[derive(Debug, Hash)]
pub struct Entity {
    pub name: String,
    pub fields: Vec<Field>,
    pub ty: DatabaseType,
}

/// The value of an [`Entity`].
pub struct EntityView {
    pub name: Seq<char>,
    pub fields: Seq<FieldView>,
    pub ty: DatabaseTypeView,
}

impl View for Entity {
    type V = EntityView;

    open spec fn view(&self) -> EntityView {
        EntityView { name: self.name@, fields: self.fields.deep_view(), ty: self.ty@ }
    }
}

impl DeepView for Entity {
    type V = EntityView;

    open spec fn deep_view(&self) -> EntityView {
        self@
    }
}

/// A copy of a list of fields.
pub fn clone_fields(fields: &Vec<Field>) -> (copy: Vec<Field>)
    ensures
        copy.deep_view() == fields.deep_view(),
{
    let mut copy: Vec<Field> = Vec::new();
    let mut i: usize = 0;
    while i < fields.len()
        invariant
            i <= fields.len(),
            copy.len() == i,
            forall|k: int| 0 <= k < i ==> copy[k]@ == fields[k]@,
        decreases fields.len() - i,
    {
        copy.push(fields[i].clone());
        i = i + 1;
    }
    assert(copy.deep_view() =~= fields.deep_view());
    copy
}

/// Whether two lists of fields hold equal fields in the same order.
pub fn fields_equal(a: &Vec<Field>, b: &Vec<Field>) -> (same: bool)
    ensures
        same == (a.deep_view() == b.deep_view()),
{
    if a.len() != b.len() {
        assert(a.deep_view().len() != b.deep_view().len());
        return false;
    }
    let mut i: usize = 0;
    while i < a.len()
        invariant
            i <= a.len(),
            a.len() == b.len(),
            forall|k: int| 0 <= k < i ==> a[k]@ == b[k]@,
        decreases a.len() - i,
    {
        if !(a[i] == b[i]) {
            assert(a.deep_view()[i as int] != b.deep_view()[i as int]);
            return false;
        }
        i = i + 1;
    }
    assert(a.deep_view() =~= b.deep_view());
    true
}

impl Entity {
    /// An entity of these parts.
    pub fn new(name: &str, fields: Vec<Field>, ty: DatabaseType) -> (entity: Entity)
        ensures
            entity@ == (EntityView { name: name@, fields: fields.deep_view(), ty: ty@ }),
    {
        Entity { name: name.to_owned(), fields, ty }
    }
}

impl Clone for Entity {
    fn clone(&self) -> (copy: Entity)
        ensures
            copy@ == self@,
    {
        Entity { name: self.name.clone(), fields: clone_fields(&self.fields), ty: self.ty.clone() }
    }
}

impl PartialEq for Entity {
    fn eq(&self, other: &Entity) -> (same: bool) {
        self.name == other.name && self.ty == other.ty && fields_equal(&self.fields, &other.fields)
    }
}

impl Eq for Entity {

}

impl vstd::std_specs::cmp::PartialEqSpecImpl for Entity {
    open spec fn obeys_eq_spec() -> bool {
        true
    }

    open spec fn eq_spec(&self, other: &Entity) -> bool {
        self@ == other@
    }
}

/// A copy of a list of entities.
pub fn clone_entities(entities: &[Entity]) -> (copy: Vec<Entity>)
    ensures
        copy.deep_view() == entities.deep_view(),
{
    let mut copy: Vec<Entity> = Vec::new();
    let mut i: usize = 0;
    while i < entities.len()
        invariant
            i <= entities.len(),
            copy.len() == i,
            forall|k: int| 0 <= k < i ==> copy[k]@ == entities[k]@,
        decreases entities.len() - i,
    {
        copy.push(entities[i].clone());
        i = i + 1;
    }
    assert(copy.deep_view() =~= entities.deep_view());
    copy
}

/// Whether two lists of entities hold equal entities in the same order.
pub fn entities_equal(a: &[Entity], b: &[Entity]) -> (same: bool)
    ensures
        same == (a.deep_view() == b.deep_view()),
{
    if a.len() != b.len() {
        assert(a.deep_view().len() != b.deep_view().len());
        return false;
    }
    let mut i: usize = 0;
    while i < a.len()
        invariant
            i <= a.len(),
            a.len() == b.len(),
            forall|k: int| 0 <= k < i ==> a[k]@ == b[k]@,
        decreases a.len() - i,
    {
        if !(a[i] == b[i]) {
            assert(a.deep_view()[i as int] != b.deep_view()[i as int]);
            return false;
        }
        i = i + 1;
    }
    assert(a.deep_view() =~= b.deep_view());
    true
}

/// Whether an entity equal to `entity` occurs in `entities`.
pub fn contains_entity(entities: &[Entity], entity: &Entity) -> (found: bool)
    ensures
        found == entities.deep_view().contains(entity@),
{
    let mut i: usize = 0;
    while i < entities.len()
        invariant
            i <= entities.len(),
            forall|k: int| 0 <= k < i ==> entities[k]@ != entity@,
        decreases entities.len() - i,
    {
        if entities[i] == *entity {
            assert(entities.deep_view()[i as int] == entity@);
            return true;
        }
        i = i + 1;
    }
    assert(forall|k: int|
        0 <= k < entities.deep_view().len() ==> entities.deep_view()[k] == entities[k]@);
    false
}

/// How many of the target an edge of the entity graph stands for.
#[derive(Debug, Clone, Copy, PartialEq, Eq, Structural)]
pub enum Cardinality {
    One,
    Many,
}

impl Cardinality {
    /// The cardinality that a field gives to the edge it induces.
    pub open spec fn of_collection(is_collection: bool) -> Cardinality {
        if is_collection {
            Cardinality::Many
        } else {
            Cardinality::One
        }
    }

    /// The token a diagram shows for a cardinality.
    pub open spec fn token(self) -> Seq<char> {
        match self {
            Cardinality::One => "1"@,
            Cardinality::Many => "*"@,
        }
    }

    /// The token a diagram shows for this cardinality.
    pub fn to_string(&self) -> (token: String)
        ensures
            token@ == self.token(),
    {
        match self {
            Cardinality::One => "1".to_owned(),
            Cardinality::Many => "*".to_owned(),
        }
    }
}

/// The source language of a service.
#[derive(Debug, Clone, Copy, PartialEq, Eq, Structural, Hash)]
pub enum Language {
    Java,
    Cpp,
    Python,
    Go,
    Unknown,
}

/// A service of the analysed system, with the entities it refers to.
#[derive(Debug)]
pub struct Microservice {
    pub name: String,
    pub language: Language,
    pub ref_entities: Vec<Entity>,
}

/// The value of a [`Microservice`].
pub struct MicroserviceView {
    pub name: Seq<char>,
    pub language: Language,
    pub ref_entities: Seq<EntityView>,
}

impl View for Microservice {
    type V = MicroserviceView;

    open spec fn view(&self) -> MicroserviceView {
        MicroserviceView {
            name: self.name@,
            language: self.language,
            ref_entities: self.ref_entities.deep_view(),
        }
    }
}

impl DeepView for Microservice {
    type V = MicroserviceView;

    open spec fn deep_view(&self) -> MicroserviceView {
        self@
    }
}

impl Clone for Microservice {
    fn clone(&self) -> (copy: Microservice)
        ensures
            copy@ == self@,
    {
        Microservice {
            name: self.name.clone(),
            language: self.language,
            ref_entities: clone_entities(self.ref_entities.as_slice()),
        }
    }
}

impl PartialEq for Microservice {
    fn eq(&self, other: &Microservice) -> (same: bool) {
        self.name == other.name && self.language == other.language && entities_equal(
            self.ref_entities.as_slice(),
            other.ref_entities.as_slice(),
        )
    }
}

impl Eq for Microservice {

}

impl vstd::std_specs::cmp::PartialEqSpecImpl for Microservice {
    open spec fn obeys_eq_spec() -> bool {
        true
    }

    open spec fn eq_spec(&self, other: &Microservice) -> bool {
        self@ == other@
    }
}

} // verus!
