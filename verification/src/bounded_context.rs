//! Reconciling the entities of a system with the bounded-context service.
//!
//! The service is remote. This module makes the request that is sent to it,
//! decides what to do at each step of the exchange, and turns its answer
//! into entities and their graph. Sending and receiving is the caller's
//! part: it reports each step as an [`Event`] and does what the returned
//! [`Action`] says.

use vstd::prelude::*;
use crate::graph::capacity;
use crate::entity_graph::{entity_links, EntityGraph};
use crate::model::{
    DatabaseType, DatabaseTypeView, Entity, EntityView, Field, FieldView, Microservice,
    MicroserviceView,
};

verus! {

/// A field of an entity, as the service takes it.
#[derive(Debug)]
pub struct BoundedContextField {
    pub name: String,
    pub ty: String,
}

/// The value of a [`BoundedContextField`].
pub struct BoundedContextFieldView {
    pub name: Seq<char>,
    pub ty: Seq<char>,
}

impl DeepView for BoundedContextField {
    type V = BoundedContextFieldView;

    open spec fn deep_view(&self) -> BoundedContextFieldView {
        BoundedContextFieldView { name: self.name@, ty: self.ty@ }
    }
}

/// An entity, as the service takes it.
#[derive(Debug)]
pub struct BoundedContextEntity {
    pub entity_name: String,
    pub fields: Vec<BoundedContextField>,
}

/// The value of a [`BoundedContextEntity`].
pub struct BoundedContextEntityView {
    pub entity_name: Seq<char>,
    pub fields: Seq<BoundedContextFieldView>,
}

impl DeepView for BoundedContextEntity {
    type V = BoundedContextEntityView;

    open spec fn deep_view(&self) -> BoundedContextEntityView {
        BoundedContextEntityView {
            entity_name: self.entity_name@,
            fields: self.fields.deep_view(),
        }
    }
}

/// A module of the system, as the service takes it.
#[derive(Debug)]
pub struct BoundedContextModule {
    pub name: String,
    pub entities: Vec<BoundedContextEntity>,
}

/// The value of a [`BoundedContextModule`].
pub struct BoundedContextModuleView {
    pub name: Seq<char>,
    pub entities: Seq<BoundedContextEntityView>,
}

impl DeepView for BoundedContextModule {
    type V = BoundedContextModuleView;

    open spec fn deep_view(&self) -> BoundedContextModuleView {
        BoundedContextModuleView { name: self.name@, entities: self.entities.deep_view() }
    }
}

/// The system whose entities are to be reconciled.
#[derive(Debug)]
pub struct BoundedContextSystem {
    pub system_name: String,
    pub modules: Vec<BoundedContextModule>,
}

/// The value of a [`BoundedContextSystem`].
pub struct BoundedContextSystemView {
    pub system_name: Seq<char>,
    pub modules: Seq<BoundedContextModuleView>,
}

impl DeepView for BoundedContextSystem {
    type V = BoundedContextSystemView;

    open spec fn deep_view(&self) -> BoundedContextSystemView {
        BoundedContextSystemView {
            system_name: self.system_name@,
            modules: self.modules.deep_view(),
        }
    }
}

/// The request to the service.
#[derive(Debug)]
pub struct BoundedContextRequest {
    pub context: BoundedContextSystem,
    pub use_wu_palmer: bool,
}

/// The value of a [`BoundedContextRequest`].
pub struct BoundedContextRequestView {
    pub context: BoundedContextSystemView,
    pub use_wu_palmer: bool,
}

impl DeepView for BoundedContextRequest {
    type V = BoundedContextRequestView;

    open spec fn deep_view(&self) -> BoundedContextRequestView {
        BoundedContextRequestView {
            context: self.context.deep_view(),
            use_wu_palmer: self.use_wu_palmer,
        }
    }
}

/// The field that the service is sent for a field: its name and its type.
pub open spec fn sent_field(field: FieldView) -> BoundedContextFieldView {
    BoundedContextFieldView { name: field.name, ty: field.ty }
}

/// The entity that the service is sent for an entity: its name and its
/// fields.
pub open spec fn sent_entity(entity: EntityView) -> BoundedContextEntityView {
    BoundedContextEntityView {
        entity_name: entity.name,
        fields: entity.fields.map_values(|field: FieldView| sent_field(field)),
    }
}

/// The module that the service is sent for an entity: it bears the name of
/// the entity and holds that entity alone.
pub open spec fn sent_module(entity: EntityView) -> BoundedContextModuleView {
    BoundedContextModuleView { name: entity.name, entities: seq![sent_entity(entity)] }
}

/// The system that the service is sent for a list of entities: it has one
/// module for each entity, in their order, also where two entities are
/// equal.
pub open spec fn sent_entities(name: Seq<char>, entities: Seq<EntityView>) -> BoundedContextSystemView {
    BoundedContextSystemView {
        system_name: name,
        modules: entities.map_values(|entity: EntityView| sent_module(entity)),
    }
}

/// The system that the service is sent for a service: it bears the name of
/// the service and has one module for each entity that the service refers
/// to.
pub open spec fn sent_system(service: MicroserviceView) -> BoundedContextSystemView {
    sent_entities(service.name, service.ref_entities)
}

impl From<Field> for BoundedContextField {
    fn from(field: Field) -> (sent: BoundedContextField)
        ensures
            sent.deep_view() == sent_field(field@),
    {
        BoundedContextField { name: field.name, ty: field.ty }
    }
}

impl vstd::std_specs::convert::FromSpecImpl<Field> for BoundedContextField {
    open spec fn obeys_from_spec() -> bool {
        true
    }

    open spec fn from_spec(field: Field) -> BoundedContextField {
        BoundedContextField { name: field.name, ty: field.ty }
    }
}

impl BoundedContextEntity {
    /// An entity of these parts.
    pub fn new(entity_name: String, fields: Vec<BoundedContextField>) -> (entity:
        BoundedContextEntity)
        ensures
            entity.entity_name == entity_name,
            entity.fields == fields,
    {
        BoundedContextEntity { entity_name, fields }
    }

    /// What the service is sent for an entity.
    pub fn of_entity(entity: &Entity) -> (sent: BoundedContextEntity)
        ensures
            sent.deep_view() == sent_entity(entity@),
    {
        let mut fields: Vec<BoundedContextField> = Vec::new();
        let mut i: usize = 0;
        while i < entity.fields.len()
            invariant
                i <= entity.fields.len(),
                fields.len() == i,
                forall|k: int|
                    0 <= k < i ==> (#[trigger] fields[k]).deep_view() == sent_field(
                        entity.fields[k]@,
                    ),
            decreases entity.fields.len() - i,
        {
            fields.push(BoundedContextField::from(entity.fields[i].clone()));
            i = i + 1;
        }
        let sent = BoundedContextEntity { entity_name: entity.name.clone(), fields };
        assert(sent.deep_view().fields =~= sent_entity(entity@).fields);
        sent
    }
}

impl From<Entity> for BoundedContextEntity {
    fn from(entity: Entity) -> (sent: BoundedContextEntity)
        ensures
            sent.deep_view() == sent_entity(entity@),
    {
        BoundedContextEntity::of_entity(&entity)
    }
}

/// An entity is sent by its value: `from` promises the value of what is
/// sent.
impl vstd::std_specs::convert::FromSpecImpl<Entity> for BoundedContextEntity {
    open spec fn obeys_from_spec() -> bool {
        false
    }

    open spec fn from_spec(entity: Entity) -> BoundedContextEntity {
        choose|sent: BoundedContextEntity| sent.deep_view() == sent_entity(entity@)
    }
}

impl BoundedContextModule {
    /// A module of these parts.
    pub fn new(name: String, entities: Vec<BoundedContextEntity>) -> (module: BoundedContextModule)
        ensures
            module.name == name,
            module.entities == entities,
    {
        BoundedContextModule { name, entities }
    }
}

impl BoundedContextSystem {
    /// A system of these parts.
    pub fn new(system_name: String, modules: Vec<BoundedContextModule>) -> (system:
        BoundedContextSystem)
        ensures
            system.system_name == system_name,
            system.modules == modules,
    {
        BoundedContextSystem { system_name, modules }
    }

    /// The system of this name with one module for each of the entities.
    pub fn of_entities(system_name: String, entities: &[Entity]) -> (system: BoundedContextSystem)
        ensures
            system.deep_view() == sent_entities(system_name@, entities.deep_view()),
    {
        let mut modules: Vec<BoundedContextModule> = Vec::new();
        let mut i: usize = 0;
        while i < entities.len()
            invariant
                i <= entities.len(),
                modules.len() == i,
                forall|k: int|
                    0 <= k < i ==> (#[trigger] modules[k]).deep_view() == sent_module(
                        entities[k]@,
                    ),
            decreases entities.len() - i,
        {
            let entity = &entities[i];
            let mut sent: Vec<BoundedContextEntity> = Vec::new();
            sent.push(BoundedContextEntity::of_entity(entity));
            let module = BoundedContextModule::new(entity.name.clone(), sent);
            assert(module.deep_view().entities =~= seq![sent_entity(entity@)]);
            modules.push(module);
            i = i + 1;
        }
        let system = BoundedContextSystem { system_name, modules };
        assert(system.deep_view().modules =~= sent_entities(
            system_name@,
            entities.deep_view(),
        ).modules);
        system
    }
}

impl From<Microservice> for BoundedContextSystem {
    fn from(ms: Microservice) -> (system: BoundedContextSystem)
        ensures
            system.deep_view() == sent_system(ms@),
    {
        BoundedContextSystem::of_entities(ms.name, ms.ref_entities.as_slice())
    }
}

/// A system is sent by its value: `from` promises the value of what is
/// sent.
impl vstd::std_specs::convert::FromSpecImpl<Microservice> for BoundedContextSystem {
    open spec fn obeys_from_spec() -> bool {
        false
    }

    open spec fn from_spec(ms: Microservice) -> BoundedContextSystem {
        choose|system: BoundedContextSystem| system.deep_view() == sent_system(ms@)
    }
}

impl BoundedContextRequest {
    /// A request of these parts.
    pub fn new(context: BoundedContextSystem, use_wu_palmer: bool) -> (request:
        BoundedContextRequest)
        ensures
            request.context == context,
            request.use_wu_palmer == use_wu_palmer,
    {
        BoundedContextRequest { context, use_wu_palmer }
    }

    /// The request that reconciles a list of entities under the name of a
    /// system.
    pub fn for_entities(system_name: &str, entities: &[Entity], use_wu_palmer: bool) -> (request:
        BoundedContextRequest)
        ensures
            request.deep_view() == (BoundedContextRequestView {
                context: sent_entities(system_name@, entities.deep_view()),
                use_wu_palmer,
            }),
    {
        BoundedContextRequest::new(
            BoundedContextSystem::of_entities(system_name.to_owned(), entities),
            use_wu_palmer,
        )
    }

    /// The request that reconciles the entities of a service.
    pub fn for_service(ms: Microservice, use_wu_palmer: bool) -> (request: BoundedContextRequest)
        ensures
            request.deep_view() == (BoundedContextRequestView {
                context: sent_system(ms@),
                use_wu_palmer,
            }),
    {
        BoundedContextRequest::new(BoundedContextSystem::from(ms), use_wu_palmer)
    }
}

/// A name as the service gives it back: the name that was sent, and the
/// name under which the service has reconciled it.
#[derive(Debug)]
pub struct MergedName {
    pub name: String,
    pub full_name: String,
}

/// The value of a [`MergedName`].
pub struct MergedNameView {
    pub name: Seq<char>,
    pub full_name: Seq<char>,
}

impl DeepView for MergedName {
    type V = MergedNameView;

    open spec fn deep_view(&self) -> MergedNameView {
        MergedNameView { name: self.name@, full_name: self.full_name@ }
    }
}

/// A field of a reconciled entity.
#[derive(Debug)]
pub struct MergedField {
    pub name: MergedName,
    pub ty: String,
    pub reference: bool,
    pub collection: bool,
}

/// The value of a [`MergedField`].
pub struct MergedFieldView {
    pub name: MergedNameView,
    pub ty: Seq<char>,
    pub reference: bool,
    pub collection: bool,
}

impl DeepView for MergedField {
    type V = MergedFieldView;

    open spec fn deep_view(&self) -> MergedFieldView {
        MergedFieldView {
            name: self.name.deep_view(),
            ty: self.ty@,
            reference: self.reference,
            collection: self.collection,
        }
    }
}

/// A reconciled entity.
#[derive(Debug)]
pub struct MergedEntity {
    pub entity_name: MergedName,
    pub fields: Vec<MergedField>,
}

/// The value of a [`MergedEntity`].
pub struct MergedEntityView {
    pub entity_name: MergedNameView,
    pub fields: Seq<MergedFieldView>,
}

impl DeepView for MergedEntity {
    type V = MergedEntityView;

    open spec fn deep_view(&self) -> MergedEntityView {
        MergedEntityView { entity_name: self.entity_name.deep_view(), fields: self.fields.deep_view() }
    }
}

/// The answer of the service: the reconciled entities of the system.
#[derive(Debug)]
pub struct MergedEntitySystem {
    pub system_name: String,
    pub bounded_context_entities: Vec<MergedEntity>,
}

/// The value of a [`MergedEntitySystem`].
pub struct MergedEntitySystemView {
    pub system_name: Seq<char>,
    pub bounded_context_entities: Seq<MergedEntityView>,
}

impl DeepView for MergedEntitySystem {
    type V = MergedEntitySystemView;

    open spec fn deep_view(&self) -> MergedEntitySystemView {
        MergedEntitySystemView {
            system_name: self.system_name@,
            bounded_context_entities: self.bounded_context_entities.deep_view(),
        }
    }
}

/// The field that a reconciled field stands for: it goes by its reconciled
/// name.
pub open spec fn merged_field(field: MergedFieldView) -> FieldView {
    FieldView { name: field.name.full_name, ty: field.ty, is_collection: field.collection }
}

/// The entity that a reconciled entity stands for: it goes by its
/// reconciled name, and nothing is known of where it is stored.
pub open spec fn merged_entity(entity: MergedEntityView) -> EntityView {
    EntityView {
        name: entity.entity_name.full_name,
        fields: entity.fields.map_values(|field: MergedFieldView| merged_field(field)),
        ty: DatabaseTypeView::Unknown(Seq::empty()),
    }
}

/// The entities that an answer of the service stands for, in its order.
pub open spec fn merged_entities(system: MergedEntitySystemView) -> Seq<EntityView> {
    system.bounded_context_entities.map_values(|entity: MergedEntityView| merged_entity(entity))
}

impl From<MergedField> for Field {
    fn from(mf: MergedField) -> (field: Field)
        ensures
            field@ == merged_field(mf.deep_view()),
    {
        Field { name: mf.name.full_name, ty: mf.ty, is_collection: mf.collection }
    }
}

impl vstd::std_specs::convert::FromSpecImpl<MergedField> for Field {
    open spec fn obeys_from_spec() -> bool {
        true
    }

    open spec fn from_spec(mf: MergedField) -> Field {
        Field { name: mf.name.full_name, ty: mf.ty, is_collection: mf.collection }
    }
}

impl MergedEntity {
    /// The entity that this reconciled entity stands for.
    pub fn to_entity(&self) -> (entity: Entity)
        ensures
            entity@ == merged_entity(self.deep_view()),
    {
        let mut fields: Vec<Field> = Vec::new();
        let mut i: usize = 0;
        while i < self.fields.len()
            invariant
                i <= self.fields.len(),
                fields.len() == i,
                forall|k: int|
                    0 <= k < i ==> (#[trigger] fields[k])@ == merged_field(
                        self.fields[k].deep_view(),
                    ),
            decreases self.fields.len() - i,
        {
            let field = &self.fields[i];
            fields.push(
                Field {
                    name: field.name.full_name.clone(),
                    ty: field.ty.clone(),
                    is_collection: field.collection,
                },
            );
            i = i + 1;
        }
        let entity = Entity {
            name: self.entity_name.full_name.clone(),
            fields,
            ty: DatabaseType::Unknown(String::new()),
        };
        assert(entity@.fields =~= merged_entity(self.deep_view()).fields);
        entity
    }
}

impl From<MergedEntity> for Entity {
    fn from(me: MergedEntity) -> (entity: Entity)
        ensures
            entity@ == merged_entity(me.deep_view()),
    {
        me.to_entity()
    }
}

/// An entity is known by its value: `from` promises the value of the
/// entity.
impl vstd::std_specs::convert::FromSpecImpl<MergedEntity> for Entity {
    open spec fn obeys_from_spec() -> bool {
        false
    }

    open spec fn from_spec(me: MergedEntity) -> Entity {
        choose|entity: Entity| entity@ == merged_entity(me.deep_view())
    }
}

impl MergedEntitySystem {
    /// The entities that this answer stands for.
    pub fn into_entities(self) -> (entities: Vec<Entity>)
        ensures
            entities.deep_view() == merged_entities(self.deep_view()),
    {
        let mut entities: Vec<Entity> = Vec::new();
        let mut i: usize = 0;
        while i < self.bounded_context_entities.len()
            invariant
                i <= self.bounded_context_entities.len(),
                entities.len() == i,
                forall|k: int|
                    0 <= k < i ==> (#[trigger] entities[k])@ == merged_entity(
                        self.bounded_context_entities[k].deep_view(),
                    ),
            decreases self.bounded_context_entities.len() - i,
        {
            entities.push(self.bounded_context_entities[i].to_entity());
            i = i + 1;
        }
        assert(entities.deep_view() =~= merged_entities(self.deep_view()));
        entities
    }
}

/// Why the entities of a system could not be reconciled.
#[derive(Debug)]
pub enum Error {
    Ressa(String),
    RemoteCall(String),
    Deserialize(String),
    Conversion,
}

/// The value of an [`Error`].
pub enum ErrorView {
    Ressa(Seq<char>),
    RemoteCall(Seq<char>),
    Deserialize(Seq<char>),
    Conversion,
}

impl View for Error {
    type V = ErrorView;

    open spec fn view(&self) -> ErrorView {
        match self {
            Error::Ressa(text) => ErrorView::Ressa(text@),
            Error::RemoteCall(text) => ErrorView::RemoteCall(text@),
            Error::Deserialize(text) => ErrorView::Deserialize(text@),
            Error::Conversion => ErrorView::Conversion,
        }
    }
}

impl ErrorView {
    /// The message of an error.
    pub open spec fn message(self) -> Seq<char> {
        match self {
            ErrorView::Ressa(text) => "ReSSA Error: "@ + text,
            ErrorView::RemoteCall(text) => "Remote Call Error: "@ + text,
            ErrorView::Deserialize(text) => "Deserialization Error: "@ + text,
            ErrorView::Conversion => "Conversion to Graph Failed"@,
        }
    }
}

impl Error {
    /// The message of this error.
    pub fn to_string(&self) -> (message: String)
        ensures
            message@ == self@.message(),
    {
        match self {
            Error::Ressa(text) => {
                let mut message = "ReSSA Error: ".to_owned();
                message.append(text.as_str());
                message
            },
            Error::RemoteCall(text) => {
                let mut message = "Remote Call Error: ".to_owned();
                message.append(text.as_str());
                message
            },
            Error::Deserialize(text) => {
                let mut message = "Deserialization Error: ".to_owned();
                message.append(text.as_str());
                message
            },
            Error::Conversion => "Conversion to Graph Failed".to_owned(),
        }
    }
}

impl Clone for Error {
    fn clone(&self) -> (copy: Error)
        ensures
            copy@ == self@,
    {
        match self {
            Error::Ressa(text) => Error::Ressa(text.clone()),
            Error::RemoteCall(text) => Error::RemoteCall(text.clone()),
            Error::Deserialize(text) => Error::Deserialize(text.clone()),
            Error::Conversion => Error::Conversion,
        }
    }
}

/// The least status that tells of success.
pub const SUCCESS_FIRST: u16 = 200;

/// The greatest status that tells of success.
pub const SUCCESS_LAST: u16 = 299;

/// Whether a status tells of success: it is one of 200 to 299.
pub open spec fn is_success(code: u16) -> bool {
    SUCCESS_FIRST <= code <= SUCCESS_LAST
}

/// What `http::StatusCode` prints for a status code: the code and its
/// canonical reason, or, for a number that is no status code, what
/// `InvalidStatusCode` prints.
pub uninterp spec fn http_status_text(code: u16) -> Seq<char>;

/// Converts a number with `http::StatusCode::from_u16` and prints the
/// status code, or the error where the number is none, with `to_string`. The
/// text depends on the number alone.
#[verifier::external_body]
fn status_text(code: u16) -> (text: String)
    ensures
        text@ == http_status_text(code),
{
    match http::StatusCode::from_u16(code) {
        Ok(status) => status.to_string(),
        Err(error) => error.to_string(),
    }
}

/// A step of the exchange with the service, as the caller reports it.
#[derive(Debug)]
pub enum Event {
    /// The request could not be sent, or no response came.
    SendFailed(String),
    /// A response came, with this status code.
    Responded(u16),
    /// The body of the response could not be read.
    BodyFailed(String),
    /// The body of the response was read.
    BodyRead,
    /// The body could not be decoded as an answer of the service.
    DecodeFailed(String),
    /// The body was decoded.
    Decoded(MergedEntitySystem),
}

/// What the caller does next.
#[derive(Debug)]
pub enum Action {
    /// Read the body of the response.
    ReadBody,
    /// Decode the body.
    Decode,
    /// The exchange is over: these are the reconciled entities.
    Deliver(Vec<Entity>),
    /// The exchange is over and has failed: nothing is delivered.
    Fail(Error),
}

/// The value of an [`Action`].
pub enum ActionView {
    ReadBody,
    Decode,
    Deliver(Seq<EntityView>),
    Fail(ErrorView),
}

impl View for Action {
    type V = ActionView;

    open spec fn view(&self) -> ActionView {
        match self {
            Action::ReadBody => ActionView::ReadBody,
            Action::Decode => ActionView::Decode,
            Action::Deliver(entities) => ActionView::Deliver(entities.deep_view()),
            Action::Fail(error) => ActionView::Fail(error@),
        }
    }
}

/// What follows a response with status `code`, which prints as `text`: the
/// body is read if the status tells of success, and every other status
/// fails the exchange with its text.
pub open spec fn after_status(code: u16, text: Seq<char>) -> ActionView {
    if is_success(code) {
        ActionView::ReadBody
    } else {
        ActionView::Fail(ErrorView::RemoteCall(text))
    }
}

/// What follows each step of the exchange. A failure to send, a status
/// outside 200 to 299 and a failure to read the body are failures of the remote
/// call; a body that cannot be decoded is a failure to deserialize. No
/// failure is tried again.
pub open spec fn next_action(event: Event) -> ActionView {
    match event {
        Event::SendFailed(cause) => ActionView::Fail(ErrorView::RemoteCall(cause@)),
        Event::Responded(code) => after_status(code, http_status_text(code)),
        Event::BodyFailed(cause) => ActionView::Fail(ErrorView::RemoteCall(cause@)),
        Event::BodyRead => ActionView::Decode,
        Event::DecodeFailed(cause) => ActionView::Fail(ErrorView::Deserialize(cause@)),
        Event::Decoded(system) => ActionView::Deliver(merged_entities(system.deep_view())),
    }
}

/// Every failure of the exchange comes out as a failure, and the kinds can
/// be told apart: a response with a status outside 200 to 299 fails as a
/// remote call, a body that cannot be decoded fails as a deserialization,
/// and neither delivers any entity.
pub proof fn lemma_failures_are_told_apart(code: u16, cause: String)
    requires
        !is_success(code),
    ensures
        next_action(Event::Responded(code)) matches ActionView::Fail(ErrorView::RemoteCall(_)),
        next_action(Event::DecodeFailed(cause)) == ActionView::Fail(
            ErrorView::Deserialize(cause@),
        ),
        next_action(Event::Responded(code)) != next_action(Event::DecodeFailed(cause)),
{
}

/// Decides what follows a response, given its status code and how the code
/// prints.
pub fn decide_on_status(code: u16, text: String) -> (action: Action)
    ensures
        action@ == after_status(code, text@),
{
    if SUCCESS_FIRST <= code && code <= SUCCESS_LAST {
        Action::ReadBody
    } else {
        Action::Fail(Error::RemoteCall(text))
    }
}

/// Decides what follows a step of the exchange.
pub fn decide(event: Event) -> (action: Action)
    ensures
        action@ == next_action(event),
{
    match event {
        Event::SendFailed(cause) => Action::Fail(Error::RemoteCall(cause)),
        Event::Responded(code) => decide_on_status(code, status_text(code)),
        Event::BodyFailed(cause) => Action::Fail(Error::RemoteCall(cause)),
        Event::BodyRead => Action::Decode,
        Event::DecodeFailed(cause) => Action::Fail(Error::Deserialize(cause)),
        Event::Decoded(system) => Action::Deliver(system.into_entities()),
    }
}

/// The graph of the reconciled entities. An answer without entities gives
/// no graph but the failure of the conversion, and so does one whose graph
/// would exceed the capacity of its index type.
pub fn bounded_context_graph(entities: &[Entity]) -> (graph: Result<EntityGraph, Error>)
    ensures
        graph is Ok <==> 0 < entities.len() <= capacity() && entity_links(
            entities.deep_view(),
        ).len() <= capacity(),
        graph is Ok ==> graph->Ok_0.node_views() == entities.deep_view() && graph->Ok_0.links()
            == entity_links(entities.deep_view()) && graph->Ok_0.wf(),
        graph is Err ==> graph->Err_0@ == ErrorView::Conversion,
{
    match EntityGraph::try_new(entities) {
        Some(graph) => Ok(graph),
        None => Err(Error::Conversion),
    }
}

} // verus!
