//! The server: what it holds and how it answers.
use vstd::prelude::*;

use crate::fake_apiserver::routes;
use crate::fake_apiserver::routes::ResourceModel;
use crate::fake_apiserver::selector;
use crate::fake_apiserver::store;
use crate::fake_apiserver::store::{Key, Store};
use crate::json;
use crate::json::{Json, JsonModel, JsonNumber, JsonNumberModel};
use crate::numbers;
use crate::text;

verus! {

/// An answer: the HTTP status and the body.
pub struct Response {
    pub status: u16,
    pub body: Json,
}

/// The model of a [`Response`].
#[verifier::ext_equal]
pub struct ResponseModel {
    pub status: u16,
    pub body: JsonModel,
}

impl Response {
    pub open spec fn model(self) -> ResponseModel {
        ResponseModel { status: self.status, body: self.body.model() }
    }
}

/// A server that holds its objects in memory.
pub struct FakeApiServer {
    store: Store,
    generate_name_counter: u64,
}

/// The model of a [`FakeApiServer`]: its objects by key, and how many names it
/// has made up.
#[verifier::ext_equal]
pub struct ServerModel {
    pub objects: Map<Key, JsonModel>,
    pub counter: u64,
}

// ---------------------------------------------------------------------------
// Bodies
// ---------------------------------------------------------------------------
/// The body of an answer that says what went wrong.
pub open spec fn status_object(code: u16, reason: Seq<char>, message: Seq<char>) -> JsonModel {
    JsonModel::Object(
        Map::empty().insert("kind"@, JsonModel::Text("Status"@)).insert(
            "apiVersion"@,
            JsonModel::Text("v1"@),
        ).insert("status"@, JsonModel::Text("Failure"@)).insert(
            "message"@,
            JsonModel::Text(message),
        ).insert("reason"@, JsonModel::Text(reason)).insert(
            "code"@,
            JsonModel::Number(JsonNumberModel::Unsigned(code as u64)),
        ),
    )
}

/// An answer that says what went wrong.
pub open spec fn failure(code: u16, reason: Seq<char>, message: Seq<char>) -> ResponseModel {
    ResponseModel { status: code, body: status_object(code, reason, message) }
}

/// The answer for an object that is not there.
pub open spec fn not_found_answer(plural: Seq<char>, name: Seq<char>) -> ResponseModel {
    failure(404, "NotFound"@, plural + " \""@ + name + "\" not found"@)
}

/// The answer to a body that is not JSON.
pub open spec fn bad_body_answer() -> ResponseModel {
    failure(400, "BadRequest"@, "invalid JSON body"@)
}

/// The answer to a method that the resource does not take.
pub open spec fn bad_method_answer(method: Seq<char>, plural: Seq<char>) -> ResponseModel {
    failure(
        405,
        "MethodNotAllowed"@,
        "fake apiserver does not support "@ + method + " on "@ + plural,
    )
}

/// The body of a listing.
pub open spec fn list_object(items: Seq<JsonModel>) -> JsonModel {
    JsonModel::Object(
        Map::empty().insert("apiVersion"@, JsonModel::Text("v1"@)).insert(
            "kind"@,
            JsonModel::Text("List"@),
        ).insert("items"@, JsonModel::Array(items)),
    )
}

/// Whether `r` lists the objects of a kind and namespace that the query asks
/// for.
pub open spec fn lists_objects(
    objects: Map<Key, JsonModel>,
    plural: Seq<char>,
    namespace: Seq<char>,
    query: Seq<char>,
    r: ResponseModel,
) -> bool {
    let chosen = selector::parameter(query, "fieldSelector"@);
    r.status == 200 && exists|keys: Seq<Key>| #[trigger]
        store::lists(objects, store::selected(objects, plural, namespace, chosen), keys) && r.body
            == list_object(store::values_of(objects, keys))
}

fn json_error(code: u16, reason: &str, message: &str) -> (r: Response)
    ensures
        r.model() == failure(code, reason@, message@),
        r.body.wf(),
{
    let mut members = json::no_members();
    json::set_text(&mut members, "kind", "Status");
    json::set_text(&mut members, "apiVersion", "v1");
    json::set_text(&mut members, "status", "Failure");
    json::set_text(&mut members, "message", message);
    json::set_text(&mut members, "reason", reason);
    json::set_member(&mut members, "code", Json::Number(JsonNumber::Unsigned(code as u64)));
    proof {
        json::lemma_object_model(members);
    }
    Response { status: code, body: Json::Object(members) }
}

fn not_found(plural: &str, name: &str) -> (r: Response)
    ensures
        r.model() == not_found_answer(plural@, name@),
        r.body.wf(),
{
    let mut message = text::concat3(plural, " \"", name);
    message.append("\" not found");
    json_error(404, "NotFound", &message)
}

// ---------------------------------------------------------------------------
// What becomes of an object
// ---------------------------------------------------------------------------
/// The members of the object's metadata, where it has such an object.
pub open spec fn metadata_of(value: JsonModel) -> Option<Map<Seq<char>, JsonModel>> {
    match value.member("metadata"@) {
        Some(JsonModel::Object(metadata)) => Some(metadata),
        _ => None,
    }
}

/// The object with other metadata.
pub open spec fn with_metadata(value: JsonModel, metadata: Map<Seq<char>, JsonModel>) -> JsonModel {
    JsonModel::Object(
        json::members_of(value).insert("metadata"@, JsonModel::Object(metadata)),
    )
}

/// A text in the object's metadata.
pub open spec fn metadata_text(value: JsonModel, key: Seq<char>) -> Option<Seq<char>> {
    match value.member("metadata"@) {
        Some(metadata) => match metadata.member(key) {
            Some(found) => found.as_text(),
            None => None,
        },
        None => None,
    }
}

/// The name that the object asks for.
pub open spec fn own_name(value: JsonModel) -> Option<Seq<char>> {
    match metadata_text(value, "name"@) {
        Some(name) => if name.len() > 0 {
            Some(name)
        } else {
            None
        },
        None => None,
    }
}

/// What a name that is made up for the object starts with.
pub open spec fn name_prefix(value: JsonModel) -> Seq<char> {
    match metadata_text(value, "generateName"@) {
        Some(prefix) => prefix,
        None => "generated-"@,
    }
}

/// The name of an object that is created when `counter` names have been made
/// up.
pub open spec fn created_name(value: JsonModel, counter: u64) -> Seq<char> {
    match own_name(value) {
        Some(name) => name,
        None => name_prefix(value) + numbers::decimal_padded5((counter + 1) as nat),
    }
}

/// The metadata of a created object.
pub open spec fn created_metadata(
    metadata: Map<Seq<char>, JsonModel>,
    namespace: Seq<char>,
    name: Seq<char>,
) -> Map<Seq<char>, JsonModel> {
    let named = metadata.insert("name"@, JsonModel::Text(name));
    let placed = if namespace.len() > 0 {
        named.insert("namespace"@, JsonModel::Text(namespace))
    } else {
        named
    };
    if placed.contains_key("generation"@) {
        placed
    } else {
        placed.insert("generation"@, JsonModel::Number(JsonNumberModel::Unsigned(1)))
    }
}

/// An object as it is stored when it is created.
pub open spec fn created_object(
    value: JsonModel,
    namespace: Seq<char>,
    name: Seq<char>,
) -> JsonModel {
    match metadata_of(value) {
        Some(metadata) => with_metadata(value, created_metadata(metadata, namespace, name)),
        None => value,
    }
}

/// The generation in an object's metadata.
pub open spec fn generation_in(metadata: Map<Seq<char>, JsonModel>) -> int {
    if metadata.contains_key("generation"@) {
        match metadata["generation"@] {
            JsonModel::Number(n) => match n.as_i64() {
                Some(n) => n as int,
                None => 0,
            },
            _ => 0,
        }
    } else {
        0
    }
}

/// A whole number.
pub open spec fn whole_number(n: int) -> JsonModel {
    JsonModel::Number(
        if n >= 0 {
            JsonNumberModel::Unsigned(n as u64)
        } else {
            JsonNumberModel::Negative(n as i64)
        },
    )
}

/// The object with its generation counted up.
pub open spec fn next_generation(value: JsonModel) -> JsonModel {
    match metadata_of(value) {
        Some(metadata) => with_metadata(
            value,
            metadata.insert("generation"@, whole_number(generation_in(metadata) + 1)),
        ),
        None => value,
    }
}

/// Whether the next generation is a number of the same width.
pub open spec fn generation_fits(value: JsonModel) -> bool {
    metadata_of(value) matches Some(metadata) ==> generation_in(metadata) < i64::MAX
}

/// The object after a merge patch. A patch of the status leaves the generation
/// alone.
pub open spec fn patched_object(value: JsonModel, patch: JsonModel, status: bool) -> JsonModel {
    let patched = json::merged(value, patch);
    if status {
        patched
    } else {
        next_generation(patched)
    }
}

/// Takes the metadata out of an object's members, where it is an object.
fn take_metadata(members: &mut Vec<(String, Json)>) -> (r: Option<Vec<(String, Json)>>)
    requires
        json::members_wf(old(members)@),
    ensures
        json::members_wf(final(members)@),
        match r {
            Some(metadata) => metadata_of(JsonModel::Object(json::member_map(old(members)@)))
                == Some(json::member_map(metadata@)) && json::members_wf(metadata@)
                && json::member_map(final(members)@) == json::member_map(old(members)@).remove(
                "metadata"@,
            ),
            None => metadata_of(JsonModel::Object(json::member_map(old(members)@))) is None
                && json::member_map(final(members)@) == json::member_map(old(members)@),
        },
{
    let ghost before = json::member_map(members@);
    proof {
        json::lemma_member_index(members@, "metadata"@);
    }
    match json::remove_member(members, "metadata") {
        Some(Json::Object(metadata)) => {
            proof {
                json::lemma_object_model(metadata);
            }
            Some(metadata)
        },
        Some(other) => {
            json::set_member(members, "metadata", other);
            assert(json::member_map(members@) =~= before);
            None
        },
        None => {
            assert(json::member_map(members@) =~= before);
            None
        },
    }
}

/// Puts the metadata back.
fn put_metadata(members: &mut Vec<(String, Json)>, metadata: Vec<(String, Json)>)
    requires
        json::members_wf(old(members)@),
        json::members_wf(metadata@),
    ensures
        json::members_wf(final(members)@),
        json::member_map(final(members)@) == json::member_map(old(members)@).insert(
            "metadata"@,
            JsonModel::Object(json::member_map(metadata@)),
        ),
{
    proof {
        json::lemma_object_model(metadata);
    }
    json::set_member(members, "metadata", Json::Object(metadata));
}

fn metadata_str(value: &Json, key: &str) -> (r: Option<String>)
    ensures
        r.deep_view() == metadata_text(value.model(), key@),
{
    match value.get("metadata") {
        Some(metadata) => match metadata.get(key) {
            Some(found) => match found.as_str() {
                Some(s) => Some(s.to_owned()),
                None => None,
            },
            None => None,
        },
        None => None,
    }
}

/// Names an object that is created.
fn stamp(value: Json, namespace: &str, name: &str) -> (r: Json)
    requires
        value.wf(),
    ensures
        r.wf(),
        r.model() == created_object(value.model(), namespace@, name@),
{
    match value {
        Json::Object(mut members) => {
            let ghost before = json::member_map(members@);
            proof {
                json::lemma_object_model(members);
            }
            match take_metadata(&mut members) {
                Some(mut metadata) => {
                    json::set_text(&mut metadata, "name", name);
                    if !namespace.is_empty() {
                        json::set_text(&mut metadata, "namespace", namespace);
                    }
                    let missing: bool = json::find_member(&metadata, "generation").is_none();
                    if missing {
                        json::set_member(
                            &mut metadata,
                            "generation",
                            Json::Number(JsonNumber::Unsigned(1)),
                        );
                    }
                    put_metadata(&mut members, metadata);
                    proof {
                        let stamped = json::member_map(metadata@);
                        assert(json::member_map(members@) =~= before.insert(
                            "metadata"@,
                            JsonModel::Object(stamped),
                        ));
                    }
                },
                None => {},
            }
            proof {
                json::lemma_object_model(members);
            }
            Json::Object(members)
        },
        other => other,
    }
}

/// Counts the generation of an object up.
fn count_up(value: Json) -> (r: Json)
    requires
        value.wf(),
        generation_fits(value.model()),
    ensures
        r.wf(),
        r.model() == next_generation(value.model()),
{
    match value {
        Json::Object(mut members) => {
            let ghost before = json::member_map(members@);
            proof {
                json::lemma_object_model(members);
            }
            match take_metadata(&mut members) {
                Some(mut metadata) => {
                    let generation: i64 = generation_of(&metadata);
                    let next: i64 = generation + 1;
                    let number = if next >= 0 {
                        JsonNumber::Unsigned(next as u64)
                    } else {
                        JsonNumber::Negative(next)
                    };
                    json::set_member(&mut metadata, "generation", Json::Number(number));
                    put_metadata(&mut members, metadata);
                    proof {
                        let counted = json::member_map(metadata@);
                        assert(json::member_map(members@) =~= before.insert(
                            "metadata"@,
                            JsonModel::Object(counted),
                        ));
                    }
                },
                None => {},
            }
            proof {
                json::lemma_object_model(members);
            }
            Json::Object(members)
        },
        other => other,
    }
}

fn generation_of(metadata: &Vec<(String, Json)>) -> (r: i64)
    ensures
        r == generation_in(json::member_map(metadata@)),
{
    match json::find_member(metadata, "generation") {
        Some(Json::Number(n)) => match n.as_i64() {
            Some(n) => n,
            None => 0,
        },
        _ => 0,
    }
}

// ---------------------------------------------------------------------------
// The server's answers
// ---------------------------------------------------------------------------
/// The server after a request, and its answer.
pub type Answered = (ServerModel, ResponseModel);

impl ServerModel {
    /// Reading one object.
    pub open spec fn reading(self, key: Key) -> ResponseModel {
        if self.objects.contains_key(key) {
            ResponseModel { status: 200, body: self.objects[key] }
        } else {
            not_found_answer(key.0, key.2)
        }
    }

    /// Creating an object.
    pub open spec fn creating(
        self,
        plural: Seq<char>,
        namespace: Seq<char>,
        body: Option<JsonModel>,
    ) -> Answered {
        match body {
            None => (self, bad_body_answer()),
            Some(value) => {
                let name = created_name(value, self.counter);
                let object = created_object(value, namespace, name);
                (
                    ServerModel {
                        objects: self.objects.insert((plural, namespace, name), object),
                        counter: if own_name(value) is Some {
                            self.counter
                        } else {
                            (self.counter + 1) as u64
                        },
                    },
                    ResponseModel { status: 201, body: object },
                )
            },
        }
    }

    /// Patching an object or its status.
    pub open spec fn patching(self, key: Key, body: Option<JsonModel>, status: bool) -> Answered {
        match body {
            None => (self, bad_body_answer()),
            Some(patch) => if self.objects.contains_key(key) {
                let object = patched_object(self.objects[key], patch, status);
                (
                    ServerModel { objects: self.objects.insert(key, object), ..self },
                    ResponseModel { status: 200, body: object },
                )
            } else {
                (self, not_found_answer(key.0, key.2))
            },
        }
    }

    /// Deleting an object.
    pub open spec fn deleting(self, key: Key) -> Answered {
        if self.objects.contains_key(key) {
            (
                ServerModel { objects: self.objects.remove(key), ..self },
                ResponseModel { status: 200, body: self.objects[key] },
            )
        } else {
            (self, not_found_answer(key.0, key.2))
        }
    }

    /// A request other than a listing.
    pub open spec fn handling(
        self,
        method: Seq<char>,
        resource: ResourceModel,
        body: Option<JsonModel>,
    ) -> Answered {
        match resource.name {
            None => if method == "POST"@ {
                self.creating(resource.plural, resource.namespace, body)
            } else {
                (self, bad_method_answer(method, resource.plural))
            },
            Some(name) => {
                let key = (resource.plural, resource.namespace, name);
                if method == "GET"@ {
                    (self, self.reading(key))
                } else if method == "PATCH"@ {
                    self.patching(key, body, resource.status)
                } else if method == "DELETE"@ {
                    self.deleting(key)
                } else {
                    (self, bad_method_answer(method, resource.plural))
                }
            },
        }
    }

    /// Whether a name can still be made up for the object, where it needs one.
    pub open spec fn can_create(self, body: Option<JsonModel>) -> bool {
        body matches Some(value) ==> own_name(value) is None ==> self.counter < u64::MAX
    }

    /// Whether the generation can still be counted up, where the patch does so.
    pub open spec fn can_patch(self, key: Key, body: Option<JsonModel>, status: bool) -> bool {
        body matches Some(patch) ==> self.objects.contains_key(key) && !status ==> generation_fits(
            json::merged(self.objects[key], patch),
        )
    }

    /// Whether no number of the server overflows on this request.
    pub open spec fn can_handle(
        self,
        method: Seq<char>,
        path: Seq<char>,
        body: Option<JsonModel>,
    ) -> bool {
        match routes::resource_of(path) {
            Ok(resource) => match resource.name {
                None => method == "POST"@ ==> self.can_create(body),
                Some(name) => method == "PATCH"@ ==> self.can_patch(
                    (resource.plural, resource.namespace, name),
                    body,
                    resource.status,
                ),
            },
            Err(_) => true,
        }
    }
}

/// Whether `after` and `r` are what the request makes of `before`.
pub open spec fn handles(
    before: ServerModel,
    method: Seq<char>,
    path: Seq<char>,
    query: Seq<char>,
    body: Option<JsonModel>,
    after: ServerModel,
    r: ResponseModel,
) -> bool {
    match routes::resource_of(path) {
        Err(message) => after == before && r == failure(404, "NotFound"@, message),
        Ok(resource) => if method == "GET"@ && resource.name is None {
            after == before && lists_objects(
                before.objects,
                resource.plural,
                resource.namespace,
                query,
                r,
            )
        } else {
            (after, r) == before.handling(method, resource, body)
        },
    }
}

/// The model of a body that may not be JSON.
pub open spec fn body_model(body: Option<Json>) -> Option<JsonModel> {
    match body {
        Some(value) => Some(value.model()),
        None => None,
    }
}

/// Whether a body is a proper value.
pub open spec fn body_wf(body: Option<Json>) -> bool {
    body matches Some(value) ==> value.wf()
}

impl View for FakeApiServer {
    type V = ServerModel;

    closed spec fn view(&self) -> ServerModel {
        ServerModel { objects: self.store.objects(), counter: self.generate_name_counter }
    }
}

impl FakeApiServer {
    /// A server that holds nothing.
    pub fn new() -> (r: FakeApiServer)
        ensures
            r@ == (ServerModel { objects: Map::empty(), counter: 0 }),
    {
        FakeApiServer { store: Store::new(), generate_name_counter: 0 }
    }

    /// Puts an object in place as it is.
    pub fn insert(&mut self, plural: &str, namespace: &str, name: &str, obj: Json)
        requires
            obj.wf(),
        ensures
            final(self)@ == (ServerModel {
                objects: old(self)@.objects.insert((plural@, namespace@, name@), obj.model()),
                ..old(self)@
            }),
    {
        self.store.insert(plural, namespace, name, obj);
    }

    /// A copy of an object.
    pub fn get(&self, plural: &str, namespace: &str, name: &str) -> (r: Option<Json>)
        ensures
            match r {
                Some(value) => self@.objects.contains_key((plural@, namespace@, name@))
                    && value.model() == self@.objects[(plural@, namespace@, name@)] && value.wf(),
                None => !self@.objects.contains_key((plural@, namespace@, name@)),
            },
    {
        match self.store.get(plural, namespace, name) {
            Some(value) => Some(value.copy()),
            None => None,
        }
    }

    /// The names of the objects of one kind, in every namespace.
    pub fn names(&self, plural: &str) -> (r: Vec<String>)
        ensures
            exists|keys: Seq<Key>| #[trigger]
                store::lists(self@.objects, store::of_kind(plural@), keys) && r.deep_view()
                    == store::names_of(keys),
    {
        let names = self.store.names(plural);
        proof {
            let keys = choose|keys: Seq<Key>| #[trigger]
                store::lists(self.store.objects(), store::of_kind(plural@), keys)
                    && names.deep_view() == store::names_of(keys);
            assert(store::lists(self@.objects, store::of_kind(plural@), keys));
            assert(names.deep_view() == store::names_of(keys));
        }
        names
    }

    /// The objects of one kind and namespace that the query's `fieldSelector`
    /// asks for.
    pub fn list(&self, plural: &str, namespace: &str, query: &str) -> (r: Response)
        ensures
            lists_objects(self@.objects, plural@, namespace@, query@, r.model()),
    {
        let chosen = selector::query_param(query, "fieldSelector");
        let items = self.store.list(plural, namespace, &chosen);
        let mut members = json::no_members();
        json::set_text(&mut members, "apiVersion", "v1");
        json::set_text(&mut members, "kind", "List");
        proof {
            json::lemma_array_model(items);
        }
        json::set_member(&mut members, "items", Json::Array(items));
        proof {
            json::lemma_object_model(members);
        }
        Response { status: 200, body: Json::Object(members) }
    }

    /// One object.
    pub fn get_one(&self, plural: &str, namespace: &str, name: &str) -> (r: Response)
        ensures
            r.model() == self@.reading((plural@, namespace@, name@)),
    {
        match self.store.get(plural, namespace, name) {
            Some(value) => Response { status: 200, body: value.copy() },
            None => not_found(plural, name),
        }
    }

    /// Creates an object, under its own name or one that is made up for it.
    pub fn create(&mut self, plural: &str, namespace: &str, body: Option<Json>) -> (r: Response)
        requires
            body_wf(body),
            old(self)@.can_create(body_model(body)),
        ensures
            (final(self)@, r.model()) == old(self)@.creating(
                plural@,
                namespace@,
                body_model(body),
            ),
    {
        match body {
            None => json_error(400, "BadRequest", "invalid JSON body"),
            Some(value) => {
                let own: Option<String> = match metadata_str(&value, "name") {
                    Some(name) => if name.as_str().is_empty() {
                        None
                    } else {
                        Some(name)
                    },
                    None => None,
                };
                let name: String = match own {
                    Some(name) => name,
                    None => {
                        let prefix: String = match metadata_str(&value, "generateName") {
                            Some(prefix) => prefix,
                            None => "generated-".to_owned(),
                        };
                        self.generate_name_counter = self.generate_name_counter + 1;
                        text::concat2(
                            &prefix,
                            &numbers::decimal_text_padded5(self.generate_name_counter),
                        )
                    },
                };
                let object = stamp(value, namespace, &name);
                let stored = object.copy();
                self.store.insert(plural, namespace, &name, stored);
                Response { status: 201, body: object }
            },
        }
    }

    /// Applies a merge patch to an object or its status.
    pub fn patch(
        &mut self,
        plural: &str,
        namespace: &str,
        name: &str,
        body: Option<Json>,
        status_only: bool,
    ) -> (r: Response)
        requires
            body_wf(body),
            old(self)@.can_patch((plural@, namespace@, name@), body_model(body), status_only),
        ensures
            (final(self)@, r.model()) == old(self)@.patching(
                (plural@, namespace@, name@),
                body_model(body),
                status_only,
            ),
    {
        match body {
            None => json_error(400, "BadRequest", "invalid JSON body"),
            Some(patch) => match self.store.get(plural, namespace, name) {
                None => not_found(plural, name),
                Some(existing) => {
                    let mut object = existing.copy();
                    json::merge_patch(&mut object, &patch);
                    let object: Json = if status_only {
                        object
                    } else {
                        count_up(object)
                    };
                    let stored = object.copy();
                    self.store.insert(plural, namespace, name, stored);
                    Response { status: 200, body: object }
                },
            },
        }
    }

    /// Deletes an object.
    pub fn delete(&mut self, plural: &str, namespace: &str, name: &str) -> (r: Response)
        ensures
            (final(self)@, r.model()) == old(self)@.deleting((plural@, namespace@, name@)),
    {
        match self.store.remove(plural, namespace, name) {
            Some(value) => Response { status: 200, body: value },
            None => {
                assert(old(self)@.objects.remove((plural@, namespace@, name@)) =~= old(
                    self,
                )@.objects);
                not_found(plural, name)
            },
        }
    }

    /// Whether no number of the server overflows on this request.
    pub fn can_handle(&self, method: &str, path: &str, body: &Option<Json>) -> (r: bool)
        requires
            body_wf(*body),
        ensures
            r == self@.can_handle(method@, path@, body_model(*body)),
    {
        match (routes::read_path(path), body) {
            (Ok(resource), Some(value)) => match &resource.name {
                None => {
                    if !text::text_eq(method, "POST") || self.generate_name_counter < u64::MAX {
                        true
                    } else {
                        match metadata_str(value, "name") {
                            Some(name) => !name.as_str().is_empty(),
                            None => false,
                        }
                    }
                },
                Some(name) => {
                    if !text::text_eq(method, "PATCH") || resource.status {
                        true
                    } else {
                        match self.store.get(&resource.plural, &resource.namespace, name) {
                            None => true,
                            Some(existing) => {
                                let mut object = existing.copy();
                                json::merge_patch(&mut object, value);
                                can_count_up(&object)
                            },
                        }
                    }
                },
            },
            _ => true,
        }
    }

    /// Answers a request. A body that is not JSON is `None`.
    pub fn handle(&mut self, method: &str, path: &str, query: &str, body: Option<Json>) -> (r:
        Response)
        requires
            body_wf(body),
            old(self)@.can_handle(method@, path@, body_model(body)),
        ensures
            handles(
                old(self)@,
                method@,
                path@,
                query@,
                body_model(body),
                final(self)@,
                r.model(),
            ),
    {
        let resource = match routes::read_path(path) {
            Ok(resource) => resource,
            Err(message) => {
                return json_error(404, "NotFound", &message);
            },
        };
        proof {
            reveal_strlit("GET");
            reveal_strlit("POST");
            reveal_strlit("PATCH");
            reveal_strlit("DELETE");
        }
        match &resource.name {
            None => {
                if text::text_eq(method, "GET") {
                    return self.list(&resource.plural, &resource.namespace, query);
                }
                if text::text_eq(method, "POST") {
                    return self.create(&resource.plural, &resource.namespace, body);
                }
            },
            Some(name) => {
                if text::text_eq(method, "GET") {
                    return self.get_one(&resource.plural, &resource.namespace, name);
                }
                if text::text_eq(method, "PATCH") {
                    return self.patch(
                        &resource.plural,
                        &resource.namespace,
                        name,
                        body,
                        resource.status,
                    );
                }
                if text::text_eq(method, "DELETE") {
                    return self.delete(&resource.plural, &resource.namespace, name);
                }
            },
        }
        let mut message = text::concat3("fake apiserver does not support ", method, " on ");
        message.append(&resource.plural);
        json_error(405, "MethodNotAllowed", &message)
    }
}

fn can_count_up(value: &Json) -> (r: bool)
    ensures
        r == generation_fits(value.model()),
{
    match value.get("metadata") {
        Some(Json::Object(metadata)) => {
            proof {
                json::lemma_object_model(*metadata);
            }
            generation_of(metadata) < i64::MAX
        },
        _ => true,
    }
}

// ---------------------------------------------------------------------------
// Laws
// ---------------------------------------------------------------------------
/// A created object is answered with status 201 and is found, as it was
/// answered, under the name that it was given; every other object stays.
pub proof fn created_object_is_found(
    server: ServerModel,
    plural: Seq<char>,
    namespace: Seq<char>,
    value: JsonModel,
    other: Key,
)
    ensures
        ({
            let (after, answer) = server.creating(plural, namespace, Some(value));
            let key = (plural, namespace, created_name(value, server.counter));
            &&& answer.status == 201
            &&& after.reading(key) == (ResponseModel { status: 200, body: answer.body })
            &&& other != key ==> after.reading(other) == server.reading(other)
        }),
{
}

/// A created object with metadata carries the name that it is found under.
pub proof fn created_object_is_named(
    server: ServerModel,
    plural: Seq<char>,
    namespace: Seq<char>,
    value: JsonModel,
)
    requires
        metadata_of(value) is Some,
    ensures
        metadata_text(server.creating(plural, namespace, Some(value)).1.body, "name"@) == Some(
            created_name(value, server.counter),
        ),
{
    reveal_strlit("name");
    reveal_strlit("namespace");
    reveal_strlit("generation");
    assert("name"@.len() == 4 && "namespace"@.len() == 9 && "generation"@.len() == 10);
}

/// A made-up name starts with what the object asks for, and the next name made
/// up with the same start is another one.
pub proof fn made_up_names_differ(first: JsonModel, second: JsonModel, counter: u64)
    requires
        own_name(first) is None,
        own_name(second) is None,
        name_prefix(first) == name_prefix(second),
        counter < u64::MAX - 1,
    ensures
        name_prefix(first).is_prefix_of(created_name(first, counter)),
        created_name(first, counter) != created_name(second, (counter + 1) as u64),
{
    let prefix = name_prefix(first);
    let a = numbers::decimal_padded5((counter + 1) as nat);
    let b = numbers::decimal_padded5((counter + 2) as nat);
    numbers::lemma_padded5_differs((counter + 1) as nat, (counter + 2) as nat);
    assert((prefix + a).skip(prefix.len() as int) =~= a);
    assert((prefix + b).skip(prefix.len() as int) =~= b);
    assert(prefix =~= (prefix + a).take(prefix.len() as int));
}

/// A patched object is found as it was answered; every other object stays.
pub proof fn patch_touches_one_object(
    server: ServerModel,
    key: Key,
    patch: JsonModel,
    status: bool,
    other: Key,
)
    requires
        server.objects.contains_key(key),
        other != key,
    ensures
        ({
            let (after, answer) = server.patching(key, Some(patch), status);
            &&& answer.status == 200
            &&& answer.body == patched_object(server.objects[key], patch, status)
            &&& after.reading(key) == answer
            &&& after.reading(other) == server.reading(other)
        }),
{
}

/// A patch that does not name the metadata counts the generation up by one; of
/// the status, it leaves the metadata as it is.
pub proof fn only_spec_patches_count_up(
    value: JsonModel,
    patch: JsonModel,
    metadata: Map<Seq<char>, JsonModel>,
)
    requires
        patch is Object,
        patch.member("metadata"@) is None,
        metadata_of(value) == Some(metadata),
        generation_fits(value),
    ensures
        metadata_of(patched_object(value, patch, true)) == Some(metadata),
        metadata_of(patched_object(value, patch, false)) matches Some(counted) && generation_in(
            counted,
        ) == generation_in(metadata) + 1,
{
    json::merge_keeps_what_the_patch_does_not_name(value, patch, "metadata"@);
}

/// A deleted object is answered once more and is then gone; every other object
/// stays.
pub proof fn deleted_object_is_gone(server: ServerModel, key: Key, other: Key)
    requires
        server.objects.contains_key(key),
        other != key,
    ensures
        ({
            let (after, answer) = server.deleting(key);
            &&& answer == server.reading(key)
            &&& after.reading(key) == not_found_answer(key.0, key.2)
            &&& after.reading(other) == server.reading(other)
        }),
{
}

/// A request that is refused, and one that only reads, changes nothing.
pub proof fn refused_requests_change_nothing(
    before: ServerModel,
    method: Seq<char>,
    path: Seq<char>,
    query: Seq<char>,
    body: Option<JsonModel>,
    after: ServerModel,
    r: ResponseModel,
)
    requires
        handles(before, method, path, query, body, after, r),
        r.status >= 400 || method == "GET"@,
    ensures
        after == before,
{
    reveal_strlit("GET");
    reveal_strlit("POST");
    reveal_strlit("PATCH");
    reveal_strlit("DELETE");
    assert("GET"@.len() == 3 && "POST"@.len() == 4 && "PATCH"@.len() == 5 && "DELETE"@.len() == 6);
}

} // verus!
