//! Laws of the server in memory: what a path names, what a query asks for, and what
//! each request does and is answered.
use vstd::prelude::*;

use crate::fake_apiserver::routes;
use crate::fake_apiserver::routes::ResourceModel;
use crate::fake_apiserver::selector;
use crate::fake_apiserver::server;
use crate::fake_apiserver::server::{ResponseModel, ServerModel};
use crate::fake_apiserver::store;
use crate::fake_apiserver::store::Key;
use crate::json;
use crate::json::{JsonModel, JsonNumberModel};
use crate::numbers;
use crate::text;
use crate::text_laws;

verus! {

// ---------------------------------------------------------------------------
// Paths
// ---------------------------------------------------------------------------
proof fn lemma_segment(part: Seq<char>, rest: Seq<char>)
    requires
        !part.contains('/'),
    ensures
        routes::segments_of(part + seq!['/'] + rest) == if part.len() == 0 {
            routes::segments_of(rest)
        } else {
            seq![part] + routes::segments_of(rest)
        },
        routes::segments_of(part) == if part.len() == 0 {
            Seq::<Seq<char>>::empty()
        } else {
            seq![part]
        },
{
    text_laws::splitting_cuts_at_every_separator(part, rest, '/');
    lemma_non_empty(part, text::split_on(rest, '/'));
    lemma_non_empty(part, Seq::empty());
    assert(seq![part] + Seq::<Seq<char>>::empty() =~= seq![part]);
}

proof fn lemma_non_empty(first: Seq<char>, rest: Seq<Seq<char>>)
    ensures
        routes::non_empty(seq![first] + rest) == if first.len() == 0 {
            routes::non_empty(rest)
        } else {
            seq![first] + routes::non_empty(rest)
        },
    decreases rest.len(),
{
    let all = seq![first] + rest;
    if rest.len() == 0 {
        assert(all =~= seq![first]);
        assert(all.drop_last() =~= Seq::<Seq<char>>::empty());
        assert(routes::non_empty(all.drop_last()) =~= Seq::<Seq<char>>::empty());
        assert(routes::non_empty(rest) =~= Seq::<Seq<char>>::empty());
        assert(routes::non_empty(all) =~= if first.len() == 0 {
            Seq::<Seq<char>>::empty()
        } else {
            seq![first]
        });
    } else {
        lemma_non_empty(first, rest.drop_last());
        assert(all.drop_last() =~= seq![first] + rest.drop_last());
        assert(all.last() == rest.last());
        assert(routes::non_empty(all) =~= if first.len() == 0 {
            routes::non_empty(rest)
        } else {
            seq![first] + routes::non_empty(rest)
        });
    }
}

/// The segments of a path are what stands between its slashes, without what is empty.
pub proof fn segments_stand_between_slashes(part: Seq<char>, rest: Seq<char>)
    requires
        part.len() > 0,
        !part.contains('/'),
    ensures
        routes::segments_of(seq!['/'] + rest) == routes::segments_of(rest),
        routes::segments_of(part) == seq![part],
        routes::segments_of(part + seq!['/'] + rest) == seq![part] + routes::segments_of(rest),
{
    lemma_segment(part, rest);
    lemma_segment(Seq::empty(), rest);
    assert(Seq::<char>::empty() + seq!['/'] + rest =~= seq!['/'] + rest);
}

/// Behind the group and the version, a path names a namespace or none, then the kind,
/// then the object, then its status.
pub proof fn path_names_the_resource(path: Seq<char>)
    ensures
        ({
            let segments = routes::segments_of(path);
            let namespaced = segments.len() >= 5 && segments[3] == "namespaces"@;
            let at: int = if namespaced {
                5
            } else {
                3
            };
            if segments.len() < 3 {
                routes::resource_of(path) == Err::<ResourceModel, Seq<char>>("unrecognised path"@)
            } else if segments.len() <= at {
                routes::resource_of(path) == Err::<ResourceModel, Seq<char>>(
                    "missing resource plural"@,
                )
            } else {
                &&& routes::resource_of(path) is Ok
                &&& routes::resource_of(path)->Ok_0.plural == segments[at]
                &&& namespaced ==> routes::resource_of(path)->Ok_0.namespace == segments[4]
                &&& !namespaced ==> routes::resource_of(path)->Ok_0.namespace.len() == 0
                &&& segments.len() == at + 1 <==> routes::resource_of(path)->Ok_0.name is None
                &&& segments.len() > at + 1 ==> routes::resource_of(path)->Ok_0.name == Some(
                    segments[at + 1],
                )
                &&& routes::resource_of(path)->Ok_0.status <==> segments.len() > at + 2
                    && segments[at + 2] == "status"@
            }
        }),
{
}

// ---------------------------------------------------------------------------
// Queries
// ---------------------------------------------------------------------------
/// The two digits of an escape are the byte, the higher first; a plus is a space.
pub proof fn escapes_are_bytes(a: char, b: char, rest: Seq<char>)
    ensures
        selector::hex_digit(a) is Some && selector::hex_digit(b) is Some
            ==> selector::percent_decoded(seq!['%', a, b] + rest) == seq![
            (16 * selector::hex_digit(a)->0 + selector::hex_digit(b)->0) as char,
        ] + selector::percent_decoded(rest),
        a != '+' && (selector::hex_digit(a) is None || selector::hex_digit(b) is None)
            ==> selector::percent_decoded(seq!['%', a, b] + rest) == seq!['%', a, b]
            + selector::percent_decoded(rest),
        selector::percent_decoded(seq!['+'] + rest) == seq![' '] + selector::percent_decoded(rest),
        a != '%' && a != '+' ==> selector::percent_decoded(seq![a] + rest) == seq![a]
            + selector::percent_decoded(rest),
        '0' <= a <= '9' ==> selector::hex_digit(a) == Some((a as nat - '0' as nat) as nat),
        'a' <= a <= 'f' ==> selector::hex_digit(a) == Some((a as nat - 'a' as nat + 10) as nat),
        'A' <= a <= 'F' ==> selector::hex_digit(a) == Some((a as nat - 'A' as nat + 10) as nat),
        !('0' <= a <= '9' || 'a' <= a <= 'f' || 'A' <= a <= 'F') ==> selector::hex_digit(a) is None,
{
    let s = seq!['%', a, b] + rest;
    assert(selector::escape_digits(s) =~= seq![a, b]);
    assert(seq!['%'] + seq![a, b] =~= seq!['%', a, b]);
    assert(s.skip(3) =~= rest);
    assert((seq!['+'] + rest).skip(1) =~= rest);
    assert((seq![a] + rest).skip(1) =~= rest);
}

/// A parameter is the first pair with its name, decoded.
pub proof fn first_pair_with_the_name_counts(
    key: Seq<char>,
    value: Seq<char>,
    rest: Seq<char>,
    name: Seq<char>,
)
    requires
        !key.contains('='),
        !key.contains('&'),
        !value.contains('&'),
    ensures
        key == name ==> selector::parameter(key + seq!['='] + value + seq!['&'] + rest, name)
            == Some(selector::percent_decoded(value)),
        key == name ==> selector::parameter(key + seq!['='] + value, name) == Some(
            selector::percent_decoded(value),
        ),
        key != name ==> selector::parameter(key + seq!['='] + value + seq!['&'] + rest, name)
            == selector::parameter(rest, name),
        key != name ==> selector::parameter(key + seq!['='] + value, name) is None,
        selector::parameter(key, name) is None,
{
    let pair = key + seq!['='] + value;
    if pair.contains('&') {
        let i = choose|i: int| 0 <= i < pair.len() && pair[i] == '&';
        if i < key.len() {
            assert(key.contains(key[i]));
        } else if i > key.len() {
            assert(value.contains(value[i - key.len() - 1]));
        }
    }
    text_laws::splitting_cuts_at_every_separator(key, value, '=');
    text_laws::splitting_cuts_at_every_separator(pair, rest, '&');
    text_laws::splitting_cuts_at_every_separator(key, rest, '&');
    let pairs = text::split_on(rest, '&');
    let all = seq![pair] + pairs;
    assert(all[0] == pair);
    assert(seq![pair][0] == pair);
    assert(seq![key][0] == key);
    lemma_values_behind(pair, pairs, name, 0);
    reveal_with_fuel(selector::value_from, 3);
}

proof fn lemma_values_behind(first: Seq<char>, pairs: Seq<Seq<char>>, name: Seq<char>, i: int)
    requires
        0 <= i <= pairs.len(),
    ensures
        selector::value_from(seq![first] + pairs, name, i + 1) == selector::value_from(
            pairs,
            name,
            i,
        ),
    decreases pairs.len() - i,
{
    if i < pairs.len() {
        assert((seq![first] + pairs)[i + 1] == pairs[i]);
        lemma_values_behind(first, pairs, name, i + 1);
    }
}

/// A clause holds where the text at its path is what it asks for; of several, all
/// must hold.
pub proof fn selector_asks_for_texts(
    value: JsonModel,
    path: Seq<char>,
    expected: Seq<char>,
    rest: Seq<char>,
)
    requires
        !path.contains('='),
        !path.contains(','),
        !expected.contains(','),
    ensures
        selector::selects(value, path + seq!['='] + expected) <==> selector::text_at(value, path)
            == Some(expected),
        selector::selects(value, path + seq!['='] + expected + seq![','] + rest) <==> (
        selector::text_at(value, path) == Some(expected) && selector::selects(value, rest)),
{
    let clause = path + seq!['='] + expected;
    if clause.contains(',') {
        let i = choose|i: int| 0 <= i < clause.len() && clause[i] == ',';
        if i < path.len() {
            assert(path.contains(path[i]));
        } else if i > path.len() {
            assert(expected.contains(expected[i - path.len() - 1]));
        }
    }
    text_laws::splitting_cuts_at_every_separator(path, expected, '=');
    text_laws::splitting_cuts_at_every_separator(clause, rest, ',');
    let whole = clause + seq![','] + rest;
    let clauses = text::split_on(whole, ',');
    let others = text::split_on(rest, ',');
    assert(clauses[0] == clause);
    assert(text::split_on(clause, ',')[0] == clause);
    assert forall|i: int| 0 <= i < others.len() implies #[trigger] others[i] == clauses[i + 1] by {}
    if selector::selects(value, whole) {
        assert(selector::clause_holds(value, clauses[0]));
        assert forall|i: int| 0 <= i < others.len() implies selector::clause_holds(
            value,
            #[trigger] text::split_on(rest, ',')[i],
        ) by {
            assert(selector::clause_holds(value, clauses[i + 1]));
        }
    }
    if selector::text_at(value, path) == Some(expected) && selector::selects(value, rest) {
        assert forall|i: int| 0 <= i < clauses.len() implies selector::clause_holds(
            value,
            #[trigger] text::split_on(whole, ',')[i],
        ) by {
            if i > 0 {
                assert(others[i - 1] == clauses[i]);
            }
        }
    }
}

/// A path goes from member to member.
pub proof fn path_goes_from_member_to_member(
    members: Map<Seq<char>, JsonModel>,
    name: Seq<char>,
    rest: Seq<char>,
)
    requires
        !name.contains('.'),
    ensures
        selector::text_at(JsonModel::Object(members), name) == if members.contains_key(name) {
            match members[name] {
                JsonModel::Text(s) => Some(s),
                _ => None,
            }
        } else {
            None
        },
        selector::text_at(JsonModel::Object(members), name + seq!['.'] + rest)
            == if members.contains_key(name) {
            selector::text_at(members[name], rest)
        } else {
            None
        },
{
    text_laws::splitting_cuts_at_every_separator(name, rest, '.');
    let value = JsonModel::Object(members);
    let first = seq![name];
    assert(first[0] == name);
    reveal_with_fuel(JsonModel::at, 3);
    let path = text::split_on(rest, '.');
    let all = seq![name] + path;
    assert(all[0] == name);
    if members.contains_key(name) {
        lemma_at_behind(members[name], name, path, 0);
    }
}

proof fn lemma_at_behind(value: JsonModel, name: Seq<char>, path: Seq<Seq<char>>, i: int)
    requires
        0 <= i <= path.len(),
    ensures
        value.at(seq![name] + path, i + 1) == value.at(path, i),
    decreases path.len() - i,
{
    if i < path.len() {
        assert((seq![name] + path)[i + 1] == path[i]);
        if let Some(inner) = value.member(path[i]) {
            lemma_at_behind(inner, name, path, i + 1);
        }
    }
}

// ---------------------------------------------------------------------------
// Answers
// ---------------------------------------------------------------------------
/// Whether an answer is a failure with this status, reason and message.
pub open spec fn fails_with(
    r: ResponseModel,
    code: u16,
    reason: Seq<char>,
    message: Seq<char>,
) -> bool {
    &&& r.status == code
    &&& r.body is Object
    &&& r.body->Object_0["kind"@] == JsonModel::Text("Status"@)
    &&& r.body->Object_0["status"@] == JsonModel::Text("Failure"@)
    &&& r.body->Object_0["reason"@] == JsonModel::Text(reason)
    &&& r.body->Object_0["message"@] == JsonModel::Text(message)
    &&& r.body->Object_0["code"@] == JsonModel::Number(JsonNumberModel::Unsigned(code as u64))
}

proof fn lemma_failure(code: u16, reason: Seq<char>, message: Seq<char>)
    ensures
        fails_with(server::failure(code, reason, message), code, reason, message),
{
    reveal_strlit("kind");
    reveal_strlit("apiVersion");
    reveal_strlit("status");
    reveal_strlit("message");
    reveal_strlit("reason");
    reveal_strlit("code");
    assert("kind"@.len() == 4 && "apiVersion"@.len() == 10 && "status"@.len() == 6
        && "message"@.len() == 7 && "reason"@.len() == 6 && "code"@.len() == 4);
    assert("kind"@[0] == 'k' && "code"@[0] == 'c');
    assert("status"@[0] == 's' && "reason"@[0] == 'r');
}

/// What is not there is not found, by its kind and name; a body that is no JSON and a
/// method that is not supported are refused, and nothing changes.
pub proof fn refusals_say_what_is_wrong(
    before: ServerModel,
    method: Seq<char>,
    path: Seq<char>,
    query: Seq<char>,
    plural: Seq<char>,
    namespace: Seq<char>,
    name: Seq<char>,
    patch: JsonModel,
    status: bool,
)
    ensures
        !before.objects.contains_key((plural, namespace, name)) ==> ({
            let message = plural + " \""@ + name + "\" not found"@;
            let key = (plural, namespace, name);
            &&& fails_with(before.reading(key), 404, "NotFound"@, message)
            &&& before.deleting(key).0 == before
            &&& fails_with(before.deleting(key).1, 404, "NotFound"@, message)
            &&& before.patching(key, Some(patch), status).0 == before
            &&& fails_with(before.patching(key, Some(patch), status).1, 404, "NotFound"@, message)
        }),
        before.creating(plural, namespace, None).0 == before,
        fails_with(
            before.creating(plural, namespace, None).1,
            400,
            "BadRequest"@,
            "invalid JSON body"@,
        ),
        before.patching((plural, namespace, name), None, status).0 == before,
        fails_with(
            before.patching((plural, namespace, name), None, status).1,
            400,
            "BadRequest"@,
            "invalid JSON body"@,
        ),
        fails_with(
            server::bad_method_answer(method, plural),
            405,
            "MethodNotAllowed"@,
            "fake apiserver does not support "@ + method + " on "@ + plural,
        ),
{
    lemma_failure(404, "NotFound"@, plural + " \""@ + name + "\" not found"@);
    lemma_failure(400, "BadRequest"@, "invalid JSON body"@);
    lemma_failure(
        405,
        "MethodNotAllowed"@,
        "fake apiserver does not support "@ + method + " on "@ + plural,
    );
}

/// Whether an answer lists, with status 200, the objects of a kind and namespace that
/// meet the selector, in the order of their names and each once.
pub open spec fn is_listing(
    objects: Map<Key, JsonModel>,
    plural: Seq<char>,
    namespace: Seq<char>,
    chosen: Option<Seq<char>>,
    keys: Seq<Key>,
    r: ResponseModel,
) -> bool {
    &&& r.status == 200
    &&& r.body is Object
    &&& r.body->Object_0["kind"@] == JsonModel::Text("List"@)
    &&& r.body->Object_0["apiVersion"@] == JsonModel::Text("v1"@)
    &&& r.body->Object_0["items"@] is Array
    &&& r.body->Object_0["items"@]->Array_0.len() == keys.len()
    &&& forall|i: int|
        0 <= i < keys.len() ==> objects.contains_key(#[trigger] keys[i]) && keys[i].0 == plural
            && keys[i].1 == namespace && r.body->Object_0["items"@]->Array_0[i]
            == objects[keys[i]]
    &&& forall|i: int, j: int|
        0 <= i < j < keys.len() ==> text::text_before(
            (#[trigger] keys[i]).2,
            (#[trigger] keys[j]).2,
        )
    &&& forall|k: Key|
        #[trigger] keys.contains(k) <==> (objects.contains_key(k) && k.0 == plural && k.1
            == namespace && match chosen {
            Some(chosen) => selector::selects(objects[k], chosen),
            None => true,
        })
}

/// A listing holds exactly the objects of its kind and namespace that meet the
/// query's `fieldSelector`, in the order of their names.
pub proof fn listing_holds_what_is_asked_for(
    before: ServerModel,
    path: Seq<char>,
    query: Seq<char>,
    body: Option<JsonModel>,
    after: ServerModel,
    r: ResponseModel,
)
    requires
        server::handles(before, "GET"@, path, query, body, after, r),
        routes::resource_of(path) is Ok,
        routes::resource_of(path)->Ok_0.name is None,
    ensures
        after == before,
        exists|keys: Seq<Key>| #[trigger]
            is_listing(
                before.objects,
                routes::resource_of(path)->Ok_0.plural,
                routes::resource_of(path)->Ok_0.namespace,
                selector::parameter(query, "fieldSelector"@),
                keys,
                r,
            ),
{
    let resource = routes::resource_of(path)->Ok_0;
    let chosen = selector::parameter(query, "fieldSelector"@);
    let p = store::selected(before.objects, resource.plural, resource.namespace, chosen);
    let keys = choose|keys: Seq<Key>| #[trigger]
        store::lists(before.objects, p, keys) && r.body == server::list_object(
            store::values_of(before.objects, keys),
        );
    reveal_strlit("apiVersion");
    reveal_strlit("kind");
    reveal_strlit("items");
    assert("apiVersion"@.len() == 10 && "kind"@.len() == 4 && "items"@.len() == 5);
    assert forall|i: int| 0 <= i < keys.len() implies before.objects.contains_key(
        #[trigger] keys[i],
    ) && p(keys[i]) by {
        assert(keys.contains(keys[i]));
    }
    assert forall|i: int, j: int| 0 <= i < j < keys.len() implies text::text_before(
        (#[trigger] keys[i]).2,
        (#[trigger] keys[j]).2,
    ) by {
        assert(store::key_before(keys[i], keys[j]));
        assert(p(keys[i]) && p(keys[j]));
        text::lemma_text_order(keys[i].0, keys[j].0);
        text::lemma_text_order(keys[i].1, keys[j].1);
    }
    assert(is_listing(
        before.objects,
        resource.plural,
        resource.namespace,
        chosen,
        keys,
        r,
    ));
}

/// A request with a name is about the object with it alone, and one without a name
/// makes one.
pub proof fn method_decides_what_is_done(
    before: ServerModel,
    method: Seq<char>,
    path: Seq<char>,
    query: Seq<char>,
    body: Option<JsonModel>,
    after: ServerModel,
    r: ResponseModel,
)
    requires
        server::handles(before, method, path, query, body, after, r),
    ensures
        match routes::resource_of(path) {
            Err(message) => after == before && fails_with(r, 404, "NotFound"@, message),
            Ok(resource) => match resource.name {
                None => {
                    &&& method == "POST"@ ==> (after, r) == before.creating(
                        resource.plural,
                        resource.namespace,
                        body,
                    )
                    &&& method != "POST"@ && method != "GET"@ ==> after == before && fails_with(
                        r,
                        405,
                        "MethodNotAllowed"@,
                        "fake apiserver does not support "@ + method + " on "@ + resource.plural,
                    )
                },
                Some(name) => {
                    let key = (resource.plural, resource.namespace, name);
                    &&& method == "GET"@ ==> after == before && r == before.reading(key)
                    &&& method == "PATCH"@ ==> (after, r) == before.patching(
                        key,
                        body,
                        resource.status,
                    )
                    &&& method == "DELETE"@ ==> (after, r) == before.deleting(key)
                    &&& method != "GET"@ && method != "PATCH"@ && method != "DELETE"@ ==> after
                        == before && fails_with(
                        r,
                        405,
                        "MethodNotAllowed"@,
                        "fake apiserver does not support "@ + method + " on "@ + resource.plural,
                    )
                },
            },
        },
{
    reveal_strlit("GET");
    reveal_strlit("POST");
    reveal_strlit("PATCH");
    reveal_strlit("DELETE");
    assert("GET"@.len() == 3 && "POST"@.len() == 4 && "PATCH"@.len() == 5 && "DELETE"@.len() == 6);
    match routes::resource_of(path) {
        Err(message) => {
            lemma_failure(404, "NotFound"@, message);
        },
        Ok(resource) => {
            lemma_failure(
                405,
                "MethodNotAllowed"@,
                "fake apiserver does not support "@ + method + " on "@ + resource.plural,
            );
        },
    }
}

/// What is in an object's metadata under a name.
pub open spec fn in_metadata(value: JsonModel, key: Seq<char>) -> Option<JsonModel> {
    if value is Object && value->Object_0.contains_key("metadata"@)
        && value->Object_0["metadata"@] is Object
        && value->Object_0["metadata"@]->Object_0.contains_key(key) {
        Some(value->Object_0["metadata"@]->Object_0[key])
    } else {
        None
    }
}

proof fn lemma_metadata_keys()
    ensures
        "name"@.len() == 4,
        "namespace"@.len() == 9,
        "generation"@.len() == 10,
        "generateName"@.len() == 12,
        "metadata"@.len() == 8,
{
    reveal_strlit("name");
    reveal_strlit("namespace");
    reveal_strlit("generation");
    reveal_strlit("generateName");
    reveal_strlit("metadata");
}

/// An object is created under the name in its metadata, or else under what its
/// `generateName` says, or `generated-`, and the next number of the server; it is
/// stored and answered with that name, with the namespace where there is one, and with
/// the first generation unless it states one. Whatever else is in it stays.
pub proof fn created_object_is_completed(
    before: ServerModel,
    plural: Seq<char>,
    namespace: Seq<char>,
    value: JsonModel,
    key: Seq<char>,
)
    requires
        before.counter < u64::MAX,
        value is Object,
        value->Object_0.contains_key("metadata"@),
        value->Object_0["metadata"@] is Object,
    ensures
        ({
            let (after, r) = before.creating(plural, namespace, Some(value));
            let own = match in_metadata(value, "name"@) {
                Some(JsonModel::Text(name)) => name,
                _ => Seq::empty(),
            };
            let prefix = match in_metadata(value, "generateName"@) {
                Some(JsonModel::Text(prefix)) => prefix,
                _ => "generated-"@,
            };
            let name = if own.len() > 0 {
                own
            } else {
                prefix + numbers::decimal_padded5((before.counter + 1) as nat)
            };
            &&& r.status == 201
            &&& after.objects == before.objects.insert((plural, namespace, name), r.body)
            &&& after.counter == if own.len() > 0 {
                before.counter as int
            } else {
                before.counter + 1
            }
            &&& in_metadata(r.body, "name"@) == Some(JsonModel::Text(name))
            &&& namespace.len() > 0 ==> in_metadata(r.body, "namespace"@) == Some(
                JsonModel::Text(namespace),
            )
            &&& in_metadata(value, "generation"@) is None ==> in_metadata(r.body, "generation"@)
                == Some(JsonModel::Number(JsonNumberModel::Unsigned(1)))
            &&& in_metadata(value, "generation"@) is Some ==> in_metadata(r.body, "generation"@)
                == in_metadata(value, "generation"@)
            &&& key != "metadata"@ && value->Object_0.contains_key(key) ==> r.body is Object
                && r.body->Object_0.contains_key(key) && r.body->Object_0[key]
                == value->Object_0[key]
            &&& key != "name"@ && key != "namespace"@ && key != "generation"@ ==> in_metadata(
                r.body,
                key,
            ) == in_metadata(value, key)
        }),
{
    lemma_metadata_keys();
}

/// The generation of an object: the whole number in its metadata, or none.
pub open spec fn generation(value: JsonModel) -> int {
    match in_metadata(value, "generation"@) {
        Some(JsonModel::Number(JsonNumberModel::Unsigned(n))) => if n <= i64::MAX {
            n as int
        } else {
            0
        },
        Some(JsonModel::Number(JsonNumberModel::Negative(n))) => n as int,
        _ => 0,
    }
}

/// A patch is merged into the object; its generation is then counted up by one, but
/// for a patch of the status, and nothing else changes.
pub proof fn patched_object_is_counted(
    before: ServerModel,
    key: Key,
    patch: JsonModel,
    member: Seq<char>,
)
    requires
        before.objects.contains_key(key),
        ({
            let merged = json::merged(before.objects[key], patch);
            &&& merged is Object
            &&& merged->Object_0.contains_key("metadata"@)
            &&& merged->Object_0["metadata"@] is Object
            &&& generation(merged) < i64::MAX
        }),
    ensures
        ({
            let merged = json::merged(before.objects[key], patch);
            let (after, r) = before.patching(key, Some(patch), false);
            &&& r.status == 200
            &&& after.objects == before.objects.insert(key, r.body)
            &&& after.counter == before.counter
            &&& generation(r.body) == generation(merged) + 1
            &&& member != "generation"@ ==> in_metadata(r.body, member) == in_metadata(
                merged,
                member,
            )
            &&& member != "metadata"@ ==> r.body->Object_0.contains_key(member)
                == merged->Object_0.contains_key(member)
            &&& member != "metadata"@ && merged->Object_0.contains_key(member)
                ==> r.body->Object_0[member] == merged->Object_0[member]
        }),
        ({
            let merged = json::merged(before.objects[key], patch);
            let (after, r) = before.patching(key, Some(patch), true);
            &&& r.status == 200
            &&& r.body == merged
            &&& after.objects == before.objects.insert(key, merged)
        }),
{
    lemma_metadata_keys();
}

/// Reading gives what is stored, and deleting takes it out.
pub proof fn stored_objects_are_read_and_deleted(before: ServerModel, key: Key)
    requires
        before.objects.contains_key(key),
    ensures
        before.reading(key) == (ResponseModel { status: 200, body: before.objects[key] }),
        before.deleting(key).1 == (ResponseModel { status: 200, body: before.objects[key] }),
        before.deleting(key).0.objects == before.objects.remove(key),
        before.deleting(key).0.counter == before.counter,
{
}

/// Keys are ordered by kind, then namespace, then name; names are listed by kind.
pub proof fn keys_are_ordered_by_kind_first(a: Key, b: Key, plural: Seq<char>)
    ensures
        text::text_before(a.0, b.0) ==> store::key_before(a, b),
        a.0 == b.0 && text::text_before(a.1, b.1) ==> store::key_before(a, b),
        a.0 == b.0 && a.1 == b.1 ==> (store::key_before(a, b) <==> text::text_before(a.2, b.2)),
        store::of_kind(plural)(a) <==> a.0 == plural,
        store::names_of(seq![a]) == seq![a.2],
{
    text::lemma_text_order(a.0, b.0);
    text::lemma_text_order(a.1, b.1);
    assert(store::names_of(seq![a]) =~= seq![a.2]);
}

} // verus!
