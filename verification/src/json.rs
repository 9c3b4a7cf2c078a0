//! JSON values, and the merge patch of RFC 7386 on them.
use vstd::prelude::*;

use crate::text;

verus! {

/// A number: whole numbers by value, others by their text.
#[derive(Debug, PartialEq, Eq)]
pub enum JsonNumber {
    Unsigned(u64),
    Negative(i64),
    Other(String),
}

/// A JSON value.
#[derive(Debug, PartialEq, Eq)]
pub enum Json {
    Null,
    Bool(bool),
    Number(JsonNumber),
    Text(String),
    Array(Vec<Json>),
    /// The members, by name. Of two with the same name the first counts.
    Object(Vec<(String, Json)>),
}

/// The model of a [`JsonNumber`].
pub enum JsonNumberModel {
    Unsigned(u64),
    Negative(i64),
    Other(Seq<char>),
}

/// The model of a [`Json`] value.
pub enum JsonModel {
    Null,
    Bool(bool),
    Number(JsonNumberModel),
    Text(Seq<char>),
    Array(Seq<JsonModel>),
    Object(Map<Seq<char>, JsonModel>),
}

impl DeepView for JsonNumber {
    type V = JsonNumberModel;

    open spec fn deep_view(&self) -> JsonNumberModel {
        match self {
            JsonNumber::Unsigned(n) => JsonNumberModel::Unsigned(*n),
            JsonNumber::Negative(n) => JsonNumberModel::Negative(*n),
            JsonNumber::Other(s) => JsonNumberModel::Other(s@),
        }
    }
}

impl JsonNumberModel {
    /// The value of a whole number that fits into 64 bits with a sign.
    pub open spec fn as_i64(self) -> Option<i64> {
        match self {
            JsonNumberModel::Unsigned(n) => if n <= i64::MAX {
                Some(n as i64)
            } else {
                None
            },
            JsonNumberModel::Negative(n) => Some(n),
            JsonNumberModel::Other(_) => None,
        }
    }
}

// ---------------------------------------------------------------------------
// Members
// ---------------------------------------------------------------------------
/// The index of the first member named `key`, or the number of members.
pub open spec fn member_index(members: Seq<(String, Json)>, key: Seq<char>) -> int
    decreases members.len(),
{
    if members.len() == 0 || members[0].0@ == key {
        0
    } else {
        1 + member_index(members.drop_first(), key)
    }
}

/// No name occurs twice.
pub open spec fn distinct_names(members: Seq<(String, Json)>) -> bool {
    forall|i: int, j: int|
        0 <= i < j < members.len() ==> (#[trigger] members[i]).0@ != (#[trigger] members[j]).0@
}

/// No name occurs twice, in these members or in an object among their values.
pub open spec fn members_wf(members: Seq<(String, Json)>) -> bool {
    distinct_names(members) && forall|i: int|
        #![trigger members[i]]
        0 <= i < members.len() ==> members[i].1.wf()
}

/// The members by name.
pub open spec fn member_map(members: Seq<(String, Json)>) -> Map<Seq<char>, JsonModel> {
    Map::new(
        |key: Seq<char>| member_index(members, key) < members.len(),
        |key: Seq<char>| members[member_index(members, key)].1.model(),
    )
}

impl Json {
    pub open spec fn model(self) -> JsonModel
        decreases self,
    {
        match self {
            Json::Null => JsonModel::Null,
            Json::Bool(b) => JsonModel::Bool(b),
            Json::Number(n) => JsonModel::Number(n.deep_view()),
            Json::Text(s) => JsonModel::Text(s@),
            Json::Array(items) => JsonModel::Array(
                Seq::new(
                    items@.len(),
                    |i: int|
                        if 0 <= i < items@.len() {
                            items@[i].model()
                        } else {
                            JsonModel::Null
                        },
                ),
            ),
            Json::Object(members) => JsonModel::Object(
                Map::new(
                    |key: Seq<char>| member_index(members@, key) < members@.len(),
                    |key: Seq<char>|
                        {
                            let i = member_index(members@, key);
                            if 0 <= i < members@.len() {
                                members@[i].1.model()
                            } else {
                                JsonModel::Null
                            }
                        },
                ),
            ),
        }
    }
}

impl DeepView for Json {
    type V = JsonModel;

    open spec fn deep_view(&self) -> JsonModel {
        self.model()
    }
}

pub proof fn lemma_member_index(members: Seq<(String, Json)>, key: Seq<char>)
    ensures
        0 <= member_index(members, key) <= members.len(),
        forall|j: int| 0 <= j < member_index(members, key) ==> (#[trigger] members[j]).0@ != key,
        member_index(members, key) < members.len() ==> members[member_index(members, key)].0@
            == key,
    decreases members.len(),
{
    if members.len() > 0 && members[0].0@ != key {
        let rest = members.drop_first();
        lemma_member_index(rest, key);
        assert forall|j: int| 0 <= j < member_index(members, key) implies (
        #[trigger] members[j]).0@ != key by {
            if j > 0 {
                assert(members[j] == rest[j - 1]);
            }
        }
    }
}

pub proof fn lemma_member_index_is(members: Seq<(String, Json)>, key: Seq<char>, i: int)
    requires
        0 <= i <= members.len(),
        forall|j: int| 0 <= j < i ==> (#[trigger] members[j]).0@ != key,
        i < members.len() ==> members[i].0@ == key,
    ensures
        member_index(members, key) == i,
{
    lemma_member_index(members, key);
    let k = member_index(members, key);
    if k < i {
        assert(members[k].0@ != key);
    } else if i < k {
        assert(members[i].0@ != key);
    }
}

/// The model of an object is the map of its members.
pub proof fn lemma_object_model(members: Vec<(String, Json)>)
    ensures
        Json::Object(members).model() == JsonModel::Object(member_map(members@)),
{
    let direct = Json::Object(members).model()->Object_0;
    let named = member_map(members@);
    assert forall|key: Seq<char>| direct.contains_key(key) == named.contains_key(key) by {}
    assert forall|key: Seq<char>| direct.contains_key(key) implies direct[key] == named[key] by {
        lemma_member_index(members@, key);
    }
    assert(direct =~= named);
}

fn position(members: &Vec<(String, Json)>, key: &str) -> (r: usize)
    ensures
        r == member_index(members@, key@),
        r <= members@.len(),
{
    let mut i: usize = 0;
    while i < members.len() && !text::text_eq(&members[i].0, key)
        invariant
            i <= members@.len(),
            forall|j: int| 0 <= j < i ==> (#[trigger] members@[j]).0@ != key@,
        decreases members@.len() - i,
    {
        i = i + 1;
    }
    proof {
        lemma_member_index_is(members@, key@, i as int);
    }
    i
}

/// The value of the member `key`.
pub fn find_member<'a>(members: &'a Vec<(String, Json)>, key: &str) -> (r: Option<&'a Json>)
    ensures
        match r {
            Some(value) => member_map(members@).contains_key(key@) && member_map(members@)[key@]
                == value.model() && (members_wf(members@) ==> value.wf()),
            None => !member_map(members@).contains_key(key@),
        },
{
    let i: usize = position(members, key);
    proof {
        lemma_member_index(members@, key@);
    }
    if i < members.len() {
        Some(&members[i].1)
    } else {
        None
    }
}

/// Sets the member `key`.
pub fn set_member(members: &mut Vec<(String, Json)>, key: &str, value: Json)
    requires
        distinct_names(old(members)@),
    ensures
        member_map(final(members)@) == member_map(old(members)@).insert(key@, value.model()),
        distinct_names(final(members)@),
        members_wf(old(members)@) && value.wf() ==> members_wf(final(members)@),
{
    let i: usize = position(members, key);
    let ghost before = members@;
    proof {
        lemma_member_index(before, key@);
    }
    if i < members.len() {
        members[i] = (key.to_owned(), value);
    } else {
        members.push((key.to_owned(), value));
    }
    proof {
        let after = members@;
        assert(after[i as int].0@ == key@);
        lemma_member_index_is(after, key@, i as int);
        let wanted = member_map(before).insert(key@, value.model());
        assert forall|k: Seq<char>|
            #![trigger member_map(after).dom().contains(k)]
            #![trigger member_map(after)[k]]
            member_map(after).contains_key(k) == wanted.contains_key(k) && (
            wanted.contains_key(k) ==> member_map(after)[k] == wanted[k]) by {
            lemma_member_index(before, k);
            let at = member_index(before, k);
            if k != key@ {
                lemma_member_index_is(
                    after,
                    k,
                    if at < before.len() {
                        at
                    } else {
                        after.len() as int
                    },
                );
            }
        }
        assert(member_map(after) =~= wanted);
    }
}

/// Removes the member `key` and returns it.
pub fn remove_member(members: &mut Vec<(String, Json)>, key: &str) -> (r: Option<Json>)
    requires
        distinct_names(old(members)@),
    ensures
        member_map(final(members)@) == member_map(old(members)@).remove(key@),
        distinct_names(final(members)@),
        match r {
            Some(value) => member_index(old(members)@, key@) < old(members)@.len() && value
                == old(members)@[member_index(old(members)@, key@)].1,
            None => !member_map(old(members)@).contains_key(key@) && final(members)@ == old(
                members,
            )@,
        },
        members_wf(old(members)@) ==> members_wf(final(members)@),
        r matches Some(value) ==> members_wf(old(members)@) ==> value.wf(),
{
    let i: usize = position(members, key);
    let ghost before = members@;
    proof {
        lemma_member_index(before, key@);
    }
    if i < members.len() {
        let (_, value) = members.remove(i);
        proof {
            let after = members@;
            let wanted = member_map(before).remove(key@);
            assert forall|k: Seq<char>|
                member_map(after).contains_key(k) == #[trigger] wanted.contains_key(k) && (
                wanted.contains_key(k) ==> member_map(after)[k] == wanted[k]) by {
                lemma_member_index(before, k);
                let at = member_index(before, k);
                if k == key@ || at == before.len() {
                    lemma_member_index_is(after, k, after.len() as int);
                } else {
                    lemma_member_index_is(
                        after,
                        k,
                        if at < i {
                            at
                        } else {
                            at - 1
                        },
                    );
                }
            }
            assert(member_map(after) =~= wanted);
        }
        Some(value)
    } else {
        assert(member_map(before) =~= member_map(before).remove(key@));
        None
    }
}

/// No members.
pub fn no_members() -> (r: Vec<(String, Json)>)
    ensures
        member_map(r@) == Map::<Seq<char>, JsonModel>::empty(),
        members_wf(r@),
{
    let r: Vec<(String, Json)> = Vec::new();
    assert(member_map(r@) =~= Map::<Seq<char>, JsonModel>::empty());
    r
}

/// Sets the member `key` to a text.
pub fn set_text(members: &mut Vec<(String, Json)>, key: &str, value: &str)
    requires
        members_wf(old(members)@),
    ensures
        members_wf(final(members)@),
        member_map(final(members)@) == member_map(old(members)@).insert(
            key@,
            JsonModel::Text(value@),
        ),
{
    set_member(members, key, Json::Text(value.to_owned()));
}

/// The model of texts in a row.
pub open spec fn text_array_model(texts: Seq<Seq<char>>) -> JsonModel {
    JsonModel::Array(Seq::new(texts.len(), |i: int| JsonModel::Text(texts[i])))
}

/// An array of texts.
pub fn text_array(texts: &Vec<String>) -> (r: Json)
    ensures
        r.model() == text_array_model(texts.deep_view()),
        r.wf(),
{
    let mut items: Vec<Json> = Vec::new();
    let mut i: usize = 0;
    while i < texts.len()
        invariant
            i <= texts@.len(),
            items@.len() == i,
            forall|j: int|
                0 <= j < i ==> (#[trigger] items@[j]).model() == JsonModel::Text(texts@[j]@)
                    && items@[j].wf(),
        decreases texts@.len() - i,
    {
        items.push(Json::Text(texts[i].clone()));
        i = i + 1;
    }
    proof {
        lemma_array_model(items);
        assert(models(items@) =~= Seq::new(
            texts.deep_view().len(),
            |i: int| JsonModel::Text(texts.deep_view()[i]),
        ));
    }
    Json::Array(items)
}

// ---------------------------------------------------------------------------
// Reading
// ---------------------------------------------------------------------------
impl JsonModel {
    /// The member `key` of an object.
    pub open spec fn member(self, key: Seq<char>) -> Option<JsonModel> {
        match self {
            JsonModel::Object(members) => if members.contains_key(key) {
                Some(members[key])
            } else {
                None
            },
            _ => None,
        }
    }

    /// The value at a path of member names, from number `i` on.
    pub open spec fn at(self, path: Seq<Seq<char>>, i: int) -> Option<JsonModel>
        decreases path.len() - i,
    {
        if i < 0 || i >= path.len() {
            Some(self)
        } else {
            match self.member(path[i]) {
                Some(value) => value.at(path, i + 1),
                None => None,
            }
        }
    }

    pub open spec fn as_text(self) -> Option<Seq<char>> {
        match self {
            JsonModel::Text(s) => Some(s),
            _ => None,
        }
    }
}

/// The models of values in a row.
pub open spec fn models(values: Seq<Json>) -> Seq<JsonModel> {
    Seq::new(values.len(), |i: int| values[i].model())
}

/// The model of an array is that of its items.
pub proof fn lemma_array_model(items: Vec<Json>)
    ensures
        Json::Array(items).model() == JsonModel::Array(models(items@)),
{
    assert(Json::Array(items).model()->Array_0 =~= models(items@));
}

/// The model of a value that may be missing.
pub open spec fn model_of(value: Option<&Json>) -> Option<JsonModel> {
    match value {
        Some(value) => Some(value.model()),
        None => None,
    }
}

impl JsonNumber {
    /// The value of a whole number that fits into 64 bits with a sign.
    pub fn as_i64(&self) -> (r: Option<i64>)
        ensures
            r == self.deep_view().as_i64(),
    {
        match self {
            JsonNumber::Unsigned(n) => if *n <= i64::MAX as u64 {
                Some(*n as i64)
            } else {
                None
            },
            JsonNumber::Negative(n) => Some(*n),
            JsonNumber::Other(_) => None,
        }
    }
}

impl Json {
    /// The member `key` of an object.
    pub fn get(&self, key: &str) -> (r: Option<&Json>)
        ensures
            model_of(r) == self.model().member(key@),
            r matches Some(value) ==> self.wf() ==> value.wf(),
    {
        match self {
            Json::Object(members) => {
                proof {
                    lemma_object_model(*members);
                }
                find_member(members, key)
            },
            _ => None,
        }
    }

    pub fn as_str(&self) -> (r: Option<&str>)
        ensures
            match r {
                Some(s) => self.model().as_text() == Some(s@),
                None => self.model().as_text() is None,
            },
    {
        match self {
            Json::Text(s) => Some(s.as_str()),
            _ => None,
        }
    }

    /// Whether no object in this value has two members with the same name.
    pub open spec fn wf(self) -> bool
        decreases self,
    {
        match self {
            Json::Array(items) => forall|i: int|
                #![trigger items@[i]]
                0 <= i < items@.len() ==> items@[i].wf(),
            Json::Object(members) => distinct_names(members@) && forall|i: int|
                #![trigger members@[i]]
                0 <= i < members@.len() ==> members@[i].1.wf(),
            _ => true,
        }
    }

    /// A copy of this value.
    pub fn copy(&self) -> (r: Json)
        ensures
            r.model() == self.model(),
            self.wf() ==> r.wf(),
        decreases *self,
    {
        match self {
            Json::Null => Json::Null,
            Json::Bool(b) => Json::Bool(*b),
            Json::Number(n) => Json::Number(
                match n {
                    JsonNumber::Unsigned(n) => JsonNumber::Unsigned(*n),
                    JsonNumber::Negative(n) => JsonNumber::Negative(*n),
                    JsonNumber::Other(s) => JsonNumber::Other(s.clone()),
                },
            ),
            Json::Text(s) => Json::Text(s.clone()),
            Json::Array(items) => {
                let mut out: Vec<Json> = Vec::new();
                let mut i: usize = 0;
                while i < items.len()
                    invariant
                        i <= items@.len(),
                        *self == Json::Array(*items),
                        self.wf() ==> forall|j: int|
                            0 <= j < items@.len() ==> (#[trigger] items@[j]).wf(),
                        out@.len() == i,
                        forall|j: int|
                            0 <= j < i ==> (#[trigger] out@[j]).model() == items@[j].model(),
                        self.wf() ==> forall|j: int| 0 <= j < i ==> (#[trigger] out@[j]).wf(),
                    decreases items@.len() - i,
                {
                    let item = items[i].copy();
                    out.push(item);
                    i = i + 1;
                }
                let r = Json::Array(out);
                assert(r.model()->Array_0 =~= self.model()->Array_0);
                r
            },
            Json::Object(members) => {
                let mut out: Vec<(String, Json)> = Vec::new();
                let mut i: usize = 0;
                while i < members.len()
                    invariant
                        i <= members@.len(),
                        *self == Json::Object(*members),
                        out@.len() == i,
                        forall|j: int|
                            0 <= j < i ==> (#[trigger] out@[j]).0@ == members@[j].0@
                                && out@[j].1.model() == members@[j].1.model(),
                        self.wf() ==> forall|j: int| 0 <= j < i ==> (#[trigger] out@[j]).1.wf(),
                    decreases members@.len() - i,
                {
                    let member = &members[i];
                    assert(decreases_to!(*self => self->Object_0));
                    assert(decreases_to!(self->Object_0 => self->Object_0@));
                    assert(decreases_to!(self->Object_0@ => self->Object_0@[i as int]));
                    assert(decreases_to!(members@[i as int] => members@[i as int].1));
                    let value = member.1.copy();
                    out.push((members[i].0.clone(), value));
                    i = i + 1;
                }
                proof {
                    lemma_same_members(out@, members@);
                    lemma_object_model(out);
                    lemma_object_model(*members);
                }
                Json::Object(out)
            },
        }
    }
}

proof fn lemma_same_members(a: Seq<(String, Json)>, b: Seq<(String, Json)>)
    requires
        a.len() == b.len(),
        forall|j: int|
            0 <= j < a.len() ==> (#[trigger] a[j]).0@ == b[j].0@ && a[j].1.model() == b[j].1.model(),
    ensures
        member_map(a) == member_map(b),
        distinct_names(b) ==> distinct_names(a),
{
    assert forall|key: Seq<char>| member_index(a, key) == member_index(b, key) by {
        lemma_member_index(b, key);
        let i = member_index(b, key);
        assert forall|j: int| 0 <= j < i implies (#[trigger] a[j]).0@ != key by {
            assert(b[j].0@ != key);
        }
        lemma_member_index_is(a, key, i);
    }
    assert forall|key: Seq<char>| member_map(a).contains_key(key) implies member_map(a)[key]
        == member_map(b)[key] by {
        lemma_member_index(a, key);
    }
    assert(member_map(a) =~= member_map(b));
    if distinct_names(b) {
        assert forall|i: int, j: int| 0 <= i < j < a.len() implies (#[trigger] a[i]).0@ != (
        #[trigger] a[j]).0@ by {
            assert(b[i].0@ != b[j].0@);
        }
    }
}

// ---------------------------------------------------------------------------
// Merge patch
// ---------------------------------------------------------------------------
/// The members of an object; none of another value.
pub open spec fn members_of(value: JsonModel) -> Map<Seq<char>, JsonModel> {
    match value {
        JsonModel::Object(members) => members,
        _ => Map::empty(),
    }
}

/// The member `key`, or null where there is none.
pub open spec fn merged_member(
    before: Map<Seq<char>, JsonModel>,
    key: Seq<char>,
) -> JsonModel {
    if before.contains_key(key) {
        before[key]
    } else {
        JsonModel::Null
    }
}

/// `target` after the merge patch `patch`: a patch that is an object removes
/// the members that it has as null and merges the others, one by one; any other
/// patch replaces the target.
pub open spec fn merged(target: JsonModel, patch: JsonModel) -> JsonModel
    decreases patch,
{
    match patch {
        JsonModel::Object(changes) => {
            let before = members_of(target);
            JsonModel::Object(
                Map::new(
                    |key: Seq<char>|
                        if changes.contains_key(key) {
                            !(changes[key] is Null)
                        } else {
                            before.contains_key(key)
                        },
                    |key: Seq<char>|
                        if changes.contains_key(key) {
                            merged(merged_member(before, key), changes[key])
                        } else {
                            before[key]
                        },
                ),
            )
        },
        _ => patch,
    }
}

/// Whether `now` is `before` with the first `n` of the members `changes`
/// merged.
spec fn merged_up_to(
    before: Map<Seq<char>, JsonModel>,
    changes: Seq<(String, Json)>,
    n: int,
    now: Map<Seq<char>, JsonModel>,
) -> bool {
    forall|key: Seq<char>|
        {
            let i = member_index(changes, key);
            if i < n && i < changes.len() {
                &&& now.contains_key(key) == !(changes[i].1.model() is Null)
                &&& now.contains_key(key) ==> now[key] == merged(
                    merged_member(before, key),
                    changes[i].1.model(),
                )
            } else {
                &&& #[trigger] now.contains_key(key) == before.contains_key(key)
                &&& now.contains_key(key) ==> now[key] == before[key]
            }
        }
}

proof fn lemma_merged_step(
    before: Map<Seq<char>, JsonModel>,
    changes: Seq<(String, Json)>,
    n: int,
    earlier: Map<Seq<char>, JsonModel>,
    now: Map<Seq<char>, JsonModel>,
)
    requires
        0 <= n < changes.len(),
        member_index(changes, changes[n].0@) == n,
        merged_up_to(before, changes, n, earlier),
        now == (if changes[n].1.model() is Null {
            earlier.remove(changes[n].0@)
        } else {
            earlier.insert(
                changes[n].0@,
                merged(merged_member(before, changes[n].0@), changes[n].1.model()),
            )
        }),
    ensures
        merged_up_to(before, changes, n + 1, now),
{
    assert forall|key: Seq<char>|
        {
            let i = member_index(changes, key);
            if i < n + 1 && i < changes.len() {
                &&& now.contains_key(key) == !(changes[i].1.model() is Null)
                &&& now.contains_key(key) ==> now[key] == merged(
                    merged_member(before, key),
                    changes[i].1.model(),
                )
            } else {
                &&& #[trigger] now.contains_key(key) == before.contains_key(key)
                &&& now.contains_key(key) ==> now[key] == before[key]
            }
        } by {
        lemma_member_index(changes, key);
        assert(earlier.contains_key(key) == earlier.contains_key(key));
    }
}

proof fn lemma_merged_all(
    target: JsonModel,
    changes: Vec<(String, Json)>,
    now: Map<Seq<char>, JsonModel>,
)
    requires
        merged_up_to(members_of(target), changes@, changes@.len() as int, now),
    ensures
        JsonModel::Object(now) == merged(target, Json::Object(changes).model()),
{
    lemma_object_model(changes);
    let whole = merged(target, JsonModel::Object(member_map(changes@)))->Object_0;
    assert forall|key: Seq<char>| now.contains_key(key) == whole.contains_key(key) && (
    now.contains_key(key) ==> now[key] == whole[key]) by {
        lemma_member_index(changes@, key);
    }
    assert(now =~= whole);
}

/// Applies a merge patch.
pub fn merge_patch(target: &mut Json, patch: &Json)
    requires
        old(target).wf(),
        patch.wf(),
    ensures
        final(target).model() == merged(old(target).model(), patch.model()),
        final(target).wf(),
    decreases *patch,
{
    match patch {
        Json::Object(changes) => {
            let ghost whole = target.model();
            let ghost before = members_of(whole);
            let mut value = Json::Null;
            std::mem::swap(target, &mut value);
            let mut members: Vec<(String, Json)> = match value {
                Json::Object(members) => {
                    proof {
                        lemma_object_model(members);
                    }
                    members
                },
                _ => {
                    let empty: Vec<(String, Json)> = Vec::new();
                    assert(member_map(empty@) =~= Map::empty());
                    empty
                },
            };
            assert(member_map(members@) == before);
            proof {
                assert forall|key: Seq<char>| 0 <= member_index(changes@, key) by {
                    lemma_member_index(changes@, key);
                }
            }
            let mut i: usize = 0;
            while i < changes.len()
                invariant
                    i <= changes@.len(),
                    *patch == Json::Object(*changes),
                    patch.wf(),
                    members_wf(members@),
                    merged_up_to(before, changes@, i as int, member_map(members@)),
                decreases changes@.len() - i,
            {
                let ghost earlier = member_map(members@);
                let key = changes[i].0.as_str();
                proof {
                    assert forall|j: int| 0 <= j < i implies (
                    #[trigger] changes@[j]).0@ != key@ by {
                        assert(changes@[j].0@ != changes@[i as int].0@);
                    }
                    lemma_member_index_is(changes@, key@, i as int);
                    assert(earlier.contains_key(key@) == before.contains_key(key@));
                }
                let removed = remove_member(&mut members, key);
                let change = &changes[i].1;
                let is_null: bool = match change {
                    Json::Null => true,
                    _ => false,
                };
                if !is_null {
                    let mut merging = match removed {
                        Some(value) => value,
                        None => Json::Null,
                    };
                    assert(merging.model() == merged_member(before, key@));
                    merge_patch(&mut merging, change);
                    set_member(&mut members, key, merging);
                    proof {
                        assert(earlier.remove(key@).insert(key@, merging.model())
                            =~= earlier.insert(key@, merging.model()));
                    }
                }
                proof {
                    lemma_merged_step(
                        before,
                        changes@,
                        i as int,
                        earlier,
                        member_map(members@),
                    );
                }
                i = i + 1;
            }
            proof {
                lemma_object_model(*changes);
                lemma_object_model(members);
                lemma_merged_all(whole, *changes, member_map(members@));
            }
            *target = Json::Object(members);
        },
        _ => {
            *target = patch.copy();
        },
    }
}

// ---------------------------------------------------------------------------
// Laws of the merge patch
// ---------------------------------------------------------------------------
/// A patch touches only the members that it names: each other member of the
/// target stays as it was.
pub proof fn merge_keeps_what_the_patch_does_not_name(
    target: JsonModel,
    patch: JsonModel,
    key: Seq<char>,
)
    requires
        patch is Object,
        patch.member(key) is None,
        target is Object,
    ensures
        merged(target, patch).member(key) == target.member(key),
{
}

/// A member that the patch has as null is gone afterwards.
pub proof fn merge_removes_nulls(target: JsonModel, patch: JsonModel, key: Seq<char>)
    requires
        patch.member(key) == Some(JsonModel::Null),
    ensures
        merged(target, patch).member(key) is None,
{
}

/// A member that the patch has as something other than null or an object has
/// that value afterwards.
pub proof fn merge_sets_values(
    target: JsonModel,
    patch: JsonModel,
    key: Seq<char>,
    value: JsonModel,
)
    requires
        patch.member(key) == Some(value),
        !(value is Null),
        !(value is Object),
    ensures
        merged(target, patch).member(key) == Some(value),
{
    reveal_with_fuel(merged, 2);
}

/// Applying a patch a second time changes nothing.
pub proof fn merge_is_idempotent(target: JsonModel, patch: JsonModel)
    ensures
        merged(merged(target, patch), patch) == merged(target, patch),
    decreases patch,
{
    if let JsonModel::Object(changes) = patch {
        let before = members_of(target);
        let once = members_of(merged(target, patch));
        let twice = members_of(merged(merged(target, patch), patch));
        assert forall|key: Seq<char>|
            #![trigger twice.dom().contains(key)]
            #![trigger twice[key]]
            twice.contains_key(key) == once.contains_key(key) && (once.contains_key(key)
                ==> twice[key] == once[key]) by {
            if changes.contains_key(key) && !(changes[key] is Null) {
                merge_is_idempotent(merged_member(before, key), changes[key]);
            }
        }
        assert(twice =~= once);
    }
}

} // verus!
