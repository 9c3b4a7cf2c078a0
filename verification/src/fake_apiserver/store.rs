//! The objects that the server holds, in the order of their keys.
use vstd::prelude::*;

use crate::json;
use crate::json::{Json, JsonModel};
use crate::fake_apiserver::selector;
use crate::text;

verus! {

/// What an object is found by: the plural of its kind, its namespace (empty
/// where it has none) and its name.
pub type Key = (Seq<char>, Seq<char>, Seq<char>);

/// The order of keys: by plural, then by namespace, then by name.
pub open spec fn key_before(a: Key, b: Key) -> bool {
    ||| text::text_before(a.0, b.0)
    ||| a.0 == b.0 && text::text_before(a.1, b.1)
    ||| a.0 == b.0 && a.1 == b.1 && text::text_before(a.2, b.2)
}

proof fn lemma_key_order(a: Key, b: Key)
    ensures
        a == b ==> !key_before(a, b),
        key_before(a, b) ==> !key_before(b, a),
        a != b ==> key_before(a, b) || key_before(b, a),
{
    text::lemma_text_order(a.0, b.0);
    text::lemma_text_order(a.1, b.1);
    text::lemma_text_order(a.2, b.2);
}

proof fn lemma_key_order_transitive(a: Key, b: Key, c: Key)
    requires
        key_before(a, b),
        key_before(b, c),
    ensures
        key_before(a, c),
{
    lemma_key_order(a, b);
    lemma_key_order(b, c);
    text::lemma_text_order(a.0, a.0);
    text::lemma_text_order(a.1, a.1);
    text::lemma_text_order(b.0, b.0);
    text::lemma_text_order(b.1, b.1);
    if a.0 != b.0 && b.0 != c.0 {
        text::lemma_text_order_transitive(a.0, b.0, c.0);
    } else if a.0 == b.0 && b.0 == c.0 {
        if a.1 != b.1 && b.1 != c.1 {
            text::lemma_text_order_transitive(a.1, b.1, c.1);
        } else if a.1 == b.1 && b.1 == c.1 {
            text::lemma_text_order_transitive(a.2, b.2, c.2);
        }
    }
}

/// One object that the server holds.
struct StoredObject {
    plural: String,
    namespace: String,
    name: String,
    value: Json,
}

impl StoredObject {
    spec fn key(self) -> Key {
        (self.plural@, self.namespace@, self.name@)
    }
}

/// The objects of a server.
pub struct Store {
    objects: Vec<StoredObject>,
}

/// Whether `keys` are the keys in the class `p` of what is stored, in order.
pub open spec fn lists(
    objects: Map<Key, JsonModel>,
    p: spec_fn(Key) -> bool,
    keys: Seq<Key>,
) -> bool {
    &&& forall|i: int, j: int|
        0 <= i < j < keys.len() ==> key_before(#[trigger] keys[i], #[trigger] keys[j])
    &&& forall|k: Key| #[trigger] keys.contains(k) == (objects.contains_key(k) && p(k))
}

/// The objects with the given keys.
pub open spec fn values_of(objects: Map<Key, JsonModel>, keys: Seq<Key>) -> Seq<JsonModel> {
    Seq::new(keys.len(), |i: int| objects[keys[i]])
}

proof fn lemma_lists_agree(
    objects: Map<Key, JsonModel>,
    p: spec_fn(Key) -> bool,
    a: Seq<Key>,
    b: Seq<Key>,
    n: int,
)
    requires
        lists(objects, p, a),
        lists(objects, p, b),
        0 <= n <= a.len(),
    ensures
        n <= b.len(),
        forall|i: int| 0 <= i < n ==> #[trigger] a[i] == b[i],
    decreases n,
{
    if n > 0 {
        let i = n - 1;
        lemma_lists_agree(objects, p, a, b, i);
        assert(a.contains(a[i]));
        assert(b.contains(a[i]));
        let j = choose|j: int| 0 <= j < b.len() && b[j] == a[i];
        lemma_key_order(a[i], a[i]);
        if j < i {
            assert(key_before(a[j], a[i]));
        }
        assert(b.contains(b[i]));
        assert(a.contains(b[i]));
        let m = choose|m: int| 0 <= m < a.len() && a[m] == b[i];
        lemma_key_order(b[i], b[i]);
        if m < i {
            assert(key_before(b[m], b[i]));
        }
        lemma_key_order(a[i], b[i]);
        if j > i {
            assert(key_before(b[i], b[j]));
            assert(m > i ==> key_before(a[i], a[m]));
        }
    }
}

/// What a listing holds, and its order, is fixed by what is stored.
pub proof fn listing_is_determined(
    objects: Map<Key, JsonModel>,
    p: spec_fn(Key) -> bool,
    a: Seq<Key>,
    b: Seq<Key>,
)
    requires
        lists(objects, p, a),
        lists(objects, p, b),
    ensures
        a == b,
{
    lemma_lists_agree(objects, p, a, b, a.len() as int);
    lemma_lists_agree(objects, p, b, a, b.len() as int);
    assert(a =~= b);
}

/// The names in the given keys.
pub open spec fn names_of(keys: Seq<Key>) -> Seq<Seq<char>> {
    Seq::new(keys.len(), |i: int| keys[i].2)
}

/// The keys of one kind.
pub open spec fn of_kind(plural: Seq<char>) -> spec_fn(Key) -> bool {
    |k: Key| k.0 == plural
}

/// The keys of one kind and namespace whose objects meet a selector, where
/// there is one.
pub open spec fn selected(
    objects: Map<Key, JsonModel>,
    plural: Seq<char>,
    namespace: Seq<char>,
    chosen: Option<Seq<char>>,
) -> spec_fn(Key) -> bool {
    |k: Key|
        k.0 == plural && k.1 == namespace && (chosen matches Some(chosen) ==> selector::selects(
            objects[k],
            chosen,
        ))
}

/// The index of the first object whose key does not come before `key`.
spec fn slot(objects: Seq<StoredObject>, key: Key) -> int
    decreases objects.len(),
{
    if objects.len() == 0 || !key_before(objects[0].key(), key) {
        0
    } else {
        1 + slot(objects.drop_first(), key)
    }
}

proof fn lemma_slot(objects: Seq<StoredObject>, key: Key)
    ensures
        0 <= slot(objects, key) <= objects.len(),
        forall|j: int|
            0 <= j < slot(objects, key) ==> key_before((#[trigger] objects[j]).key(), key),
        slot(objects, key) < objects.len() ==> !key_before(
            objects[slot(objects, key)].key(),
            key,
        ),
    decreases objects.len(),
{
    if objects.len() > 0 && key_before(objects[0].key(), key) {
        let rest = objects.drop_first();
        lemma_slot(rest, key);
        assert forall|j: int| 0 <= j < slot(objects, key) implies key_before(
            (#[trigger] objects[j]).key(),
            key,
        ) by {
            if j > 0 {
                assert(objects[j] == rest[j - 1]);
            }
        }
    }
}

proof fn lemma_slot_is(objects: Seq<StoredObject>, key: Key, i: int)
    requires
        0 <= i <= objects.len(),
        forall|j: int| 0 <= j < i ==> key_before((#[trigger] objects[j]).key(), key),
        i < objects.len() ==> !key_before(objects[i].key(), key),
    ensures
        slot(objects, key) == i,
{
    lemma_slot(objects, key);
    let k = slot(objects, key);
    if k < i {
        assert(key_before(objects[k].key(), key));
    } else if i < k {
        assert(key_before(objects[i].key(), key));
    }
}

spec fn in_order(objects: Seq<StoredObject>) -> bool {
    forall|i: int, j: int|
        0 <= i < j < objects.len() ==> key_before(
            (#[trigger] objects[i]).key(),
            (#[trigger] objects[j]).key(),
        )
}

/// Whether `key` is the key of an object.
spec fn holds(objects: Seq<StoredObject>, key: Key) -> bool {
    let i = slot(objects, key);
    i < objects.len() && objects[i].key() == key
}

/// The objects by key.
spec fn by_key(objects: Seq<StoredObject>) -> Map<Key, JsonModel> {
    Map::new(|k: Key| holds(objects, k), |k: Key| objects[slot(objects, k)].value.model())
}

/// What stands at index `i` is held under its key.
proof fn lemma_stands(objects: Seq<StoredObject>, i: int)
    requires
        in_order(objects),
        0 <= i < objects.len(),
    ensures
        slot(objects, objects[i].key()) == i,
        by_key(objects).contains_key(objects[i].key()),
        by_key(objects)[objects[i].key()] == objects[i].value.model(),
{
    lemma_key_order(objects[i].key(), objects[i].key());
    lemma_slot_is(objects, objects[i].key(), i);
}

/// Putting `object` at its slot changes what is held under its key alone.
proof fn lemma_put(
    before: Seq<StoredObject>,
    after: Seq<StoredObject>,
    object: StoredObject,
    i: int,
)
    requires
        in_order(before),
        i == slot(before, object.key()),
        after == if holds(before, object.key()) {
            before.update(i, object)
        } else {
            before.insert(i, object)
        },
    ensures
        in_order(after),
        by_key(after) == by_key(before).insert(object.key(), object.value.model()),
{
    let key = object.key();
    lemma_slot(before, key);
    let wanted = by_key(before).insert(key, object.value.model());
    let shift: int = if holds(before, key) {
        0
    } else {
        1
    };
    assert forall|j: int| i <= j < before.len() && !(j == i && shift == 0) implies key_before(
        key,
        (#[trigger] before[j]).key(),
    ) by {
        lemma_key_order(before[i].key(), key);
        if j > i && shift == 1 {
            lemma_key_order_transitive(key, before[i].key(), before[j].key());
        }
    }
    assert forall|a: int, b: int| 0 <= a < b < after.len() implies key_before(
        (#[trigger] after[a]).key(),
        (#[trigger] after[b]).key(),
    ) by {
        let a0 = if a <= i {
            a
        } else {
            a - shift
        };
        let b0 = if b <= i {
            b
        } else {
            b - shift
        };
        if a != i {
            assert(after[a] == before[a0]);
        }
        if b != i {
            assert(after[b] == before[b0]);
        }
    }
    assert forall|k: Key|
        #![trigger by_key(after).dom().contains(k)]
        #![trigger by_key(after)[k]]
        by_key(after).contains_key(k) == wanted.contains_key(k) && (wanted.contains_key(k)
            ==> by_key(after)[k] == wanted[k]) by {
        lemma_stands(after, i);
        if by_key(after).contains_key(k) && k != key {
            lemma_slot(after, k);
            let j = slot(after, k);
            lemma_stands(
                before,
                if j <= i {
                    j
                } else {
                    j - shift
                },
            );
        }
        if by_key(before).contains_key(k) && k != key {
            lemma_slot(before, k);
            let j = slot(before, k);
            lemma_stands(
                after,
                if j < i {
                    j
                } else {
                    j + shift
                },
            );
        }
    }
    assert(by_key(after) =~= wanted);
}

/// Taking the object at index `i` out removes what is held under its key alone.
proof fn lemma_taken(before: Seq<StoredObject>, after: Seq<StoredObject>, key: Key, i: int)
    requires
        in_order(before),
        0 <= i < before.len(),
        before[i].key() == key,
        after == before.remove(i),
    ensures
        in_order(after),
        by_key(after) == by_key(before).remove(key),
{
    let wanted = by_key(before).remove(key);
    assert forall|k: Key|
        #![trigger by_key(after).dom().contains(k)]
        #![trigger by_key(after)[k]]
        by_key(after).contains_key(k) == wanted.contains_key(k) && (wanted.contains_key(k)
            ==> by_key(after)[k] == wanted[k]) by {
        if by_key(after).contains_key(k) {
            lemma_slot(after, k);
            let j = slot(after, k);
            let from = if j < i {
                j
            } else {
                j + 1
            };
            assert(after[j] == before[from]);
            lemma_stands(before, from);
            lemma_stands(before, i);
        }
        if by_key(before).contains_key(k) && k != key {
            lemma_slot(before, k);
            let j = slot(before, k);
            let to = if j < i {
                j
            } else {
                j - 1
            };
            assert(after[to] == before[j]);
            lemma_stands(after, to);
        }
    }
    assert(by_key(after) =~= wanted);
}

impl Store {
    /// The objects by key.
    pub closed spec fn objects(self) -> Map<Key, JsonModel> {
        by_key(self.objects@)
    }

    /// The objects stand in the order of their keys, each key once, and each is
    /// a proper value.
    #[verifier::type_invariant]
    spec fn kept_in_order(self) -> bool {
        &&& in_order(self.objects@)
        &&& forall|i: int|
            #![trigger self.objects@[i]]
            0 <= i < self.objects@.len() ==> self.objects@[i].value.wf()
    }

    /// A store that holds nothing.
    pub fn new() -> (r: Store)
        ensures
            r.objects() == Map::<Key, JsonModel>::empty(),
    {
        let r = Store { objects: Vec::new() };
        assert(r.objects() =~= Map::<Key, JsonModel>::empty());
        r
    }

    fn find(&self, plural: &str, namespace: &str, name: &str) -> (r: (usize, bool))
        ensures
            r.0 == slot(self.objects@, (plural@, namespace@, name@)),
            r.0 <= self.objects@.len(),
            r.1 == holds(self.objects@, (plural@, namespace@, name@)),
            r.1 ==> r.0 < self.objects@.len(),
    {
        let ghost key = (plural@, namespace@, name@);
        let mut i: usize = 0;
        let mut found: bool = false;
        let mut done: bool = false;
        while i < self.objects.len() && !done
            invariant
                key == (plural@, namespace@, name@),
                i <= self.objects@.len(),
                forall|j: int| 0 <= j < i ==> key_before((#[trigger] self.objects@[j]).key(), key),
                done ==> i < self.objects@.len() && !key_before(self.objects@[i as int].key(), key),
                found == (done && self.objects@[i as int].key() == key),
            decreases
                self.objects@.len() - i,
                if done {
                    0int
                } else {
                    1int
                },
        {
            let object = &self.objects[i];
            proof {
                lemma_key_order(object.key(), key);
            }
            let same_plural: bool = text::text_eq(&object.plural, plural);
            let same_namespace: bool = text::text_eq(&object.namespace, namespace);
            if same_plural && same_namespace && text::text_eq(&object.name, name) {
                found = true;
                done = true;
            } else if text::comes_before(&object.plural, plural) || same_plural && (
            text::comes_before(&object.namespace, namespace) || same_namespace
                && text::comes_before(&object.name, name)) {
                i = i + 1;
            } else {
                done = true;
            }
        }
        proof {
            lemma_slot_is(self.objects@, key, i as int);
        }
        (i, found)
    }

    /// The object with the given key.
    pub fn get(&self, plural: &str, namespace: &str, name: &str) -> (r: Option<&Json>)
        ensures
            match r {
                Some(value) => self.objects().contains_key((plural@, namespace@, name@))
                    && value.model() == self.objects()[(plural@, namespace@, name@)] && value.wf(),
                None => !self.objects().contains_key((plural@, namespace@, name@)),
            },
    {
        proof {
            use_type_invariant(self);
        }
        let (i, found) = self.find(plural, namespace, name);
        if found {
            Some(&self.objects[i].value)
        } else {
            None
        }
    }

    /// Puts an object under a key, in place of what was there.
    pub fn insert(&mut self, plural: &str, namespace: &str, name: &str, value: Json)
        requires
            value.wf(),
        ensures
            final(self).objects() == old(self).objects().insert(
                (plural@, namespace@, name@),
                value.model(),
            ),
    {
        let (i, found) = self.find(plural, namespace, name);
        let ghost key = (plural@, namespace@, name@);
        let ghost before = self.objects@;
        proof {
            use_type_invariant(&*self);
        }
        let object = StoredObject {
            plural: plural.to_owned(),
            namespace: namespace.to_owned(),
            name: name.to_owned(),
            value,
        };
        let mut objects: Vec<StoredObject> = Vec::new();
        std::mem::swap(&mut objects, &mut self.objects);
        if found {
            objects[i] = object;
        } else {
            objects.insert(i, object);
        }
        proof {
            lemma_slot(before, key);
            lemma_put(before, objects@, object, i as int);
        }
        self.objects = objects;
    }

    /// Takes the object with the given key out.
    pub fn remove(&mut self, plural: &str, namespace: &str, name: &str) -> (r: Option<Json>)
        ensures
            final(self).objects() == old(self).objects().remove((plural@, namespace@, name@)),
            match r {
                Some(value) => old(self).objects().contains_key((plural@, namespace@, name@))
                    && value.model() == old(self).objects()[(plural@, namespace@, name@)]
                    && value.wf(),
                None => !old(self).objects().contains_key((plural@, namespace@, name@)),
            },
    {
        let (i, found) = self.find(plural, namespace, name);
        let ghost key = (plural@, namespace@, name@);
        let ghost before = self.objects@;
        proof {
            use_type_invariant(&*self);
        }
        if found {
            let mut objects: Vec<StoredObject> = Vec::new();
            std::mem::swap(&mut objects, &mut self.objects);
            let object = objects.remove(i);
            proof {
                lemma_taken(before, objects@, key, i as int);
            }
            self.objects = objects;
            Some(object.value)
        } else {
            assert(self.objects() =~= self.objects().remove(key));
            None
        }
    }
}

/// Whether `keys` are the keys in the class `p` of the first `n` objects.
spec fn lists_up_to(
    objects: Seq<StoredObject>,
    p: spec_fn(Key) -> bool,
    n: int,
    keys: Seq<Key>,
) -> bool {
    &&& forall|i: int, j: int|
        0 <= i < j < keys.len() ==> key_before(#[trigger] keys[i], #[trigger] keys[j])
    &&& forall|i: int|
        0 <= i < keys.len() ==> p(#[trigger] keys[i]) && slot(objects, keys[i]) < n && holds(
            objects,
            keys[i],
        )
    &&& forall|j: int|
        0 <= j < n && p((#[trigger] objects[j]).key()) ==> keys.contains(objects[j].key())
}

proof fn lemma_lists_step(
    objects: Seq<StoredObject>,
    p: spec_fn(Key) -> bool,
    n: int,
    keys: Seq<Key>,
)
    requires
        in_order(objects),
        0 <= n < objects.len(),
        lists_up_to(objects, p, n, keys),
    ensures
        p(objects[n].key()) ==> lists_up_to(objects, p, n + 1, keys.push(objects[n].key())),
        !p(objects[n].key()) ==> lists_up_to(objects, p, n + 1, keys),
{
    let key = objects[n].key();
    lemma_stands(objects, n);
    if p(key) {
        let more = keys.push(key);
        assert forall|i: int, j: int| 0 <= i < j < more.len() implies key_before(
            #[trigger] more[i],
            #[trigger] more[j],
        ) by {
            if j == keys.len() {
                lemma_slot(objects, keys[i]);
                assert(key_before(objects[slot(objects, keys[i])].key(), key));
            }
        }
        assert forall|j: int| 0 <= j < n + 1 && p((#[trigger] objects[j]).key()) implies more.contains(
            objects[j].key(),
        ) by {
            if j == n {
                assert(more[keys.len() as int] == key);
            } else {
                let i = choose|i: int| 0 <= i < keys.len() && keys[i] == objects[j].key();
                assert(more[i] == keys[i]);
            }
        }
    }
}

proof fn lemma_lists_all(objects: Seq<StoredObject>, p: spec_fn(Key) -> bool, keys: Seq<Key>)
    requires
        in_order(objects),
        lists_up_to(objects, p, objects.len() as int, keys),
    ensures
        lists(by_key(objects), p, keys),
{
    assert forall|k: Key| #[trigger] keys.contains(k) == (by_key(objects).contains_key(k) && p(k)) by {
        if keys.contains(k) {
            let i = choose|i: int| 0 <= i < keys.len() && keys[i] == k;
            assert(p(keys[i]));
        }
        if by_key(objects).contains_key(k) && p(k) {
            lemma_slot(objects, k);
            assert(p(objects[slot(objects, k)].key()));
        }
    }
}

impl Store {
    /// The names of the objects of one kind, in every namespace.
    pub fn names(&self, plural: &str) -> (r: Vec<String>)
        ensures
            exists|keys: Seq<Key>| #[trigger]
                lists(self.objects(), of_kind(plural@), keys) && r.deep_view() == names_of(
                    keys,
                ),
    {
        proof {
            use_type_invariant(self);
        }
        let mut out: Vec<String> = Vec::new();
        let ghost mut keys: Seq<Key> = Seq::empty();
        let ghost p = of_kind(plural@);
        let mut i: usize = 0;
        while i < self.objects.len()
            invariant
                i <= self.objects@.len(),
                in_order(self.objects@),
                p == of_kind(plural@),
                lists_up_to(self.objects@, p, i as int, keys),
                out.deep_view() == names_of(keys),
            decreases self.objects@.len() - i,
        {
            let object = &self.objects[i];
            proof {
                lemma_lists_step(self.objects@, p, i as int, keys);
            }
            if text::text_eq(&object.plural, plural) {
                let ghost before = out.deep_view();
                out.push(object.name.clone());
                proof {
                    keys = keys.push(object.key());
                    assert(out.deep_view() =~= before.push(object.name@));
                    assert(out.deep_view() =~= names_of(keys));
                }
            }
            i = i + 1;
        }
        proof {
            lemma_lists_all(self.objects@, p, keys);
            assert(lists(self.objects(), of_kind(plural@), keys));
            assert(out.deep_view() == names_of(keys));
        }
        out
    }

    /// The objects of one kind and namespace that meet a selector, where there
    /// is one.
    pub fn list(&self, plural: &str, namespace: &str, chosen: &Option<String>) -> (r: Vec<Json>)
        ensures
            exists|keys: Seq<Key>| #[trigger]
                lists(
                    self.objects(),
                    selected(self.objects(), plural@, namespace@, chosen.deep_view()),
                    keys,
                ) && json::models(r@) == values_of(self.objects(), keys),
            forall|i: int| 0 <= i < r@.len() ==> (#[trigger] r@[i]).wf(),
    {
        proof {
            use_type_invariant(self);
        }
        let mut out: Vec<Json> = Vec::new();
        let ghost mut keys: Seq<Key> = Seq::empty();
        let ghost p = selected(self.objects(), plural@, namespace@, chosen.deep_view());
        let mut i: usize = 0;
        assert(json::models(out@) =~= values_of(self.objects(), keys));
        while i < self.objects.len()
            invariant
                i <= self.objects@.len(),
                self.kept_in_order(),
                p == selected(self.objects(), plural@, namespace@, chosen.deep_view()),
                lists_up_to(self.objects@, p, i as int, keys),
                json::models(out@) == values_of(self.objects(), keys),
                forall|i: int| 0 <= i < out@.len() ==> (#[trigger] out@[i]).wf(),
            decreases self.objects@.len() - i,
        {
            let object = &self.objects[i];
            proof {
                lemma_stands(self.objects@, i as int);
                lemma_lists_step(self.objects@, p, i as int, keys);
            }
            if text::text_eq(&object.plural, plural) && text::text_eq(
                &object.namespace,
                namespace,
            ) {
                let meets: bool = match chosen {
                    Some(chosen) => selector::matches_field_selector(&object.value, chosen),
                    None => true,
                };
                if meets {
                    let ghost before = out@;
                    let copy = object.value.copy();
                    out.push(copy);
                    proof {
                        let fewer = keys;
                        keys = keys.push(object.key());
                        assert(json::models(out@) =~= json::models(before).push(copy.model()));
                        assert(values_of(self.objects(), keys) =~= values_of(
                            self.objects(),
                            fewer,
                        ).push(copy.model()));
                    }
                }
            }
            i = i + 1;
        }
        proof {
            lemma_lists_all(self.objects@, p, keys);
        }
        out
    }
}

} // verus!
