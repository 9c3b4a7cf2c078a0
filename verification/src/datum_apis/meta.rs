//! What every resource has: metadata and conditions.
use vstd::prelude::*;

use crate::text;

verus! {

/// One condition that a controller reports on a resource.
#[derive(Debug, Clone, PartialEq, Eq)]
pub struct Condition {
    /// What the condition is about, such as `Accepted`.
    pub type_: String,
    /// `True`, `False` or `Unknown`.
    pub status: String,
    pub reason: String,
    pub message: String,
    /// The generation of the resource that the controller looked at.
    pub observed_generation: Option<i64>,
}

/// The model of a [`Condition`].
#[verifier::ext_equal]
pub struct ConditionModel {
    pub type_: Seq<char>,
    pub status: Seq<char>,
    pub reason: Seq<char>,
    pub message: Seq<char>,
    pub observed_generation: Option<i64>,
}

impl DeepView for Condition {
    type V = ConditionModel;

    open spec fn deep_view(&self) -> ConditionModel {
        ConditionModel {
            type_: self.type_.deep_view(),
            status: self.status.deep_view(),
            reason: self.reason.deep_view(),
            message: self.message.deep_view(),
            observed_generation: self.observed_generation.deep_view(),
        }
    }
}

/// The metadata of a resource, as far as the tunnel service reads or writes it.
#[derive(Debug, Clone, PartialEq, Eq)]
pub struct ObjectMeta {
    pub name: Option<String>,
    /// The prefix from which the server makes a name.
    pub generate_name: Option<String>,
    /// Counts the changes of the desired state.
    pub generation: Option<i64>,
    /// Key and value of each annotation; no key occurs twice.
    pub annotations: Option<Vec<(String, String)>>,
}

/// The model of a [`ObjectMeta`].
#[verifier::ext_equal]
pub struct ObjectMetaModel {
    pub name: Option<Seq<char>>,
    pub generate_name: Option<Seq<char>>,
    pub generation: Option<i64>,
    pub annotations: Option<Seq<(Seq<char>, Seq<char>)>>,
}

impl DeepView for ObjectMeta {
    type V = ObjectMetaModel;

    open spec fn deep_view(&self) -> ObjectMetaModel {
        ObjectMetaModel {
            name: self.name.deep_view(),
            generate_name: self.generate_name.deep_view(),
            generation: self.generation.deep_view(),
            annotations: self.annotations.deep_view(),
        }
    }
}

/// The value of the annotation `key`, from the index `i` on.
pub open spec fn lookup_from(
    annotations: Seq<(Seq<char>, Seq<char>)>,
    key: Seq<char>,
    i: int,
) -> Option<Seq<char>>
    decreases annotations.len() - i,
{
    if i < 0 || i >= annotations.len() {
        None
    } else if annotations[i].0 == key {
        Some(annotations[i].1)
    } else {
        lookup_from(annotations, key, i + 1)
    }
}

impl ObjectMetaModel {
    /// The name of the resource; where it has none, the prefix of the name to
    /// come; else nothing.
    pub open spec fn name_any(self) -> Seq<char> {
        match (self.name, self.generate_name) {
            (Some(name), _) => name,
            (None, Some(prefix)) => prefix,
            (None, None) => Seq::empty(),
        }
    }

    /// The value of the annotation `key`.
    pub open spec fn annotation(self, key: Seq<char>) -> Option<Seq<char>> {
        match self.annotations {
            Some(annotations) => lookup_from(annotations, key, 0),
            None => None,
        }
    }
}

impl ObjectMeta {
    /// Metadata with nothing in it.
    pub fn empty() -> (r: Self)
        ensures
            r.deep_view() == (ObjectMetaModel {
                name: None,
                generate_name: None,
                generation: None,
                annotations: None,
            }),
    {
        ObjectMeta { name: None, generate_name: None, generation: None, annotations: None }
    }

    /// The name of the resource, or the prefix it will be made from.
    pub fn name_any(&self) -> (r: String)
        ensures
            r@ == self.deep_view().name_any(),
    {
        match (&self.name, &self.generate_name) {
            (Some(name), _) => name.clone(),
            (None, Some(prefix)) => prefix.clone(),
            (None, None) => String::new(),
        }
    }

    /// The value of the annotation `key`.
    pub fn annotation(&self, key: &str) -> (r: Option<String>)
        ensures
            r.deep_view() == self.deep_view().annotation(key@),
    {
        match &self.annotations {
            None => None,
            Some(annotations) => {
                let mut i: usize = 0;
                while i < annotations.len()
                    invariant
                        i <= annotations@.len(),
                        self.annotations == Some(*annotations),
                        lookup_from(annotations.deep_view(), key@, i as int) == lookup_from(
                            annotations.deep_view(),
                            key@,
                            0,
                        ),
                    decreases annotations@.len() - i,
                {
                    if text::text_eq(&annotations[i].0, key) {
                        return Some(annotations[i].1.clone());
                    }
                    i = i + 1;
                }
                None
            },
        }
    }
}

/// The first condition of the kind `kind`, from the index `i` on.
pub open spec fn find_condition_from(
    conditions: Seq<ConditionModel>,
    kind: Seq<char>,
    i: int,
) -> Option<ConditionModel>
    decreases conditions.len() - i,
{
    if i < 0 || i >= conditions.len() {
        None
    } else if conditions[i].type_ == kind {
        Some(conditions[i])
    } else {
        find_condition_from(conditions, kind, i + 1)
    }
}

/// The first condition of the kind `kind`.
pub open spec fn condition_of(
    conditions: Option<Seq<ConditionModel>>,
    kind: Seq<char>,
) -> Option<ConditionModel> {
    match conditions {
        Some(conditions) => find_condition_from(conditions, kind, 0),
        None => None,
    }
}

/// Whether the first condition of the kind `kind` says `True`.
pub open spec fn is_true(conditions: Option<Seq<ConditionModel>>, kind: Seq<char>) -> bool {
    match condition_of(conditions, kind) {
        Some(condition) => condition.status == "True"@,
        None => false,
    }
}

/// The first condition of the kind `kind`.
pub fn find_condition<'a>(conditions: Option<&'a Vec<Condition>>, kind: &str) -> (r: Option<
    &'a Condition,
>)
    ensures
        r.deep_view() == condition_of(conditions.deep_view(), kind@),
{
    match conditions {
        None => None,
        Some(list) => {
            let mut i: usize = 0;
            while i < list.len()
                invariant
                    i <= list@.len(),
                    conditions == Some(list),
                    find_condition_from(list.deep_view(), kind@, i as int) == find_condition_from(
                        list.deep_view(),
                        kind@,
                        0,
                    ),
                decreases list@.len() - i,
            {
                if text::text_eq(&list[i].type_, kind) {
                    return Some(&list[i]);
                }
                i = i + 1;
            }
            None
        },
    }
}

/// Whether the first condition of the kind `kind` says `True`.
pub fn condition_is_true(conditions: Option<&Vec<Condition>>, kind: &str) -> (r: bool)
    ensures
        r == is_true(conditions.deep_view(), kind@),
{
    match find_condition(conditions, kind) {
        Some(condition) => text::text_eq(&condition.status, "True"),
        None => false,
    }
}

} // verus!
