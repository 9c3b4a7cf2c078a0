//! The resources that the paths of requests name.
use vstd::prelude::*;

use crate::text;

verus! {

/// What a path names: the objects of one kind in a namespace, one of them, or
/// its status.
pub struct Resource {
    pub plural: String,
    /// Empty for what belongs to no namespace.
    pub namespace: String,
    pub name: Option<String>,
    pub status: bool,
}

/// The model of a [`Resource`].
#[verifier::ext_equal]
pub struct ResourceModel {
    pub plural: Seq<char>,
    pub namespace: Seq<char>,
    pub name: Option<Seq<char>>,
    pub status: bool,
}

impl DeepView for Resource {
    type V = ResourceModel;

    open spec fn deep_view(&self) -> ResourceModel {
        ResourceModel {
            plural: self.plural@,
            namespace: self.namespace@,
            name: self.name.deep_view(),
            status: self.status,
        }
    }
}

/// The parts that are not empty.
pub open spec fn non_empty(parts: Seq<Seq<char>>) -> Seq<Seq<char>>
    decreases parts.len(),
{
    if parts.len() == 0 {
        Seq::empty()
    } else if parts.last().len() == 0 {
        non_empty(parts.drop_last())
    } else {
        non_empty(parts.drop_last()).push(parts.last())
    }
}

/// The segments of a path.
pub open spec fn segments_of(path: Seq<char>) -> Seq<Seq<char>> {
    non_empty(text::split_on(path, '/'))
}

/// Whether a path, behind `apis`, the group and the version, names a namespace.
pub open spec fn is_namespaced(segments: Seq<Seq<char>>) -> bool {
    segments.len() >= 5 && segments[3] == "namespaces"@
}

/// What a path names, or what is wrong with it. The first three segments are
/// `apis`, the group and the version.
pub open spec fn resource_of(path: Seq<char>) -> Result<ResourceModel, Seq<char>> {
    let segments = segments_of(path);
    if segments.len() < 3 {
        Err("unrecognised path"@)
    } else {
        let rest = segments.skip(
            if is_namespaced(segments) {
                5
            } else {
                3
            },
        );
        if rest.len() == 0 {
            Err("missing resource plural"@)
        } else {
            Ok(
                ResourceModel {
                    plural: rest[0],
                    namespace: if is_namespaced(segments) {
                        segments[4]
                    } else {
                        Seq::empty()
                    },
                    name: if rest.len() >= 2 {
                        Some(rest[1])
                    } else {
                        None
                    },
                    status: rest.len() >= 3 && rest[2] == "status"@,
                },
            )
        }
    }
}

fn segments(path: &str) -> (r: Vec<String>)
    ensures
        r.deep_view() == segments_of(path@),
{
    let parts = text::split(&text::chars_of(path), '/');
    let mut out: Vec<String> = Vec::new();
    let mut i: usize = 0;
    assert(parts.deep_view().take(0) =~= Seq::empty());
    assert(out.deep_view() =~= Seq::empty());
    while i < parts.len()
        invariant
            i <= parts@.len(),
            out.deep_view() == non_empty(parts.deep_view().take(i as int)),
        decreases parts@.len() - i,
    {
        let ghost before = out.deep_view();
        proof {
            let more = parts.deep_view().take(i + 1);
            assert(more.drop_last() =~= parts.deep_view().take(i as int));
            assert(more.last() == parts@[i as int]@);
        }
        if !parts[i].as_str().is_empty() {
            out.push(parts[i].clone());
            assert(out.deep_view() =~= before.push(parts@[i as int]@));
        }
        i = i + 1;
    }
    assert(parts.deep_view().take(i as int) =~= parts.deep_view());
    out
}

/// What a path names, or what is wrong with it.
pub fn read_path(path: &str) -> (r: Result<Resource, String>)
    ensures
        match r {
            Ok(resource) => resource_of(path@) == Ok::<ResourceModel, Seq<char>>(
                resource.deep_view(),
            ),
            Err(message) => resource_of(path@) == Err::<ResourceModel, Seq<char>>(message@),
        },
{
    let all = segments(path);
    if all.len() < 3 {
        return Err("unrecognised path".to_owned());
    }
    proof {
        assert forall|j: int| 0 <= j < all@.len() implies all.deep_view()[j] == (
        #[trigger] all@[j])@ by {}
    }
    let namespaced: bool = all.len() >= 5 && text::text_eq(&all[3], "namespaces");
    let first: usize = if namespaced {
        5
    } else {
        3
    };
    if all.len() <= first {
        return Err("missing resource plural".to_owned());
    }
    let resource = Resource {
        plural: all[first].clone(),
        namespace: if namespaced {
            all[4].clone()
        } else {
            String::new()
        },
        name: if all.len() >= first + 2 {
            Some(all[first + 1].clone())
        } else {
            None
        },
        status: all.len() >= first + 3 && text::text_eq(&all[first + 2], "status"),
    };
    assert(resource.namespace@ =~= if namespaced {
        all@[4]@
    } else {
        Seq::empty()
    });
    Ok(resource)
}

} // verus!
