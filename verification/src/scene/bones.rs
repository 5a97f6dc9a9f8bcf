//! The bone hierarchy of a glTF skin: which bone is each bone's parent,
//! the roots, the children of each bone, and the map from a skin's joint
//! numbers to bones.
use std::collections::HashMap;
use vstd::prelude::*;

verus! {

broadcast use vstd::std_specs::hash::group_hash_axioms;

/// The first position of `node` among the joint nodes.
pub open spec fn first_position(joints: Seq<usize>, node: usize) -> Option<int> {
    if joints.contains(node) {
        Some(joints.index_of_first(node).unwrap())
    } else {
        None
    }
}

/// The parent bone of joint `i`: the joint whose node is the parent of
/// joint `i`'s node, provided that joint comes no later than `i` (bones
/// are numbered as they are read, and only those read so far are known).
pub open spec fn joint_parent(joints: Seq<usize>, node_parents: Map<usize, Option<usize>>, i: int) -> Option<usize> {
    if node_parents.contains_key(joints[i]) {
        match node_parents[joints[i]] {
            Some(pn) => match first_position(joints, pn) {
                Some(l) => if l <= i {
                    Some(l as usize)
                } else {
                    None
                },
                None => None,
            },
            None => None,
        }
    } else {
        None
    }
}

fn position_of(joints: &Vec<usize>, node: usize) -> (r: Option<usize>)
    ensures
        match r {
            Some(l) => first_position(joints@, node) == Some(l as int),
            None => first_position(joints@, node) is None,
        },
{
    let mut i: usize = 0;
    while i < joints.len()
        invariant
            i <= joints.len(),
            forall|k: int| 0 <= k < i ==> joints@[k] != node,
        decreases joints.len() - i,
    {
        if joints[i] == node {
            proof {
                assert(joints@[i as int] == node);
                assert(joints@.contains(node));
                joints@.index_of_first_ensures(node);
                let f = joints@.index_of_first(node).unwrap();
                if f < i {
                    assert(joints@[f] != node);
                }
                if f > i {
                    assert(joints@[i as int] != node);
                }
            }
            return Some(i);
        }
        i += 1;
    }
    None
}

/// The parent bone of every joint of a skin (see [`joint_parent`]), given
/// the joints' node indices and each node's parent node.
pub fn joint_parents(joints: &Vec<usize>, node_parents: &HashMap<usize, Option<usize>>) -> (r: Vec<Option<usize>>)
    ensures
        r@.len() == joints@.len(),
        forall|i: int| 0 <= i < joints@.len() ==> #[trigger] r@[i] == joint_parent(joints@, node_parents@, i),
        parents_precede(r@),
{
    let mut out: Vec<Option<usize>> = Vec::new();
    let mut i: usize = 0;
    while i < joints.len()
        invariant
            i <= joints.len(),
            out@.len() == i,
            forall|k: int| 0 <= k < i ==> #[trigger] out@[k] == joint_parent(joints@, node_parents@, k),
        decreases joints.len() - i,
    {
        let node = joints[i];
        let parent = match node_parents.get(&node) {
            Some(entry) => match *entry {
                Some(pn) => match position_of(joints, pn) {
                    Some(l) => if l <= i {
                        Some(l)
                    } else {
                        None
                    },
                    None => None,
                },
                None => None,
            },
            None => None,
        };
        out.push(parent);
        i += 1;
    }
    proof {
        assert forall|k: int| 0 <= k < out@.len() implies (#[trigger] out@[k] matches Some(p) ==> p <= k) by {
            if node_parents@.contains_key(joints@[k]) {
                if let Some(pn) = node_parents@[joints@[k]] {
                    joints@.index_of_first_ensures(pn);
                }
            }
        }
    }
    out
}

/// The bones without a parent, in order.
pub open spec fn roots_spec(parents: Seq<Option<usize>>) -> Seq<usize>
    decreases parents.len(),
{
    if parents.len() == 0 {
        seq![]
    } else {
        let prev = roots_spec(parents.drop_last());
        if parents.last() is None {
            prev.push((parents.len() - 1) as usize)
        } else {
            prev
        }
    }
}

/// The children of bone `p`, in order.
pub open spec fn children_spec(parents: Seq<Option<usize>>, p: usize) -> Seq<usize>
    decreases parents.len(),
{
    if parents.len() == 0 {
        seq![]
    } else {
        let prev = children_spec(parents.drop_last(), p);
        if parents.last() == Some(p) {
            prev.push((parents.len() - 1) as usize)
        } else {
            prev
        }
    }
}

/// Parents come before their children.
pub open spec fn parents_precede(parents: Seq<Option<usize>>) -> bool {
    forall|i: int| 0 <= i < parents.len() ==> (#[trigger] parents[i] matches Some(p) ==> p <= i)
}

/// The roots and the children lists of a bone hierarchy.
pub fn bone_hierarchy(parents: &Vec<Option<usize>>) -> (r: (Vec<usize>, Vec<Vec<usize>>))
    requires
        parents_precede(parents@),
    ensures
        r.0@ == roots_spec(parents@),
        r.1@.len() == parents@.len(),
        forall|p: int| 0 <= p < parents@.len() ==> (#[trigger] r.1@[p])@ == children_spec(parents@, p as usize),
{
    let n = parents.len();
    let mut roots: Vec<usize> = Vec::new();
    let mut children: Vec<Vec<usize>> = Vec::new();
    let mut k: usize = 0;
    while k < n
        invariant
            k <= n == parents@.len(),
            children@.len() == k,
            forall|p: int| 0 <= p < k ==> (#[trigger] children@[p])@ == Seq::<usize>::empty(),
        decreases n - k,
    {
        children.push(Vec::new());
        k += 1;
    }
    let mut i: usize = 0;
    while i < n
        invariant
            i <= n == parents@.len(),
            parents_precede(parents@),
            children@.len() == n,
            roots@ == roots_spec(parents@.take(i as int)),
            forall|p: int| 0 <= p < n ==> (#[trigger] children@[p])@ == children_spec(parents@.take(i as int), p as usize),
        decreases n - i,
    {
        proof {
            assert(parents@.take(i + 1).drop_last() =~= parents@.take(i as int));
        }
        match parents[i] {
            None => {
                roots.push(i);
            },
            Some(p) => {
                assert(parents@[i as int] matches Some(q) ==> q <= i);
                let ghost before = children@;
                let mut list = Vec::new();
                std::mem::swap(&mut list, &mut children[p]);
                list.push(i);
                children.set(p, list);
                proof {
                    assert forall|q: int| 0 <= q < n implies (#[trigger] children@[q])@ == children_spec(
                        parents@.take(i + 1),
                        q as usize,
                    ) by {
                        if q != p {
                            assert(children@[q] == before[q]);
                        }
                    }
                }
            },
        }
        i += 1;
    }
    proof {
        assert(parents@.take(n as int) =~= parents@);
    }
    (roots, children)
}

/// The bones a vertex's four joint numbers refer to: the joint map's bone
/// for each, or bone `0` for a joint the map does not know.
pub fn map_joint_indices(joints: [u16; 4], joint_map: &HashMap<usize, usize>) -> (r: Vec<u32>)
    ensures
        r@.len() == 4,
        forall|k: int|
            0 <= k < 4 ==> #[trigger] r@[k] == (if joint_map@.contains_key(joints@[k] as usize) {
                joint_map@[joints@[k] as usize] as u32
            } else {
                0u32
            }),
{
    let mut out: Vec<u32> = Vec::new();
    let mut k: usize = 0;
    while k < 4
        invariant
            k <= 4,
            out@.len() == k,
            forall|m: int|
                0 <= m < k ==> #[trigger] out@[m] == (if joint_map@.contains_key(joints@[m] as usize) {
                    joint_map@[joints@[m] as usize] as u32
                } else {
                    0u32
                }),
        decreases 4 - k,
    {
        let j = joints[k] as usize;
        let bone = match joint_map.get(&j) {
            Some(b) => *b as u32,
            None => 0,
        };
        out.push(bone);
        k += 1;
    }
    out
}

/// The joint map of a skin of `count` joints: joint `i` is bone `i`.
pub fn joint_map_of(count: usize) -> (r: HashMap<usize, usize>)
    ensures
        r@.dom() == Set::new(|j: usize| j < count),
        forall|j: usize| j < count ==> #[trigger] r@[j] == j,
{
    let mut m: HashMap<usize, usize> = HashMap::new();
    let mut i: usize = 0;
    while i < count
        invariant
            i <= count,
            m@.dom() == Set::new(|j: usize| j < i),
            forall|j: usize| j < i ==> #[trigger] m@[j] == j,
        decreases count - i,
    {
        m.insert(i, i);
        proof {
            assert(m@.dom() =~= Set::new(|j: usize| j < i + 1));
        }
        i += 1;
    }
    m
}

/// Every bone sits in exactly one place of the hierarchy: it is a root
/// when it has no parent, and otherwise one of its parent's children.
pub proof fn lemma_hierarchy_places_every_bone(parents: Seq<Option<usize>>, b: int)
    requires
        0 <= b < parents.len(),
        parents.len() <= usize::MAX,
    ensures
        parents[b] is None ==> roots_spec(parents).contains(b as usize),
        parents[b] is Some ==> !roots_spec(parents).contains(b as usize),
        parents[b] matches Some(p) ==> children_spec(parents, p).contains(b as usize),
        forall|q: usize| parents[b] != Some(q) ==> !(#[trigger] children_spec(parents, q)).contains(b as usize),
    decreases parents.len(),
{
    lemma_spec_members_below(parents);
    if b < parents.len() - 1 {
        lemma_hierarchy_places_every_bone(parents.drop_last(), b);
        assert(parents.drop_last()[b] == parents[b]);
        let prev_roots = roots_spec(parents.drop_last());
        if parents[b] is None {
            assert(roots_spec(parents).contains(b as usize)) by {
                let j = choose|j: int| 0 <= j < prev_roots.len() && prev_roots[j] == b as usize;
                assert(roots_spec(parents)[j] == b as usize);
            }
        }
        if let Some(p) = parents[b] {
            let prev_c = children_spec(parents.drop_last(), p);
            let j = choose|j: int| 0 <= j < prev_c.len() && prev_c[j] == b as usize;
            assert(children_spec(parents, p)[j] == b as usize);
        }
    } else {
        let last = (parents.len() - 1) as usize;
        lemma_spec_members_below(parents.drop_last());
        if parents[b] is None {
            assert(roots_spec(parents).last() == last);
        }
        if let Some(p) = parents[b] {
            assert(children_spec(parents, p).last() == last);
        }
    }
}

proof fn lemma_spec_members_below(parents: Seq<Option<usize>>)
    requires
        parents.len() <= usize::MAX,
    ensures
        forall|j: int| 0 <= j < roots_spec(parents).len() ==> (#[trigger] roots_spec(parents)[j]) < parents.len(),
        forall|q: usize, j: int|
            0 <= j < children_spec(parents, q).len() ==> (#[trigger] children_spec(parents, q)[j]) < parents.len(),
        forall|j: int|
            0 <= j < roots_spec(parents).len() ==> parents[#[trigger] roots_spec(parents)[j] as int] is None,
        forall|q: usize, j: int|
            0 <= j < children_spec(parents, q).len() ==> parents[#[trigger] children_spec(parents, q)[j] as int]
                == Some(q),
    decreases parents.len(),
{
    if parents.len() > 0 {
        let prev = parents.drop_last();
        lemma_spec_members_below(prev);
        assert forall|j: int| 0 <= j < roots_spec(parents).len() implies parents[#[trigger] roots_spec(
            parents,
        )[j] as int] is None && roots_spec(parents)[j] < parents.len() by {
            if j < roots_spec(prev).len() {
                assert(roots_spec(parents)[j] == roots_spec(prev)[j]);
                assert(prev[roots_spec(prev)[j] as int] == parents[roots_spec(prev)[j] as int]);
            } else {
                assert(roots_spec(parents)[j] == (parents.len() - 1) as usize);
            }
        }
        assert forall|q: usize, j: int| 0 <= j < children_spec(parents, q).len() implies parents[
            #[trigger] children_spec(parents, q)[j] as int] == Some(q) && children_spec(parents, q)[j]
            < parents.len() by {
            if j < children_spec(prev, q).len() {
                assert(children_spec(parents, q)[j] == children_spec(prev, q)[j]);
                assert(prev[children_spec(prev, q)[j] as int] == parents[children_spec(prev, q)[j] as int]);
            } else {
                assert(children_spec(parents, q)[j] == (parents.len() - 1) as usize);
            }
        }
    }
}

/// The name of a bone: its joint's name, or `<unnamed>` for a joint
/// without one.
pub open spec fn bone_name(joint_name: Option<String>) -> Seq<char> {
    match joint_name {
        Some(n) => n@,
        None => "<unnamed>"@,
    }
}

/// The names of a skin's bones, one per joint in joint order.
pub fn bone_names(joint_names: &Vec<Option<String>>) -> (r: Vec<String>)
    ensures
        r@.len() == joint_names@.len(),
        forall|i: int| 0 <= i < r@.len() ==> (#[trigger] r@[i])@ == bone_name(joint_names@[i]),
{
    let mut r: Vec<String> = Vec::new();
    let mut i: usize = 0;
    while i < joint_names.len()
        invariant
            i <= joint_names@.len(),
            r@.len() == i,
            forall|j: int| 0 <= j < i ==> (#[trigger] r@[j])@ == bone_name(joint_names@[j]),
        decreases joint_names.len() - i,
    {
        let name = match &joint_names[i] {
            Some(n) => n.clone(),
            None => String::from_str("<unnamed>"),
        };
        r.push(name);
        i += 1;
    }
    r
}

/// The bone a name refers to: the last bone of that name, as the skin's
/// name index holds it; `None` when no bone has it.
pub fn bone_index_of(names: &Vec<String>, name: &str) -> (r: Option<usize>)
    ensures
        match r {
            Some(i) => i < names@.len() && names@[i as int]@ == name@ && forall|j: int|
                i < j < names@.len() ==> (#[trigger] names@[j])@ != name@,
            None => forall|j: int| 0 <= j < names@.len() ==> (#[trigger] names@[j])@ != name@,
        },
{
    let mut r: Option<usize> = None;
    let mut i: usize = 0;
    while i < names.len()
        invariant
            i <= names@.len(),
            match r {
                Some(k) => k < i && names@[k as int]@ == name@ && forall|j: int|
                    k < j < i ==> (#[trigger] names@[j])@ != name@,
                None => forall|j: int| 0 <= j < i ==> (#[trigger] names@[j])@ != name@,
            },
        decreases names.len() - i,
    {
        let chars = crate::text::chars_of(names[i].as_str());
        let n = chars.len();
        assert(chars@.subrange(0, n as int) =~= chars@);
        if crate::text::range_eq(&chars, 0, n, name) {
            r = Some(i);
        }
        i += 1;
    }
    r
}

} // verus!
