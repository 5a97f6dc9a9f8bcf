//! Which animation clip a play request selects, and what each channel of
//! a clip drives.
use crate::text::{chars_of, range_eq};
use vstd::prelude::*;

verus! {

/// The clip a request to play `name` selects: the first clip of that name;
/// `None` when no clip has it (the request is ignored).
pub fn clip_by_name(names: &Vec<String>, name: &str) -> (r: Option<usize>)
    ensures
        match r {
            Some(i) => i < names@.len() && names@[i as int]@ == name@ && forall|j: int|
                0 <= j < i ==> names@[j]@ != name@,
            None => forall|j: int| 0 <= j < names@.len() ==> names@[j]@ != name@,
        },
{
    let mut i: usize = 0;
    while i < names.len()
        invariant
            i <= names@.len(),
            forall|j: int| 0 <= j < i ==> names@[j]@ != name@,
        decreases names.len() - i,
    {
        let chars = chars_of(names[i].as_str());
        let n = chars.len();
        if range_eq(&chars, 0, n, name) {
            assert(chars@.subrange(0, n as int) =~= chars@);
            return Some(i);
        }
        assert(chars@.subrange(0, n as int) =~= chars@);
        i += 1;
    }
    None
}

/// The clip a request to play clip `index` selects; `None` past the last
/// clip (the request is ignored).
pub fn clip_by_index(index: usize, clip_count: usize) -> (r: Option<usize>)
    ensures
        r == if index < clip_count {
            Some(index)
        } else {
            None::<usize>
        },
{
    if index < clip_count {
        Some(index)
    } else {
        None
    }
}

/// What a channel of a clip drives.
#[derive(Clone, Copy, Debug, PartialEq, Eq, Structural)]
pub enum Binding {
    /// Bone `idx` of the skeleton carried by object `skel`.
    Bone { skel: u64, idx: usize },
    /// The transform of an object.
    Transform(u64),
}

/// A channel, by its index in the clip, and what it drives.
#[derive(Clone, Copy, Debug, PartialEq, Eq, Structural)]
pub struct ChannelBinding {
    pub ch_index: usize,
    pub target: Binding,
}

/// A skeleton of the animated subtree: the object that carries it and the
/// names of its bones, in bone order.
pub struct SkeletonBones {
    pub object: u64,
    pub names: Vec<String>,
}

/// An object of the animated subtree and its name.
pub struct NamedObject {
    pub object: u64,
    pub name: String,
}

/// The bones named `name` among `names`, as (object, bone index) pairs in
/// bone order.
pub open spec fn bones_named(object: u64, names: Seq<Seq<char>>, name: Seq<char>) -> Seq<(u64, usize)>
    decreases names.len(),
{
    if names.len() == 0 {
        seq![]
    } else {
        let prev = bones_named(object, names.drop_last(), name);
        if names.last() == name {
            prev.push((object, (names.len() - 1) as usize))
        } else {
            prev
        }
    }
}

/// The bones named `name` in the skeletons `skels`, skeleton by skeleton in
/// the order given.
pub open spec fn bone_hits(skels: Seq<SkeletonBones>, name: Seq<char>) -> Seq<(u64, usize)>
    decreases skels.len(),
{
    if skels.len() == 0 {
        seq![]
    } else {
        bone_hits(skels.drop_last(), name) + bones_named(
            skels.last().object,
            skels.last().names.deep_view(),
            name,
        )
    }
}

/// The last object named `name` in `objects`.
pub open spec fn last_named(objects: Seq<NamedObject>, name: Seq<char>) -> Option<u64>
    decreases objects.len(),
{
    if objects.len() == 0 {
        None
    } else if objects.last().name@ == name {
        Some(objects.last().object)
    } else {
        last_named(objects.drop_last(), name)
    }
}

/// What channel `ch_index`, which targets `name`, drives: every bone of
/// that name; failing those, the last object of that name; failing that,
/// nothing.
pub open spec fn channel_bindings(
    ch_index: usize,
    name: Seq<char>,
    skels: Seq<SkeletonBones>,
    objects: Seq<NamedObject>,
) -> Seq<ChannelBinding> {
    let hits = bone_hits(skels, name);
    if hits.len() > 0 {
        hits.map_values(|h: (u64, usize)| ChannelBinding { ch_index, target: Binding::Bone { skel: h.0, idx: h.1 } })
    } else {
        match last_named(objects, name) {
            Some(o) => seq![ChannelBinding { ch_index, target: Binding::Transform(o) }],
            None => seq![],
        }
    }
}

/// The bindings of a clip whose channels target `channels`, channel by
/// channel.
pub open spec fn clip_bindings(
    channels: Seq<Seq<char>>,
    skels: Seq<SkeletonBones>,
    objects: Seq<NamedObject>,
) -> Seq<ChannelBinding>
    decreases channels.len(),
{
    if channels.len() == 0 {
        seq![]
    } else {
        clip_bindings(channels.drop_last(), skels, objects) + channel_bindings(
            (channels.len() - 1) as usize,
            channels.last(),
            skels,
            objects,
        )
    }
}

fn same_text(a: &str, b: &str) -> (r: bool)
    ensures
        r == (a@ == b@),
{
    let chars = chars_of(a);
    let n = chars.len();
    assert(chars@.subrange(0, n as int) =~= chars@);
    range_eq(&chars, 0, n, b)
}

/// The bones named `name` in `skels` (see [`bone_hits`]).
pub fn bones_of(skels: &Vec<SkeletonBones>, name: &str) -> (r: Vec<(u64, usize)>)
    ensures
        r@ == bone_hits(skels@, name@),
{
    let mut r: Vec<(u64, usize)> = Vec::new();
    let mut s: usize = 0;
    while s < skels.len()
        invariant
            s <= skels@.len(),
            r@ == bone_hits(skels@.take(s as int), name@),
        decreases skels.len() - s,
    {
        let skel = &skels[s];
        let ghost base = r@;
        let ghost names = skel.names.deep_view();
        let mut i: usize = 0;
        while i < skel.names.len()
            invariant
                s < skels@.len(),
                *skel == skels@[s as int],
                names == skel.names.deep_view(),
                i <= skel.names@.len(),
                r@ == base + bones_named(skel.object, names.take(i as int), name@),
            decreases skel.names.len() - i,
        {
            proof {
                assert(names.take(i + 1).drop_last() =~= names.take(i as int));
                assert(names[i as int] == skel.names@[i as int]@);
            }
            if same_text(skel.names[i].as_str(), name) {
                r.push((skel.object, i));
                assert(r@ =~= base + bones_named(skel.object, names.take(i + 1), name@));
            } else {
                assert(r@ =~= base + bones_named(skel.object, names.take(i + 1), name@));
            }
            i += 1;
        }
        proof {
            assert(names.take(i as int) =~= names);
            assert(skels@.take(s + 1).drop_last() =~= skels@.take(s as int));
        }
        s += 1;
    }
    assert(skels@.take(s as int) =~= skels@);
    r
}

/// The last object named `name` in `objects` (see [`last_named`]).
pub fn last_object_named(objects: &Vec<NamedObject>, name: &str) -> (r: Option<u64>)
    ensures
        r == last_named(objects@, name@),
{
    let mut r: Option<u64> = None;
    let mut i: usize = 0;
    while i < objects.len()
        invariant
            i <= objects@.len(),
            r == last_named(objects@.take(i as int), name@),
        decreases objects.len() - i,
    {
        proof {
            assert(objects@.take(i + 1).drop_last() =~= objects@.take(i as int));
        }
        if same_text(objects[i].name.as_str(), name) {
            r = Some(objects[i].object);
        }
        i += 1;
    }
    assert(objects@.take(i as int) =~= objects@);
    r
}

/// Binds every channel of every clip: a channel drives each bone of the
/// name it targets, in the skeletons of the animated subtree in the order
/// met; a channel whose target no bone has drives the transform of the last
/// object of that name in the subtree; one whose target nothing has drives
/// nothing.
pub fn resolve_bindings(
    clips: &Vec<Vec<String>>,
    skels: &Vec<SkeletonBones>,
    objects: &Vec<NamedObject>,
) -> (r: Vec<Vec<ChannelBinding>>)
    ensures
        r@.len() == clips@.len(),
        forall|c: int|
            0 <= c < clips@.len() ==> (#[trigger] r@[c])@ == clip_bindings(clips@[c].deep_view(), skels@, objects@),
{
    let mut r: Vec<Vec<ChannelBinding>> = Vec::new();
    let mut c: usize = 0;
    while c < clips.len()
        invariant
            c <= clips@.len(),
            r@.len() == c,
            forall|j: int| 0 <= j < c ==> (#[trigger] r@[j])@ == clip_bindings(clips@[j].deep_view(), skels@, objects@),
        decreases clips.len() - c,
    {
        let channels = &clips[c];
        let ghost names = channels.deep_view();
        let mut binds: Vec<ChannelBinding> = Vec::new();
        let mut k: usize = 0;
        while k < channels.len()
            invariant
                c < clips@.len(),
                *channels == clips@[c as int],
                names == channels.deep_view(),
                k <= channels@.len(),
                binds@ == clip_bindings(names.take(k as int), skels@, objects@),
            decreases channels.len() - k,
        {
            let ghost before = binds@;
            proof {
                assert(names.take(k + 1).drop_last() =~= names.take(k as int));
                assert(names[k as int] == channels@[k as int]@);
            }
            let name = channels[k].as_str();
            let hits = bones_of(skels, name);
            if hits.len() > 0 {
                let mut h: usize = 0;
                while h < hits.len()
                    invariant
                        h <= hits@.len(),
                        hits@.len() > 0,
                        binds@ == before + hits@.take(h as int).map_values(
                            |p: (u64, usize)| ChannelBinding { ch_index: k, target: Binding::Bone { skel: p.0, idx: p.1 } },
                        ),
                    decreases hits.len() - h,
                {
                    let (skel, idx) = hits[h];
                    binds.push(ChannelBinding { ch_index: k, target: Binding::Bone { skel, idx } });
                    assert(binds@ =~= before + hits@.take(h + 1).map_values(
                        |p: (u64, usize)| ChannelBinding { ch_index: k, target: Binding::Bone { skel: p.0, idx: p.1 } },
                    ));
                    h += 1;
                }
                assert(hits@.take(h as int) =~= hits@);
            } else {
                match last_object_named(objects, name) {
                    Some(o) => {
                        binds.push(ChannelBinding { ch_index: k, target: Binding::Transform(o) });
                    },
                    None => {},
                }
            }
            assert(binds@ =~= clip_bindings(names.take(k + 1), skels@, objects@));
            k += 1;
        }
        assert(names.take(k as int) =~= names);
        r.push(binds);
        c += 1;
    }
    r
}

} // verus!
