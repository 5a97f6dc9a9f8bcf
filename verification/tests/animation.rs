use syrillian_engine::animation::{
    clip_by_index, clip_by_name, resolve_bindings, Binding, ChannelBinding, NamedObject, SkeletonBones,
};

#[test]
fn clips_are_found_by_name_first_match() {
    let names = vec!["idle".to_string(), "walk".to_string(), "walk".to_string()];
    assert_eq!(clip_by_name(&names, "walk"), Some(1));
    assert_eq!(clip_by_name(&names, "idle"), Some(0));
    assert_eq!(clip_by_name(&names, "run"), None);
    assert_eq!(clip_by_name(&vec![], "idle"), None);
}

#[test]
fn clips_by_index_stay_in_range() {
    assert_eq!(clip_by_index(1, 2), Some(1));
    assert_eq!(clip_by_index(2, 2), None);
}

fn skel(object: u64, names: &[&str]) -> SkeletonBones {
    SkeletonBones { object, names: names.iter().map(|n| n.to_string()).collect() }
}

fn obj(object: u64, name: &str) -> NamedObject {
    NamedObject { object, name: name.to_string() }
}

#[test]
fn channels_bind_bones_then_objects() {
    let clips = vec![
        vec!["hip".to_string(), "door".to_string(), "ghost".to_string()],
        vec!["door".to_string()],
    ];
    let skels = vec![skel(7, &["root", "hip"]), skel(9, &["hip"])];
    let objects = vec![obj(1, "door"), obj(2, "hip"), obj(3, "door")];
    let bindings = resolve_bindings(&clips, &skels, &objects);
    assert_eq!(bindings.len(), 2);
    assert_eq!(
        bindings[0],
        vec![
            ChannelBinding { ch_index: 0, target: Binding::Bone { skel: 7, idx: 1 } },
            ChannelBinding { ch_index: 0, target: Binding::Bone { skel: 9, idx: 0 } },
            ChannelBinding { ch_index: 1, target: Binding::Transform(3) },
        ]
    );
    assert_eq!(bindings[1], vec![ChannelBinding { ch_index: 0, target: Binding::Transform(3) }]);
}

#[test]
fn clips_without_targets_bind_nothing() {
    let clips = vec![vec!["x".to_string()], vec![]];
    let bindings = resolve_bindings(&clips, &vec![], &vec![obj(4, "y")]);
    assert_eq!(bindings, vec![Vec::<ChannelBinding>::new(), Vec::new()]);
}
