use std::collections::HashMap;
use syrillian_engine::scene::bones::{
    bone_hierarchy, bone_index_of, bone_names, joint_map_of, joint_parents, map_joint_indices,
};
use syrillian_engine::scene::meshes::{default_indices, primitive_material, primitive_ranges, triangle_indices, PrimitiveOutcome};
use syrillian_engine::scene::textures::{expand_rgb_to_rgba, texture_format_for, texture_pixels, ImageFormat, TextureFormat};

#[test]
fn rgb_pixels_gain_alpha() {
    assert_eq!(expand_rgb_to_rgba(&vec![1, 2, 3, 4, 5, 6]), vec![1, 2, 3, 255, 4, 5, 6, 255]);
    assert_eq!(expand_rgb_to_rgba(&vec![1, 2, 3, 4]), vec![1, 2, 3, 255, 4, 255]);
    assert!(expand_rgb_to_rgba(&vec![]).is_empty());
}

#[test]
fn texture_formats() {
    assert_eq!(texture_format_for(ImageFormat::R8G8B8), Some(TextureFormat::Rgba8UnormSrgb));
    assert_eq!(texture_format_for(ImageFormat::R16G16), Some(TextureFormat::Rg16Snorm));
    assert_eq!(texture_format_for(ImageFormat::R16G16B16), None);
    assert_eq!(texture_format_for(ImageFormat::R32G32B32Float), None);
    assert_eq!(texture_pixels(ImageFormat::R8G8, &vec![1, 2]), Some((TextureFormat::Rg8Unorm, vec![1, 2])));
    assert_eq!(texture_pixels(ImageFormat::R8G8B8, &vec![9, 8, 7]), Some((TextureFormat::Rgba8UnormSrgb, vec![9, 8, 7, 255])));
    assert_eq!(texture_pixels(ImageFormat::R16G16B16, &vec![0; 6]), None);
}

#[test]
fn joints_find_their_parents() {
    // nodes: 5 is the root joint, 6 its child, 7 child of 6, 3 (not a joint) parent of 5
    let joints = vec![5, 6, 7];
    let mut node_parents = HashMap::new();
    node_parents.insert(3usize, None);
    node_parents.insert(5usize, Some(3usize));
    node_parents.insert(6usize, Some(5usize));
    node_parents.insert(7usize, Some(6usize));
    let parents = joint_parents(&joints, &node_parents);
    assert_eq!(parents, vec![None, Some(0), Some(1)]);
    let (roots, children) = bone_hierarchy(&parents);
    assert_eq!(roots, vec![0]);
    assert_eq!(children, vec![vec![1], vec![2], vec![]]);
}

#[test]
fn parents_listed_after_a_joint_are_not_known_yet() {
    // joint 0's node has joint 1's node as parent, but joint 1 is read later
    let joints = vec![8, 9];
    let mut node_parents = HashMap::new();
    node_parents.insert(8usize, Some(9usize));
    node_parents.insert(9usize, None);
    assert_eq!(joint_parents(&joints, &node_parents), vec![None, None]);
}

#[test]
fn joint_numbers_map_to_bones() {
    let map = joint_map_of(3);
    assert_eq!(map.len(), 3);
    assert_eq!(map_joint_indices([0, 2, 5, 1], &map), vec![0, 2, 0, 1]);
}

#[test]
fn primitives_take_consecutive_ranges() {
    let outcomes = vec![
        PrimitiveOutcome::Ready { vertex_count: 6, material: 2 },
        PrimitiveOutcome::Skip,
        PrimitiveOutcome::Ready { vertex_count: 3, material: 0 },
    ];
    assert_eq!(primitive_ranges(&outcomes), Some((vec![(0, 6), (6, 9)], vec![2, 0])));
    let broken = vec![PrimitiveOutcome::Ready { vertex_count: 6, material: 2 }, PrimitiveOutcome::Missing];
    assert_eq!(primitive_ranges(&broken), None);
    assert_eq!(primitive_ranges(&vec![]), Some((vec![], vec![])));
}

#[test]
fn indices_of_whole_triangles() {
    assert_eq!(default_indices(4), vec![0, 1, 2, 3]);
    assert_eq!(triangle_indices(&vec![0, 1, 2, 3, 4]), vec![0, 1, 2]);
    assert_eq!(triangle_indices(&vec![0, 1, 2, 2, 1, 0]), vec![0, 1, 2, 2, 1, 0]);
    assert_eq!(primitive_material(Some(4)), 4);
    assert_eq!(primitive_material(None), 0);
}

#[test]
fn bones_are_named_after_joints() {
    let names = bone_names(&vec![Some("hip".to_string()), None, Some("hip".to_string()), Some("arm".to_string())]);
    assert_eq!(names, vec!["hip", "<unnamed>", "hip", "arm"]);
    assert_eq!(bone_index_of(&names, "hip"), Some(2));
    assert_eq!(bone_index_of(&names, "arm"), Some(3));
    assert_eq!(bone_index_of(&names, "<unnamed>"), Some(1));
    assert_eq!(bone_index_of(&names, "leg"), None);
}
