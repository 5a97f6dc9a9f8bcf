use syrillian_engine::engine_args::{default_window_size, forced_backends, present_mode, window_size, PresentModeChoice};
use syrillian_engine::prefabs::{SunPrefab, ThirdPersonPlayerPrefab};

#[test]
fn window_sizes() {
    assert_eq!(window_size("800x600"), Some((800, 600)));
    assert_eq!(window_size("1024,768"), Some((1024, 768)));
    assert_eq!(window_size("512"), Some((512, 512)));
    assert_eq!(window_size("640x"), Some((640, 640)));
    assert_eq!(window_size("640xabc"), Some((640, 640)));
    assert_eq!(window_size("x600"), None);
    assert_eq!(window_size(""), None);
    assert_eq!(window_size("+20x+30"), Some((20, 30)));
    assert_eq!(window_size("1x2x3"), Some((1, 2)));
    assert_eq!(window_size("4294967295"), Some((u32::MAX, u32::MAX)));
    assert_eq!(window_size("4294967296"), None);
    assert_eq!(window_size("-5"), None);
}

#[test]
fn default_window_size_is_800_by_600() {
    assert_eq!(default_window_size(None), (800, 600));
    assert_eq!(default_window_size(Some(None)), (800, 600));
    assert_eq!(default_window_size(Some(Some((1, 2)))), (1, 2));
}

#[test]
fn present_modes_by_name() {
    assert_eq!(present_mode("vsync"), Some(PresentModeChoice::AutoVsync));
    assert_eq!(present_mode("no_vsync"), Some(PresentModeChoice::AutoNoVsync));
    assert_eq!(present_mode("fifo"), Some(PresentModeChoice::Fifo));
    assert_eq!(present_mode("fifo_relaxed"), Some(PresentModeChoice::FifoRelaxed));
    assert_eq!(present_mode("mailbox"), Some(PresentModeChoice::Mailbox));
    assert_eq!(present_mode("immediate"), Some(PresentModeChoice::Immediate));
    assert_eq!(present_mode("Vsync"), None);
    assert_eq!(present_mode(""), None);
}

#[test]
fn prefab_names() {
    assert_eq!(SunPrefab.prefab_name(), "Sun");
    assert_eq!(ThirdPersonPlayerPrefab.prefab_name(), "Third Person Player");
}

#[test]
fn forced_backend_lists() {
    let vk = wgpu::Backends::VULKAN.bits();
    let gl = wgpu::Backends::GL.bits();
    let metal = wgpu::Backends::METAL.bits();
    let dx12 = wgpu::Backends::DX12.bits();
    assert_eq!(forced_backends("gl, VK"), Some(vec![vk, gl]));
    assert_eq!(forced_backends("dx12,d3d12, mtl"), Some(vec![metal, dx12]));
    assert_eq!(forced_backends("opengl,nothing"), Some(vec![gl]));
    assert_eq!(forced_backends("nothing"), None);
    assert_eq!(forced_backends(""), None);
}
