use starcolorkeyboard::keymap::{keymap_payload, KeymapError};
use starcolorkeyboard::modifier::{ModifierState, ModifierType, CAPS_LOCK, SHIFT_LEFT};
use starcolorkeyboard::pangoui::{PangoUi, MINIMIZE_KEYCODE};
use starcolorkeyboard::registry::{global_kind, Discovery, GlobalKind, KeyboardPlan, SetupError};
use starcolorkeyboard::render::{remap_pixels, render_frame, RenderError};
use starcolorkeyboard::session::{Action, KeyboardState};
use starcolorkeyboard::surface::{buffer_spec, LayerConfig, LayerRequest, MINIMIZED_HEIGHT};

fn ui(width: i32, height: i32) -> PangoUi {
    let mut ui = PangoUi::new();
    ui.set_size((width, height));
    ui
}

fn png_of(width: u32, height: u32, rgba: Vec<u8>) -> Vec<u8> {
    let img = image::RgbaImage::from_raw(width, height, rgba).unwrap();
    let mut out = std::io::Cursor::new(Vec::new());
    img.write_to(&mut out, image::ImageFormat::Png).unwrap();
    out.into_inner()
}

#[test]
fn size_round_trips() {
    let mut u = PangoUi::new();
    assert_eq!(u.get_size(), (0, 0));
    u.set_size((480, 300));
    assert_eq!(u.get_size(), (480, 300));
}

#[test]
fn right_of_grid_middle_third_is_minimize() {
    assert_eq!(ui(480, 300).get_key((500, 150)), Some(11));
    assert_eq!(MINIMIZE_KEYCODE, 11);
}

#[test]
fn left_of_grid_is_nothing() {
    assert_eq!(ui(480, 300).get_key((50, 150)), None);
    assert_eq!(ui(480, 300).get_key((79, 0)), None);
}

#[test]
fn right_of_grid_outer_thirds_are_nothing() {
    let u = ui(480, 300);
    assert_eq!(u.get_key((500, 50)), None);
    assert_eq!(u.get_key((500, 250)), None);
    assert_eq!(u.get_key((381, 99)), None);
    assert_eq!(u.get_key((381, 100)), Some(11));
    assert_eq!(u.get_key((381, 199)), Some(11));
    assert_eq!(u.get_key((381, 200)), None);
}

#[test]
fn grid_cells_give_digit_keys() {
    let u = ui(480, 300);
    assert_eq!(u.get_key((80, 0)), Some(2));
    assert_eq!(u.get_key((180, 0)), Some(3));
    assert_eq!(u.get_key((280, 150)), Some(7));
    assert_eq!(u.get_key((379, 299)), Some(10));
    assert_eq!(u.get_key((380, 0)), Some(4));
    assert_eq!(u.get_key((380, 150)), Some(7));
    assert_eq!(u.get_key((100, 300)), Some(8));
    assert_eq!(u.get_key((100, -500)), Some(2));
    assert_eq!(u.get_key((100, -5)), Some(2));
}

#[test]
fn hit_test_is_repeatable() {
    let u = ui(480, 300);
    for &(x, y) in &[(500, 150), (50, 150), (250, 120), (380, 100)] {
        assert_eq!(u.get_key((x, y)), u.get_key((x, y)));
        assert_eq!(u.get_key((x, y)), ui(480, 300).get_key((x, y)));
    }
}

#[test]
fn too_short_keyboard_hits_nothing() {
    assert_eq!(ui(480, 2).get_key((479, 1)), None);
    assert_eq!(ui(0, 0).get_key((0, 0)), None);
}

#[test]
fn every_grid_position_has_a_key() {
    let u = ui(481, 301);
    for x in 81..=381 {
        for &y in &[-101, -1, 0, 150, 299, 300, 400] {
            assert!(u.get_key((x, y)).is_some(), "no key at ({}, {})", x, y);
        }
    }
}

#[test]
fn minimize_state_is_visible() {
    let mut c = LayerConfig::new(300).unwrap();
    c.toggle_minimized();
    assert!(c.is_minimized());
    assert_eq!(c.height(), 300);
    c.minimize();
    c.restore();
    assert!(!c.is_minimized());
    assert_eq!(c.request().exclusive_zone, 300);
}

#[test]
fn modifier_table() {
    assert_eq!(ModifierType::from_keycode(CAPS_LOCK), ModifierType::CapsLock);
    assert_eq!(ModifierType::from_keycode(SHIFT_LEFT), ModifierType::Shift);
    assert_eq!(ModifierType::from_keycode(54), ModifierType::Shift);
    assert_eq!(ModifierType::from_keycode(29), ModifierType::Ctrl);
    assert_eq!(ModifierType::from_keycode(100), ModifierType::Alt);
    assert_eq!(ModifierType::from_keycode(30), ModifierType::NoMod);
    assert_eq!(ModifierType::Super.bits(), 64);
    assert_eq!(ModifierType::AltGr.bits(), 128);
}

#[test]
fn releasing_a_modifier_twice_restores_the_mask() {
    let mut m = ModifierState::new();
    let before = m;
    assert!(m.release(SHIFT_LEFT));
    assert_eq!(m.bits(), 1);
    assert!(m.contains(ModifierType::Shift));
    assert!(m.release(SHIFT_LEFT));
    assert_eq!(m, before);
    assert_eq!(m.bits(), 0);
}

#[test]
fn releasing_a_plain_key_changes_nothing() {
    let mut m = ModifierState::new();
    assert!(m.release(CAPS_LOCK));
    assert!(!m.release(30));
    assert_eq!(m.bits(), 2);
    assert!(!m.contains(ModifierType::NoMod));
}

#[test]
fn white_pixels_become_translucent_grey() {
    let src = vec![255, 255, 255, 255, 255, 255, 255, 0, 255, 255, 254, 255, 1, 2, 3, 4];
    let out = remap_pixels(&src);
    assert_eq!(out, vec![50, 50, 50, 50, 50, 50, 50, 50, 255, 255, 254, 255, 1, 2, 3, 4]);
    assert_eq!(remap_pixels(&Vec::new()), Vec::<u8>::new());
}

#[test]
fn rendering_decodes_and_remaps() {
    let png = png_of(2, 1, vec![255, 255, 255, 255, 1, 2, 3, 4]);
    let spec = buffer_spec(2, 1).unwrap();
    let a = render_frame(&png, &spec).unwrap();
    assert_eq!(a, vec![50, 50, 50, 50, 1, 2, 3, 4]);
    let b = render_frame(&png, &spec).unwrap();
    assert_eq!(a, b);
}

#[test]
fn rendering_errors() {
    let png = png_of(2, 1, vec![255, 255, 255, 255, 1, 2, 3, 4]);
    assert_eq!(render_frame(&png, &buffer_spec(3, 1).unwrap()), Err(RenderError::SizeMismatch));
    assert_eq!(render_frame(&vec![1, 2, 3], &buffer_spec(2, 1).unwrap()), Err(RenderError::Undecodable));
}

#[test]
fn buffer_layout() {
    let b = buffer_spec(480, 300).unwrap();
    assert_eq!((b.width, b.height, b.stride, b.pool_size), (480, 300, 1920, 576000));
    assert_eq!(buffer_spec(-1, 300), None);
    assert_eq!(buffer_spec(100000, 100000), None);
    assert_eq!(buffer_spec(i32::MAX, 0), None);
    assert_eq!(buffer_spec(0, 0).unwrap().pool_size, 0);
}

#[test]
fn keymap_is_nul_terminated() {
    assert_eq!(keymap_payload(&b"abc".to_vec()), Ok((vec![b'a', b'b', b'c', 0], 4)));
    assert_eq!(keymap_payload(&Vec::new()), Ok((vec![0], 1)));
    assert_eq!(keymap_payload(&vec![b'a', 0, b'b']), Err(KeymapError::InteriorNul));
}

#[test]
fn minimize_then_restore_gives_back_the_zone() {
    let mut c = LayerConfig::new(300).unwrap();
    let before = c.request();
    assert_eq!(before, LayerRequest { width: 0, height: 300, exclusive_zone: 300 });
    c.minimize();
    assert!(c.is_minimized());
    assert_eq!(c.request(), LayerRequest { width: 0, height: 10, exclusive_zone: MINIMIZED_HEIGHT });
    c.restore();
    assert_eq!(c.request(), before);
    assert_eq!(c.height(), 300);
    assert!(LayerConfig::new(-1).is_none());
}

#[test]
fn interface_names() {
    assert_eq!(global_kind("wl_output"), Some(GlobalKind::Output));
    assert_eq!(global_kind("wl_shm"), Some(GlobalKind::Shm));
    assert_eq!(global_kind("wl_seat"), Some(GlobalKind::Seat));
    assert_eq!(global_kind("zwlr_layer_shell_v1"), Some(GlobalKind::LayerShell));
    assert_eq!(global_kind("xdg_wm_base"), Some(GlobalKind::WmBase));
    assert_eq!(global_kind("zxdg_output_manager_v1"), Some(GlobalKind::XdgOutputManager));
    assert_eq!(
        global_kind("zwp_virtual_keyboard_manager_v1"),
        Some(GlobalKind::VirtualKeyboardManager)
    );
    assert_eq!(global_kind("wl_compositor"), None);
}

fn full_discovery() -> Discovery {
    let mut d = Discovery::new();
    for k in [
        GlobalKind::Shm,
        GlobalKind::Seat,
        GlobalKind::LayerShell,
        GlobalKind::WmBase,
        GlobalKind::XdgOutputManager,
        GlobalKind::VirtualKeyboardManager,
    ] {
        assert_eq!(d.announce(k), None);
    }
    d
}

#[test]
fn setup_waits_for_every_output() {
    let mut d = full_discovery();
    assert_eq!(d.finish(), Err(SetupError::NoOutput));
    assert_eq!(d.announce(GlobalKind::Output), Some(0));
    assert_eq!(d.announce(GlobalKind::Output), Some(1));
    assert!(d.set_output_size(0, 1920, 1080));
    assert!(!d.all_resolved());
    assert_eq!(d.finish(), Err(SetupError::UnresolvedOutput));
    assert!(!d.set_output_size(2, 800, 600));
    assert!(d.set_output_size(1, 1280, 720));
    assert!(d.all_resolved());
    assert_eq!(d.finish(), Ok(KeyboardPlan { output: 0, width: 1920, height: 300 }));
}

#[test]
fn setup_needs_layer_shell_and_wm_base() {
    let mut d = Discovery::new();
    assert_eq!(d.finish(), Err(SetupError::Unsupported));
    d.announce(GlobalKind::LayerShell);
    assert_eq!(d.finish(), Err(SetupError::Unsupported));
    d.announce(GlobalKind::WmBase);
    assert_eq!(d.finish(), Err(SetupError::MissingGlobal));
}

#[test]
fn session_press_and_release() {
    let plan = KeyboardPlan { output: 0, width: 480, height: 300 };
    let mut k = KeyboardState::new(&plan).unwrap();
    assert_eq!(k.buffer().unwrap().pool_size, 576000);
    k.pointer_motion(500, 150);
    assert_eq!(k.get_key_point(), Some(11));
    k.touch_motion(50, 150);
    assert_eq!(k.get_key_touch(), None);
    let hit = k.get_key_point();
    assert_eq!(
        k.on_press(hit),
        Action::Resize(LayerRequest { width: 0, height: 10, exclusive_zone: 10 })
    );
    assert_eq!(k.on_release(hit), Action::Nothing);
    assert_eq!(
        k.on_press(hit),
        Action::Resize(LayerRequest { width: 0, height: 300, exclusive_zone: 300 })
    );
    assert_eq!(k.on_press(Some(5)), Action::Press(5));
    assert_eq!(k.on_press(None), Action::Nothing);
    assert_eq!(k.on_release(Some(42)), Action::Release { key: 42, modifiers: Some(1) });
    assert_eq!(k.on_release(Some(30)), Action::Release { key: 30, modifiers: None });
    assert_eq!(k.on_release(Some(42)), Action::Release { key: 42, modifiers: Some(0) });
    assert!(k.key_release(58));
    assert_eq!(k.modifiers.bits(), 2);
    assert!(KeyboardState::new(&KeyboardPlan { output: 0, width: 480, height: -1 }).is_none());
}

#[test]
fn modifier_from_keycode_conversion() {
    assert_eq!(ModifierType::from(42u32), ModifierType::Shift);
    assert_eq!(ModifierType::from(125u32), ModifierType::Super);
    let m: ModifierType = 2u32.into();
    assert_eq!(m, ModifierType::NoMod);
}

#[test]
fn default_keyboard_is_empty() {
    let u = PangoUi::default();
    assert_eq!(u.get_size(), (0, 0));
    assert_eq!(u.get_key((0, 0)), None);
}
