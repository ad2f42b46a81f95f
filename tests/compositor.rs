use cvh_icons::canvas::blank_canvas;
use cvh_icons::daemon::{Config, DaemonCommand, FsEntry, FsEvent, FsEventKind, IconDaemon, IconType};
use cvh_icons::input::{normalize_button, InputEvent};
use cvh_icons::wayland::{
    AttachError, OutputInfo, OutputMode, PointerKind, PointerSample, SurfaceError, WaylandState,
};

const DESKTOP: &str = "/home/user/Desktop";

fn desktop_path(name: &str) -> String {
    format!("{}/{}", DESKTOP, name)
}

fn display_daemon() -> IconDaemon {
    IconDaemon::new(Config::default_config(), DESKTOP.to_string(), Some(WaylandState::new()))
}

fn sample(kind: PointerKind, surface: Option<u64>, x: i32, y: i32) -> PointerSample {
    PointerSample { kind, surface, x, y }
}

#[test]
fn test_input_event_debug() {
    let event = InputEvent::PointerEnter { surface_id: 1, x: 10 * 256, y: 20 * 256 };
    let debug_str = format!("{:?}", event);
    assert!(debug_str.contains("PointerEnter"));
    assert!(debug_str.contains("surface_id: 1"));
}

#[test]
fn test_input_event_clone() {
    let event = InputEvent::PointerButton { surface_id: 1, button: 272, pressed: true, x: 10 * 256, y: 20 * 256 };
    let cloned = event.clone();
    match cloned {
        InputEvent::PointerButton { surface_id, button, pressed, .. } => {
            assert_eq!(surface_id, 1);
            assert_eq!(button, 272);
            assert!(pressed);
        }
        _ => panic!("Expected PointerButton"),
    }
}

#[test]
fn button_codes_translate() {
    assert_eq!(normalize_button(272), 1);
    assert_eq!(normalize_button(273), 3);
    assert_eq!(normalize_button(274), 2);
    assert_eq!(normalize_button(275), 275);
    assert_eq!(normalize_button(0), 0);
}

#[test]
fn surface_ids_start_at_one_and_increase() {
    let mut w = WaylandState::new();
    assert_eq!(w.create_surface(0, 0, 64, 88), Ok(1));
    assert_eq!(w.create_surface(10, 20, 64, 88), Ok(2));
    w.destroy_surface(1);
    assert_eq!(w.create_surface(0, 0, 64, 88), Ok(3));
    assert_eq!(w.surface_ids(), vec![2, 3]);
    let r = w.surface(2).unwrap();
    assert_eq!((r.x, r.y, r.width, r.height, r.configured), (10, 20, 64, 88, false));
    let _: Result<u64, SurfaceError> = w.create_surface(0, 0, 1, 1);
}

#[test]
fn destroying_unknown_surface_is_harmless() {
    let mut w = WaylandState::new();
    w.create_surface(0, 0, 64, 88).unwrap();
    w.destroy_surface(42);
    assert_eq!(w.surface_ids(), vec![1]);
}

#[test]
fn attach_requires_configure() {
    let mut w = WaylandState::new();
    let id = w.create_surface(0, 0, 1, 1).unwrap();
    let pixels = vec![1u8, 2, 3, 4];
    assert_eq!(w.attach_buffer(id, &pixels, 1, 1), Err(AttachError::NotConfigured));
    w.configure(id, 0, 0);
    assert_eq!(w.attach_buffer(id, &pixels, 1, 1), Ok(vec![3u8, 2, 1, 4]));
    assert_eq!(w.attach_buffer(99, &pixels, 1, 1), Err(AttachError::UnknownSurface));
    assert_eq!(w.attach_buffer(id, &pixels, 2, 1), Err(AttachError::SizeMismatch));
    assert_eq!(w.attach_buffer(id, &pixels, 70000, 70000), Err(AttachError::SizeMismatch));
}

#[test]
fn configure_replaces_positive_sizes() {
    let mut w = WaylandState::new();
    let id = w.create_surface(0, 0, 64, 88).unwrap();
    w.configure(id, 100, 0);
    let r = w.surface(id).unwrap();
    assert_eq!((r.width, r.height, r.configured), (100, 88, true));
    w.set_surface_position(id, 5, 6);
    let r = w.surface(id).unwrap();
    assert_eq!((r.x, r.y), (5, 6));
}

#[test]
fn closed_surface_is_forgotten() {
    let mut w = WaylandState::new();
    let id = w.create_surface(0, 0, 64, 88).unwrap();
    w.closed(id);
    assert!(w.surface(id).is_none());
    assert!(w.surface_ids().is_empty());
}

#[test]
fn output_dimensions_fall_back() {
    let mut w = WaylandState::new();
    assert_eq!(w.get_output_dimensions(), None);
    w.set_outputs(vec![OutputInfo {
        logical_size: None,
        modes: vec![
            OutputMode { width: 800, height: 600, current: false },
            OutputMode { width: 2560, height: 1440, current: true },
        ],
    }]);
    assert_eq!(w.get_output_dimensions(), Some((2560, 1440)));
    w.set_outputs(vec![
        OutputInfo { logical_size: Some((1280, 720)), modes: vec![] },
        OutputInfo { logical_size: Some((640, 480)), modes: vec![] },
    ]);
    assert_eq!(w.get_output_dimensions(), Some((1280, 720)));
    w.set_outputs(vec![OutputInfo { logical_size: None, modes: vec![] }]);
    assert_eq!(w.get_output_dimensions(), None);
}

#[test]
fn pointer_frame_translates_events() {
    let mut w = WaylandState::new();
    w.pointer_frame(&vec![
        sample(PointerKind::Motion, None, 1, 1),
        sample(PointerKind::Enter, Some(7), 256, 512),
        sample(PointerKind::Motion, Some(7), 300, 600),
        sample(PointerKind::Press { button: 272 }, Some(7), 0, 0),
        sample(PointerKind::Axis, Some(7), 0, 0),
        sample(PointerKind::Release { button: 272 }, Some(7), 0, 0),
        sample(PointerKind::Leave, Some(7), 0, 0),
        sample(PointerKind::Press { button: 273 }, None, 0, 0),
    ]);
    let events = w.take_input_events();
    assert_eq!(events.len(), 5);
    assert!(matches!(events[0], InputEvent::PointerEnter { surface_id: 7, x: 256, y: 512 }));
    assert!(matches!(events[1], InputEvent::PointerMotion { surface_id: 7, x: 300, y: 600 }));
    assert!(matches!(
        events[2],
        InputEvent::PointerButton { surface_id: 7, button: 272, pressed: true, x: 300, y: 600 }
    ));
    assert!(matches!(events[3], InputEvent::PointerButton { surface_id: 7, pressed: false, .. }));
    assert!(matches!(events[4], InputEvent::PointerLeave { surface_id: 7 }));
    assert!(w.take_input_events().is_empty());
}

#[test]
fn exit_request_is_remembered() {
    let mut w = WaylandState::new();
    assert!(!w.should_exit());
    w.request_exit();
    assert!(w.should_exit());
}

#[test]
fn add_with_display_creates_surface_in_next_cell() {
    let mut d = display_daemon();
    let a = desktop_path("a.txt");
    let b = desktop_path("b.txt");
    d.add_icon(&a, IconType::File);
    d.add_icon(&b, IconType::Folder);
    assert_eq!(d.surface_for_path(&a), Some(1));
    assert_eq!(d.surface_for_path(&b), Some(2));
    assert_eq!(d.path_for_surface(2), Some(b.clone()));
    let cmds = d.take_commands();
    assert_eq!(cmds.len(), 4);
    assert!(matches!(
        cmds[1],
        DaemonCommand::CreateSurface { surface_id: 1, x: 20, y: 20, width: 64, height: 88 }
    ));
    assert!(matches!(
        cmds[3],
        DaemonCommand::CreateSurface { surface_id: 2, x: 100, y: 20, width: 64, height: 88 }
    ));
}

#[test]
fn remove_then_add_never_reuses_surface() {
    let mut d = display_daemon();
    let a = desktop_path("a.txt");
    d.add_icon(&a, IconType::File);
    d.remove_icon(&a);
    assert!(!d.has_icon(&a));
    assert_eq!(d.surface_for_path(&a), None);
    assert_eq!(d.path_for_surface(1), None);
    let cmds = d.take_commands();
    assert!(matches!(&cmds[2], DaemonCommand::KillScript { path } if path == &a));
    assert!(matches!(cmds[3], DaemonCommand::DestroySurface { surface_id: 1 }));
    d.add_icon(&a, IconType::File);
    assert_eq!(d.surface_for_path(&a), Some(2));
}

#[test]
fn modify_gives_a_fresh_surface() {
    let mut d = display_daemon();
    let a = desktop_path("a.txt");
    d.handle_fs_event(&FsEvent { kind: FsEventKind::Create, entries: vec![FsEntry { path: a.clone(), kind: IconType::File }] });
    d.handle_fs_event(&FsEvent { kind: FsEventKind::Modify, entries: vec![FsEntry { path: a.clone(), kind: IconType::File }] });
    assert_eq!(d.icon_count(), 1);
    assert_eq!(d.surface_for_path(&a), Some(2));
}

#[test]
fn hover_and_click_through_input() {
    let mut d = display_daemon();
    let a = desktop_path("a.txt");
    d.add_icon(&a, IconType::File);
    d.finish_render_pass(0);
    assert!(!d.needs_render());
    d.pointer_frame(&vec![
        sample(PointerKind::Enter, Some(1), 0, 0),
        sample(PointerKind::Press { button: 274 }, Some(1), 0, 0),
        sample(PointerKind::Enter, Some(9), 0, 0),
    ]);
    let clicks = d.handle_wayland_input();
    assert_eq!(clicks.len(), 1);
    assert_eq!(clicks[0].path, a);
    assert_eq!(clicks[0].button, 2);
    assert!(d.get_icon(&a).unwrap().is_hovered());
    assert!(d.needs_render());
    d.pointer_frame(&vec![sample(PointerKind::Leave, Some(1), 0, 0)]);
    let clicks = d.handle_wayland_input();
    assert!(clicks.is_empty());
    assert!(!d.get_icon(&a).unwrap().is_hovered());
}

#[test]
fn render_pass_clears_dirty_only_without_failures() {
    let mut d = display_daemon();
    let a = desktop_path("a.txt");
    let b = desktop_path("b.txt");
    d.add_icon(&a, IconType::File);
    d.add_icon(&b, IconType::File);
    let jobs = d.render_jobs();
    assert_eq!(jobs.len(), 2);
    assert_eq!((jobs[0].surface_id, jobs[0].width, jobs[0].height), (1, 64, 88));
    assert_eq!(jobs[1].path, b);
    let pixels = vec![0u8; 64 * 88 * 4];
    assert_eq!(d.attach_buffer(1, &pixels, 64, 88), Err(AttachError::NotConfigured));
    d.finish_render_pass(1);
    assert!(d.needs_render());
    d.surface_configured(1, 0, 0);
    d.surface_configured(2, 0, 0);
    assert!(d.attach_buffer(1, &pixels, 64, 88).is_ok());
    assert!(d.attach_buffer(2, &pixels, 64, 88).is_ok());
    d.finish_render_pass(0);
    assert!(!d.needs_render());
    assert!(d.render_jobs().is_empty());
}

#[test]
fn headless_render_pass_keeps_flag() {
    let mut d = IconDaemon::new(Config::default_config(), DESKTOP.to_string(), None);
    d.finish_render_pass(0);
    assert!(d.needs_render());
    let pixels = vec![0u8; 4];
    assert_eq!(d.attach_buffer(1, &pixels, 1, 1), Err(AttachError::UnknownSurface));
}

#[test]
fn geometry_change_repositions_surfaces() {
    let mut d = display_daemon();
    for name in ["a", "b", "c"] {
        d.add_icon(&desktop_path(name), IconType::File);
    }
    d.take_commands();
    d.finish_render_pass(0);
    d.set_outputs(vec![OutputInfo { logical_size: Some((200, 500)), modes: vec![] }]);
    d.update_screen_dimensions();
    assert_eq!(d.screen_dimensions(), (200, 500));
    assert!(d.needs_render());
    let cmds = d.take_commands();
    assert_eq!(cmds.len(), 3);
    assert!(matches!(cmds[0], DaemonCommand::MoveSurface { surface_id: 1, x: 20, y: 20 }));
    assert!(matches!(cmds[1], DaemonCommand::MoveSurface { surface_id: 2, x: 100, y: 20 }));
    assert!(matches!(cmds[2], DaemonCommand::MoveSurface { surface_id: 3, x: 20, y: 124 }));
    d.finish_render_pass(0);
    d.update_screen_dimensions();
    assert!(d.take_commands().is_empty());
    assert!(!d.needs_render());
}

#[test]
fn closed_surface_leaves_icon_without_one() {
    let mut d = display_daemon();
    let a = desktop_path("a.txt");
    d.add_icon(&a, IconType::File);
    d.surface_closed(1);
    assert!(d.has_icon(&a));
    assert_eq!(d.surface_for_path(&a), None);
    assert_eq!(d.path_for_surface(1), None);
    assert!(d.render_jobs().is_empty());
}

#[test]
fn new_daemon_takes_screen_from_primary_output() {
    let mut w = WaylandState::new();
    w.set_outputs(vec![OutputInfo { logical_size: Some((3840, 2160)), modes: vec![] }]);
    let d = IconDaemon::new(Config::default_config(), DESKTOP.to_string(), Some(w));
    assert_eq!(d.screen_dimensions(), (3840, 2160));
    assert!(d.has_display());
}

#[test]
fn blank_canvas_sizes() {
    let c = blank_canvas(64, 88).unwrap();
    assert_eq!(c.data().len(), 64 * 88 * 4);
    assert!(c.data().iter().all(|b| *b == 0));
    assert!(blank_canvas(0, 88).is_none());
    assert!(blank_canvas(64, 0).is_none());
    assert!(blank_canvas(1 << 30, 1).is_none());
}

#[test]
fn drawn_canvas_attaches_in_argb_order() {
    let mut d = display_daemon();
    d.add_icon(&desktop_path("a.txt"), IconType::File);
    d.surface_configured(1, 0, 0);
    let mut canvas = blank_canvas(2, 1).unwrap();
    canvas.fill(tiny_skia::Color::from_rgba8(255, 0, 0, 255));
    let bytes = d.attach_canvas(1, &canvas, 2, 1).unwrap();
    assert_eq!(bytes, vec![0, 0, 255, 255, 0, 0, 255, 255]);
    let blank = blank_canvas(2, 1).unwrap();
    assert_eq!(d.attach_canvas(1, &blank, 2, 1).unwrap(), vec![0u8; 8]);
    assert_eq!(d.attach_canvas(1, &blank, 3, 1), Err(AttachError::SizeMismatch));
    assert_eq!(d.attach_canvas(2, &blank, 2, 1), Err(AttachError::UnknownSurface));
}
