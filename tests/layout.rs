use cvh_icons::daemon::{Config, IconType};
use cvh_icons::grid::{grid_position, GRID_INSET, LABEL_HEIGHT};
use cvh_icons::pixels::rgba_to_argb8888;
use cvh_icons::scripts::{join, script_candidates, select_scripts, widget_script_name};

#[test]
fn grid_fills_rows_then_wraps() {
    let p = grid_position(1920, 0, 80, 104);
    assert_eq!((p.x, p.y), (20, 20));
    let p = grid_position(1920, 1, 80, 104);
    assert_eq!((p.x, p.y), (100, 20));
    // (1920 - 20) / 80 = 23 columns
    let p = grid_position(1920, 23, 80, 104);
    assert_eq!((p.x, p.y), (20, 124));
    let p = grid_position(1920, 22, 80, 104);
    assert_eq!((p.x, p.y), (1780, 20));
    assert!(1780 + 80 <= 1920);
    assert_eq!(GRID_INSET, 20);
    assert_eq!(LABEL_HEIGHT, 24);
}

#[test]
fn narrow_screen_has_one_column() {
    let p = grid_position(50, 3, 80, 104);
    assert_eq!((p.x, p.y), (20, 20 + 3 * 104));
    let p = grid_position(1000, 2, 0, 10);
    assert_eq!((p.x, p.y), (20, 40));
}

#[test]
fn far_cells_saturate_at_margin_limit() {
    let p = grid_position(100, 4_000_000_000, 80, 4_000_000_000);
    assert_eq!((p.x, p.y), (20, i32::MAX));
}

#[test]
fn channels_swap_to_bgra() {
    let out = rgba_to_argb8888(&vec![10, 20, 30, 40, 1, 2, 3, 4]);
    assert_eq!(out, vec![30, 20, 10, 40, 3, 2, 1, 4]);
    assert!(rgba_to_argb8888(&vec![]).is_empty());
}

#[test]
fn config_validity() {
    let c = Config::default_config();
    assert!(c.is_valid());
    let bad = Config { icon_size: u32::MAX, font_size: 1, grid_spacing: 1, script_dirs: vec![] };
    assert!(!bad.is_valid());
}

#[test]
fn widget_scripts_by_type() {
    assert_eq!(widget_script_name(IconType::Folder), "folder.lua");
    assert_eq!(widget_script_name(IconType::Unknown), "file.lua");
    assert_eq!(widget_script_name(IconType::Audio), "audio.lua");
}

#[test]
fn join_adds_one_separator() {
    assert_eq!(join(&"/a/b".to_string(), "c.lua"), "/a/b/c.lua");
    assert_eq!(join(&"/a/b/".to_string(), "c.lua"), "/a/b/c.lua");
}

#[test]
fn script_search_order() {
    let dirs = vec!["/etc/cvh".to_string(), "/usr/share/cvh/".to_string()];
    let c = script_candidates(&dirs, IconType::Image);
    assert_eq!(c.handlers, vec!["/etc/cvh/ipc_handler.lua", "/usr/share/cvh/ipc_handler.lua"]);
    assert_eq!(
        c.widgets,
        vec![
            "/etc/cvh/image.lua",
            "/etc/cvh/widgets/image.lua",
            "/usr/share/cvh/image.lua",
            "/usr/share/cvh/widgets/image.lua",
        ]
    );
    let chosen = select_scripts(&c, &vec![false, true], &vec![false, true, true, false]);
    assert_eq!(
        chosen,
        Some(("/usr/share/cvh/ipc_handler.lua".to_string(), "/etc/cvh/widgets/image.lua".to_string()))
    );
    assert_eq!(select_scripts(&c, &vec![false, false], &vec![true]), None);
    assert_eq!(select_scripts(&c, &vec![true], &vec![]), None);
}
