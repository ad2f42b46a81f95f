use cvh_icons::daemon::{Config, DaemonCommand, FsEntry, FsEvent, FsEventKind, IconDaemon, IconType};

const DESKTOP: &str = "/home/user/Desktop";

fn desktop_path(name: &str) -> String {
    format!("{}/{}", DESKTOP, name)
}

fn create_test_daemon(dir: &str) -> IconDaemon {
    IconDaemon::new(Config::default_config(), dir.to_string(), None)
}

fn entry(path: &str, kind: IconType) -> FsEntry {
    FsEntry { path: path.to_string(), kind }
}

fn event(kind: FsEventKind, entries: Vec<FsEntry>) -> FsEvent {
    FsEvent { kind, entries }
}

#[test]
fn test_file_create_event_adds_icon_to_hashmap() {
    let mut daemon = create_test_daemon(DESKTOP);
    let test_file = desktop_path("test_file.txt");
    daemon.handle_fs_event(&event(FsEventKind::Create, vec![entry(&test_file, IconType::File)]));
    assert!(daemon.has_icon(&test_file), "Icon should be added to HashMap after Create event");
    assert_eq!(daemon.icon_count(), 1, "Should have exactly 1 icon");
}

#[test]
fn test_folder_create_event_adds_icon_to_hashmap() {
    let mut daemon = create_test_daemon(DESKTOP);
    let test_folder = desktop_path("test_folder");
    daemon.handle_fs_event(&event(FsEventKind::Create, vec![entry(&test_folder, IconType::Folder)]));
    assert!(daemon.has_icon(&test_folder), "Icon should be added for folder Create event");
}

#[test]
fn test_create_event_multiple_paths() {
    let mut daemon = create_test_daemon(DESKTOP);
    let test_file1 = desktop_path("file1.txt");
    let test_file2 = desktop_path("file2.txt");
    daemon.handle_fs_event(&event(
        FsEventKind::Create,
        vec![entry(&test_file1, IconType::File), entry(&test_file2, IconType::File)],
    ));
    assert!(daemon.has_icon(&test_file1), "Icon should be added for first file");
    assert!(daemon.has_icon(&test_file2), "Icon should be added for second file");
    assert_eq!(daemon.icon_count(), 2, "Should have exactly 2 icons");
}

#[test]
fn test_file_delete_event_removes_icon_from_hashmap() {
    let mut daemon = create_test_daemon(DESKTOP);
    let test_file = desktop_path("test_file.txt");
    daemon.handle_fs_event(&event(FsEventKind::Create, vec![entry(&test_file, IconType::File)]));
    assert!(daemon.has_icon(&test_file), "Icon should exist after Create");
    daemon.handle_fs_event(&event(FsEventKind::Remove, vec![entry(&test_file, IconType::Unknown)]));
    assert!(!daemon.has_icon(&test_file), "Icon should be removed from HashMap after Remove event");
    assert_eq!(daemon.icon_count(), 0, "Should have no icons after removal");
}

#[test]
fn test_delete_event_for_nonexistent_icon_is_harmless() {
    let mut daemon = create_test_daemon(DESKTOP);
    let nonexistent = desktop_path("never_existed.txt");
    daemon.handle_fs_event(&event(FsEventKind::Remove, vec![entry(&nonexistent, IconType::Unknown)]));
    assert_eq!(daemon.icon_count(), 0, "Removing nonexistent icon should not error");
    assert!(daemon.take_commands().is_empty());
}

#[test]
fn test_file_modify_event_refreshes_icon() {
    let mut daemon = create_test_daemon(DESKTOP);
    let test_file = desktop_path("test_file.txt");
    daemon.handle_fs_event(&event(FsEventKind::Create, vec![entry(&test_file, IconType::File)]));
    assert_eq!(daemon.icon_count(), 1, "Should have 1 icon before modify");
    daemon.handle_fs_event(&event(FsEventKind::Modify, vec![entry(&test_file, IconType::Document)]));
    assert!(daemon.has_icon(&test_file), "Icon should still exist after Modify event");
    assert_eq!(daemon.icon_count(), 1, "Should still have exactly 1 icon");
    assert_eq!(daemon.get_icon(&test_file).unwrap().icon_type(), IconType::Document);
}

#[test]
fn test_modify_event_on_unknown_path_is_ignored() {
    let mut daemon = create_test_daemon(DESKTOP);
    let unknown_file = desktop_path("unknown.txt");
    daemon.handle_fs_event(&event(FsEventKind::Modify, vec![entry(&unknown_file, IconType::File)]));
    assert!(!daemon.has_icon(&unknown_file), "Modify event should not add new icons");
    assert_eq!(daemon.icon_count(), 0, "Should have no icons");
}

#[test]
fn test_scan_desktop_ignores_hidden_files() {
    let mut daemon = create_test_daemon(DESKTOP);
    let visible_file = desktop_path("visible.txt");
    let hidden_file = desktop_path(".hidden_file");
    let hidden_folder = desktop_path(".hidden_folder");
    daemon.scan_desktop(&vec![
        entry(&visible_file, IconType::File),
        entry(&hidden_file, IconType::File),
        entry(&hidden_folder, IconType::Folder),
    ]);
    assert!(daemon.has_icon(&visible_file), "Visible file should have an icon");
    assert!(!daemon.has_icon(&hidden_file), "Hidden file (.hidden_file) should be ignored");
    assert!(!daemon.has_icon(&hidden_folder), "Hidden folder (.hidden_folder) should be ignored");
    assert_eq!(daemon.icon_count(), 1, "Should have exactly 1 icon (visible file only)");
}

#[test]
fn test_scan_desktop_ignores_files_starting_with_dot() {
    let mut daemon = create_test_daemon(DESKTOP);
    let dotfile = desktop_path(".bashrc");
    let dot_config = desktop_path(".config");
    let dot_ds_store = desktop_path(".DS_Store");
    let normal_file = desktop_path("readme.txt");
    daemon.scan_desktop(&vec![
        entry(&dotfile, IconType::File),
        entry(&dot_config, IconType::Folder),
        entry(&dot_ds_store, IconType::File),
        entry(&normal_file, IconType::File),
    ]);
    assert!(!daemon.has_icon(&dotfile), ".bashrc should be ignored");
    assert!(!daemon.has_icon(&dot_config), ".config should be ignored");
    assert!(!daemon.has_icon(&dot_ds_store), ".DS_Store should be ignored");
    assert!(daemon.has_icon(&normal_file), "readme.txt should have an icon");
    assert_eq!(daemon.icon_count(), 1);
}

#[test]
fn test_scan_desktop_empty_directory() {
    let mut daemon = create_test_daemon(DESKTOP);
    daemon.scan_desktop(&Vec::new());
    assert_eq!(daemon.icon_count(), 0, "Empty directory should have no icons");
}

#[test]
fn test_scan_desktop_nonexistent_directory() {
    let mut daemon = create_test_daemon("/nonexistent/desktop/path/12345");
    daemon.scan_desktop(&Vec::new());
    assert_eq!(daemon.icon_count(), 0, "Scanning nonexistent directory should not error");
    let later = "/nonexistent/desktop/path/12345/a.txt";
    daemon.handle_fs_event(&event(FsEventKind::Remove, vec![entry(later, IconType::Unknown)]));
    assert_eq!(daemon.icon_count(), 0);
}

#[test]
fn test_icon_count_accuracy() {
    let mut daemon = create_test_daemon(DESKTOP);
    assert_eq!(daemon.icon_count(), 0, "Initial count should be 0");
    for i in 0..5 {
        let file = desktop_path(&format!("file{}.txt", i));
        daemon.handle_fs_event(&event(FsEventKind::Create, vec![entry(&file, IconType::File)]));
    }
    assert_eq!(daemon.icon_count(), 5, "Should have 5 icons after adding 5 files");
}

#[test]
fn test_add_icon_prevents_duplicates() {
    let mut daemon = create_test_daemon(DESKTOP);
    let test_file = desktop_path("test_file.txt");
    daemon.add_icon(&test_file, IconType::File);
    daemon.add_icon(&test_file, IconType::File);
    assert_eq!(daemon.icon_count(), 1, "Should still have only 1 icon after duplicate add");
}

#[test]
fn create_then_remove_scenario() {
    let mut daemon = create_test_daemon(DESKTOP);
    let a = desktop_path("a.txt");
    daemon.handle_fs_event(&event(FsEventKind::Create, vec![entry(&a, IconType::File)]));
    assert_eq!(daemon.icon_count(), 1);
    assert!(daemon.has_icon(&a));
    daemon.handle_fs_event(&event(FsEventKind::Remove, vec![entry(&a, IconType::Unknown)]));
    assert_eq!(daemon.icon_count(), 0);
}

#[test]
fn create_event_for_hidden_name_adds_nothing() {
    let mut daemon = create_test_daemon(DESKTOP);
    let hidden = desktop_path(".secret");
    daemon.handle_fs_event(&event(FsEventKind::Create, vec![entry(&hidden, IconType::File)]));
    assert_eq!(daemon.icon_count(), 0);
}

#[test]
fn paths_outside_the_directory_get_no_icon() {
    let mut daemon = create_test_daemon(DESKTOP);
    daemon.scan_desktop(&vec![
        entry("/home/user/Desktop/sub/deep.txt", IconType::File),
        entry("/home/user/Documents/other.txt", IconType::File),
        entry("/home/user/Desktop", IconType::Folder),
        entry("/home/user/Desktop/", IconType::Folder),
        entry("/home/user/Desktopx/a.txt", IconType::File),
    ]);
    assert_eq!(daemon.icon_count(), 0);
}

#[test]
fn directory_with_trailing_separator_accepts_children() {
    let mut daemon = create_test_daemon("/home/user/Desktop/");
    daemon.scan_desktop(&vec![entry("/home/user/Desktop/a.txt", IconType::File)]);
    assert_eq!(daemon.icon_count(), 1);
    assert!(daemon.has_icon(&"/home/user/Desktop/a.txt".to_string()));
}

#[test]
fn other_events_change_nothing() {
    let mut daemon = create_test_daemon(DESKTOP);
    daemon.finish_render_pass(0);
    daemon.handle_fs_event(&event(FsEventKind::Other, vec![entry(&desktop_path("x"), IconType::File)]));
    assert_eq!(daemon.icon_count(), 0);
}

#[test]
fn headless_add_queues_only_the_script() {
    let mut daemon = create_test_daemon(DESKTOP);
    let a = desktop_path("a.txt");
    daemon.add_icon(&a, IconType::Image);
    let cmds = daemon.take_commands();
    assert_eq!(cmds.len(), 1);
    match &cmds[0] {
        DaemonCommand::SpawnScript { path, kind } => {
            assert_eq!(path, &a);
            assert_eq!(*kind, IconType::Image);
        }
        _ => panic!("expected a script start"),
    }
    assert_eq!(daemon.get_icon(&a).unwrap().surface_id(), None);
    daemon.remove_icon(&a);
    let cmds = daemon.take_commands();
    assert_eq!(cmds.len(), 1);
    assert!(matches!(&cmds[0], DaemonCommand::KillScript { path } if path == &a));
}

#[test]
fn tick_removes_gone_icons() {
    let mut daemon = create_test_daemon(DESKTOP);
    let a = desktop_path("a.txt");
    let b = desktop_path("b.txt");
    daemon.scan_desktop(&vec![entry(&a, IconType::File), entry(&b, IconType::File)]);
    daemon.update_icons(&vec![a.clone()]);
    assert!(!daemon.has_icon(&a));
    assert!(daemon.has_icon(&b));
    assert_eq!(daemon.icon_count(), 1);
}

#[test]
fn icons_follow_directory_through_event_sequence() {
    let mut daemon = create_test_daemon(DESKTOP);
    let a = desktop_path("a.txt");
    let b = desktop_path("b.txt");
    let c = desktop_path(".c");
    daemon.scan_desktop(&vec![entry(&a, IconType::File)]);
    daemon.handle_fs_event(&event(FsEventKind::Create, vec![entry(&b, IconType::File), entry(&c, IconType::File)]));
    daemon.handle_fs_event(&event(FsEventKind::Modify, vec![entry(&a, IconType::File)]));
    daemon.handle_fs_event(&event(FsEventKind::Remove, vec![entry(&b, IconType::Unknown)]));
    let paths: Vec<String> = daemon.icons().iter().map(|i| i.path().clone()).collect();
    assert_eq!(paths, vec![a.clone()]);
}

#[test]
fn headless_daemon_uses_default_screen_and_starts_dirty() {
    let daemon = create_test_daemon(DESKTOP);
    assert_eq!(daemon.screen_dimensions(), (1920, 1080));
    assert!(daemon.needs_render());
    assert!(!daemon.has_display());
    assert!(daemon.render_jobs().is_empty());
    assert!(!daemon.wayland_should_exit());
}

#[test]
fn fs_events_make_render_due() {
    let mut daemon = create_test_daemon(DESKTOP);
    daemon.handle_fs_event(&event(FsEventKind::Remove, vec![]));
    assert!(daemon.needs_render());
}

#[test]
fn position_all_icons_uses_grid() {
    let mut daemon = create_test_daemon(DESKTOP);
    for i in 0..3 {
        daemon.add_icon(&desktop_path(&format!("f{}", i)), IconType::File);
    }
    // cells of 80 x 104 on a 200-pixel screen: two columns
    let placed = daemon.position_all_icons(200, 600, None, None);
    assert_eq!(placed.len(), 3);
    assert_eq!((placed[0].1.x, placed[0].1.y), (20, 20));
    assert_eq!((placed[1].1.x, placed[1].1.y), (100, 20));
    assert_eq!((placed[2].1.x, placed[2].1.y), (20, 124));
    let placed = daemon.position_all_icons(1000, 600, Some(300), Some(50));
    assert_eq!((placed[2].1.x, placed[2].1.y), (620, 20));
}

#[test]
fn add_and_remove_make_render_due() {
    let mut daemon = create_test_daemon(DESKTOP);
    daemon.finish_render_pass(0);
    let a = desktop_path("a.txt");
    daemon.add_icon(&a, IconType::File);
    assert!(daemon.needs_render());
    let mut daemon = create_test_daemon(DESKTOP);
    daemon.add_icon(&a, IconType::File);
    daemon.remove_icon(&desktop_path("b.txt"));
    assert_eq!(daemon.icon_count(), 1);
    daemon.remove_icon(&a);
    assert_eq!(daemon.icon_count(), 0);
    assert!(daemon.needs_render());
}
