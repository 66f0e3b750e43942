use dogmv::sidebar::SidebarToggle;
use dogmv::viewer::{shortcut_for, Shortcut, ViewerCommand, ViewerController};
use dogmv::watch::{ChangeFlag, WatchEventKind};

#[test]
fn burst_of_changes_is_reported_once() {
    let mut flag = ChangeFlag::new();
    for _ in 0..5 {
        assert!(flag.record(WatchEventKind::Modify));
    }
    assert!(!flag.record(WatchEventKind::Access));
    assert!(flag.record(WatchEventKind::Create));
    assert!(flag.poll_and_clear());
    assert!(!flag.poll_and_clear());
}

#[test]
fn quiet_poll_reports_nothing() {
    let mut flag = ChangeFlag::new();
    flag.record(WatchEventKind::Modify);
    assert!(flag.poll_and_clear());
    assert!(!flag.record(WatchEventKind::Access));
    assert!(!flag.record(WatchEventKind::Remove));
    assert!(!flag.record(WatchEventKind::Any));
    assert!(!flag.record(WatchEventKind::Other));
    assert!(!flag.poll_and_clear());
}

#[test]
fn startup_without_file_greets() {
    let mut c = ViewerController::new("/root".to_string());
    assert_eq!(c.start(None), vec![ViewerCommand::ShowWelcome]);
    assert_eq!(c.session, None);
}

#[test]
fn startup_with_file_shows_and_watches() {
    let mut c = ViewerController::new("/docs".to_string());
    let cmds = c.start(Some("/docs/a.md".to_string()));
    assert_eq!(
        cmds,
        vec![
            ViewerCommand::StartWatch(1, "/docs/a.md".to_string()),
            ViewerCommand::ShowFile("/docs/a.md".to_string()),
        ]
    );
    assert_eq!(c.current_file, Some("/docs/a.md".to_string()));
}

#[test]
fn change_reloads_current_file() {
    let mut c = ViewerController::new("/docs".to_string());
    c.start(Some("/docs/a.md".to_string()));
    let mut flag = ChangeFlag::new();
    flag.record(WatchEventKind::Modify);
    flag.record(WatchEventKind::Modify);
    let changed = flag.poll_and_clear();
    assert_eq!(c.tick(1, changed), vec![ViewerCommand::ShowFile("/docs/a.md".to_string())]);
    assert!(!flag.poll_and_clear());
    assert!(c.tick(1, false).is_empty());
}

#[test]
fn switching_files_silences_the_old_session() {
    let mut c = ViewerController::new("/docs".to_string());
    c.start(Some("/docs/a.md".to_string()));
    let cmds = c.file_selected("/docs/b.md".to_string(), false, false);
    assert_eq!(
        cmds,
        vec![
            ViewerCommand::StopWatch(1),
            ViewerCommand::StartWatch(2, "/docs/b.md".to_string()),
            ViewerCommand::ShowFile("/docs/b.md".to_string()),
        ]
    );
    assert!(c.tick(1, true).is_empty());
    assert_eq!(c.tick(2, true), vec![ViewerCommand::ShowFile("/docs/b.md".to_string())]);
}

#[test]
fn selecting_directories_and_links() {
    let mut c = ViewerController::new("/docs".to_string());
    assert_eq!(c.file_selected("/docs/sub".to_string(), true, false), vec![ViewerCommand::ToggleExpand]);
    assert!(c.file_selected("/docs/link".to_string(), false, true).is_empty());
    assert!(c.file_selected("/docs/dirlink".to_string(), true, true).is_empty());
    assert_eq!(c.current_file, None);
}

#[test]
fn open_dialog_moves_the_root() {
    let mut c = ViewerController::new("/docs".to_string());
    let cmds = c.open_accepted("/other/x.md".to_string());
    assert_eq!(cmds.len(), 2);
    assert_eq!(c.root_dir, "/other");
    assert_eq!(c.current_file, Some("/other/x.md".to_string()));
}

#[test]
fn shortcuts_map_control_keys() {
    assert_eq!(shortcut_for(true, Some('r')), Some(Shortcut::Reload));
    assert_eq!(shortcut_for(true, Some('R')), Some(Shortcut::Reload));
    assert_eq!(shortcut_for(true, Some('q')), Some(Shortcut::Quit));
    assert_eq!(shortcut_for(true, Some('O')), Some(Shortcut::Open));
    assert_eq!(shortcut_for(false, Some('r')), None);
    assert_eq!(shortcut_for(true, Some('x')), None);
    assert_eq!(shortcut_for(true, None), None);
}

#[test]
fn shortcut_commands() {
    let mut c = ViewerController::new("/docs".to_string());
    assert!(c.shortcut(Shortcut::Reload).is_empty());
    c.start(Some("/docs/a.md".to_string()));
    assert_eq!(c.shortcut(Shortcut::Reload), vec![ViewerCommand::ShowFile("/docs/a.md".to_string())]);
    assert_eq!(c.shortcut(Shortcut::Open), vec![ViewerCommand::OpenDialog]);
    assert_eq!(c.shortcut(Shortcut::Quit), vec![ViewerCommand::StopWatch(1), ViewerCommand::Quit]);
    assert_eq!(c.session, None);
}

#[test]
fn sidebar_collapses_and_restores() {
    let mut s = SidebarToggle::new();
    let closed = s.toggle(true, 310);
    assert_eq!(closed.position, 40);
    assert!(!closed.tree_visible);
    assert_eq!(closed.icon, "pan-end-symbolic");
    let open = s.toggle(false, 40);
    assert_eq!(open.position, 310);
    assert!(open.tree_visible);
    assert_eq!(open.icon, "pan-start-symbolic");
}
