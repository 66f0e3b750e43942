//! The viewer's decisions: what to show, which file to watch, and what each
//! user action or timer tick leads to. The caller performs the commands.
use vstd::prelude::*;
use crate::paths::{parent_of, path_parent};
use crate::watch::{flag_after_all, polled, WatchEventKind};

verus! {

/// Something the viewer asks its surroundings to do.
#[derive(Debug, PartialEq, Eq)]
pub enum ViewerCommand {
    /// Show the page that greets a user with no file open.
    ShowWelcome,
    /// Load, render and show this file.
    ShowFile(String),
    /// Start watching this file; its notifications belong to this session.
    StartWatch(u64, String),
    /// Stop the watcher of this session.
    StopWatch(u64),
    /// Open or close the selected directory in the tree.
    ToggleExpand,
    /// Ask the user for a file to open.
    OpenDialog,
    /// Leave the application.
    Quit,
}

/// The keyboard shortcuts of the viewer.
#[derive(Clone, Copy, Debug, PartialEq, Eq, Structural)]
pub enum Shortcut {
    Reload,
    Quit,
    Open,
}

/// The shortcut that a key press stands for: Control with `r`, `q` or `o`,
/// in either case.
pub open spec fn spec_shortcut_for(ctrl: bool, key: Option<char>) -> Option<Shortcut> {
    if !ctrl {
        None
    } else {
        match key {
            Some(c) => if c == 'r' || c == 'R' {
                Some(Shortcut::Reload)
            } else if c == 'q' || c == 'Q' {
                Some(Shortcut::Quit)
            } else if c == 'o' || c == 'O' {
                Some(Shortcut::Open)
            } else {
                None
            },
            None => None,
        }
    }
}

/// The shortcut for a key press with or without Control held; `key` is the
/// character the key produces, if any.
pub fn shortcut_for(ctrl: bool, key: Option<char>) -> (r: Option<Shortcut>)
    ensures
        r == spec_shortcut_for(ctrl, key),
{
    if !ctrl {
        return None;
    }
    match key {
        Some(c) => {
            if c == 'r' || c == 'R' {
                Some(Shortcut::Reload)
            } else if c == 'q' || c == 'Q' {
                Some(Shortcut::Quit)
            } else if c == 'o' || c == 'O' {
                Some(Shortcut::Open)
            } else {
                None
            }
        },
        None => None,
    }
}

/// The identifier of the session that follows `id`.
pub open spec fn next_session(id: u64) -> u64 {
    if id == u64::MAX {
        0
    } else {
        (id + 1) as u64
    }
}

/// The state of the viewer: the file on display, the root of the tree, and
/// the watch session that reports changes to the file, if one runs.
pub struct ViewerController {
    pub current_file: Option<String>,
    pub root_dir: String,
    pub session: Option<u64>,
    pub last_session: u64,
}

impl ViewerController {
    /// A running session is always the latest one started.
    pub open spec fn wf(self) -> bool {
        self.session is Some ==> self.session == Some(self.last_session)
    }
}

/// The commands that open `path` when `old` describes the viewer: the old
/// watcher stops, a new one starts, and the file is shown at once.
pub open spec fn open_commands(old: ViewerController, path: String) -> Seq<ViewerCommand> {
    let start = seq![
        ViewerCommand::StartWatch(next_session(old.last_session), path),
        ViewerCommand::ShowFile(path),
    ];
    match old.session {
        Some(id) => seq![ViewerCommand::StopWatch(id)] + start,
        None => start,
    }
}

/// The commands that a timer tick leads to: a change reported by the active
/// session reloads the file on display; anything else is ignored.
pub open spec fn tick_commands(c: ViewerController, session: u64, changed: bool) -> Seq<ViewerCommand> {
    if changed && c.session == Some(session) && c.current_file is Some {
        seq![ViewerCommand::ShowFile(c.current_file->Some_0)]
    } else {
        Seq::empty()
    }
}

/// The viewer after `path` was opened from the state `old`.
pub open spec fn after_open(old: ViewerController, path: String) -> ViewerController {
    ViewerController {
        current_file: Some(path),
        root_dir: old.root_dir,
        session: Some(next_session(old.last_session)),
        last_session: next_session(old.last_session),
    }
}

impl ViewerController {
    /// A viewer with nothing open and no watcher yet.
    pub fn new(root_dir: String) -> (r: ViewerController)
        ensures
            r.wf(),
            r.current_file is None,
            r.root_dir == root_dir,
            r.session is None,
            r.last_session == 0,
    {
        ViewerController { current_file: None, root_dir, session: None, last_session: 0 }
    }

    /// What the viewer does at startup: open the file named on the command
    /// line, or greet the user when there is none.
    pub fn start(&mut self, initial_file: Option<String>) -> (r: Vec<ViewerCommand>)
        ensures
            match initial_file {
                Some(path) => {
                    &&& r@ == open_commands(*old(self), path)
                    &&& *final(self) == after_open(*old(self), path)
                },
                None => {
                    &&& r@ == seq![ViewerCommand::ShowWelcome]
                    &&& *final(self) == *old(self)
                },
            },
    {
        match initial_file {
            Some(path) => self.open(path),
            None => {
                let mut r = Vec::new();
                r.push(ViewerCommand::ShowWelcome);
                r
            },
        }
    }

    /// Makes `path` the tracked file: stops the current watcher, starts one
    /// for `path` under a new session, and shows the file at once.
    pub fn open(&mut self, path: String) -> (r: Vec<ViewerCommand>)
        ensures
            r@ == open_commands(*old(self), path),
            *final(self) == after_open(*old(self), path),
    {
        let mut r: Vec<ViewerCommand> = Vec::new();
        match self.session {
            Some(id) => r.push(ViewerCommand::StopWatch(id)),
            None => {},
        }
        let id = if self.last_session == u64::MAX {
            0
        } else {
            self.last_session + 1
        };
        self.last_session = id;
        self.session = Some(id);
        self.current_file = Some(path.clone());
        r.push(ViewerCommand::StartWatch(id, path.clone()));
        r.push(ViewerCommand::ShowFile(path));
        proof {
            match old(self).session {
                Some(oid) => {
                    assert(r@ =~= seq![ViewerCommand::StopWatch(oid)] + seq![
                        ViewerCommand::StartWatch(id, path),
                        ViewerCommand::ShowFile(path),
                    ]);
                },
                None => {
                    assert(r@ =~= seq![
                        ViewerCommand::StartWatch(id, path),
                        ViewerCommand::ShowFile(path),
                    ]);
                },
            }
        }
        r
    }

    /// A row of the tree was selected: a plain file is opened, a directory
    /// opens or closes, a link does nothing.
    pub fn file_selected(&mut self, path: String, is_dir: bool, is_symlink: bool) -> (r: Vec<ViewerCommand>)
        ensures
            !is_dir && !is_symlink ==> r@ == open_commands(*old(self), path) && *final(self) == after_open(*old(self), path),
            is_dir && !is_symlink ==> r@ == seq![ViewerCommand::ToggleExpand] && *final(self) == *old(self),
            is_symlink ==> r@.len() == 0 && *final(self) == *old(self),
    {
        if is_symlink {
            Vec::new()
        } else if is_dir {
            let mut r = Vec::new();
            r.push(ViewerCommand::ToggleExpand);
            r
        } else {
            self.open(path)
        }
    }

    /// The user chose `path` in the open dialog: it is opened, and the tree's
    /// root becomes its directory.
    pub fn open_accepted(&mut self, path: String) -> (r: Vec<ViewerCommand>)
        ensures
            r@ == open_commands(*old(self), path),
            final(self).current_file == Some(path),
            final(self).session == after_open(*old(self), path).session,
            final(self).last_session == after_open(*old(self), path).last_session,
            match path_parent(path@) {
                Some(dir) => final(self).root_dir@ == dir,
                None => final(self).root_dir == old(self).root_dir,
            },
    {
        let parent = parent_of(path.as_str());
        let r = self.open(path);
        match parent {
            Some(dir) => self.root_dir = dir,
            None => {},
        }
        r
    }

    /// A keyboard shortcut: reload shows the current file again at once,
    /// quit stops the watcher first, open asks for a file.
    pub fn shortcut(&mut self, s: Shortcut) -> (r: Vec<ViewerCommand>)
        ensures
            s is Reload ==> *final(self) == *old(self) && r@ == match old(self).current_file {
                Some(f) => seq![ViewerCommand::ShowFile(f)],
                None => Seq::empty(),
            },
            s is Open ==> *final(self) == *old(self) && r@ == seq![ViewerCommand::OpenDialog],
            s is Quit ==> final(self).session is None && final(self).current_file == old(self).current_file
                && final(self).root_dir == old(self).root_dir && final(self).last_session == old(self).last_session && r@ == match old(self).session {
                Some(id) => seq![ViewerCommand::StopWatch(id), ViewerCommand::Quit],
                None => seq![ViewerCommand::Quit],
            },
    {
        let mut r: Vec<ViewerCommand> = Vec::new();
        match s {
            Shortcut::Reload => {
                match &self.current_file {
                    Some(f) => r.push(ViewerCommand::ShowFile(f.clone())),
                    None => {},
                }
            },
            Shortcut::Open => r.push(ViewerCommand::OpenDialog),
            Shortcut::Quit => {
                match self.session {
                    Some(id) => r.push(ViewerCommand::StopWatch(id)),
                    None => {},
                }
                self.session = None;
                r.push(ViewerCommand::Quit);
            },
        }
        proof {
            if s is Quit && old(self).session is Some {
                assert(r@ =~= seq![ViewerCommand::StopWatch(old(self).session->Some_0), ViewerCommand::Quit]);
            }
        }
        r
    }

    /// A tick of the reload timer, with what polling `session`'s flag returned.
    pub fn tick(&self, session: u64, changed: bool) -> (r: Vec<ViewerCommand>)
        ensures
            r@ == tick_commands(*self, session, changed),
    {
        let mut r: Vec<ViewerCommand> = Vec::new();
        if changed {
            match (self.session, &self.current_file) {
                (Some(active), Some(f)) => {
                    if active == session {
                        r.push(ViewerCommand::ShowFile(f.clone()));
                    }
                },
                _ => {},
            }
        }
        proof {
            if tick_commands(*self, session, changed).len() == 0 {
                assert(r@ =~= Seq::<ViewerCommand>::empty());
            }
        }
        r
    }
}

/// Once a second file is opened, no notification of the first file's
/// session can make the viewer reload anything.
pub proof fn law_switch_silences_old_session(c: ViewerController, second: String, changed: bool)
    requires
        c.wf(),
        c.session is Some,
    ensures
        tick_commands(after_open(c, second), c.session->Some_0, changed) == Seq::<ViewerCommand>::empty(),
        open_commands(c, second)[0] == ViewerCommand::StopWatch(c.session->Some_0),
{
}

/// When the watched file changes, however many notifications the change
/// brings, the next tick reloads the file on display, and the flag is left
/// clear.
pub proof fn law_change_reloads_current_file(c: ViewerController, events: Seq<WatchEventKind>)
    requires
        c.session is Some,
        c.current_file is Some,
        exists|i: int| 0 <= i < events.len() && (#[trigger] events[i]).spec_triggers_reload(),
    ensures
        tick_commands(c, c.session->Some_0, polled(flag_after_all(false, events)).0)
            == seq![ViewerCommand::ShowFile(c.current_file->Some_0)],
        !polled(flag_after_all(false, events)).1,
{
    crate::watch::law_burst_reported_once(false, events);
}

} // verus!
