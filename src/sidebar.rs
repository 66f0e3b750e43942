//! Collapsing and restoring the file-tree sidebar.
use vstd::prelude::*;

verus! {

/// The sidebar's width when the viewer starts.
pub const INITIAL_SIDEBAR_WIDTH: i32 = 250;

/// The width left to a collapsed sidebar: room for its toggle button.
pub const COLLAPSED_SIDEBAR_WIDTH: i32 = 40;

/// The toggle's icon while the sidebar is open.
pub const ICON_COLLAPSE: &'static str = "pan-start-symbolic";

/// The toggle's icon while the sidebar is collapsed.
pub const ICON_EXPAND: &'static str = "pan-end-symbolic";

/// The toggle's tooltip while the sidebar is open.
pub const TOOLTIP_COLLAPSE: &'static str = "サイドバー閉じる";

/// The toggle's tooltip while the sidebar is collapsed.
pub const TOOLTIP_EXPAND: &'static str = "サイドバー展開";

/// How the window should look after a click on the toggle.
#[derive(Debug, PartialEq, Eq)]
pub struct SidebarLayout {
    pub position: i32,
    pub tree_visible: bool,
    pub icon: String,
    pub tooltip: String,
}

/// Remembers the sidebar's width while it is collapsed.
pub struct SidebarToggle {
    pub saved_width: i32,
}

impl SidebarToggle {
    /// The toggle of a sidebar open at its initial width.
    pub fn new() -> (r: SidebarToggle)
        ensures
            r.saved_width == INITIAL_SIDEBAR_WIDTH,
    {
        SidebarToggle { saved_width: INITIAL_SIDEBAR_WIDTH }
    }

    /// A click on the toggle. An open sidebar remembers its width
    /// (`current_position`) and collapses; a collapsed one comes back at the
    /// width it had.
    pub fn toggle(&mut self, tree_visible: bool, current_position: i32) -> (r: SidebarLayout)
        ensures
            tree_visible ==> {
                &&& final(self).saved_width == current_position
                &&& r.position == COLLAPSED_SIDEBAR_WIDTH
                &&& !r.tree_visible
                &&& r.icon@ == ICON_EXPAND@
                &&& r.tooltip@ == TOOLTIP_EXPAND@
            },
            !tree_visible ==> {
                &&& final(self).saved_width == old(self).saved_width
                &&& r.position == old(self).saved_width
                &&& r.tree_visible
                &&& r.icon@ == ICON_COLLAPSE@
                &&& r.tooltip@ == TOOLTIP_COLLAPSE@
            },
    {
        if tree_visible {
            self.saved_width = current_position;
            SidebarLayout {
                position: COLLAPSED_SIDEBAR_WIDTH,
                tree_visible: false,
                icon: String::from_str(ICON_EXPAND),
                tooltip: String::from_str(TOOLTIP_EXPAND),
            }
        } else {
            SidebarLayout {
                position: self.saved_width,
                tree_visible: true,
                icon: String::from_str(ICON_COLLAPSE),
                tooltip: String::from_str(TOOLTIP_COLLAPSE),
            }
        }
    }
}

} // verus!
