//! The application menu's commands and the events they send to the UI.
use vstd::prelude::*;

verus! {

/// A command of the application menu.
#[derive(Debug, Clone, Copy, PartialEq, Eq)]
pub enum MenuCommand {
    Preferences,
    Open,
    SaveAs,
    Format,
    ToggleSidebar,
    ToggleFullscreen,
    ZoomIn,
    ZoomOut,
}

/// Every menu command, in the order of the menus.
pub open spec fn all_commands() -> Seq<MenuCommand> {
    seq![
        MenuCommand::Preferences,
        MenuCommand::Open,
        MenuCommand::SaveAs,
        MenuCommand::Format,
        MenuCommand::ToggleSidebar,
        MenuCommand::ToggleFullscreen,
        MenuCommand::ZoomIn,
        MenuCommand::ZoomOut,
    ]
}

/// The command whose menu item has identifier `id`, if any.
pub open spec fn command_with_id(id: Seq<char>) -> Option<MenuCommand> {
    if id == "preferences"@ {
        Some(MenuCommand::Preferences)
    } else if id == "open"@ {
        Some(MenuCommand::Open)
    } else if id == "save_as"@ {
        Some(MenuCommand::SaveAs)
    } else if id == "format"@ {
        Some(MenuCommand::Format)
    } else if id == "toggle_sidebar"@ {
        Some(MenuCommand::ToggleSidebar)
    } else if id == "toggle_fullscreen"@ {
        Some(MenuCommand::ToggleFullscreen)
    } else if id == "zoom_in"@ {
        Some(MenuCommand::ZoomIn)
    } else if id == "zoom_out"@ {
        Some(MenuCommand::ZoomOut)
    } else {
        None
    }
}

impl MenuCommand {
    /// The identifier of the command's menu item.
    pub open spec fn id_of(self) -> Seq<char> {
        match self {
            MenuCommand::Preferences => "preferences"@,
            MenuCommand::Open => "open"@,
            MenuCommand::SaveAs => "save_as"@,
            MenuCommand::Format => "format"@,
            MenuCommand::ToggleSidebar => "toggle_sidebar"@,
            MenuCommand::ToggleFullscreen => "toggle_fullscreen"@,
            MenuCommand::ZoomIn => "zoom_in"@,
            MenuCommand::ZoomOut => "zoom_out"@,
        }
    }

    /// The event that the UI receives when the command is chosen.
    pub open spec fn event_of(self) -> Seq<char> {
        match self {
            MenuCommand::Preferences => "show-preferences"@,
            MenuCommand::Open => "menu-open"@,
            MenuCommand::SaveAs => "menu-save-as"@,
            MenuCommand::Format => "menu-format"@,
            MenuCommand::ToggleSidebar => "menu-toggle-sidebar"@,
            MenuCommand::ToggleFullscreen => "menu-toggle-fullscreen"@,
            MenuCommand::ZoomIn => "menu-zoom-in"@,
            MenuCommand::ZoomOut => "menu-zoom-out"@,
        }
    }

    /// The identifier of the command's menu item.
    pub fn id(&self) -> (r: &'static str)
        ensures
            r@ == self.id_of(),
    {
        match self {
            MenuCommand::Preferences => "preferences",
            MenuCommand::Open => "open",
            MenuCommand::SaveAs => "save_as",
            MenuCommand::Format => "format",
            MenuCommand::ToggleSidebar => "toggle_sidebar",
            MenuCommand::ToggleFullscreen => "toggle_fullscreen",
            MenuCommand::ZoomIn => "zoom_in",
            MenuCommand::ZoomOut => "zoom_out",
        }
    }

    /// The event that the UI receives when the command is chosen.
    pub fn event(&self) -> (r: &'static str)
        ensures
            r@ == self.event_of(),
    {
        match self {
            MenuCommand::Preferences => "show-preferences",
            MenuCommand::Open => "menu-open",
            MenuCommand::SaveAs => "menu-save-as",
            MenuCommand::Format => "menu-format",
            MenuCommand::ToggleSidebar => "menu-toggle-sidebar",
            MenuCommand::ToggleFullscreen => "menu-toggle-fullscreen",
            MenuCommand::ZoomIn => "menu-zoom-in",
            MenuCommand::ZoomOut => "menu-zoom-out",
        }
    }

    /// The command whose menu item has identifier `id`, if any.
    pub fn from_id(id: &str) -> (r: Option<MenuCommand>)
        ensures
            r == command_with_id(id@),
    {
        proof {
            reveal_strlit("preferences");
            reveal_strlit("open");
            reveal_strlit("save_as");
            reveal_strlit("format");
            reveal_strlit("toggle_sidebar");
            reveal_strlit("toggle_fullscreen");
            reveal_strlit("zoom_in");
            reveal_strlit("zoom_out");
        }
        let all = [
            MenuCommand::Preferences,
            MenuCommand::Open,
            MenuCommand::SaveAs,
            MenuCommand::Format,
            MenuCommand::ToggleSidebar,
            MenuCommand::ToggleFullscreen,
            MenuCommand::ZoomIn,
            MenuCommand::ZoomOut,
        ];
        let wanted = id.to_owned();
        let mut i: usize = 0;
        while i < 8
            invariant
                all@ == all_commands(),
                wanted@ == id@,
                i <= 8,
                forall|k: int| 0 <= k < i ==> (#[trigger] all_commands()[k]).id_of() != id@,
            decreases 8 - i,
        {
            let c = all[i];
            if c.id().to_owned() == wanted {
                assert(command_with_id(id@) == Some(c)) by {
                    assert(all_commands()[i as int] == c);
                }
                return Some(c);
            }
            i = i + 1;
        }
        proof {
            assert forall|c: MenuCommand| #[trigger] c.id_of() != id@ by {
                let k: int = match c {
                    MenuCommand::Preferences => 0,
                    MenuCommand::Open => 1,
                    MenuCommand::SaveAs => 2,
                    MenuCommand::Format => 3,
                    MenuCommand::ToggleSidebar => 4,
                    MenuCommand::ToggleFullscreen => 5,
                    MenuCommand::ZoomIn => 6,
                    MenuCommand::ZoomOut => 7,
                };
                assert(all_commands()[k] == c);
            }
        }
        None
    }
}

} // verus!
