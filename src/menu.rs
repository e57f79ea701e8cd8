//! The application menu's events: their names, the keybindings they stand
//! for, and which of them need an open library.
use vstd::prelude::*;
use crate::text::str_eq;

verus! {

/// An entry of the application menu.
#[derive(Debug, Clone, Copy, PartialEq, Eq, Structural)]
pub enum MenuEvent {
    NewLibrary,
    NewFile,
    NewDirectory,
    AddLocation,
    OpenOverview,
    OpenSearch,
    OpenSettings,
    ReloadExplorer,
    SetLayoutGrid,
    SetLayoutList,
    SetLayoutMedia,
    ToggleDeveloperTools,
    NewWindow,
    ReloadWebview,
    Copy,
    Cut,
    Paste,
    Duplicate,
    SelectAll,
}

/// The identifier of a menu entry: the variant's own name.
pub open spec fn name_of(e: MenuEvent) -> Seq<char> {
    match e {
        MenuEvent::NewLibrary => "NewLibrary"@,
        MenuEvent::NewFile => "NewFile"@,
        MenuEvent::NewDirectory => "NewDirectory"@,
        MenuEvent::AddLocation => "AddLocation"@,
        MenuEvent::OpenOverview => "OpenOverview"@,
        MenuEvent::OpenSearch => "OpenSearch"@,
        MenuEvent::OpenSettings => "OpenSettings"@,
        MenuEvent::ReloadExplorer => "ReloadExplorer"@,
        MenuEvent::SetLayoutGrid => "SetLayoutGrid"@,
        MenuEvent::SetLayoutList => "SetLayoutList"@,
        MenuEvent::SetLayoutMedia => "SetLayoutMedia"@,
        MenuEvent::ToggleDeveloperTools => "ToggleDeveloperTools"@,
        MenuEvent::NewWindow => "NewWindow"@,
        MenuEvent::ReloadWebview => "ReloadWebview"@,
        MenuEvent::Copy => "Copy"@,
        MenuEvent::Cut => "Cut"@,
        MenuEvent::Paste => "Paste"@,
        MenuEvent::Duplicate => "Duplicate"@,
        MenuEvent::SelectAll => "SelectAll"@,
    }
}

/// The menu entry with identifier `s`, if any.
pub open spec fn menu_event_named(s: Seq<char>) -> Option<MenuEvent> {
    if s == "NewLibrary"@ {
        Some(MenuEvent::NewLibrary)
    } else if s == "NewFile"@ {
        Some(MenuEvent::NewFile)
    } else if s == "NewDirectory"@ {
        Some(MenuEvent::NewDirectory)
    } else if s == "AddLocation"@ {
        Some(MenuEvent::AddLocation)
    } else if s == "OpenOverview"@ {
        Some(MenuEvent::OpenOverview)
    } else if s == "OpenSearch"@ {
        Some(MenuEvent::OpenSearch)
    } else if s == "OpenSettings"@ {
        Some(MenuEvent::OpenSettings)
    } else if s == "ReloadExplorer"@ {
        Some(MenuEvent::ReloadExplorer)
    } else if s == "SetLayoutGrid"@ {
        Some(MenuEvent::SetLayoutGrid)
    } else if s == "SetLayoutList"@ {
        Some(MenuEvent::SetLayoutList)
    } else if s == "SetLayoutMedia"@ {
        Some(MenuEvent::SetLayoutMedia)
    } else if s == "ToggleDeveloperTools"@ {
        Some(MenuEvent::ToggleDeveloperTools)
    } else if s == "NewWindow"@ {
        Some(MenuEvent::NewWindow)
    } else if s == "ReloadWebview"@ {
        Some(MenuEvent::ReloadWebview)
    } else if s == "Copy"@ {
        Some(MenuEvent::Copy)
    } else if s == "Cut"@ {
        Some(MenuEvent::Cut)
    } else if s == "Paste"@ {
        Some(MenuEvent::Paste)
    } else if s == "Duplicate"@ {
        Some(MenuEvent::Duplicate)
    } else if s == "SelectAll"@ {
        Some(MenuEvent::SelectAll)
    } else {
        None
    }
}

/// The keybinding that a menu entry sends to the interface, for the entries
/// that send one.
pub open spec fn keybind_of(e: MenuEvent) -> Option<Seq<char>> {
    match e {
        MenuEvent::NewLibrary => Some("new_library"@),
        MenuEvent::NewFile => Some("new_file"@),
        MenuEvent::NewDirectory => Some("new_directory"@),
        MenuEvent::AddLocation => Some("add_location"@),
        MenuEvent::OpenOverview => Some("open_overview"@),
        MenuEvent::OpenSearch => Some("open_search"@),
        MenuEvent::OpenSettings => Some("open_settings"@),
        MenuEvent::ReloadExplorer => Some("reload_explorer"@),
        MenuEvent::SetLayoutGrid => Some("set_layout_grid"@),
        MenuEvent::SetLayoutList => Some("set_layout_list"@),
        MenuEvent::SetLayoutMedia => Some("set_layout_media"@),
        MenuEvent::ToggleDeveloperTools => None,
        MenuEvent::NewWindow => None,
        MenuEvent::ReloadWebview => None,
        MenuEvent::Copy => Some("copy"@),
        MenuEvent::Cut => Some("cut"@),
        MenuEvent::Paste => Some("paste"@),
        MenuEvent::Duplicate => Some("duplicate"@),
        MenuEvent::SelectAll => Some("select_all"@),
    }
}

/// The entries that need an open library, in menu order.
pub open spec fn library_locked() -> Seq<MenuEvent> {
    seq![
        MenuEvent::NewWindow,
        MenuEvent::OpenOverview,
        MenuEvent::OpenSearch,
        MenuEvent::OpenSettings,
        MenuEvent::ReloadExplorer,
        MenuEvent::SetLayoutGrid,
        MenuEvent::SetLayoutList,
        MenuEvent::SetLayoutMedia,
        MenuEvent::NewFile,
        MenuEvent::NewDirectory,
        MenuEvent::NewLibrary,
        MenuEvent::AddLocation,
    ]
}

impl MenuEvent {
    /// The entry with identifier `s`, if any.
    pub fn from_name(s: &str) -> (r: Option<MenuEvent>)
        ensures
            r == menu_event_named(s@),
    {
        if str_eq(s, "NewLibrary") {
            Some(MenuEvent::NewLibrary)
        } else if str_eq(s, "NewFile") {
            Some(MenuEvent::NewFile)
        } else if str_eq(s, "NewDirectory") {
            Some(MenuEvent::NewDirectory)
        } else if str_eq(s, "AddLocation") {
            Some(MenuEvent::AddLocation)
        } else if str_eq(s, "OpenOverview") {
            Some(MenuEvent::OpenOverview)
        } else if str_eq(s, "OpenSearch") {
            Some(MenuEvent::OpenSearch)
        } else if str_eq(s, "OpenSettings") {
            Some(MenuEvent::OpenSettings)
        } else if str_eq(s, "ReloadExplorer") {
            Some(MenuEvent::ReloadExplorer)
        } else if str_eq(s, "SetLayoutGrid") {
            Some(MenuEvent::SetLayoutGrid)
        } else if str_eq(s, "SetLayoutList") {
            Some(MenuEvent::SetLayoutList)
        } else if str_eq(s, "SetLayoutMedia") {
            Some(MenuEvent::SetLayoutMedia)
        } else if str_eq(s, "ToggleDeveloperTools") {
            Some(MenuEvent::ToggleDeveloperTools)
        } else if str_eq(s, "NewWindow") {
            Some(MenuEvent::NewWindow)
        } else if str_eq(s, "ReloadWebview") {
            Some(MenuEvent::ReloadWebview)
        } else if str_eq(s, "Copy") {
            Some(MenuEvent::Copy)
        } else if str_eq(s, "Cut") {
            Some(MenuEvent::Cut)
        } else if str_eq(s, "Paste") {
            Some(MenuEvent::Paste)
        } else if str_eq(s, "Duplicate") {
            Some(MenuEvent::Duplicate)
        } else if str_eq(s, "SelectAll") {
            Some(MenuEvent::SelectAll)
        } else {
            None
        }
    }

    /// The identifier of the entry.
    pub fn as_str(&self) -> (r: &'static str)
        ensures
            r@ == name_of(*self),
    {
        match self {
            MenuEvent::NewLibrary => "NewLibrary",
            MenuEvent::NewFile => "NewFile",
            MenuEvent::NewDirectory => "NewDirectory",
            MenuEvent::AddLocation => "AddLocation",
            MenuEvent::OpenOverview => "OpenOverview",
            MenuEvent::OpenSearch => "OpenSearch",
            MenuEvent::OpenSettings => "OpenSettings",
            MenuEvent::ReloadExplorer => "ReloadExplorer",
            MenuEvent::SetLayoutGrid => "SetLayoutGrid",
            MenuEvent::SetLayoutList => "SetLayoutList",
            MenuEvent::SetLayoutMedia => "SetLayoutMedia",
            MenuEvent::ToggleDeveloperTools => "ToggleDeveloperTools",
            MenuEvent::NewWindow => "NewWindow",
            MenuEvent::ReloadWebview => "ReloadWebview",
            MenuEvent::Copy => "Copy",
            MenuEvent::Cut => "Cut",
            MenuEvent::Paste => "Paste",
            MenuEvent::Duplicate => "Duplicate",
            MenuEvent::SelectAll => "SelectAll",
        }
    }

    /// The keybinding that the entry sends, if it sends one.
    pub fn keybind(&self) -> (r: Option<&'static str>)
        ensures
            r matches Some(k) ==> keybind_of(*self) == Some(k@),
            r is None <==> keybind_of(*self) is None,
    {
        match self {
            MenuEvent::NewLibrary => Some("new_library"),
            MenuEvent::NewFile => Some("new_file"),
            MenuEvent::NewDirectory => Some("new_directory"),
            MenuEvent::AddLocation => Some("add_location"),
            MenuEvent::OpenOverview => Some("open_overview"),
            MenuEvent::OpenSearch => Some("open_search"),
            MenuEvent::OpenSettings => Some("open_settings"),
            MenuEvent::ReloadExplorer => Some("reload_explorer"),
            MenuEvent::SetLayoutGrid => Some("set_layout_grid"),
            MenuEvent::SetLayoutList => Some("set_layout_list"),
            MenuEvent::SetLayoutMedia => Some("set_layout_media"),
            MenuEvent::ToggleDeveloperTools => None,
            MenuEvent::NewWindow => None,
            MenuEvent::ReloadWebview => None,
            MenuEvent::Copy => Some("copy"),
            MenuEvent::Cut => Some("cut"),
            MenuEvent::Paste => Some("paste"),
            MenuEvent::Duplicate => Some("duplicate"),
            MenuEvent::SelectAll => Some("select_all"),
        }
    }

    /// Whether the entry needs an open library.
    pub fn is_library_locked(&self) -> (r: bool)
        ensures
            r == library_locked().contains(*self),
    {
        let r = match self {
            MenuEvent::NewLibrary => true,
            MenuEvent::NewFile => true,
            MenuEvent::NewDirectory => true,
            MenuEvent::AddLocation => true,
            MenuEvent::OpenOverview => true,
            MenuEvent::OpenSearch => true,
            MenuEvent::OpenSettings => true,
            MenuEvent::ReloadExplorer => true,
            MenuEvent::SetLayoutGrid => true,
            MenuEvent::SetLayoutList => true,
            MenuEvent::SetLayoutMedia => true,
            MenuEvent::ToggleDeveloperTools => false,
            MenuEvent::NewWindow => true,
            MenuEvent::ReloadWebview => false,
            MenuEvent::Copy => false,
            MenuEvent::Cut => false,
            MenuEvent::Paste => false,
            MenuEvent::Duplicate => false,
            MenuEvent::SelectAll => false,
        };
        proof {
            if r {
                assert(library_locked()[library_locked().index_of(*self)] == *self);
            } else {
                assert(!library_locked().contains(*self));
            }
        }
        r
    }
}

/// The entries that need an open library, in menu order.
pub fn library_locked_menu_ids() -> (r: Vec<MenuEvent>)
    ensures
        r@ == library_locked(),
{
    let mut r: Vec<MenuEvent> = Vec::new();
    r.push(MenuEvent::NewWindow);
    r.push(MenuEvent::OpenOverview);
    r.push(MenuEvent::OpenSearch);
    r.push(MenuEvent::OpenSettings);
    r.push(MenuEvent::ReloadExplorer);
    r.push(MenuEvent::SetLayoutGrid);
    r.push(MenuEvent::SetLayoutList);
    r.push(MenuEvent::SetLayoutMedia);
    r.push(MenuEvent::NewFile);
    r.push(MenuEvent::NewDirectory);
    r.push(MenuEvent::NewLibrary);
    r.push(MenuEvent::AddLocation);
    assert(r@ =~= library_locked());
    r
}

} // verus!
