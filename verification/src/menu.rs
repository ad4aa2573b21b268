use vstd::prelude::*;

verus! {

/// The platform-provided menu items the application's menu uses.
#[derive(Clone, Copy, Debug, PartialEq, Eq, Structural)]
pub enum NativeMenuItem {
    Hide,
    Quit,
    Copy,
    Cut,
    Paste,
    Separator,
    Undo,
    Redo,
    SelectAll,
}

/// A titled submenu of the menu bar.
pub struct Submenu {
    pub title: &'static str,
    pub items: Vec<NativeMenuItem>,
}

/// The items of the application submenu.
pub open spec fn app_items() -> Seq<NativeMenuItem> {
    seq![NativeMenuItem::Hide, NativeMenuItem::Quit]
}

/// The items of the edit submenu.
pub open spec fn edit_items() -> Seq<NativeMenuItem> {
    seq![
        NativeMenuItem::Copy,
        NativeMenuItem::Cut,
        NativeMenuItem::Paste,
        NativeMenuItem::Separator,
        NativeMenuItem::Undo,
        NativeMenuItem::Redo,
        NativeMenuItem::Separator,
        NativeMenuItem::SelectAll,
    ]
}

/// The application's menu bar: an "app" submenu with Hide and Quit, then an
/// "Edit" submenu with the clipboard items, a separator, Undo and Redo,
/// another separator and Select All.
pub fn build_menu() -> (menu: Vec<Submenu>)
    ensures
        menu@.len() == 2,
        menu@[0].title@ == "app"@,
        menu@[0].items@ == app_items(),
        menu@[1].title@ == "Edit"@,
        menu@[1].items@ == edit_items(),
        menu@[0].items@ == seq![NativeMenuItem::Hide, NativeMenuItem::Quit],
        menu@[1].items@ == seq![
            NativeMenuItem::Copy,
            NativeMenuItem::Cut,
            NativeMenuItem::Paste,
            NativeMenuItem::Separator,
            NativeMenuItem::Undo,
            NativeMenuItem::Redo,
            NativeMenuItem::Separator,
            NativeMenuItem::SelectAll,
        ],
{
    let mut app: Vec<NativeMenuItem> = Vec::new();
    app.push(NativeMenuItem::Hide);
    app.push(NativeMenuItem::Quit);

    let mut edit: Vec<NativeMenuItem> = Vec::new();
    edit.push(NativeMenuItem::Copy);
    edit.push(NativeMenuItem::Cut);
    edit.push(NativeMenuItem::Paste);
    edit.push(NativeMenuItem::Separator);
    edit.push(NativeMenuItem::Undo);
    edit.push(NativeMenuItem::Redo);
    edit.push(NativeMenuItem::Separator);
    edit.push(NativeMenuItem::SelectAll);

    let mut menu: Vec<Submenu> = Vec::new();
    menu.push(Submenu { title: "app", items: app });
    menu.push(Submenu { title: "Edit", items: edit });
    menu
}

} // verus!
