use vstd::prelude::*;

verus! {

/// A logical operation of the application, triggered by a button or a shortcut.
#[derive(Clone, Copy, Debug, PartialEq, Eq, Structural)]
pub enum Action {
    Capture,
    Copy,
    Close,
    HomePage,
    ManageTimer,
    Modify,
    NewScreenshot,
    ResetTimer,
    Save,
    SelectArea,
    SelectFullscreen,
    Settings,
    SetTimer,
    StartTimer,
    Undo,
}

/// The display name of an action.
pub open spec fn action_name(a: Action) -> Seq<char> {
    match a {
        Action::Capture => "Capture"@,
        Action::Copy => "Copy"@,
        Action::Close => "Close"@,
        Action::HomePage => "HomePage"@,
        Action::ManageTimer => "ManageTimer"@,
        Action::Modify => "Modify"@,
        Action::NewScreenshot => "NewScreenshot"@,
        Action::ResetTimer => "ResetTimer"@,
        Action::Save => "Save"@,
        Action::SelectArea => "SelectArea"@,
        Action::SelectFullscreen => "SelectFullscreen"@,
        Action::Settings => "Settings"@,
        Action::SetTimer => "SetTimer"@,
        Action::StartTimer => "StartTimer"@,
        Action::Undo => "Undo"@,
    }
}

/// The actions that a shortcut triggers whatever is on screen.
pub open spec fn is_global(a: Action) -> bool {
    a == Action::Settings || a == Action::Close
}

/// Whether an action can be triggered while a captured image is shown. A new
/// screenshot is started from the home screen, so its shortcut applies there.
pub open spec fn usable_during_image_view(a: Action) -> bool {
    match a {
        Action::Close | Action::Copy | Action::Modify | Action::Save | Action::Undo => true,
        _ => false,
    }
}

impl Action {
    /// The display name of the action.
    pub fn to_string(&self) -> (r: String)
        ensures
            r@ == action_name(*self),
    {
        let name = match self {
            Action::Capture => "Capture",
            Action::Copy => "Copy",
            Action::Close => "Close",
            Action::HomePage => "HomePage",
            Action::ManageTimer => "ManageTimer",
            Action::Modify => "Modify",
            Action::NewScreenshot => "NewScreenshot",
            Action::ResetTimer => "ResetTimer",
            Action::Save => "Save",
            Action::SelectArea => "SelectArea",
            Action::SelectFullscreen => "SelectFullscreen",
            Action::Settings => "Settings",
            Action::SetTimer => "SetTimer",
            Action::StartTimer => "StartTimer",
            Action::Undo => "Undo",
        };
        String::from_str(name)
    }

    /// Whether a shortcut for this action fires whatever is on screen.
    pub fn is_global(&self) -> (r: bool)
        ensures
            r == is_global(*self),
    {
        *self == Action::Settings || *self == Action::Close
    }

    pub fn can_be_performed_during_image_view(&self) -> (r: bool)
        ensures
            r == usable_during_image_view(*self),
    {
        match self {
            Action::Capture => false,
            Action::Close => true,
            Action::Copy => true,
            Action::HomePage => false,
            Action::ManageTimer => false,
            Action::Modify => true,
            Action::NewScreenshot => false,
            Action::ResetTimer => false,
            Action::Save => true,
            Action::SelectArea => false,
            Action::SelectFullscreen => false,
            Action::Settings => false,
            Action::SetTimer => false,
            Action::StartTimer => false,
            Action::Undo => true,
        }
    }
}

} // verus!
