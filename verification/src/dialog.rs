//! Decision models of the dialogs.
//!
//! The windows themselves — rendering, buttons, event loops — live in
//! the unverified shell.  What the library holds is the decision each
//! dialog emits: the confirmation dialog's mapping from its inputs to
//! a [`Choice`], the error dialog's message, and the extension
//! selector of the configuration editor.

use vstd::prelude::*;

use crate::text::str_eq;

verus! {

/// The one-shot decision the GUI path delivers to the coordinator.
#[derive(Clone, Copy, PartialEq, Eq, Structural, Debug)]
pub enum Choice {
    /// Start the backup pass.
    Yes,
    /// Abort without a pass.
    No,
    /// The dialog closed because the gesture path decided first.
    CloseGui,
}

/// A button press inside the confirmation dialog.
#[derive(Clone, Copy, PartialEq, Eq, Structural, Debug)]
pub enum ButtonPress {
    Yes,
    No,
}

/// The choice the confirmation dialog emits in one frame: it yields
/// to an already-made decision before it looks at its own buttons.
pub open spec fn confirm_gui_decision(busy: bool, pressed: Option<ButtonPress>) -> Option<
    Choice,
> {
    if busy {
        Some(Choice::CloseGui)
    } else {
        match pressed {
            Some(ButtonPress::Yes) => Some(Choice::Yes),
            Some(ButtonPress::No) => Some(Choice::No),
            None => None,
        }
    }
}

/// The decision core of the confirmation dialog.
pub struct ConfirmGui {}

impl ConfirmGui {
    pub fn new() -> ConfirmGui {
        ConfirmGui {  }
    }

    /// One frame of the dialog: `busy` is whether the coordinator has
    /// already been claimed, `pressed` the button pressed in this
    /// frame, and the result the choice to emit, if any, after which
    /// the dialog closes.
    pub fn decide(&self, busy: bool, pressed: Option<ButtonPress>) -> (r: Option<Choice>)
        ensures
            r == confirm_gui_decision(busy, pressed),
    {
        if busy {
            Some(Choice::CloseGui)
        } else {
            match pressed {
                Some(ButtonPress::Yes) => Some(Choice::Yes),
                Some(ButtonPress::No) => Some(Choice::No),
                None => None,
            }
        }
    }
}

/// The error dialog's model: the message it shows.
#[derive(Debug, Clone, PartialEq, Eq)]
pub struct ErrorGui {
    pub message: String,
}

impl ErrorGui {
    pub fn new(message: String) -> (g: ErrorGui)
        ensures
            g.message@ == message@,
    {
        ErrorGui { message }
    }
}

/// A file extension offered by the extension selector.
#[derive(Clone, Copy, PartialEq, Eq, Structural, Debug)]
pub enum FileExtension {
    Txt,
    Pdf,
    Png,
    Jpg,
    Mp4,
    All,
}

/// The label of each selectable extension.
pub open spec fn extension_label(e: FileExtension) -> Seq<char> {
    match e {
        FileExtension::Txt => "txt"@,
        FileExtension::Pdf => "pdf"@,
        FileExtension::Png => "png"@,
        FileExtension::Jpg => "jpg"@,
        FileExtension::Mp4 => "mp4"@,
        FileExtension::All => "All"@,
    }
}

/// The extension a label denotes, tried in the selector's order.
pub open spec fn extension_from_label(s: Seq<char>) -> Option<FileExtension> {
    if s == "All"@ {
        Some(FileExtension::All)
    } else if s == "txt"@ {
        Some(FileExtension::Txt)
    } else if s == "pdf"@ {
        Some(FileExtension::Pdf)
    } else if s == "png"@ {
        Some(FileExtension::Png)
    } else if s == "jpg"@ {
        Some(FileExtension::Jpg)
    } else if s == "mp4"@ {
        Some(FileExtension::Mp4)
    } else {
        None
    }
}

impl FileExtension {
    /// Every selectable extension, with `All` first as the selector
    /// lists them.
    pub fn all() -> (r: Vec<FileExtension>)
        ensures
            r@ =~= seq![
                FileExtension::All,
                FileExtension::Txt,
                FileExtension::Pdf,
                FileExtension::Png,
                FileExtension::Jpg,
                FileExtension::Mp4,
            ],
    {
        let mut r: Vec<FileExtension> = Vec::new();
        r.push(FileExtension::All);
        r.push(FileExtension::Txt);
        r.push(FileExtension::Pdf);
        r.push(FileExtension::Png);
        r.push(FileExtension::Jpg);
        r.push(FileExtension::Mp4);
        r
    }

    /// The label shown for this extension.
    pub fn to_string(&self) -> (r: &'static str)
        ensures
            r@ == extension_label(*self),
    {
        match self {
            FileExtension::Txt => "txt",
            FileExtension::Pdf => "pdf",
            FileExtension::Png => "png",
            FileExtension::Jpg => "jpg",
            FileExtension::Mp4 => "mp4",
            FileExtension::All => "All",
        }
    }

    /// Parse a label back into an extension.
    pub fn from_str(s: &str) -> (r: Option<FileExtension>)
        ensures
            r == extension_from_label(s@),
    {
        if str_eq(s, "All") {
            Some(FileExtension::All)
        } else if str_eq(s, "txt") {
            Some(FileExtension::Txt)
        } else if str_eq(s, "pdf") {
            Some(FileExtension::Pdf)
        } else if str_eq(s, "png") {
            Some(FileExtension::Png)
        } else if str_eq(s, "jpg") {
            Some(FileExtension::Jpg)
        } else if str_eq(s, "mp4") {
            Some(FileExtension::Mp4)
        } else {
            None
        }
    }
}

} // verus!
