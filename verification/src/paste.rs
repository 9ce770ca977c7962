//! Handing text to the application in front: the focus target, and the
//! steps of pasting through the clipboard.

use vstd::prelude::*;
use crate::text::join2;

verus! {

/// Milliseconds to wait after the clipboard was set, before the paste keys.
pub const CLIPBOARD_READY_MS: u32 = 50;

/// Milliseconds to wait after the paste keys, before the clipboard is restored.
pub const PASTE_DONE_MS: u32 = 100;

/// The process in front, on a host without focus management: none.
pub fn get_frontmost_pid() -> (pid: i32)
    ensures
        pid == -1,
{
    -1
}

/// Whether a process identifier names a process that focus can go back to.
pub fn is_focus_target(pid: i32) -> (valid: bool)
    ensures
        valid == (pid > 0),
{
    pid > 0
}

/// Brings a process to the front, on a host without focus management:
/// nothing is done.
pub fn activate_pid(_pid: i32) {
}

/// Whether the application may send key strokes, on a host that asks no
/// permission for it: always.
pub fn ensure_accessibility_permission() -> (trusted: bool)
    ensures
        trusted,
{
    true
}

/// One step of pasting a text.
#[derive(Debug, Clone, PartialEq, Eq)]
pub enum PasteStep {
    /// Put the text on the clipboard.
    SetClipboard(String),
    /// Wait this many milliseconds.
    Wait(u32),
    /// Send the key strokes of the paste shortcut.
    SendKeys,
    /// Put the earlier text back on the clipboard; a failure is ignored.
    RestoreClipboard(String),
}

/// What a step of pasting is, for contracts.
pub enum PasteStepView {
    SetClipboard(Seq<char>),
    Wait(u32),
    SendKeys,
    RestoreClipboard(Seq<char>),
}

impl View for PasteStep {
    type V = PasteStepView;

    open spec fn view(&self) -> PasteStepView {
        match self {
            PasteStep::SetClipboard(text) => PasteStepView::SetClipboard(text@),
            PasteStep::Wait(ms) => PasteStepView::Wait(*ms),
            PasteStep::SendKeys => PasteStepView::SendKeys,
            PasteStep::RestoreClipboard(text) => PasteStepView::RestoreClipboard(text@),
        }
    }
}

/// The steps of a list, each by its view.
pub open spec fn step_views(steps: Seq<PasteStep>) -> Seq<PasteStepView> {
    steps.map_values(|step: PasteStep| step@)
}

/// The steps of pasting `text` where the clipboard held `previous` before.
pub open spec fn paste_steps_spec(text: Seq<char>, previous: Option<Seq<char>>) -> Seq<
    PasteStepView,
> {
    let head = seq![
        PasteStepView::SetClipboard(text),
        PasteStepView::Wait(CLIPBOARD_READY_MS),
        PasteStepView::SendKeys,
        PasteStepView::Wait(PASTE_DONE_MS),
    ];
    match previous {
        Some(earlier) => head.push(PasteStepView::RestoreClipboard(earlier)),
        None => head,
    }
}

/// The steps of pasting `text`: the text goes on the clipboard, the paste
/// keys are sent after a pause, and after another pause the clipboard gets
/// back the text it held before, if it held one.
pub fn paste_steps(text: &str, previous: Option<String>) -> (steps: Vec<PasteStep>)
    ensures
        step_views(steps@) == paste_steps_spec(
            text@,
            match previous {
                Some(earlier) => Some(earlier@),
                None => None,
            },
        ),
{
    let mut steps: Vec<PasteStep> = Vec::new();
    steps.push(PasteStep::SetClipboard(String::from_str(text)));
    steps.push(PasteStep::Wait(CLIPBOARD_READY_MS));
    steps.push(PasteStep::SendKeys);
    steps.push(PasteStep::Wait(PASTE_DONE_MS));
    match previous {
        Some(earlier) => {
            steps.push(PasteStep::RestoreClipboard(earlier));
            assert(step_views(steps@) =~= paste_steps_spec(text@, Some(earlier@)));
        },
        None => {
            assert(step_views(steps@) =~= paste_steps_spec(text@, None));
        },
    }
    steps
}

/// Where pasting failed.
#[derive(Debug, Clone, PartialEq, Eq)]
pub enum PasteError {
    /// The clipboard could not be opened; holds the system's words.
    ClipboardInit(String),
    /// The clipboard could not be set; holds the system's words.
    ClipboardSet(String),
    /// The key sender could not be set up; holds the system's words.
    KeysInit(String),
    /// The modifier key could not be pressed; holds the system's words.
    KeyPress(String),
    /// The letter key could not be clicked; holds the system's words.
    KeyClick(String),
    /// The modifier key could not be released; holds the system's words.
    KeyRelease(String),
}

impl PasteError {
    /// The text shown to the user for this error.
    pub open spec fn message_spec(&self) -> Seq<char> {
        match self {
            PasteError::ClipboardInit(e) => "Clipboard init error: "@ + e@,
            PasteError::ClipboardSet(e) => "Clipboard set error: "@ + e@,
            PasteError::KeysInit(e) => "Enigo init error: "@ + e@,
            PasteError::KeyPress(e) => "Key press error: "@ + e@,
            PasteError::KeyClick(e) => "Key click error: "@ + e@,
            PasteError::KeyRelease(e) => "Key release error: "@ + e@,
        }
    }

    /// The text shown to the user for this error.
    pub fn message(&self) -> (text: String)
        ensures
            text@ == self.message_spec(),
    {
        match self {
            PasteError::ClipboardInit(e) => join2("Clipboard init error: ", e.as_str()),
            PasteError::ClipboardSet(e) => join2("Clipboard set error: ", e.as_str()),
            PasteError::KeysInit(e) => join2("Enigo init error: ", e.as_str()),
            PasteError::KeyPress(e) => join2("Key press error: ", e.as_str()),
            PasteError::KeyClick(e) => join2("Key click error: ", e.as_str()),
            PasteError::KeyRelease(e) => join2("Key release error: ", e.as_str()),
        }
    }
}

} // verus!
