//! Everything a key press can ask the application to do.
use vstd::prelude::*;

use crate::mode::InputMode;

verus! {

#[derive(Debug)]
pub enum Action {
    SendToPty(Vec<u8>),
    SetMode(InputMode),
    Paste,
    Copy,
    ScrollUp(usize),
    ScrollDown(usize),
    ScrollToTop,
    ScrollToBottom,
    SplitH,
    SplitV,
    AutoSplit,
    FocusLeft,
    FocusRight,
    FocusUp,
    FocusDown,
    FocusNext,
    ClosePane,
    ZoomPane,
    RotatePanesForward,
    RotatePanesBackward,
    ToggleFullscreen,
    CtrlWPrefix,
    OpenConfig,
    NewTab,
    NextTab,
    PrevTab,
    GoToTab(usize),
    MoveTabLeft,
    MoveTabRight,
    CloseTab,
    RenameTab,
    IncreaseFontSize,
    DecreaseFontSize,
    ResetFontSize,
    SearchOpen,
    SearchNext,
    SearchPrev,
    VisualSwapAnchor,
    VisualAnchor,
    VisualBoundaryUp(usize),
    VisualBoundaryDown(usize),
    VisualWordForward,
    VisualWordBackward,
    VisualWordEnd,
    VisualYankLine,
    ClearScrollback,
    ToggleLog,
    TogglePassthrough,
    OpenCommandPalette,
    ResizePaneRight,
    ResizePaneLeft,
    ResizePaneDown,
    ResizePaneUp,
    ScreenshotOpen,
    /// Move only the right edge (dw) or bottom edge (dh); left/top stays fixed.
    /// Positive = grow, negative = shrink.
    ScreenshotEdgeResize(i32, i32),
    /// Move the selection centre by (dx, dy) pixels.
    ScreenshotMove(i32, i32),
    ScreenshotCapture,
    Quit,
    QuitSaveSession,
    QuitNoSave,
    /// The key press does nothing.
    Nothing,
}

/// An action with the bytes it sends taken as a sequence.
pub ghost enum ActionView {
    /// Bytes written to the terminal's PTY.
    Send(Seq<u8>),
    /// Any action that writes no bytes.
    Other(Action),
}

impl View for Action {
    type V = ActionView;

    open spec fn view(&self) -> ActionView {
        match self {
            Action::SendToPty(b) => ActionView::Send(b@),
            _ => ActionView::Other(*self),
        }
    }
}

} // verus!
