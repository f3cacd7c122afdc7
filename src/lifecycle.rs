//! The main window's settings and the shell's answers to window and
//! application events.
use vstd::prelude::*;
use vstd::string::*;

verus! {

/// The settings the main window is created with.
#[derive(Debug)]
pub struct MainWindowSettings {
    /// The identifier by which the window is found again.
    pub label: String,
    pub title: String,
    pub width: u32,
    pub height: u32,
    pub resizable: bool,
    /// Height reserved for the titlebar where the platform supports it.
    pub titlebar_height: u32,
}

/// The main window: `main`, titled `Pluto Duck`, 1400 by 900, resizable,
/// with a 40 pixel titlebar.
pub fn main_window_settings() -> (r: MainWindowSettings)
    ensures
        r.label@ == "main"@,
        r.title@ == "Pluto Duck"@,
        r.width == 1400,
        r.height == 900,
        r.resizable,
        r.titlebar_height == 40,
{
    MainWindowSettings {
        label: String::from_str("main"),
        title: String::from_str("Pluto Duck"),
        width: 1400,
        height: 900,
        resizable: true,
        titlebar_height: 40,
    }
}

/// An event of the application's run loop.
#[derive(PartialEq, Eq, Structural, Clone, Copy, Debug)]
pub enum ShellEvent {
    Ready,
    /// The platform asked the application to reopen.
    Reopen { has_visible_windows: bool },
    /// The operating system delivered a batch of activation URLs.
    Opened,
    /// The application is exiting.
    Exit,
    /// A user asked to close a window.
    CloseRequested,
    Other,
}

/// What the shell does about an event.
#[derive(PartialEq, Eq, Structural, Clone, Copy, Debug)]
pub enum ShellResponse {
    Nothing,
    /// Show and focus every window.
    RevealAllWindows,
    /// Hand the batch to the activation dispatcher.
    DispatchActivation,
    /// Take the sidecar out of its slot and terminate it.
    TerminateSidecar,
    /// Keep the window open underneath and hide it: the application goes on.
    PreventCloseAndHide,
}

/// The response to each event: a close request hides the window instead of
/// closing it, a reopen with no visible window reveals all windows, a batch
/// of URLs goes to the dispatcher, and exit terminates the sidecar.
pub fn respond(event: ShellEvent) -> (r: ShellResponse)
    ensures
        event is CloseRequested ==> r is PreventCloseAndHide,
        event matches ShellEvent::Reopen { has_visible_windows } ==> (if has_visible_windows {
            r is Nothing
        } else {
            r is RevealAllWindows
        }),
        event is Opened ==> r is DispatchActivation,
        event is Exit ==> r is TerminateSidecar,
        event is Ready || event is Other ==> r is Nothing,
{
    match event {
        ShellEvent::Reopen { has_visible_windows } => {
            if has_visible_windows {
                ShellResponse::Nothing
            } else {
                ShellResponse::RevealAllWindows
            }
        },
        ShellEvent::Opened => ShellResponse::DispatchActivation,
        ShellEvent::Exit => ShellResponse::TerminateSidecar,
        ShellEvent::CloseRequested => ShellResponse::PreventCloseAndHide,
        ShellEvent::Ready | ShellEvent::Other => ShellResponse::Nothing,
    }
}

} // verus!
