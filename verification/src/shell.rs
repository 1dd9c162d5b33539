//! The application shell's decision core: which state the shell is in and
//! what each window or lifecycle event makes it do.
//!
//! The host event loop, the window handle, the GUI input state and the
//! renderer construction (synchronous on desktop, a pending result polled
//! per event on the web) live with the caller. The caller turns each
//! platform event into a [`ShellEvent`], performs the returned
//! [`ShellAction`], and otherwise keeps no decision of its own — so the
//! rule that only a ready shell forwards input and redraws, and how the
//! shell reaches and leaves readiness, is verified here.

use vstd::prelude::*;

verus! {

/// Where the shell stands between startup and shutdown.
#[derive(Clone, Copy, PartialEq, Eq, Structural, Debug)]
pub enum Phase {
    /// Nothing exists yet; waiting for the platform's resume signal.
    Uninitialized,
    /// The window exists and the renderer is being constructed.
    Initializing,
    /// Window, renderer and GUI state are all present; events flow.
    Ready,
    /// Shutdown was requested; the event loop is ending.
    Closing,
}

/// One event the shell decides on, as the caller reports it from the
/// platform.
#[derive(Clone, Copy, PartialEq, Eq, Structural, Debug)]
pub enum ShellEvent {
    /// The platform's resume/start signal.
    Resumed,
    /// The renderer finished constructing (immediately on desktop; when
    /// the polled channel yields on the web).
    RendererReady,
    /// An input event the GUI layer already consumed.
    GuiConsumed,
    /// The Escape key was pressed.
    EscapePressed,
    /// Any other key or input event.
    OtherInput,
    /// The window was resized to the given physical size.
    Resized(u32, u32),
    /// The window asked to close.
    CloseRequested,
    /// The platform asked for a redraw.
    RedrawRequested,
}

/// What the caller must do next.
#[derive(Clone, Copy, PartialEq, Eq, Structural, Debug)]
pub enum ShellAction {
    /// Create the window and start constructing the renderer.
    StartInit,
    /// Resize the renderer to the given physical size.
    ResizeRenderer(u32, u32),
    /// Compute the elapsed time, collect the GUI frame and render.
    RenderFrame,
    /// Exit the event loop.
    Exit,
    /// Do nothing.
    Ignore,
}

/// The shell's decision state: its phase and the last known window size in
/// physical pixels — the source of truth for GUI scaling and renderer
/// resizes.
#[derive(Clone, Copy, PartialEq, Eq, Structural, Debug)]
pub struct App {
    pub phase: Phase,
    pub last_width: u32,
    pub last_height: u32,
}

impl App {
    /// A fresh shell: nothing initialized, no size seen yet.
    pub fn new() -> (r: App)
        ensures
            r.phase == Phase::Uninitialized,
            r.last_width == 0,
            r.last_height == 0,
    {
        App { phase: Phase::Uninitialized, last_width: 0, last_height: 0 }
    }

    /// Decides on the platform's resume signal: the first resume starts
    /// initialization; a repeated resume while anything already exists
    /// changes nothing.
    pub fn on_resumed(&mut self) -> (action: ShellAction)
        ensures
            old(self).phase == Phase::Uninitialized ==> {
                &&& final(self).phase == Phase::Initializing
                &&& action == ShellAction::StartInit
            },
            old(self).phase != Phase::Uninitialized ==> {
                &&& *final(self) == *old(self)
                &&& action == ShellAction::Ignore
            },
            final(self).last_width == old(self).last_width,
            final(self).last_height == old(self).last_height,
    {
        match self.phase {
            Phase::Uninitialized => {
                self.phase = Phase::Initializing;
                ShellAction::StartInit
            },
            _ => ShellAction::Ignore,
        }
    }

    /// Decides on one window event.
    ///
    /// Until the shell is ready, the only event that does anything is the
    /// renderer's arrival, which completes initialization; every other
    /// event is dropped with no queuing. Once ready: events the GUI
    /// consumed are dropped; Escape or a close request enters `Closing`
    /// and exits; a resize adopts the new size and resizes the renderer; a
    /// redraw request renders a frame; other input is ignored.
    pub fn on_window_event(&mut self, event: ShellEvent) -> (action: ShellAction)
        ensures
            old(self).phase == Phase::Initializing && event == ShellEvent::RendererReady ==> {
                &&& final(self).phase == Phase::Ready
                &&& action == ShellAction::Ignore
            },
            old(self).phase != Phase::Ready && !(old(self).phase == Phase::Initializing
                && event == ShellEvent::RendererReady) ==> {
                &&& *final(self) == *old(self)
                &&& action == ShellAction::Ignore
            },
            old(self).phase == Phase::Ready ==> match event {
                ShellEvent::Resumed => *final(self) == *old(self) && action == ShellAction::Ignore,
                ShellEvent::RendererReady => *final(self) == *old(self) && action == ShellAction::Ignore,
                ShellEvent::GuiConsumed => *final(self) == *old(self) && action == ShellAction::Ignore,
                ShellEvent::EscapePressed => final(self).phase == Phase::Closing
                    && action == ShellAction::Exit
                    && final(self).last_width == old(self).last_width
                    && final(self).last_height == old(self).last_height,
                ShellEvent::OtherInput => *final(self) == *old(self) && action == ShellAction::Ignore,
                ShellEvent::Resized(w, h) => final(self).phase == Phase::Ready
                    && final(self).last_width == w
                    && final(self).last_height == h
                    && action == ShellAction::ResizeRenderer(w, h),
                ShellEvent::CloseRequested => final(self).phase == Phase::Closing
                    && action == ShellAction::Exit
                    && final(self).last_width == old(self).last_width
                    && final(self).last_height == old(self).last_height,
                ShellEvent::RedrawRequested => *final(self) == *old(self)
                    && action == ShellAction::RenderFrame,
            },
    {
        if matches!(self.phase, Phase::Initializing) && matches!(event, ShellEvent::RendererReady) {
            self.phase = Phase::Ready;
            return ShellAction::Ignore;
        }
        if !matches!(self.phase, Phase::Ready) {
            return ShellAction::Ignore;
        }
        match event {
            ShellEvent::EscapePressed => {
                self.phase = Phase::Closing;
                ShellAction::Exit
            },
            ShellEvent::CloseRequested => {
                self.phase = Phase::Closing;
                ShellAction::Exit
            },
            ShellEvent::Resized(w, h) => {
                self.last_width = w;
                self.last_height = h;
                ShellAction::ResizeRenderer(w, h)
            },
            ShellEvent::RedrawRequested => ShellAction::RenderFrame,
            _ => ShellAction::Ignore,
        }
    }

    /// Whether the shell forwards input and redraws: only in `Ready`.
    pub fn is_ready(&self) -> (r: bool)
        ensures
            r == (self.phase == Phase::Ready),
    {
        matches!(self.phase, Phase::Ready)
    }
}

} // verus!
