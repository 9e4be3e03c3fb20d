//! The terminal history of the app: what is said about links, and what is cleared with the screen.
use std::path::PathBuf;
use vstd::prelude::*;
use vstd::string::*;

use crate::desktop::{
    desktop_thread_url, launch_start, open_desktop_thread_url, DesktopLaunch, DesktopPlatform,
};

verus! {

/// A message in the chat.
#[derive(Debug, PartialEq, Eq)]
pub enum ChatMessage {
    Error(String),
    Info { message: String, hint: Option<String> },
}

/// What a [`ChatMessage`] holds.
pub enum ChatMessageView {
    Error(Seq<char>),
    Info { message: Seq<char>, hint: Option<Seq<char>> },
}

impl View for ChatMessage {
    type V = ChatMessageView;

    open spec fn view(&self) -> ChatMessageView {
        match self {
            ChatMessage::Error(message) => ChatMessageView::Error(message@),
            ChatMessage::Info { message, hint } => ChatMessageView::Info {
                message: message@,
                hint: hint.deep_view(),
            },
        }
    }
}

/// What is said once the browser was asked to open `url`; an error comes as its message.
pub fn open_url_in_browser(url: &str, opened: Result<(), String>) -> (message: ChatMessage)
    ensures
        message@ == match opened {
            Err(err) => ChatMessageView::Error(
                "Failed to open browser for "@ + url@ + ": "@ + err@,
            ),
            Ok(_) => ChatMessageView::Info {
                message: "Opened "@ + url@ + " in your browser."@,
                hint: None,
            },
        },
{
    match opened {
        Err(err) => ChatMessage::Error(
            "Failed to open browser for ".to_owned().concat(url).concat(": ").concat(err.as_str()),
        ),
        Ok(_) => ChatMessage::Info {
            message: "Opened ".to_owned().concat(url).concat(" in your browser."),
            hint: None,
        },
    }
}

/// Begins to hand a thread over to the desktop app.
pub fn open_desktop_thread(platform: DesktopPlatform, thread_id: &str) -> (launch: DesktopLaunch)
    ensures
        launch@ == launch_start(platform, "codex://threads/"@ + thread_id@),
{
    let url = desktop_thread_url(thread_id);
    open_desktop_thread_url(platform, url.as_str())
}

/// What is said once a thread was handed over to the desktop app, or could not be.
pub fn desktop_thread_message(outcome: Result<(), String>) -> (message: ChatMessage)
    ensures
        message@ == match outcome {
            Err(err) => ChatMessageView::Error(
                "Failed to open this session in Codex Desktop: "@ + err@
                    + ". Install or launch Codex Desktop with `codex app` and try again."@,
            ),
            Ok(_) => ChatMessageView::Info {
                message: "Opened this session in Codex Desktop."@,
                hint: None,
            },
        },
{
    match outcome {
        Err(err) => ChatMessage::Error(
            "Failed to open this session in Codex Desktop: ".to_owned().concat(
                err.as_str(),
            ).concat(". Install or launch Codex Desktop with `codex app` and try again."),
        ),
        Ok(_) => ChatMessage::Info {
            message: "Opened this session in Codex Desktop.".to_owned(),
            hint: None,
        },
    }
}

/// What the chat shows of the session.
pub struct ChatStatus<E> {
    pub current_model: String,
    pub current_reasoning_effort: Option<E>,
    /// Whether the model is shown as fast on the current service tier.
    pub shows_fast_status: bool,
}

/// What the header tells of the configuration.
pub struct SessionConfig {
    pub cwd: PathBuf,
    pub is_yolo_mode: bool,
}

/// The header of a session, to be rendered at a width.
pub struct SessionHeader<E> {
    pub model: String,
    pub reasoning_effort: Option<E>,
    pub shows_fast_status: bool,
    pub directory: PathBuf,
    pub version: &'static str,
    pub is_yolo_mode: bool,
    pub width: u16,
}

/// The part of the terminal that the app draws in.
#[derive(Clone, Copy, Debug, PartialEq, Eq, Structural)]
pub struct ViewportArea {
    pub x: u16,
    pub y: u16,
    pub width: u16,
    pub height: u16,
}

/// A command to the terminal.
#[derive(Clone, Copy, Debug, PartialEq, Eq, Structural)]
pub enum TerminalCommand {
    /// Drop the history lines that wait to be inserted.
    ClearPendingHistoryLines,
    ClearVisibleScreen,
    /// Clear the scrollback and the visible screen with one control sequence.
    ClearScrollbackAndVisibleScreenAnsi,
}

/// What remains to be done once the screen is clear.
#[derive(Clone, Copy, Debug, PartialEq, Eq, Structural)]
pub struct AfterClear {
    /// Where the viewport is to be moved, unless it may stay.
    pub viewport: Option<ViewportArea>,
    /// Whether a fresh header is to be queued.
    pub queue_header: bool,
}

/// A step that remains once the screen is clear.
#[derive(Clone, Copy, Debug, PartialEq, Eq, Structural)]
pub enum AfterClearStep {
    /// Move the viewport.
    SetViewportArea(ViewportArea),
    /// Render the header and queue it (see [`App::queue_clear_ui_header`]).
    QueueHeader,
}

/// What remains once the screen is clear: the viewport moves to the top, and the header is queued
/// where it is to be redrawn.
pub open spec fn after_clear(viewport: ViewportArea, redraw_header: bool) -> AfterClear {
    AfterClear {
        viewport: if viewport.y > 0 {
            Some(ViewportArea { y: 0, ..viewport })
        } else {
            None
        },
        queue_header: redraw_header,
    }
}

impl AfterClear {
    /// The remaining steps in their order.
    pub open spec fn in_order(self) -> Seq<AfterClearStep> {
        let moves = match self.viewport {
            Some(area) => seq![AfterClearStep::SetViewportArea(area)],
            None => seq![],
        };
        if self.queue_header {
            moves.push(AfterClearStep::QueueHeader)
        } else {
            moves
        }
    }

    /// The remaining steps in their order. The viewport is moved before the header is queued: the
    /// lines of the header shift it down again by their height.
    pub fn steps(&self) -> (steps: Vec<AfterClearStep>)
        ensures
            steps@ == self.in_order(),
    {
        let mut steps: Vec<AfterClearStep> = Vec::new();
        if let Some(area) = self.viewport {
            steps.push(AfterClearStep::SetViewportArea(area));
        }
        if self.queue_header {
            steps.push(AfterClearStep::QueueHeader);
        }
        steps
    }
}

/// The state of the app that belongs to its history: overlays `O`, transcript cells `C`, rendered
/// lines `L`, the state `R` of reflowing the transcript, the buffer `H` from which the initial
/// history is replayed, the state `B` of going back in it, and reasoning efforts `E`.
pub struct App<O, C, L, R, H, B, E> {
    pub chat_widget: ChatStatus<E>,
    pub config: SessionConfig,
    pub overlay: Option<O>,
    pub transcript_cells: Vec<C>,
    pub deferred_history_lines: Vec<L>,
    pub has_emitted_history_lines: bool,
    pub transcript_reflow: R,
    pub initial_history_replay_buffer: Option<H>,
    pub backtrack: B,
    pub backtrack_render_pending: bool,
}

/// The commands that clear the screen, in their order. Lines that wait are dropped first, so that
/// none of them comes after the clearing; the scrollback stays where the alternate screen is shown.
pub fn clear_terminal_ui(is_alt_screen_active: bool) -> (commands: Vec<TerminalCommand>)
    ensures
        commands@ == seq![
            TerminalCommand::ClearPendingHistoryLines,
            if is_alt_screen_active {
                TerminalCommand::ClearVisibleScreen
            } else {
                TerminalCommand::ClearScrollbackAndVisibleScreenAnsi
            },
        ],
{
    let mut commands: Vec<TerminalCommand> = Vec::new();
    commands.push(TerminalCommand::ClearPendingHistoryLines);
    if is_alt_screen_active {
        commands.push(TerminalCommand::ClearVisibleScreen);
    } else {
        commands.push(TerminalCommand::ClearScrollbackAndVisibleScreenAnsi);
    }
    commands
}

impl<O, C, L, R, H, B, E> App<O, C, L, R, H, B, E> {
    /// The app with the mark set that history lines are on the screen, or not.
    pub open spec fn with_emitted(self, has_emitted_history_lines: bool) -> Self {
        App { has_emitted_history_lines, ..self }
    }

    /// The app once a header of these lines was queued.
    pub open spec fn with_header(self, header_lines: Seq<L>) -> Self {
        if header_lines.len() > 0 {
            self.with_emitted(true)
        } else {
            self
        }
    }

    /// The header that is shown on a clear screen.
    pub fn clear_ui_header_lines_with_version(&self, width: u16, version: &'static str) -> (header:
        SessionHeader<E>) where E: Copy
        ensures
            header.model@ == self.chat_widget.current_model@,
            header.reasoning_effort == self.chat_widget.current_reasoning_effort,
            header.shows_fast_status == self.chat_widget.shows_fast_status,
            header.directory == self.config.cwd,
            header.version@ == version@,
            header.is_yolo_mode == self.config.is_yolo_mode,
            header.width == width,
    {
        SessionHeader {
            model: self.chat_widget.current_model.clone(),
            reasoning_effort: self.chat_widget.current_reasoning_effort,
            shows_fast_status: self.chat_widget.shows_fast_status,
            directory: self.config.cwd.clone(),
            version,
            is_yolo_mode: self.config.is_yolo_mode,
            width,
        }
    }

    /// Queues the rendered header: its lines are given back to be inserted, unless there are none.
    pub fn queue_clear_ui_header(&mut self, header_lines: Vec<L>) -> (lines: Option<Vec<L>>)
        ensures
            lines == if header_lines@.len() > 0 {
                Some(header_lines)
            } else {
                None
            },
            *final(self) == old(self).with_header(header_lines@),
    {
        if header_lines.is_empty() {
            None
        } else {
            self.has_emitted_history_lines = true;
            Some(header_lines)
        }
    }

    /// Goes on once the commands of [`clear_terminal_ui`] were carried out, or one of them failed.
    /// The viewport moves to the top of the screen, and no history lines are left on it.
    pub fn terminal_cleared<F>(
        &mut self,
        cleared: Result<(), F>,
        viewport: ViewportArea,
        redraw_header: bool,
    ) -> (after: Result<AfterClear, F>)
        ensures
            match cleared {
                Err(err) => after == Err::<AfterClear, F>(err) && *final(self) == *old(self),
                Ok(_) => {
                    &&& after == Ok::<AfterClear, F>(after_clear(viewport, redraw_header))
                    &&& *final(self) == old(self).with_emitted(false)
                },
            },
    {
        match cleared {
            Err(err) => Err(err),
            Ok(_) => {
                self.has_emitted_history_lines = false;
                let moved = if viewport.y > 0 {
                    Some(
                        ViewportArea {
                            x: viewport.x,
                            y: 0,
                            width: viewport.width,
                            height: viewport.height,
                        },
                    )
                } else {
                    None
                };
                Ok(AfterClear { viewport: moved, queue_header: redraw_header })
            },
        }
    }

    /// Nothing of the transcript is left: the reflow state and the state of going back are the
    /// given ones, all else is empty.
    pub open spec fn is_reset(self, transcript_reflow: R, backtrack: B) -> bool {
        &&& self.overlay is None
        &&& self.transcript_cells@.len() == 0
        &&& self.deferred_history_lines@.len() == 0
        &&& !self.has_emitted_history_lines
        &&& self.transcript_reflow == transcript_reflow
        &&& self.initial_history_replay_buffer is None
        &&& self.backtrack == backtrack
        &&& !self.backtrack_render_pending
    }

    /// Resets the app once its screen was cleared; see
    /// [`reset_transcript_state_after_clear`](App::reset_transcript_state_after_clear).
    pub fn reset_app_ui_state_after_clear(&mut self, cleared_reflow: R, default_backtrack: B)
        ensures
            final(self).is_reset(cleared_reflow, default_backtrack),
            final(self).chat_widget == old(self).chat_widget,
            final(self).config == old(self).config,
    {
        self.reset_transcript_state_after_clear(cleared_reflow, default_backtrack);
    }

    /// Resets the transcript. `cleared_reflow` is the cleared reflow state and `default_backtrack`
    /// the initial state of going back.
    pub fn reset_transcript_state_after_clear(&mut self, cleared_reflow: R, default_backtrack: B)
        ensures
            final(self).is_reset(cleared_reflow, default_backtrack),
            final(self).chat_widget == old(self).chat_widget,
            final(self).config == old(self).config,
    {
        self.overlay = None;
        self.transcript_cells.clear();
        self.deferred_history_lines.clear();
        self.has_emitted_history_lines = false;
        self.transcript_reflow = cleared_reflow;
        self.initial_history_replay_buffer = None;
        self.backtrack = default_backtrack;
        self.backtrack_render_pending = false;
    }
}

/// After the screen was cleared, history lines are on it exactly where a header was queued.
pub proof fn law_a_clear_screen_shows_only_the_header<O, C, L, R, H, B, E>(
    app: App<O, C, L, R, H, B, E>,
    header_lines: Seq<L>,
)
    ensures
        app.with_emitted(false).with_header(header_lines).has_emitted_history_lines <==> (
        header_lines.len() > 0),
{
}

/// After the screen was cleared, the header is queued exactly where it is to be redrawn: once, as
/// the last step, and with the viewport at the top.
pub proof fn law_the_header_comes_last(viewport: ViewportArea, redraw_header: bool)
    ensures
        ({
            let steps = after_clear(viewport, redraw_header).in_order();
            &&& redraw_header <==> steps.contains(AfterClearStep::QueueHeader)
            &&& forall|i: int|
                0 <= i < steps.len() && steps[i] is QueueHeader ==> i == steps.len() - 1
            &&& viewport.y > 0 ==> steps.len() > 0 && steps.first()
                == AfterClearStep::SetViewportArea(ViewportArea { y: 0, ..viewport })
        }),
{
    let steps = after_clear(viewport, redraw_header).in_order();
    if redraw_header {
        assert(steps.last() is QueueHeader);
    }
}

/// Clearing the screen and queueing the header leave the rest of the app alone.
pub proof fn law_clearing_only_marks<O, C, L, R, H, B, E>(
    app: App<O, C, L, R, H, B, E>,
    header_lines: Seq<L>,
)
    ensures
        app.with_emitted(false).with_header(header_lines).with_emitted(
            app.has_emitted_history_lines,
        ) == app,
{
}

/// Setting the mark sets it to what was asked and nothing else. A header marks that lines are on the
/// screen exactly where it has lines; without lines the app stays as it is.
pub proof fn law_a_header_marks_where_it_has_lines<O, C, L, R, H, B, E>(
    app: App<O, C, L, R, H, B, E>,
    header_lines: Seq<L>,
    mark: bool,
)
    ensures
        app.with_emitted(mark) == (App { has_emitted_history_lines: mark, ..app }),
        header_lines.len() == 0 ==> app.with_header(header_lines) == app,
        header_lines.len() > 0 ==> app.with_header(header_lines) == (App {
            has_emitted_history_lines: true,
            ..app
        }),
{
}

/// After the screen was cleared the viewport lies at the top, in its old column and size: it is moved
/// there where it was not there yet, and else left alone. There are no other steps than this and the
/// header.
pub proof fn law_the_viewport_moves_only_where_it_has_to(viewport: ViewportArea, redraw_header: bool)
    ensures
        ({
            let steps = after_clear(viewport, redraw_header).in_order();
            let top = ViewportArea {
                x: viewport.x,
                y: 0,
                width: viewport.width,
                height: viewport.height,
            };
            &&& viewport.y > 0 && redraw_header ==> steps == seq![
                AfterClearStep::SetViewportArea(top),
                AfterClearStep::QueueHeader,
            ]
            &&& viewport.y > 0 && !redraw_header ==> steps == seq![
                AfterClearStep::SetViewportArea(top),
            ]
            &&& viewport.y == 0 && redraw_header ==> steps == seq![AfterClearStep::QueueHeader]
            &&& viewport.y == 0 && !redraw_header ==> steps.len() == 0
        }),
{
}

/// A reset app holds no overlay, no cell, no deferred line and no replay buffer, has nothing on the
/// screen and nothing pending, and has the given reflow state and the given state of going back.
pub proof fn law_a_reset_app_holds_nothing<O, C, L, R, H, B, E>(
    app: App<O, C, L, R, H, B, E>,
    transcript_reflow: R,
    backtrack: B,
)
    requires
        app.is_reset(transcript_reflow, backtrack),
    ensures
        app.overlay is None,
        app.transcript_cells@ == Seq::<C>::empty(),
        app.deferred_history_lines@ == Seq::<L>::empty(),
        app.initial_history_replay_buffer is None,
        !app.has_emitted_history_lines,
        !app.backtrack_render_pending,
        app.transcript_reflow == transcript_reflow,
        app.backtrack == backtrack,
{
}

/// The deep link is handed over whole: two threads are handed over alike only where they are the
/// same, and what is handed over does not depend on anything but the link.
pub proof fn law_threads_are_told_apart(
    platform: DesktopPlatform,
    thread_id: Seq<char>,
    other: Seq<char>,
)
    requires
        !(platform is Other),
    ensures
        launch_start(platform, "codex://threads/"@ + thread_id) == launch_start(
            platform,
            "codex://threads/"@ + other,
        ) <==> thread_id == other,
{
    let head = "codex://threads/"@;
    assert((head + thread_id).skip(head.len() as int) =~= thread_id);
    assert((head + other).skip(head.len() as int) =~= other);
}

} // verus!
