//! The calls that draw a frame, and a renderer that records them.

use crate::rendering::windows::{TextWindow, WindowView};
use crate::util::Point;
use vstd::prelude::*;

verus! {

/// The colours of glyphs and backgrounds.
#[derive(Copy, Clone, Debug, PartialEq, Eq, Structural)]
pub enum Color {
    Red,
    Blue,
    Black,
    White,
}

impl Color {
    /// Red, green and blue parts of the colour.
    pub open spec fn rgb(self) -> (u8, u8, u8) {
        match self {
            Color::Red => (255u8, 0u8, 0u8),
            Color::Blue => (0u8, 0u8, 255u8),
            Color::White => (255u8, 255u8, 255u8),
            Color::Black => (0u8, 0u8, 0u8),
        }
    }
}

/// One call made on a renderer, as plain values.
pub enum DrawCallView {
    NewFrame,
    Window(WindowView),
    Object { position: Point, symbol: char, foreground: Color, background: Color },
    EndFrame,
}

/// A display that the game draws on. `calls` is everything that was asked
/// of it so far, oldest first.
pub trait RenderingComponent {
    spec fn calls(&self) -> Seq<DrawCallView>;

    /// Starts a frame on an empty screen.
    fn before_render_new_frame(&mut self)
        ensures
            final(self).calls() == old(self).calls().push(DrawCallView::NewFrame),
    ;

    /// Draws one glyph.
    fn render_object(&mut self, position: Point, symbol: char, foreground: Color, background: Color)
        ensures
            final(self).calls() == old(self).calls().push(
                DrawCallView::Object { position, symbol, foreground, background },
            ),
    ;

    /// Shows the frame.
    fn after_render_new_frame(&mut self)
        ensures
            final(self).calls() == old(self).calls().push(DrawCallView::EndFrame),
    ;

    /// Draws a window with its lines.
    fn attach_window(&mut self, window: &TextWindow)
        ensures
            final(self).calls() == old(self).calls().push(DrawCallView::Window(window@)),
    ;
}

/// The red, green and blue parts that a display mixes for `input`.
pub fn translate_color(input: Color) -> (rgb: (u8, u8, u8))
    ensures
        rgb == input.rgb(),
{
    match input {
        Color::Red => (255u8, 0u8, 0u8),
        Color::Blue => (0u8, 0u8, 255u8),
        Color::White => (255u8, 255u8, 255u8),
        Color::Black => (0u8, 0u8, 0u8),
    }
}

/// One recorded call.
#[derive(Debug, PartialEq, Eq)]
pub enum DrawCall {
    NewFrame,
    Window(TextWindow),
    Object { position: Point, symbol: char, foreground: Color, background: Color },
    EndFrame,
}

impl View for DrawCall {
    type V = DrawCallView;

    open spec fn view(&self) -> DrawCallView {
        match *self {
            DrawCall::NewFrame => DrawCallView::NewFrame,
            DrawCall::Window(window) => DrawCallView::Window(window@),
            DrawCall::Object { position, symbol, foreground, background } => DrawCallView::Object {
                position,
                symbol,
                foreground,
                background,
            },
            DrawCall::EndFrame => DrawCallView::EndFrame,
        }
    }
}

/// The recorded calls as plain values.
pub open spec fn call_views(recorded: Seq<DrawCall>) -> Seq<DrawCallView> {
    recorded.map_values(|call: DrawCall| call@)
}

/// A renderer that draws nothing and keeps every call, for a backend to
/// play back.
#[derive(Debug)]
pub struct RecordingRenderer {
    recorded: Vec<DrawCall>,
}

impl RecordingRenderer {
    /// A recorder that has recorded nothing yet.
    pub fn new() -> (renderer: RecordingRenderer)
        ensures
            renderer.calls() == Seq::<DrawCallView>::empty(),
    {
        RecordingRenderer { recorded: Vec::new() }
    }

    /// Hands out the recorded calls, oldest first, and forgets them.
    pub fn take_calls(&mut self) -> (recorded: Vec<DrawCall>)
        ensures
            call_views(recorded@) == old(self).calls(),
            final(self).calls() == Seq::<DrawCallView>::empty(),
    {
        let mut recorded: Vec<DrawCall> = Vec::new();
        std::mem::swap(&mut self.recorded, &mut recorded);
        recorded
    }

    fn record(&mut self, call: DrawCall)
        ensures
            final(self).calls() == old(self).calls().push(call@),
    {
        self.recorded.push(call);
    }
}

impl RenderingComponent for RecordingRenderer {
    closed spec fn calls(&self) -> Seq<DrawCallView> {
        call_views(self.recorded@)
    }

    fn before_render_new_frame(&mut self) {
        self.record(DrawCall::NewFrame);
    }

    fn render_object(&mut self, position: Point, symbol: char, foreground: Color, background: Color) {
        self.record(DrawCall::Object { position, symbol, foreground, background });
    }

    fn after_render_new_frame(&mut self) {
        self.record(DrawCall::EndFrame);
    }

    fn attach_window(&mut self, window: &TextWindow) {
        self.record(DrawCall::Window(window.clone()));
    }
}

} // verus!
