//! Text windows. Each window keeps its most recent lines, newest first, up
//! to a fixed count.

use crate::rendering::renderers::Color;
use crate::util::Bound;
use vstd::prelude::*;
use vstd::string::StringExecFns;

verus! {

/// A window as plain values: where it sits, its background, and its lines,
/// newest first.
pub struct WindowView {
    pub bounds: Bound,
    pub background_color: Color,
    pub messages: Seq<Seq<char>>,
    pub max_messages: nat,
}

/// `messages` with `text` put in front, cut down to the `max` newest lines.
pub open spec fn buffered(messages: Seq<Seq<char>>, text: Seq<char>, max: nat) -> Seq<Seq<char>> {
    let all = seq![text] + messages;
    if all.len() <= max {
        all
    } else {
        all.take(max as int)
    }
}

/// `max` blank lines.
pub open spec fn blank_lines(max: nat) -> Seq<Seq<char>> {
    Seq::new(max, |i: int| Seq::<char>::empty())
}

impl WindowView {
    /// The window after `text` was put in front of its lines.
    pub open spec fn buffer_message(self, text: Seq<char>) -> WindowView {
        WindowView { messages: buffered(self.messages, text, self.max_messages), ..self }
    }

    /// The window after its lines were pushed out by blank ones.
    pub open spec fn flush_buffer(self) -> WindowView {
        WindowView { messages: blank_lines(self.max_messages), ..self }
    }
}

/// A region of the screen that shows lines of text.
pub trait WindowComponent: View<V = WindowView> {
    fn get_bounds(&self) -> (bounds: Bound)
        ensures
            bounds == self@.bounds,
    ;

    fn get_bg_color(&self) -> (color: Color)
        ensures
            color == self@.background_color,
    ;

    /// A copy of the lines, newest first.
    fn get_messages(&self) -> (messages: Vec<String>)
        ensures
            messages.deep_view() == self@.messages,
    ;

    fn get_max_messages(&self) -> (max: u32)
        ensures
            max == self@.max_messages,
    ;

    /// Puts `text` in front of the lines and drops what no longer fits.
    fn buffer_message(&mut self, text: &str)
        ensures
            final(self)@ == old(self)@.buffer_message(text@),
    ;

    /// Pushes every line out of the window, leaving blank lines only.
    fn flush_buffer(&mut self)
        ensures
            final(self)@ == old(self)@.flush_buffer(),
    ;
}

/// Where a window's own canvas goes on the screen.
#[derive(Copy, Clone, Debug, PartialEq, Eq, Structural)]
pub struct WindowLayout {
    /// Size of the window's canvas.
    pub width: i32,
    pub height: i32,
    /// Size of the part of the canvas that is copied to the screen.
    pub copied_width: i32,
    pub copied_height: i32,
    /// Where on the screen that part lands.
    pub x: i32,
    pub y: i32,
}

/// A window with its lines of text.
#[derive(Debug, PartialEq, Eq)]
pub struct TextWindow {
    background_color: Color,
    bounds: Bound,
    messages: Vec<String>,
    max_messages: u32,
}

impl View for TextWindow {
    type V = WindowView;

    closed spec fn view(&self) -> WindowView {
        WindowView {
            bounds: self.bounds,
            background_color: self.background_color,
            messages: self.messages.deep_view(),
            max_messages: self.max_messages as nat,
        }
    }
}

impl Clone for TextWindow {
    fn clone(&self) -> (copy: TextWindow)
        ensures
            copy@ == self@,
    {
        let messages = self.messages.clone();
        TextWindow {
            background_color: self.background_color,
            bounds: self.bounds,
            messages,
            max_messages: self.max_messages,
        }
    }
}

/// The canvas and screen placement of a window with these bounds, where
/// every difference and size fits in an `i32`.
pub open spec fn layout_of(bounds: Bound) -> Option<WindowLayout> {
    let across = bounds.max.x - bounds.min.x;
    let down = bounds.max.y - bounds.min.y;
    if i32::MIN <= across < i32::MAX && i32::MIN <= down < i32::MAX && bounds.max.x < i32::MAX
        && bounds.max.y < i32::MAX {
        Some(
            WindowLayout {
                width: (across + 1) as i32,
                height: (down + 1) as i32,
                copied_width: (bounds.max.x + 1) as i32,
                copied_height: (bounds.max.y + 1) as i32,
                x: bounds.min.x,
                y: bounds.min.y,
            },
        )
    } else {
        None
    }
}

impl TextWindow {
    /// An empty window over `bounds` with a black background that keeps
    /// `max_messages` lines.
    pub fn new(bounds: Bound, max_messages: u32) -> (window: TextWindow)
        ensures
            window@ == (WindowView {
                bounds,
                background_color: Color::Black,
                messages: Seq::<Seq<char>>::empty(),
                max_messages: max_messages as nat,
            }),
    {
        let window = TextWindow {
            background_color: Color::Black,
            bounds,
            messages: Vec::new(),
            max_messages,
        };
        assert(window.messages.deep_view() =~= Seq::<Seq<char>>::empty());
        window
    }

    /// The window for the character's statistics: ten lines.
    pub fn stats(bounds: Bound) -> (window: TextWindow)
        ensures
            window@ == TextWindow::empty_view(bounds, 10),
    {
        TextWindow::new(bounds, 10)
    }

    /// The window that prompts for input: two lines.
    pub fn input(bounds: Bound) -> (window: TextWindow)
        ensures
            window@ == TextWindow::empty_view(bounds, 2),
    {
        TextWindow::new(bounds, 2)
    }

    /// The window for what happened: nine lines.
    pub fn messages(bounds: Bound) -> (window: TextWindow)
        ensures
            window@ == TextWindow::empty_view(bounds, 9),
    {
        TextWindow::new(bounds, 9)
    }

    /// The window behind the map: ten lines.
    pub fn map(bounds: Bound) -> (window: TextWindow)
        ensures
            window@ == TextWindow::empty_view(bounds, 10),
    {
        TextWindow::new(bounds, 10)
    }

    /// An empty window with a black background, as plain values.
    pub open spec fn empty_view(bounds: Bound, max_messages: nat) -> WindowView {
        WindowView {
            bounds,
            background_color: Color::Black,
            messages: Seq::<Seq<char>>::empty(),
            max_messages,
        }
    }

    /// The size of the window's canvas and where it is copied to on the
    /// screen; `None` where a size does not fit in an `i32`.
    pub fn layout(&self) -> (layout: Option<WindowLayout>)
        ensures
            layout == layout_of(self@.bounds),
    {
        let bounds = self.bounds;
        let width = match bounds.max.x.checked_sub(bounds.min.x) {
            Some(w) => w.checked_add(1),
            None => None,
        };
        let height = match bounds.max.y.checked_sub(bounds.min.y) {
            Some(h) => h.checked_add(1),
            None => None,
        };
        let copied_width = bounds.max.x.checked_add(1);
        let copied_height = bounds.max.y.checked_add(1);
        match (width, height, copied_width, copied_height) {
            (Some(width), Some(height), Some(copied_width), Some(copied_height)) => Some(
                WindowLayout {
                    width,
                    height,
                    copied_width,
                    copied_height,
                    x: bounds.min.x,
                    y: bounds.min.y,
                },
            ),
            _ => None,
        }
    }
}

impl WindowComponent for TextWindow {
    fn get_bounds(&self) -> (bounds: Bound) {
        self.bounds
    }

    fn get_bg_color(&self) -> (color: Color) {
        self.background_color
    }

    fn get_messages(&self) -> (messages: Vec<String>) {
        self.messages.clone()
    }

    fn get_max_messages(&self) -> (max: u32) {
        self.max_messages
    }

    fn buffer_message(&mut self, text: &str) {
        let ghost before = self.messages.deep_view();
        let max = self.max_messages;
        let message = String::from_str(text);

        self.messages.insert(0, message);
        self.messages.truncate(max as usize);
        assert(self.messages.deep_view() =~= buffered(before, text@, max as nat));
    }

    fn flush_buffer(&mut self) {
        let ghost before = self.messages.deep_view();
        let max = self.max_messages;

        let mut count: u32 = 0;
        while count < max
            invariant
                count <= max,
                self.max_messages == max,
                self.bounds == old(self).bounds,
                self.background_color == old(self).background_color,
                self.messages.deep_view() =~= blank_lines(count as nat) + before,
            decreases max - count,
        {
            self.messages.insert(0, String::new());
            count = count + 1;
            assert(seq![Seq::<char>::empty()] + (blank_lines((count - 1) as nat) + before)
                =~= blank_lines(count as nat) + before);
        }
        let ghost padded = self.messages.deep_view();
        self.messages.truncate(max as usize);
        assert(self.messages.deep_view() =~= padded.take(max as int));
        assert(padded.take(max as int) =~= blank_lines(max as nat));
    }
}

/// The four windows of the screen.
#[derive(Debug, PartialEq, Eq)]
pub struct Windows {
    pub stats: TextWindow,
    pub input: TextWindow,
    pub messages: TextWindow,
    pub map: TextWindow,
}

/// The four windows as plain values.
pub struct WindowsView {
    pub stats: WindowView,
    pub input: WindowView,
    pub messages: WindowView,
    pub map: WindowView,
}

impl View for Windows {
    type V = WindowsView;

    open spec fn view(&self) -> WindowsView {
        WindowsView {
            stats: self.stats@,
            input: self.input@,
            messages: self.messages@,
            map: self.map@,
        }
    }
}

impl WindowsView {
    /// The windows in the order in which they are drawn.
    pub open spec fn all_windows(self) -> Seq<WindowView> {
        seq![self.stats, self.input, self.messages, self.map]
    }
}

impl Windows {
    /// The windows in the order in which they are drawn.
    pub fn all_windows(&self) -> (windows: Vec<&TextWindow>)
        ensures
            windows@ == seq![&self.stats, &self.input, &self.messages, &self.map],
    {
        let mut windows: Vec<&TextWindow> = Vec::new();
        windows.push(&self.stats);
        windows.push(&self.input);
        windows.push(&self.messages);
        windows.push(&self.map);
        windows
    }
}

} // verus!
