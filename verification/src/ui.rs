//! The interface's geometry layer: a thin, pure facade over the terminal.
//! Drawing (cursor movement, colors, boxes) is terminal output and lives
//! with the application.

use vstd::prelude::*;
use crate::terminal::Terminal;

verus! {

/// The palette the interface draws with.
#[derive(Debug, Clone, Copy, PartialEq, Eq, Structural)]
pub enum Color {
    /// Main text.
    Fg,
    /// Borders and titles.
    Accent,
    /// Success.
    Success,
    /// Hard errors.
    Error,
    /// Negative but non-fatal output.
    Warning,
    /// Information.
    Info,
    /// The selected entry.
    Selection,
    /// Disabled services.
    Yellow,
    /// Back to the terminal's default.
    Reset,
}

/// Screen state: the terminal and the dimensions derived from it.
pub struct UI {
    pub terminal: Terminal,
}

impl UI {
    pub fn new() -> (u: UI)
        ensures
            u.terminal.width == 80,
            u.terminal.height == 24,
            u.terminal.min_width == 80,
            u.terminal.min_height == 24,
            u.terminal.optimal_width == 100,
            u.terminal.optimal_height == 30,
    {
        UI { terminal: Terminal::new() }
    }

    /// Records a newly probed terminal size.
    pub fn update_terminal_size(&mut self, width: u16, height: u16)
        ensures
            final(self).terminal.width == width,
            final(self).terminal.height == height,
            final(self).terminal.min_width == old(self).terminal.min_width,
            final(self).terminal.min_height == old(self).terminal.min_height,
            final(self).terminal.optimal_width == old(self).terminal.optimal_width,
            final(self).terminal.optimal_height == old(self).terminal.optimal_height,
    {
        self.terminal.update_size(width, height);
    }

    pub fn get_box_dimensions(&self) -> (d: (u16, u16, u16, u16))
        ensures
            d.0 == 0,
            d.1 == 0,
            d.2 == (if self.terminal.width >= 1 {
                self.terminal.width
            } else {
                1
            }),
            d.3 == (if self.terminal.height >= 1 {
                self.terminal.height
            } else {
                1
            }),
    {
        self.terminal.get_box_dimensions()
    }

    pub fn get_max_visible_items(&self) -> (n: usize)
        ensures
            n == ({
                let h = if self.terminal.height >= 1 {
                    self.terminal.height as int
                } else {
                    1
                };
                let avail = if h >= 10 {
                    h - 10
                } else {
                    0
                };
                if avail >= 5 {
                    avail
                } else {
                    5
                }
            }),
    {
        self.terminal.get_max_visible_items()
    }

    pub fn is_valid_size(&self) -> (b: bool)
        ensures
            b == (self.terminal.width >= self.terminal.min_width && self.terminal.height
                >= self.terminal.min_height),
    {
        self.terminal.is_valid_size()
    }

    pub fn is_optimal_size(&self) -> (b: bool)
        ensures
            b == (self.terminal.width >= self.terminal.optimal_width && self.terminal.height
                >= self.terminal.optimal_height),
    {
        self.terminal.is_optimal_size()
    }
}

} // verus!
