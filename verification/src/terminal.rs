//! Terminal geometry.  The size is probed by the application (`tput`) and
//! handed in; every derived dimension is computed and proved here.

use vstd::prelude::*;

verus! {

/// The terminal's measured size and the size bounds the interface wants.
pub struct Terminal {
    pub width: u16,
    pub height: u16,
    pub min_width: u16,
    pub min_height: u16,
    pub optimal_width: u16,
    pub optimal_height: u16,
}

impl Terminal {
    /// A terminal at the conventional default size.  The application updates the
    /// size with the probed one.
    pub fn new() -> (t: Terminal)
        ensures
            t.width == 80,
            t.height == 24,
            t.min_width == 80,
            t.min_height == 24,
            t.optimal_width == 100,
            t.optimal_height == 30,
    {
        Terminal {
            width: 80,
            height: 24,
            min_width: 80,
            min_height: 24,
            optimal_width: 100,
            optimal_height: 30,
        }
    }

    /// Records a newly probed size.
    pub fn update_size(&mut self, width: u16, height: u16)
        ensures
            final(self).width == width,
            final(self).height == height,
            final(self).min_width == old(self).min_width,
            final(self).min_height == old(self).min_height,
            final(self).optimal_width == old(self).optimal_width,
            final(self).optimal_height == old(self).optimal_height,
    {
        self.width = width;
        self.height = height;
    }

    pub fn width(&self) -> (w: u16)
        ensures
            w == self.width,
    {
        self.width
    }

    pub fn height(&self) -> (h: u16)
        ensures
            h == self.height,
    {
        self.height
    }

    /// The interface can be drawn at all.
    pub fn is_valid_size(&self) -> (b: bool)
        ensures
            b == (self.width >= self.min_width && self.height >= self.min_height),
    {
        self.width >= self.min_width && self.height >= self.min_height
    }

    /// The interface has all the room it wants.
    pub fn is_optimal_size(&self) -> (b: bool)
        ensures
            b == (self.width >= self.optimal_width && self.height
                >= self.optimal_height),
    {
        self.width >= self.optimal_width && self.height >= self.optimal_height
    }

    /// The full-screen box: the interface occupies the whole area, never
    /// reported as zero-sized.
    pub fn get_box_dimensions(&self) -> (d: (u16, u16, u16, u16))
        ensures
            d.0 == 0,
            d.1 == 0,
            d.2 == (if self.width >= 1 {
                self.width
            } else {
                1
            }),
            d.3 == (if self.height >= 1 {
                self.height
            } else {
                1
            }),
    {
        let w = if self.width >= 1 {
            self.width
        } else {
            1
        };
        let h = if self.height >= 1 {
            self.height
        } else {
            1
        };
        (0, 0, w, h)
    }

    /// How many list items fit in the box once header, status and footer
    /// margins are taken out; at least 5.
    pub fn get_max_visible_items(&self) -> (n: usize)
        ensures
            n == ({
                let h = if self.height >= 1 {
                    self.height as int
                } else {
                    1
                };
                let avail = if h >= 10 {
                    h - 10
                } else {
                    0
                };
                if avail >= 5 {
                    avail
                } else {
                    5
                }
            }),
    {
        let (_, _, _, box_height) = self.get_box_dimensions();
        let avail: u16 = if box_height >= 10 {
            box_height - 10
        } else {
            0
        };
        let m: u16 = if avail >= 5 {
            avail
        } else {
            5
        };
        m as usize
    }

    /// The terminal height a screen with this much content needs: the
    /// content plus margins and borders, never below the minimum height.
    pub fn calculate_required_height(
        &self,
        content_lines: usize,
        header_lines: usize,
        footer_lines: usize,
    ) -> (h: u16)
        requires
            content_lines + header_lines + footer_lines + 6 <= u16::MAX,
        ensures
            h == ({
                let need = content_lines + header_lines + footer_lines + 6;
                if need >= self.min_height {
                    need
                } else {
                    self.min_height as int
                }
            }),
    {
        let margins: usize = 4;
        let borders: usize = 2;
        let required = (content_lines + header_lines + footer_lines + margins + borders) as u16;
        if required >= self.min_height {
            required
        } else {
            self.min_height
        }
    }

    /// The size to request when the terminal is below the optimal size, or
    /// nothing when it already is optimal.  The escape-sequence request
    /// itself is terminal output and lives with the application.
    pub fn request_optimal_size(&self) -> (r: Option<(u16, u16)>)
        ensures
            (self.width >= self.optimal_width && self.height >= self.optimal_height) ==> r is None,
            !(self.width >= self.optimal_width && self.height >= self.optimal_height) ==> r
                == Some((self.optimal_width, self.optimal_height)),
    {
        if self.is_optimal_size() {
            None
        } else {
            Some((self.optimal_width, self.optimal_height))
        }
    }

    /// The size to request so this much content fits, or nothing when the
    /// current size already accommodates it at the optimal width.
    pub fn resize_for_content(
        &self,
        content_lines: usize,
        header_lines: usize,
        footer_lines: usize,
    ) -> (r: Option<(u16, u16)>)
        requires
            content_lines + header_lines + footer_lines + 6 <= u16::MAX,
        ensures
            ({
                let need = content_lines + header_lines + footer_lines + 6;
                let required = if need >= self.min_height {
                    need
                } else {
                    self.min_height as int
                };
                if required > self.height || self.optimal_width != self.width {
                    r == Some((self.optimal_width, required as u16))
                } else {
                    r is None
                }
            }),
    {
        let required_height = self.calculate_required_height(
            content_lines,
            header_lines,
            footer_lines,
        );
        if required_height > self.height || self.optimal_width != self.width {
            Some((self.optimal_width, required_height))
        } else {
            None
        }
    }
}

} // verus!
