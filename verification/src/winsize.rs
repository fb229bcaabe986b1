use vstd::prelude::*;

verus! {

/// Terminal geometry as handed to the kernel: character rows and columns,
/// plus pixel dimensions that this driver intentionally leaves unset.
#[derive(Clone, Copy, Debug, PartialEq, Eq, Structural)]
pub struct WindowSize {
    pub rows: u16,
    pub cols: u16,
    pub xpixel: u16,
    pub ypixel: u16,
}

/// Builds the window-size record for the given geometry. Pixel dimensions
/// are fixed at zero: this driver controls rows and columns only.
pub fn make_winsize(rows: u16, cols: u16) -> (w: WindowSize)
    ensures
        w.rows == rows,
        w.cols == cols,
        w.xpixel == 0,
        w.ypixel == 0,
{
    WindowSize { rows, cols, xpixel: 0, ypixel: 0 }
}

} // verus!
