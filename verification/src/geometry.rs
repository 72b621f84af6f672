//! Screen, client geometry and the three layouts.

use vstd::prelude::*;

verus! {

/// Size of the screen that the clients are laid out on.
#[derive(PartialEq, Eq, Structural, Debug, Copy, Clone)]
pub struct ScreenSize {
    pub width: u16,
    pub height: u16,
}

/// Position and size of a window, as the X server reports it.
#[derive(PartialEq, Eq, Structural, Debug, Copy, Clone)]
pub struct Geometry {
    pub x: i16,
    pub y: i16,
    pub width: u16,
    pub height: u16,
}

/// A managed window together with the frame that holds it.
#[derive(PartialEq, Eq, Structural, Debug, Copy, Clone)]
pub struct Client {
    pub frame_window: u32,
    pub window: u32,
    pub x: i16,
    pub y: i16,
    pub width: u16,
    pub height: u16,
}

impl Client {
    /// Whether `id` names this client, either its own window or its frame.
    pub open spec fn owns(self, id: u32) -> bool {
        self.window == id || self.frame_window == id
    }

    /// A client for `window` framed by `frame_window`, at the geometry that
    /// the window had when it was taken over.
    pub fn new(window: u32, frame_window: u32, geom: &Geometry) -> (c: Self)
        ensures
            c.window == window,
            c.frame_window == frame_window,
            c.x == geom.x,
            c.y == geom.y,
            c.width == geom.width,
            c.height == geom.height,
    {
        Client { frame_window, window, x: geom.x, y: geom.y, width: geom.width, height: geom.height }
    }
}

/// How the clients share the screen.
#[derive(PartialEq, Eq, Structural, Debug, Copy, Clone)]
pub enum Layout {
    /// Side by side, in columns of equal width.
    Split,
    /// The first client on the left half, the others stacked on the right half.
    MasterStack,
    /// Every client covers the whole screen.
    Monocle,
}

impl Layout {
    /// The inputs on which placing a client neither divides by zero nor
    /// overflows.
    pub open spec fn placement_defined(self, screen: ScreenSize, len: u16, index: usize) -> bool {
        match self {
            Layout::Split => len > 0 && (screen.width / len) * (index as u16) <= u16::MAX,
            Layout::Monocle => true,
            Layout::MasterStack => len == 1 || index == 0 || (len >= 2 && (screen.height / ((len
                - 1) as u16)) * ((index - 1) as u16) <= u16::MAX),
        }
    }

    /// Whether placing the client at `index` of `len` clients is defined.
    pub fn placement_ok(&self, screen: &ScreenSize, len: u16, index: usize) -> (ok: bool)
        ensures
            ok == self.placement_defined(*screen, len, index),
    {
        match self {
            Layout::Split => len > 0 && (screen.width / len).checked_mul(index as u16).is_some(),
            Layout::Monocle => true,
            Layout::MasterStack => len == 1 || index == 0 || (len >= 2 && (screen.height / (len
                - 1)).checked_mul((index - 1) as u16).is_some()),
        }
    }

    /// Where the client at `index` of `len` clients goes; its two window
    /// ids are kept.
    pub open spec fn placed(self, client: Client, screen: ScreenSize, len: u16, index: usize) -> Client {
        match self {
            Layout::Split => {
                let w = screen.width / len;
                Client {
                    width: w,
                    height: screen.height,
                    x: (w * (index as u16)) as i16,
                    y: 0,
                    ..client
                }
            },
            Layout::Monocle => Client { width: screen.width, height: screen.height, x: 0, y: 0, ..client },
            Layout::MasterStack => {
                if len == 1 {
                    Client { width: screen.width, height: screen.height, x: 0, y: 0, ..client }
                } else {
                    let half = screen.width / 2;
                    if index == 0 {
                        Client { width: half, height: screen.height, x: 0, y: 0, ..client }
                    } else {
                        let h = screen.height / ((len - 1) as u16);
                        Client {
                            width: half,
                            height: h,
                            x: half as i16,
                            y: (h * ((index - 1) as u16)) as i16,
                            ..client
                        }
                    }
                }
            },
        }
    }

    /// Moves and resizes `client`, the one at `index` of `len` clients, to
    /// its place on `screen` under this layout.
    pub fn apply(&self, client: &mut Client, screen: &ScreenSize, len: u16, index: usize)
        requires
            self.placement_defined(*screen, len, index),
        ensures
            *final(client) == self.placed(*old(client), *screen, len, index),
    {
        let screen_w = screen.width;
        let screen_h = screen.height;

        match self {
            Layout::Split => {
                let new_width = screen_w / len;
                client.width = new_width;
                client.height = screen_h;
                client.x = (new_width * index as u16) as i16;
                client.y = 0;
            },
            Layout::Monocle => {
                client.width = screen_w;
                client.height = screen_h;
                client.x = 0;
                client.y = 0;
            },
            Layout::MasterStack => {
                if len == 1 {
                    client.width = screen_w;
                    client.height = screen_h;
                    client.x = 0;
                    client.y = 0;
                } else {
                    let half_width = screen_w / 2;
                    client.width = half_width;

                    if index == 0 {
                        client.height = screen_h;
                        client.x = 0;
                        client.y = 0;
                    } else {
                        let stack_count = len - 1;
                        let new_height = screen_h / stack_count;
                        client.height = new_height;
                        client.x = half_width as i16;
                        client.y = (new_height * (index - 1) as u16) as i16;
                    }
                }
            },
        }
    }
}

/// Every slot that a relayout asks for is defined: with `index` below
/// `len`, no layout divides by zero or overflows.
pub proof fn lemma_placement_defined_in_range(layout: Layout, screen: ScreenSize, len: u16, index: usize)
    requires
        index < len,
    ensures
        layout.placement_defined(screen, len, index),
{
    match layout {
        Layout::Split => {
            let w = screen.width / len;
            let i = index as u16;
            assert(i == index);
            assert(w * len <= screen.width) by (nonlinear_arith)
                requires
                    w == screen.width / len,
                    len > 0,
            ;
            assert(w * i <= w * len) by (nonlinear_arith)
                requires
                    i < len,
                    w >= 0,
            ;
        },
        Layout::Monocle => {},
        Layout::MasterStack => {
            if len != 1 && index != 0 {
                let n = (len - 1) as u16;
                let h = screen.height / n;
                let i = (index - 1) as u16;
                assert(i == index - 1);
                assert(h * n <= screen.height) by (nonlinear_arith)
                    requires
                        h == screen.height / n,
                        n > 0,
                ;
                assert(h * i <= h * n) by (nonlinear_arith)
                    requires
                        i < n,
                        h >= 0,
                ;
            }
        },
    }
}

/// Under the split layout the columns run from left to right: the column
/// of an earlier client ends where a later one may begin, and every column
/// stays on the screen (for screens narrower than 2^15 pixels, so that
/// positions fit a signed 16-bit coordinate).
pub proof fn lemma_split_columns_tile(
    first: Client,
    second: Client,
    screen: ScreenSize,
    len: u16,
    i: usize,
    j: usize,
)
    requires
        i < j < len,
        screen.width <= 0x7fff,
    ensures
        ({
            let a = Layout::Split.placed(first, screen, len, i);
            let b = Layout::Split.placed(second, screen, len, j);
            &&& 0 <= a.x
            &&& a.x + a.width <= b.x
            &&& b.x + b.width <= screen.width
            &&& a.y == 0 && b.y == 0
            &&& a.height == screen.height && b.height == screen.height
        }),
{
    let w = screen.width / len;
    let iu = i as u16;
    let ju = j as u16;
    assert(iu == i && ju == j);
    assert(w * len <= screen.width) by (nonlinear_arith)
        requires
            w == screen.width / len,
            len > 0,
    ;
    assert(w * iu + w <= w * ju) by (nonlinear_arith)
        requires
            iu < ju,
            w >= 0,
    ;
    assert(w * ju + w <= w * len) by (nonlinear_arith)
        requires
            ju < len,
            w >= 0,
    ;
    assert(0 <= w * iu) by (nonlinear_arith)
        requires
            w >= 0,
            iu >= 0,
    ;
}

/// Under the master-stack layout with two or more clients (two included),
/// the master takes the left half at full height, and every stacked client
/// lies on the right half, beside the master, with its tile on the screen
/// (for screens lower than 2^15 pixels, so that positions fit a signed
/// 16-bit coordinate).
pub proof fn lemma_master_beside_stack(master: Client, other: Client, screen: ScreenSize, len: u16, i: usize)
    requires
        2 <= len,
        1 <= i < len,
        screen.height <= 0x7fff,
    ensures
        ({
            let m = Layout::MasterStack.placed(master, screen, len, 0);
            let a = Layout::MasterStack.placed(other, screen, len, i);
            &&& m.x == 0 && m.y == 0 && m.height == screen.height
            &&& m.x + m.width <= a.x
            &&& a.x + a.width <= screen.width
            &&& 0 <= a.y
            &&& a.y + a.height <= screen.height
        }),
{
    let n = (len - 1) as u16;
    let h = screen.height / n;
    let iu = (i - 1) as u16;
    assert(iu == i - 1);
    assert(h * n <= screen.height) by (nonlinear_arith)
        requires
            h == screen.height / n,
            n > 0,
    ;
    assert(h * iu + h <= h * n) by (nonlinear_arith)
        requires
            iu < n,
            h >= 0,
    ;
    assert(0 <= h * iu) by (nonlinear_arith)
        requires
            h >= 0,
            iu >= 0,
    ;
}

/// Under the master-stack layout, the stacked clients lie on the right
/// half one below the other: an earlier one ends where a later one may
/// begin, and both lie beside the master and on the screen (for screens
/// lower than 2^15 pixels, so that positions fit a signed 16-bit
/// coordinate).
pub proof fn lemma_master_stack_tiles(
    master: Client,
    first: Client,
    second: Client,
    screen: ScreenSize,
    len: u16,
    i: usize,
    j: usize,
)
    requires
        2 <= len,
        1 <= i < j < len,
        screen.height <= 0x7fff,
    ensures
        ({
            let m = Layout::MasterStack.placed(master, screen, len, 0);
            let a = Layout::MasterStack.placed(first, screen, len, i);
            let b = Layout::MasterStack.placed(second, screen, len, j);
            &&& m.x == 0 && m.y == 0 && m.height == screen.height
            &&& m.x + m.width <= a.x
            &&& a.x == b.x && a.width == b.width
            &&& a.x + a.width <= screen.width
            &&& 0 <= a.y
            &&& a.y + a.height <= b.y
            &&& b.y + b.height <= screen.height
        }),
{
    lemma_master_beside_stack(master, first, screen, len, i);
    lemma_master_beside_stack(master, second, screen, len, j);
    let n = (len - 1) as u16;
    let h = screen.height / n;
    let iu = (i - 1) as u16;
    let ju = (j - 1) as u16;
    assert(iu == i - 1 && ju == j - 1);
    assert(h * n <= screen.height) by (nonlinear_arith)
        requires
            h == screen.height / n,
            n > 0,
    ;
    assert(h * iu + h <= h * ju) by (nonlinear_arith)
        requires
            iu < ju,
            h >= 0,
    ;
    assert(h * ju + h <= h * n) by (nonlinear_arith)
        requires
            ju < n,
            h >= 0,
    ;
    assert(0 <= h * iu) by (nonlinear_arith)
        requires
            h >= 0,
            iu >= 0,
    ;
}

/// Every layout only moves and resizes a client: its window and its frame
/// stay the same.
pub proof fn lemma_placement_keeps_windows(layout: Layout, c: Client, screen: ScreenSize, len: u16, i: usize)
    ensures
        layout.placed(c, screen, len, i).window == c.window,
        layout.placed(c, screen, len, i).frame_window == c.frame_window,
{
}

/// Under the monocle layout every client, whatever its index and however
/// many there are, covers the whole screen from its top left corner.
pub proof fn lemma_monocle_covers_screen(c: Client, screen: ScreenSize, len: u16, i: usize)
    ensures
        Layout::Monocle.placed(c, screen, len, i).x == 0,
        Layout::Monocle.placed(c, screen, len, i).y == 0,
        Layout::Monocle.placed(c, screen, len, i).width == screen.width,
        Layout::Monocle.placed(c, screen, len, i).height == screen.height,
{
}

/// Under the split layout the first column starts at the left edge, every
/// column is a full-height strip of one common width, each column begins
/// exactly where the one before it ends, and the `len` columns together
/// fill the screen's width but for less than one pixel per column (for
/// screens narrower than 2^15 pixels).
pub proof fn lemma_split_columns_adjacent(first: Client, second: Client, screen: ScreenSize, len: u16, i: usize)
    requires
        i + 1 < len,
        screen.width <= 0x7fff,
    ensures
        ({
            let a = Layout::Split.placed(first, screen, len, i);
            let b = Layout::Split.placed(second, screen, len, (i + 1) as usize);
            let z = Layout::Split.placed(first, screen, len, 0);
            &&& z.x == 0
            &&& a.y == 0 && b.y == 0
            &&& a.height == screen.height && b.height == screen.height
            &&& a.width == b.width
            &&& a.x + a.width == b.x
            &&& a.width * len <= screen.width < (a.width + 1) * len
        }),
{
    let w = screen.width / len;
    let iu = i as u16;
    let ju = (i + 1) as u16;
    assert(iu == i && ju == i + 1);
    assert(w * len <= screen.width < (w + 1) * len) by (nonlinear_arith)
        requires
            w == screen.width / len,
            len > 0,
    ;
    assert(w * ju == w * iu + w) by (nonlinear_arith)
        requires
            ju == iu + 1,
    ;
    assert(w * ju <= w * len) by (nonlinear_arith)
        requires
            ju < len,
            w >= 0,
    ;
    assert(0 <= w * iu) by (nonlinear_arith)
        requires
            w >= 0,
            iu >= 0,
    ;
    assert(w * 0 == 0);
}

/// Under the master-stack layout a lone client covers the whole screen;
/// with more, the master is the full-height left half of the screen, and
/// the other clients share the right half: each is as wide as the master,
/// starts where the master ends, the first starts at the top, each begins
/// exactly where the one above it ends, and together they fill the
/// screen's height but for less than one pixel per stacked client (for
/// screens lower than 2^15 pixels).
pub proof fn lemma_master_stack_shape(
    master: Client,
    first: Client,
    second: Client,
    screen: ScreenSize,
    len: u16,
    i: usize,
)
    requires
        screen.height <= 0x7fff,
    ensures
        len == 1 ==> ({
            let m = Layout::MasterStack.placed(master, screen, len, i);
            m.x == 0 && m.y == 0 && m.width == screen.width && m.height == screen.height
        }),
        len >= 2 ==> ({
            let m = Layout::MasterStack.placed(master, screen, len, 0);
            let top = Layout::MasterStack.placed(first, screen, len, 1);
            &&& m.x == 0 && m.y == 0 && m.height == screen.height
            &&& 2 * m.width <= screen.width < 2 * m.width + 2
            &&& top.x == m.width && top.width == m.width && top.y == 0
        }),
        len >= 2 && 1 <= i && i + 1 < len ==> ({
            let a = Layout::MasterStack.placed(first, screen, len, i);
            let b = Layout::MasterStack.placed(second, screen, len, (i + 1) as usize);
            &&& a.x == b.x && a.width == b.width && a.height == b.height
            &&& a.y + a.height == b.y
            &&& a.height * (len - 1) <= screen.height < (a.height + 1) * (len - 1)
        }),
{
    if len >= 2 {
        let n = (len - 1) as u16;
        let h = screen.height / n;
        assert(h * n <= screen.height < (h + 1) * n) by (nonlinear_arith)
            requires
                h == screen.height / n,
                n > 0,
        ;
        assert(h * 0 == 0);
        if 1 <= i && i + 1 < len {
            let iu = (i - 1) as u16;
            let ju = i as u16;
            assert(iu == i - 1 && ju == i);
            assert(h * ju == h * iu + h) by (nonlinear_arith)
                requires
                    ju == iu + 1,
            ;
            assert(h * ju <= h * n) by (nonlinear_arith)
                requires
                    ju < n,
                    h >= 0,
            ;
            assert(0 <= h * iu) by (nonlinear_arith)
                requires
                    h >= 0,
                    iu >= 0,
            ;
        }
    }
}

} // verus!
