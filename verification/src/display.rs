use vstd::prelude::*;
use crate::constants::{DISPLAY_HEIGHT, DISPLAY_WIDTH};

verus! {

/// A frame is 32 rows of 64 pixels; `frame[y][x]` is the pixel in column
/// `x` of row `y`, and `true` is lit.
pub open spec fn frame_wf(frame: Seq<Seq<bool>>) -> bool {
    &&& frame.len() == DISPLAY_HEIGHT
    &&& forall|y: int| 0 <= y < DISPLAY_HEIGHT ==> (#[trigger] frame[y]).len() == DISPLAY_WIDTH
}

/// The frame with every pixel dark.
pub open spec fn blank_frame() -> Seq<Seq<bool>> {
    Seq::new(DISPLAY_HEIGHT as nat, |y: int| Seq::new(DISPLAY_WIDTH as nat, |x: int| false))
}

/// A framebuffer array seen as a frame.
pub open spec fn frame_of(buffer: [[bool; DISPLAY_WIDTH]; DISPLAY_HEIGHT]) -> Seq<Seq<bool>> {
    Seq::new(DISPLAY_HEIGHT as nat, |y: int| buffer@[y]@)
}

/// The column at which a sprite drawn at horizontal position `x` starts.
pub open spec fn anchor_x(x: int) -> int {
    x % (DISPLAY_WIDTH as int)
}

/// The row at which a sprite drawn at vertical position `y` starts.
pub open spec fn anchor_y(y: int) -> int {
    y % (DISPLAY_HEIGHT as int)
}

/// Whether the sprite row `row` has its bit for column offset `dx` set.
/// The most significant bit is the leftmost column.
pub open spec fn sprite_bit(row: u8, dx: int) -> bool {
    row & (0x80u8 >> dx) != 0
}

/// Whether a sprite anchored at `(x0, y0)` has a set bit over the pixel
/// `(x, y)`. A sprite is eight columns wide and one row high per byte.
pub open spec fn sprite_covers(sprite: Seq<u8>, x0: int, y0: int, x: int, y: int) -> bool {
    &&& y0 <= y < y0 + sprite.len()
    &&& x0 <= x < x0 + 8
    &&& sprite_bit(sprite[y - y0], x - x0)
}

/// The frame after drawing `sprite` at `(x, y)`. The anchor wraps around
/// the display; from there every pixel of the display that the sprite
/// covers is inverted, and what reaches past the right or bottom edge is
/// cut off.
pub open spec fn draw(frame: Seq<Seq<bool>>, x: int, y: int, sprite: Seq<u8>) -> Seq<Seq<bool>> {
    Seq::new(
        DISPLAY_HEIGHT as nat,
        |r: int|
            Seq::new(
                DISPLAY_WIDTH as nat,
                |c: int|
                    frame[r][c] != sprite_covers(sprite, anchor_x(x), anchor_y(y), c, r),
            ),
    )
}

/// Whether the pixel `(c, r)` of the display is lit in `frame` and covered
/// by the sprite anchored at `(x0, y0)`.
pub open spec fn erased_at(
    frame: Seq<Seq<bool>>,
    sprite: Seq<u8>,
    x0: int,
    y0: int,
    c: int,
    r: int,
) -> bool {
    &&& 0 <= c < DISPLAY_WIDTH
    &&& 0 <= r < DISPLAY_HEIGHT
    &&& frame[r][c]
    &&& sprite_covers(sprite, x0, y0, c, r)
}

/// Whether drawing `sprite` at `(x, y)` turns at least one lit pixel dark.
pub open spec fn collides(frame: Seq<Seq<bool>>, x: int, y: int, sprite: Seq<u8>) -> bool {
    exists|c: int, r: int| #[trigger] erased_at(frame, sprite, anchor_x(x), anchor_y(y), c, r)
}

/// The monochrome 64 by 32 display.
pub struct Display {
    display_buffer: [[bool; DISPLAY_WIDTH]; DISPLAY_HEIGHT],
}

impl View for Display {
    type V = Seq<Seq<bool>>;

    /// The frame that the display shows.
    closed spec fn view(&self) -> Seq<Seq<bool>> {
        frame_of(self.display_buffer)
    }
}

impl Display {
    /// Every display shows a frame of 32 rows of 64 pixels.
    pub proof fn lemma_view_wf(&self)
        ensures
            frame_wf(self@),
    {
    }

    /// Creates a display with every pixel dark.
    pub fn new() -> (display: Self)
        ensures
            display@ == blank_frame(),
    {
        let display = Self { display_buffer: [[false; DISPLAY_WIDTH]; DISPLAY_HEIGHT] };
        assert(display@ =~~= blank_frame());
        display
    }

    /// Turns every pixel dark.
    pub fn clear(&mut self)
        ensures
            final(self)@ == blank_frame(),
    {
        self.display_buffer = [[false; DISPLAY_WIDTH]; DISPLAY_HEIGHT];
        assert(self@ =~~= blank_frame());
    }

    /// Borrows the framebuffer, indexed by row and then by column.
    pub fn get_buffer(&self) -> (buffer: &[[bool; DISPLAY_WIDTH]; DISPLAY_HEIGHT])
        ensures
            frame_of(*buffer) == self@,
    {
        &self.display_buffer
    }

    /// Draws `sprite`, one byte per row, with its top-left corner at
    /// `(x, y)` wrapped onto the display, and reports whether any lit pixel
    /// was turned dark.
    pub fn draw_sprite(&mut self, x: usize, y: usize, sprite: &[u8]) -> (collision: bool)
        ensures
            final(self)@ == draw(old(self)@, x as int, y as int, sprite@),
            collision == collides(old(self)@, x as int, y as int, sprite@),
    {
        let height = sprite.len();
        let x0 = x % DISPLAY_WIDTH;
        let y0 = y % DISPLAY_HEIGHT;
        let ghost before = self@;
        let mut flipped = false;
        let mut dy: usize = 0;
        while dy < height && y0 + dy < DISPLAY_HEIGHT
            invariant
                height == sprite@.len(),
                x0 == anchor_x(x as int),
                y0 == anchor_y(y as int),
                before == old(self)@,
                dy <= height,
                y0 + dy <= DISPLAY_HEIGHT,
                forall|c: int, r: int|
                    #![trigger self.display_buffer@[r]@[c]]
                    0 <= c < DISPLAY_WIDTH && 0 <= r < DISPLAY_HEIGHT ==> self.display_buffer@[r]@[c]
                        == (before[r][c] != (r < y0 + dy && sprite_covers(
                        sprite@,
                        x0 as int,
                        y0 as int,
                        c,
                        r,
                    ))),
                flipped <==> exists|c: int, r: int|
                    r < y0 + dy && #[trigger] erased_at(before, sprite@, x0 as int, y0 as int, c, r),
            decreases height - dy,
        {
            let byte = sprite[dy];
            let screen_y = y0 + dy;
            let mut dx: usize = 0;
            while dx < 8 && x0 + dx < DISPLAY_WIDTH
                invariant
                    height == sprite@.len(),
                    x0 < DISPLAY_WIDTH,
                    before == old(self)@,
                    dy < height,
                    byte == sprite@[dy as int],
                    screen_y == y0 + dy,
                    screen_y < DISPLAY_HEIGHT,
                    dx <= 8,
                    x0 + dx <= DISPLAY_WIDTH,
                    forall|c: int, r: int|
                        #![trigger self.display_buffer@[r]@[c]]
                        0 <= c < DISPLAY_WIDTH && 0 <= r < DISPLAY_HEIGHT
                            ==> self.display_buffer@[r]@[c] == (before[r][c] != ((r < screen_y || (r
                            == screen_y && c < x0 + dx)) && sprite_covers(
                            sprite@,
                            x0 as int,
                            y0 as int,
                            c,
                            r,
                        ))),
                    flipped <==> exists|c: int, r: int|
                        (r < screen_y || (r == screen_y && c < x0 + dx)) && #[trigger] erased_at(
                            before,
                            sprite@,
                            x0 as int,
                            y0 as int,
                            c,
                            r,
                        ),
                decreases 8 - dx,
            {
                let screen_x = x0 + dx;
                if (byte & (0x80u8 >> dx)) != 0 {
                    if self.display_buffer[screen_y][screen_x] {
                        flipped = true;
                        assert(erased_at(
                            before,
                            sprite@,
                            x0 as int,
                            y0 as int,
                            screen_x as int,
                            screen_y as int,
                        ));
                    }
                    self.display_buffer[screen_y][screen_x] =
                        !self.display_buffer[screen_y][screen_x];
                }
                dx += 1;
            }
            dy += 1;
        }
        assert(self@ =~~= draw(before, x as int, y as int, sprite@));
        flipped
    }
}

/// Drawing a sprite twice at the same place restores the frame. The second
/// draw reports a collision exactly when the first one left a pixel of the
/// sprite lit, which is when the sprite covers some pixel of the display
/// that was dark to begin with.
pub proof fn lemma_draw_twice_restores(frame: Seq<Seq<bool>>, x: int, y: int, sprite: Seq<u8>)
    requires
        frame_wf(frame),
    ensures
        draw(draw(frame, x, y, sprite), x, y, sprite) == frame,
        collides(draw(frame, x, y, sprite), x, y, sprite) <==> exists|c: int, r: int|
            0 <= c < DISPLAY_WIDTH && 0 <= r < DISPLAY_HEIGHT && !frame[r][c] && #[trigger] sprite_covers(
                sprite,
                anchor_x(x),
                anchor_y(y),
                c,
                r,
            ),
{
    let once = draw(frame, x, y, sprite);
    let x0 = anchor_x(x);
    let y0 = anchor_y(y);
    assert(draw(once, x, y, sprite) =~~= frame);
    assert forall|c: int, r: int|
        0 <= c < DISPLAY_WIDTH && 0 <= r < DISPLAY_HEIGHT && !frame[r][c] && #[trigger] sprite_covers(
            sprite,
            x0,
            y0,
            c,
            r,
        ) implies erased_at(once, sprite, x0, y0, c, r) by {}
}

} // verus!
