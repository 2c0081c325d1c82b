use crate::error::Epd47Error;
use crate::geometry::{Pixel, Point, Rectangle};
use vstd::prelude::*;
use vstd::slice::slice_subrange;

verus! {

/// Panel width in pixels.
pub const DISPLAY_WIDTH: u32 = 960;

/// Panel height in pixels.
pub const DISPLAY_HEIGHT: u32 = 540;

/// Number of pixels on the panel.
pub const PIXEL_COUNT: usize = 518400;

/// Number of bytes in the packed frame buffer: two pixels per byte.
pub const FRAMEBUFFER_SIZE: usize = 259200;

/// Number of bytes that hold one row of pixels.
pub const ROW_BYTES: usize = 480;

/// The brightest gray level, white.
pub const WHITE: u8 = 0x0F;

/// The darkest gray level, black.
pub const BLACK: u8 = 0x00;

/// Whether `(x, y)` names a pixel of the panel.
pub open spec fn in_bounds(x: u32, y: u32) -> bool {
    x < DISPLAY_WIDTH && y < DISPLAY_HEIGHT
}

/// Position of pixel `(x, y)` in row-major order.
pub open spec fn pixel_index(x: u32, y: u32) -> int {
    y * DISPLAY_WIDTH + x
}

/// The gray level that `byte` holds in its high or in its low nibble.
pub open spec fn level_of(byte: u8, high: bool) -> u8 {
    if high {
        byte / 16
    } else {
        byte % 16
    }
}

/// The gray levels that a packed byte sequence stands for: pixel `i` lives in
/// byte `i / 2`, an even `i` in the high nibble, an odd `i` in the low nibble.
pub open spec fn unpacked(bytes: Seq<u8>) -> Seq<u8> {
    Seq::new(PIXEL_COUNT as nat, |i: int| level_of(bytes[i / 2], i % 2 == 0))
}

/// A raster in which every pixel has the same level.
pub open spec fn solid(level: u8) -> Seq<u8> {
    Seq::new(PIXEL_COUNT as nat, |i: int| level)
}

/// `byte` with its high nibble replaced by `level`.
pub open spec fn with_high(byte: u8, level: u8) -> u8 {
    (byte & 0x0F) | (level << 4)
}

/// `byte` with its low nibble replaced by `level`.
pub open spec fn with_low(byte: u8, level: u8) -> u8 {
    (byte & 0xF0) | level
}

/// Whether a point of a drawing names a pixel of the panel.
pub open spec fn on_panel(point: Point) -> bool {
    0 <= point.x < DISPLAY_WIDTH && 0 <= point.y < DISPLAY_HEIGHT
}

/// Row-major position of a point that lies on the panel.
pub open spec fn point_index(point: Point) -> int {
    point.y * DISPLAY_WIDTH + point.x
}

/// Whether a pixel of a drawing stops the drawing: it lies on the panel and
/// its level is above 15.
pub open spec fn refused(pixel: Pixel) -> bool {
    on_panel(pixel.point) && pixel.luma > 15
}

/// The position in `stream` of the first pixel that stops the drawing, or
/// the length of `stream` if none does.
pub open spec fn first_refused(stream: Seq<Pixel>) -> int
    decreases stream.len(),
{
    if stream.len() == 0 {
        0
    } else if refused(stream[0]) {
        0
    } else {
        1 + first_refused(stream.drop_first())
    }
}

/// The raster after the first `count` pixels of `stream` were drawn onto
/// `pixels`: a pixel on the panel replaces the level at its place, one off
/// the panel is skipped.
pub open spec fn drawn(pixels: Seq<u8>, stream: Seq<Pixel>, count: nat) -> Seq<u8>
    decreases count,
{
    if count == 0 {
        pixels
    } else {
        let before = drawn(pixels, stream, (count - 1) as nat);
        let pixel = stream[count - 1];
        if on_panel(pixel.point) {
            before.update(point_index(pixel.point), pixel.luma)
        } else {
            before
        }
    }
}

/// The raster `pixels` with every pixel of `rect` set to `level`.
pub open spec fn rect_filled(pixels: Seq<u8>, rect: Rectangle, level: u8) -> Seq<u8> {
    Seq::new(
        PIXEL_COUNT as nat,
        |i: int|
            if rect.covers(i % (DISPLAY_WIDTH as int), i / (DISPLAY_WIDTH as int)) {
                level
            } else {
                pixels[i]
            },
    )
}

/// The raster `pixels` with the first pixels of `rect` set to `level`, in
/// row-major order: `rows` whole rows of it, and `columns` pixels of the
/// next row.
pub open spec fn rect_painted(
    pixels: Seq<u8>,
    rect: Rectangle,
    level: u8,
    rows: int,
    columns: int,
) -> Seq<u8> {
    Seq::new(
        PIXEL_COUNT as nat,
        |i: int|
            {
                let x = i % (DISPLAY_WIDTH as int);
                let y = i / (DISPLAY_WIDTH as int);
                if rect.covers(x, y) && (y < rect.y + rows || (y == rect.y + rows && x < rect.x
                    + columns)) {
                    level
                } else {
                    pixels[i]
                }
            },
    )
}

/// The first refused pixel is the one that is refused while none before it
/// is.
pub proof fn lemma_first_refused(stream: Seq<Pixel>, index: int)
    requires
        0 <= index <= stream.len(),
        forall|j: int| 0 <= j < index ==> !refused(#[trigger] stream[j]),
        index < stream.len() ==> refused(stream[index]),
    ensures
        first_refused(stream) == index,
    decreases stream.len(),
{
    if stream.len() > 0 && index > 0 {
        let rest = stream.drop_first();
        assert(!refused(stream[0]));
        assert forall|j: int| 0 <= j < index - 1 implies !refused(#[trigger] rest[j]) by {
            assert(rest[j] == stream[j + 1]);
        }
        lemma_first_refused(rest, index - 1);
    }
}

/// A drawing whose levels are all valid is drawn to its end, wherever its
/// pixels lie.
pub proof fn lemma_valid_levels_draw_through(stream: Seq<Pixel>)
    requires
        forall|j: int| 0 <= j < stream.len() ==> (#[trigger] stream[j]).luma <= 15,
    ensures
        first_refused(stream) == stream.len(),
{
    lemma_first_refused(stream, stream.len() as int);
}

/// Whether a pixel of a drawing goes to the place `place` of the raster.
pub open spec fn hits(pixel: Pixel, place: int) -> bool {
    on_panel(pixel.point) && point_index(pixel.point) == place
}

/// Every pixel of the panel has a place of its own in the raster.
pub proof fn lemma_pixel_index_distinct(x1: u32, y1: u32, x2: u32, y2: u32)
    requires
        in_bounds(x1, y1),
        in_bounds(x2, y2),
    ensures
        0 <= pixel_index(x1, y1) < PIXEL_COUNT,
        pixel_index(x1, y1) == pixel_index(x2, y2) <==> x1 == x2 && y1 == y2,
{
}

/// A pixel that was set reads back as the level it was set to, and every
/// other pixel reads as before.
pub proof fn lemma_set_then_get(pixels: Seq<u8>, x: u32, y: u32, level: u8, x2: u32, y2: u32)
    requires
        pixels.len() == PIXEL_COUNT,
        in_bounds(x, y),
        in_bounds(x2, y2),
    ensures
        pixels.update(pixel_index(x, y), level)[pixel_index(x, y)] == level,
        (x2 != x || y2 != y) ==> pixels.update(pixel_index(x, y), level)[pixel_index(x2, y2)]
            == pixels[pixel_index(x2, y2)],
{
    lemma_pixel_index_distinct(x, y, x2, y2);
}

/// After a clear, every pixel of the panel reads white.
pub proof fn lemma_cleared_reads_white(x: u32, y: u32)
    requires
        in_bounds(x, y),
    ensures
        solid(WHITE)[pixel_index(x, y)] == 0x0F,
{
}

/// What a drawing leaves at one place of the raster: the level of the last
/// pixel of the stream that goes there, and what was there before if none
/// does. Pixels off the panel go nowhere.
pub proof fn lemma_drawn_level(pixels: Seq<u8>, stream: Seq<Pixel>, count: nat, place: int)
    requires
        pixels.len() == PIXEL_COUNT,
        0 <= place < PIXEL_COUNT,
        count <= stream.len(),
    ensures
        drawn(pixels, stream, count).len() == PIXEL_COUNT,
        (forall|j: int| 0 <= j < count ==> !hits(#[trigger] stream[j], place)) ==> drawn(
            pixels,
            stream,
            count,
        )[place] == pixels[place],
        forall|j: int|
            0 <= j < count && hits(#[trigger] stream[j], place) && (forall|k: int|
                j < k < count ==> !hits(#[trigger] stream[k], place)) ==> drawn(
                pixels,
                stream,
                count,
            )[place] == stream[j].luma,
    decreases count,
{
    if count > 0 {
        lemma_drawn_level(pixels, stream, (count - 1) as nat, place);
        let last = stream[count - 1];
        let before = drawn(pixels, stream, (count - 1) as nat);
        if on_panel(last.point) {
            assert(0 <= point_index(last.point) < PIXEL_COUNT);
        }
        assert forall|j: int|
            0 <= j < count && hits(#[trigger] stream[j], place) && (forall|k: int|
                j < k < count ==> !hits(#[trigger] stream[k], place)) implies drawn(
            pixels,
            stream,
            count,
        )[place] == stream[j].luma by {
            if j < count - 1 {
                assert(!hits(stream[count - 1], place));
                assert forall|k: int| j < k < count - 1 implies !hits(
                    #[trigger] stream[k],
                    place,
                ) by {}
            }
        }
    }
}

/// Writing one nibble of a byte stores the level there and leaves the other
/// nibble as it was.
pub proof fn lemma_nibble_write(byte: u8, level: u8)
    requires
        level <= 15,
    ensures
        level_of(with_high(byte, level), true) == level,
        level_of(with_high(byte, level), false) == level_of(byte, false),
        level_of(with_low(byte, level), false) == level,
        level_of(with_low(byte, level), true) == level_of(byte, true),
{
    assert(((byte & 0x0F) | (level << 4)) / 16 == level) by (bit_vector)
        requires
            level <= 15,
    ;
    assert(((byte & 0x0F) | (level << 4)) % 16 == byte % 16) by (bit_vector)
        requires
            level <= 15,
    ;
    assert(((byte & 0xF0) | level) % 16 == level) by (bit_vector)
        requires
            level <= 15,
    ;
    assert(((byte & 0xF0) | level) / 16 == byte / 16) by (bit_vector)
        requires
            level <= 15,
    ;
}

/// A byte whose two nibbles both hold `level`.
proof fn lemma_nibble_pair(level: u8)
    requires
        level <= 15,
    ensures
        level_of((level << 4) | level, true) == level,
        level_of((level << 4) | level, false) == level,
{
    assert(((level << 4) | level) / 16 == level) by (bit_vector)
        requires
            level <= 15,
    ;
    assert(((level << 4) | level) % 16 == level) by (bit_vector)
        requires
            level <= 15,
    ;
}

/// The gray level that stands for an 8-bit gray value: its upper four bits.
pub fn level_from_gray(gray: u8) -> (level: u8)
    ensures
        level == gray / 16,
        level <= 15,
{
    assert(gray >> 4 == gray / 16) by (bit_vector);
    gray >> 4
}

/// Row-major position of the first pixel of row `y`.
fn row_start(y: u32) -> (start: usize)
    requires
        y < DISPLAY_HEIGHT,
    ensures
        start == y * DISPLAY_WIDTH,
        start == pixel_index(0, y),
{
    assert(y * DISPLAY_WIDTH <= 539 * 960) by (nonlinear_arith)
        requires
            y < DISPLAY_HEIGHT,
            DISPLAY_HEIGHT == 540,
            DISPLAY_WIDTH == 960,
    ;
    (y as usize) * (DISPLAY_WIDTH as usize)
}

/// The packed raster of the panel: 4 bits per pixel, two pixels per byte, the
/// first of each pair in the high nibble.
pub struct FrameBuffer {
    data: Vec<u8>,
}

impl View for FrameBuffer {
    type V = Seq<u8>;

    /// The gray level of every pixel, in row-major order.
    open spec fn view(&self) -> Seq<u8> {
        unpacked(self.bytes())
    }
}

impl FrameBuffer {
    #[verifier::type_invariant]
    spec fn well_formed(self) -> bool {
        self.data@.len() == FRAMEBUFFER_SIZE
    }

    /// The packed bytes as they are stored.
    pub closed spec fn bytes(&self) -> Seq<u8> {
        self.data@
    }

    /// A buffer in which every pixel is white.
    pub fn new() -> (fb: FrameBuffer)
        ensures
            fb@ == solid(WHITE),
            fb.bytes() == Seq::new(FRAMEBUFFER_SIZE as nat, |i: int| 0xFFu8),
    {
        let data: Vec<u8> = vec![0xFFu8; FRAMEBUFFER_SIZE];
        let fb = FrameBuffer { data };
        proof {
            assert(fb.bytes() =~= Seq::new(FRAMEBUFFER_SIZE as nat, |i: int| 0xFFu8));
            assert(fb@ =~= solid(WHITE));
        }
        fb
    }

    /// Stores `level` at pixel `(x, y)`.
    ///
    /// The coordinates are checked first, then the level. A refused write
    /// leaves the buffer as it was; an accepted one changes that pixel alone.
    pub fn set_pixel(&mut self, x: u32, y: u32, level: u8) -> (r: Result<(), Epd47Error>)
        ensures
            !in_bounds(x, y) ==> r == Err::<(), Epd47Error>(Epd47Error::OutOfBounds),
            in_bounds(x, y) && level > 15 ==> r == Err::<(), Epd47Error>(Epd47Error::InvalidColor),
            in_bounds(x, y) && level <= 15 ==> r == Ok::<(), Epd47Error>(()),
            r is Err ==> *final(self) == *old(self),
            r is Ok ==> final(self)@ == old(self)@.update(pixel_index(x, y), level),
    {
        proof {
            use_type_invariant(&*self);
        }
        if x >= DISPLAY_WIDTH || y >= DISPLAY_HEIGHT {
            return Err(Epd47Error::OutOfBounds);
        }
        if level > 0x0F {
            return Err(Epd47Error::InvalidColor);
        }
        let index: usize = row_start(y) + (x as usize);
        let byte_index: usize = index / 2;
        let high: bool = index % 2 == 0;
        let before: u8 = self.data[byte_index];
        let after: u8 = if high {
            (before & 0x0F) | (level << 4)
        } else {
            (before & 0xF0) | level
        };
        self.data[byte_index] = after;
        proof {
            lemma_nibble_write(before, level);
            assert(final(self)@ =~= old(self)@.update(pixel_index(x, y), level));
        }
        Ok(())
    }

    /// Reads the level stored at pixel `(x, y)`.
    pub fn get_pixel(&self, x: u32, y: u32) -> (r: Result<u8, Epd47Error>)
        ensures
            in_bounds(x, y) ==> r == Ok::<u8, Epd47Error>(self@[pixel_index(x, y)]),
            !in_bounds(x, y) ==> r == Err::<u8, Epd47Error>(Epd47Error::OutOfBounds),
            r matches Ok(level) ==> level <= 15,
    {
        proof {
            use_type_invariant(self);
        }
        if x >= DISPLAY_WIDTH || y >= DISPLAY_HEIGHT {
            return Err(Epd47Error::OutOfBounds);
        }
        let index: usize = row_start(y) + (x as usize);
        let byte: u8 = self.data[index / 2];
        let level: u8 = if index % 2 == 0 {
            byte >> 4
        } else {
            byte & 0x0F
        };
        proof {
            assert(byte >> 4 == byte / 16) by (bit_vector);
            assert(byte & 0x0F == byte % 16) by (bit_vector);
        }
        Ok(level)
    }

    /// Sets every pixel to `level`, by writing the level into both nibbles of
    /// every byte. A level above 15 is refused and changes nothing.
    pub fn fill(&mut self, level: u8) -> (r: Result<(), Epd47Error>)
        ensures
            level > 15 ==> r == Err::<(), Epd47Error>(Epd47Error::InvalidColor) && *final(self)
                == *old(self),
            level <= 15 ==> r == Ok::<(), Epd47Error>(()) && final(self)@ == solid(level),
    {
        proof {
            use_type_invariant(&*self);
        }
        if level > 0x0F {
            return Err(Epd47Error::InvalidColor);
        }
        let pair: u8 = (level << 4) | level;
        let mut i: usize = 0;
        while i < FRAMEBUFFER_SIZE
            invariant
                i <= FRAMEBUFFER_SIZE,
                self.data@.len() == FRAMEBUFFER_SIZE,
                forall|j: int| 0 <= j < i ==> self.data@[j] == pair,
            decreases FRAMEBUFFER_SIZE - i,
        {
            self.data[i] = pair;
            i = i + 1;
        }
        proof {
            lemma_nibble_pair(level);
            assert(final(self)@ =~= solid(level));
        }
        Ok(())
    }

    /// Sets every pixel to white.
    pub fn clear(&mut self)
        ensures
            final(self)@ == solid(WHITE),
    {
        let filled = self.fill(WHITE);
        assert(filled is Ok);
    }

    /// Sets every pixel of `rect` to `level`.
    ///
    /// The rectangle is checked first, then the level: a rectangle that
    /// does not lie on the panel as a whole is refused, then a level above
    /// 15. A refused call changes nothing.
    pub fn fill_rect(&mut self, rect: Rectangle, level: u8) -> (r: Result<(), Epd47Error>)
        ensures
            !rect.spec_fits_panel() ==> r == Err::<(), Epd47Error>(Epd47Error::OutOfBounds),
            rect.spec_fits_panel() && level > 15 ==> r == Err::<(), Epd47Error>(
                Epd47Error::InvalidColor,
            ),
            rect.spec_fits_panel() && level <= 15 ==> r == Ok::<(), Epd47Error>(()),
            r is Err ==> *final(self) == *old(self),
            r is Ok ==> final(self)@ == rect_filled(old(self)@, rect, level),
    {
        if !rect.fits_panel() {
            return Err(Epd47Error::OutOfBounds);
        }
        if level > 0x0F {
            return Err(Epd47Error::InvalidColor);
        }
        let ghost before: Seq<u8> = self@;
        let mut row: u32 = 0;
        proof {
            assert(self@ =~= rect_painted(before, rect, level, 0, 0));
        }
        while row < rect.height
            invariant
                rect.spec_fits_panel(),
                level <= 15,
                row <= rect.height,
                self@ == rect_painted(before, rect, level, row as int, 0),
            decreases rect.height - row,
        {
            let mut column: u32 = 0;
            while column < rect.width
                invariant
                    rect.spec_fits_panel(),
                    level <= 15,
                    row < rect.height,
                    column <= rect.width,
                    self@ == rect_painted(before, rect, level, row as int, column as int),
                decreases rect.width - column,
            {
                let ghost painted: Seq<u8> = self@;
                let set = self.set_pixel(rect.x + column, rect.y + row, level);
                proof {
                    let x = (rect.x + column) as u32;
                    let y = (rect.y + row) as u32;
                    let index = pixel_index(x, y);
                    assert(index % (DISPLAY_WIDTH as int) == x && index / (DISPLAY_WIDTH as int)
                        == y);
                    assert(painted.update(index, level) =~= rect_painted(
                        before,
                        rect,
                        level,
                        row as int,
                        column + 1,
                    ));
                }
                column = column + 1;
            }
            proof {
                assert(self@ =~= rect_painted(before, rect, level, row + 1, 0));
            }
            row = row + 1;
        }
        proof {
            assert(self@ =~= rect_filled(before, rect, level));
        }
        Ok(())
    }

    /// Draws a stream of pixels, in order.
    ///
    /// A pixel off the panel is skipped. A pixel on the panel with a level
    /// above 15 stops the drawing with `InvalidColor`; what was drawn before
    /// it stays.
    pub fn draw_iter(&mut self, stream: &Vec<Pixel>) -> (r: Result<(), Epd47Error>)
        ensures
            first_refused(stream@) == stream@.len() ==> r == Ok::<(), Epd47Error>(()),
            first_refused(stream@) < stream@.len() ==> r == Err::<(), Epd47Error>(
                Epd47Error::InvalidColor,
            ),
            0 <= first_refused(stream@) <= stream@.len(),
            final(self)@ == drawn(old(self)@, stream@, first_refused(stream@) as nat),
    {
        let ghost before: Seq<u8> = self@;
        let mut i: usize = 0;
        while i < stream.len()
            invariant
                i <= stream@.len(),
                before == old(self)@,
                forall|j: int| 0 <= j < i ==> !refused(#[trigger] stream@[j]),
                self@ == drawn(before, stream@, i as nat),
            decreases stream@.len() - i,
        {
            let pixel: Pixel = stream[i];
            if pixel.point.x >= 0 && pixel.point.y >= 0 {
                let x: u32 = pixel.point.x as u32;
                let y: u32 = pixel.point.y as u32;
                match self.set_pixel(x, y, pixel.luma) {
                    Ok(()) => {},
                    Err(Epd47Error::OutOfBounds) => {},
                    Err(error) => {
                        proof {
                            lemma_first_refused(stream@, i as int);
                        }
                        return Err(error);
                    },
                }
            }
            i = i + 1;
        }
        proof {
            lemma_first_refused(stream@, stream@.len() as int);
        }
        Ok(())
    }

    /// The packed bytes of `rows` rows, from `first_row` on, for the board
    /// to clock out. Rows beyond the panel are refused.
    pub fn rows(&self, first_row: u32, rows: u32) -> (r: Result<&[u8], Epd47Error>)
        ensures
            first_row + rows > DISPLAY_HEIGHT ==> r is Err && r->Err_0 == Epd47Error::OutOfBounds,
            first_row + rows <= DISPLAY_HEIGHT ==> r is Ok && r->Ok_0@ == self.bytes().subrange(
                first_row * ROW_BYTES,
                (first_row + rows) * ROW_BYTES,
            ),
    {
        proof {
            use_type_invariant(self);
        }
        if first_row as u64 + rows as u64 > DISPLAY_HEIGHT as u64 {
            return Err(Epd47Error::OutOfBounds);
        }
        let start: usize = (first_row as usize) * ROW_BYTES;
        let end: usize = ((first_row + rows) as usize) * ROW_BYTES;
        Ok(slice_subrange(self.data.as_slice(), start, end))
    }

    /// The packed bytes, for the board to clock out.
    pub fn as_bytes(&self) -> (bytes: &Vec<u8>)
        ensures
            bytes@ == self.bytes(),
            bytes@.len() == FRAMEBUFFER_SIZE,
    {
        proof {
            use_type_invariant(self);
        }
        &self.data
    }
}

} // verus!
