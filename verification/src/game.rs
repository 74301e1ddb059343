use vstd::prelude::*;

verus! {

/// The frame that the game draws into: `width * height` pixels, row after
/// row from the top, one 32-bit word each.
pub struct GameOffscreenBuffer {
    pub memory: Vec<u32>,
    pub width: i32,
    pub height: i32,
    pub bytes_per_pixel: i32,
}

/// The colour of the test gradient at column `x` of row `y`: the low byte
/// of the shifted column in the blue channel, that of the shifted row in
/// the green channel.
pub open spec fn gradient_pixel(x: int, y: int, x_offset: int, y_offset: int) -> u32 {
    ((((y + y_offset) as i32) as u32 & 0xFF) << 8) | (((x + x_offset) as i32) as u32 & 0xFF)
}

impl GameOffscreenBuffer {
    /// The pixel memory holds exactly the rows of the frame.
    pub open spec fn wf(&self) -> bool {
        &&& self.width >= 0
        &&& self.height >= 0
        &&& self.memory@.len() == self.width * self.height
    }

    /// Number of bytes from one row to the next.
    pub fn pitch(&self) -> (bytes: isize)
        requires
            i32::MIN <= self.width * self.bytes_per_pixel <= i32::MAX,
        ensures
            bytes == self.width * self.bytes_per_pixel,
    {
        (self.width * self.bytes_per_pixel) as isize
    }

    /// Number of bytes of the whole frame.
    pub fn memory_size(&self) -> (bytes: i32)
        requires
            i32::MIN <= self.bytes_per_pixel * self.width <= i32::MAX,
            i32::MIN <= self.bytes_per_pixel * self.width * self.height <= i32::MAX,
        ensures
            bytes == self.bytes_per_pixel * self.width * self.height,
    {
        self.bytes_per_pixel * self.width * self.height
    }
}

/// Draws the test gradient, shifted by the two offsets, over the whole frame.
pub fn render_weird_gradient(buffer: &mut GameOffscreenBuffer, x_offset: i32, y_offset: i32)
    requires
        old(buffer).wf(),
        old(buffer).width > 0 && old(buffer).height > 0 ==> {
            &&& old(buffer).width - 1 + x_offset <= i32::MAX
            &&& old(buffer).height - 1 + y_offset <= i32::MAX
        },
    ensures
        final(buffer).wf(),
        final(buffer).width == old(buffer).width,
        final(buffer).height == old(buffer).height,
        final(buffer).bytes_per_pixel == old(buffer).bytes_per_pixel,
        forall|x: int, y: int|
            0 <= x < old(buffer).width && 0 <= y < old(buffer).height ==> final(buffer).memory@[y
                * old(buffer).width + x] == #[trigger] gradient_pixel(
                x,
                y,
                x_offset as int,
                y_offset as int,
            ),
{
    let width: i32 = buffer.width;
    let height: i32 = buffer.height;
    let mut index: usize = 0;
    let mut y: i32 = 0;
    while y < height
        invariant
            0 <= y <= height,
            width == buffer.width == old(buffer).width,
            height == buffer.height == old(buffer).height,
            buffer.bytes_per_pixel == old(buffer).bytes_per_pixel,
            buffer.wf(),
            index == y * width,
            width > 0 && height > 0 ==> width - 1 + x_offset <= i32::MAX && height - 1 + y_offset
                <= i32::MAX,
            forall|px: int, py: int|
                0 <= px < width && 0 <= py < y ==> buffer.memory@[py * width + px]
                    == #[trigger] gradient_pixel(px, py, x_offset as int, y_offset as int),
        decreases height - y,
    {
        let mut x: i32 = 0;
        while x < width
            invariant
                0 <= x <= width,
                0 <= y < height,
                width == buffer.width,
                height == buffer.height,
                buffer.bytes_per_pixel == old(buffer).bytes_per_pixel,
                buffer.wf(),
                index == y * width + x,
                width > 0 ==> width - 1 + x_offset <= i32::MAX && height - 1 + y_offset
                    <= i32::MAX,
                forall|px: int, py: int|
                    0 <= px < width && 0 <= py < y ==> buffer.memory@[py * width + px]
                        == #[trigger] gradient_pixel(px, py, x_offset as int, y_offset as int),
                forall|px: int|
                    0 <= px < x ==> buffer.memory@[y * width + px] == #[trigger] gradient_pixel(
                        px,
                        y as int,
                        x_offset as int,
                        y_offset as int,
                    ),
            decreases width - x,
        {
            proof {
                lemma_pixel_index(x as int, y as int, width as int, height as int);
            }
            let ghost before = buffer.memory@;
            let blue: u32 = #[verifier::truncate] ((x + x_offset) as u32) & 0xFF;
            let green: u32 = #[verifier::truncate] ((y + y_offset) as u32) & 0xFF;
            buffer.memory[index] = green << 8 | blue;
            proof {
                assert forall|px: int, py: int| 0 <= px < width && 0 <= py < y implies buffer.memory@[py
                    * width + px] == #[trigger] gradient_pixel(
                    px,
                    py,
                    x_offset as int,
                    y_offset as int,
                ) by {
                    lemma_pixel_index(px, py, width as int, height as int);
                    lemma_rows_apart(py, y as int, width as int);
                    assert(before[py * width + px] == gradient_pixel(
                        px,
                        py,
                        x_offset as int,
                        y_offset as int,
                    ));
                }
            }
            assert(index < buffer.memory.len());
            index = index + 1;
            x = x + 1;
        }
        proof {
            assert((y + 1) * width == y * width + width) by (nonlinear_arith);
        }
        y = y + 1;
    }
}

/// The pixel at column `x` of row `y` lies inside the frame's memory.
proof fn lemma_pixel_index(x: int, y: int, width: int, height: int)
    requires
        0 <= x < width,
        0 <= y < height,
    ensures
        0 <= y * width + x < width * height,
{
    assert(y * width + x < width * height) by (nonlinear_arith)
        requires
            0 <= x < width,
            0 <= y < height,
    ;
    assert(0 <= y * width) by (nonlinear_arith)
        requires
            0 <= y,
            0 < width,
    ;
}

/// An earlier row ends before a later row starts.
proof fn lemma_rows_apart(earlier: int, later: int, width: int)
    requires
        0 <= earlier < later,
        0 < width,
    ensures
        earlier * width + width <= later * width,
{
    assert(earlier * width + width <= later * width) by (nonlinear_arith)
        requires
            0 <= earlier < later,
            0 < width,
    ;
}

} // verus!
