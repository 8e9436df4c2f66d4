use vstd::prelude::*;

verus! {

/// A grid of `width` columns and `height` rows with every pixel off.
pub open spec fn blank(width: nat, height: nat) -> Seq<Seq<bool>> {
    Seq::new(width, |x: int| Seq::new(height, |y: int| false))
}

/// Whether a sprite row lights its column `dx`; column 0 is the most
/// significant bit of the byte.
pub open spec fn row_bit(row: u8, dx: int) -> bool {
    0 <= dx < 8 && (row >> ((7 - dx) as u8)) & 1 == 1
}

/// Whether the sprite `rows` lights the pixel `dx` columns right of and `dy`
/// rows below its top-left corner.
pub open spec fn sprite_bit(rows: Seq<u8>, dx: int, dy: int) -> bool {
    0 <= dy < rows.len() && row_bit(rows[dy], dx)
}

/// The rows of `data` that a draw of `n` rows uses: the first `n`, or all of
/// them where there are fewer.
pub open spec fn sprite_rows(data: Seq<u8>, n: int) -> Seq<u8> {
    if 0 <= n < data.len() {
        data.take(n)
    } else {
        data
    }
}

/// The grid after the sprite `rows` is drawn with its top-left corner at
/// column `x`, row `y`: every pixel that the sprite lights is flipped, and
/// what falls outside the grid is dropped.
pub open spec fn drawn(grid: Seq<Seq<bool>>, x: int, y: int, rows: Seq<u8>) -> Seq<Seq<bool>> {
    Seq::new(
        grid.len(),
        |cx: int|
            Seq::new(grid[cx].len(), |cy: int| grid[cx][cy] != sprite_bit(rows, cx - x, cy - y)),
    )
}

/// Whether drawing the sprite at (`x`, `y`) turns off the pixel (`cx`, `cy`).
pub open spec fn erases(grid: Seq<Seq<bool>>, x: int, y: int, rows: Seq<u8>, cx: int, cy: int) -> bool {
    &&& 0 <= cx < grid.len()
    &&& 0 <= cy < grid[cx].len()
    &&& grid[cx][cy]
    &&& sprite_bit(rows, cx - x, cy - y)
}

/// Whether drawing the sprite at (`x`, `y`) turns off some pixel that was on.
pub open spec fn collides(grid: Seq<Seq<bool>>, x: int, y: int, rows: Seq<u8>) -> bool {
    exists|cx: int, cy: int| #[trigger] erases(grid, x, y, rows, cx, cy)
}

/// Whether the sprite at (`x`, `y`) lights the pixel (`cx`, `cy`) of the grid
/// and that pixel is off.
pub open spec fn lights(grid: Seq<Seq<bool>>, x: int, y: int, rows: Seq<u8>, cx: int, cy: int) -> bool {
    &&& 0 <= cx < grid.len()
    &&& 0 <= cy < grid[cx].len()
    &&& !grid[cx][cy]
    &&& sprite_bit(rows, cx - x, cy - y)
}

/// Drawing a sprite twice at one place gives the grid back. The second draw
/// reports a collision exactly when the first one turned some pixel on, that
/// is when the sprite lights a pixel of the grid that was off.
pub proof fn lemma_draw_twice(grid: Seq<Seq<bool>>, x: int, y: int, rows: Seq<u8>)
    ensures
        drawn(drawn(grid, x, y, rows), x, y, rows) == grid,
        collides(drawn(grid, x, y, rows), x, y, rows) <==> exists|cx: int, cy: int| #[trigger]
            lights(grid, x, y, rows, cx, cy),
{
    let once = drawn(grid, x, y, rows);
    let twice = drawn(once, x, y, rows);
    assert(twice.len() == grid.len());
    assert forall|cx: int| 0 <= cx < grid.len() implies #[trigger] twice[cx] == grid[cx] by {
        assert(once[cx].len() == grid[cx].len());
        assert(twice[cx] =~= grid[cx]);
    }
    assert(twice =~= grid);
    if collides(once, x, y, rows) {
        let (cx, cy) = choose|cx: int, cy: int| #[trigger] erases(once, x, y, rows, cx, cy);
        assert(lights(grid, x, y, rows, cx, cy));
    }
    if exists|cx: int, cy: int| #[trigger] lights(grid, x, y, rows, cx, cy) {
        let (cx, cy) = choose|cx: int, cy: int| #[trigger] lights(grid, x, y, rows, cx, cy);
        assert(erases(once, x, y, rows, cx, cy));
    }
}

/// The display buffer: a grid of one-bit pixels, addressed by column, then row.
pub struct Video {
    width: usize,
    height: usize,
    grid: Vec<Vec<u8>>,
}

impl View for Video {
    type V = Seq<Seq<bool>>;

    closed spec fn view(&self) -> Seq<Seq<bool>> {
        Seq::new(
            self.grid@.len(),
            |x: int| Seq::new(self.grid@[x]@.len(), |y: int| self.grid@[x]@[y] != 0),
        )
    }
}

impl Video {
    /// The number of columns.
    pub closed spec fn spec_width(&self) -> usize {
        self.width
    }

    /// The number of rows.
    pub closed spec fn spec_height(&self) -> usize {
        self.height
    }

    /// The stored cells have the declared shape and hold only 0 and 1.
    pub closed spec fn inv(&self) -> bool {
        &&& self.grid@.len() == self.width
        &&& forall|x: int| 0 <= x < self.width ==> (#[trigger] self.grid@[x])@.len() == self.height
        &&& forall|x: int, y: int|
            0 <= x < self.width && 0 <= y < self.height ==> (#[trigger] self.grid@[x]@[y]) <= 1
    }

    /// The buffer is well formed: its cells are sound and its view has
    /// `spec_width()` columns of `spec_height()` pixels each.
    pub open spec fn wf(&self) -> bool {
        &&& self.inv()
        &&& self@.len() == self.spec_width()
        &&& forall|x: int| 0 <= x < self@.len() ==> (#[trigger] self@[x]).len() == self.spec_height()
    }

    /// A buffer of the given size with every pixel off.
    pub fn new(width: usize, height: usize) -> (video: Self)
        ensures
            video.wf(),
            video.spec_width() == width,
            video.spec_height() == height,
            video@ == blank(width as nat, height as nat),
    {
        let grid = Self::empty_grid(width, height);
        let video = Self { width, height, grid };
        assert(video@ =~~= blank(width as nat, height as nat));
        video
    }

    fn empty_grid(width: usize, height: usize) -> (grid: Vec<Vec<u8>>)
        ensures
            grid@.len() == width,
            forall|x: int| 0 <= x < width ==> (#[trigger] grid@[x])@.len() == height,
            forall|x: int, y: int|
                0 <= x < width && 0 <= y < height ==> (#[trigger] grid@[x]@[y]) == 0,
    {
        let mut grid: Vec<Vec<u8>> = Vec::new();
        let mut x: usize = 0;
        while x < width
            invariant
                x <= width,
                grid@.len() == x,
                forall|cx: int| 0 <= cx < x ==> (#[trigger] grid@[cx])@.len() == height,
                forall|cx: int, cy: int|
                    0 <= cx < x && 0 <= cy < height ==> (#[trigger] grid@[cx]@[cy]) == 0,
            decreases width - x,
        {
            let column: Vec<u8> = vec![0u8; height];
            grid.push(column);
            x += 1;
        }
        grid
    }

    /// Draws one sprite row at row `new_y`, from column `x` on.
    fn draw_row(&mut self, x: usize, new_y: usize, bits: u8) -> (flag: u8)
        requires
            old(self).wf(),
            new_y < old(self).spec_height(),
        ensures
            final(self).wf(),
            final(self).spec_width() == old(self).spec_width(),
            final(self).spec_height() == old(self).spec_height(),
            forall|cx: int, cy: int|
                0 <= cx < old(self).spec_width() && 0 <= cy < old(self).spec_height() ==> (
                #[trigger] final(self)@[cx][cy]) == (old(self)@[cx][cy] != (cy == new_y && row_bit(
                    bits,
                    cx - x,
                ))),
            flag <= 1,
            flag == 1 <==> exists|cx: int|
                0 <= cx < old(self).spec_width() && (#[trigger] old(self)@[cx])[new_y as int]
                    && row_bit(bits, cx - x),
    {
        let mut flag: u8 = 0;
        let mut offset_x: usize = 0;
        while offset_x < 8 && x < self.width && offset_x < self.width - x
            invariant
                offset_x <= 8,
                self.wf(),
                self.width == old(self).width,
                self.height == old(self).height,
                old(self).wf(),
                new_y < self.height,
                forall|cx: int, cy: int|
                    0 <= cx < self.width && 0 <= cy < self.height ==> (#[trigger] self@[cx][cy])
                        == (old(self)@[cx][cy] != (cy == new_y && cx - x < offset_x && row_bit(
                        bits,
                        cx - x,
                    ))),
                flag <= 1,
                flag == 1 <==> exists|cx: int|
                    0 <= cx < self.width && (#[trigger] old(self)@[cx])[new_y as int] && cx - x
                        < offset_x && row_bit(bits, cx - x),
            decreases 8 - offset_x,
        {
            let new_x = x + offset_x;
            let shift: u8 = 7 - offset_x as u8;
            let ghost before = *self;
            let ghost flag_before = flag;
            let lit = (bits >> shift) & 1 == 1;
            assert(lit == row_bit(bits, offset_x as int));
            assert(before@[new_x as int][new_y as int] == old(self)@[new_x as int][new_y as int]);
            assert(before@[new_x as int][new_y as int] == (before.grid@[new_x as int]@[new_y as int]
                != 0));
            if lit {
                if self.grid[new_x][new_y] == 1 {
                    self.grid[new_x][new_y] = 0;
                    flag = 1;
                } else {
                    self.grid[new_x][new_y] = 1;
                }
            }
            offset_x += 1;
            proof {
                assert forall|cx: int, cy: int|
                    0 <= cx < self.width && 0 <= cy < self.height implies (#[trigger] self@[cx][cy])
                    == (old(self)@[cx][cy] != (cy == new_y && cx - x < offset_x && row_bit(
                    bits,
                    cx - x,
                ))) by {
                    assert(before@[cx][cy] == (old(self)@[cx][cy] != (cy == new_y && cx - x
                        < offset_x - 1 && row_bit(bits, cx - x))));
                    if cx == new_x && cy == new_y {
                    } else {
                        assert(self.grid@[cx]@[cy] == before.grid@[cx]@[cy]);
                    }
                }
                if lit && old(self)@[new_x as int][new_y as int] {
                    assert(0 <= new_x < self.width && old(self)@[new_x as int][new_y as int]
                        && new_x - x < offset_x && row_bit(bits, new_x - x));
                } else if flag_before == 1 {
                    let cx = choose|cx: int|
                        0 <= cx < self.width && (#[trigger] old(self)@[cx])[new_y as int] && cx
                            - x < offset_x - 1 && row_bit(bits, cx - x);
                    assert(0 <= cx < self.width && old(self)@[cx][new_y as int] && cx - x
                        < offset_x && row_bit(bits, cx - x));
                } else {
                    assert forall|cx: int|
                        0 <= cx < self.width && (#[trigger] old(self)@[cx])[new_y as int] && cx
                            - x < offset_x implies !row_bit(bits, cx - x) by {
                        if cx - x < offset_x - 1 {
                        } else {
                            assert(cx == new_x);
                        }
                    }
                }
            }
        }
        flag
    }

    /// Draws the first `n` rows of `data` as a sprite with its top-left corner
    /// at column `x`, row `y`, and returns 1 if that turned a pixel off, else 0.
    pub fn draw(&mut self, x: usize, y: usize, n: usize, data: &[u8]) -> (flag: u8)
        requires
            old(self).wf(),
        ensures
            final(self).wf(),
            final(self).spec_width() == old(self).spec_width(),
            final(self).spec_height() == old(self).spec_height(),
            final(self)@ == drawn(old(self)@, x as int, y as int, sprite_rows(data@, n as int)),
            flag == (if collides(old(self)@, x as int, y as int, sprite_rows(data@, n as int)) {
                1u8
            } else {
                0u8
            }),
    {
        let ghost rows = sprite_rows(data@, n as int);
        let count = if n < data.len() {
            n
        } else {
            data.len()
        };
        let mut flag: u8 = 0;
        let mut offset_y: usize = 0;
        while offset_y < count && y < self.height && offset_y < self.height - y
            invariant
                offset_y <= count,
                count == rows.len(),
                count <= data@.len(),
                forall|k: int| 0 <= k < count ==> rows[k] == data@[k],
                self.wf(),
                old(self).wf(),
                self.width == old(self).width,
                self.height == old(self).height,
                forall|cx: int, cy: int|
                    0 <= cx < self.width && 0 <= cy < self.height ==> (#[trigger] self@[cx][cy])
                        == (old(self)@[cx][cy] != (cy - y < offset_y && sprite_bit(
                        rows,
                        cx - x,
                        cy - y,
                    ))),
                flag <= 1,
                flag == 1 <==> exists|cx: int, cy: int|
                    cy - y < offset_y && #[trigger] erases(
                        old(self)@,
                        x as int,
                        y as int,
                        rows,
                        cx,
                        cy,
                    ),
            decreases count - offset_y,
        {
            let new_y = y + offset_y;
            let ghost before = *self;
            let ghost flag_before = flag;
            let row_flag = self.draw_row(x, new_y, data[offset_y]);
            if row_flag == 1 {
                flag = 1;
            }
            offset_y += 1;
            proof {
                let bits = data@[offset_y - 1];
                assert(rows[offset_y - 1] == bits);
                assert forall|cx: int, cy: int|
                    0 <= cx < self.width && 0 <= cy < self.height implies (#[trigger] self@[cx][cy])
                    == (old(self)@[cx][cy] != (cy - y < offset_y && sprite_bit(
                    rows,
                    cx - x,
                    cy - y,
                ))) by {
                    assert(before@[cx][cy] == (old(self)@[cx][cy] != (cy - y < offset_y - 1
                        && sprite_bit(rows, cx - x, cy - y))));
                }
                if row_flag == 1 {
                    let cx = choose|cx: int|
                        0 <= cx < before.width && (#[trigger] before@[cx])[new_y as int]
                            && row_bit(bits, cx - x);
                    assert(before@[cx][new_y as int]);
                    assert(erases(old(self)@, x as int, y as int, rows, cx, new_y as int));
                } else if flag_before == 1 {
                    let (cx, cy) = choose|cx: int, cy: int|
                        cy - y < offset_y - 1 && #[trigger] erases(
                            old(self)@,
                            x as int,
                            y as int,
                            rows,
                            cx,
                            cy,
                        );
                    assert(cy - y < offset_y && erases(
                        old(self)@,
                        x as int,
                        y as int,
                        rows,
                        cx,
                        cy,
                    ));
                } else {
                    assert forall|cx: int, cy: int|
                        cy - y < offset_y implies !#[trigger] erases(
                        old(self)@,
                        x as int,
                        y as int,
                        rows,
                        cx,
                        cy,
                    ) by {
                        if erases(old(self)@, x as int, y as int, rows, cx, cy) {
                            if cy - y < offset_y - 1 {
                            } else {
                                assert(cy == new_y);
                                assert(before@[cx][cy] == old(self)@[cx][cy]);
                                assert(before@[cx][new_y as int] && row_bit(bits, cx - x));
                            }
                        }
                    }
                }
            }
        }
        proof {
            let target = drawn(old(self)@, x as int, y as int, rows);
            assert forall|cx: int| 0 <= cx < self@.len() implies #[trigger] self@[cx]
                == target[cx] by {
                assert forall|cy: int| 0 <= cy < self@[cx].len() implies self@[cx][cy]
                    == target[cx][cy] by {
                    assert(self@[cx][cy] == (old(self)@[cx][cy] != (cy - y < offset_y
                        && sprite_bit(rows, cx - x, cy - y))));
                }
                assert(self@[cx] =~= target[cx]);
            }
            assert(self@ =~= target);
            if flag == 1 {
                let (cx, cy) = choose|cx: int, cy: int|
                    cy - y < offset_y && #[trigger] erases(
                        old(self)@,
                        x as int,
                        y as int,
                        rows,
                        cx,
                        cy,
                    );
                assert(erases(old(self)@, x as int, y as int, rows, cx, cy));
            } else {
                assert forall|cx: int, cy: int| !#[trigger] erases(
                    old(self)@,
                    x as int,
                    y as int,
                    rows,
                    cx,
                    cy,
                ) by {
                    if erases(old(self)@, x as int, y as int, rows, cx, cy) {
                        assert(cy - y < offset_y);
                    }
                }
            }
        }
        flag
    }

    /// Turns every pixel off.
    pub fn clear(&mut self)
        requires
            old(self).wf(),
        ensures
            final(self).wf(),
            final(self).spec_width() == old(self).spec_width(),
            final(self).spec_height() == old(self).spec_height(),
            final(self)@ == blank(old(self).spec_width() as nat, old(self).spec_height() as nat),
    {
        self.grid = Self::empty_grid(self.width, self.height);
        assert(self@ =~~= blank(self.width as nat, self.height as nat));
    }

    /// The cells as the renderer reads them: one `Vec` for each column, 1 for
    /// a pixel that is on and 0 for one that is off.
    pub fn get_grid(&self) -> (grid: &[Vec<u8>])
        requires
            self.wf(),
        ensures
            grid@.len() == self.spec_width(),
            forall|x: int| 0 <= x < grid@.len() ==> (#[trigger] grid@[x])@.len() == self.spec_height(),
            forall|x: int, y: int|
                0 <= x < self.spec_width() && 0 <= y < self.spec_height() ==> (
                #[trigger] grid@[x]@[y]) == (if self@[x][y] {
                    1u8
                } else {
                    0u8
                }),
    {
        self.grid.as_slice()
    }

    pub fn width(&self) -> (width: usize)
        ensures
            width == self.spec_width(),
    {
        self.width
    }

    pub fn height(&self) -> (height: usize)
        ensures
            height == self.spec_height(),
    {
        self.height
    }
}

} // verus!
