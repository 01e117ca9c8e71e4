//! The monochrome 64 x 32 display and its XOR sprite blit.
use vstd::prelude::*;

verus! {

pub const SCREEN_WIDTH: usize = 64;

pub const SCREEN_HEIGHT: usize = 32;

pub const SCREEN_SIZE: usize = SCREEN_WIDTH * SCREEN_HEIGHT;

/// Whether pixel `p` (row-major index) lies under a set bit of the sprite
/// `rows` drawn with its top-left corner at (`x`, `y`).
///
/// The starting coordinates wrap around the grid (`x` modulo 64, `y` modulo
/// 32); the sprite itself is clipped at the right and bottom edges.
pub open spec fn sprite_covers(rows: Seq<u8>, x: u8, y: u8, p: int) -> bool {
    let col = p % 64 - x % 64;
    let row = p / 64 - y % 32;
    &&& 0 <= col < 8
    &&& 0 <= row < rows.len()
    &&& (rows[row] >> ((7 - col) as u8)) & 1u8 == 1u8
}

/// The grid after XOR-blitting `rows` at (`x`, `y`): each covered pixel toggles.
pub open spec fn blit(display: Seq<bool>, rows: Seq<u8>, x: u8, y: u8) -> Seq<bool> {
    Seq::new(display.len(), |p: int| display[p] != sprite_covers(rows, x, y, p))
}

/// Whether blitting `rows` at (`x`, `y`) turns some set pixel off.
pub open spec fn collides(display: Seq<bool>, rows: Seq<u8>, x: u8, y: u8) -> bool {
    exists|p: int| 0 <= p < display.len() && #[trigger] sprite_covers(rows, x, y, p) && display[p]
}

#[derive(Clone, Copy)]
pub struct Screen {
    /// The pixels, row-major: pixel (col, row) is `display[row * 64 + col]`.
    pub display: [bool; SCREEN_SIZE],
}

impl Screen {
    pub fn new() -> (s: Screen)
        ensures
            forall|p: int| 0 <= p < SCREEN_SIZE ==> !s.display@[p],
    {
        Screen { display: [false; SCREEN_SIZE] }
    }

    /// Turns every pixel off.
    pub fn clear_screen(&mut self)
        ensures
            forall|p: int| 0 <= p < SCREEN_SIZE ==> !final(self).display@[p],
    {
        self.display = [false; SCREEN_SIZE];
    }

    /// XOR-blits the sprite `data` (one byte per row, most significant bit
    /// leftmost) at (`start_x`, `start_y`); returns whether a set pixel was
    /// turned off.
    pub fn update_screen_state(&mut self, start_x: u8, start_y: u8, data: Vec<u8>) -> (flipped:
        bool)
        ensures
            final(self).display@ == blit(old(self).display@, data@, start_x, start_y),
            flipped == collides(old(self).display@, data@, start_x, start_y),
    {
        let x0 = (start_x % 64) as usize;
        let y0 = (start_y % 32) as usize;
        let mut flipped = false;
        let mut p: usize = 0;
        while p < SCREEN_SIZE
            invariant
                p <= SCREEN_SIZE,
                x0 == start_x % 64,
                y0 == start_y % 32,
                forall|q: int|
                    0 <= q < p ==> self.display@[q] == (old(self).display@[q] != sprite_covers(
                        data@,
                        start_x,
                        start_y,
                        q,
                    )),
                forall|q: int| p <= q < SCREEN_SIZE ==> self.display@[q] == old(self).display@[q],
                flipped == exists|q: int|
                    0 <= q < p && #[trigger] sprite_covers(data@, start_x, start_y, q)
                        && old(self).display@[q],
            decreases SCREEN_SIZE - p,
        {
            let col = p % 64;
            let row = p / 64;
            let mut covered = false;
            if col >= x0 && col - x0 < 8 && row >= y0 && row - y0 < data.len() {
                let shift = (7 - (col - x0)) as u8;
                covered = (data[row - y0] >> shift) & 1u8 == 1u8;
            }
            assert(covered == sprite_covers(data@, start_x, start_y, p as int));
            if covered {
                if self.display[p] {
                    flipped = true;
                }
                self.display[p] = !self.display[p];
            }
            p += 1;
        }
        proof {
            assert(self.display@ =~= blit(old(self).display@, data@, start_x, start_y));
        }
        flipped
    }
}

} // verus!
