use vstd::prelude::*;

verus! {

/// Width of the display in pixels.
pub const WIDTH: usize = 64;

/// Height of the display in pixels.
pub const HEIGHT: usize = 32;

/// Position of pixel (`px`, `py`) in the row-major pixel sequence.
pub open spec fn at(px: int, py: int) -> int {
    py * 64 + px
}

/// Whether bit `c` of a sprite row is set, counting from the most significant bit.
pub open spec fn bit_set(b: u8, c: int) -> bool {
    (b >> ((7 - c) as u8)) & 1u8 == 1u8
}

/// Whether the sprite `rows` drawn at (`x`, `y`) has a set bit over pixel (`px`, `py`).
pub open spec fn covers(x: int, y: int, rows: Seq<u8>, px: int, py: int) -> bool {
    &&& x <= px < x + 8
    &&& y <= py < y + rows.len()
    &&& bit_set(rows[py - y], px - x)
}

pub open spec fn on_screen(px: int, py: int) -> bool {
    0 <= px < WIDTH && 0 <= py < HEIGHT
}

/// The pixels after XOR-drawing `rows` at (`x`, `y`); what falls outside the display is dropped.
pub open spec fn drawn(pixels: Seq<bool>, x: int, y: int, rows: Seq<u8>) -> Seq<bool> {
    Seq::new(
        pixels.len(),
        |p: int| pixels[p] != covers(x, y, rows, p % 64, p / 64),
    )
}

/// Whether drawing `rows` at (`x`, `y`) turns off a lit pixel.
pub open spec fn collides(pixels: Seq<bool>, x: int, y: int, rows: Seq<u8>) -> bool {
    exists|px: int, py: int|
        on_screen(px, py) && #[trigger] covers(x, y, rows, px, py) && pixels[at(px, py)]
}

pub open spec fn blank() -> Seq<bool> {
    Seq::new((WIDTH * HEIGHT) as nat, |p: int| false)
}

proof fn lemma_at(px: int, py: int)
    requires
        on_screen(px, py),
    ensures
        0 <= at(px, py) < WIDTH * HEIGHT,
        at(px, py) % 64 == px,
        at(px, py) / 64 == py,
{
    assert(0 <= at(px, py) < WIDTH * HEIGHT) by (nonlinear_arith)
        requires
            0 <= px < 64,
            0 <= py < 32,
    ;
    assert(at(px, py) % 64 == px && at(px, py) / 64 == py) by (nonlinear_arith)
        requires
            0 <= px < 64,
            0 <= py < 32,
    ;
}

proof fn lemma_pos(p: int)
    requires
        0 <= p < WIDTH * HEIGHT,
    ensures
        on_screen(p % 64, p / 64),
        at(p % 64, p / 64) == p,
{
}

/// The eight pixels of a sprite row, leftmost first: 1 for a set bit, 0 otherwise.
pub fn bitarray(byte: u8) -> (r: Vec<u8>)
    ensures
        r@.len() == 8,
        forall|c: int| 0 <= c < 8 ==> #[trigger] r@[c] == if bit_set(byte, c) { 1u8 } else { 0u8 },
{
    let mut s: Vec<u8> = Vec::new();
    let mut n: usize = 0;
    while n < 8
        invariant
            n <= 8,
            s@.len() == n,
            forall|c: int| 0 <= c < n ==> #[trigger] s@[c] == if bit_set(byte, c) { 1u8 } else { 0u8 },
        decreases 8 - n,
    {
        let bit: u8 = (byte >> ((7 - n) as u8)) & 1;
        assert(bit == 0 || bit == 1) by (bit_vector)
            requires
                bit == (byte >> ((7 - n) as u8)) & 1u8,
        ;
        s.push(bit);
        n = n + 1;
    }
    s
}

/// The display: 64 by 32 monochrome pixels.
pub struct Screen {
    pixels: Vec<bool>,
}

impl View for Screen {
    type V = Seq<bool>;

    closed spec fn view(&self) -> Seq<bool> {
        self.pixels@
    }
}

impl Screen {
    pub open spec fn wf(&self) -> bool {
        self@.len() == WIDTH * HEIGHT
    }

    /// A display with every pixel off.
    pub fn new() -> (r: Screen)
        ensures
            r.wf(),
            r@ == blank(),
    {
        let mut pixels: Vec<bool> = Vec::new();
        let mut n: usize = 0;
        while n < WIDTH * HEIGHT
            invariant
                n <= WIDTH * HEIGHT,
                pixels@.len() == n,
                forall|p: int| 0 <= p < n ==> !pixels@[p],
            decreases WIDTH * HEIGHT - n,
        {
            pixels.push(false);
            n = n + 1;
        }
        assert(pixels@ =~= blank());
        Screen { pixels }
    }

    /// Whether pixel (`x`, `y`) is lit.
    pub fn pixel(&self, x: usize, y: usize) -> (r: bool)
        requires
            self.wf(),
            x < WIDTH,
            y < HEIGHT,
        ensures
            r == self@[at(x as int, y as int)],
    {
        proof {
            lemma_at(x as int, y as int);
        }
        self.pixels[y * WIDTH + x]
    }

    /// Turns every pixel off.
    pub fn clear(&mut self)
        requires
            old(self).wf(),
        ensures
            final(self)@ == blank(),
    {
        let mut n: usize = 0;
        while n < WIDTH * HEIGHT
            invariant
                n <= WIDTH * HEIGHT,
                self.wf(),
                forall|p: int| 0 <= p < n ==> !self@[p],
            decreases WIDTH * HEIGHT - n,
        {
            self.pixels.set(n, false);
            n = n + 1;
        }
        assert(self@ =~= blank());
    }

    /// XOR-draws the sprite `rows` with its top left corner at (`x`, `y`): one byte per row,
    /// most significant bit leftmost. Returns 1 if a lit pixel was turned off, else 0.
    pub fn draw(&mut self, x: u8, y: u8, rows: &Vec<u8>) -> (r: u8)
        requires
            old(self).wf(),
        ensures
            final(self).wf(),
            final(self)@ == drawn(old(self)@, x as int, y as int, rows@),
            r == (if collides(old(self)@, x as int, y as int, rows@) { 1u8 } else { 0u8 }),
    {
        let ghost start = self@;
        let ghost xi = x as int;
        let ghost yi = y as int;
        let mut vf: u8 = 0;
        let mut r: usize = 0;
        while r < rows.len()
            invariant
                self.wf(),
                start.len() == WIDTH * HEIGHT,
                xi == x as int,
                yi == y as int,
                r <= rows@.len(),
                forall|px: int, py: int|
                    on_screen(px, py) ==> #[trigger] self@[at(px, py)] == (start[at(px, py)]
                        != (covers(xi, yi, rows@, px, py) && py < yi + r)),
                vf == 0 || vf == 1,
                vf == 1 <==> exists|px: int, py: int|
                    on_screen(px, py) && #[trigger] covers(xi, yi, rows@, px, py) && py < yi + r
                        && start[at(px, py)],
            decreases rows@.len() - r,
        {
            let b = rows[r];
            let bits = bitarray(b);
            let mut c: usize = 0;
            while c < 8
                invariant
                    self.wf(),
                    start.len() == WIDTH * HEIGHT,
                    xi == x as int,
                    yi == y as int,
                    r < rows@.len(),
                    b == rows@[r as int],
                    bits@.len() == 8,
                    forall|k: int| 0 <= k < 8 ==> #[trigger] bits@[k] == if bit_set(b, k) { 1u8 } else { 0u8 },
                    c <= 8,
                    forall|px: int, py: int|
                        on_screen(px, py) ==> #[trigger] self@[at(px, py)] == (start[at(px, py)]
                            != (covers(xi, yi, rows@, px, py) && (py < yi + r || (py == yi + r
                            && px < xi + c)))),
                    vf == 0 || vf == 1,
                    vf == 1 <==> exists|px: int, py: int|
                        on_screen(px, py) && #[trigger] covers(xi, yi, rows@, px, py) && (py < yi
                            + r || (py == yi + r && px < xi + c)) && start[at(px, py)],
                decreases 8 - c,
            {
                let cx: usize = x as usize + c;
                let bit: u8 = bits[c];
                if cx < WIDTH && r < HEIGHT && y as usize + r < HEIGHT {
                    let cy: usize = y as usize + r;
                    assert(rows@[cy - yi] == b);
                    assert(bit_set(b, cx - xi) == (bit == 1));
                    proof {
                        lemma_at(cx as int, cy as int);
                    }
                    let q = cy * WIDTH + cx;
                    let cur = self.pixels[q];
                    assert(covers(xi, yi, rows@, cx as int, cy as int) == (bit == 1));
                    if bit == 1 {
                        if cur {
                            vf = 1;
                        }
                        self.pixels.set(q, !cur);
                    }
                    proof {
                        assert forall|px: int, py: int| on_screen(px, py) && (px != cx || py != cy) implies
                            at(px, py) != q by {
                            lemma_at(px, py);
                        }
                    }
                }
                c = c + 1;
            }
            r = r + 1;
        }
        proof {
            assert forall|p: int| 0 <= p < WIDTH * HEIGHT implies self@[p] == drawn(start, xi, yi, rows@)[p] by {
                lemma_pos(p);
            }
            assert(self@ =~= drawn(start, xi, yi, rows@));
        }
        vf
    }
}

} // verus!
