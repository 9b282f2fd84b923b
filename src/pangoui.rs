//! The keyboard's geometry: its size and the hit-test from a surface-local
//! position to a keycode.
use vstd::prelude::*;

verus! {

/// The keycode of the region that toggles the minimized state.
pub const MINIMIZE_KEYCODE: u32 = 11;

/// Evdev keycode of the digit key `1`; the digits up to `9` follow it.
pub const FIRST_DIGIT_KEYCODE: u32 = 2;

/// Integer division that rounds toward zero, as `/` on machine integers does.
pub open spec fn div_toward_zero(a: int, b: int) -> int {
    if a >= 0 {
        a / b
    } else {
        -((-a) / b)
    }
}

/// An index brought into the pad's range `0..=2`.
pub open spec fn clamp_index(v: int) -> int {
    if v < 0 {
        0
    } else if v > 2 {
        2
    } else {
        v
    }
}

/// The number pad: three rows of three digit keys, `1 2 3` on top. A row or
/// column past the pad's edge falls to the nearest one, so every position of
/// the grid has a key.
pub open spec fn pad_key(row: int, col: int) -> u32 {
    (FIRST_DIGIT_KEYCODE + 3 * clamp_index(row) + clamp_index(col)) as u32
}

/// The side of one key: a third of the keyboard's height.
pub open spec fn key_step(height: int) -> int {
    height / 3
}

/// Left edge of the key grid.
pub open spec fn grid_left(width: int, height: int) -> int {
    width - 4 * key_step(height)
}

/// Right edge of the key grid.
pub open spec fn grid_right(width: int, height: int) -> int {
    width - key_step(height)
}

/// The keycode under `(x, y)` on a keyboard of the given size.
pub open spec fn key_at(width: int, height: int, x: int, y: int) -> Option<u32> {
    let step = key_step(height);
    if step <= 0 {
        None
    } else if x < grid_left(width, height) {
        None
    } else if x > grid_right(width, height) {
        if div_toward_zero(y, step) == 1 {
            Some(MINIMIZE_KEYCODE)
        } else {
            None
        }
    } else {
        Some(pad_key(div_toward_zero(y, step), (x - grid_left(width, height)) / step))
    }
}

fn div_toward_zero_exec(a: i64, b: i64) -> (r: i64)
    requires
        b > 0,
        a > i64::MIN,
    ensures
        r == div_toward_zero(a as int, b as int),
{
    if a >= 0 {
        a / b
    } else {
        let n: i64 = -a;
        -(n / b)
    }
}

fn clamp_index_exec(v: i64) -> (r: i64)
    ensures
        r == clamp_index(v as int),
{
    if v < 0 {
        0
    } else if v > 2 {
        2
    } else {
        v
    }
}

fn pad_key_exec(row: i64, col: i64) -> (r: u32)
    ensures
        r == pad_key(row as int, col as int),
{
    let row = clamp_index_exec(row);
    let col = clamp_index_exec(col);
    FIRST_DIGIT_KEYCODE + 3 * (row as u32) + (col as u32)
}

/// The keyboard surface's size in pixels.
#[derive(Clone, Copy, Debug)]
pub struct PangoUi {
    width: i32,
    height: i32,
}

impl View for PangoUi {
    type V = (i32, i32);

    closed spec fn view(&self) -> (i32, i32) {
        (self.width, self.height)
    }
}

impl Default for PangoUi {
    fn default() -> (r: PangoUi)
        ensures
            r@ == (0i32, 0i32),
    {
        PangoUi::new()
    }
}

impl PangoUi {
    pub fn new() -> (r: PangoUi)
        ensures
            r@ == (0i32, 0i32),
    {
        PangoUi { width: 0, height: 0 }
    }

    pub fn set_size(&mut self, size: (i32, i32))
        ensures
            final(self)@ == size,
    {
        let (width, height) = size;
        self.width = width;
        self.height = height;
    }

    pub fn get_size(&self) -> (r: (i32, i32))
        ensures
            r == self@,
    {
        (self.width, self.height)
    }

    /// The keycode under a surface-local position, if any.
    pub fn get_key(&self, pos: (i32, i32)) -> (r: Option<u32>)
        ensures
            r == key_at(self@.0 as int, self@.1 as int, pos.0 as int, pos.1 as int),
            self@.1 >= 3 && grid_left(self@.0 as int, self@.1 as int) <= pos.0 <= grid_right(
                self@.0 as int,
                self@.1 as int,
            ) ==> r is Some,
    {
        let (pos_x, pos_y) = pos;
        let step: i64 = self.height as i64 / 3;
        if step <= 0 {
            return None;
        }
        let x_1: i64 = self.width as i64 - 4 * step;
        let x_4: i64 = self.width as i64 - step;
        let x: i64 = pos_x as i64;
        let row = div_toward_zero_exec(pos_y as i64, step);
        if x < x_1 {
            None
        } else if x > x_4 {
            if row == 1 {
                Some(MINIMIZE_KEYCODE)
            } else {
                None
            }
        } else {
            Some(pad_key_exec(row, (x - x_1) / step))
        }
    }
}

/// The hit-test depends on the size and the position alone: two keyboards of
/// one size agree at every position.
pub proof fn lemma_hit_test_deterministic(a: PangoUi, b: PangoUi, x: i32, y: i32)
    requires
        a@ == b@,
    ensures
        key_at(a@.0 as int, a@.1 as int, x as int, y as int) == key_at(
            b@.0 as int,
            b@.1 as int,
            x as int,
            y as int,
        ),
{
}

/// Left of the grid nothing is hit; inside it every position has a key; right
/// of it only the middle third of the height is hit, and it gives the
/// minimize key.
pub proof fn lemma_hit_test_edges(width: i32, height: i32, x: i32, y: i32)
    requires
        height >= 3,
    ensures
        x < grid_left(width as int, height as int) ==> key_at(
            width as int,
            height as int,
            x as int,
            y as int,
        ) is None,
        grid_left(width as int, height as int) <= x <= grid_right(width as int, height as int)
            ==> key_at(width as int, height as int, x as int, y as int) is Some,
        x > grid_right(width as int, height as int) ==> (key_at(
            width as int,
            height as int,
            x as int,
            y as int,
        ) == if div_toward_zero(y as int, key_step(height as int)) == 1 {
            Some(MINIMIZE_KEYCODE)
        } else {
            None::<u32>
        }),
        x > grid_right(width as int, height as int) && key_step(height as int) <= y < 2
            * key_step(height as int) ==> key_at(width as int, height as int, x as int, y as int)
            == Some(MINIMIZE_KEYCODE),
        x > grid_right(width as int, height as int) && (y < key_step(height as int) || y >= 2
            * key_step(height as int)) ==> key_at(width as int, height as int, x as int, y as int)
            is None,
{
    let s = key_step(height as int);
    let yi = y as int;
    assert(s >= 1);
    if s <= yi < 2 * s {
        lemma_quotient_one(yi, s);
    }
    if 0 <= yi < s {
        assert(yi / s == 0) by (nonlinear_arith)
            requires
                0 <= yi < s,
        ;
    }
    if yi >= 2 * s {
        assert(yi / s >= 2) by (nonlinear_arith)
            requires
                yi >= 2 * s,
                s >= 1,
        ;
    }
}

proof fn lemma_quotient_one(y: int, s: int)
    requires
        s >= 1,
        s <= y < 2 * s,
    ensures
        y / s == 1,
{
    assert(y / s == 1) by (nonlinear_arith)
        requires
            s >= 1,
            s <= y < 2 * s,
    ;
}

} // verus!
