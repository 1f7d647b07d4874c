use vstd::prelude::*;

verus! {

/// A 32-bit unsigned double word.
pub type DWORD = u32;

/// A 16-bit unsigned word.
pub type WORD = u16;

/// The value carried by a window message in its `lParam` slot.
#[derive(Clone, Copy, Debug, PartialEq, Eq, Structural)]
pub struct LParam(pub isize);

/// The value carried by a window message in its `wParam` slot.
#[derive(Clone, Copy, Debug, PartialEq, Eq, Structural)]
pub struct WParam(pub usize);

/// The low 16 bits of a double word.
pub open spec fn low_word(l: u32) -> u16 {
    (l % 0x10000) as u16
}

/// The high 16 bits of a double word.
pub open spec fn high_word(l: u32) -> u16 {
    (l / 0x10000) as u16
}

/// A word read as a two's-complement signed 16-bit number.
pub open spec fn signed_word(w: u16) -> int {
    if w < 0x8000 {
        w as int
    } else {
        w - 0x10000
    }
}

/// The x coordinate packed in the low word of an `lParam`.
pub open spec fn lparam_x(lp: isize) -> int {
    signed_word(low_word(lp as u32))
}

/// The y coordinate packed in the high word of an `lParam`.
pub open spec fn lparam_y(lp: isize) -> int {
    signed_word(high_word(lp as u32))
}

/// The double word that holds `x` in its low word and `y` in its high word,
/// each as a two's-complement 16-bit number.
pub open spec fn packed_coordinates(x: int, y: int) -> u32 {
    ((y % 0x10000) * 0x10000 + (x % 0x10000)) as u32
}

/// Returns the high word of `l`.
#[allow(non_snake_case)]
pub fn HIWORD(l: DWORD) -> (w: WORD)
    ensures
        w == high_word(l),
{
    assert(((l >> 16u32) & 0xffffu32) == l / 0x10000) by (bit_vector);
    ((l >> 16u32) & 0xffffu32) as WORD
}

/// Returns the low word of `l`.
#[allow(non_snake_case)]
pub fn LOWORD(l: DWORD) -> (w: WORD)
    ensures
        w == low_word(l),
{
    assert((l & 0xffffu32) == l % 0x10000) by (bit_vector);
    (l & 0xffffu32) as WORD
}

/// Reads a word as a signed 16-bit number, widened to 32 bits.
fn word_as_signed(w: WORD) -> (r: i32)
    ensures
        r == signed_word(w),
{
    assert((w as i16) as int == (if w < 0x8000u16 { w as int } else { w - 0x10000 }))
        by (bit_vector);
    w as i16 as i32
}

/// The signed x coordinate in the low word of `lp`, as a mouse message carries it.
#[allow(non_snake_case)]
pub fn GET_X_LPARAM(lp: LParam) -> (x: i32)
    ensures
        x == lparam_x(lp.0),
{
    word_as_signed(LOWORD(lp.0 as u32))
}

/// The signed y coordinate in the high word of `lp`, as a mouse message carries it.
#[allow(non_snake_case)]
pub fn GET_Y_LPARAM(lp: LParam) -> (y: i32)
    ensures
        y == lparam_y(lp.0),
{
    word_as_signed(HIWORD(lp.0 as u32))
}

/// Splitting a double word into its high and low words loses nothing:
/// the high word times 2^16 plus the low word gives the double word back.
pub proof fn lemma_words_recompose(l: u32)
    ensures
        high_word(l) * 0x10000 + low_word(l) == l,
{
}

/// Two signed 16-bit coordinates packed into the low 32 bits of an `lParam`
/// (x in the low word, y in the high word) are read back unchanged.
pub proof fn lemma_coordinates_round_trip(x: i16, y: i16, lp: isize)
    requires
        lp as u32 == packed_coordinates(x as int, y as int),
    ensures
        lparam_x(lp) == x,
        lparam_y(lp) == y,
{
    let hx = x as int % 0x10000;
    let hy = y as int % 0x10000;
    assert(0 <= hx < 0x10000 && 0 <= hy < 0x10000);
    assert(hx == (if x >= 0 { x as int } else { x + 0x10000 }));
    assert(hy == (if y >= 0 { y as int } else { y + 0x10000 }));
    let p = hy * 0x10000 + hx;
    assert(p % 0x10000 == hx && p / 0x10000 == hy) by (nonlinear_arith)
        requires
            p == hy * 0x10000 + hx,
            0 <= hx < 0x10000,
    ;
}

} // verus!
