use vstd::prelude::*;
use crate::color::{Color, RED};
use crate::text::{
    decimal, push_decimal_i32, is_numeral, is_signed_numeral, numeral_value, signed_numeral_value,
    lemma_decimal_reads_back,
};

verus! {

/// The program's command-line options (there are none yet).
#[derive(Clone, Copy, Debug, PartialEq, Eq, Structural)]
pub struct PolyDrawCommandLine {}

/// Reads the command-line options from the program's arguments; every
/// argument is accepted and none changes an option.
pub fn build_command_line(args: &Vec<String>) -> (c: PolyDrawCommandLine)
    ensures
        c == (PolyDrawCommandLine {}),
{
    PolyDrawCommandLine {}
}

/// A line to draw: its two end points in client coordinates, the pen colour
/// and the pen width in pixels.
pub struct Stroke {
    pub from: (i32, i32),
    pub to: (i32, i32),
    pub color: Color,
    pub width: u32,
}

/// The line-drawing handler: it reports keyboard and mouse input as text
/// lines and paints one red line.
#[derive(Clone, Copy, Debug, PartialEq, Eq, Structural)]
pub struct PolyD {}

/// The report line for a pressed key.
pub open spec fn key_down_line(key: u8) -> Seq<char> {
    "Pressed key "@ + decimal(key as int)
}

/// The report line for a mouse event, `label` followed by its coordinates.
pub open spec fn mouse_line(label: Seq<char>, x: i32, y: i32) -> Seq<char> {
    label + decimal(x as int) + ", Y: "@ + decimal(y as int)
}

/// Builds `label` followed by `x`, the text `, Y: ` and `y`.
fn coordinates_line(label: &str, x: i32, y: i32) -> (line: String)
    ensures
        line@ == mouse_line(label@, x, y),
{
    let mut line = String::new();
    line.append(label);
    push_decimal_i32(&mut line, x);
    line.append(", Y: ");
    push_decimal_i32(&mut line, y);
    assert(line@ =~= mouse_line(label@, x, y));
    line
}

impl PolyD {
    /// Makes the handler for the given command-line options.
    pub fn new(command_line: &PolyDrawCommandLine) -> (p: PolyD)
        ensures
            p == (PolyD {}),
    {
        PolyD {}
    }

    /// The client size of the drawing window: 640 by 480 pixels.
    pub fn window_size(&self) -> (size: (i32, i32))
        ensures
            size == (640i32, 480i32),
    {
        (640, 480)
    }

    /// The line reported when a key goes down: `Pressed key ` and its code.
    pub fn on_key_down(&mut self, key: u8) -> (line: String)
        ensures
            line@ == key_down_line(key),
            *final(self) == *old(self),
    {
        let mut line = String::new();
        line.append("Pressed key ");
        push_decimal_i32(&mut line, key as i32);
        assert(line@ =~= key_down_line(key));
        line
    }

    /// The line reported when the left button goes down at `x`, `y`.
    pub fn on_mouse_l_button_down(&mut self, x: i32, y: i32) -> (line: String)
        ensures
            line@ == mouse_line("MOUSE BUTTON LEFT DOWN X: "@, x, y),
            *final(self) == *old(self),
    {
        coordinates_line("MOUSE BUTTON LEFT DOWN X: ", x, y)
    }

    /// The line reported when the left button goes up at `x`, `y`.
    pub fn on_mouse_l_button_up(&mut self, x: i32, y: i32) -> (line: String)
        ensures
            line@ == mouse_line("MOUSE BUTTON LEFT UP X: "@, x, y),
            *final(self) == *old(self),
    {
        coordinates_line("MOUSE BUTTON LEFT UP X: ", x, y)
    }

    /// The line reported when the mouse moves to `x`, `y`.
    pub fn on_mouse_move(&mut self, x: i32, y: i32) -> (line: String)
        ensures
            line@ == mouse_line("MOUSE MOVE X: "@, x, y),
            *final(self) == *old(self),
    {
        coordinates_line("MOUSE MOVE X: ", x, y)
    }

    /// What to paint: a red line one pixel wide from (20, 50) to (200, 50).
    pub fn on_paint(&mut self) -> (s: Stroke)
        ensures
            s.from == (20i32, 50i32),
            s.to == (200i32, 50i32),
            s.color@ == RED,
            s.width == 1,
            *final(self) == *old(self),
    {
        Stroke { from: (20, 50), to: (200, 50), color: Color::from(RED), width: 1 }
    }
}

/// The line reported for a pressed key is `Pressed key ` followed by a
/// well-formed decimal numeral that reads back as the key code.
pub proof fn lemma_key_down_line_reads_back(key: u8)
    ensures
        key_down_line(key).len() > 12,
        key_down_line(key).subrange(0, 12) == "Pressed key "@,
        is_numeral(key_down_line(key).subrange(12, key_down_line(key).len() as int)),
        numeral_value(key_down_line(key).subrange(12, key_down_line(key).len() as int)) == key,
{
    reveal_strlit("Pressed key ");
    lemma_decimal_reads_back(key as int);
    let t = key_down_line(key);
    let d = decimal(key as int);
    assert(t.subrange(0, 12) =~= "Pressed key "@);
    assert(t.subrange(12, t.len() as int) =~= d);
}

/// The line reported for a mouse event is its label, a signed decimal
/// numeral that reads back as `x`, the text `, Y: `, and a signed decimal
/// numeral that reads back as `y`; `k` is where `, Y: ` starts.
pub proof fn lemma_mouse_line_reads_back(label: Seq<char>, x: i32, y: i32) -> (k: int)
    ensures
        label.len() < k,
        k + 5 < mouse_line(label, x, y).len(),
        mouse_line(label, x, y).subrange(0, label.len() as int) == label,
        mouse_line(label, x, y).subrange(k, k + 5) == ", Y: "@,
        is_signed_numeral(mouse_line(label, x, y).subrange(label.len() as int, k)),
        signed_numeral_value(mouse_line(label, x, y).subrange(label.len() as int, k)) == x,
        is_signed_numeral(mouse_line(label, x, y).subrange(k + 5, mouse_line(label, x, y).len() as int)),
        signed_numeral_value(mouse_line(label, x, y).subrange(k + 5, mouse_line(label, x, y).len() as int)) == y,
{
    reveal_strlit(", Y: ");
    lemma_decimal_reads_back(x as int);
    lemma_decimal_reads_back(y as int);
    let t = mouse_line(label, x, y);
    let dx = decimal(x as int);
    let dy = decimal(y as int);
    let k: int = (label.len() + dx.len()) as int;
    assert(t.subrange(0, label.len() as int) =~= label);
    assert(t.subrange(label.len() as int, k) =~= dx);
    assert(t.subrange(k, k + 5) =~= ", Y: "@);
    assert(t.subrange(k + 5, t.len() as int) =~= dy);
    k
}

} // verus!
