//! Lines of terminal output, with the colours of their pieces.

use vstd::prelude::*;

verus! {

/// How a piece of a line is shown.
#[derive(Debug, Clone, Copy, PartialEq, Eq, Structural)]
pub enum Paint {
    Plain,
    Bold,
    Dimmed,
    Cyan,
    CyanBold,
    CyanUnderline,
    GreenBold,
    RedBold,
    Yellow,
    YellowBold,
}

/// A piece of a line.
#[derive(Debug)]
pub struct Piece {
    pub paint: Paint,
    pub text: String,
}

/// A line of output; a painter shows its pieces one behind the other.
#[derive(Debug)]
pub struct Line {
    pub pieces: Vec<Piece>,
}

impl View for Piece {
    type V = (Paint, Seq<char>);

    open spec fn view(&self) -> (Paint, Seq<char>) {
        (self.paint, self.text@)
    }
}

impl View for Line {
    type V = Seq<(Paint, Seq<char>)>;

    open spec fn view(&self) -> Seq<(Paint, Seq<char>)> {
        self.pieces@.map_values(|p: Piece| p@)
    }
}

/// The values of `lines`.
pub open spec fn shown(lines: Seq<Line>) -> Seq<Seq<(Paint, Seq<char>)>> {
    lines.map_values(|l: Line| l@)
}

/// The line that tells of a failure.
pub open spec fn error_pieces(message: Seq<char>) -> Seq<(Paint, Seq<char>)> {
    seq![(Paint::RedBold, "Error:"@), (Paint::Plain, " "@ + message)]
}

/// The lines that end in `last`.
pub proof fn lemma_shown_push(lines: Seq<Line>, last: Line)
    ensures
        shown(lines.push(last)) == shown(lines).push(last@),
{
    assert(shown(lines.push(last)) =~= shown(lines).push(last@));
}

impl Line {
    /// The line of one piece.
    pub fn of(paint: Paint, text: &str) -> (r: Line)
        ensures
            r@ == seq![(paint, text@)],
    {
        let mut r = Line { pieces: Vec::new() };
        r.add(paint, text);
        assert(r@ =~= seq![(paint, text@)]);
        r
    }

    /// Appends a piece.
    pub fn add(&mut self, paint: Paint, text: &str)
        ensures
            final(self)@ == old(self)@.push((paint, text@)),
    {
        self.pieces.push(Piece { paint, text: text.to_owned() });
        assert(self@ =~= old(self)@.push((paint, text@)));
    }
}

/// The line that tells of a failure; the program ends behind it with exit status 1.
pub fn error_line(message: &str) -> (r: Line)
    ensures
        r@ == error_pieces(message@),
{
    let mut rest: String = " ".to_owned();
    rest.append(message);
    let mut r = Line::of(Paint::RedBold, "Error:");
    r.add(Paint::Plain, rest.as_str());
    assert(r@ =~= error_pieces(message@));
    r
}

} // verus!
