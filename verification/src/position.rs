//! Where a label sits on the frame, and the overlay coordinates that place it
//! there.

use crate::text::{decimal, decimal_text, same_text};
use vstd::prelude::*;
use vstd::string::*;

verus! {

/// Distance, in pixels, that a label keeps from the edges it is anchored to.
pub const MARGIN: u64 = 5;

/// Extra distance from the top edge, so that tall glyphs are not clipped.
pub const TOP_ADJUSTMENT: u64 = 5;

/// The six anchors a label can have.
#[derive(Clone, Copy, Debug, PartialEq, Eq, Structural)]
pub enum LabelPosition {
    BottomLeft,
    BottomMiddle,
    BottomRight,
    TopLeft,
    TopMiddle,
    TopRight,
}

/// The horizontal part of an anchor.
#[derive(Clone, Copy, Debug, PartialEq, Eq, Structural)]
pub enum Column {
    Left,
    Middle,
    Right,
}

/// The vertical part of an anchor.
#[derive(Clone, Copy, Debug, PartialEq, Eq, Structural)]
pub enum Row {
    Bottom,
    Top,
}

/// A pair of overlay expressions over the frame's width `w` and height `h`
/// and the rendered text's width `text_w` and height `text_h`.
#[derive(Debug, PartialEq, Eq)]
pub struct Coordinates {
    pub x: String,
    pub y: String,
}

/// A pair of coordinates, each expression as a sequence of characters.
pub struct CoordinatesView {
    pub x: Seq<char>,
    pub y: Seq<char>,
}

impl View for Coordinates {
    type V = CoordinatesView;

    open spec fn view(&self) -> CoordinatesView {
        CoordinatesView { x: self.x@, y: self.y@ }
    }
}

/// The position that a symbol of the job description names, if any.
pub open spec fn position_of(symbol: Seq<char>) -> Option<LabelPosition> {
    if symbol == "bottom_left"@ {
        Some(LabelPosition::BottomLeft)
    } else if symbol == "bottom_middle"@ {
        Some(LabelPosition::BottomMiddle)
    } else if symbol == "bottom_right"@ {
        Some(LabelPosition::BottomRight)
    } else if symbol == "top_left"@ {
        Some(LabelPosition::TopLeft)
    } else if symbol == "top_middle"@ {
        Some(LabelPosition::TopMiddle)
    } else if symbol == "top_right"@ {
        Some(LabelPosition::TopRight)
    } else {
        None
    }
}

/// The symbol that names a position in a job description.
pub open spec fn symbol_of(position: LabelPosition) -> Seq<char> {
    match position {
        LabelPosition::BottomLeft => "bottom_left"@,
        LabelPosition::BottomMiddle => "bottom_middle"@,
        LabelPosition::BottomRight => "bottom_right"@,
        LabelPosition::TopLeft => "top_left"@,
        LabelPosition::TopMiddle => "top_middle"@,
        LabelPosition::TopRight => "top_right"@,
    }
}

/// The expression that places a label in a column.
pub open spec fn column_term(column: Column) -> Seq<char> {
    match column {
        Column::Left => "("@ + decimal(MARGIN as nat) + ")"@,
        Column::Middle => "(w-text_w)/2"@,
        Column::Right => "(w-(text_w+"@ + decimal(MARGIN as nat) + "))"@,
    }
}

/// The expression that places a label in a row.
pub open spec fn row_term(row: Row) -> Seq<char> {
    match row {
        Row::Bottom => "(h-(text_h+"@ + decimal(MARGIN as nat) + "))"@,
        Row::Top => "("@ + decimal(MARGIN as nat) + "+"@ + decimal(TOP_ADJUSTMENT as nat) + ")"@,
    }
}

/// The coordinates of a position: its column's expression for `x`, its row's for `y`.
pub open spec fn coordinates(position: LabelPosition) -> CoordinatesView {
    CoordinatesView { x: column_term(position.column()), y: row_term(position.row()) }
}

/// How a pair of coordinates is written among the options of a text overlay.
pub open spec fn rendered(c: CoordinatesView) -> Seq<char> {
    "x="@ + c.x + ":y="@ + c.y
}

impl LabelPosition {
    /// The position that the job description has where none is given.
    pub open spec fn initial() -> LabelPosition {
        LabelPosition::BottomMiddle
    }

    /// The column that the position lies in.
    pub open spec fn column(self) -> Column {
        match self {
            LabelPosition::BottomLeft | LabelPosition::TopLeft => Column::Left,
            LabelPosition::BottomMiddle | LabelPosition::TopMiddle => Column::Middle,
            LabelPosition::BottomRight | LabelPosition::TopRight => Column::Right,
        }
    }

    /// The row that the position lies in.
    pub open spec fn row(self) -> Row {
        match self {
            LabelPosition::BottomLeft
            | LabelPosition::BottomMiddle
            | LabelPosition::BottomRight => Row::Bottom,
            LabelPosition::TopLeft | LabelPosition::TopMiddle | LabelPosition::TopRight => Row::Top,
        }
    }

    /// Reads a position from its symbol; `None` for any other text.
    pub fn from_symbol(symbol: &str) -> (position: Option<LabelPosition>)
        ensures
            position == position_of(symbol@),
    {
        if same_text(symbol, "bottom_left") {
            Some(LabelPosition::BottomLeft)
        } else if same_text(symbol, "bottom_middle") {
            Some(LabelPosition::BottomMiddle)
        } else if same_text(symbol, "bottom_right") {
            Some(LabelPosition::BottomRight)
        } else if same_text(symbol, "top_left") {
            Some(LabelPosition::TopLeft)
        } else if same_text(symbol, "top_middle") {
            Some(LabelPosition::TopMiddle)
        } else if same_text(symbol, "top_right") {
            Some(LabelPosition::TopRight)
        } else {
            None
        }
    }

    /// The symbol that names this position.
    pub fn symbol(self) -> (symbol: String)
        ensures
            symbol@ == symbol_of(self),
    {
        match self {
            LabelPosition::BottomLeft => String::from_str("bottom_left"),
            LabelPosition::BottomMiddle => String::from_str("bottom_middle"),
            LabelPosition::BottomRight => String::from_str("bottom_right"),
            LabelPosition::TopLeft => String::from_str("top_left"),
            LabelPosition::TopMiddle => String::from_str("top_middle"),
            LabelPosition::TopRight => String::from_str("top_right"),
        }
    }
}

fn column_text(column: Column) -> (term: String)
    ensures
        term@ == column_term(column),
{
    match column {
        Column::Left => String::from_str("(").concat(decimal_text(MARGIN).as_str()).concat(")"),
        Column::Middle => String::from_str("(w-text_w)/2"),
        Column::Right => String::from_str("(w-(text_w+").concat(
            decimal_text(MARGIN).as_str(),
        ).concat("))"),
    }
}

fn row_text(row: Row) -> (term: String)
    ensures
        term@ == row_term(row),
{
    match row {
        Row::Bottom => String::from_str("(h-(text_h+").concat(decimal_text(MARGIN).as_str()).concat(
            "))",
        ),
        Row::Top => String::from_str("(").concat(decimal_text(MARGIN).as_str()).concat("+").concat(
            decimal_text(TOP_ADJUSTMENT).as_str(),
        ).concat(")"),
    }
}

/// The overlay coordinates that put a label at `position`.
pub fn resolve(position: LabelPosition) -> (c: Coordinates)
    ensures
        c@ == coordinates(position),
{
    let (column, row) = match position {
        LabelPosition::BottomLeft => (Column::Left, Row::Bottom),
        LabelPosition::BottomMiddle => (Column::Middle, Row::Bottom),
        LabelPosition::BottomRight => (Column::Right, Row::Bottom),
        LabelPosition::TopLeft => (Column::Left, Row::Top),
        LabelPosition::TopMiddle => (Column::Middle, Row::Top),
        LabelPosition::TopRight => (Column::Right, Row::Top),
    };
    Coordinates { x: column_text(column), y: row_text(row) }
}

impl Coordinates {
    /// Writes the pair as the `x` and `y` options of a text overlay.
    pub fn render(&self) -> (text: String)
        ensures
            text@ == rendered(self@),
    {
        String::from_str("x=").concat(self.x.as_str()).concat(":y=").concat(self.y.as_str())
    }
}

/// The characters that an overlay expression is written with: digits, lower-case
/// letters and `_` for names, the operators `+ - /`, and parentheses.
pub open spec fn term_char(c: char) -> bool {
    ||| '0' <= c <= '9'
    ||| 'a' <= c <= 'z'
    ||| c == '_'
    ||| c == '+'
    ||| c == '-'
    ||| c == '/'
    ||| c == '('
    ||| c == ')'
}

/// How many parentheses stand open after the first `upto` characters of `term`.
pub open spec fn nesting(term: Seq<char>, upto: int) -> int
    decreases upto,
{
    if upto <= 0 {
        0
    } else if term[upto - 1] == '(' {
        nesting(term, upto - 1) + 1
    } else if term[upto - 1] == ')' {
        nesting(term, upto - 1) - 1
    } else {
        nesting(term, upto - 1)
    }
}

/// A well-formed overlay expression is not empty, holds expression characters
/// only, closes no parenthesis that is not open, and leaves none open.
pub open spec fn well_formed(term: Seq<char>) -> bool {
    &&& term.len() > 0
    &&& forall|i: int| 0 <= i < term.len() ==> term_char(#[trigger] term[i])
    &&& forall|i: int| 0 <= i <= term.len() ==> #[trigger] nesting(term, i) >= 0
    &&& nesting(term, term.len() as int) == 0
}

proof fn lemma_margins()
    ensures
        decimal(MARGIN as nat) == seq!['5'],
        decimal(TOP_ADJUSTMENT as nat) == seq!['5'],
{
}

proof fn lemma_column_terms()
    ensures
        column_term(Column::Left) == seq!['(', '5', ')'],
        column_term(Column::Middle) == seq![
            '(', 'w', '-', 't', 'e', 'x', 't', '_', 'w', ')', '/', '2',
        ],
        column_term(Column::Right) == seq![
            '(', 'w', '-', '(', 't', 'e', 'x', 't', '_', 'w', '+', '5', ')', ')',
        ],
{
    lemma_margins();
    reveal_strlit("(");
    reveal_strlit(")");
    reveal_strlit("(w-text_w)/2");
    reveal_strlit("(w-(text_w+");
    reveal_strlit("))");
}

proof fn lemma_row_terms()
    ensures
        row_term(Row::Bottom) == seq![
            '(', 'h', '-', '(', 't', 'e', 'x', 't', '_', 'h', '+', '5', ')', ')',
        ],
        row_term(Row::Top) == seq!['(', '5', '+', '5', ')'],
{
    lemma_margins();
    reveal_strlit("(");
    reveal_strlit(")");
    reveal_strlit("+");
    reveal_strlit("(h-(text_h+");
    reveal_strlit("))");
}

proof fn lemma_column_well_formed(column: Column)
    ensures
        well_formed(column_term(column)),
{
    lemma_column_terms();
    let term = column_term(column);
    reveal_with_fuel(nesting, 16);
}

proof fn lemma_row_well_formed(row: Row)
    ensures
        well_formed(row_term(row)),
{
    lemma_row_terms();
    let term = row_term(row);
    reveal_with_fuel(nesting, 16);
}

/// Every position has well-formed coordinates.
pub proof fn law_coordinates_well_formed(position: LabelPosition)
    ensures
        well_formed(coordinates(position).x),
        well_formed(coordinates(position).y),
{
    lemma_column_well_formed(position.column());
    lemma_row_well_formed(position.row());
}

/// Two different positions have different coordinates, and the coordinates
/// are written differently.
pub proof fn law_coordinates_distinct(p: LabelPosition, q: LabelPosition)
    requires
        p != q,
    ensures
        coordinates(p) != coordinates(q),
        rendered(coordinates(p)) != rendered(coordinates(q)),
{
    lemma_column_terms();
    lemma_row_terms();
    reveal_strlit("x=");
    reveal_strlit(":y=");
    let a = rendered(coordinates(p));
    let b = rendered(coordinates(q));
    if p.column() != q.column() {
        assert(a[3] != b[3] || a[5] != b[5]);
    } else {
        let start = (coordinates(p).x.len() + 5) as int;
        assert(a[start + 1] != b[start + 1]);
    }
}

/// The vertical expression depends on the row alone: positions of one row
/// share it, and a bottom and a top position never do.
pub proof fn law_rows_apart(p: LabelPosition, q: LabelPosition)
    ensures
        p.row() == q.row() ==> coordinates(p).y == coordinates(q).y,
        p.row() != q.row() ==> coordinates(p).y != coordinates(q).y,
{
    lemma_row_terms();
    if p.row() != q.row() {
        assert(coordinates(p).y.len() != coordinates(q).y.len());
    }
}

/// The horizontal expression depends on the column alone.
pub proof fn law_columns_apart(p: LabelPosition, q: LabelPosition)
    ensures
        p.column() == q.column() ==> coordinates(p).x == coordinates(q).x,
        p.column() != q.column() ==> coordinates(p).x != coordinates(q).x,
{
    lemma_column_terms();
    if p.column() != q.column() {
        assert(coordinates(p).x.len() != coordinates(q).x.len());
    }
}

/// Each position is read back from its own symbol, so no two positions share one.
pub proof fn law_symbol_round_trip(position: LabelPosition)
    ensures
        position_of(symbol_of(position)) == Some(position),
{
    reveal_strlit("bottom_left");
    reveal_strlit("bottom_middle");
    reveal_strlit("bottom_right");
    reveal_strlit("top_left");
    reveal_strlit("top_middle");
    reveal_strlit("top_right");
    match position {
        LabelPosition::BottomLeft => {},
        LabelPosition::BottomMiddle => {
            assert("bottom_middle"@.len() != "bottom_left"@.len());
        },
        LabelPosition::BottomRight => {
            assert("bottom_right"@.len() != "bottom_left"@.len());
            assert("bottom_right"@.len() != "bottom_middle"@.len());
        },
        LabelPosition::TopLeft => {
            assert("top_left"@[0] == 't');
            assert("bottom_left"@[0] == 'b');
            assert("bottom_middle"@[0] == 'b');
            assert("bottom_right"@[0] == 'b');
        },
        LabelPosition::TopMiddle => {
            assert("top_middle"@[0] == 't');
            assert("bottom_left"@[0] == 'b');
            assert("bottom_middle"@[0] == 'b');
            assert("bottom_right"@[0] == 'b');
            assert("top_middle"@.len() != "top_left"@.len());
        },
        LabelPosition::TopRight => {
            assert("top_right"@[0] == 't');
            assert("bottom_left"@[0] == 'b');
            assert("bottom_middle"@[0] == 'b');
            assert("bottom_right"@[0] == 'b');
            assert("top_right"@.len() != "top_left"@.len());
            assert("top_right"@.len() != "top_middle"@.len());
        },
    }
}

} // verus!
