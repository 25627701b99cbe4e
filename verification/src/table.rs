//! The listing as a printable table.
//!
//! The table is a `prettytable::Table`, filled here and printed by the
//! caller. What the table holds is known to the proofs only through the
//! contracts of the few functions below that touch it; those contracts are
//! taken on trust from the source of `prettytable`.

use vstd::prelude::*;
use vstd::string::{StrSliceExecFns, StringExecFns};
use crate::listing::{Row, RowView};

verus! {

/// `prettytable::Table`, taken as an opaque value: nothing is known of a
/// table but what the functions below state of it.
#[verifier::external_type_specification]
#[verifier::external_body]
pub struct ExTable(prettytable::Table);

/// The text that a cell made of `text` holds: what `Cell::get_content`
/// gives back for `Cell::new(text)`, which keeps the text line by line.
pub uninterp spec fn cell_content(text: Seq<char>) -> Seq<char>;

/// The title line of a table, as the contents of its cells; `None` while
/// the table has no title line.
pub uninterp spec fn table_titles(table: prettytable::Table) -> Option<Seq<Seq<char>>>;

/// The rows of a table from first to last, each as the contents of its
/// cells.
pub uninterp spec fn table_rows(table: prettytable::Table) -> Seq<Seq<Seq<char>>>;

/// `text` holds the escape character U+001B, which opens a terminal
/// control sequence.
pub open spec fn has_escape(text: Seq<char>) -> bool {
    exists|i: int| 0 <= i < text.len() && #[trigger] text[i] == '\u{1b}'
}

/// None of `texts` holds the escape character.
pub open spec fn free_of_escapes(texts: Seq<String>) -> bool {
    forall|i: int| 0 <= i < texts.len() ==> !has_escape(#[trigger] texts[i]@)
}

/// `prettytable::Table::new`: a table without a title line and without
/// rows.
#[verifier::external_body]
fn new_table() -> (table: prettytable::Table)
    ensures
        table_titles(table) is None,
        table_rows(table) == Seq::<Seq<Seq<char>>>::empty(),
{
    prettytable::Table::new()
}

/// `prettytable::Table::set_titles`, on a row of one left-aligned cell for
/// each of `texts` (`Row::new` over `Cell::new`): the title line becomes
/// that row, and the rows stay as they are.
///
/// `Cell::new` measures its text, and the measuring can panic on a text
/// that holds a terminal control sequence; a text without the escape
/// character holds none, so only such texts are admitted.
#[verifier::external_body]
fn set_titles(table: &mut prettytable::Table, texts: &Vec<String>)
    requires
        free_of_escapes(texts@),
    ensures
        table_titles(*final(table)) == Some(
            Seq::new(texts@.len(), |i: int| cell_content(texts@[i]@)),
        ),
        table_rows(*final(table)) == table_rows(*old(table)),
{
    let cells = texts.iter().map(|text| prettytable::Cell::new(text)).collect();
    table.set_titles(prettytable::Row::new(cells));
}

/// `prettytable::Table::add_row`, on a row of one left-aligned cell for
/// each of `texts` (`Row::new` over `Cell::new`): the row is appended after
/// the rows that were there, and the title line stays as it is.
///
/// `Cell::new` measures its text, and the measuring can panic on a text
/// that holds a terminal control sequence; a text without the escape
/// character holds none, so only such texts are admitted.
#[verifier::external_body]
fn add_row(table: &mut prettytable::Table, texts: &Vec<String>)
    requires
        free_of_escapes(texts@),
    ensures
        table_rows(*final(table)) == table_rows(*old(table)).push(
            Seq::new(texts@.len(), |i: int| cell_content(texts@[i]@)),
        ),
        table_titles(*final(table)) == table_titles(*old(table)),
{
    let cells = texts.iter().map(|text| prettytable::Cell::new(text)).collect();
    table.add_row(prettytable::Row::new(cells));
}

/// The character that stands for the digit `digit`.
pub open spec fn digit_char(digit: nat) -> char {
    if digit == 0 {
        '0'
    } else if digit == 1 {
        '1'
    } else if digit == 2 {
        '2'
    } else if digit == 3 {
        '3'
    } else if digit == 4 {
        '4'
    } else if digit == 5 {
        '5'
    } else if digit == 6 {
        '6'
    } else if digit == 7 {
        '7'
    } else if digit == 8 {
        '8'
    } else {
        '9'
    }
}

/// `number` written in decimal digits, without a sign and without leading
/// zeros.
pub open spec fn decimal_digits(number: nat) -> Seq<char>
    decreases number,
{
    if number < 10 {
        seq![digit_char(number)]
    } else {
        decimal_digits(number / 10).push(digit_char(number % 10))
    }
}

/// The one-character text of the digit `digit`.
fn digit_text(digit: usize) -> (text: &'static str)
    requires
        digit < 10,
    ensures
        text@ == seq![digit_char(digit as nat)],
{
    let text = if digit == 0 {
        "0"
    } else if digit == 1 {
        "1"
    } else if digit == 2 {
        "2"
    } else if digit == 3 {
        "3"
    } else if digit == 4 {
        "4"
    } else if digit == 5 {
        "5"
    } else if digit == 6 {
        "6"
    } else if digit == 7 {
        "7"
    } else if digit == 8 {
        "8"
    } else {
        "9"
    };
    proof {
        reveal_strlit("0");
        reveal_strlit("1");
        reveal_strlit("2");
        reveal_strlit("3");
        reveal_strlit("4");
        reveal_strlit("5");
        reveal_strlit("6");
        reveal_strlit("7");
        reveal_strlit("8");
        reveal_strlit("9");
        assert(text@ =~= seq![digit_char(digit as nat)]);
    }
    text
}

/// Writes `number` in decimal digits.
pub fn decimal(number: usize) -> (text: String)
    ensures
        text@ == decimal_digits(number as nat),
    decreases number,
{
    if number < 10 {
        String::from_str(digit_text(number))
    } else {
        let mut text = decimal(number / 10);
        text.append(digit_text(number % 10));
        assert(text@ =~= decimal_digits(number as nat));
        text
    }
}

/// A number written in decimal digits holds no escape character.
proof fn lemma_decimal_has_no_escape(number: nat)
    ensures
        !has_escape(decimal_digits(number)),
    decreases number,
{
    if number >= 10 {
        lemma_decimal_has_no_escape(number / 10);
    }
}

/// Whether `text` holds the escape character U+001B.
pub fn holds_escape(text: &String) -> (found: bool)
    ensures
        found == has_escape(text@),
{
    let slice = text.as_str();
    let count = slice.unicode_len();
    let mut at: usize = 0;
    while at < count
        invariant
            at <= count,
            count == slice@.len(),
            slice@ == text@,
            forall|i: int| 0 <= i < at ==> slice@[i] != '\u{1b}',
        decreases count - at,
    {
        if slice.get_char(at) == '\u{1b}' {
            return true;
        }
        at += 1;
    }
    false
}

/// The texts of the heading: alias, filename and length of the payload.
pub open spec fn heading() -> Seq<Seq<char>> {
    seq![
        cell_content("Shorthand"@),
        cell_content("Filename"@),
        cell_content("Content Length"@),
    ]
}

/// The cells that show `row`: its alias, its filename, and the length of
/// its payload in decimal digits.
pub open spec fn row_cells(row: RowView) -> Seq<Seq<char>> {
    seq![
        cell_content(row.shorthand),
        cell_content(row.filename),
        cell_content(decimal_digits(row.content_length as nat)),
    ]
}

/// `row` can be shown in a table: neither of its keys holds the escape
/// character.
pub open spec fn showable(row: RowView) -> bool {
    !has_escape(row.shorthand) && !has_escape(row.filename)
}

/// The table that shows `rows`: the heading as its title line, then one
/// row for each of `rows`, in their order.
///
/// A key that holds the escape character U+001B cannot be laid out in a
/// cell. The table is made exactly when no key of `rows` holds one;
/// otherwise the error is the place of the first row with such a key.
pub fn table(rows: &Vec<Row>) -> (shown: Result<prettytable::Table, usize>)
    ensures
        shown is Ok <==> forall|i: int| 0 <= i < rows@.len() ==> showable(#[trigger] rows@[i]@),
        shown matches Ok(table) ==> table_titles(table) == Some(heading()) && table_rows(table)
            == Seq::new(rows@.len(), |i: int| row_cells(rows@[i]@)),
        shown matches Err(at) ==> at < rows@.len() && !showable(rows@[at as int]@) && forall|
            i: int,
        | 0 <= i < at ==> showable(#[trigger] rows@[i]@),
{
    let mut table = new_table();
    let mut titles: Vec<String> = Vec::new();
    titles.push(String::from_str("Shorthand"));
    titles.push(String::from_str("Filename"));
    titles.push(String::from_str("Content Length"));
    proof {
        reveal_strlit("Shorthand");
        reveal_strlit("Filename");
        reveal_strlit("Content Length");
        assert(!has_escape("Shorthand"@));
        assert(!has_escape("Filename"@));
        assert(!has_escape("Content Length"@));
    }
    set_titles(&mut table, &titles);
    assert(Seq::new(titles@.len(), |i: int| cell_content(titles@[i]@)) =~= heading());
    let mut at: usize = 0;
    while at < rows.len()
        invariant
            at <= rows.len(),
            table_titles(table) == Some(heading()),
            table_rows(table) == Seq::new(at as nat, |i: int| row_cells(rows@[i]@)),
            forall|i: int| 0 <= i < at ==> showable(#[trigger] rows@[i]@),
        decreases rows.len() - at,
    {
        let row = &rows[at];
        if holds_escape(&row.shorthand) || holds_escape(&row.filename) {
            assert(!showable(rows@[at as int]@));
            return Err(at);
        }
        let mut cells: Vec<String> = Vec::new();
        cells.push(row.shorthand.clone());
        cells.push(row.filename.clone());
        cells.push(decimal(row.content_length));
        proof {
            lemma_decimal_has_no_escape(row.content_length as nat);
        }
        assert(Seq::new(cells@.len(), |i: int| cell_content(cells@[i]@)) =~= row_cells(row@));
        let ghost before = table_rows(table);
        add_row(&mut table, &cells);
        assert(before.push(row_cells(row@)) =~= Seq::new(
            (at + 1) as nat,
            |i: int| row_cells(rows@[i]@),
        ));
        at += 1;
    }
    Ok(table)
}

} // verus!
