//! The lines of the report, as texts: the usage block, the header, the rows
//! and the warning for a directory.

use vstd::prelude::*;

verus! {

/// The decimal digit for `d`, which is under ten.
pub open spec fn digit(d: nat) -> char
    recommends
        d < 10,
{
    if d == 0 {
        '0'
    } else if d == 1 {
        '1'
    } else if d == 2 {
        '2'
    } else if d == 3 {
        '3'
    } else if d == 4 {
        '4'
    } else if d == 5 {
        '5'
    } else if d == 6 {
        '6'
    } else if d == 7 {
        '7'
    } else if d == 8 {
        '8'
    } else {
        '9'
    }
}

/// The decimal numeral of `n`: no sign, no leading zero but for zero itself.
pub open spec fn numeral(n: nat) -> Seq<char>
    decreases n,
{
    if n < 10 {
        seq![digit(n)]
    } else {
        numeral(n / 10).push(digit(n % 10))
    }
}

/// The two blanks between the fields of a row.
pub open spec fn gap() -> Seq<char> {
    seq![' ', ' ']
}

/// A row of the report: three counts and a label, two blanks between them.
pub open spec fn row_text(lines: nat, words: nat, metric: nat, label: Seq<char>) -> Seq<char> {
    numeral(lines) + gap() + numeral(words) + gap() + numeral(metric) + gap() + label
}

/// The header above the rows: the fourth column counts characters or bytes.
pub open spec fn header_text(chars: bool) -> Seq<char> {
    if chars {
        "L:  W:  C:  File:"@
    } else {
        "L:  W:  B:  File:"@
    }
}

/// The usage block: how to call the program, what it does, and its two flags.
pub open spec fn usage_text() -> Seq<char> {
    "Usage: toitoi [OPTION] [FILE]\nPrint line, word, byte count for FILE\n\n  -c, --chars  Print the number of characters instead of bytes\n  -h, --help   Display this help and exit"@
}

/// The warning for a path that names a directory.
pub open spec fn directory_text(path: Seq<char>) -> Seq<char> {
    path + " is a directory."@
}

/// The label of the last row.
pub open spec fn total_label() -> Seq<char> {
    "total"@
}

/// The text of one decimal digit.
fn digit_str(d: usize) -> (t: &'static str)
    requires
        d < 10,
    ensures
        t@ == seq![digit(d as nat)],
{
    proof {
        reveal_strlit("0");
        reveal_strlit("1");
        reveal_strlit("2");
        reveal_strlit("3");
        reveal_strlit("4");
        reveal_strlit("5");
        reveal_strlit("6");
        reveal_strlit("7");
        reveal_strlit("8");
        reveal_strlit("9");
    }
    let t = if d == 0 {
        "0"
    } else if d == 1 {
        "1"
    } else if d == 2 {
        "2"
    } else if d == 3 {
        "3"
    } else if d == 4 {
        "4"
    } else if d == 5 {
        "5"
    } else if d == 6 {
        "6"
    } else if d == 7 {
        "7"
    } else if d == 8 {
        "8"
    } else {
        "9"
    };
    assert(t@ =~= seq![digit(d as nat)]);
    t
}

/// The decimal numeral of `n`.
pub fn decimal(n: usize) -> (r: String)
    ensures
        r@ == numeral(n as nat),
    decreases n,
{
    if n < 10 {
        digit_str(n).to_owned()
    } else {
        let mut r = decimal(n / 10);
        r.append(digit_str(n % 10));
        assert(r@ =~= numeral(n as nat));
        r
    }
}

/// A row of the report for three counts and a label.
pub fn row(lines: usize, words: usize, metric: usize, label: &str) -> (r: String)
    ensures
        r@ == row_text(lines as nat, words as nat, metric as nat, label@),
{
    proof {
        reveal_strlit("  ");
        assert("  "@ =~= gap());
    }
    let mut r = decimal(lines);
    r.append("  ");
    r.append(decimal(words).as_str());
    r.append("  ");
    r.append(decimal(metric).as_str());
    r.append("  ");
    r.append(label);
    r
}

/// The header above the rows.
pub fn header(chars: bool) -> (r: &'static str)
    ensures
        r@ == header_text(chars),
{
    if chars {
        "L:  W:  C:  File:"
    } else {
        "L:  W:  B:  File:"
    }
}

/// The usage block.
pub fn usage() -> (r: &'static str)
    ensures
        r@ == usage_text(),
{
    "Usage: toitoi [OPTION] [FILE]\nPrint line, word, byte count for FILE\n\n  -c, --chars  Print the number of characters instead of bytes\n  -h, --help   Display this help and exit"
}

/// The warning for a path that names a directory.
pub fn directory_warning(path: &str) -> (r: String)
    ensures
        r@ == directory_text(path@),
{
    let mut r = path.to_owned();
    r.append(" is a directory.");
    r
}

} // verus!
