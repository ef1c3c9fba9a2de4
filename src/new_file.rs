//! Naming and filling a new document.
use vstd::prelude::*;

use crate::paths::{join_path, joined_path_of};

verus! {

/// What a new document holds.
pub const NEW_FILE_TEMPLATE: &'static str = "# New Document\n\nStart typing here...";

/// A local date and time, as the clock gave it. A leap second shows as a
/// `nanosecond` of a billion or more within second 59.
#[derive(Debug, Clone, Copy, PartialEq, Eq)]
pub struct LocalStamp {
    pub year: i32,
    pub month: u32,
    pub day: u32,
    pub hour: u32,
    pub minute: u32,
    pub second: u32,
    pub nanosecond: u32,
}

/// Where a new document goes and what it holds.
pub struct NewDocument {
    pub path: String,
    pub content: String,
}

impl LocalStamp {
    /// The second as it is written: 60 during a leap second.
    pub open spec fn shown_second(self) -> nat {
        (self.second + self.nanosecond / 1_000_000_000) as nat
    }
}

/// The character of a decimal digit.
pub open spec fn digit_char(d: nat) -> char {
    seq!['0', '1', '2', '3', '4', '5', '6', '7', '8', '9'][d as int]
}

/// The last `width` decimal digits of `n`, zero-padded.
pub open spec fn fixed_digits(n: nat, width: nat) -> Seq<char>
    decreases width,
{
    if width == 0 {
        Seq::empty()
    } else {
        fixed_digits(n / 10, (width - 1) as nat).push(digit_char(n % 10))
    }
}

/// How many decimal digits `n` has.
pub open spec fn digit_count(n: nat) -> nat
    decreases n,
{
    if n < 10 {
        1
    } else {
        1 + digit_count(n / 10)
    }
}

/// A year as four digits; outside 0 to 9999, with its sign and at least
/// four digits.
pub open spec fn year_text(y: int) -> Seq<char> {
    if 0 <= y <= 9999 {
        fixed_digits(y as nat, 4)
    } else {
        let a: nat = if y < 0 {
            (-y) as nat
        } else {
            y as nat
        };
        let w: nat = if digit_count(a) < 4 {
            4
        } else {
            digit_count(a)
        };
        seq![if y < 0 { '-' } else { '+' }] + fixed_digits(a, w)
    }
}

/// The timestamp of a new document's name: `YYYYMMDD_HHMMSS`.
pub open spec fn stamp_text(st: LocalStamp) -> Seq<char> {
    year_text(st.year as int) + fixed_digits(st.month as nat, 2) + fixed_digits(st.day as nat, 2)
        + "_"@ + fixed_digits(st.hour as nat, 2) + fixed_digits(st.minute as nat, 2)
        + fixed_digits(st.shown_second(), 2)
}

/// The name of a document created at `st`: `document_<timestamp>.md`.
pub open spec fn new_file_name_of(st: LocalStamp) -> Seq<char> {
    "document_"@ + stamp_text(st) + ".md"@
}

/// A decimal digit character.
pub open spec fn is_digit(c: char) -> bool {
    '0' <= c <= '9'
}

fn digit_text(d: u64) -> (r: &'static str)
    requires
        d < 10,
    ensures
        r@ == seq![digit_char(d as nat)],
{
    proof {
        reveal_strlit("0");
        reveal_strlit("1");
        reveal_strlit("2");
        reveal_strlit("3");
        reveal_strlit("4");
        reveal_strlit("5");
        reveal_strlit("6");
        reveal_strlit("7");
        reveal_strlit("8");
        reveal_strlit("9");
    }
    let r = if d == 0 {
        "0"
    } else if d == 1 {
        "1"
    } else if d == 2 {
        "2"
    } else if d == 3 {
        "3"
    } else if d == 4 {
        "4"
    } else if d == 5 {
        "5"
    } else if d == 6 {
        "6"
    } else if d == 7 {
        "7"
    } else if d == 8 {
        "8"
    } else {
        "9"
    };
    assert(r@ =~= seq![digit_char(d as nat)]);
    r
}

fn push_digits(s: &mut String, n: u64, width: u64)
    ensures
        final(s)@ == old(s)@ + fixed_digits(n as nat, width as nat),
    decreases width,
{
    if width > 0 {
        push_digits(s, n / 10, width - 1);
        s.append(digit_text(n % 10));
        assert(final(s)@ =~= old(s)@ + fixed_digits(n as nat, width as nat));
    } else {
        assert(final(s)@ =~= old(s)@ + fixed_digits(n as nat, width as nat));
    }
}

fn count_digits(n: u64) -> (r: u64)
    ensures
        r == digit_count(n as nat),
        r <= n as int + 1,
    decreases n,
{
    if n < 10 {
        1
    } else {
        let c = count_digits(n / 10);
        1 + c
    }
}

fn push_year(s: &mut String, year: i32)
    ensures
        final(s)@ == old(s)@ + year_text(year as int),
{
    if 0 <= year && year <= 9999 {
        push_digits(s, year as u64, 4);
    } else {
        let a: u64 = if year < 0 {
            (0 - (year as i64)) as u64
        } else {
            year as u64
        };
        let c = count_digits(a);
        let w: u64 = if c < 4 {
            4
        } else {
            c
        };
        proof {
            reveal_strlit("-");
            reveal_strlit("+");
        }
        if year < 0 {
            s.append("-");
        } else {
            s.append("+");
        }
        push_digits(s, a, w);
        assert(final(s)@ =~= old(s)@ + year_text(year as int));
    }
}

/// The timestamp written in a new document's name, `YYYYMMDD_HHMMSS`.
pub fn timestamp_text(st: &LocalStamp) -> (r: String)
    ensures
        r@ == stamp_text(*st),
{
    let mut r = String::new();
    push_year(&mut r, st.year);
    push_digits(&mut r, st.month as u64, 2);
    push_digits(&mut r, st.day as u64, 2);
    r.append("_");
    push_digits(&mut r, st.hour as u64, 2);
    push_digits(&mut r, st.minute as u64, 2);
    push_digits(&mut r, st.second as u64 + (st.nanosecond / 1_000_000_000) as u64, 2);
    assert(r@ =~= stamp_text(*st));
    r
}

/// The name of a document created at `st`.
pub fn new_file_name(st: &LocalStamp) -> (r: String)
    ensures
        r@ == new_file_name_of(*st),
{
    let mut r = "document_".to_owned();
    let t = timestamp_text(st);
    r.append(t.as_str());
    r.append(".md");
    r
}

/// The document to create in `folder_path` at time `st`: its path and the
/// template it starts with.
pub fn new_document_at(folder_path: &str, st: &LocalStamp) -> (r: NewDocument)
    ensures
        r.path@ == joined_path_of(folder_path@, new_file_name_of(*st)),
        r.content@ == NEW_FILE_TEMPLATE@,
{
    let name = new_file_name(st);
    let path = join_path(folder_path, name.as_str());
    NewDocument { path, content: NEW_FILE_TEMPLATE.to_owned() }
}

proof fn lemma_fixed_digits_are_digits(n: nat, width: nat)
    ensures
        fixed_digits(n, width).len() == width,
        forall|i: int| 0 <= i < width ==> is_digit(#[trigger] fixed_digits(n, width)[i]),
    decreases width,
{
    if width > 0 {
        lemma_fixed_digits_are_digits(n / 10, (width - 1) as nat);
        let d = n % 10;
        assert(is_digit(digit_char(d))) by {
            assert(d < 10);
        }
    }
}

/// A document created in a year from 0 to 9999 is named
/// `document_` followed by eight digits, `_`, six digits and `.md`.
pub proof fn lemma_new_file_name_shape(st: LocalStamp)
    requires
        0 <= st.year <= 9999,
    ensures
        new_file_name_of(st).len() == 27,
        new_file_name_of(st).subrange(0, 9) == "document_"@,
        forall|i: int| 9 <= i < 17 ==> is_digit(#[trigger] new_file_name_of(st)[i]),
        new_file_name_of(st)[17] == '_',
        forall|i: int| 18 <= i < 24 ==> is_digit(#[trigger] new_file_name_of(st)[i]),
        new_file_name_of(st).subrange(24, 27) == ".md"@,
{
    reveal_strlit("document_");
    reveal_strlit("_");
    reveal_strlit(".md");
    let y = fixed_digits(st.year as nat, 4);
    let mo = fixed_digits(st.month as nat, 2);
    let d = fixed_digits(st.day as nat, 2);
    let h = fixed_digits(st.hour as nat, 2);
    let mi = fixed_digits(st.minute as nat, 2);
    let se = fixed_digits(st.shown_second(), 2);
    lemma_fixed_digits_are_digits(st.year as nat, 4);
    lemma_fixed_digits_are_digits(st.month as nat, 2);
    lemma_fixed_digits_are_digits(st.day as nat, 2);
    lemma_fixed_digits_are_digits(st.hour as nat, 2);
    lemma_fixed_digits_are_digits(st.minute as nat, 2);
    lemma_fixed_digits_are_digits(st.shown_second(), 2);
    let name = new_file_name_of(st);
    let date = y + mo + d;
    let time = h + mi + se;
    assert(name =~= "document_"@ + date + "_"@ + time + ".md"@);
    assert forall|i: int| 9 <= i < 17 implies is_digit(#[trigger] name[i]) by {
        assert(name[i] == date[i - 9]);
        if i < 13 {
            assert(date[i - 9] == y[i - 9]);
        } else if i < 15 {
            assert(date[i - 9] == mo[i - 13]);
        } else {
            assert(date[i - 9] == d[i - 15]);
        }
    }
    assert forall|i: int| 18 <= i < 24 implies is_digit(#[trigger] name[i]) by {
        assert(name[i] == time[i - 18]);
        if i < 20 {
            assert(time[i - 18] == h[i - 18]);
        } else if i < 22 {
            assert(time[i - 18] == mi[i - 20]);
        } else {
            assert(time[i - 18] == se[i - 22]);
        }
    }
    assert(name.subrange(0, 9) =~= "document_"@);
    assert(name.subrange(24, 27) =~= ".md"@);
}

} // verus!
