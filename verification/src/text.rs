//! Fixed-pitch text shaping: every string that reaches the grid is measured
//! and cut in characters, one character to a cell.

use vstd::prelude::*;
use vstd::string::StringExecFns;

verus! {

/// `unit` written `n` times in a row.
pub open spec fn repeated(unit: Seq<char>, n: nat) -> Seq<char>
    decreases n,
{
    if n == 0 {
        Seq::empty()
    } else {
        repeated(unit, (n - 1) as nat) + unit
    }
}

/// `text` followed by as many spaces as it takes to fill `width` cells; a
/// text that is already that wide is left as it is.
pub open spec fn padded(text: Seq<char>, width: nat) -> Seq<char> {
    if text.len() >= width {
        text
    } else {
        text + repeated(" "@, (width - text.len()) as nat)
    }
}

/// `text` made to occupy `width` cells: cut short and closed with an
/// ellipsis when it is wider, padded with spaces when it is not.
pub open spec fn fitted(text: Seq<char>, width: nat) -> Seq<char> {
    if text.len() > width {
        text.subrange(0, if width == 0 { 0 } else { width - 1 }) + "…"@
    } else {
        padded(text, width)
    }
}

/// The decimal digit `d` as text.
pub open spec fn digit(d: nat) -> Seq<char> {
    if d == 0 {
        "0"@
    } else if d == 1 {
        "1"@
    } else if d == 2 {
        "2"@
    } else if d == 3 {
        "3"@
    } else if d == 4 {
        "4"@
    } else if d == 5 {
        "5"@
    } else if d == 6 {
        "6"@
    } else if d == 7 {
        "7"@
    } else if d == 8 {
        "8"@
    } else {
        "9"@
    }
}

/// `n` in decimal, with leading zeros up to three digits.
pub open spec fn three_digits(n: nat) -> Seq<char>
    recommends
        n < 1000,
{
    digit(n / 100) + digit((n / 10) % 10) + digit(n % 10)
}

/// Writes `unit` `n` times in a row.
pub fn repeat(unit: &str, n: usize) -> (out: String)
    ensures
        out@ == repeated(unit@, n as nat),
{
    let mut out = String::new();
    let mut i: usize = 0;
    while i < n
        invariant
            i <= n,
            out@ == repeated(unit@, i as nat),
        decreases n - i,
    {
        out.append(unit);
        i = i + 1;
    }
    out
}

/// Pads `text` with spaces on the right up to `width` cells.
pub fn pad_right(text: &str, width: usize) -> (out: String)
    ensures
        out@ == padded(text@, width as nat),
{
    let len = text.unicode_len();
    let mut out = String::from_str(text);
    if len < width {
        let fill = repeat(" ", width - len);
        out.append(fill.as_str());
    }
    out
}

/// Makes `text` occupy `width` cells, cutting it short with an ellipsis or
/// padding it with spaces.
pub fn fit(text: &str, width: usize) -> (out: String)
    ensures
        out@ == fitted(text@, width as nat),
{
    let len = text.unicode_len();
    if len > width {
        let keep = width.saturating_sub(1);
        let mut out = String::from_str(text.substring_char(0, keep));
        out.append("…");
        out
    } else {
        pad_right(text, width)
    }
}

fn digit_text(d: usize) -> (out: &'static str)
    requires
        d < 10,
    ensures
        out@ == digit(d as nat),
{
    if d == 0 {
        "0"
    } else if d == 1 {
        "1"
    } else if d == 2 {
        "2"
    } else if d == 3 {
        "3"
    } else if d == 4 {
        "4"
    } else if d == 5 {
        "5"
    } else if d == 6 {
        "6"
    } else if d == 7 {
        "7"
    } else if d == 8 {
        "8"
    } else {
        "9"
    }
}

/// Writes `n` in decimal with leading zeros, three digits wide.
pub(crate) fn format_three_digits(n: usize) -> (out: String)
    requires
        n < 1000,
    ensures
        out@ == three_digits(n as nat),
{
    let mut out = String::from_str(digit_text(n / 100));
    out.append(digit_text((n / 10) % 10));
    out.append(digit_text(n % 10));
    out
}

/// Joins two pieces of text.
pub fn join(a: &str, b: &str) -> (out: String)
    ensures
        out@ == a@ + b@,
{
    let mut out = String::from_str(a);
    out.append(b);
    out
}

/// A text that was fitted into at least one cell is exactly as wide as asked.
pub proof fn lemma_fitted_width(text: Seq<char>, width: nat)
    requires
        width >= 1,
    ensures
        fitted(text, width).len() == width,
{
    reveal_strlit(" ");
    reveal_strlit("…");
    if text.len() <= width {
        lemma_repeated_len(" "@, (width - text.len()) as nat);
    }
}

/// Repeating a text multiplies its length.
pub proof fn lemma_repeated_len(unit: Seq<char>, n: nat)
    ensures
        repeated(unit, n).len() == n * unit.len(),
    decreases n,
{
    if n > 0 {
        lemma_repeated_len(unit, (n - 1) as nat);
        assert(n * unit.len() == (n - 1) * unit.len() + unit.len()) by (nonlinear_arith);
    } else {
        assert(n * unit.len() == 0) by (nonlinear_arith)
            requires
                n == 0,
        ;
    }
}

/// The lower-case form of a text, as `str::to_lowercase` of the standard
/// library gives it.
pub uninterp spec fn lowercased(text: Seq<char>) -> Seq<char>;

/// The last component of a path, as `Path::file_name` of the standard
/// library gives it for the platform the crate is built for; nothing for a
/// path that ends in `..` or names no file.
pub uninterp spec fn file_name_of(path: Seq<char>) -> Option<Seq<char>>;

/// Calls `str::to_lowercase`. Nothing is claimed of the result but that it
/// is the one that function gives for this text.
#[verifier::external_body]
pub(crate) fn to_lowercase(text: &str) -> (out: String)
    ensures
        out@ == lowercased(text@),
{
    text.to_lowercase()
}

/// Calls `Path::file_name` on the path that `path` spells, and turns what
/// it finds into a `String`. Nothing is claimed of the result but that it is
/// the one that function gives for this path.
#[verifier::external_body]
pub(crate) fn file_name(path: &str) -> (name: Option<String>)
    ensures
        match name {
            Some(n) => file_name_of(path@) == Some(n@),
            None => file_name_of(path@) is None,
        },
{
    match std::path::Path::new(path).file_name() {
        Some(n) => Some(n.to_string_lossy().into_owned()),
        None => None,
    }
}

/// The length of a text in bytes of UTF-8.
pub open spec fn byte_len(text: Seq<char>) -> usize {
    vstd::utf8::encode_utf8(text).len() as usize
}

/// The length of a text in bytes of UTF-8.
pub fn byte_length(text: &str) -> (len: usize)
    ensures
        len == byte_len(text@),
{
    text.len()
}

/// Where the first `": "` at or after `from` starts in `text`: the length
/// of `text` if there is none.
pub open spec fn separator_from(text: Seq<char>, from: int) -> int
    decreases text.len() - from,
{
    if from < 0 || from + 1 >= text.len() {
        text.len() as int
    } else if text[from] == ':' && text[from + 1] == ' ' {
        from
    } else {
        separator_from(text, from + 1)
    }
}

/// What stands before the first `": "` of `text`: all of it if there is
/// none.
pub open spec fn first_part(text: Seq<char>) -> Seq<char> {
    text.subrange(0, separator_from(text, 0))
}

/// What stands between the first `": "` of `text` and the next, or the end:
/// nothing if there is no `": "`.
pub open spec fn second_part(text: Seq<char>) -> Option<Seq<char>> {
    let first = separator_from(text, 0);
    if first == text.len() {
        None
    } else {
        Some(text.subrange(first + 2, separator_from(text, first + 2)))
    }
}

fn find_separator(text: &str, from: usize, len: usize) -> (at: usize)
    requires
        len == text@.len(),
        from <= len,
    ensures
        at == separator_from(text@, from as int),
        from <= at <= len,
        at < len ==> at + 2 <= len,
{
    let mut i = from;
    while i < len && i + 1 < len
        invariant
            from <= i <= len,
            len == text@.len(),
            separator_from(text@, from as int) == separator_from(text@, i as int),
        decreases len - i,
    {
        if text.get_char(i) == ':' && text.get_char(i + 1) == ' ' {
            return i;
        }
        i = i + 1;
    }
    len
}

/// Splits a label of the form `system: title` at its separators. The first
/// piece is what stands before the first `": "`, the second what follows
/// it up to the next.
pub fn split_label(text: &str) -> (parts: (String, Option<String>))
    ensures
        parts.0@ == first_part(text@),
        parts.1 is Some <==> second_part(text@) is Some,
        parts.1 matches Some(second) ==> second_part(text@) == Some(second@),
{
    let len = text.unicode_len();
    let first = find_separator(text, 0, len);
    let head = String::from_str(text.substring_char(0, first));
    if first == len {
        (head, None)
    } else {
        let next = find_separator(text, first + 2, len);
        (head, Some(String::from_str(text.substring_char(first + 2, next))))
    }
}

/// Tells whether two texts are the same.
pub fn same_text(a: &str, b: &str) -> (same: bool)
    ensures
        same == (a@ == b@),
{
    let left = a.to_owned();
    let right = b.to_owned();
    left == right
}

} // verus!
