//! The line protocol read by the bar: a header, then one JSON array of
//! blocks per update.

use vstd::prelude::*;
use vstd::string::*;

use crate::record::State;

verus! {

/// The hexadecimal digit of `d`, lower case.
pub open spec fn hex_digit(d: int) -> char {
    seq!['0', '1', '2', '3', '4', '5', '6', '7', '8', '9', 'a', 'b', 'c', 'd', 'e', 'f'][d]
}

/// How one character stands inside a JSON string: quote, backslash and the
/// control characters are escaped, everything else stands as it is.
pub open spec fn escape_char(c: char) -> Seq<char> {
    if c == '"' {
        seq!['\\', '"']
    } else if c == '\\' {
        seq!['\\', '\\']
    } else if c == '\n' {
        seq!['\\', 'n']
    } else if c == '\r' {
        seq!['\\', 'r']
    } else if c == '\t' {
        seq!['\\', 't']
    } else if (c as u32) < 0x20 {
        seq!['\\', 'u', '0', '0', hex_digit((c as u32) as int / 16), hex_digit((c as u32) as int % 16)]
    } else {
        seq![c]
    }
}

/// The text `s` escaped for the inside of a JSON string.
pub open spec fn escaped(s: Seq<char>) -> Seq<char>
    decreases s.len(),
{
    if s.len() == 0 {
        Seq::empty()
    } else {
        escaped(s.drop_last()) + escape_char(s.last())
    }
}

/// Relies on `String::push`: appends one character.
#[verifier::external_body]
fn push_char(s: &mut String, c: char)
    ensures
        final(s)@ == old(s)@.push(c),
{
    s.push(c)
}

/// The hexadecimal digit of `d`.
fn hex_char(d: u32) -> (r: char)
    requires
        d < 16,
    ensures
        r == hex_digit(d as int),
{
    let digits = "0123456789abcdef";
    proof {
        reveal_strlit("0123456789abcdef");
        assert(digits@ =~= seq!['0', '1', '2', '3', '4', '5', '6', '7', '8', '9', 'a', 'b', 'c', 'd', 'e', 'f']);
    }
    digits.get_char(d as usize)
}

/// Appends `c` to `r` as it stands inside a JSON string.
fn push_escaped(r: &mut String, c: char)
    ensures
        final(r)@ == old(r)@ + escape_char(c),
{
    let ghost start = r@;
    let code = c as u32;
    if c == '"' || c == '\\' || c == '\n' || c == '\r' || c == '\t' || code < 0x20 {
        push_char(r, '\\');
        if c == '"' {
            push_char(r, '"');
        } else if c == '\\' {
            push_char(r, '\\');
        } else if c == '\n' {
            push_char(r, 'n');
        } else if c == '\r' {
            push_char(r, 'r');
        } else if c == '\t' {
            push_char(r, 't');
        } else {
            push_char(r, 'u');
            push_char(r, '0');
            push_char(r, '0');
            push_char(r, hex_char(code / 16));
            push_char(r, hex_char(code % 16));
        }
    } else {
        push_char(r, c);
    }
    assert(r@ =~= start + escape_char(c));
}

/// Appends `s` to `r`, escaped for the inside of a JSON string.
pub fn append_escaped(r: &mut String, s: &str)
    ensures
        final(r)@ == old(r)@ + escaped(s@),
{
    let n = s.unicode_len();
    let ghost start = r@;
    let mut i: usize = 0;
    while i < n
        invariant
            n == s@.len(),
            i <= n,
            r@ == start + escaped(s@.take(i as int)),
        decreases n - i,
    {
        let c = s.get_char(i);
        push_escaped(r, c);
        proof {
            let t = s@.take(i + 1);
            assert(t.drop_last() =~= s@.take(i as int));
            assert(t.last() == c);
            assert(start + escaped(s@.take(i as int)) + escape_char(c) =~= start + escaped(t));
        }
        i = i + 1;
    }
    assert(s@.take(n as int) =~= s@);
}

/// The header: the protocol version, the opening of the endless array and
/// an empty first status line, one per line.
pub open spec fn header_text() -> Seq<char> {
    "{\"version\": 1}\n[\n[]"@
}

/// The blocks of one status line for the given title and clock text.
pub open spec fn blocks_text(title: Seq<char>, datetime: Seq<char>) -> Seq<char> {
    "[{\"full_text\": \""@ + escaped(title)
        + "\", \"name\": \"title\", \"separator\": false, \"align\": \"left\", \"min_width\": 1700}, {\"full_text\": \"\u{2697}\", \"separator\": false, \"name\": \"test\"}, {\"full_text\": \""@
        + escaped(datetime) + "\", \"name\": \"datetime\", \"min_width\": 100, \"separator\": false}]"@
}

/// One update line: a comma that continues the array, then the blocks.
pub open spec fn update_text(title: Seq<char>, datetime: Seq<char>) -> Seq<char> {
    ","@ + blocks_text(title, datetime)
}

/// The header written once before any update.
pub fn header() -> (r: String)
    ensures
        r@ == header_text(),
{
    String::from_str("{\"version\": 1}\n[\n[]")
}

/// The blocks of the status line that shows `s`.
pub fn blocks(s: &State) -> (r: String)
    ensures
        r@ == blocks_text(s.title@, s.datetime@),
{
    let mut r = String::from_str("[{\"full_text\": \"");
    append_escaped(&mut r, s.title.as_str());
    r.append(
        "\", \"name\": \"title\", \"separator\": false, \"align\": \"left\", \"min_width\": 1700}, {\"full_text\": \"\u{2697}\", \"separator\": false, \"name\": \"test\"}, {\"full_text\": \"",
    );
    append_escaped(&mut r, s.datetime.as_str());
    r.append("\", \"name\": \"datetime\", \"min_width\": 100, \"separator\": false}]");
    r
}

/// The update line that shows `s`; it depends on the title and clock text
/// alone.
pub fn update_line(s: &State) -> (r: String)
    ensures
        r@ == update_text(s.title@, s.datetime@),
{
    let b = blocks(s);
    let mut r = String::from_str(",");
    r.append(b.as_str());
    r
}

/// The update line is a function of the snapshot alone: two snapshots with
/// the same title and clock text are written as the same line, so writing
/// an unchanged record twice gives identical lines.
pub proof fn update_line_is_pure(a: &State, b: &State)
    requires
        a.title@ == b.title@,
        a.datetime@ == b.datetime@,
    ensures
        update_text(a.title@, a.datetime@) == update_text(b.title@, b.datetime@),
{
}

} // verus!
