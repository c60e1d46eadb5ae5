//! Building and searching the strings that diagnostics are made of.

use vstd::prelude::*;

verus! {

/// `String::push`: appends one character at the end of the string and changes nothing else.
pub assume_specification[ String::push ](s: &mut String, c: char)
    ensures
        final(s)@ == old(s)@.push(c),
;

/// The lower-case hexadecimal digit for a value below sixteen.
pub open spec fn hex_digit(n: int) -> char {
    if n < 10 {
        (48 + n) as char
    } else {
        (87 + n) as char
    }
}

/// `width` hexadecimal digits of `n`, most significant first.
pub open spec fn hex_fixed(n: int, width: nat) -> Seq<char>
    decreases width,
{
    if width == 0 {
        Seq::empty()
    } else {
        hex_fixed(n / 16, (width - 1) as nat).push(hex_digit(n % 16))
    }
}

/// The shortest hexadecimal form of `n`: no leading zeroes, `0` for zero.
pub open spec fn hex_shortest(n: nat) -> Seq<char>
    decreases n,
{
    if n < 16 {
        seq![hex_digit(n as int)]
    } else {
        hex_shortest(n / 16).push(hex_digit((n % 16) as int))
    }
}

fn push_hex_digit(out: &mut String, n: u32)
    requires
        n < 16,
    ensures
        final(out)@ == old(out)@.push(hex_digit(n as int)),
{
    let code: u8 = if n < 10 {
        48 + n as u8
    } else {
        87 + n as u8
    };
    out.push(code as char);
}

/// Appends `n` as exactly `width` hexadecimal digits.
pub fn push_hex_fixed(out: &mut String, n: u32, width: u32)
    ensures
        final(out)@ == old(out)@ + hex_fixed(n as int, width as nat),
    decreases width,
{
    if width == 0 {
        assert(old(out)@ + hex_fixed(n as int, 0) =~= old(out)@);
    } else {
        push_hex_fixed(out, n / 16, width - 1);
        push_hex_digit(out, n % 16);
        assert(out@ =~= old(out)@ + hex_fixed(n as int, width as nat));
    }
}

/// Appends `n` in its shortest hexadecimal form.
pub fn push_hex_shortest(out: &mut String, n: u32)
    ensures
        final(out)@ == old(out)@ + hex_shortest(n as nat),
    decreases n,
{
    if n >= 16 {
        push_hex_shortest(out, n / 16);
    }
    push_hex_digit(out, n % 16);
    assert(out@ =~= old(out)@ + hex_shortest(n as nat));
}

/// The decimal form of `n`: no leading zeroes, `0` for zero.
pub open spec fn decimal(n: nat) -> Seq<char>
    decreases n,
{
    if n < 10 {
        seq![hex_digit(n as int)]
    } else {
        decimal(n / 10).push(hex_digit((n % 10) as int))
    }
}

/// Appends `n` in decimal.
pub fn push_decimal(out: &mut String, n: u32)
    ensures
        final(out)@ == old(out)@ + decimal(n as nat),
    decreases n,
{
    if n >= 10 {
        push_decimal(out, n / 10);
    }
    push_hex_digit(out, n % 10);
    assert(out@ =~= old(out)@ + decimal(n as nat));
}

/// The texts in a list of strings.
pub open spec fn texts(parts: Seq<&'static str>) -> Seq<Seq<char>> {
    parts.map_values(|part: &'static str| part@)
}

/// The parts one after the other, with `separator` between each two.
pub open spec fn joined(parts: Seq<Seq<char>>, separator: Seq<char>) -> Seq<char>
    decreases parts.len(),
{
    if parts.len() == 0 {
        Seq::empty()
    } else if parts.len() == 1 {
        parts[0]
    } else {
        joined(parts.drop_last(), separator) + separator + parts.last()
    }
}

/// Joins the parts, with `separator` between each two.
pub fn join(parts: &Vec<&'static str>, separator: &str) -> (r: String)
    ensures
        r@ == joined(texts(parts@), separator@),
{
    let mut out = String::new();
    let mut i: usize = 0;
    while i < parts.len()
        invariant
            i <= parts.len(),
            out@ == joined(texts(parts@).take(i as int), separator@),
        decreases parts.len() - i,
    {
        let ghost before = texts(parts@).take(i as int);
        if i > 0 {
            out.append(separator);
        }
        out.append(parts[i]);
        i = i + 1;
        proof {
            let after = texts(parts@).take(i as int);
            assert(after.drop_last() =~= before);
            assert(after.last() == parts[i - 1]@);
            assert(out@ =~= joined(after, separator@));
        }
    }
    assert(texts(parts@).take(i as int) =~= texts(parts@));
    out
}

/// What the `Debug` form of a string is: the string in quotes, with some of its characters escaped.
pub uninterp spec fn quoted(text: Seq<char>) -> Seq<char>;

/// `format!` with the `Debug` form of a string slice. Which characters are escaped, and how, is a
/// function of the text and is given a name.
#[verifier::external_body]
fn debug_form(text: &str) -> (r: String)
    ensures
        r@ == quoted(text@),
{
    format!("{:?}", text)
}

/// Appends the quoted form of `text`.
pub fn push_quoted(out: &mut String, text: &str)
    ensures
        final(out)@ == old(out)@ + quoted(text@),
{
    let form = debug_form(text);
    out.append(form.as_str());
}

} // verus!
