//! Allocation-light JSON text for conformance reports: decimal numbers and
//! escaped strings, each with its exact textual specification.
use vstd::prelude::*;

verus! {

/// Text of one decimal digit.
pub open spec fn digit_text(d: nat) -> Seq<char> {
    if d == 0 {
        "0"@
    } else if d == 1 {
        "1"@
    } else if d == 2 {
        "2"@
    } else if d == 3 {
        "3"@
    } else if d == 4 {
        "4"@
    } else if d == 5 {
        "5"@
    } else if d == 6 {
        "6"@
    } else if d == 7 {
        "7"@
    } else if d == 8 {
        "8"@
    } else {
        "9"@
    }
}

/// Decimal text of a natural number, without sign or leading zeros.
pub open spec fn decimal_text(n: nat) -> Seq<char>
    decreases n,
{
    if n < 10 {
        digit_text(n)
    } else {
        decimal_text(n / 10) + digit_text(n % 10)
    }
}

/// Text of one lowercase hexadecimal digit.
pub open spec fn hex_digit_text(d: nat) -> Seq<char> {
    if d < 10 {
        digit_text(d)
    } else if d == 10 {
        "a"@
    } else if d == 11 {
        "b"@
    } else if d == 12 {
        "c"@
    } else if d == 13 {
        "d"@
    } else if d == 14 {
        "e"@
    } else {
        "f"@
    }
}

/// Control characters: the Unicode general category `Cc`.
pub open spec fn is_control(c: char) -> bool {
    (c as u32) <= 0x1f || (0x7f <= (c as u32) && (c as u32) <= 0x9f)
}

/// `\u` escape of a character with four lowercase hexadecimal digits.
pub open spec fn unicode_escape(c: char) -> Seq<char> {
    let v = c as u32 as nat;
    "\\u"@ + hex_digit_text((v / 4096) % 16) + hex_digit_text((v / 256) % 16) + hex_digit_text(
        (v / 16) % 16,
    ) + hex_digit_text(v % 16)
}

/// Quotes, backslashes and control characters are written as escapes that
/// begin with a backslash and never stand for themselves; every other
/// character is written as itself.
pub proof fn lemma_escapes(c: char)
    ensures
        (c == '"' || c == '\\' || is_control(c)) ==> escaped_char(c).len() >= 2
            && escaped_char(c)[0] == '\\' && escaped_char(c) != seq![c],
        c == '"' ==> escaped_char(c) == seq!['\\', '"'],
        c == '\\' ==> escaped_char(c) == seq!['\\', '\\'],
        !(c == '"' || c == '\\' || is_control(c)) ==> escaped_char(c) == seq![c],
{
    reveal_strlit("\\\"");
    reveal_strlit("\\\\");
    reveal_strlit("\\n");
    reveal_strlit("\\r");
    reveal_strlit("\\t");
    reveal_strlit("\\u");
    if is_control(c) && c != '\n' && c != '\r' && c != '\t' {
        let v = c as u32 as nat;
        assert(unicode_escape(c) =~= "\\u"@ + (hex_digit_text((v / 4096) % 16) + hex_digit_text(
            (v / 256) % 16,
        ) + hex_digit_text((v / 16) % 16) + hex_digit_text(v % 16)));
        assert(unicode_escape(c)[0] == '\\');
    }
}

/// JSON text standing for one character inside a string literal.
pub open spec fn escaped_char(c: char) -> Seq<char> {
    if c == '"' {
        "\\\""@
    } else if c == '\\' {
        "\\\\"@
    } else if c == '\n' {
        "\\n"@
    } else if c == '\r' {
        "\\r"@
    } else if c == '\t' {
        "\\t"@
    } else if is_control(c) {
        unicode_escape(c)
    } else {
        seq![c]
    }
}

/// JSON text standing for a character sequence inside a string literal.
pub open spec fn escaped_text(s: Seq<char>) -> Seq<char>
    decreases s.len(),
{
    if s.len() == 0 {
        Seq::empty()
    } else {
        escaped_text(s.drop_last()) + escaped_char(s.last())
    }
}

/// Characters that stand for themselves inside a JSON string literal.
pub open spec fn is_plain_char(c: char) -> bool {
    ('a' <= c && c <= 'z') || c == '_'
}

/// Text made only of lowercase letters and underscores is written into a
/// JSON string literal unchanged.
pub proof fn lemma_plain_text_unescaped(s: Seq<char>)
    requires
        forall|i: int| 0 <= i < s.len() ==> is_plain_char(#[trigger] s[i]),
    ensures
        escaped_text(s) == s,
    decreases s.len(),
{
    if s.len() != 0 {
        let rest = s.drop_last();
        assert forall|i: int| 0 <= i < rest.len() implies is_plain_char(#[trigger] rest[i]) by {
            assert(rest[i] == s[i]);
        }
        lemma_plain_text_unescaped(rest);
        let c = s.last();
        assert(is_plain_char(s[s.len() - 1]));
        assert(escaped_char(c) == seq![c]);
        assert(s =~= rest + seq![c]);
    }
}

/// A JSON string literal holding `s`.
pub open spec fn json_string(s: Seq<char>) -> Seq<char> {
    "\""@ + escaped_text(s) + "\""@
}

fn push_digit(output: &mut String, digit: u32)
    requires
        digit < 10,
    ensures
        final(output)@ == old(output)@ + digit_text(digit as nat),
{
    if digit == 0 {
        output.append("0");
    } else if digit == 1 {
        output.append("1");
    } else if digit == 2 {
        output.append("2");
    } else if digit == 3 {
        output.append("3");
    } else if digit == 4 {
        output.append("4");
    } else if digit == 5 {
        output.append("5");
    } else if digit == 6 {
        output.append("6");
    } else if digit == 7 {
        output.append("7");
    } else if digit == 8 {
        output.append("8");
    } else {
        output.append("9");
    }
}

fn push_hex_digit(output: &mut String, digit: u32)
    requires
        digit < 16,
    ensures
        final(output)@ == old(output)@ + hex_digit_text(digit as nat),
{
    if digit < 10 {
        push_digit(output, digit);
    } else if digit == 10 {
        output.append("a");
    } else if digit == 11 {
        output.append("b");
    } else if digit == 12 {
        output.append("c");
    } else if digit == 13 {
        output.append("d");
    } else if digit == 14 {
        output.append("e");
    } else {
        output.append("f");
    }
}

/// Appends the decimal text of `value`.
pub fn push_decimal(output: &mut String, value: u32)
    ensures
        final(output)@ == old(output)@ + decimal_text(value as nat),
    decreases value,
{
    if value >= 10 {
        push_decimal(output, value / 10);
        push_digit(output, value % 10);
        assert(output@ =~= old(output)@ + decimal_text(value as nat));
    } else {
        push_digit(output, value);
    }
}

/// Appends the JSON string literal holding `value`, escaping quotes,
/// backslashes and control characters.
pub fn push_json_string(output: &mut String, value: &str)
    ensures
        final(output)@ == old(output)@ + json_string(value@),
{
    output.append("\"");
    let length = value.unicode_len();
    let mut index: usize = 0;
    while index < length
        invariant
            length == value@.len(),
            index <= length,
            output@ == old(output)@ + "\""@ + escaped_text(value@.take(index as int)),
        decreases length - index,
    {
        let character = value.get_char(index);
        let ghost before = output@;
        if character == '"' {
            output.append("\\\"");
        } else if character == '\\' {
            output.append("\\\\");
        } else if character == '\n' {
            output.append("\\n");
        } else if character == '\r' {
            output.append("\\r");
        } else if character == '\t' {
            output.append("\\t");
        } else if (character as u32) <= 0x1f || (0x7f <= (character as u32) && (character as u32)
            <= 0x9f) {
            let code = character as u32;
            output.append("\\u");
            push_hex_digit(output, (code / 4096) % 16);
            push_hex_digit(output, (code / 256) % 16);
            push_hex_digit(output, (code / 16) % 16);
            push_hex_digit(output, code % 16);
            assert(output@ =~= before + unicode_escape(character));
        } else {
            output.append(value.substring_char(index, index + 1));
            assert(value@.subrange(index as int, index + 1) =~= seq![character]);
        }
        assert(output@ =~= before + escaped_char(character));
        assert(value@.take(index + 1).drop_last() =~= value@.take(index as int));
        assert(value@.take(index + 1).last() == character);
        index += 1;
    }
    assert(value@.take(length as int) =~= value@);
    output.append("\"");
}

} // verus!
