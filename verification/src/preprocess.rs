//! Colour literals in script text.
//!
//! A script may write a colour as `#` and six hexadecimal digits. Before the
//! script runs, each such literal is replaced by its three channels in
//! decimal, separated by commas: `#FF00AA` becomes `255,0,170`.

use crate::text::{chars_of, decimal, hex_digit, hex_digit_value, is_hex_digit, push_decimal};
use vstd::prelude::*;
use vstd::string::StringExecFns;

verus! {

/// True when `text` begins with a colour literal.
pub open spec fn is_color_literal(text: Seq<char>) -> bool {
    &&& text.len() >= 7
    &&& text[0] == '#'
    &&& forall|k: int| 1 <= k <= 6 ==> is_hex_digit(#[trigger] text[k])
}

/// The number that the two hexadecimal digits `high` and `low` write.
pub open spec fn channel(high: char, low: char) -> nat {
    16 * hex_digit_value(high) + hex_digit_value(low)
}

/// `red`, `green` and `blue` in decimal, separated by commas.
pub open spec fn decimal_triple(red: nat, green: nat, blue: nat) -> Seq<char> {
    decimal(red) + seq![','] + decimal(green) + seq![','] + decimal(blue)
}

/// The text that takes the place of the colour literal at the start of
/// `text`.
pub open spec fn literal_value(text: Seq<char>) -> Seq<char>
    recommends
        is_color_literal(text),
{
    decimal_triple(
        channel(text[1], text[2]),
        channel(text[3], text[4]),
        channel(text[5], text[6]),
    )
}

/// `text` with every colour literal replaced by its value. The text is read
/// from left to right, and what a literal has been replaced by is not read
/// again.
pub open spec fn expand_color_literals(text: Seq<char>) -> Seq<char>
    decreases text.len(),
{
    if text.len() == 0 {
        text
    } else if is_color_literal(text) {
        literal_value(text) + expand_color_literals(text.skip(7))
    } else {
        seq![text[0]] + expand_color_literals(text.skip(1))
    }
}

/// True when `text` is two hexadecimal digits.
pub open spec fn is_hex_pair(text: Seq<char>) -> bool {
    text.len() == 2 && is_hex_digit(text[0]) && is_hex_digit(text[1])
}

/// The number that the two hexadecimal digits of `pair` write.
fn parse_channel(pair: &str) -> (value: usize)
    requires
        is_hex_pair(pair@),
    ensures
        value == channel(pair@[0], pair@[1]),
        value < 256,
{
    let digits = chars_of(pair);
    let high: usize = match hex_digit(digits[0]) {
        Some(value) => value,
        None => 0,
    };
    let low: usize = match hex_digit(digits[1]) {
        Some(value) => value,
        None => 0,
    };
    16 * high + low
}

/// The three channels, each given by two hexadecimal digits, in decimal and
/// separated by commas.
pub fn color_triple(red: &str, green: &str, blue: &str) -> (text: String)
    requires
        is_hex_pair(red@),
        is_hex_pair(green@),
        is_hex_pair(blue@),
    ensures
        text@ == decimal_triple(
            channel(red@[0], red@[1]),
            channel(green@[0], green@[1]),
            channel(blue@[0], blue@[1]),
        ),
{
    proof {
        reveal_strlit(",");
    }
    let mut text = String::new();
    push_decimal(&mut text, parse_channel(red));
    text.append(",");
    push_decimal(&mut text, parse_channel(green));
    text.append(",");
    push_decimal(&mut text, parse_channel(blue));
    assert(text@ =~= decimal_triple(
        channel(red@[0], red@[1]),
        channel(green@[0], green@[1]),
        channel(blue@[0], blue@[1]),
    ));
    text
}

/// The pattern of a colour literal: `#`, then three groups of two
/// hexadecimal digits.
pub const COLOR_LITERAL_PATTERN: &'static str = "#([0-9a-fA-F]{2})([0-9a-fA-F]{2})([0-9a-fA-F]{2})";

/// `regex::Regex::new` and `regex::Regex::replace_all`, for the pattern of a
/// colour literal: every match of the pattern in `text`, from left to right
/// and none overlapping another, is replaced by what `color_triple` makes of
/// its three groups; the text between the matches stays. A match of this
/// pattern is `#` followed by six of the characters `0`-`9`, `a`-`f`, `A`-`F`,
/// so no two matches can overlap and the matches are the colour literals.
#[verifier::external_body]
fn replace_color_literals(pattern: &str, text: &str) -> (out: String)
    requires
        pattern@ == COLOR_LITERAL_PATTERN@,
    ensures
        out@ == expand_color_literals(text@),
{
    let re = regex::Regex::new(pattern).unwrap();
    re.replace_all(
        text,
        |caps: &regex::Captures<'_>| color_triple(&caps[1], &caps[2], &caps[3]),
    ).into_owned()
}

/// The script text as it is run: every colour literal replaced by its three
/// channels in decimal.
pub fn preprocess(script: &str) -> (out: String)
    ensures
        out@ == expand_color_literals(script@),
{
    replace_color_literals(COLOR_LITERAL_PATTERN, script)
}

/// A text without `#` holds no colour literal and stays as it is.
pub proof fn lemma_plain_text_stays(text: Seq<char>)
    requires
        forall|i: int| 0 <= i < text.len() ==> text[i] != '#',
    ensures
        expand_color_literals(text) == text,
    decreases text.len(),
{
    if text.len() > 0 {
        let rest = text.skip(1);
        assert forall|i: int| 0 <= i < rest.len() implies rest[i] != '#' by {
            assert(rest[i] == text[i + 1]);
        }
        lemma_plain_text_stays(rest);
        assert(seq![text[0]] + rest =~= text);
    }
}

/// Where a colour literal follows a text without `#`, the text stays and
/// the literal is replaced by its value; what follows the literal is
/// expanded on its own.
pub proof fn lemma_literal_is_replaced(before: Seq<char>, literal: Seq<char>, after: Seq<char>)
    requires
        forall|i: int| 0 <= i < before.len() ==> before[i] != '#',
        literal.len() == 7,
        is_color_literal(literal),
    ensures
        expand_color_literals(before + literal + after) == before + literal_value(literal)
            + expand_color_literals(after),
    decreases before.len(),
{
    let text = before + literal + after;
    if before.len() == 0 {
        assert(text =~= literal + after);
        assert(is_color_literal(text)) by {
            assert forall|k: int| 1 <= k <= 6 implies is_hex_digit(#[trigger] text[k]) by {
                assert(text[k] == literal[k]);
            }
        }
        assert(text.skip(7) =~= after);
        assert(literal_value(text) == literal_value(literal));
        assert(expand_color_literals(text) =~= before + literal_value(literal)
            + expand_color_literals(after));
    } else {
        let rest = before.skip(1);
        assert(text[0] == before[0]);
        assert(!is_color_literal(text));
        assert(text.skip(1) =~= rest + literal + after);
        assert forall|i: int| 0 <= i < rest.len() implies rest[i] != '#' by {
            assert(rest[i] == before[i + 1]);
        }
        lemma_literal_is_replaced(rest, literal, after);
        assert(seq![text[0]] + rest =~= before);
        assert(expand_color_literals(text) =~= before + literal_value(literal)
            + expand_color_literals(after));
    }
}

} // verus!
