//! Text on which the other modules agree: comparison, trimming, searching and decimal numbers.

use vstd::prelude::*;
use vstd::string::*;
use vstd::utf8::*;

verus! {

/// A character with the Unicode property `White_Space`.
pub open spec fn is_white_space(c: char) -> bool {
    let u = c as u32;
    ||| 0x9 <= u <= 0xd
    ||| u == 0x20
    ||| u == 0x85
    ||| u == 0xa0
    ||| u == 0x1680
    ||| 0x2000 <= u <= 0x200a
    ||| u == 0x2028
    ||| u == 0x2029
    ||| u == 0x202f
    ||| u == 0x205f
    ||| u == 0x3000
}

/// Text without a single visible character.
pub open spec fn is_blank(text: Seq<char>) -> bool {
    forall|i: int| 0 <= i < text.len() ==> is_white_space(#[trigger] text[i])
}

/// The text without the white space at its two ends.
pub open spec fn trimmed(text: Seq<char>) -> Seq<char>
    decreases text.len(),
{
    if text.len() > 0 && is_white_space(text.first()) {
        trimmed(text.drop_first())
    } else if text.len() > 0 && is_white_space(text.last()) {
        trimmed(text.drop_last())
    } else {
        text
    }
}

/// `needle` stands somewhere in `haystack`.
pub open spec fn occurs_in(needle: Seq<char>, haystack: Seq<char>) -> bool {
    exists|i: int|
        0 <= i <= haystack.len() - needle.len() && #[trigger] haystack.subrange(
            i,
            i + needle.len(),
        ) == needle
}

/// The character of a decimal digit.
pub open spec fn digit(n: nat) -> char {
    (0x30 + n) as char
}

/// A number in decimal notation, without leading zeros.
pub open spec fn decimal_text(n: nat) -> Seq<char>
    decreases n,
{
    if n < 10 {
        seq![digit(n)]
    } else {
        decimal_text(n / 10).push(digit(n % 10))
    }
}

/// Compares two texts.
pub fn same_text(left: &str, right: &str) -> (same: bool)
    ensures
        same == (left@ == right@),
{
    let left_bytes = left.as_bytes();
    let right_bytes = right.as_bytes();
    proof {
        encode_utf8_decode_utf8(left@);
        encode_utf8_decode_utf8(right@);
    }
    if left_bytes.len() != right_bytes.len() {
        return false;
    }
    let mut i: usize = 0;
    while i < left_bytes.len()
        invariant
            left_bytes@.len() == right_bytes@.len(),
            left_bytes@ == encode_utf8(left@),
            right_bytes@ == encode_utf8(right@),
            i <= left_bytes@.len(),
            forall|j: int| 0 <= j < i ==> left_bytes@[j] == right_bytes@[j],
        decreases left_bytes@.len() - i,
    {
        if left_bytes[i] != right_bytes[i] {
            return false;
        }
        i = i + 1;
    }
    assert(left_bytes@ =~= right_bytes@);
    true
}

/// Tells whether a character is white space.
pub fn white_space(c: char) -> (found: bool)
    ensures
        found == is_white_space(c),
{
    let u: u32 = c as u32;
    (0x9 <= u && u <= 0xd) || u == 0x20 || u == 0x85 || u == 0xa0 || u == 0x1680 || (0x2000 <= u
        && u <= 0x200a) || u == 0x2028 || u == 0x2029 || u == 0x202f || u == 0x205f || u == 0x3000
}

/// The characters of a text.
pub fn characters(text: &str) -> (result: Vec<char>)
    ensures
        result@ == text@,
{
    let mut result: Vec<char> = Vec::new();
    for c in iter: text.chars()
        invariant
            iter.seq() == text@,
            result@ == text@.take(iter.index() as int),
    {
        result.push(c);
    }
    assert(text@.take(text@.len() as int) =~= text@);
    result
}

/// Tells whether a text holds nothing but white space.
pub fn blank(text: &str) -> (empty: bool)
    ensures
        empty == is_blank(text@),
{
    let chars = characters(text);
    let mut i: usize = 0;
    while i < chars.len()
        invariant
            chars@ == text@,
            i <= chars@.len(),
            forall|j: int| 0 <= j < i ==> is_white_space(#[trigger] text@[j]),
        decreases chars@.len() - i,
    {
        if !white_space(chars[i]) {
            assert(!is_white_space(text@[i as int]));
            return false;
        }
        i = i + 1;
    }
    true
}

/// Removes the white space at the two ends of a text.
pub fn trim(text: &str) -> (result: String)
    ensures
        result@ == trimmed(text@),
{
    let chars = characters(text);
    let mut from: usize = 0;
    let mut to: usize = chars.len();
    assert(text@ =~= text@.subrange(0, to as int));
    while from < to && white_space(chars[from])
        invariant
            chars@ == text@,
            from <= to == chars@.len(),
            trimmed(text@) == trimmed(text@.subrange(from as int, to as int)),
        decreases to - from,
    {
        assert(text@.subrange(from as int, to as int).drop_first() =~= text@.subrange(
            from + 1,
            to as int,
        ));
        from = from + 1;
    }
    while from < to && white_space(chars[to - 1])
        invariant
            chars@ == text@,
            from <= to <= chars@.len(),
            from < to ==> !is_white_space(text@[from as int]),
            trimmed(text@) == trimmed(text@.subrange(from as int, to as int)),
        decreases to - from,
    {
        assert(text@.subrange(from as int, to as int).drop_last() =~= text@.subrange(
            from as int,
            to - 1,
        ));
        to = to - 1;
    }
    text.substring_char(from, to).to_string()
}

/// Tells whether `needle` stands somewhere in `haystack`.
pub fn contains(haystack: &str, needle: &str) -> (found: bool)
    ensures
        found == occurs_in(needle@, haystack@),
{
    let hay = characters(haystack);
    let sought = characters(needle);
    if sought.len() > hay.len() {
        return false;
    }
    let last: usize = hay.len() - sought.len();
    let mut start: usize = 0;
    loop
        invariant
            hay@ == haystack@,
            sought@ == needle@,
            sought@.len() + last == hay@.len(),
            start <= last,
            forall|i: int|
                0 <= i < start ==> #[trigger] haystack@.subrange(i, i + needle@.len()) != needle@,
        decreases last - start,
    {
        let mut matched: usize = 0;
        while matched < sought.len() && hay[start + matched] == sought[matched]
            invariant
                hay@ == haystack@,
                sought@ == needle@,
                start + sought@.len() <= hay.len(),
                matched <= sought@.len(),
                forall|j: int| 0 <= j < matched ==> hay@[start + j] == sought@[j],
            decreases sought@.len() - matched,
        {
            matched = matched + 1;
        }
        if matched == sought.len() {
            assert(haystack@.subrange(start as int, start + needle@.len()) =~= needle@);
            return true;
        }
        assert(haystack@.subrange(start as int, start + needle@.len())[matched as int]
            != needle@[matched as int]);
        if start == last {
            return false;
        }
        start = start + 1;
    }
}

/// The text of one decimal digit.
fn digit_text(n: u64) -> (text: &'static str)
    requires
        n < 10,
    ensures
        text@ == seq![digit(n as nat)],
{
    proof {
        reveal_strlit("0");
        reveal_strlit("1");
        reveal_strlit("2");
        reveal_strlit("3");
        reveal_strlit("4");
        reveal_strlit("5");
        reveal_strlit("6");
        reveal_strlit("7");
        reveal_strlit("8");
        reveal_strlit("9");
    }
    let text = match n {
        0 => "0",
        1 => "1",
        2 => "2",
        3 => "3",
        4 => "4",
        5 => "5",
        6 => "6",
        7 => "7",
        8 => "8",
        _ => "9",
    };
    assert(text@ =~= seq![digit(n as nat)]);
    text
}

/// Writes a number in decimal notation.
pub fn decimal(n: u64) -> (text: String)
    ensures
        text@ == decimal_text(n as nat),
    decreases n,
{
    if n < 10 {
        digit_text(n).to_string()
    } else {
        let head = decimal(n / 10);
        let ghost before = head@;
        let text = head.concat(digit_text(n % 10));
        assert(text@ =~= before.push(digit((n % 10) as nat)));
        text
    }
}

/// Trimming takes white space away from the two ends, all of it and nothing else: what is left
/// begins and ends with a visible character or is empty, and what is gone on either side is blank.
pub proof fn trimming_takes_the_blank_ends(text: Seq<char>) -> (ends: (int, int))
    ensures
        0 <= ends.0 <= ends.1 <= text.len(),
        trimmed(text) == text.subrange(ends.0, ends.1),
        is_blank(text.take(ends.0)),
        is_blank(text.skip(ends.1)),
        trimmed(text).len() > 0 ==> !is_white_space(trimmed(text).first()) && !is_white_space(
            trimmed(text).last(),
        ),
        trimmed(text).len() == 0 <==> is_blank(text),
    decreases text.len(),
{
    if text.len() > 0 && is_white_space(text.first()) {
        let rest = text.drop_first();
        let inner = trimming_takes_the_blank_ends(rest);
        let ends = (inner.0 + 1, inner.1 + 1);
        assert(text.subrange(ends.0, ends.1) =~= rest.subrange(inner.0, inner.1));
        assert forall|i: int| 0 <= i < text.take(ends.0).len() implies is_white_space(
            #[trigger] text.take(ends.0)[i],
        ) by {
            if i > 0 {
                assert(text.take(ends.0)[i] == rest.take(inner.0)[i - 1]);
            }
        }
        assert(text.skip(ends.1) =~= rest.skip(inner.1));
        if is_blank(rest) {
            assert forall|i: int| 0 <= i < text.len() implies is_white_space(#[trigger] text[i]) by {
                if i > 0 {
                    assert(rest[i - 1] == text[i]);
                }
            }
        }
        if is_blank(text) {
            assert forall|i: int| 0 <= i < rest.len() implies is_white_space(#[trigger] rest[i]) by {
                assert(rest[i] == text[i + 1]);
            }
        }
        ends
    } else if text.len() > 0 && is_white_space(text.last()) {
        let rest = text.drop_last();
        let inner = trimming_takes_the_blank_ends(rest);
        assert(text.subrange(inner.0, inner.1) =~= rest.subrange(inner.0, inner.1));
        assert(text.take(inner.0) =~= rest.take(inner.0));
        assert forall|i: int| 0 <= i < text.skip(inner.1).len() implies is_white_space(
            #[trigger] text.skip(inner.1)[i],
        ) by {
            if i < text.skip(inner.1).len() - 1 {
                assert(text.skip(inner.1)[i] == rest.skip(inner.1)[i]);
            }
        }
        assert(!is_white_space(text[0]));
        inner
    } else {
        assert(text.subrange(0, text.len() as int) =~= text);
        if text.len() > 0 {
            assert(!is_white_space(text[0]));
        }
        (0, text.len() as int)
    }
}

/// The number that decimal digits stand for.
pub open spec fn number_of(text: Seq<char>) -> nat
    decreases text.len(),
{
    if text.len() == 0 {
        0
    } else {
        number_of(text.drop_last()) * 10 + (text.last() as u32 - 0x30) as nat
    }
}

/// A number in decimal notation is read back as that number, is made of digits alone, and begins
/// with a zero only if it is zero.
pub proof fn decimals_are_read_back(n: nat)
    ensures
        number_of(decimal_text(n)) == n,
        decimal_text(n).len() > 0,
        forall|i: int|
            0 <= i < decimal_text(n).len() ==> 0x30 <= (#[trigger] decimal_text(n)[i]) as u32
                <= 0x39,
        decimal_text(n)[0] as u32 == 0x30 <==> n == 0,
    decreases n,
{
    if n < 10 {
        assert(decimal_text(n).drop_last() =~= Seq::empty());
        assert(number_of(Seq::<char>::empty()) == 0);
    } else {
        decimals_are_read_back(n / 10);
        let head = decimal_text(n / 10);
        assert(decimal_text(n).drop_last() =~= head);
        assert forall|i: int| 0 <= i < decimal_text(n).len() implies 0x30 <= (
        #[trigger] decimal_text(n)[i]) as u32 <= 0x39 by {
            if i < head.len() {
                assert(decimal_text(n)[i] == head[i]);
            }
        }
        assert(decimal_text(n)[0] == head[0]);
    }
}

/// A text occurs in another exactly if the other is made of something before it, the text, and
/// something after it.
pub proof fn an_occurrence_splits_the_text(
    before: Seq<char>,
    needle: Seq<char>,
    after: Seq<char>,
    haystack: Seq<char>,
)
    ensures
        occurs_in(needle, before + needle + after),
        occurs_in(needle, haystack) ==> exists|head: Seq<char>, tail: Seq<char>|
            haystack == #[trigger] (head + needle + tail),
{
    let whole = before + needle + after;
    let start = before.len() as int;
    assert(whole.subrange(start, start + needle.len()) =~= needle);
    if occurs_in(needle, haystack) {
        let i = choose|i: int|
            0 <= i <= haystack.len() - needle.len() && #[trigger] haystack.subrange(
                i,
                i + needle.len(),
            ) == needle;
        let head = haystack.take(i);
        let tail = haystack.skip(i + needle.len());
        assert(haystack =~= head + needle + tail) by {
            assert(haystack.subrange(i, i + needle.len()) == needle);
        }
    }
}

} // verus!
