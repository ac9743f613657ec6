//! What texts, numerals and hexadecimal digits stand for.

use crate::digest::hex_text;
use crate::text::{decimal_text, is_white_space, joined, trimmed_end, trimmed_start};
use vstd::prelude::*;

verus! {

/// White space is what Unicode calls so: these code points and no others.
pub proof fn law_white_space_is_the_unicode_property(c: char)
    ensures
        is_white_space(c) <==> {
            let n = c as int;
            ||| 0x9 <= n <= 0xd
            ||| n == 0x20
            ||| n == 0x85
            ||| n == 0xa0
            ||| n == 0x1680
            ||| 0x2000 <= n <= 0x200a
            ||| n == 0x2028
            ||| n == 0x2029
            ||| n == 0x202f
            ||| n == 0x205f
            ||| n == 0x3000
        },
{
}

/// Trimming the end leaves a text as it is up to where nothing but white space follows, and leaves
/// no white space at the end.
pub proof fn law_trimming_the_end_drops_only_white_space(s: Seq<char>)
    ensures
        trimmed_end(s).len() <= s.len(),
        trimmed_end(s) == s.take(trimmed_end(s).len() as int),
        forall|i: int| trimmed_end(s).len() <= i < s.len() ==> is_white_space(#[trigger] s[i]),
        trimmed_end(s).len() > 0 ==> !is_white_space(trimmed_end(s).last()),
    decreases s.len(),
{
    if s.len() > 0 && is_white_space(s.last()) {
        let front = s.drop_last();
        law_trimming_the_end_drops_only_white_space(front);
        assert forall|i: int| trimmed_end(s).len() <= i < s.len() implies is_white_space(
            #[trigger] s[i],
        ) by {
            if i < front.len() {
                assert(is_white_space(front[i]));
            }
        }
    }
}

/// Trimming the start leaves a text as it is from where nothing but white space precedes, and
/// leaves no white space at the start.
pub proof fn law_trimming_the_start_drops_only_white_space(s: Seq<char>)
    ensures
        trimmed_start(s).len() <= s.len(),
        trimmed_start(s) == s.skip(s.len() - trimmed_start(s).len()),
        forall|i: int|
            0 <= i < s.len() - trimmed_start(s).len() ==> is_white_space(#[trigger] s[i]),
        trimmed_start(s).len() > 0 ==> !is_white_space(trimmed_start(s)[0]),
    decreases s.len(),
{
    if s.len() > 0 && is_white_space(s[0]) {
        let rest = s.drop_first();
        law_trimming_the_start_drops_only_white_space(rest);
        assert forall|i: int| 0 <= i < s.len() - trimmed_start(s).len() implies is_white_space(
            #[trigger] s[i],
        ) by {
            if i > 0 {
                assert(is_white_space(rest[i - 1]));
            }
        }
    }
}

/// The number that a text of decimal digits stands for.
pub open spec fn numeral_value(s: Seq<char>) -> int
    decreases s.len(),
{
    if s.len() == 0 {
        0
    } else {
        10 * numeral_value(s.drop_last()) + (s.last() as int - '0' as int)
    }
}

/// A numeral is made of decimal digits, stands for its number, and has no leading zero.
pub proof fn law_numeral_stands_for_its_number(n: nat)
    ensures
        numeral_value(decimal_text(n)) == n,
        forall|i: int|
            0 <= i < decimal_text(n).len() ==> '0' <= #[trigger] decimal_text(n)[i] <= '9',
        decimal_text(n).len() >= 1,
        n > 0 ==> decimal_text(n)[0] != '0',
        n == 0 ==> decimal_text(n).len() == 1,
    decreases n,
{
    let s = decimal_text(n);
    if n < 10 {
        assert(s.drop_last() =~= Seq::<char>::empty());
        assert(numeral_value(s.drop_last()) == 0);
    } else {
        law_numeral_stands_for_its_number(n / 10);
        assert(s.drop_last() =~= decimal_text(n / 10));
        assert(s[0] == decimal_text(n / 10)[0]);
    }
}

/// The number that a lowercase hexadecimal digit stands for.
pub open spec fn hex_value(c: char) -> int {
    if '0' <= c <= '9' {
        c as int - '0' as int
    } else {
        c as int - 'a' as int + 10
    }
}

/// Hexadecimal text has two lowercase digits for each byte, which stand for the byte.
pub proof fn law_hexadecimal_text_stands_for_its_bytes(bytes: Seq<u8>, i: int)
    requires
        0 <= i < bytes.len(),
    ensures
        hex_text(bytes).len() == 2 * bytes.len(),
        16 * hex_value(hex_text(bytes)[2 * i]) + hex_value(hex_text(bytes)[2 * i + 1]) == bytes[i],
        forall|j: int|
            0 <= j < hex_text(bytes).len() ==> '0' <= #[trigger] hex_text(bytes)[j] <= '9' || 'a'
                <= hex_text(bytes)[j] <= 'f',
{
}

/// Where line `i` starts when lines stand one after the other with `gap` characters in between.
pub open spec fn line_start(lines: Seq<Seq<char>>, gap: nat, i: int) -> int
    decreases i,
{
    if i <= 0 {
        0
    } else {
        line_start(lines, gap, i - 1) + lines[i - 1].len() + gap
    }
}

proof fn lemma_line_start_of_front(lines: Seq<Seq<char>>, gap: nat, i: int)
    requires
        0 <= i < lines.len(),
    ensures
        line_start(lines.drop_last(), gap, i) == line_start(lines, gap, i),
        0 <= line_start(lines, gap, i),
    decreases i,
{
    if i > 0 {
        lemma_line_start_of_front(lines, gap, i - 1);
    }
}

/// Joined lines are the lines in their order, whole, with the separator between each two and
/// nothing else.
pub proof fn law_joined_lines_keep_every_line(lines: Seq<Seq<char>>, separator: Seq<char>, i: int)
    requires
        0 <= i < lines.len(),
    ensures
        ({
            let text = joined(lines, separator);
            let start = line_start(lines, separator.len(), i);
            let last = lines.len() - 1;
            &&& text.len() == line_start(lines, separator.len(), last) + lines[last].len()
            &&& 0 <= start <= start + lines[i].len() <= text.len()
            &&& text.subrange(start, start + lines[i].len()) == lines[i]
            &&& i > 0 ==> separator.len() <= start && text.subrange(start - separator.len(), start)
                == separator
        }),
    decreases lines.len(),
{
    let text = joined(lines, separator);
    let gap = separator.len();
    let last = lines.len() - 1;
    if lines.len() == 1 {
        assert(text.subrange(0, lines[0].len() as int) =~= lines[0]);
    } else {
        let front = lines.drop_last();
        let before = joined(front, separator);
        law_joined_lines_keep_every_line(front, separator, if i < last { i } else { 0 });
        lemma_line_start_of_front(lines, gap, last - 1);
        lemma_line_start_of_front(lines, gap, if i < last { i } else { 0 });
        assert(line_start(lines, gap, last) == before.len() + gap);
        let start = line_start(lines, gap, i);
        if i < last {
            assert(text.subrange(start, start + lines[i].len()) =~= before.subrange(
                start,
                start + lines[i].len(),
            ));
            if i > 0 {
                assert(text.subrange(start - gap, start) =~= before.subrange(start - gap, start));
            }
        } else {
            assert(text.subrange(start, start + lines[i].len()) =~= lines[i]);
            assert(text.subrange(start - gap, start) =~= separator);
        }
    }
}

} // verus!
