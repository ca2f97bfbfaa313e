//! Text building blocks: decimal numerals, concatenation and trimming.
use vstd::prelude::*;

verus! {

/// The decimal digit `d`, for `d < 10`.
pub open spec fn digit(d: nat) -> char {
    (('0' as nat) + d) as char
}

/// The decimal numeral of `n`, without leading zeros.
pub open spec fn decimal(n: nat) -> Seq<char>
    decreases n,
{
    if n < 10 {
        seq![digit(n)]
    } else {
        decimal(n / 10).push(digit(n % 10))
    }
}

fn digit_text(d: u64) -> (r: &'static str)
    requires
        d < 10,
    ensures
        r@ == seq![digit(d as nat)],
{
    proof {
        reveal_strlit("0");
        reveal_strlit("1");
        reveal_strlit("2");
        reveal_strlit("3");
        reveal_strlit("4");
        reveal_strlit("5");
        reveal_strlit("6");
        reveal_strlit("7");
        reveal_strlit("8");
        reveal_strlit("9");
    }
    match d {
        0 => "0",
        1 => "1",
        2 => "2",
        3 => "3",
        4 => "4",
        5 => "5",
        6 => "6",
        7 => "7",
        8 => "8",
        _ => "9",
    }
}

/// Writes `n` in decimal.
pub fn decimal_text(n: u64) -> (r: String)
    ensures
        r@ == decimal(n as nat),
    decreases n,
{
    if n < 10 {
        digit_text(n).to_owned()
    } else {
        let mut r = decimal_text(n / 10);
        r.append(digit_text(n % 10));
        r
    }
}

/// `first` followed by `second`.
pub fn joined(first: &str, second: &str) -> (r: String)
    ensures
        r@ == first@ + second@,
{
    let mut r = first.to_owned();
    r.append(second);
    r
}

/// `first`, `second` and `third`, one after another.
pub fn joined3(first: &str, second: &str, third: &str) -> (r: String)
    ensures
        r@ == first@ + second@ + third@,
{
    let mut r = joined(first, second);
    r.append(third);
    r
}

/// `text` without the run of `c` at its end.
pub open spec fn trim_end(text: Seq<char>, c: char) -> Seq<char>
    decreases text.len(),
{
    if text.len() > 0 && text.last() == c {
        trim_end(text.drop_last(), c)
    } else {
        text
    }
}

/// Removes every slash at the end of `text`.
pub fn trim_end_slashes(text: &str) -> (r: String)
    ensures
        r@ == trim_end(text@, '/'),
{
    let mut end: usize = text.unicode_len();
    assert(text@.subrange(0, end as int) =~= text@);
    while end > 0 && text.get_char(end - 1) == '/'
        invariant
            end <= text@.len(),
            trim_end(text@, '/') == trim_end(text@.subrange(0, end as int), '/'),
        decreases end,
    {
        assert(text@.subrange(0, end as int).drop_last() =~= text@.subrange(0, end - 1));
        end = end - 1;
    }
    text.substring_char(0, end).to_owned()
}

/// Whether `c` is white space: it has the Unicode property White_Space.
pub open spec fn white_space(c: char) -> bool {
    let n = c as int;
    ||| 0x9 <= n <= 0xd
    ||| n == 0x20
    ||| n == 0x85
    ||| n == 0xa0
    ||| n == 0x1680
    ||| 0x2000 <= n <= 0x200a
    ||| n == 0x2028
    ||| n == 0x2029
    ||| n == 0x202f
    ||| n == 0x205f
    ||| n == 0x3000
}

/// `text` without the white space at its start.
pub open spec fn without_leading_space(text: Seq<char>) -> Seq<char>
    decreases text.len(),
{
    if text.len() > 0 && white_space(text.first()) {
        without_leading_space(text.drop_first())
    } else {
        text
    }
}

/// `text` without the white space at its end.
pub open spec fn without_trailing_space(text: Seq<char>) -> Seq<char>
    decreases text.len(),
{
    if text.len() > 0 && white_space(text.last()) {
        without_trailing_space(text.drop_last())
    } else {
        text
    }
}

/// `text` without the white space around it.
pub open spec fn trimmed(text: Seq<char>) -> Seq<char> {
    without_trailing_space(without_leading_space(text))
}

/// `str::trim`. Claimed of it: it removes the run of white space at the start and the one at the
/// end, and nothing else; white space is what Unicode gives the property White_Space.
#[verifier::external_body]
pub(crate) fn trim(text: &str) -> (r: String)
    ensures
        r@ == trimmed(text@),
{
    text.trim().to_string()
}

/// Whether `text` is white space only.
pub open spec fn is_blank(text: Seq<char>) -> bool {
    forall|i: int| 0 <= i < text.len() ==> white_space(#[trigger] text[i])
}

/// Whether `text` neither starts nor ends with white space.
pub open spec fn has_bare_ends(text: Seq<char>) -> bool {
    text.len() > 0 ==> !white_space(text.first()) && !white_space(text.last())
}

proof fn leading_space_goes(lead: Seq<char>, rest: Seq<char>)
    requires
        is_blank(lead),
    ensures
        without_leading_space(lead + rest) == without_leading_space(rest),
    decreases lead.len(),
{
    if lead.len() == 0 {
        assert(lead + rest =~= rest);
    } else {
        assert((lead + rest).first() == lead[0]);
        assert((lead + rest).drop_first() =~= lead.drop_first() + rest);
        leading_space_goes(lead.drop_first(), rest);
    }
}

proof fn trailing_space_goes(rest: Seq<char>, trail: Seq<char>)
    requires
        is_blank(trail),
    ensures
        without_trailing_space(rest + trail) == without_trailing_space(rest),
    decreases trail.len(),
{
    if trail.len() == 0 {
        assert(rest + trail =~= rest);
    } else {
        assert((rest + trail).last() == trail[trail.len() - 1]);
        assert((rest + trail).drop_last() =~= rest + trail.drop_last());
        trailing_space_goes(rest, trail.drop_last());
    }
}

/// White space added at the ends of a text that has none there is what trimming removes.
pub proof fn trimming_undoes_padding(lead: Seq<char>, text: Seq<char>, trail: Seq<char>)
    requires
        is_blank(lead),
        is_blank(trail),
        has_bare_ends(text),
    ensures
        trimmed(lead + text + trail) == text,
{
    assert(lead + text + trail =~= lead + (text + trail));
    leading_space_goes(lead, text + trail);
    if text.len() == 0 {
        assert(text + trail =~= trail + text);
        leading_space_goes(trail, text);
    } else {
        assert((text + trail).first() == text.first());
        trailing_space_goes(text, trail);
    }
}

/// The number that a decimal numeral stands for.
pub open spec fn numeral_value(numeral: Seq<char>) -> int
    decreases numeral.len(),
{
    if numeral.len() == 0 {
        0
    } else {
        10 * numeral_value(numeral.drop_last()) + (numeral.last() as int - '0' as int)
    }
}

/// A decimal numeral reads back as its number, is made of digits only, and has no leading zero but
/// for zero itself.
pub proof fn numeral_reads_back(n: nat)
    ensures
        numeral_value(decimal(n)) == n,
        decimal(n).len() > 0,
        forall|i: int|
            0 <= i < decimal(n).len() ==> '0' <= #[trigger] decimal(n)[i] && decimal(n)[i] <= '9',
        n > 0 ==> decimal(n)[0] != '0',
    decreases n,
{
    if n < 10 {
        assert(decimal(n).drop_last() =~= Seq::<char>::empty());
        assert(numeral_value(Seq::<char>::empty()) == 0);
    } else {
        numeral_reads_back(n / 10);
        assert(decimal(n).drop_last() =~= decimal(n / 10));
        assert(decimal(n)[0] == decimal(n / 10)[0]);
        assert forall|i: int| 0 <= i < decimal(n).len() implies '0' <= #[trigger] decimal(n)[i]
            && decimal(n)[i] <= '9' by {
            if i < decimal(n / 10).len() {
                assert(decimal(n)[i] == decimal(n / 10)[i]);
            }
        }
    }
}

/// What is removed from the end of a text is a run of that character, all of it and nothing else.
pub proof fn only_the_end_is_trimmed(text: Seq<char>, c: char)
    ensures
        trim_end(text, c).is_prefix_of(text),
        trim_end(text, c).len() > 0 ==> trim_end(text, c).last() != c,
        forall|i: int| trim_end(text, c).len() <= i < text.len() ==> #[trigger] text[i] == c,
    decreases text.len(),
{
    if text.len() > 0 && text.last() == c {
        let rest = text.drop_last();
        only_the_end_is_trimmed(rest, c);
        assert(trim_end(text, c) =~= text.subrange(0, trim_end(text, c).len() as int)) by {
            assert(trim_end(rest, c) =~= rest.subrange(0, trim_end(rest, c).len() as int));
        }
        assert forall|i: int| trim_end(text, c).len() <= i < text.len() implies #[trigger] text[i]
            == c by {
            if i < rest.len() {
                assert(rest[i] == text[i]);
            }
        }
    } else {
        assert(text =~= text.subrange(0, text.len() as int));
    }
}

/// Two texts, one after another, start with the first and end with the second.
pub proof fn both_ends_are_kept(first: Seq<char>, second: Seq<char>)
    ensures
        first.is_prefix_of(first + second),
        second.is_suffix_of(first + second),
{
    let both = first + second;
    assert(both.subrange(0, first.len() as int) =~= first);
    assert(both.subrange(first.len() as int, both.len() as int) =~= second);
}

} // verus!
