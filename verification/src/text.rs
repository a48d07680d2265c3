//! Text helpers that the rest of the library builds its strings with.

use vstd::prelude::*;
use vstd::string::StringExecFns;

verus! {

/// The items of `items`, with `sep` between each two neighbours.
pub open spec fn joined(items: Seq<Seq<char>>, sep: Seq<char>) -> Seq<char>
    decreases items.len(),
{
    if items.len() == 0 {
        Seq::empty()
    } else if items.len() == 1 {
        items[0]
    } else {
        joined(items.drop_last(), sep) + sep + items.last()
    }
}

/// The same texts once more.
pub fn copy_texts(texts: &Vec<String>) -> (out: Vec<String>)
    ensures
        out.deep_view() == texts.deep_view(),
{
    let mut out: Vec<String> = Vec::new();
    let mut at: usize = 0;
    while at < texts.len()
        invariant
            at <= texts.len(),
            out@.len() == at,
            forall|i: int| 0 <= i < at ==> (#[trigger] out@[i])@ == texts@[i]@,
        decreases texts.len() - at,
    {
        out.push(texts[at].clone());
        at += 1;
    }
    proof {
        assert(out.deep_view() =~= texts.deep_view());
    }
    out
}

/// Joins `items` with `sep` between each two neighbours.
pub fn join(items: &Vec<String>, sep: &str) -> (out: String)
    ensures
        out@ == joined(items.deep_view(), sep@),
{
    let mut out = String::new();
    let mut i: usize = 0;
    while i < items.len()
        invariant
            i <= items.len(),
            out@ == joined(items.deep_view().take(i as int), sep@),
        decreases items.len() - i,
    {
        proof {
            let all = items.deep_view();
            assert(all.take(i + 1).drop_last() =~= all.take(i as int));
            assert(all.take(i + 1).last() == items@[i as int]@);
        }
        if i > 0 {
            out.append(sep);
        }
        out.append(items[i].as_str());
        i += 1;
    }
    proof {
        assert(items.deep_view().take(i as int) =~= items.deep_view());
    }
    out
}

/// Whether `c` is white space: one of the characters that Unicode marks
/// as White_Space, which are the ones that `char::is_whitespace` accepts.
pub open spec fn white_space(c: char) -> bool {
    let code = c as u32;
    ||| 0x09 <= code <= 0x0D
    ||| code == 0x20
    ||| code == 0x85
    ||| code == 0xA0
    ||| code == 0x1680
    ||| 0x2000 <= code <= 0x200A
    ||| code == 0x2028
    ||| code == 0x2029
    ||| code == 0x202F
    ||| code == 0x205F
    ||| code == 0x3000
}

/// Whether `c` is white space.
pub fn is_white_space(c: char) -> (white: bool)
    ensures
        white == white_space(c),
{
    let code: u32 = c as u32;
    (0x09 <= code && code <= 0x0D) || code == 0x20 || code == 0x85 || code == 0xA0 || code
        == 0x1680 || (0x2000 <= code && code <= 0x200A) || code == 0x2028 || code == 0x2029
        || code == 0x202F || code == 0x205F || code == 0x3000
}

/// Whether every character of `s` is white space.
pub open spec fn blank(s: Seq<char>) -> bool {
    forall|i: int| 0 <= i < s.len() ==> white_space(#[trigger] s[i])
}

/// Whether `s` holds nothing but white space.
pub fn is_blank(s: &str) -> (out: bool)
    ensures
        out == blank(s@),
{
    broadcast use vstd::string::group_string_axioms;

    for c in it: s.chars()
        invariant
            it.seq() == s@,
            forall|i: int| 0 <= i < it.index() ==> white_space(#[trigger] s@[i]),
    {
        if !is_white_space(c) {
            return false;
        }
    }
    true
}

/// The characters of `s`, one by one.
pub fn chars_of(s: &str) -> (out: Vec<char>)
    ensures
        out@ == s@,
{
    broadcast use vstd::string::group_string_axioms;

    let mut out: Vec<char> = Vec::new();
    for c in it: s.chars()
        invariant
            it.seq() == s@,
            out@ == s@.take(it.index()),
    {
        out.push(c);
        proof {
            assert(s@.take(it.index() + 1) =~= s@.take(it.index()).push(s@[it.index()]));
        }
    }
    proof {
        assert(s@.take(s@.len() as int) =~= s@);
    }
    out
}

/// Whether `needle` stands in `hay` from position `at` on.
pub open spec fn occurs_at(hay: Seq<char>, needle: Seq<char>, at: int) -> bool {
    &&& 0 <= at
    &&& at + needle.len() <= hay.len()
    &&& hay.subrange(at, at + needle.len()) == needle
}

/// Whether `needle` stands somewhere in `hay`.
pub open spec fn occurs(hay: Seq<char>, needle: Seq<char>) -> bool {
    exists|at: int| occurs_at(hay, needle, at)
}

/// Whether the first `upto` characters of `needle` stand in `hay` from `at` on.
spec fn agrees(hay: Seq<char>, needle: Seq<char>, at: int, upto: int) -> bool {
    forall|k: int| 0 <= k < upto ==> hay[at + k] == needle[k]
}

fn matches_at(hay: &Vec<char>, needle: &Vec<char>, at: usize) -> (out: bool)
    requires
        at + needle.len() <= hay.len(),
    ensures
        out == occurs_at(hay@, needle@, at as int),
{
    let mut k: usize = 0;
    while k < needle.len()
        invariant
            k <= needle.len(),
            at + needle.len() <= hay.len(),
            agrees(hay@, needle@, at as int, k as int),
        decreases needle.len() - k,
    {
        if hay[at + k] != needle[k] {
            proof {
                let window = hay@.subrange(at as int, at + needle.len());
                assert(window[k as int] == hay@[at + k]);
            }
            return false;
        }
        k += 1;
    }
    proof {
        assert(hay@.subrange(at as int, at + needle.len()) =~= needle@);
    }
    true
}

/// Whether `needle` stands somewhere in `hay`. The empty text stands in
/// every text.
pub fn contains(hay: &str, needle: &str) -> (found: bool)
    ensures
        found == occurs(hay@, needle@),
{
    let hay_chars = chars_of(hay);
    let needle_chars = chars_of(needle);
    if needle_chars.len() > hay_chars.len() {
        return false;
    }
    let last: usize = hay_chars.len() - needle_chars.len();
    let mut at: usize = 0;
    loop
        invariant
            hay_chars@ == hay@,
            needle_chars@ == needle@,
            last == hay_chars.len() - needle_chars.len(),
            at <= last,
            forall|j: int| 0 <= j < at ==> !occurs_at(hay@, needle@, j),
        decreases last - at,
    {
        if matches_at(&hay_chars, &needle_chars, at) {
            return true;
        }
        if at == last {
            return false;
        }
        at += 1;
    }
}

/// The character that writes the digit `d`.
pub open spec fn digit(d: int) -> char {
    if d == 0 {
        '0'
    } else if d == 1 {
        '1'
    } else if d == 2 {
        '2'
    } else if d == 3 {
        '3'
    } else if d == 4 {
        '4'
    } else if d == 5 {
        '5'
    } else if d == 6 {
        '6'
    } else if d == 7 {
        '7'
    } else if d == 8 {
        '8'
    } else {
        '9'
    }
}

/// A natural number in decimal, without leading zeros.
pub open spec fn decimal_nat(n: nat) -> Seq<char>
    decreases n,
{
    if n < 10 {
        seq![digit(n as int)]
    } else {
        decimal_nat(n / 10).push(digit((n % 10) as int))
    }
}

/// An integer in decimal, with a minus sign in front of a negative one.
pub open spec fn decimal(n: int) -> Seq<char> {
    if n < 0 {
        seq!['-'] + decimal_nat((-n) as nat)
    } else {
        decimal_nat(n as nat)
    }
}

/// The digits of `n`; nothing where `n` is zero.
spec fn leading(n: nat) -> Seq<char> {
    if n == 0 {
        Seq::empty()
    } else {
        decimal_nat(n)
    }
}

/// The digits in `low_first`, read from its end to its start.
spec fn high_first(low_first: Seq<u8>) -> Seq<char> {
    Seq::new(low_first.len(), |i: int| digit(low_first[low_first.len() - 1 - i] as int))
}

fn digit_text(d: u8) -> (out: &'static str)
    requires
        d < 10,
    ensures
        out@ == seq![digit(d as int)],
{
    let out = if d == 0 {
        "0"
    } else if d == 1 {
        "1"
    } else if d == 2 {
        "2"
    } else if d == 3 {
        "3"
    } else if d == 4 {
        "4"
    } else if d == 5 {
        "5"
    } else if d == 6 {
        "6"
    } else if d == 7 {
        "7"
    } else if d == 8 {
        "8"
    } else {
        "9"
    };
    proof {
        reveal_strlit("0");
        reveal_strlit("1");
        reveal_strlit("2");
        reveal_strlit("3");
        reveal_strlit("4");
        reveal_strlit("5");
        reveal_strlit("6");
        reveal_strlit("7");
        reveal_strlit("8");
        reveal_strlit("9");
        assert(out@ =~= seq![digit(d as int)]);
    }
    out
}

/// Writes `n` in decimal.
pub fn decimal_text(n: i64) -> (out: String)
    ensures
        out@ == decimal(n as int),
{
    let mut out = String::new();
    let magnitude: u64 = if n < 0 {
        out.append("-");
        proof {
            reveal_strlit("-");
            assert(out@ =~= seq!['-']);
        }
        (-(n + 1)) as u64 + 1
    } else {
        n as u64
    };
    let ghost sign = out@;
    let mut low_first: Vec<u8> = Vec::new();
    low_first.push((magnitude % 10) as u8);
    let mut rest: u64 = magnitude / 10;
    proof {
        assert(high_first(low_first@) =~= seq![digit((magnitude % 10) as int)]);
        assert(decimal_nat(magnitude as nat) =~= leading(rest as nat) + high_first(low_first@));
    }
    while rest > 0
        invariant
            low_first@.len() >= 1,
            forall|i: int| 0 <= i < low_first@.len() ==> low_first@[i] < 10,
            decimal_nat(magnitude as nat) == leading(rest as nat) + high_first(low_first@),
        decreases rest,
    {
        let ghost before = low_first@;
        low_first.push((rest % 10) as u8);
        proof {
            assert(high_first(low_first@) =~= seq![digit((rest % 10) as int)] + high_first(
                before,
            ));
            assert(leading(rest as nat) =~= leading((rest / 10) as nat) + seq![
                digit((rest % 10) as int),
            ]);
        }
        rest = rest / 10;
    }
    let mut left: usize = low_first.len();
    while left > 0
        invariant
            left <= low_first@.len(),
            forall|i: int| 0 <= i < low_first@.len() ==> low_first@[i] < 10,
            out@ == sign + high_first(low_first@).take(low_first@.len() - left),
        decreases left,
    {
        left -= 1;
        out.append(digit_text(low_first[left]));
        proof {
            let digits = high_first(low_first@);
            let done = low_first@.len() - left - 1;
            assert(digits.take(done + 1) =~= digits.take(done).push(digits[done]));
        }
    }
    proof {
        let digits = high_first(low_first@);
        assert(digits.take(low_first@.len() as int) =~= digits);
        assert(leading(0nat) + digits =~= digits);
    }
    out
}

/// The first place from `from` on where no white space stands; the length
/// of `s` where there is none.
pub open spec fn black_start(s: Seq<char>, from: int) -> int
    decreases s.len() - from,
{
    if 0 <= from < s.len() && white_space(s[from]) {
        black_start(s, from + 1)
    } else {
        from
    }
}

/// The end of the last run of characters before `to` that is no white
/// space; `floor` where there is none above it.
pub open spec fn black_end(s: Seq<char>, floor: int, to: int) -> int
    decreases to,
{
    if floor < to <= s.len() && 0 < to && white_space(s[to - 1]) {
        black_end(s, floor, to - 1)
    } else {
        to
    }
}

/// `s` without the white space at its start and at its end.
pub open spec fn trimmed(s: Seq<char>) -> Seq<char> {
    let start = black_start(s, 0);
    s.subrange(start, black_end(s, start, s.len() as int))
}

/// The characters of `s` from `from` up to `to`, as a text.
fn text_between(s: &str, from: usize, to: usize) -> (out: String)
    requires
        from <= to <= s@.len(),
    ensures
        out@ == s@.subrange(from as int, to as int),
{
    String::from_str(s.substring_char(from, to))
}

/// `s` without the white space at its start and at its end.
pub fn trim(s: &str) -> (out: String)
    ensures
        out@ == trimmed(s@),
{
    let chars = chars_of(s);
    let mut start: usize = 0;
    while start < chars.len() && is_white_space(chars[start])
        invariant
            start <= chars.len(),
            chars@ == s@,
            black_start(s@, start as int) == black_start(s@, 0),
        decreases chars.len() - start,
    {
        start += 1;
    }
    let mut end: usize = chars.len();
    while end > start && is_white_space(chars[end - 1])
        invariant
            start <= end <= chars.len(),
            chars@ == s@,
            black_end(s@, start as int, end as int) == black_end(s@, start as int, s@.len() as int),
        decreases end,
    {
        end -= 1;
    }
    text_between(s, start, end)
}

/// The parts of `s` between its commas, from the part that starts at
/// `start` on, where the characters before `at` have been looked at.
pub open spec fn parts_from(s: Seq<char>, start: int, at: int) -> Seq<Seq<char>>
    decreases s.len() - at,
{
    if at < start || at >= s.len() || start < 0 {
        seq![s.subrange(start, s.len() as int)]
    } else if s[at] == ',' {
        seq![s.subrange(start, at)] + parts_from(s, at + 1, at + 1)
    } else {
        parts_from(s, start, at + 1)
    }
}

/// Each of `parts` without the white space around it.
pub open spec fn trimmed_all(parts: Seq<Seq<char>>) -> Seq<Seq<char>> {
    parts.map_values(|part: Seq<char>| trimmed(part))
}

/// The items of a list that is written with commas: the parts between
/// the commas of `s` without the white space around it, each without the
/// white space around it. The empty text is a list of one empty item.
pub open spec fn list_items(s: Seq<char>) -> Seq<Seq<char>> {
    trimmed_all(parts_from(trimmed(s), 0, 0))
}

/// The items of a list that is written with commas.
pub fn split_list(s: &str) -> (items: Vec<String>)
    ensures
        items.deep_view() == list_items(s@),
{
    let whole = trim(s);
    let chars = chars_of(whole.as_str());
    let ghost text = whole@;
    let mut items: Vec<String> = Vec::new();
    let mut start: usize = 0;
    let mut at: usize = 0;
    proof {
        assert(items.deep_view() =~= Seq::empty());
        assert(Seq::<Seq<char>>::empty() + trimmed_all(parts_from(text, 0, 0)) =~= trimmed_all(
            parts_from(text, 0, 0),
        ));
    }
    while at < chars.len()
        invariant
            start <= at <= chars.len(),
            chars@ == text,
            whole@ == text,
            items.deep_view() + trimmed_all(parts_from(text, start as int, at as int))
                == trimmed_all(parts_from(text, 0, 0)),
        decreases chars.len() - at,
    {
        if chars[at] == ',' {
            let part = text_between(whole.as_str(), start, at);
            let item = trim(part.as_str());
            let ghost before = items.deep_view();
            items.push(item);
            proof {
                let rest = parts_from(text, at + 1, at + 1);
                assert(items.deep_view() =~= before.push(
                    trimmed(text.subrange(start as int, at as int)),
                ));
                assert(trimmed_all(parts_from(text, start as int, at as int)) =~= seq![
                    trimmed(text.subrange(start as int, at as int)),
                ] + trimmed_all(rest));
                assert(items.deep_view() + trimmed_all(rest) =~= before + trimmed_all(
                    parts_from(text, start as int, at as int),
                ));
            }
            start = at + 1;
        }
        at += 1;
    }
    let part = text_between(whole.as_str(), start, at);
    let item = trim(part.as_str());
    let ghost before = items.deep_view();
    items.push(item);
    proof {
        assert(items.deep_view() =~= before.push(
            trimmed(text.subrange(start as int, text.len() as int)),
        ));
        assert(trimmed_all(parts_from(text, start as int, at as int)) =~= seq![
            trimmed(text.subrange(start as int, text.len() as int)),
        ]);
        assert(items.deep_view() =~= before + trimmed_all(
            parts_from(text, start as int, at as int),
        ));
    }
    items
}

} // verus!
