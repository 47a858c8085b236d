//! Text as sequences of characters: comparison, splitting, and decimal and
//! hexadecimal notation.
use vstd::prelude::*;

verus! {

/// The texts that a list of owned strings holds.
pub open spec fn texts(strings: Seq<String>) -> Seq<Seq<char>> {
    strings.map_values(|s: String| s@)
}

/// The character that stands for the hexadecimal digit `d`.
pub open spec fn digit_char(d: int) -> char {
    if d < 10 {
        ('0' as int + d) as char
    } else {
        ('a' as int + (d - 10)) as char
    }
}

/// `n` written in base `base` without leading zeros.
pub open spec fn numeral(n: nat, base: nat) -> Seq<char>
    decreases n,
{
    if base < 2 || n < base {
        seq![digit_char(n as int)]
    } else {
        proof {
            assert(n / base < n) by (nonlinear_arith)
                requires
                    n >= base,
                    base >= 2,
            ;
        }
        numeral(n / base, base).push(digit_char((n % base) as int))
    }
}

/// `n` written in decimal.
pub open spec fn decimal(n: nat) -> Seq<char> {
    numeral(n, 10)
}

/// `i` written in decimal, with a minus sign when it is negative.
pub open spec fn signed_decimal(i: int) -> Seq<char> {
    if i < 0 {
        seq!['-'] + decimal((-i) as nat)
    } else {
        decimal(i as nat)
    }
}

/// `n` written in lower-case hexadecimal, zero-padded on the left to `width`.
pub open spec fn padded_hex(n: nat, width: nat) -> Seq<char> {
    let digits = numeral(n, 16);
    if digits.len() < width {
        Seq::new((width - digits.len()) as nat, |i: int| '0') + digits
    } else {
        digits
    }
}

/// Two lower-case hexadecimal digits for each byte.
pub open spec fn hex_text(bytes: Seq<u8>) -> Seq<char> {
    Seq::new(
        2 * bytes.len(),
        |i: int|
            if i % 2 == 0 {
                digit_char(bytes[i / 2] as int / 16)
            } else {
                digit_char(bytes[i / 2] as int % 16)
            },
    )
}

/// The fields of `s` that `separator` separates: one more than the separators in `s`.
pub open spec fn fields(s: Seq<char>, separator: char) -> Seq<Seq<char>>
    decreases s.len(),
{
    if s.len() == 0 {
        seq![Seq::<char>::empty()]
    } else {
        let before = fields(s.drop_last(), separator);
        if s.last() == separator {
            before.push(Seq::<char>::empty())
        } else {
            before.drop_last().push(before.last().push(s.last()))
        }
    }
}

/// Splitting always leaves at least one field.
pub proof fn lemma_fields_nonempty(s: Seq<char>, separator: char)
    ensures
        fields(s, separator).len() >= 1,
    decreases s.len(),
{
    if s.len() > 0 {
        lemma_fields_nonempty(s.drop_last(), separator);
    }
}

/// Appending text leaves every field but the last as it was, and lets the last one grow.
pub proof fn lemma_fields_append(s: Seq<char>, t: Seq<char>, separator: char)
    ensures
        ({
            let old_fields = fields(s, separator);
            let new_fields = fields(s + t, separator);
            &&& new_fields.len() >= old_fields.len() >= 1
            &&& forall|i: int|
                0 <= i < old_fields.len() - 1 ==> #[trigger] new_fields[i] == old_fields[i]
            &&& old_fields.last().is_prefix_of(new_fields[old_fields.len() - 1])
            &&& t.len() > 0 && t[0] != separator ==> (old_fields.last().push(t[0])).is_prefix_of(
                new_fields[old_fields.len() - 1],
            )
        }),
    decreases t.len(),
{
    lemma_fields_nonempty(s, separator);
    if t.len() == 0 {
        assert(s + t =~= s);
    } else {
        lemma_fields_append(s, t.drop_last(), separator);
        assert((s + t).drop_last() =~= s + t.drop_last());
        assert((s + t).last() == t.last());
        if t.len() == 1 {
            assert(s + t.drop_last() =~= s);
        }
    }
}

/// Text without the separator is one field.
pub proof fn lemma_fields_without_separator(s: Seq<char>, separator: char)
    requires
        !s.contains(separator),
    ensures
        fields(s, separator) =~= seq![s],
    decreases s.len(),
{
    if s.len() > 0 {
        assert(s.last() == s[s.len() - 1]);
        assert(!s.drop_last().contains(separator)) by {
            if s.drop_last().contains(separator) {
                let i = s.drop_last().index_of(separator);
                assert(s[i] == separator);
            }
        }
        lemma_fields_without_separator(s.drop_last(), separator);
        assert(s.drop_last().push(s.last()) =~= s);
    } else {
        assert(s =~= Seq::<char>::empty());
    }
}

/// The last field of text is not touched by what stands before a separator.
pub proof fn lemma_fields_last_after_separator(s: Seq<char>, t: Seq<char>, separator: char)
    ensures
        fields(s.push(separator) + t, separator).last() == fields(t, separator).last(),
    decreases t.len(),
{
    lemma_fields_nonempty(s, separator);
    lemma_fields_nonempty(t, separator);
    let whole = s.push(separator) + t;
    if t.len() == 0 {
        assert(whole =~= s.push(separator));
        assert(whole.drop_last() =~= s);
    } else {
        lemma_fields_last_after_separator(s, t.drop_last(), separator);
        assert(whole.drop_last() =~= s.push(separator) + t.drop_last());
        assert(whole.last() == t.last());
        lemma_fields_nonempty(t.drop_last(), separator);
        lemma_fields_nonempty(whole.drop_last(), separator);
    }
}

/// Whether two texts are the same.
pub fn str_eq(a: &str, b: &str) -> (same: bool)
    ensures
        same == (a@ == b@),
{
    let left: &[u8] = a.as_bytes();
    let right: &[u8] = b.as_bytes();
    proof {
        vstd::utf8::encode_utf8_decode_utf8(a@);
        vstd::utf8::encode_utf8_decode_utf8(b@);
    }
    if left.len() != right.len() {
        return false;
    }
    let mut i: usize = 0;
    while i < left.len()
        invariant
            i <= left.len() == right.len(),
            left@ == vstd::utf8::encode_utf8(a@),
            right@ == vstd::utf8::encode_utf8(b@),
            forall|j: int| 0 <= j < i ==> left@[j] == right@[j],
        decreases left.len() - i,
    {
        if left[i] != right[i] {
            return false;
        }
        i = i + 1;
    }
    assert(left@ =~= right@);
    true
}

/// Whether `s` begins with `prefix`.
pub fn starts_with(s: &str, prefix: &str) -> (yes: bool)
    ensures
        yes == prefix@.is_prefix_of(s@),
{
    let n: usize = prefix.unicode_len();
    if s.unicode_len() < n {
        return false;
    }
    let head: &str = s.substring_char(0, n);
    proof {
        assert(prefix@.is_prefix_of(s@) ==> head@ =~= prefix@);
    }
    str_eq(head, prefix)
}

/// The characters of `s`.
pub fn chars_of(s: &str) -> (chars: Vec<char>)
    ensures
        chars@ == s@,
{
    let mut chars: Vec<char> = Vec::new();
    for c in it: s.chars()
        invariant
            it.seq() == s@,
            chars@ =~= it.seq().take(it.index() as int),
    {
        chars.push(c);
    }
    chars
}

/// The fields of `s` that `separator` separates.
pub fn split(s: &Vec<char>, separator: char) -> (parts: Vec<Vec<char>>)
    ensures
        parts@.map_values(|p: Vec<char>| p@) =~= fields(s@, separator),
{
    let mut parts: Vec<Vec<char>> = Vec::new();
    let mut current: Vec<char> = Vec::new();
    let mut i: usize = 0;
    proof {
        assert(s@.take(0) =~= Seq::<char>::empty());
    }
    while i < s.len()
        invariant
            i <= s.len(),
            fields(s@.take(i as int), separator) =~= parts@.map_values(|p: Vec<char>| p@).push(
                current@,
            ),
        decreases s.len() - i,
    {
        let c: char = s[i];
        let ghost before = fields(s@.take(i as int), separator);
        let ghost done = parts@.map_values(|p: Vec<char>| p@);
        proof {
            assert(s@.take(i + 1).drop_last() =~= s@.take(i as int));
            assert(s@.take(i + 1).last() == c);
            assert(before.drop_last() =~= done);
            assert(before.last() == current@);
        }
        if c == separator {
            let mut finished: Vec<char> = Vec::new();
            std::mem::swap(&mut finished, &mut current);
            parts.push(finished);
            proof {
                assert(parts@.map_values(|p: Vec<char>| p@) =~= before);
            }
        } else {
            current.push(c);
        }
        i = i + 1;
    }
    proof {
        assert(s@.take(s.len() as int) =~= s@);
    }
    let ghost done = parts@.map_values(|p: Vec<char>| p@);
    let ghost last = current@;
    parts.push(current);
    proof {
        assert(parts@.map_values(|p: Vec<char>| p@) =~= done.push(last));
    }
    parts
}

/// The one-character text of the hexadecimal digit `d`.
fn digit_text(d: u8) -> (text: &'static str)
    requires
        d < 16,
    ensures
        text@ == seq![digit_char(d as int)],
{
    proof {
        reveal_strlit("0");
        reveal_strlit("1");
        reveal_strlit("2");
        reveal_strlit("3");
        reveal_strlit("4");
        reveal_strlit("5");
        reveal_strlit("6");
        reveal_strlit("7");
        reveal_strlit("8");
        reveal_strlit("9");
        reveal_strlit("a");
        reveal_strlit("b");
        reveal_strlit("c");
        reveal_strlit("d");
        reveal_strlit("e");
        reveal_strlit("f");
    }
    match d {
        0 => "0",
        1 => "1",
        2 => "2",
        3 => "3",
        4 => "4",
        5 => "5",
        6 => "6",
        7 => "7",
        8 => "8",
        9 => "9",
        10 => "a",
        11 => "b",
        12 => "c",
        13 => "d",
        14 => "e",
        _ => "f",
    }
}

/// Appends `n`, written in base `base`, to `out`.
fn push_numeral(out: &mut String, n: u64, base: u64)
    requires
        2 <= base <= 16,
    ensures
        final(out)@ == old(out)@ + numeral(n as nat, base as nat),
    decreases n,
{
    if n >= base {
        proof {
            assert(n / base < n) by (nonlinear_arith)
                requires
                    n >= base,
                    base >= 2,
            ;
        }
        push_numeral(out, n / base, base);
        out.append(digit_text((n % base) as u8));
        proof {
            assert(out@ =~= old(out)@ + numeral(n as nat, base as nat));
        }
    } else {
        out.append(digit_text(n as u8));
    }
}

/// Appends `n` in decimal to `out`.
pub fn push_decimal(out: &mut String, n: u64)
    ensures
        final(out)@ == old(out)@ + decimal(n as nat),
{
    push_numeral(out, n, 10);
}

/// Appends `n` in hexadecimal, zero-padded to `width`, to `out`.
pub fn push_padded_hex(out: &mut String, n: u64, width: usize)
    ensures
        final(out)@ == old(out)@ + padded_hex(n as nat, width as nat),
{
    let mut digits: String = String::new();
    push_numeral(&mut digits, n, 16);
    let ghost start = out@;
    let mut missing: usize = 0;
    let length: usize = digits.as_str().unicode_len();
    if length < width {
        missing = width - length;
    }
    let mut i: usize = 0;
    proof {
        reveal_strlit("0");
    }
    while i < missing
        invariant
            i <= missing,
            "0"@ =~= seq!['0'],
            out@ =~= start + Seq::new(i as nat, |j: int| '0'),
        decreases missing - i,
    {
        out.append("0");
        i = i + 1;
    }
    out.append(digits.as_str());
    proof {
        assert(digits@ =~= numeral(n as nat, 16));
        assert(out@ =~= start + padded_hex(n as nat, width as nat));
    }
}

/// Decimal notation, digit by digit: a number below ten is one digit, and a digit
/// put behind a number multiplies it by ten and adds its own value. The digits
/// follow one another from `0` on.
pub proof fn law_decimal_is_positional(q: nat, r: nat)
    requires
        r < 10,
    ensures
        decimal(r).len() == 1,
        decimal(r)[0] as int == 48 + r,
        q > 0 ==> decimal(10 * q + r) == decimal(q) + decimal(r),
{
    reveal_with_fuel(numeral, 1);
    if q > 0 {
        let n = 10 * q + r;
        assert(n / 10 == q && n % 10 == r);
        assert(decimal(n) =~= decimal(q) + decimal(r));
    }
}

/// Four hexadecimal digits show a number below 65536 with the highest digit first,
/// in the characters `0` to `9` and `a` to `f`.
pub proof fn law_four_hex_digits(n: nat)
    requires
        n < 0x1_0000,
    ensures
        padded_hex(n, 4).len() == 4,
        n == 0x1000 * hex_digit_value(padded_hex(n, 4)[0]) + 0x100 * hex_digit_value(
            padded_hex(n, 4)[1],
        ) + 0x10 * hex_digit_value(padded_hex(n, 4)[2]) + hex_digit_value(padded_hex(n, 4)[3]),
        forall|i: int|
            0 <= i < 4 ==> 0 <= hex_digit_value(#[trigger] padded_hex(n, 4)[i]) < 16,
{
    reveal_with_fuel(numeral, 5);
    let d3 = n % 16;
    let d2 = (n / 16) % 16;
    let d1 = (n / 16 / 16) % 16;
    let d0 = n / 16 / 16 / 16;
    assert(d0 < 16);
    let text = padded_hex(n, 4);
    if n < 16 {
        assert(text =~= seq!['0', '0', '0', digit_char(n as int)]);
    } else if n < 0x100 {
        assert(n / 16 < 16);
        assert(text =~= seq!['0', '0', digit_char((n / 16) as int), digit_char(d3 as int)]);
    } else if n < 0x1000 {
        assert(n / 16 / 16 < 16);
        assert(text =~= seq![
            '0',
            digit_char((n / 16 / 16) as int),
            digit_char(d2 as int),
            digit_char(d3 as int),
        ]);
    } else {
        assert(text =~= seq![
            digit_char(d0 as int),
            digit_char(d1 as int),
            digit_char(d2 as int),
            digit_char(d3 as int),
        ]);
    }
}

/// What a hexadecimal digit is worth; negative for any other character.
pub open spec fn hex_digit_value(c: char) -> int {
    if '0' <= c <= '9' {
        c as int - 48
    } else if 'a' <= c <= 'f' {
        c as int - 87
    } else {
        -1
    }
}

/// Text splits where the separators are: the fields of two texts with a separator
/// between them are those of the one, then those of the other.
pub proof fn law_fields_split_at_separators(s: Seq<char>, t: Seq<char>, separator: char)
    ensures
        fields(s.push(separator) + t, separator) == fields(s, separator) + fields(t, separator),
    decreases t.len(),
{
    lemma_fields_nonempty(s, separator);
    lemma_fields_nonempty(t, separator);
    let whole = s.push(separator) + t;
    if t.len() == 0 {
        assert(whole =~= s.push(separator));
        assert(whole.drop_last() =~= s);
        assert(fields(whole, separator) =~= fields(s, separator) + fields(t, separator));
    } else {
        law_fields_split_at_separators(s, t.drop_last(), separator);
        lemma_fields_nonempty(t.drop_last(), separator);
        assert(whole.drop_last() =~= s.push(separator) + t.drop_last());
        assert(whole.last() == t.last());
        assert(fields(whole, separator) =~= fields(s, separator) + fields(t, separator));
    }
}

/// Text of one field is that field.
pub proof fn lemma_one_field(s: Seq<char>, separator: char)
    requires
        fields(s, separator).len() == 1,
    ensures
        fields(s, separator) == seq![s],
        !s.contains(separator),
    decreases s.len(),
{
    if s.len() > 0 {
        lemma_fields_nonempty(s.drop_last(), separator);
        lemma_one_field(s.drop_last(), separator);
        assert(s.drop_last().push(s.last()) =~= s);
        assert(fields(s, separator) =~= seq![s]);
        assert(!s.contains(separator)) by {
            if s.contains(separator) {
                let i = s.index_of(separator);
                if i < s.len() - 1 {
                    assert(s.drop_last()[i] == separator);
                }
            }
        }
    } else {
        assert(s =~= Seq::<char>::empty());
    }
}

/// The first field is what stands before the first separator, and the other fields
/// are those of what stands behind it.
pub proof fn lemma_first_field(s: Seq<char>, separator: char) -> (rest: Seq<char>)
    requires
        fields(s, separator).len() >= 2,
    ensures
        s == fields(s, separator)[0].push(separator) + rest,
        fields(rest, separator) == fields(s, separator).skip(1),
        !fields(s, separator)[0].contains(separator),
    decreases s.len(),
{
    let shorter = s.drop_last();
    lemma_fields_nonempty(shorter, separator);
    assert(shorter.push(s.last()) =~= s);
    if fields(shorter, separator).len() >= 2 {
        let rest = lemma_first_field(shorter, separator);
        lemma_fields_nonempty(rest, separator);
        let longer = rest.push(s.last());
        assert(longer.drop_last() =~= rest);
        assert(s =~= fields(s, separator)[0].push(separator) + longer);
        assert(fields(longer, separator) =~= fields(s, separator).skip(1));
        longer
    } else {
        lemma_one_field(shorter, separator);
        assert(s =~= fields(s, separator)[0].push(separator) + Seq::<char>::empty());
        assert(fields(Seq::<char>::empty(), separator) =~= fields(s, separator).skip(1));
        Seq::<char>::empty()
    }
}

/// The last field is what stands behind the last separator.
pub proof fn lemma_last_field(s: Seq<char>, separator: char) -> (before: Seq<char>)
    ensures
        s == before + fields(s, separator).last(),
        before.len() == 0 || before.last() == separator,
        !fields(s, separator).last().contains(separator),
    decreases s.len(),
{
    lemma_fields_nonempty(s, separator);
    if s.len() == 0 {
        assert(s =~= Seq::<char>::empty() + fields(s, separator).last());
        Seq::<char>::empty()
    } else {
        lemma_fields_nonempty(s.drop_last(), separator);
        assert(s.drop_last().push(s.last()) =~= s);
        if s.last() == separator {
            assert(s =~= s + Seq::<char>::empty());
            s
        } else {
            let before = lemma_last_field(s.drop_last(), separator);
            let old_last = fields(s.drop_last(), separator).last();
            assert(s =~= before + old_last.push(s.last()));
            assert(!old_last.push(s.last()).contains(separator)) by {
                if old_last.push(s.last()).contains(separator) {
                    let i = old_last.push(s.last()).index_of(separator);
                    assert(old_last[i] == separator);
                }
            }
            before
        }
    }
}

/// Each string of a list holds its own text, in the order of the list.
pub proof fn law_texts_are_those_of_the_strings(strings: Seq<String>, i: int)
    ensures
        texts(strings).len() == strings.len(),
        0 <= i < strings.len() ==> texts(strings)[i] == strings[i]@,
{
}

} // verus!
