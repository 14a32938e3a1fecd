use vstd::prelude::*;
use vstd::string::StrSliceExecFns;

verus! {

/// The decimal digit `d`, for `0 <= d < 10`.
pub open spec fn digit_char(d: int) -> char {
    if d == 0 {
        '0'
    } else if d == 1 {
        '1'
    } else if d == 2 {
        '2'
    } else if d == 3 {
        '3'
    } else if d == 4 {
        '4'
    } else if d == 5 {
        '5'
    } else if d == 6 {
        '6'
    } else if d == 7 {
        '7'
    } else if d == 8 {
        '8'
    } else {
        '9'
    }
}

/// `n` written in decimal, without leading zeros.
pub open spec fn decimal(n: nat) -> Seq<char>
    decreases n,
{
    if n < 10 {
        seq![digit_char(n as int)]
    } else {
        decimal(n / 10) + seq![digit_char((n % 10) as int)]
    }
}

fn digit_str(d: u64) -> (s: &'static str)
    requires
        d < 10,
    ensures
        s@ == seq![digit_char(d as int)],
{
    if d == 0 {
        proof { reveal_strlit("0"); }
        "0"
    } else if d == 1 {
        proof { reveal_strlit("1"); }
        "1"
    } else if d == 2 {
        proof { reveal_strlit("2"); }
        "2"
    } else if d == 3 {
        proof { reveal_strlit("3"); }
        "3"
    } else if d == 4 {
        proof { reveal_strlit("4"); }
        "4"
    } else if d == 5 {
        proof { reveal_strlit("5"); }
        "5"
    } else if d == 6 {
        proof { reveal_strlit("6"); }
        "6"
    } else if d == 7 {
        proof { reveal_strlit("7"); }
        "7"
    } else if d == 8 {
        proof { reveal_strlit("8"); }
        "8"
    } else {
        proof { reveal_strlit("9"); }
        "9"
    }
}

/// Appends `n` in decimal to `s`.
pub fn push_decimal(s: &mut String, n: u64)
    ensures
        final(s)@ == old(s)@ + decimal(n as nat),
    decreases n,
{
    if n >= 10 {
        push_decimal(s, n / 10);
    }
    s.append(digit_str(n % 10));
}

/// The UTF-16 code units of one character.
pub open spec fn utf16_of_char(c: char) -> Seq<u16> {
    let v = c as int;
    if v < 0x10000 {
        seq![v as u16]
    } else {
        let u = v - 0x10000;
        seq![(0xD800 + u / 0x400) as u16, (0xDC00 + u % 0x400) as u16]
    }
}

/// The UTF-16 encoding of a string.
pub open spec fn utf16(s: Seq<char>) -> Seq<u16>
    decreases s.len(),
{
    if s.len() == 0 {
        seq![]
    } else {
        utf16(s.drop_last()) + utf16_of_char(s.last())
    }
}

/// `text` as UTF-16 followed by a NUL, the form Windows APIs take.
pub fn to_wide(text: &str) -> (wide: Vec<u16>)
    ensures
        wide@ == utf16(text@).push(0u16),
{
    let mut wide = encode_utf16(text);
    wide.push(0);
    wide
}

/// The UTF-16 code units of `c`.
fn push_utf16_of_char(wide: &mut Vec<u16>, c: char)
    ensures
        final(wide)@ == old(wide)@ + utf16_of_char(c),
{
    let v = c as u32;
    if v < 0x10000 {
        wide.push(v as u16);
    } else {
        assert(v <= 0x10FFFF);
        let u = v - 0x10000;
        wide.push((0xD800 + u / 0x400) as u16);
        wide.push((0xDC00 + u % 0x400) as u16);
    }
}

/// The characters of `text`.
pub fn chars_of(text: &str) -> (chars: Vec<char>)
    ensures
        chars@ == text@,
{
    let mut chars: Vec<char> = Vec::new();
    let n = text.unicode_len();
    let mut i: usize = 0;
    while i < n
        invariant
            n == text@.len(),
            i <= n,
            chars@ == text@.take(i as int),
        decreases n - i,
    {
        chars.push(text.get_char(i));
        assert(text@.take(i + 1) == text@.take(i as int).push(text@[i as int]));
        i = i + 1;
    }
    assert(text@.take(n as int) == text@);
    chars
}

/// The UTF-16 encoding of `text`, without a terminator.
pub fn encode_utf16(text: &str) -> (wide: Vec<u16>)
    ensures
        wide@ == utf16(text@),
{
    let chars = chars_of(text);
    let mut wide: Vec<u16> = Vec::new();
    let n = chars.len();
    let mut i: usize = 0;
    while i < n
        invariant
            n == chars@.len(),
            chars@ == text@,
            i <= n,
            wide@ == utf16(text@.take(i as int)),
        decreases n - i,
    {
        push_utf16_of_char(&mut wide, chars[i]);
        assert(text@.take(i + 1).drop_last() == text@.take(i as int));
        i = i + 1;
    }
    assert(text@.take(n as int) == text@);
    wide
}

/// The ASCII upper-case code of `c`: `a` to `z` map to `A` to `Z`, every
/// other character keeps its code.
pub open spec fn upper_code(c: char) -> int {
    let v = c as int;
    if 97 <= v <= 122 {
        v - 32
    } else {
        v
    }
}

/// `needle` occurs in `haystack` at `start`, comparing ASCII case-insensitively
/// on the haystack's side.
pub open spec fn upper_matches_at(haystack: Seq<char>, needle: Seq<char>, start: int) -> bool {
    &&& 0 <= start
    &&& start + needle.len() <= haystack.len()
    &&& forall|j: int| 0 <= j < needle.len() ==> upper_code(#[trigger] haystack[start + j]) == needle[j] as int
}

/// `haystack`, upper-cased in ASCII, contains `needle`.
pub open spec fn upper_contains(haystack: Seq<char>, needle: Seq<char>) -> bool {
    exists|start: int| upper_matches_at(haystack, needle, start)
}

fn code_of(c: char) -> (code: u32)
    ensures
        code == c as int,
{
    c as u32
}

fn upper_code_of(c: char) -> (code: u32)
    ensures
        code == upper_code(c),
{
    let v = c as u32;
    if 97 <= v && v <= 122 {
        v - 32
    } else {
        v
    }
}

/// Whether `haystack`, upper-cased in ASCII, contains `needle`, as
/// `haystack.to_ascii_uppercase().contains(needle)` answers.
pub fn contains_ignoring_ascii_case(haystack: &str, needle: &str) -> (found: bool)
    ensures
        found == upper_contains(haystack@, needle@),
{
    let hay = chars_of(haystack);
    let pattern = chars_of(needle);
    let n = hay.len();
    let m = pattern.len();
    if m > n {
        assert forall|start: int| !upper_matches_at(haystack@, needle@, start) by {}
        return false;
    }
    let mut start: usize = 0;
    while start <= n - m
        invariant
            hay@ == haystack@,
            pattern@ == needle@,
            n == hay@.len(),
            m == pattern@.len(),
            m <= n,
            start <= n - m + 1,
            forall|s: int| 0 <= s < start ==> !upper_matches_at(haystack@, needle@, s),
        decreases n - m + 1 - start,
    {
        let mut j: usize = 0;
        let mut all_match = true;
        while j < m
            invariant
                hay@ == haystack@,
                pattern@ == needle@,
                n == hay@.len(),
                m == pattern@.len(),
                start + m <= n,
                j <= m,
                all_match ==> forall|k: int| 0 <= k < j ==> upper_code(#[trigger] haystack@[start + k]) == needle@[k] as int,
                !all_match ==> !upper_matches_at(haystack@, needle@, start as int),
            decreases m - j,
        {
            let found_code = upper_code_of(hay[start + j]);
            let wanted_code = code_of(pattern[j]);
            if found_code != wanted_code {
                all_match = false;
            }
            j = j + 1;
        }
        if all_match {
            assert(upper_matches_at(haystack@, needle@, start as int));
            return true;
        }
        start = start + 1;
    }
    assert forall|s: int| !upper_matches_at(haystack@, needle@, s) by {
        if 0 <= s && s + m <= n {
            assert(s < start);
        }
    }
    false
}

/// What `copy_str_to_utf16_buffer` leaves in a buffer that held `old`.
pub open spec fn copied_utf16(old: Seq<u16>, text: Seq<char>) -> Seq<u16> {
    let encoded = utf16(text).push(0u16);
    if old.len() == 0 {
        old
    } else if encoded.len() < old.len() {
        encoded + old.skip(encoded.len() as int)
    } else {
        encoded.take(old.len() - 1).push(0u16)
    }
}

/// Fills `buffer` with `text` as NUL terminated UTF-16, truncating the text
/// when it does not fit. Leftover units from a previous longer text may remain
/// past the terminator; Windows stops reading at the NUL.
pub fn copy_str_to_utf16_buffer(text: &str, buffer: &mut [u16])
    ensures
        final(buffer)@ == copied_utf16(old(buffer)@, text@),
{
    let buffer_len = buffer.len();
    if buffer_len == 0 {
        return;
    }
    let text_utf16 = to_wide(text);
    let copy_len = if text_utf16.len() < buffer_len {
        text_utf16.len()
    } else {
        buffer_len
    };
    let ghost initial = buffer@;
    let mut i: usize = 0;
    while i < copy_len
        invariant
            copy_len <= buffer_len,
            copy_len <= text_utf16@.len(),
            buffer@.len() == buffer_len,
            initial.len() == buffer_len,
            i <= copy_len,
            forall|j: int| 0 <= j < i ==> buffer@[j] == text_utf16@[j],
            forall|j: int| i <= j < buffer_len ==> buffer@[j] == initial[j],
        decreases copy_len - i,
    {
        buffer[i] = text_utf16[i];
        i = i + 1;
    }
    if copy_len == buffer_len {
        buffer[copy_len - 1] = 0;
    }
    proof {
        let expected = copied_utf16(initial, text@);
        if copy_len < buffer_len {
            assert(buffer@ =~= expected);
        } else {
            assert(buffer@ =~= expected);
        }
    }
}

/// Filling a buffer keeps its length and, unless it is empty, leaves a NUL
/// terminator inside it, so Windows never reads past its end; a text that
/// fits is copied whole, followed by the NUL and the buffer's old units; a
/// text that does not fit is cut to the buffer's length less one, and the
/// NUL takes the last place.
pub proof fn law_copied_buffer_is_terminated(old: Seq<u16>, text: Seq<char>)
    ensures
        copied_utf16(old, text).len() == old.len(),
        old.len() > 0 ==> exists|i: int| 0 <= i < old.len() && copied_utf16(old, text)[i] == 0,
        utf16(text).len() < old.len() ==> copied_utf16(old, text).take(utf16(text).len() as int)
            == utf16(text),
        utf16(text).len() < old.len() ==> copied_utf16(old, text)[utf16(text).len() as int] == 0
            && forall|i: int|
            utf16(text).len() < i < old.len() ==> #[trigger] copied_utf16(old, text)[i] == old[i],
        0 < old.len() <= utf16(text).len() ==> copied_utf16(old, text)[old.len() - 1] == 0
            && forall|i: int|
            0 <= i < old.len() - 1 ==> #[trigger] copied_utf16(old, text)[i] == utf16(text)[i],
{
    let encoded = utf16(text).push(0u16);
    let copied = copied_utf16(old, text);
    if old.len() > 0 {
        if encoded.len() < old.len() {
            assert(copied[encoded.len() - 1] == 0);
        } else {
            assert(copied[old.len() - 1] == 0);
        }
    }
    if utf16(text).len() < old.len() {
        assert(copied.take(utf16(text).len() as int) =~= utf16(text));
    }
}

/// The value of a decimal digit character; -1 for any other character.
pub open spec fn digit_value(c: char) -> int {
    if c == '0' {
        0
    } else if c == '1' {
        1
    } else if c == '2' {
        2
    } else if c == '3' {
        3
    } else if c == '4' {
        4
    } else if c == '5' {
        5
    } else if c == '6' {
        6
    } else if c == '7' {
        7
    } else if c == '8' {
        8
    } else if c == '9' {
        9
    } else {
        -1
    }
}

/// Whether every character of `text` is a decimal digit.
pub open spec fn all_digits(text: Seq<char>) -> bool {
    forall|i: int| 0 <= i < text.len() ==> 0 <= #[trigger] digit_value(text[i]) <= 9
}

/// The number a string of decimal digits denotes, read left to right.
pub open spec fn digits_value(text: Seq<char>) -> int
    decreases text.len(),
{
    if text.len() == 0 {
        0
    } else {
        digits_value(text.drop_last()) * 10 + digit_value(text.last())
    }
}

/// Decimal writing is right: the text of `n` is a non-empty run of digits,
/// without a leading zero (unless it is "0"), that reads back as `n`.
pub proof fn law_decimal_reads_back(n: nat)
    ensures
        decimal(n).len() >= 1,
        all_digits(decimal(n)),
        digits_value(decimal(n)) == n,
        decimal(n).len() > 1 ==> decimal(n)[0] != '0',
    decreases n,
{
    if n < 10 {
        assert(decimal(n).drop_last() =~= Seq::<char>::empty());
        assert(digit_value(digit_char(n as int)) == n);
        assert(digits_value(decimal(n)) == digits_value(decimal(n).drop_last()) * 10 + digit_value(
            decimal(n).last(),
        ));
    } else {
        law_decimal_reads_back(n / 10);
        let rest = decimal(n / 10);
        let d = digit_char((n % 10) as int);
        assert(decimal(n) == rest + seq![d]);
        assert((rest + seq![d]).drop_last() =~= rest);
        assert(digit_value(d) == n % 10);
        assert((n / 10) * 10 + n % 10 == n) by (nonlinear_arith);
        assert(digits_value(decimal(n)) == digits_value(rest) * 10 + digit_value(d));
        assert((rest + seq![d])[0] == rest[0]);
        assert forall|i: int| 0 <= i < decimal(n).len() implies 0 <= #[trigger] digit_value(
            decimal(n)[i],
        ) <= 9 by {
            if i < rest.len() {
                assert(decimal(n)[i] == rest[i]);
            }
        }
        if rest.len() == 1 {
            assert(n / 10 >= 1);
            assert(digits_value(rest) == digits_value(rest.drop_last()) * 10 + digit_value(rest.last()));
            assert(rest.drop_last() =~= Seq::<char>::empty());
            assert(rest[0] != '0');
        }
    }
}

/// UTF-16 decodes back: a character below 0x10000 is the one code unit of
/// its own value; any other is a high surrogate (0xD800 to 0xDBFF) and a low
/// surrogate (0xDC00 to 0xDFFF) that combine back into its value.
pub proof fn law_utf16_of_char_decodes_back(c: char)
    ensures
        (c as int) < 0x10000 ==> utf16_of_char(c).len() == 1 && utf16_of_char(c)[0] as int == c as int,
        (c as int) >= 0x10000 ==> {
            let units = utf16_of_char(c);
            &&& units.len() == 2
            &&& 0xD800 <= units[0] as int <= 0xDBFF
            &&& 0xDC00 <= units[1] as int <= 0xDFFF
            &&& 0x10000 + (units[0] as int - 0xD800) * 0x400 + (units[1] as int - 0xDC00) == c as int
        },
{
    let v = c as int;
    assert(v <= 0x10FFFF);
    if v >= 0x10000 {
        let u = v - 0x10000;
        assert(0 <= u / 0x400 <= 0x3FF);
        assert(0 <= u % 0x400 < 0x400);
        assert(u == (u / 0x400) * 0x400 + u % 0x400);
    }
}

} // verus!
