//! Text: comparison, search, and the two number notations the library writes
//! and reads.

use vstd::prelude::*;

verus! {

/// The text of an optional string.
pub open spec fn opt_text(s: Option<String>) -> Option<Seq<char>> {
    match s {
        Some(s) => Some(s@),
        None => None,
    }
}

/// The text of an optional string slice.
pub open spec fn opt_str(s: Option<&str>) -> Option<Seq<char>> {
    match s {
        Some(s) => Some(s@),
        None => None,
    }
}

/// An optional text, where an empty one counts as none.
pub open spec fn filled(s: Option<Seq<char>>) -> Option<Seq<char>> {
    match s {
        Some(s) if s.len() > 0 => Some(s),
        _ => None,
    }
}

/// `needle` stands somewhere in `hay`.
pub open spec fn occurs(needle: Seq<char>, hay: Seq<char>) -> bool {
    exists|i: int|
        0 <= i && i + needle.len() <= hay.len() && #[trigger] hay.subrange(i, i + needle.len())
            == needle
}

/// The sixteen digits of the hexadecimal notation.
pub open spec fn hex_digits() -> Seq<char> {
    "0123456789abcdef"@
}

/// `n` in lower-case hexadecimal notation, without leading zeros.
pub open spec fn hex(n: nat) -> Seq<char>
    decreases n,
{
    if n < 16 {
        seq![hex_digits()[n as int]]
    } else {
        hex(n / 16).push(hex_digits()[(n % 16) as int])
    }
}

/// `c` is one of `0` to `9`.
pub open spec fn is_digit(c: char) -> bool {
    '0' <= c && c <= '9'
}

/// The number that decimal digits denote.
pub open spec fn decimal(digits: Seq<char>) -> nat
    decreases digits.len(),
{
    if digits.len() == 0 {
        0
    } else {
        decimal(digits.drop_last()) * 10 + (digits.last() as nat - '0' as nat) as nat
    }
}

/// The digits of a number text, behind its optional `+`.
pub open spec fn unsigned_digits(text: Seq<char>) -> Seq<char> {
    if text.len() > 0 && text[0] == '+' {
        text.drop_first()
    } else {
        text
    }
}

/// The 64-bit number that a text writes out: an optional `+`, then one or more
/// digits, and nothing else.
pub open spec fn u64_of(text: Seq<char>) -> Option<u64> {
    let digits = unsigned_digits(text);
    if digits.len() > 0 && (forall|i: int| 0 <= i < digits.len() ==> is_digit(#[trigger] digits[i]))
        && decimal(digits) <= u64::MAX {
        Some(decimal(digits) as u64)
    } else {
        None
    }
}

/// Whether two texts are the same.
pub fn same(a: &str, b: &str) -> (r: bool)
    ensures
        r == (a@ == b@),
{
    a.to_owned() == b.to_owned()
}

/// A copy of an optional text.
pub fn copy_opt(s: &Option<String>) -> (r: Option<String>)
    ensures
        opt_text(r) == opt_text(*s),
{
    match s {
        Some(s) => Some(s.clone()),
        None => None,
    }
}

/// A copy of an optional text, where an empty one counts as none.
pub fn copy_filled(s: Option<&str>) -> (r: Option<String>)
    ensures
        opt_text(r) == filled(opt_str(s)),
{
    match s {
        Some(s) => if s.is_empty() {
            None
        } else {
            Some(s.to_owned())
        },
        None => None,
    }
}

/// Two texts, one behind the other.
pub fn concat(a: &str, b: &str) -> (r: String)
    ensures
        r@ == a@ + b@,
{
    let mut out = a.to_owned();
    out.append(b);
    out
}

/// The characters of a text in order.
fn chars_of(s: &str) -> (r: Vec<char>)
    ensures
        r@ == s@,
{
    let mut out: Vec<char> = Vec::new();
    for c in it: s.chars()
        invariant
            out@ == it.seq().take(it.index() as int),
            it.seq() == s@,
    {
        out.push(c);
    }
    out
}

/// Whether `needle` stands somewhere in `hay`.
pub fn contains(hay: &str, needle: &str) -> (r: bool)
    ensures
        r == occurs(needle@, hay@),
{
    let h = chars_of(hay);
    let n = chars_of(needle);
    let size: usize = n.len();
    if size > h.len() {
        return false;
    }
    let last: usize = h.len() - size;
    let mut i: usize = 0;
    loop
        invariant
            h@ == hay@,
            n@ == needle@,
            size == n@.len(),
            last + size == h.len(),
            i <= last,
            forall|k: int| 0 <= k < i ==> #[trigger] hay@.subrange(k, k + size) != needle@,
        decreases last - i,
    {
        let mut j: usize = 0;
        while j < size && h[i + j] == n[j]
            invariant
                i <= last,
                size == n@.len(),
                last + size == h.len(),
                j <= size,
                forall|k: int| 0 <= k < j ==> h@[i + k] == #[trigger] n@[k],
            decreases size - j,
        {
            j += 1;
        }
        if j == size {
            assert(hay@.subrange(i as int, i + needle@.len()) =~= needle@);
            return true;
        }
        assert(hay@.subrange(i as int, i + size)[j as int] != needle@[j as int]);
        if i == last {
            return false;
        }
        i += 1;
    }
}

/// Appends `n` in lower-case hexadecimal notation.
pub fn push_hex(out: &mut String, n: u128)
    ensures
        final(out)@ == old(out)@ + hex(n as nat),
    decreases n,
{
    proof {
        reveal_strlit("0123456789abcdef");
    }
    let digits = "0123456789abcdef";
    let d: usize = (n % 16) as usize;
    if n >= 16 {
        push_hex(out, n / 16);
    }
    let ghost before = out@;
    out.append(digits.substring_ascii(d, d + 1));
    assert(out@ =~= before.push(hex_digits()[d as int]));
    assert(out@ =~= old(out)@ + hex(n as nat));
}

/// The hexadecimal notation holds digits only, at least one.
pub proof fn lemma_hex_chars(n: nat)
    ensures
        hex(n).len() > 0,
        forall|i: int| 0 <= i < hex(n).len() ==> #[trigger] hex(n)[i] != '-',
    decreases n,
{
    reveal_strlit("0123456789abcdef");
    if n >= 16 {
        lemma_hex_chars(n / 16);
    }
}

/// Different numbers have different hexadecimal notations.
pub proof fn lemma_hex_injective(a: nat, b: nat)
    ensures
        hex(a) == hex(b) ==> a == b,
    decreases a,
{
    reveal_strlit("0123456789abcdef");
    if hex(a) == hex(b) {
        assert(hex(a).last() == hex_digits()[(a % 16) as int]);
        assert(hex(b).last() == hex_digits()[(b % 16) as int]);
        assert(a % 16 == b % 16);
        if a >= 16 {
            lemma_hex_chars(a / 16);
            assert(b >= 16);
            assert(hex(a).drop_last() =~= hex(a / 16));
            assert(hex(b).drop_last() =~= hex(b / 16));
            lemma_hex_injective(a / 16, b / 16);
        } else if b >= 16 {
            lemma_hex_chars(b / 16);
        }
    }
}

/// Fewer digits denote no larger number.
proof fn lemma_decimal_grows(digits: Seq<char>, n: int)
    requires
        0 <= n <= digits.len(),
    ensures
        decimal(digits.take(n)) <= decimal(digits),
    decreases digits.len() - n,
{
    if n < digits.len() {
        lemma_decimal_grows(digits, n + 1);
        assert(digits.take(n + 1).drop_last() =~= digits.take(n));
    } else {
        assert(digits.take(n) =~= digits);
    }
}

/// The 64-bit number that a text writes out, if it writes one out.
pub fn parse_u64(text: &str) -> (r: Option<u64>)
    ensures
        r == u64_of(text@),
{
    let chars = chars_of(text);
    let start: usize = if chars.len() > 0 && chars[0] == '+' {
        1
    } else {
        0
    };
    let ghost digits = unsigned_digits(text@);
    assert(digits =~= chars@.skip(start as int));
    if start == chars.len() {
        return None;
    }
    let mut total: u64 = 0;
    let mut i: usize = start;
    while i < chars.len()
        invariant
            start <= i <= chars@.len(),
            digits == chars@.skip(start as int),
            total == decimal(digits.take(i - start)),
            forall|k: int| 0 <= k < i - start ==> is_digit(#[trigger] digits[k]),
            digits == unsigned_digits(text@),
        decreases chars@.len() - i,
    {
        let c = chars[i];
        assert(digits[i - start] == c);
        if c < '0' || c > '9' {
            assert(!is_digit(digits[i - start]));
            return None;
        }
        let d: u64 = (c as u64) - ('0' as u64);
        proof {
            assert(digits.take(i - start + 1).drop_last() =~= digits.take(i - start));
            lemma_decimal_grows(digits, i - start + 1);
        }
        if total > u64::MAX / 10 || total * 10 > u64::MAX - d {
            return None;
        }
        total = total * 10 + d;
        i += 1;
    }
    assert(digits.take(digits.len() as int) =~= digits);
    Some(total)
}

/// A text stands in another exactly where that is it with something, or nothing,
/// on either side.
pub proof fn occurrences_split_a_text(
    needle: Seq<char>,
    hay: Seq<char>,
    before: Seq<char>,
    after: Seq<char>,
)
    ensures
        occurs(needle, before + needle + after),
        occurs(needle, hay) ==> exists|a: Seq<char>, b: Seq<char>| #[trigger]
            (a + needle + b) == hay,
{
    let whole = before + needle + after;
    let at = before.len() as int;
    assert(whole.subrange(at, at + needle.len()) =~= needle);
    if occurs(needle, hay) {
        let i = choose|i: int|
            0 <= i && i + needle.len() <= hay.len() && #[trigger] hay.subrange(
                i,
                i + needle.len(),
            ) == needle;
        let a = hay.subrange(0, i);
        let b = hay.subrange(i + needle.len(), hay.len() as int);
        assert(a + needle + b =~= hay);
    }
}

/// The hexadecimal notation is positional: one more digit behind a number writes
/// sixteen times the number and that digit, and numbers below sixteen are written
/// as `0` to `9` and `a` to `f`.
pub proof fn hex_is_positional(n: nat, d: nat)
    requires
        d < 16,
    ensures
        hex(d).len() == 1,
        d < 10 ==> hex(d)[0] == ('0' as int + d) as char,
        d >= 10 ==> hex(d)[0] == ('a' as int + d - 10) as char,
        n > 0 ==> hex(16 * n + d) == hex(n) + hex(d),
{
    reveal_strlit("0123456789abcdef");
    let all = hex_digits();
    assert(all[0] == '0' && all[1] == '1' && all[2] == '2' && all[3] == '3');
    assert(all[4] == '4' && all[5] == '5' && all[6] == '6' && all[7] == '7');
    assert(all[8] == '8' && all[9] == '9' && all[10] == 'a' && all[11] == 'b');
    assert(all[12] == 'c' && all[13] == 'd' && all[14] == 'e' && all[15] == 'f');
    if n > 0 {
        let whole = 16 * n + d;
        assert(whole / 16 == n && whole % 16 == d);
        assert(hex(n).push(all[d as int]) =~= hex(n) + hex(d));
    }
}

/// A number is read digit by digit: a digit alone, behind a `+` or not, is its
/// value; one more digit behind a number makes ten times the number and that
/// digit, where there is room for it in 64 bits; and whatever is no digit makes a
/// text no number, and so do no digits at all.
pub proof fn numbers_are_read_by_digits(text: Seq<char>, c: char)
    ensures
        u64_of(Seq::empty()) is None,
        u64_of(seq!['+']) is None,
        '0' <= c <= '9' ==> u64_of(seq![c]) == Some((c as u64 - '0' as u64) as u64),
        '0' <= c <= '9' ==> u64_of(seq!['+', c]) == Some((c as u64 - '0' as u64) as u64),
        !('0' <= c <= '9') ==> u64_of(text.push(c)) is None,
        '0' <= c <= '9' && text.len() > 0 && text != seq!['+'] ==> u64_of(text.push(c))
            == match u64_of(text) {
            Some(n) => if n * 10 + (c as int - '0' as int) <= u64::MAX {
                Some((n * 10 + (c as int - '0' as int)) as u64)
            } else {
                None
            },
            None => None,
        },
{
    reveal_with_fuel(decimal, 2);
    assert(unsigned_digits(seq!['+']) =~= Seq::empty());
    assert(seq![c].drop_last() =~= Seq::empty());
    if '0' <= c <= '9' {
        assert(unsigned_digits(seq![c]) == seq![c]);
        assert(unsigned_digits(seq!['+', c]) =~= seq![c]);
        assert(decimal(seq![c]) == c as nat - '0' as nat);
        if text.len() > 0 && text != seq!['+'] {
            let digits = unsigned_digits(text);
            let more = unsigned_digits(text.push(c));
            assert(more =~= digits.push(c));
            assert(more.drop_last() =~= digits);
            if text.len() == 1 && text[0] == '+' {
                assert(text =~= seq!['+']);
            }
            assert(digits.len() > 0);
            if forall|i: int| 0 <= i < digits.len() ==> is_digit(#[trigger] digits[i]) {
                assert forall|i: int| 0 <= i < more.len() implies is_digit(#[trigger] more[i]) by {
                    if i < digits.len() {
                        assert(more[i] == digits[i]);
                    }
                }
            } else {
                let i = choose|i: int| 0 <= i < digits.len() && !is_digit(#[trigger] digits[i]);
                assert(more[i] == digits[i]);
            }
        }
    } else {
        let more = unsigned_digits(text.push(c));
        if more.len() > 0 {
            assert(more.last() == c);
            assert(!is_digit(more[more.len() - 1]));
        }
    }
}

/// An optional text is seen as it is; it counts as filled where it is there and
/// not empty.
pub proof fn optional_texts_are_seen_whole(s: String, t: &str, u: Option<Seq<char>>)
    ensures
        opt_text(Some(s)) == Some(s@),
        opt_text(None) is None,
        opt_str(Some(t)) == Some(t@),
        opt_str(None) is None,
        filled(u) is Some <==> u is Some && u->0.len() > 0,
        filled(u) is Some ==> filled(u) == u,
{
}

} // verus!
