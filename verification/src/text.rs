//! Character-level helpers shared by the configuration readers and the
//! query builders: decimal numerals, splitting on a separator, trimming of
//! white space, and joining.
use vstd::prelude::*;
use vstd::string::*;

verus! {

/// The decimal digit for `d` (0..=9).
pub open spec fn digit_char(d: nat) -> char {
    if d == 0 {
        '0'
    } else if d == 1 {
        '1'
    } else if d == 2 {
        '2'
    } else if d == 3 {
        '3'
    } else if d == 4 {
        '4'
    } else if d == 5 {
        '5'
    } else if d == 6 {
        '6'
    } else if d == 7 {
        '7'
    } else if d == 8 {
        '8'
    } else {
        '9'
    }
}

/// The value of an ASCII decimal digit.
pub open spec fn digit_value(c: char) -> nat {
    (c as nat - '0' as nat) as nat
}

pub open spec fn is_digit(c: char) -> bool {
    '0' <= c && c <= '9'
}

/// The decimal numeral of `n`, without sign or leading zeros.
pub open spec fn decimal(n: nat) -> Seq<char>
    decreases n,
{
    if n < 10 {
        seq![digit_char(n)]
    } else {
        decimal(n / 10).push(digit_char(n % 10))
    }
}

/// The value of a sequence of decimal digits (read left to right).
pub open spec fn digits_value(s: Seq<char>) -> nat
    decreases s.len(),
{
    if s.len() == 0 {
        0
    } else {
        digits_value(s.drop_last()) * 10 + digit_value(s.last())
    }
}

pub open spec fn all_digits(s: Seq<char>) -> bool {
    forall|i: int| 0 <= i < s.len() ==> is_digit(#[trigger] s[i])
}

/// What std's `FromStr` for an unsigned integer accepts: an optional `+`,
/// then at least one ASCII digit and nothing else. The value is unbounded
/// here; each integer type then refuses what exceeds its maximum.
pub open spec fn unsigned_numeral(s: Seq<char>) -> Option<nat> {
    let body = if s.len() > 0 && s[0] == '+' {
        s.drop_first()
    } else {
        s
    };
    if body.len() > 0 && all_digits(body) {
        Some(digits_value(body))
    } else {
        None
    }
}

/// The result of `s.parse::<u64>()`, as an option.
pub open spec fn parse_u64_spec(s: Seq<char>) -> Option<u64> {
    match unsigned_numeral(s) {
        Some(v) => if v <= u64::MAX {
            Some(v as u64)
        } else {
            None
        },
        None => None,
    }
}

/// The result of `s.parse::<u16>()`, as an option.
pub open spec fn parse_u16_spec(s: Seq<char>) -> Option<u16> {
    match unsigned_numeral(s) {
        Some(v) => if v <= u16::MAX {
            Some(v as u16)
        } else {
            None
        },
        None => None,
    }
}

/// `char::is_whitespace`: the characters of Unicode's White_Space property.
pub open spec fn is_white_space(c: char) -> bool {
    ||| '\u{9}' <= c && c <= '\u{d}'
    ||| c == ' '
    ||| c == '\u{85}'
    ||| c == '\u{a0}'
    ||| c == '\u{1680}'
    ||| '\u{2000}' <= c && c <= '\u{200a}'
    ||| c == '\u{2028}'
    ||| c == '\u{2029}'
    ||| c == '\u{202f}'
    ||| c == '\u{205f}'
    ||| c == '\u{3000}'
}

/// `str::trim_start`.
pub open spec fn trim_start(s: Seq<char>) -> Seq<char>
    decreases s.len(),
{
    if s.len() > 0 && is_white_space(s[0]) {
        trim_start(s.drop_first())
    } else {
        s
    }
}

/// `str::trim_end`.
pub open spec fn trim_end(s: Seq<char>) -> Seq<char>
    decreases s.len(),
{
    if s.len() > 0 && is_white_space(s.last()) {
        trim_end(s.drop_last())
    } else {
        s
    }
}

/// `str::trim`.
pub open spec fn trim(s: Seq<char>) -> Seq<char> {
    trim_end(trim_start(s))
}

/// The pieces of `s` between occurrences of `sep`, as `str::split` yields
/// them: `""` gives one empty piece, and a trailing separator an empty last
/// piece.
pub open spec fn split_on(s: Seq<char>, sep: char) -> Seq<Seq<char>>
    decreases s.len(),
{
    if s.len() == 0 {
        seq![Seq::<char>::empty()]
    } else {
        let before = split_on(s.drop_last(), sep);
        if s.last() == sep {
            before.push(Seq::<char>::empty())
        } else {
            before.update(before.len() - 1, before.last().push(s.last()))
        }
    }
}

/// The pieces joined with `sep` between neighbours, as `[String]::join`.
pub open spec fn join(pieces: Seq<Seq<char>>, sep: Seq<char>) -> Seq<char>
    decreases pieces.len(),
{
    if pieces.len() == 0 {
        Seq::<char>::empty()
    } else if pieces.len() == 1 {
        pieces[0]
    } else {
        join(pieces.drop_last(), sep) + sep + pieces.last()
    }
}

/// Appends one character; `String::push`.
#[verifier::external_body]
pub(crate) fn push_char(s: &mut String, c: char)
    ensures
        final(s)@ == old(s)@.push(c),
{
    s.push(c);
}

/// A fresh string with the contents of `s`.
pub fn copy_str(s: &str) -> (res: String)
    ensures
        res@ == s@,
{
    String::from_str(s)
}

/// The character for a digit.
pub fn digit_to_char(d: u64) -> (c: char)
    requires
        d < 10,
    ensures
        c == digit_char(d as nat),
{
    if d == 0 {
        '0'
    } else if d == 1 {
        '1'
    } else if d == 2 {
        '2'
    } else if d == 3 {
        '3'
    } else if d == 4 {
        '4'
    } else if d == 5 {
        '5'
    } else if d == 6 {
        '6'
    } else if d == 7 {
        '7'
    } else if d == 8 {
        '8'
    } else {
        '9'
    }
}

/// Appends the decimal numeral of `n` to `out`.
pub fn push_decimal(out: &mut String, n: u64)
    ensures
        final(out)@ == old(out)@ + decimal(n as nat),
    decreases n,
{
    if n < 10 {
        push_char(out, digit_to_char(n));
        assert(decimal(n as nat) == seq![digit_char(n as nat)]);
    } else {
        push_decimal(out, n / 10);
        push_char(out, digit_to_char(n % 10));
        assert(decimal(n as nat) == decimal((n / 10) as nat).push(digit_char((n % 10) as nat)));
    }
}

/// The decimal numeral of `n` (`n.to_string()`).
pub fn decimal_string(n: u64) -> (res: String)
    ensures
        res@ == decimal(n as nat),
{
    let mut s = String::new();
    push_decimal(&mut s, n);
    assert(s@ =~= decimal(n as nat));
    s
}

proof fn lemma_digits_value_push(s: Seq<char>, c: char)
    ensures
        digits_value(s.push(c)) == digits_value(s) * 10 + digit_value(c),
{
    assert(s.push(c).drop_last() =~= s);
}

/// `s.parse::<u64>().ok()`.
pub fn parse_u64(s: &str) -> (res: Option<u64>)
    ensures
        res == parse_u64_spec(s@),
{
    let n = s.unicode_len();
    if n == 0 {
        return None;
    }
    let first = s.get_char(0);
    let start: usize = if first == '+' {
        1
    } else {
        0
    };
    let ghost body = if s@[0] == '+' {
        s@.drop_first()
    } else {
        s@
    };
    assert(body =~= s@.subrange(start as int, n as int));
    if start == n {
        assert(body.len() == 0);
        return None;
    }
    let mut acc: u64 = 0;
    let mut i: usize = start;
    let mut overflow = false;
    while i < n
        invariant
            n == s@.len(),
            start <= i <= n,
            start < n,
            body =~= s@.subrange(start as int, n as int),
            body == (if s@[0] == '+' {
                s@.drop_first()
            } else {
                s@
            }),
            all_digits(s@.subrange(start as int, i as int)),
            !overflow ==> acc == digits_value(s@.subrange(start as int, i as int)),
            overflow ==> digits_value(s@.subrange(start as int, i as int)) > u64::MAX,
        decreases n - i,
    {
        let c = s.get_char(i);
        if !('0' <= c && c <= '9') {
            assert(body[i - start] == c);
            assert(!is_digit(body[i - start]));
            assert(!all_digits(body));
            return None;
        }
        let ghost prefix = s@.subrange(start as int, i as int);
        assert(s@.subrange(start as int, i + 1) =~= prefix.push(c));
        proof {
            lemma_digits_value_push(prefix, c);
        }
        let d = (c as u32 - '0' as u32) as u64;
        assert(d == digit_value(c));
        if !overflow {
            if acc > (u64::MAX - d) / 10 {
                overflow = true;
                assert(acc * 10 + d > u64::MAX) by (nonlinear_arith)
                    requires
                        acc > (u64::MAX - d) / 10,
                        d < 10,
                ;
            } else {
                assert(acc * 10 + d <= u64::MAX) by (nonlinear_arith)
                    requires
                        acc <= (u64::MAX - d) / 10,
                        d < 10,
                ;
                acc = acc * 10 + d;
            }
        } else {
            assert(digits_value(prefix) * 10 + d > u64::MAX) by (nonlinear_arith)
                requires
                    digits_value(prefix) > u64::MAX,
            ;
        }
        i = i + 1;
    }
    assert(s@.subrange(start as int, n as int) =~= body);
    if overflow {
        None
    } else {
        Some(acc)
    }
}

/// `s.parse::<u16>().ok()`.
pub fn parse_u16(s: &str) -> (res: Option<u16>)
    ensures
        res == parse_u16_spec(s@),
{
    match parse_u64(s) {
        Some(v) => if v <= 65535 {
            Some(v as u16)
        } else {
            None
        },
        None => None,
    }
}

/// Whether a character is white space in the sense of `char::is_whitespace`.
pub fn white_space(c: char) -> (res: bool)
    ensures
        res == is_white_space(c),
{
    ('\u{9}' <= c && c <= '\u{d}') || c == ' ' || c == '\u{85}' || c == '\u{a0}' || c == '\u{1680}'
        || ('\u{2000}' <= c && c <= '\u{200a}') || c == '\u{2028}' || c == '\u{2029}' || c
        == '\u{202f}' || c == '\u{205f}' || c == '\u{3000}'
}

proof fn lemma_trim_start_skip(s: Seq<char>, i: int)
    requires
        0 <= i <= s.len(),
        forall|j: int| 0 <= j < i ==> is_white_space(#[trigger] s[j]),
    ensures
        trim_start(s) == trim_start(s.subrange(i, s.len() as int)),
    decreases i,
{
    if i > 0 {
        assert(s.drop_first().subrange(i - 1, s.drop_first().len() as int) =~= s.subrange(
            i,
            s.len() as int,
        ));
        lemma_trim_start_skip(s.drop_first(), i - 1);
    } else {
        assert(s.subrange(0, s.len() as int) =~= s);
    }
}

proof fn lemma_trim_end_skip(s: Seq<char>, k: int)
    requires
        0 <= k <= s.len(),
        forall|j: int| k <= j < s.len() ==> is_white_space(#[trigger] s[j]),
    ensures
        trim_end(s) == trim_end(s.subrange(0, k)),
    decreases s.len() - k,
{
    if k < s.len() {
        assert(s.drop_last().subrange(0, k) =~= s.subrange(0, k));
        lemma_trim_end_skip(s.drop_last(), k);
    } else {
        assert(s.subrange(0, k) =~= s);
    }
}

/// `s.trim()`, as a fresh string.
pub fn trim_string(s: &str) -> (res: String)
    ensures
        res@ == trim(s@),
{
    let n = s.unicode_len();
    let mut i: usize = 0;
    while i < n && white_space(s.get_char(i))
        invariant
            n == s@.len(),
            i <= n,
            forall|j: int| 0 <= j < i ==> is_white_space(#[trigger] s@[j]),
        decreases n - i,
    {
        i = i + 1;
    }
    proof {
        lemma_trim_start_skip(s@, i as int);
    }
    let ghost rest = s@.subrange(i as int, n as int);
    assert(i < n ==> !is_white_space(rest[0]));
    assert(trim_start(rest) == rest);
    let mut k: usize = n;
    while k > i && white_space(s.get_char(k - 1))
        invariant
            n == s@.len(),
            i <= k <= n,
            forall|j: int| k <= j < n ==> is_white_space(#[trigger] s@[j]),
        decreases k,
    {
        k = k - 1;
    }
    proof {
        assert forall|j: int| k - i <= j < rest.len() implies is_white_space(#[trigger] rest[j]) by {
            assert(rest[j] == s@[j + i]);
        }
        lemma_trim_end_skip(rest, k - i);
        let kept = rest.subrange(0, k - i);
        assert(kept =~= s@.subrange(i as int, k as int));
        assert(k > i ==> kept.last() == s@[k - 1]);
        assert(trim_end(kept) == kept);
    }
    let piece = s.substring_char(i, k);
    copy_str(piece)
}

/// `s.split(sep).map(|p| p.trim().to_string()).collect()`.
pub fn split_trimmed(s: &str, sep: char) -> (res: Vec<String>)
    ensures
        res@.len() == split_on(s@, sep).len(),
        forall|j: int|
            0 <= j < res@.len() ==> #[trigger] res@[j]@ == trim(split_on(s@, sep)[j]),
{
    let n = s.unicode_len();
    let mut pieces: Vec<String> = Vec::new();
    let mut start: usize = 0;
    let mut i: usize = 0;
    assert(s@.subrange(0, 0) =~= Seq::<char>::empty());
    while i < n
        invariant
            n == s@.len(),
            start <= i <= n,
            split_on(s@.subrange(0, i as int), sep).len() == pieces@.len() + 1,
            forall|j: int|
                0 <= j < pieces@.len() ==> #[trigger] pieces@[j]@ == trim(
                    split_on(s@.subrange(0, i as int), sep)[j],
                ),
            split_on(s@.subrange(0, i as int), sep).last() == s@.subrange(start as int, i as int),
        decreases n - i,
    {
        let c = s.get_char(i);
        let ghost before = split_on(s@.subrange(0, i as int), sep);
        assert(s@.subrange(0, i + 1).drop_last() =~= s@.subrange(0, i as int));
        if c == sep {
            let piece = trim_string(s.substring_char(start, i));
            pieces.push(piece);
            start = i + 1;
            assert(s@.subrange(start as int, i + 1) =~= Seq::<char>::empty());
        } else {
            assert(s@.subrange(start as int, i + 1) =~= s@.subrange(start as int, i as int).push(
                c,
            ));
        }
        i = i + 1;
    }
    let last = trim_string(s.substring_char(start, n));
    pieces.push(last);
    assert(s@.subrange(0, n as int) =~= s@);
    pieces
}

proof fn lemma_decimal_digits(n: nat)
    ensures
        decimal(n).len() > 0,
        all_digits(decimal(n)),
        digits_value(decimal(n)) == n,
    decreases n,
{
    if n < 10 {
        let d = decimal(n);
        assert(d == seq![digit_char(n)]);
        assert(d.drop_last() =~= Seq::<char>::empty());
        assert(digits_value(Seq::<char>::empty()) == 0);
        assert(digit_value(digit_char(n)) == n);
        assert(digits_value(d) == digits_value(d.drop_last()) * 10 + digit_value(d.last()));
    } else {
        lemma_decimal_digits(n / 10);
        let c = digit_char(n % 10);
        lemma_digits_value_push(decimal(n / 10), c);
        assert(digit_value(c) == n % 10);
        let d = decimal(n);
        assert(d == decimal(n / 10).push(c));
        assert((n / 10) * 10 + n % 10 == n);
        assert forall|i: int| 0 <= i < d.len() implies is_digit(#[trigger] d[i]) by {
            if i < d.len() - 1 {
                assert(d[i] == decimal(n / 10)[i]);
            }
        }
    }
}

/// A numeral that `decimal_string` writes reads back, through `parse_u64`
/// or (for values that fit) `parse_u16`, as the number written.
pub proof fn law_decimal_reads_back(n: u64)
    ensures
        parse_u64_spec(decimal(n as nat)) == Some(n),
        n <= u16::MAX ==> parse_u16_spec(decimal(n as nat)) == Some(n as u16),
{
    lemma_decimal_digits(n as nat);
    assert(is_digit(decimal(n as nat)[0]));
}

/// `needle` occurs in `hay`.
pub open spec fn seq_contains(hay: Seq<char>, needle: Seq<char>) -> bool {
    exists|i: int|
        0 <= i && i + needle.len() <= hay.len() && #[trigger] hay.subrange(i, i + needle.len())
            == needle
}

/// `hay.contains(needle)`.
pub fn contains_str(hay: &str, needle: &str) -> (res: bool)
    ensures
        res == seq_contains(hay@, needle@),
{
    let n = hay.unicode_len();
    let m = needle.unicode_len();
    if m > n {
        assert forall|i: int|
            0 <= i && i + needle@.len() <= hay@.len() implies #[trigger] hay@.subrange(
            i,
            i + needle@.len(),
        ) != needle@ by {}
        return false;
    }
    let mut i: usize = 0;
    while i <= n - m
        invariant
            n == hay@.len(),
            m == needle@.len(),
            m <= n,
            i <= n - m + 1,
            forall|k: int| 0 <= k < i ==> #[trigger] hay@.subrange(k, k + m) != needle@,
        decreases n - m + 1 - i,
    {
        let mut j: usize = 0;
        let mut same = true;
        while j < m && same
            invariant
                n == hay@.len(),
                m == needle@.len(),
                i + m <= n,
                j <= m,
                same ==> forall|t: int| 0 <= t < j ==> hay@[i + t] == needle@[t],
                !same ==> j > 0 && hay@[i + j - 1] != needle@[j - 1],
            decreases m - j,
        {
            if hay.get_char(i + j) != needle.get_char(j) {
                same = false;
            }
            j = j + 1;
        }
        if same {
            assert(hay@.subrange(i as int, i + m) =~= needle@);
            return true;
        } else {
            assert(hay@.subrange(i as int, i + m)[j - 1] != needle@[j - 1]);
        }
        i = i + 1;
    }
    assert forall|k: int| 0 <= k && k + needle@.len() <= hay@.len() implies #[trigger] hay@.subrange(
        k,
        k + needle@.len(),
    ) != needle@ by {
        assert(k < i);
    }
    false
}

/// Each piece occurs in the pieces joined.
pub proof fn lemma_join_contains(pieces: Seq<Seq<char>>, sep: Seq<char>, i: int)
    requires
        0 <= i < pieces.len(),
    ensures
        seq_contains(join(pieces, sep), pieces[i]),
    decreases pieces.len(),
{
    let whole = join(pieces, sep);
    let p = pieces[i];
    if pieces.len() == 1 {
        assert(whole.subrange(0, 0int + p.len()) =~= p);
    } else {
        let front = join(pieces.drop_last(), sep);
        assert(whole == front + sep + pieces.last());
        if i == pieces.len() - 1 {
            let k: int = front.len() as int + sep.len();
            assert(whole.subrange(k, k + p.len()) =~= p);
        } else {
            lemma_join_contains(pieces.drop_last(), sep, i);
            assert(pieces.drop_last()[i] == p);
            let k = choose|k: int|
                0 <= k && k + p.len() <= front.len() && #[trigger] front.subrange(k, k + p.len())
                    == p;
            assert(whole.subrange(k, k + p.len()) =~= front.subrange(k, k + p.len()));
        }
    }
}

} // verus!
