//! Text helpers shared by the request and payload builders.

use vstd::prelude::*;
use vstd::string::StringExecFns;

verus! {

/// `String::push` of the standard library: the character is appended at the
/// end and nothing else changes.
pub assume_specification[ String::push ](s: &mut String, c: char)
    ensures
        final(s)@ == old(s)@.push(c),
;

/// Whether two texts hold the same characters.
pub fn same_text(a: &str, b: &str) -> (r: bool)
    ensures
        r == (a@ == b@),
{
    let x = a.to_owned();
    let y = b.to_owned();
    x == y
}

/// The decimal digit that stands for `d`.
pub open spec fn digit_char(d: nat) -> char {
    if d == 0 {
        '0'
    } else if d == 1 {
        '1'
    } else if d == 2 {
        '2'
    } else if d == 3 {
        '3'
    } else if d == 4 {
        '4'
    } else if d == 5 {
        '5'
    } else if d == 6 {
        '6'
    } else if d == 7 {
        '7'
    } else if d == 8 {
        '8'
    } else {
        '9'
    }
}

/// Decimal notation of a natural number: no sign, no leading zero but for
/// zero itself.
pub open spec fn decimal(n: nat) -> Seq<char>
    decreases n,
{
    if n < 10 {
        seq![digit_char(n)]
    } else {
        decimal(n / 10).push(digit_char(n % 10))
    }
}

/// Decimal notation of an integer: a minus sign in front of a negative one.
pub open spec fn signed_decimal(i: int) -> Seq<char> {
    if i < 0 {
        seq!['-'] + decimal((-i) as nat)
    } else {
        decimal(i as nat)
    }
}

/// `"true"` or `"false"`.
pub open spec fn bool_text(b: bool) -> Seq<char> {
    if b {
        seq!['t', 'r', 'u', 'e']
    } else {
        seq!['f', 'a', 'l', 's', 'e']
    }
}

fn digit_of(d: u8) -> (c: char)
    requires
        d < 10,
    ensures
        c == digit_char(d as nat),
{
    if d == 0 {
        '0'
    } else if d == 1 {
        '1'
    } else if d == 2 {
        '2'
    } else if d == 3 {
        '3'
    } else if d == 4 {
        '4'
    } else if d == 5 {
        '5'
    } else if d == 6 {
        '6'
    } else if d == 7 {
        '7'
    } else if d == 8 {
        '8'
    } else {
        '9'
    }
}

/// Appends the decimal notation of `n` to `out`.
pub fn push_decimal(out: &mut String, n: u128)
    ensures
        final(out)@ == old(out)@ + decimal(n as nat),
    decreases n,
{
    if n >= 10 {
        push_decimal(out, n / 10);
    }
    let d: u8 = (n % 10) as u8;
    out.push(digit_of(d));
    assert(final(out)@ =~= old(out)@ + decimal(n as nat));
}

/// Decimal notation of an unsigned number.
pub fn unsigned_text(n: u128) -> (r: String)
    ensures
        r@ == decimal(n as nat),
{
    let mut out = String::new();
    push_decimal(&mut out, n);
    assert(out@ =~= decimal(n as nat));
    out
}

/// Decimal notation of a signed number.
pub fn signed_text(i: i64) -> (r: String)
    ensures
        r@ == signed_decimal(i as int),
{
    let mut out = String::new();
    if i < 0 {
        out.push('-');
        let magnitude: u128 = (-(i as i128)) as u128;
        push_decimal(&mut out, magnitude);
        assert(out@ =~= signed_decimal(i as int));
    } else {
        push_decimal(&mut out, i as u128);
        assert(out@ =~= signed_decimal(i as int));
    }
    out
}

/// `"true"` or `"false"`.
pub fn truth_text(b: bool) -> (r: String)
    ensures
        r@ == bool_text(b),
{
    let mut out = String::new();
    if b {
        out.push('t');
        out.push('r');
        out.push('u');
        out.push('e');
    } else {
        out.push('f');
        out.push('a');
        out.push('l');
        out.push('s');
        out.push('e');
    }
    assert(out@ =~= bool_text(b));
    out
}

/// The text with every `&` written as `%26`, all other characters kept.
pub open spec fn escape_ampersands(s: Seq<char>) -> Seq<char>
    decreases s.len(),
{
    if s.len() == 0 {
        s
    } else if s.last() == '&' {
        escape_ampersands(s.drop_last()) + seq!['%', '2', '6']
    } else {
        escape_ampersands(s.drop_last()).push(s.last())
    }
}

/// Appends `s` to `out`, writing every `&` as `%26`.
pub fn push_escaped(out: &mut String, s: &str)
    ensures
        final(out)@ == old(out)@ + escape_ampersands(s@),
{
    let ghost before = out@;
    for c in it: s.chars()
        invariant
            it.seq() == s@,
            out@ == before + escape_ampersands(s@.take(it.index())),
    {
        let ghost k = it.index();
        proof {
            assert(s@.take(k + 1).drop_last() =~= s@.take(k));
            assert(s@.take(k + 1).last() == c);
        }
        if c == '&' {
            out.push('%');
            out.push('2');
            out.push('6');
        } else {
            out.push(c);
        }
        assert(out@ =~= before + escape_ampersands(s@.take(k + 1)));
    }
    assert(s@.take(s@.len() as int) =~= s@);
}

/// Whether the text ends in a line feed.
pub open spec fn ends_with_newline(s: Seq<char>) -> bool {
    s.len() > 0 && s.last() == '\n'
}

/// Whether the text ends in a line feed.
pub fn has_final_newline(s: &str) -> (r: bool)
    ensures
        r == ends_with_newline(s@),
{
    let mut last_is_newline = false;
    for c in it: s.chars()
        invariant
            it.seq() == s@,
            last_is_newline == ends_with_newline(s@.take(it.index())),
    {
        proof {
            assert(s@.take(it.index() + 1).last() == c);
        }
        last_is_newline = c == '\n';
    }
    assert(s@.take(s@.len() as int) =~= s@);
    last_is_newline
}

} // verus!

verus! {

/// Whether the character is one of the ten decimal digits.
pub open spec fn is_digit(c: char) -> bool {
    '0' <= c && c <= '9'
}

/// The number a decimal digit stands for.
pub open spec fn digit_value(c: char) -> nat {
    (c as u32 - '0' as u32) as nat
}

/// Whether the text is made of decimal digits only.
pub open spec fn all_digits(s: Seq<char>) -> bool {
    forall|i: int| 0 <= i < s.len() ==> is_digit(#[trigger] s[i])
}

/// The number that a run of decimal digits stands for; leading zeros do not
/// count.
pub open spec fn digits_value(s: Seq<char>) -> nat
    decreases s.len(),
{
    if s.len() == 0 {
        0
    } else {
        digits_value(s.drop_last()) * 10 + digit_value(s.last())
    }
}

/// The number that a text stands for, if it is one and no more than `max`:
/// one or more decimal digits, with or without a plus sign in front and
/// nothing else.
pub open spec fn parsed_unsigned(s: Seq<char>, max: nat) -> Option<nat> {
    let digits = if s.len() > 0 && s[0] == '+' {
        s.drop_first()
    } else {
        s
    };
    if digits.len() > 0 && all_digits(digits) && digits_value(digits) <= max {
        Some(digits_value(digits))
    } else {
        None
    }
}

/// The integer that a text stands for, if it is one between `-bound - 1` and
/// `bound`: one or more decimal digits, with or without a sign in front and
/// nothing else.
pub open spec fn parsed_signed(s: Seq<char>, bound: nat) -> Option<int> {
    if s.len() > 0 && s[0] == '-' {
        let digits = s.drop_first();
        if digits.len() > 0 && all_digits(digits) && digits_value(digits) <= bound + 1 {
            Some(-(digits_value(digits) as int))
        } else {
            None
        }
    } else {
        match parsed_unsigned(s, bound) {
            Some(n) => Some(n as int),
            None => None,
        }
    }
}

/// A run of digits never stands for less than one of its beginnings.
pub proof fn lemma_digits_value_grows(s: Seq<char>, k: int)
    requires
        0 <= k <= s.len(),
    ensures
        digits_value(s.take(k)) <= digits_value(s),
    decreases s.len(),
{
    if k == s.len() {
        assert(s.take(k) =~= s);
    } else {
        lemma_digits_value_grows(s.drop_last(), k);
        assert(s.drop_last().take(k) =~= s.take(k));
    }
}

fn value_of_digit(c: char) -> (d: Option<u8>)
    ensures
        match d {
            Some(v) => is_digit(c) && v == digit_value(c),
            None => !is_digit(c),
        },
{
    if c == '0' {
        Some(0)
    } else if c == '1' {
        Some(1)
    } else if c == '2' {
        Some(2)
    } else if c == '3' {
        Some(3)
    } else if c == '4' {
        Some(4)
    } else if c == '5' {
        Some(5)
    } else if c == '6' {
        Some(6)
    } else if c == '7' {
        Some(7)
    } else if c == '8' {
        Some(8)
    } else if c == '9' {
        Some(9)
    } else {
        None
    }
}

/// Whether the text starts with a sign that a reading takes: a plus sign,
/// or a minus sign where `signed` allows one.
pub open spec fn starts_with_sign(s: Seq<char>, signed: bool) -> bool {
    s.len() > 0 && (s[0] == '+' || (signed && s[0] == '-'))
}

/// The largest magnitude a reading accepts: one more after a minus sign.
pub open spec fn magnitude_bound(limit: u64, negative: bool) -> int {
    if negative {
        limit + 1
    } else {
        limit as int
    }
}

/// Reads a decimal number of at most `limit` in magnitude, or `limit + 1`
/// after a minus sign where `signed` allows one. The answer is whether a
/// minus sign came first, and the magnitude.
fn read_decimal(s: &str, limit: u64, signed: bool) -> (r: Option<(bool, u128)>)
    ensures
        signed ==> match r {
            Some((negative, value)) => parsed_signed(s@, limit as nat) == Some(
                if negative {
                    -(value as int)
                } else {
                    value as int
                },
            ) && value <= magnitude_bound(limit, negative),
            None => parsed_signed(s@, limit as nat) is None,
        },
        !signed ==> match r {
            Some((negative, value)) => !negative && value <= limit && parsed_unsigned(
                s@,
                limit as nat,
            ) == Some(value as nat),
            None => parsed_unsigned(s@, limit as nat) is None,
        },
{
    let mut first = true;
    let mut sign_read = false;
    let mut negative = false;
    let mut digits_read = false;
    let mut value: u128 = 0;
    for c in it: s.chars()
        invariant
            it.seq() == s@,
            first <==> it.index() == 0,
            sign_read ==> it.index() >= 1 && starts_with_sign(s@, signed),
            !first ==> (sign_read <==> starts_with_sign(s@, signed)),
            negative <==> sign_read && s@[0] == '-',
            digits_read <==> it.index() > (if sign_read {
                1int
            } else {
                0int
            }),
            all_digits(
                s@.subrange(
                    if sign_read {
                        1int
                    } else {
                        0int
                    },
                    it.index() as int,
                ),
            ),
            value == digits_value(
                s@.subrange(
                    if sign_read {
                        1int
                    } else {
                        0int
                    },
                    it.index() as int,
                ),
            ),
            value <= magnitude_bound(limit, negative),
    {
        let ghost k = it.index() as int;
        let was_first = first;
        first = false;
        if was_first && (c == '+' || (signed && c == '-')) {
            sign_read = true;
            negative = c == '-';
            proof {
                assert(s@.subrange(1, 1) =~= Seq::<char>::empty());
            }
        } else {
            let ghost skip: int = if sign_read {
                1
            } else {
                0
            };
            match value_of_digit(c) {
                Some(d) => {
                    let grown: u128 = value * 10 + d as u128;
                    proof {
                        let longer = s@.subrange(skip, k + 1);
                        assert(longer.drop_last() =~= s@.subrange(skip, k));
                        assert(longer.last() == c);
                        assert(digits_value(longer) == grown);
                        assert forall|i: int| 0 <= i < longer.len() implies is_digit(
                            #[trigger] longer[i],
                        ) by {
                            if i < longer.len() - 1 {
                                assert(longer[i] == s@.subrange(skip, k)[i]);
                            }
                        }
                    }
                    let bound: u128 = if negative {
                        limit as u128 + 1
                    } else {
                        limit as u128
                    };
                    if grown > bound {
                        proof {
                            lemma_too_large(s@, limit as nat, signed, skip, k + 1);
                        }
                        return None;
                    }
                    value = grown;
                    digits_read = true;
                },
                None => {
                    proof {
                        lemma_not_a_number(s@, limit as nat, signed, skip, k);
                    }
                    return None;
                },
            }
        }
    }
    proof {
        let skip: int = if sign_read {
            1
        } else {
            0
        };
        assert(s@.subrange(skip, s@.len() as int) =~= if skip == 1 {
            s@.drop_first()
        } else {
            s@
        });
    }
    if digits_read {
        Some((negative, value))
    } else {
        None
    }
}

/// A text with a character that is no digit, after its sign, is no number.
proof fn lemma_not_a_number(s: Seq<char>, limit: nat, signed: bool, skip: int, at: int)
    requires
        0 <= skip <= at < s.len(),
        skip == (if starts_with_sign(s, signed) {
            1int
        } else {
            0int
        }),
        !is_digit(s[at]),
    ensures
        !signed ==> parsed_unsigned(s, limit) is None,
        signed ==> parsed_signed(s, limit) is None,
{
    if skip == 1 {
        assert(s.drop_first()[at - 1] == s[at]);
    } else {
        assert(!is_digit(s[at]));
        if s[0] == '-' {
            assert(!is_digit(s[0]));
        }
    }
}

/// A text whose digits, up to some point, already stand for more than the
/// bound is no number within the bound.
proof fn lemma_too_large(s: Seq<char>, limit: nat, signed: bool, skip: int, upto: int)
    requires
        0 <= skip < upto <= s.len(),
        skip == (if starts_with_sign(s, signed) {
            1int
        } else {
            0int
        }),
        digits_value(s.subrange(skip, upto)) > (if signed && s[0] == '-' {
            limit + 1
        } else {
            limit
        }),
    ensures
        !signed ==> parsed_unsigned(s, limit) is None,
        signed ==> parsed_signed(s, limit) is None,
{
    let digits = s.subrange(skip, s.len() as int);
    assert(digits =~= if skip == 1 {
        s.drop_first()
    } else {
        s
    });
    lemma_digits_value_grows(digits, upto - skip);
    assert(digits.take(upto - skip) =~= s.subrange(skip, upto));
    if !signed && s[0] == '-' {
        assert(!is_digit(s[0]));
    }
}

/// Reads a count of tickets: a decimal number up to 255.
pub fn parse_u8(s: &str) -> (r: Option<u8>)
    ensures
        match r {
            Some(n) => parsed_unsigned(s@, 255) == Some(n as nat),
            None => parsed_unsigned(s@, 255) is None,
        },
{
    match read_decimal(s, 255, false) {
        Some((_, value)) => Some(value as u8),
        None => None,
    }
}

/// Reads the id of a project or an order: a decimal number, with or
/// without a sign, that fits 64 bits with one.
pub fn parse_i64(s: &str) -> (r: Option<i64>)
    ensures
        match r {
            Some(n) => parsed_signed(s@, i64::MAX as nat) == Some(n as int),
            None => parsed_signed(s@, i64::MAX as nat) is None,
        },
{
    match read_decimal(s, 0x7fff_ffff_ffff_ffff, true) {
        Some((negative, value)) => {
            if negative {
                Some((-(value as i128)) as i64)
            } else {
                Some(value as i64)
            }
        },
        None => None,
    }
}

/// Reads a decimal number that fits 64 bits without a sign.
pub fn parse_u64(s: &str) -> (r: Option<u64>)
    ensures
        match r {
            Some(n) => parsed_unsigned(s@, u64::MAX as nat) == Some(n as nat),
            None => parsed_unsigned(s@, u64::MAX as nat) is None,
        },
{
    match read_decimal(s, u64::MAX, false) {
        Some((_, value)) => Some(value as u64),
        None => None,
    }
}

} // verus!

verus! {

/// The decimal notation of a number is a run of digits that stands for it.
pub proof fn lemma_decimal_is_digits(n: nat)
    ensures
        decimal(n).len() > 0,
        all_digits(decimal(n)),
        digits_value(decimal(n)) == n,
    decreases n,
{
    if n < 10 {
        assert(decimal(n).drop_last() =~= Seq::<char>::empty());
        assert(digits_value(decimal(n).drop_last()) == 0);
    } else {
        lemma_decimal_is_digits(n / 10);
        assert(decimal(n).drop_last() =~= decimal(n / 10));
        assert(decimal(n).last() == digit_char(n % 10));
        assert forall|i: int| 0 <= i < decimal(n).len() implies is_digit(
            #[trigger] decimal(n)[i],
        ) by {
            if i < decimal(n).len() - 1 {
                assert(decimal(n)[i] == decimal(n / 10)[i]);
            }
        }
    }
}

/// Reading undoes writing: the decimal notation of a number within the
/// limit is read back as that number.
pub proof fn lemma_unsigned_reads_back(n: nat, max: nat)
    requires
        n <= max,
    ensures
        parsed_unsigned(decimal(n), max) == Some(n),
{
    lemma_decimal_is_digits(n);
    assert(is_digit(decimal(n)[0]));
}

/// Reading undoes writing for integers too, a minus sign included.
pub proof fn lemma_signed_reads_back(i: int, bound: nat)
    requires
        -bound - 1 <= i <= bound,
    ensures
        parsed_signed(signed_decimal(i), bound) == Some(i),
{
    if i < 0 {
        lemma_decimal_is_digits((-i) as nat);
        assert(signed_decimal(i).drop_first() =~= decimal((-i) as nat));
    } else {
        lemma_unsigned_reads_back(i as nat, bound);
        lemma_decimal_is_digits(i as nat);
        assert(is_digit(decimal(i as nat)[0]));
    }
}

} // verus!
