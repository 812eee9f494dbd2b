//! Decimal text for integers: the rendering `Display` gives an integer and the
//! parsing `str::parse::<u64>` performs.
use vstd::prelude::*;

verus! {

/// The character of the decimal digit `d`.
pub open spec fn digit_char(d: nat) -> char
    recommends
        d < 10,
{
    (d + 48) as char
}

/// Whether `c` is one of the ASCII digits `0`..`9`.
pub open spec fn is_digit(c: char) -> bool {
    48 <= (c as int) && (c as int) <= 57
}

/// The value of an ASCII digit.
pub open spec fn digit_value(c: char) -> nat {
    ((c as int) - 48) as nat
}

/// The shortest decimal text of `n`, most significant digit first.
pub open spec fn decimal(n: nat) -> Seq<char>
    decreases n,
{
    if n < 10 {
        seq![digit_char(n)]
    } else {
        decimal(n / 10).push(digit_char(n % 10))
    }
}

/// The decimal text of a signed integer: a minus sign before negative values.
pub open spec fn signed_decimal(n: int) -> Seq<char> {
    if n < 0 {
        seq!['-'] + decimal((-n) as nat)
    } else {
        decimal(n as nat)
    }
}

fn digit_text(d: u64) -> (s: &'static str)
    requires
        d < 10,
    ensures
        s@ == seq![digit_char(d as nat)],
{
    if d == 0 {
        proof { reveal_strlit("0"); }
        "0"
    } else if d == 1 {
        proof { reveal_strlit("1"); }
        "1"
    } else if d == 2 {
        proof { reveal_strlit("2"); }
        "2"
    } else if d == 3 {
        proof { reveal_strlit("3"); }
        "3"
    } else if d == 4 {
        proof { reveal_strlit("4"); }
        "4"
    } else if d == 5 {
        proof { reveal_strlit("5"); }
        "5"
    } else if d == 6 {
        proof { reveal_strlit("6"); }
        "6"
    } else if d == 7 {
        proof { reveal_strlit("7"); }
        "7"
    } else if d == 8 {
        proof { reveal_strlit("8"); }
        "8"
    } else {
        proof { reveal_strlit("9"); }
        "9"
    }
}

/// Appends the decimal text of `n` to `out`.
pub fn push_decimal(out: &mut String, n: u64)
    ensures
        final(out)@ == old(out)@ + decimal(n as nat),
    decreases n,
{
    if n < 10 {
        out.append(digit_text(n));
    } else {
        push_decimal(out, n / 10);
        out.append(digit_text(n % 10));
        assert(decimal(n as nat) == decimal((n / 10) as nat).push(digit_char((n % 10) as nat)));
    }
}

/// Appends the decimal text of the signed `n` to `out`.
pub fn push_signed_decimal(out: &mut String, n: i64)
    ensures
        final(out)@ == old(out)@ + signed_decimal(n as int),
{
    if n < 0 {
        proof { reveal_strlit("-"); }
        out.append("-");
        let magnitude: u64 = if n == i64::MIN {
            9223372036854775808u64
        } else {
            (-n) as u64
        };
        push_decimal(out, magnitude);
        assert(old(out)@ + seq!['-'] + decimal(magnitude as nat) =~= old(out)@ + (seq!['-']
            + decimal(magnitude as nat)));
    } else {
        push_decimal(out, n as u64);
    }
}

/// The decimal text of `n`, as `n.to_string()` gives it.
pub fn u64_to_decimal(n: u64) -> (s: String)
    ensures
        s@ == decimal(n as nat),
{
    let mut s = String::new();
    push_decimal(&mut s, n);
    assert(Seq::<char>::empty() + decimal(n as nat) =~= decimal(n as nat));
    s
}


/// Why a text is not the decimal of a `u64`; the kinds of `std::num::IntErrorKind`
/// that parsing a `u64` can give.
#[derive(Debug, Clone, Copy, PartialEq, Eq, Structural)]
pub enum ParseIdError {
    /// The text is empty.
    Empty,
    /// The text holds a character that is not a digit where a digit belongs.
    InvalidDigit,
    /// The number is larger than `u64::MAX`.
    PosOverflow,
}

/// Reads the digits of `s` onto the value `acc` from left to right, as
/// `u64::from_str` does: the first character that is no digit, or the first
/// digit that takes the value past `u64::MAX`, ends the reading with an error.
pub open spec fn parse_digits(s: Seq<char>, acc: nat) -> Result<u64, ParseIdError>
    decreases s.len(),
{
    if s.len() == 0 {
        Ok(acc as u64)
    } else if !is_digit(s[0]) {
        Err(ParseIdError::InvalidDigit)
    } else if acc * 10 + digit_value(s[0]) > u64::MAX {
        Err(ParseIdError::PosOverflow)
    } else {
        parse_digits(s.drop_first(), acc * 10 + digit_value(s[0]))
    }
}

/// What `str::parse::<u64>` gives for the text `s`: an optional leading `+`,
/// then at least one digit and nothing else.
pub open spec fn parse_u64_text(s: Seq<char>) -> Result<u64, ParseIdError> {
    if s.len() == 0 {
        Err(ParseIdError::Empty)
    } else if (s[0] == '+' || s[0] == '-') && s.len() == 1 {
        Err(ParseIdError::InvalidDigit)
    } else if s[0] == '+' {
        parse_digits(s.drop_first(), 0)
    } else {
        parse_digits(s, 0)
    }
}

impl ParseIdError {
    /// The text `std::num::ParseIntError` displays for this kind.
    pub fn message(&self) -> (text: String)
        ensures
            text@ == parse_error_text(*self),
    {
        match self {
            ParseIdError::Empty => String::from_str("cannot parse integer from empty string"),
            ParseIdError::InvalidDigit => String::from_str("invalid digit found in string"),
            ParseIdError::PosOverflow => String::from_str("number too large to fit in target type"),
        }
    }
}

/// The text `std::num::ParseIntError` displays for the kind `e`.
pub open spec fn parse_error_text(e: ParseIdError) -> Seq<char> {
    match e {
        ParseIdError::Empty => "cannot parse integer from empty string"@,
        ParseIdError::InvalidDigit => "invalid digit found in string"@,
        ParseIdError::PosOverflow => "number too large to fit in target type"@,
    }
}

/// Parses the characters `s` as `str::parse::<u64>` parses the text they spell.
pub fn parse_u64_chars(s: &Vec<char>) -> (r: Result<u64, ParseIdError>)
    ensures
        r == parse_u64_text(s@),
{
    let len = s.len();
    if len == 0 {
        return Err(ParseIdError::Empty);
    }
    if (s[0] == '+' || s[0] == '-') && len == 1 {
        return Err(ParseIdError::InvalidDigit);
    }
    let mut i: usize = if s[0] == '+' { 1 } else { 0 };
    let mut acc: u64 = 0;
    assert(s@.skip(1) =~= s@.drop_first());
    assert(s@.skip(0) =~= s@);
    while i < len
        invariant
            len == s@.len(),
            i <= len,
            parse_u64_text(s@) == parse_digits(s@.skip(i as int), acc as nat),
        decreases len - i,
    {
        let c = s[i];
        assert(s@.skip(i as int)[0] == c);
        assert(s@.skip(i as int).drop_first() =~= s@.skip(i + 1));
        if !(c >= '0' && c <= '9') {
            return Err(ParseIdError::InvalidDigit);
        }
        let d: u64 = ((c as u32) - 48) as u64;
        match acc.checked_mul(10) {
            None => {
                return Err(ParseIdError::PosOverflow);
            },
            Some(m) => match m.checked_add(d) {
                None => {
                    return Err(ParseIdError::PosOverflow);
                },
                Some(v) => {
                    acc = v;
                },
            },
        }
        i = i + 1;
    }
    assert(s@.skip(len as int).len() == 0);
    Ok(acc)
}


/// The value of the digits `s` read onto `acc`, without any bound.
pub open spec fn digits_value(acc: nat, s: Seq<char>) -> nat
    decreases s.len(),
{
    if s.len() == 0 {
        acc
    } else {
        digits_value(acc * 10 + digit_value(s[0]), s.drop_first())
    }
}

/// Whether every character of `s` is an ASCII digit.
pub open spec fn all_digits(s: Seq<char>) -> bool {
    forall|i: int| 0 <= i < s.len() ==> #[trigger] is_digit(s[i])
}

proof fn lemma_digits_value_grows(acc: nat, s: Seq<char>)
    ensures
        digits_value(acc, s) >= acc,
    decreases s.len(),
{
    if s.len() > 0 {
        lemma_digits_value_grows(acc * 10 + digit_value(s[0]), s.drop_first());
    }
}

proof fn lemma_parse_all_digits(s: Seq<char>, acc: nat)
    requires
        all_digits(s),
        acc <= u64::MAX,
    ensures
        parse_digits(s, acc) == (if digits_value(acc, s) <= u64::MAX {
            Ok::<u64, ParseIdError>(digits_value(acc, s) as u64)
        } else {
            Err(ParseIdError::PosOverflow)
        }),
    decreases s.len(),
{
    if s.len() > 0 {
        assert(is_digit(s[0]));
        let next = acc * 10 + digit_value(s[0]);
        lemma_digits_value_grows(next, s.drop_first());
        assert(all_digits(s.drop_first())) by {
            assert forall|i: int| 0 <= i < s.drop_first().len() implies #[trigger] is_digit(
                s.drop_first()[i],
            ) by {
                assert(s.drop_first()[i] == s[i + 1]);
            }
        }
        if next <= u64::MAX {
            lemma_parse_all_digits(s.drop_first(), next);
        }
    }
}

proof fn lemma_digits_value_push(acc: nat, s: Seq<char>, c: char)
    ensures
        digits_value(acc, s.push(c)) == digits_value(acc, s) * 10 + digit_value(c),
    decreases s.len(),
{
    let t = s.push(c);
    assert(t.len() > 0 && t[0] == (if s.len() == 0 { c } else { s[0] }));
    if s.len() == 0 {
        assert(t.drop_first() =~= Seq::<char>::empty());
        assert(digits_value(acc * 10 + digit_value(c), t.drop_first()) == acc * 10 + digit_value(
            c,
        ));
    } else {
        assert(t.drop_first() =~= s.drop_first().push(c));
        lemma_digits_value_push(acc * 10 + digit_value(s[0]), s.drop_first(), c);
    }
}

/// The decimal text of `n` is a non-empty run of digits whose value is `n`.
pub proof fn lemma_decimal_digits(n: nat)
    ensures
        decimal(n).len() > 0,
        all_digits(decimal(n)),
        digits_value(0, decimal(n)) == n,
    decreases n,
{
    if n < 10 {
        assert(digit_value(digit_char(n)) == n);
        assert(decimal(n).drop_first() =~= Seq::<char>::empty());
        assert(digits_value(n, decimal(n).drop_first()) == n);
    } else {
        lemma_decimal_digits(n / 10);
        let c = digit_char(n % 10);
        assert(digit_value(c) == n % 10);
        lemma_digits_value_push(0, decimal(n / 10), c);
        assert(all_digits(decimal(n))) by {
            assert forall|i: int| 0 <= i < decimal(n).len() implies #[trigger] is_digit(
                decimal(n)[i],
            ) by {
                if i < decimal(n / 10).len() {
                    assert(decimal(n)[i] == decimal(n / 10)[i]);
                }
            }
        }
    }
}

/// Reading back the decimal text of a `u64` gives the number: the rendering
/// and the parsing of ids are inverse to each other.
pub proof fn lemma_parse_decimal(n: u64)
    ensures
        parse_u64_text(decimal(n as nat)) == Ok::<u64, ParseIdError>(n),
{
    lemma_decimal_digits(n as nat);
    assert(is_digit(decimal(n as nat)[0]));
    lemma_parse_all_digits(decimal(n as nat), 0);
}


/// The decimal text of a signed number reads back as that number: a
/// non-negative one parses to itself, a negative one is a minus sign followed
/// by the text that parses to its magnitude.
pub proof fn lemma_signed_decimal_reads_back(n: i64)
    ensures
        n >= 0 ==> parse_u64_text(signed_decimal(n as int)) == Ok::<u64, ParseIdError>(n as u64),
        n < 0 ==> signed_decimal(n as int).len() > 1 && signed_decimal(n as int)[0] == '-'
            && parse_u64_text(signed_decimal(n as int).drop_first()) == Ok::<u64, ParseIdError>(
            (-(n as int)) as u64,
        ),
{
    if n >= 0 {
        lemma_parse_decimal(n as u64);
    } else {
        let m: u64 = (-(n as int)) as u64;
        lemma_parse_decimal(m);
        lemma_decimal_digits(m as nat);
        assert((seq!['-'] + decimal(m as nat)).drop_first() =~= decimal(m as nat));
    }
}

/// Whatever `str::parse::<u64>` accepts is an optional `+` and then a
/// non-empty run of digits whose value is the number given back.
pub proof fn lemma_parse_accepts_only_digits(s: Seq<char>)
    ensures
        parse_u64_text(s) matches Ok(v) ==> {
            let digits = if s[0] == '+' { s.drop_first() } else { s };
            &&& digits.len() > 0
            &&& all_digits(digits)
            &&& digits_value(0, digits) == v
        },
{
    if s.len() > 0 {
        let digits = if s[0] == '+' { s.drop_first() } else { s };
        lemma_parse_digits_sound(digits, 0);
    }
}

proof fn lemma_parse_digits_sound(s: Seq<char>, acc: nat)
    requires
        acc <= u64::MAX,
    ensures
        parse_digits(s, acc) matches Ok(v) ==> all_digits(s) && digits_value(acc, s) == v,
    decreases s.len(),
{
    if s.len() > 0 && is_digit(s[0]) && acc * 10 + digit_value(s[0]) <= u64::MAX {
        let next = acc * 10 + digit_value(s[0]);
        lemma_parse_digits_sound(s.drop_first(), next);
        if parse_digits(s, acc) is Ok {
            assert forall|i: int| 0 <= i < s.len() implies #[trigger] is_digit(s[i]) by {
                if i > 0 {
                    assert(s[i] == s.drop_first()[i - 1]);
                }
            }
        }
    }
}


/// What `str::parse::<u64>` refuses, and why: an empty text is empty; a lone
/// sign, or a text that starts with neither a digit nor `+`, has an invalid
/// digit; a run of digits whose value passes `u64::MAX` overflows.
pub proof fn lemma_parse_refusals(s: Seq<char>)
    ensures
        s.len() == 0 ==> parse_u64_text(s) == Err::<u64, ParseIdError>(ParseIdError::Empty),
        s.len() == 1 && (s[0] == '+' || s[0] == '-') ==> parse_u64_text(s) == Err::<
            u64,
            ParseIdError,
        >(ParseIdError::InvalidDigit),
        s.len() > 0 && !is_digit(s[0]) && s[0] != '+' ==> parse_u64_text(s) == Err::<
            u64,
            ParseIdError,
        >(ParseIdError::InvalidDigit),
        s.len() > 0 && all_digits(s) && digits_value(0, s) > u64::MAX ==> parse_u64_text(s)
            == Err::<u64, ParseIdError>(ParseIdError::PosOverflow),
{
    if s.len() > 0 && all_digits(s) {
        assert(is_digit(s[0]));
        lemma_parse_all_digits(s, 0);
    }
}

/// The texts `std::num::ParseIntError` displays for the three kinds.
pub proof fn lemma_parse_error_texts()
    ensures
        parse_error_text(ParseIdError::Empty) == "cannot parse integer from empty string"@,
        parse_error_text(ParseIdError::InvalidDigit) == "invalid digit found in string"@,
        parse_error_text(ParseIdError::PosOverflow) == "number too large to fit in target type"@,
{
}

} // verus!
