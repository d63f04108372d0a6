use vstd::prelude::*;

verus! {

/// The characters with Unicode's White_Space property.
pub open spec fn is_white_space(c: char) -> bool {
    let u = c as u32;
    ||| 0x09 <= u <= 0x0D
    ||| u == 0x20
    ||| u == 0x85
    ||| u == 0xA0
    ||| u == 0x1680
    ||| 0x2000 <= u <= 0x200A
    ||| u == 0x2028
    ||| u == 0x2029
    ||| u == 0x202F
    ||| u == 0x205F
    ||| u == 0x3000
}

/// `s` without its leading white space.
pub open spec fn trim_start(s: Seq<char>) -> Seq<char>
    decreases s.len(),
{
    if s.len() > 0 && is_white_space(s[0]) {
        trim_start(s.drop_first())
    } else {
        s
    }
}

/// `s` without its trailing white space.
pub open spec fn trim_end(s: Seq<char>) -> Seq<char>
    decreases s.len(),
{
    if s.len() > 0 && is_white_space(s.last()) {
        trim_end(s.drop_last())
    } else {
        s
    }
}

/// `s` without leading and trailing white space.
pub open spec fn trimmed(s: Seq<char>) -> Seq<char> {
    trim_end(trim_start(s))
}

/// An ASCII decimal digit.
pub open spec fn is_digit(c: char) -> bool {
    '0' <= c <= '9'
}

/// The number that a non-empty run of decimal digits stands for.
pub open spec fn digits_value(s: Seq<char>) -> nat
    decreases s.len(),
{
    if s.len() == 0 {
        0
    } else {
        digits_value(s.drop_last()) * 10 + (s.last() as nat - '0' as nat) as nat
    }
}

/// The digits of an unsigned decimal numeral: what follows an optional `+`.
pub open spec fn numeral_digits(s: Seq<char>) -> Seq<char> {
    if s.len() > 0 && s[0] == '+' {
        s.drop_first()
    } else {
        s
    }
}

/// The value of `s` read as an unsigned decimal numeral (an optional `+`,
/// then one or more digits), if it is one.
pub open spec fn numeral_value(s: Seq<char>) -> Option<nat> {
    let d = numeral_digits(s);
    if d.len() > 0 && forall|i: int| 0 <= i < d.len() ==> is_digit(#[trigger] d[i]) {
        Some(digits_value(d))
    } else {
        None
    }
}

/// Tells whether `t` is an unsigned decimal numeral (an optional `+`, then
/// one or more digits), however large its value.
pub fn is_numeral(t: &str) -> (r: bool)
    ensures
        r == (numeral_value(t@) is Some),
{
    if !t.is_ascii() {
        proof {
            if numeral_value(t@) is Some {
                let d = numeral_digits(t@);
                let off: int = if t@.len() > 0 && t@[0] == '+' { 1 } else { 0 };
                assert forall|i: int| 0 <= i < t@.len() implies '\0' <= #[trigger] t@[i] <= '\u{7f}' by {
                    if i >= off {
                        assert(t@[i] == d[i - off]);
                        assert(is_digit(d[i - off]));
                    }
                }
            }
        }
        return false;
    }
    let bytes = t.as_bytes();
    proof {
        vstd::string::is_ascii_spec_bytes(t);
    }
    let n = bytes.len();
    assert(n == t@.len());
    let mut start: usize = 0;
    if n > 0 && bytes[0] == 43u8 {
        start = 1;
    }
    let ghost d = numeral_digits(t@);
    assert(start == 1 ==> t@[0] == '+');
    assert(start == 0 ==> !(t@.len() > 0 && t@[0] == '+'));
    assert(d =~= t@.subrange(start as int, t@.len() as int));
    if start >= n {
        return false;
    }
    let mut i: usize = start;
    while i < n
        invariant
            start <= i <= n,
            n == t@.len(),
            bytes@ == Seq::new(t@.len(), |j: int| t@[j] as u8),
            vstd::string::is_ascii(t),
            d =~= t@.subrange(start as int, t@.len() as int),
            d == numeral_digits(t@),
            forall|j: int| start <= j < i ==> is_digit(#[trigger] t@[j]),
        decreases n - i,
    {
        let b = bytes[i];
        assert(b == t@[i as int] as u8);
        if b < 48u8 || b > 57u8 {
            assert(!is_digit(d[i - start]));
            return false;
        }
        assert(is_digit(t@[i as int]));
        i += 1;
    }
    assert forall|j: int| 0 <= j < d.len() implies is_digit(#[trigger] d[j]) by {
        assert(d[j] == t@[j + start]);
    }
    true
}

/// Relies on str::trim: removes leading and trailing characters with the
/// White_Space property.
#[verifier::external_body]
pub(crate) fn trim(s: &str) -> (r: &str)
    ensures
        r@ == trimmed(s@),
{
    s.trim()
}

/// Relies on `str::parse::<usize>` (usize's FromStr): accepts an optional `+`
/// followed by one or more decimal digits whose value fits in a usize.
#[verifier::external_body]
pub(crate) fn parse_usize(s: &str) -> (r: Option<usize>)
    ensures
        r == (match numeral_value(s@) {
            Some(v) => if v <= usize::MAX {
                Some(v as usize)
            } else {
                None::<usize>
            },
            None => None,
        }),
{
    s.parse::<usize>().ok()
}

} // verus!
