//! Text handling shared by the configuration and the job menu: reading the
//! characters of a string, trimming Unicode white space, parsing unsigned
//! decimal numbers the way `str::parse` does, and rendering them back.
use vstd::prelude::*;

verus! {

// ---------------------------------------------------------------------------
// Specifications
// ---------------------------------------------------------------------------

/// The characters with the Unicode `White_Space` property, which is what
/// `char::is_whitespace` and `str::trim` go by.
pub open spec fn is_white_space(c: char) -> bool {
    let u = c as u32;
    ||| 0x9 <= u <= 0xd
    ||| u == 0x20
    ||| u == 0x85
    ||| u == 0xa0
    ||| u == 0x1680
    ||| 0x2000 <= u <= 0x200a
    ||| u == 0x2028
    ||| u == 0x2029
    ||| u == 0x202f
    ||| u == 0x205f
    ||| u == 0x3000
}

/// `s` without its leading white space.
pub open spec fn trim_start(s: Seq<char>) -> Seq<char>
    decreases s.len(),
{
    if s.len() > 0 && is_white_space(s[0]) {
        trim_start(s.drop_first())
    } else {
        s
    }
}

/// `s` without its trailing white space.
pub open spec fn trim_end(s: Seq<char>) -> Seq<char>
    decreases s.len(),
{
    if s.len() > 0 && is_white_space(s.last()) {
        trim_end(s.drop_last())
    } else {
        s
    }
}

/// `s` without leading and trailing white space (`str::trim`).
pub open spec fn trim(s: Seq<char>) -> Seq<char> {
    trim_end(trim_start(s))
}

/// An ASCII decimal digit, `'0'` to `'9'`.
pub open spec fn is_digit(c: char) -> bool {
    48 <= (c as u32) <= 57
}

/// The value of a decimal digit character.
pub open spec fn digit_value(c: char) -> nat {
    ((c as u32) - 48) as nat
}

/// Every character of `s` is a decimal digit.
pub open spec fn all_digits(s: Seq<char>) -> bool {
    forall|i: int| 0 <= i < s.len() ==> #[trigger] is_digit(s[i])
}

/// The number that the decimal digits `s` denote (most significant first).
pub open spec fn digits_value(s: Seq<char>) -> nat
    decreases s.len(),
{
    if s.len() == 0 {
        0
    } else {
        digits_value(s.drop_last()) * 10 + digit_value(s.last())
    }
}

/// The digits of an unsigned number: `s` without one leading `'+'`.
pub open spec fn unsigned_digits(s: Seq<char>) -> Seq<char> {
    if s.len() > 0 && s[0] == '+' {
        s.drop_first()
    } else {
        s
    }
}

/// The value of `s` read as an unsigned decimal number, with no bound:
/// an optional `'+'`, then one or more ASCII digits, nothing else.
pub open spec fn unsigned_value(s: Seq<char>) -> Option<nat> {
    let d = unsigned_digits(s);
    if d.len() > 0 && all_digits(d) {
        Some(digits_value(d))
    } else {
        None
    }
}

/// What `str::parse` gives for an unsigned integer type whose largest value
/// is `max`: the value when `s` is a number no larger than `max`, else `None`.
pub open spec fn parse_bounded(s: Seq<char>, max: nat) -> Option<nat> {
    match unsigned_value(s) {
        Some(v) => if v <= max {
            Some(v)
        } else {
            None
        },
        None => None,
    }
}

/// `s.parse::<u16>().ok()`.
pub open spec fn spec_parse_u16(s: Seq<char>) -> Option<u16> {
    match parse_bounded(s, u16::MAX as nat) {
        Some(v) => Some(v as u16),
        None => None,
    }
}

/// `s.parse::<usize>().ok()`.
pub open spec fn spec_parse_usize(s: Seq<char>) -> Option<usize> {
    match parse_bounded(s, usize::MAX as nat) {
        Some(v) => Some(v as usize),
        None => None,
    }
}

/// The character of a decimal digit.
pub open spec fn digit_char(d: nat) -> char {
    seq!['0', '1', '2', '3', '4', '5', '6', '7', '8', '9'][d as int]
}

/// The decimal rendering of `n`, as `format!("{}", n)` writes it.
pub open spec fn decimal(n: nat) -> Seq<char>
    decreases n,
{
    if n < 10 {
        seq![digit_char(n)]
    } else {
        decimal(n / 10).push(digit_char(n % 10))
    }
}

/// `s` is `"true"` in any mix of upper and lower case. For a string `s`
/// this is exactly `s.to_lowercase() == "true"`: no character other than
/// these ASCII letters lowercases to one of `t`, `r`, `u`, `e`.
pub open spec fn is_true_word(s: Seq<char>) -> bool {
    &&& s.len() == 4
    &&& (s[0] == 't' || s[0] == 'T')
    &&& (s[1] == 'r' || s[1] == 'R')
    &&& (s[2] == 'u' || s[2] == 'U')
    &&& (s[3] == 'e' || s[3] == 'E')
}

// ---------------------------------------------------------------------------
// Lemmas
// ---------------------------------------------------------------------------

/// Trimming leaves a sequence alone whose ends are not white space.
pub proof fn lemma_trim_no_white_ends(s: Seq<char>)
    requires
        s.len() > 0,
        !is_white_space(s[0]),
        !is_white_space(s.last()),
    ensures
        trim(s) == s,
{
}

/// Leading white space does not change `trim_start`.
pub proof fn lemma_trim_start_skips(a: Seq<char>, x: Seq<char>)
    requires
        forall|i: int| 0 <= i < a.len() ==> #[trigger] is_white_space(a[i]),
    ensures
        trim_start(a + x) == trim_start(x),
    decreases a.len(),
{
    if a.len() > 0 {
        assert((a + x).drop_first() =~= a.drop_first() + x);
        lemma_trim_start_skips(a.drop_first(), x);
    } else {
        assert(a + x =~= x);
    }
}

/// Trailing white space does not change `trim_end`.
pub proof fn lemma_trim_end_skips(x: Seq<char>, b: Seq<char>)
    requires
        forall|i: int| 0 <= i < b.len() ==> #[trigger] is_white_space(b[i]),
    ensures
        trim_end(x + b) == trim_end(x),
    decreases b.len(),
{
    if b.len() > 0 {
        assert((x + b).drop_last() =~= x + b.drop_last());
        lemma_trim_end_skips(x, b.drop_last());
    } else {
        assert(x + b =~= x);
    }
}

/// `trim_start` of an all-white sequence is empty.
pub proof fn lemma_trim_start_all_white(s: Seq<char>)
    requires
        forall|i: int| 0 <= i < s.len() ==> #[trigger] is_white_space(s[i]),
    ensures
        trim_start(s) =~= Seq::<char>::empty(),
    decreases s.len(),
{
    if s.len() > 0 {
        lemma_trim_start_all_white(s.drop_first());
    }
}

/// `trim_start` of `x + b` is `trim_start(x) + b` when `x` is not all white.
pub proof fn lemma_trim_start_append(x: Seq<char>, b: Seq<char>)
    requires
        exists|i: int| 0 <= i < x.len() && !is_white_space(#[trigger] x[i]),
    ensures
        trim_start(x + b) == trim_start(x) + b,
    decreases x.len(),
{
    if is_white_space(x[0]) {
        let w = choose|i: int| 0 <= i < x.len() && !is_white_space(#[trigger] x[i]);
        assert(w > 0);
        assert(x.drop_first()[w - 1] == x[w]);
        assert((x + b).drop_first() =~= x.drop_first() + b);
        lemma_trim_start_append(x.drop_first(), b);
    }
}

/// White space around a string never changes what trimming gives.
pub proof fn lemma_trim_ignores_surrounding_white(a: Seq<char>, x: Seq<char>, b: Seq<char>)
    requires
        forall|i: int| 0 <= i < a.len() ==> #[trigger] is_white_space(a[i]),
        forall|i: int| 0 <= i < b.len() ==> #[trigger] is_white_space(b[i]),
    ensures
        trim(a + x + b) == trim(x),
{
    assert(a + x + b =~= a + (x + b));
    lemma_trim_start_skips(a, x + b);
    if exists|i: int| 0 <= i < x.len() && !is_white_space(#[trigger] x[i]) {
        lemma_trim_start_append(x, b);
        lemma_trim_end_skips(trim_start(x), b);
    } else {
        assert forall|i: int| 0 <= i < (x + b).len() implies #[trigger] is_white_space(
            (x + b)[i],
        ) by {
            if i < x.len() {
                assert((x + b)[i] == x[i]);
            } else {
                assert((x + b)[i] == b[i - x.len()]);
            }
        }
        lemma_trim_start_all_white(x + b);
        lemma_trim_start_all_white(x);
    }
}

/// Rendering `n` in decimal and reading it back gives `n`.
pub proof fn lemma_decimal_reads_back(n: nat)
    ensures
        decimal(n).len() > 0,
        all_digits(decimal(n)),
        digits_value(decimal(n)) == n,
        decimal(n)[0] != '+',
        !is_white_space(decimal(n)[0]),
        !is_white_space(decimal(n).last()),
        unsigned_value(decimal(n)) == Some(n),
        trim(decimal(n)) == decimal(n),
    decreases n,
{
    let digits = seq!['0', '1', '2', '3', '4', '5', '6', '7', '8', '9'];
    assert(forall|k: int| 0 <= k < 10 ==> is_digit(#[trigger] digits[k]) && digit_value(digits[k])
        == k && !is_white_space(digits[k]) && digits[k] != '+');
    let d = decimal(n);
    if n >= 10 {
        lemma_decimal_reads_back(n / 10);
        assert(d.drop_last() =~= decimal(n / 10));
        assert(d[0] == decimal(n / 10)[0]);
        assert(d.last() == digits[(n % 10) as int]);
        assert(digit_value(d.last()) == n % 10);
        assert(digits_value(d) == digits_value(decimal(n / 10)) * 10 + digit_value(d.last()));
        assert(n == (n / 10) * 10 + n % 10);
        assert forall|i: int| 0 <= i < d.len() implies #[trigger] is_digit(d[i]) by {
            if i < d.len() - 1 {
                assert(d[i] == decimal(n / 10)[i]);
            }
        }
    } else {
        assert(d[0] == digits[n as int]);
        assert(d.last() == digits[n as int]);
        assert(digit_value(d.last()) == n);
        assert(d.drop_last() =~= Seq::<char>::empty());
        assert(digits_value(d.drop_last()) == 0);
        assert(digits_value(d) == digits_value(d.drop_last()) * 10 + digit_value(d.last()));
    }
    lemma_trim_no_white_ends(decimal(n));
}

// ---------------------------------------------------------------------------
// Executable functions
// ---------------------------------------------------------------------------

/// Appends `c` to `s` (`String::push`).
#[verifier::external_body]
fn push_char(s: &mut String, c: char)
    ensures
        final(s)@ == old(s)@.push(c),
{
    s.push(c)
}

/// The characters of `s`, in order.
pub fn chars_of(s: &str) -> (res: Vec<char>)
    ensures
        res@ == s@,
{
    let mut res: Vec<char> = Vec::new();
    for c in it: s.chars()
        invariant
            res@ == it.seq().take(it.index() as int),
    {
        res.push(c);
    }
    res
}

/// Whether `c` is white space (`char::is_whitespace`).
pub fn is_white_space_char(c: char) -> (res: bool)
    ensures
        res == is_white_space(c),
{
    let u = c as u32;
    (0x9 <= u && u <= 0xd) || u == 0x20 || u == 0x85 || u == 0xa0 || u == 0x1680 || (0x2000
        <= u && u <= 0x200a) || u == 0x2028 || u == 0x2029 || u == 0x202f || u == 0x205f || u
        == 0x3000
}

/// `s` without leading and trailing white space (`str::trim`).
pub fn trim_chars(s: &Vec<char>) -> (res: Vec<char>)
    ensures
        res@ == trim(s@),
{
    let len = s.len();
    let mut start: usize = 0;
    assert(s@.subrange(0, len as int) =~= s@);
    while start < len && is_white_space_char(s[start])
        invariant
            start <= len,
            len == s@.len(),
            trim_start(s@.subrange(start as int, len as int)) == trim_start(s@),
        decreases len - start,
    {
        assert(s@.subrange(start as int, len as int).drop_first() =~= s@.subrange(
            start + 1,
            len as int,
        ));
        start = start + 1;
    }
    assert(trim_start(s@) == s@.subrange(start as int, len as int));
    let mut end: usize = len;
    while end > start && is_white_space_char(s[end - 1])
        invariant
            start <= end <= len,
            len == s@.len(),
            trim_end(s@.subrange(start as int, end as int)) == trim(s@),
        decreases end,
    {
        assert(s@.subrange(start as int, end as int).drop_last() =~= s@.subrange(
            start as int,
            end - 1,
        ));
        end = end - 1;
    }
    assert(trim(s@) == s@.subrange(start as int, end as int));
    let mut res: Vec<char> = Vec::new();
    let mut i: usize = start;
    while i < end
        invariant
            start <= i <= end <= len,
            len == s@.len(),
            res@ == s@.subrange(start as int, i as int),
        decreases end - i,
    {
        res.push(s[i]);
        i = i + 1;
        assert(res@ =~= s@.subrange(start as int, i as int));
    }
    res
}

/// Reads `s` as an unsigned decimal number no larger than `max`, the way
/// `str::parse` does for an unsigned integer type with that largest value.
pub fn parse_unsigned(s: &Vec<char>, max: u64) -> (res: Option<u64>)
    ensures
        match parse_bounded(s@, max as nat) {
            Some(v) => res == Some(v as u64),
            None => res is None,
        },
{
    let len = s.len();
    let first: usize = if len > 0 && s[0] == '+' {
        1
    } else {
        0
    };
    let ghost d = unsigned_digits(s@);
    assert(d =~= s@.subrange(first as int, len as int));
    if first == len {
        return None;
    }
    let mut acc: u64 = 0;
    let mut overflow = false;
    let mut i: usize = first;
    while i < len
        invariant
            first <= i <= len,
            first < len,
            len == s@.len(),
            d == s@.subrange(first as int, len as int),
            d == unsigned_digits(s@),
            all_digits(s@.subrange(first as int, i as int)),
            overflow ==> digits_value(s@.subrange(first as int, i as int)) > max,
            !overflow ==> acc == digits_value(s@.subrange(first as int, i as int)) && acc <= max,
        decreases len - i,
    {
        let c = s[i];
        if !(48 <= (c as u32) && (c as u32) <= 57) {
            assert(d[i - first] == c);
            assert(!is_digit(d[i - first]));
            return None;
        }
        let ghost prev = s@.subrange(first as int, i as int);
        let ghost next = s@.subrange(first as int, i + 1);
        assert(next.drop_last() =~= prev);
        assert(next.last() == c);
        let dv: u64 = ((c as u32) - 48) as u64;
        if !overflow {
            let wide: u128 = (acc as u128) * 10 + (dv as u128);
            if wide > max as u128 {
                overflow = true;
            } else {
                acc = wide as u64;
            }
        }
        i = i + 1;
        assert forall|k: int| 0 <= k < next.len() implies #[trigger] is_digit(next[k]) by {
            if k < prev.len() {
                assert(next[k] == prev[k]);
            }
        }
    }
    assert(s@.subrange(first as int, len as int) == d);
    if overflow {
        None
    } else {
        Some(acc)
    }
}

/// `s.parse::<u16>().ok()`.
pub fn parse_u16(s: &str) -> (res: Option<u16>)
    ensures
        res == spec_parse_u16(s@),
{
    let cs = chars_of(s);
    match parse_unsigned(&cs, 65535) {
        Some(v) => Some(v as u16),
        None => None,
    }
}

/// `s.parse::<usize>().ok()`.
pub fn parse_usize(s: &str) -> (res: Option<usize>)
    ensures
        res == spec_parse_usize(s@),
{
    let cs = chars_of(s);
    match parse_unsigned(&cs, usize::MAX as u64) {
        Some(v) => Some(v as usize),
        None => None,
    }
}

/// `s.trim().parse::<usize>().ok()`.
pub fn parse_trimmed_usize(s: &str) -> (res: Option<usize>)
    ensures
        res == spec_parse_usize(trim(s@)),
{
    let cs = chars_of(s);
    let t = trim_chars(&cs);
    match parse_unsigned(&t, usize::MAX as u64) {
        Some(v) => Some(v as usize),
        None => None,
    }
}

/// Whether `s.to_lowercase() == "true"`.
pub fn is_true_word_str(s: &str) -> (res: bool)
    ensures
        res == is_true_word(s@),
{
    let cs = chars_of(s);
    cs.len() == 4 && (cs[0] == 't' || cs[0] == 'T') && (cs[1] == 'r' || cs[1] == 'R') && (cs[2]
        == 'u' || cs[2] == 'U') && (cs[3] == 'e' || cs[3] == 'E')
}

/// The character of the decimal digit `d`.
fn digit_to_char(d: u64) -> (c: char)
    requires
        d < 10,
    ensures
        c == digit_char(d as nat),
{
    let digits: [char; 10] = ['0', '1', '2', '3', '4', '5', '6', '7', '8', '9'];
    let c = digits[d as usize];
    assert(digits@ =~= seq!['0', '1', '2', '3', '4', '5', '6', '7', '8', '9']);
    c
}

/// Appends the decimal rendering of `n` to `s`.
pub fn push_decimal(s: &mut String, n: u64)
    ensures
        final(s)@ == old(s)@ + decimal(n as nat),
    decreases n,
{
    if n >= 10 {
        push_decimal(s, n / 10);
    }
    let c = digit_to_char(n % 10);
    push_char(s, c);
    if n >= 10 {
        assert(final(s)@ =~= old(s)@ + decimal(n as nat));
    } else {
        assert(final(s)@ =~= old(s)@ + decimal(n as nat));
    }
}

} // verus!
