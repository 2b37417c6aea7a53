//! Character-level text utilities with exact specifications.
use vstd::prelude::*;

verus! {

/// Appends one character to a `String` (`String::push`).
#[verifier::external_body]
pub(crate) fn push_char(s: &mut String, c: char)
    ensures
        final(s)@ == old(s)@.push(c),
{
    s.push(c);
}

/// The characters of a string slice, in order.
pub fn chars_of(s: &str) -> (r: Vec<char>)
    ensures
        r@ == s@,
{
    let mut r: Vec<char> = Vec::new();
    for c in it: s.chars()
        invariant
            r@ == it.seq().take(it.index()),
            it.seq() == s@,
    {
        r.push(c);
    }
    r
}

/// A `String` holding exactly the given characters.
pub fn string_of(v: &Vec<char>) -> (r: String)
    ensures
        r@ == v@,
{
    let mut r = String::new();
    let mut i: usize = 0;
    while i < v.len()
        invariant
            i <= v.len(),
            r@ == v@.take(i as int),
        decreases v.len() - i,
    {
        push_char(&mut r, v[i]);
        proof {
            assert(v@.take(i + 1) =~= v@.take(i as int).push(v@[i as int]));
        }
        i = i + 1;
    }
    proof {
        assert(v@.take(v.len() as int) =~= v@);
    }
    r
}

/// The concatenation of two texts.
pub fn concat(a: &str, b: &str) -> (r: String)
    ensures
        r@ == a@ + b@,
{
    let mut r = a.to_owned();
    r.append(b);
    r
}

/// Appends a text to a `String`.
pub fn append_str(s: &mut String, b: &str)
    ensures
        final(s)@ == old(s)@ + b@,
{
    s.append(b);
}

/// Whether two texts are equal.
pub fn text_eq(a: &str, b: &str) -> (r: bool)
    ensures
        r == (a@ == b@),
{
    let x = a.to_owned();
    let y = b.to_owned();
    x == y
}

/// The characters `v[a..b]`.
pub fn sub_chars(v: &Vec<char>, a: usize, b: usize) -> (r: Vec<char>)
    requires
        a <= b <= v.len(),
    ensures
        r@ == v@.subrange(a as int, b as int),
{
    let mut r: Vec<char> = Vec::new();
    let mut i = a;
    while i < b
        invariant
            a <= i <= b <= v.len(),
            r@ == v@.subrange(a as int, i as int),
        decreases b - i,
    {
        r.push(v[i]);
        proof {
            assert(v@.subrange(a as int, i + 1) =~= v@.subrange(a as int, i as int).push(
                v@[i as int],
            ));
        }
        i = i + 1;
    }
    r
}

/// Unicode `White_Space` (the characters `char::is_whitespace` accepts).
pub open spec fn is_space(c: char) -> bool {
    let u = c as u32;
    ||| 0x9 <= u <= 0xd
    ||| u == 0x20
    ||| u == 0x85
    ||| u == 0xa0
    ||| u == 0x1680
    ||| 0x2000 <= u <= 0x200a
    ||| u == 0x2028
    ||| u == 0x2029
    ||| u == 0x202f
    ||| u == 0x205f
    ||| u == 0x3000
}

/// Whether `c` is a Unicode white-space character.
pub fn char_is_space(c: char) -> (r: bool)
    ensures
        r == is_space(c),
{
    let u = c as u32;
    (0x9 <= u && u <= 0xd) || u == 0x20 || u == 0x85 || u == 0xa0 || u == 0x1680 || (0x2000 <= u
        && u <= 0x200a) || u == 0x2028 || u == 0x2029 || u == 0x202f || u == 0x205f || u == 0x3000
}

/// `s` without its leading white space.
pub open spec fn trim_start(s: Seq<char>) -> Seq<char>
    decreases s.len(),
{
    if s.len() > 0 && is_space(s[0]) {
        trim_start(s.drop_first())
    } else {
        s
    }
}

/// `s` without its trailing white space.
pub open spec fn trim_end(s: Seq<char>) -> Seq<char>
    decreases s.len(),
{
    if s.len() > 0 && is_space(s.last()) {
        trim_end(s.drop_last())
    } else {
        s
    }
}

/// `s` without leading and trailing white space (`str::trim`).
pub open spec fn trim(s: Seq<char>) -> Seq<char> {
    trim_end(trim_start(s))
}

proof fn lemma_trim_start_step(s: Seq<char>, i: int)
    requires
        0 <= i < s.len(),
        is_space(s[i]),
    ensures
        trim_start(s.subrange(i, s.len() as int)) == trim_start(s.subrange(i + 1, s.len() as int)),
{
    assert(s.subrange(i, s.len() as int).drop_first() =~= s.subrange(i + 1, s.len() as int));
}

proof fn lemma_trim_end_step(s: Seq<char>, j: int)
    requires
        0 < j <= s.len(),
        is_space(s[j - 1]),
    ensures
        trim_end(s.subrange(0, j)) == trim_end(s.subrange(0, j - 1)),
{
    assert(s.subrange(0, j).drop_last() =~= s.subrange(0, j - 1));
}

/// Removes leading and trailing white space.
pub fn trim_chars(v: &Vec<char>) -> (r: Vec<char>)
    ensures
        r@ == trim(v@),
{
    let n = v.len();
    let mut i: usize = 0;
    proof {
        assert(v@.subrange(0, n as int) =~= v@);
    }
    while i < n && char_is_space(v[i])
        invariant
            i <= n == v.len(),
            trim_start(v@) == trim_start(v@.subrange(i as int, n as int)),
        decreases n - i,
    {
        proof {
            lemma_trim_start_step(v@, i as int);
        }
        i = i + 1;
    }
    let ghost t = v@.subrange(i as int, n as int);
    assert(trim_start(v@) == t);
    let mut j: usize = n;
    proof {
        assert(t.subrange(0, (j - i) as int) =~= t);
    }
    while j > i && char_is_space(v[j - 1])
        invariant
            i <= j <= n == v.len(),
            t == v@.subrange(i as int, n as int),
            trim_end(t) == trim_end(t.subrange(0, (j - i) as int)),
        decreases j,
    {
        proof {
            lemma_trim_end_step(t, (j - i) as int);
            assert(t.subrange(0, (j - i) as int - 1) =~= t.subrange(0, (j - 1 - i) as int));
        }
        j = j - 1;
    }
    let r = sub_chars(v, i, j);
    proof {
        assert(r@ =~= t.subrange(0, (j - i) as int));
    }
    r
}

/// `str::trim` on a string slice, as characters.
pub fn trimmed_chars(s: &str) -> (r: Vec<char>)
    ensures
        r@ == trim(s@),
{
    let v = chars_of(s);
    trim_chars(&v)
}

/// ASCII upper-case letters become lower case; every other character stays.
pub open spec fn ascii_lower_char(c: char) -> char {
    if 'A' <= c <= 'Z' {
        ((c as u32) + 32) as char
    } else {
        c
    }
}

/// `str::to_ascii_lowercase` on characters.
pub open spec fn ascii_lower(s: Seq<char>) -> Seq<char> {
    Seq::new(s.len(), |i: int| ascii_lower_char(s[i]))
}

/// Lower-cases the ASCII letters of `v`.
pub fn ascii_lower_chars(v: &Vec<char>) -> (r: Vec<char>)
    ensures
        r@ == ascii_lower(v@),
{
    let mut r: Vec<char> = Vec::new();
    let mut i: usize = 0;
    while i < v.len()
        invariant
            i <= v.len(),
            r@ =~= ascii_lower(v@).take(i as int),
        decreases v.len() - i,
    {
        let c = v[i];
        let d = if 'A' <= c && c <= 'Z' {
            let b: u8 = (c as u8) + 32;
            b as char
        } else {
            c
        };
        r.push(d);
        i = i + 1;
    }
    r
}


/// Why a text is not an unsigned decimal number (`core::num::IntErrorKind`).
#[derive(Debug, Clone, Copy, PartialEq, Eq, Structural)]
pub enum IntParseError {
    Empty,
    InvalidDigit,
    PosOverflow,
}

impl IntParseError {
    /// The text `ParseIntError` displays for this kind.
    pub fn message(self) -> (r: &'static str)
        ensures
            r@ == int_error_text(self),
    {
        match self {
            IntParseError::Empty => "cannot parse integer from empty string",
            IntParseError::InvalidDigit => "invalid digit found in string",
            IntParseError::PosOverflow => "number too large to fit in target type",
        }
    }
}

pub open spec fn int_error_text(e: IntParseError) -> Seq<char> {
    match e {
        IntParseError::Empty => "cannot parse integer from empty string"@,
        IntParseError::InvalidDigit => "invalid digit found in string"@,
        IntParseError::PosOverflow => "number too large to fit in target type"@,
    }
}

pub open spec fn is_digit(c: char) -> bool {
    '0' <= c <= '9'
}

pub open spec fn digit_value(c: char) -> nat {
    ((c as u32) - ('0' as u32)) as nat
}

/// Reads decimal digits left to right; the first character that is no digit, or the
/// first digit that takes the value above `max`, decides the error.
pub open spec fn parse_digits(d: Seq<char>, max: nat) -> Result<nat, IntParseError>
    decreases d.len(),
{
    if d.len() == 0 {
        Ok(0)
    } else {
        match parse_digits(d.drop_last(), max) {
            Err(e) => Err(e),
            Ok(acc) => if !is_digit(d.last()) {
                Err(IntParseError::InvalidDigit)
            } else if acc * 10 + digit_value(d.last()) > max {
                Err(IntParseError::PosOverflow)
            } else {
                Ok(acc * 10 + digit_value(d.last()))
            },
        }
    }
}

/// `FromStr` of an unsigned integer type whose largest value is `max`.
pub open spec fn parse_unsigned(s: Seq<char>, max: nat) -> Result<nat, IntParseError> {
    if s.len() == 0 {
        Err(IntParseError::Empty)
    } else if (s[0] == '+' || s[0] == '-') && s.len() == 1 {
        Err(IntParseError::InvalidDigit)
    } else if s[0] == '+' {
        parse_digits(s.drop_first(), max)
    } else {
        parse_digits(s, max)
    }
}

proof fn lemma_parse_digits_bound(d: Seq<char>, max: nat)
    ensures
        parse_digits(d, max) matches Ok(v) ==> v <= max,
    decreases d.len(),
{
    if d.len() > 0 {
        lemma_parse_digits_bound(d.drop_last(), max);
    }
}

proof fn lemma_parse_digits_err_sticks(d: Seq<char>, k: int, max: nat)
    requires
        0 <= k <= d.len(),
        parse_digits(d.take(k), max) is Err,
    ensures
        parse_digits(d, max) == parse_digits(d.take(k), max),
    decreases d.len() - k,
{
    if k < d.len() {
        assert(d.take(k + 1).drop_last() =~= d.take(k));
        lemma_parse_digits_err_sticks(d, k + 1, max);
    } else {
        assert(d.take(k) =~= d);
    }
}

/// Parses the digits `v[start..]` with the rules of `parse_digits`.
fn parse_digits_exec(v: &Vec<char>, start: usize, max: u64) -> (r: Result<u64, IntParseError>)
    requires
        start <= v.len(),
    ensures
        match parse_digits(v@.subrange(start as int, v.len() as int), max as nat) {
            Ok(n) => r == Ok::<u64, IntParseError>(n as u64),
            Err(e) => r == Err::<u64, IntParseError>(e),
        },
{
    let ghost d = v@.subrange(start as int, v.len() as int);
    let mut acc: u64 = 0;
    let mut i = start;
    proof {
        assert(d.take(0) =~= Seq::<char>::empty());
    }
    while i < v.len()
        invariant
            start <= i <= v.len(),
            d == v@.subrange(start as int, v.len() as int),
            parse_digits(d.take((i - start) as int), max as nat) == Ok::<nat, IntParseError>(
                acc as nat,
            ),
        decreases v.len() - i,
    {
        let c = v[i];
        let k = (i - start) as usize;
        proof {
            assert(d.take(k + 1).drop_last() =~= d.take(k as int));
            assert(d.take(k + 1).last() == c);
        }
        if !('0' <= c && c <= '9') {
            proof {
                lemma_parse_digits_err_sticks(d, k + 1, max as nat);
            }
            return Err(IntParseError::InvalidDigit);
        }
        let dv: u64 = (c as u32 - '0' as u32) as u64;
        let next: u128 = (acc as u128) * 10 + (dv as u128);
        if next > max as u128 {
            proof {
                lemma_parse_digits_err_sticks(d, k + 1, max as nat);
            }
            return Err(IntParseError::PosOverflow);
        }
        acc = next as u64;
        i = i + 1;
    }
    proof {
        assert(d.take((i - start) as int) =~= d);
    }
    Ok(acc)
}

/// Parses an unsigned decimal number no larger than `max` (`u64::from_str` and its
/// narrower siblings).
pub fn parse_unsigned_chars(v: &Vec<char>, max: u64) -> (r: Result<u64, IntParseError>)
    ensures
        match parse_unsigned(v@, max as nat) {
            Ok(n) => r == Ok::<u64, IntParseError>(n as u64),
            Err(e) => r == Err::<u64, IntParseError>(e),
        },
        r matches Ok(n) ==> n <= max,
{
    proof {
        lemma_parse_digits_bound(v@, max as nat);
        if v@.len() > 0 {
            lemma_parse_digits_bound(v@.drop_first(), max as nat);
        }
    }
    if v.len() == 0 {
        return Err(IntParseError::Empty);
    }
    if (v[0] == '+' || v[0] == '-') && v.len() == 1 {
        return Err(IntParseError::InvalidDigit);
    }
    if v[0] == '+' {
        proof {
            assert(v@.subrange(1, v.len() as int) =~= v@.drop_first());
        }
        parse_digits_exec(v, 1, max)
    } else {
        proof {
            assert(v@.subrange(0, v.len() as int) =~= v@);
        }
        parse_digits_exec(v, 0, max)
    }
}

/// The decimal digit character of `n < 10`.
pub open spec fn digit_char(n: nat) -> char {
    ((n + 48) as u32) as char
}

/// The decimal representation of `n`, without sign or leading zeros.
pub open spec fn decimal(n: nat) -> Seq<char>
    decreases n,
{
    if n < 10 {
        seq![digit_char(n)]
    } else {
        decimal(n / 10).push(digit_char(n % 10))
    }
}

/// Appends the decimal representation of `n` (`u64::to_string`).
pub fn push_decimal(s: &mut String, n: u64)
    ensures
        final(s)@ == old(s)@ + decimal(n as nat),
    decreases n,
{
    if n >= 10 {
        push_decimal(s, n / 10);
    }
    let b: u8 = (n % 10) as u8 + 48;
    push_char(s, b as char);
    proof {
        assert(decimal(n as nat) == if n < 10 { seq![digit_char(n as nat)] } else {
            decimal((n / 10) as nat).push(digit_char((n % 10) as nat))
        });
    }
}

/// The decimal representation of `n`.
pub fn decimal_string(n: u64) -> (r: String)
    ensures
        r@ == decimal(n as nat),
{
    let mut s = String::new();
    push_decimal(&mut s, n);
    s
}


proof fn lemma_decimal_digits(n: nat, max: nat)
    requires
        n <= max,
    ensures
        decimal(n).len() > 0,
        is_digit(decimal(n)[0]),
        parse_digits(decimal(n), max) == Ok::<nat, IntParseError>(n),
    decreases n,
{
    if n < 10 {
        let d = decimal(n);
        assert(d.drop_last() =~= Seq::<char>::empty());
        assert(digit_value(digit_char(n)) == n);
        assert(is_digit(digit_char(n)));
        assert(d.last() == digit_char(n));
        assert(parse_digits(d.drop_last(), max) == Ok::<nat, IntParseError>(0));
    } else {
        lemma_decimal_digits(n / 10, max);
        let d = decimal(n);
        assert(d.drop_last() =~= decimal(n / 10));
        assert(digit_value(digit_char(n % 10)) == n % 10);
        assert(d[0] == decimal(n / 10)[0]);
        assert(is_digit(digit_char(n % 10)));
        assert(d.last() == digit_char(n % 10));
        assert((n / 10) * 10 + n % 10 == n);
    }
}

/// Reading back the decimal representation of a number gives the number, for every
/// integer type wide enough to hold it.
pub proof fn law_decimal_round_trip(n: nat, max: nat)
    requires
        n <= max,
    ensures
        parse_unsigned(decimal(n), max) == Ok::<nat, IntParseError>(n),
{
    lemma_decimal_digits(n, max);
}

/// Splits at every comma; `n` commas give `n + 1` pieces (`str::split(',')`).
pub open spec fn split_commas(s: Seq<char>) -> Seq<Seq<char>>
    decreases s.len(),
{
    if s.len() == 0 {
        seq![Seq::<char>::empty()]
    } else {
        let rest = split_commas(s.drop_last());
        if s.last() == ',' {
            rest.push(Seq::<char>::empty())
        } else {
            rest.update(rest.len() - 1, rest.last().push(s.last()))
        }
    }
}

proof fn lemma_split_commas_nonempty(s: Seq<char>)
    ensures
        split_commas(s).len() > 0,
    decreases s.len(),
{
    if s.len() > 0 {
        lemma_split_commas_nonempty(s.drop_last());
    }
}

/// The trimmed pieces that are not empty, in order.
pub open spec fn nonempty_trimmed(pieces: Seq<Seq<char>>) -> Seq<Seq<char>>
    decreases pieces.len(),
{
    if pieces.len() == 0 {
        Seq::empty()
    } else {
        let kept = nonempty_trimmed(pieces.drop_last());
        let t = trim(pieces.last());
        if t.len() > 0 {
            kept.push(t)
        } else {
            kept
        }
    }
}

/// The comma-separated items of a text: split at commas, trimmed, empty ones dropped.
pub open spec fn csv_items(s: Seq<char>) -> Seq<Seq<char>> {
    nonempty_trimmed(split_commas(s))
}

/// The view of a list of strings as a sequence of texts.
pub open spec fn texts(v: Seq<String>) -> Seq<Seq<char>> {
    Seq::new(v.len(), |i: int| v[i]@)
}

/// Splits at commas, keeping empty pieces.
fn split_commas_exec(v: &Vec<char>) -> (r: Vec<Vec<char>>)
    ensures
        r@.len() == split_commas(v@).len(),
        forall|k: int| 0 <= k < r@.len() ==> #[trigger] r@[k]@ == split_commas(v@)[k],
{
    let mut done: Vec<Vec<char>> = Vec::new();
    let mut cur: Vec<char> = Vec::new();
    let mut i: usize = 0;
    while i < v.len()
        invariant
            i <= v.len(),
            done@.len() + 1 == split_commas(v@.take(i as int)).len(),
            forall|k: int|
                0 <= k < done@.len() ==> #[trigger] done@[k]@ == split_commas(v@.take(i as int))[k],
            cur@ == split_commas(v@.take(i as int)).last(),
        decreases v.len() - i,
    {
        proof {
            assert(v@.take(i + 1).drop_last() =~= v@.take(i as int));
            lemma_split_commas_nonempty(v@.take(i as int));
        }
        if v[i] == ',' {
            done.push(cur);
            cur = Vec::new();
        } else {
            cur.push(v[i]);
        }
        i = i + 1;
    }
    proof {
        assert(v@.take(v.len() as int) =~= v@);
    }
    let ghost pre = done@;
    done.push(cur);
    proof {
        assert forall|k: int| 0 <= k < done@.len() implies #[trigger] done@[k]@ == split_commas(
            v@,
        )[k] by {
            if k < pre.len() {
                assert(done@[k] == pre[k]);
            }
        }
    }
    done
}

/// The comma-separated items of an optional text (absent reads as empty).
pub fn parse_csv(value: Option<String>) -> (r: Vec<String>)
    ensures
        texts(r@) == csv_items(
            match value {
                Some(s) => s@,
                None => Seq::<char>::empty(),
            },
        ),
{
    let ghost src = match &value {
        Some(s) => s@,
        None => Seq::<char>::empty(),
    };
    let chars = match &value {
        Some(s) => chars_of(s.as_str()),
        None => Vec::new(),
    };
    assert(chars@ == src);
    let pieces = split_commas_exec(&chars);
    let ghost ps = split_commas(src);
    let mut r: Vec<String> = Vec::new();
    let mut i: usize = 0;
    while i < pieces.len()
        invariant
            i <= pieces@.len() == ps.len(),
            forall|k: int| 0 <= k < pieces@.len() ==> #[trigger] pieces@[k]@ == ps[k],
            texts(r@) == nonempty_trimmed(ps.take(i as int)),
        decreases pieces.len() - i,
    {
        proof {
            assert(ps.take(i + 1).drop_last() =~= ps.take(i as int));
            assert(ps.take(i + 1).last() == pieces@[i as int]@);
        }
        let t = trim_chars(&pieces[i]);
        if t.len() > 0 {
            let ghost before = r@;
            r.push(string_of(&t));
            proof {
                assert(texts(r@) =~= texts(before).push(t@));
            }
        }
        i = i + 1;
    }
    proof {
        assert(ps.take(pieces.len() as int) =~= ps);
    }
    r
}

/// Appends the pieces in order.
pub fn join_all(pieces: &Vec<&str>) -> (r: String)
    ensures
        r@ == joined(pieces@),
{
    let mut r = String::new();
    let mut i: usize = 0;
    while i < pieces.len()
        invariant
            i <= pieces@.len(),
            r@ == joined(pieces@.take(i as int)),
        decreases pieces.len() - i,
    {
        proof {
            assert(pieces@.take(i + 1).drop_last() =~= pieces@.take(i as int));
        }
        append_str(&mut r, pieces[i]);
        i = i + 1;
    }
    proof {
        assert(pieces@.take(pieces@.len() as int) =~= pieces@);
    }
    r
}

/// The concatenation of the pieces.
pub open spec fn joined(pieces: Seq<&str>) -> Seq<char>
    decreases pieces.len(),
{
    if pieces.len() == 0 {
        Seq::empty()
    } else {
        joined(pieces.drop_last()) + pieces.last()@
    }
}

/// Splits at every `sep`; `n` separators give `n + 1` pieces (`str::split`).
pub open spec fn split_on(s: Seq<char>, sep: char) -> Seq<Seq<char>>
    decreases s.len(),
{
    if s.len() == 0 {
        seq![Seq::<char>::empty()]
    } else {
        let rest = split_on(s.drop_last(), sep);
        if s.last() == sep {
            rest.push(Seq::<char>::empty())
        } else {
            rest.update(rest.len() - 1, rest.last().push(s.last()))
        }
    }
}

pub proof fn lemma_split_on_nonempty(s: Seq<char>, sep: char)
    ensures
        split_on(s, sep).len() > 0,
    decreases s.len(),
{
    if s.len() > 0 {
        lemma_split_on_nonempty(s.drop_last(), sep);
    }
}

/// Splits `s` at every `sep`, keeping empty pieces.
pub fn split_text(s: &str, sep: char) -> (r: Vec<String>)
    ensures
        texts(r@) == split_on(s@, sep),
{
    let v = chars_of(s);
    let mut done: Vec<String> = Vec::new();
    let mut cur: Vec<char> = Vec::new();
    let mut i: usize = 0;
    while i < v.len()
        invariant
            i <= v.len(),
            v@ == s@,
            done@.len() + 1 == split_on(v@.take(i as int), sep).len(),
            forall|k: int|
                0 <= k < done@.len() ==> #[trigger] done@[k]@ == split_on(v@.take(i as int), sep)[k],
            cur@ == split_on(v@.take(i as int), sep).last(),
        decreases v.len() - i,
    {
        proof {
            assert(v@.take(i + 1).drop_last() =~= v@.take(i as int));
            lemma_split_on_nonempty(v@.take(i as int), sep);
        }
        if v[i] == sep {
            let ghost before = done@;
            done.push(string_of(&cur));
            proof {
                assert forall|k: int| 0 <= k < done@.len() implies #[trigger] done@[k]@ == split_on(
                    v@.take(i + 1),
                    sep,
                )[k] by {
                    if k < before.len() {
                        assert(done@[k] == before[k]);
                    }
                }
            }
            cur = Vec::new();
        } else {
            cur.push(v[i]);
        }
        i = i + 1;
    }
    proof {
        assert(v@.take(v.len() as int) =~= v@);
        lemma_split_on_nonempty(v@, sep);
    }
    let ghost pre = done@;
    done.push(string_of(&cur));
    proof {
        assert forall|k: int| 0 <= k < done@.len() implies #[trigger] done@[k]@ == split_on(
            s@,
            sep,
        )[k] by {
            if k < pre.len() {
                assert(done@[k] == pre[k]);
            }
        }
        assert(texts(done@) =~= split_on(s@, sep));
    }
    done
}

/// Whether `s` starts with `p`.
pub open spec fn has_prefix(s: Seq<char>, p: Seq<char>) -> bool {
    p.len() <= s.len() && s.take(p.len() as int) == p
}

/// Whether `p` occurs in `s`.
pub open spec fn contains_text(s: Seq<char>, p: Seq<char>) -> bool {
    exists|i: int| 0 <= i && i + p.len() <= s.len() && #[trigger] s.subrange(i, i + p.len()) == p
}

/// Whether `p` occurs in `s` (`str::contains`).
pub fn text_contains(s: &str, p: &str) -> (r: bool)
    ensures
        r == contains_text(s@, p@),
{
    let v = chars_of(s);
    let q = chars_of(p);
    if q.len() > v.len() {
        return false;
    }
    let last = v.len() - q.len();
    let mut i: usize = 0;
    loop
        invariant
            v@ == s@,
            q@ == p@,
            last == v@.len() - q@.len(),
            i <= last,
            forall|k: int| 0 <= k < i ==> #[trigger] s@.subrange(k, k + p@.len()) != p@,
        decreases last + 1 - i,
    {
        if matches_at(&v, i, &q) {
            return true;
        }
        if i == last {
            proof {
                assert forall|k: int| 0 <= k && k + p@.len() <= s@.len() implies #[trigger] s@.subrange(k, k + p@.len()) != p@ by {
                    assert(k <= i);
                }
            }
            return false;
        }
        i = i + 1;
    }
}

/// Whether `s` ends with `p`.
pub open spec fn has_suffix(s: Seq<char>, p: Seq<char>) -> bool {
    p.len() <= s.len() && s.skip(s.len() - p.len()) == p
}

/// `s` with every leading repetition of `p` removed (`str::trim_start_matches`).
pub open spec fn strip_leading(s: Seq<char>, p: Seq<char>) -> Seq<char>
    decreases s.len(),
{
    if p.len() > 0 && has_prefix(s, p) {
        strip_leading(s.skip(p.len() as int), p)
    } else {
        s
    }
}

/// `s` with every trailing repetition of `p` removed (`str::trim_end_matches`).
pub open spec fn strip_trailing(s: Seq<char>, p: Seq<char>) -> Seq<char>
    decreases s.len(),
{
    if p.len() > 0 && has_suffix(s, p) {
        strip_trailing(s.take(s.len() - p.len()), p)
    } else {
        s
    }
}

/// Whether the characters `v[start..start + p.len()]` are `p`.
fn matches_at(v: &Vec<char>, start: usize, p: &Vec<char>) -> (r: bool)
    requires
        start + p@.len() <= v@.len(),
    ensures
        r == (v@.subrange(start as int, start + p@.len()) == p@),
{
    let vlen = v.len();
    let mut j: usize = 0;
    while j < p.len()
        invariant
            vlen == v@.len(),
            start + p@.len() <= v@.len(),
            j <= p@.len(),
            forall|m: int| 0 <= m < j ==> v@[start + m] == p@[m],
        decreases p.len() - j,
    {
        if v[start + j] != p[j] {
            proof {
                assert(v@.subrange(start as int, start + p@.len())[j as int] != p@[j as int]);
            }
            return false;
        }
        j = j + 1;
    }
    proof {
        assert(v@.subrange(start as int, start + p@.len()) =~= p@);
    }
    true
}

/// Whether `s` starts with `p`.
pub fn starts_with(s: &str, p: &str) -> (r: bool)
    ensures
        r == has_prefix(s@, p@),
{
    let v = chars_of(s);
    let q = chars_of(p);
    if q.len() > v.len() {
        return false;
    }
    let r = matches_at(&v, 0, &q);
    proof {
        assert(v@.take(q@.len() as int) =~= v@.subrange(0, q@.len() as int));
    }
    r
}

/// Whether `s` ends with `p`.
pub fn ends_with(s: &str, p: &str) -> (r: bool)
    ensures
        r == has_suffix(s@, p@),
{
    let v = chars_of(s);
    let q = chars_of(p);
    if q.len() > v.len() {
        return false;
    }
    let r = matches_at(&v, v.len() - q.len(), &q);
    proof {
        assert(v@.skip(v@.len() - q@.len()) =~= v@.subrange(v@.len() - q@.len(), v@.len() as int));
    }
    r
}

/// `s` with every leading repetition of `p` removed.
pub fn trim_start_matches(s: &str, p: &str) -> (r: String)
    ensures
        r@ == strip_leading(s@, p@),
{
    let v = chars_of(s);
    let q = chars_of(p);
    if q.len() == 0 {
        return s.to_owned();
    }
    if q.len() > v.len() {
        return s.to_owned();
    }
    let last = v.len() - q.len();
    let mut start: usize = 0;
    proof {
        assert(v@.skip(0) =~= v@);
    }
    while start <= last && matches_at(&v, start, &q)
        invariant
            last + q@.len() == v@.len(),
            v@ == s@,
            q@ == p@,
            q@.len() > 0,
            start <= v@.len(),
            strip_leading(v@.skip(start as int), q@) == strip_leading(s@, p@),
        decreases v.len() - start,
    {
        proof {
            assert(v@.skip(start as int).take(q@.len() as int) =~= v@.subrange(start as int, start + q@.len()));
            assert(v@.skip(start as int).skip(q@.len() as int) =~= v@.skip(start + q@.len()));
        }
        start = start + q.len();
    }
    proof {
        if start + q@.len() <= v@.len() {
            assert(v@.skip(start as int).take(q@.len() as int) =~= v@.subrange(start as int, start + q@.len()));
        }
    }
    let rest = sub_chars(&v, start, v.len());
    proof {
        assert(rest@ =~= v@.skip(start as int));
    }
    string_of(&rest)
}

/// `s` with every trailing repetition of `p` removed.
pub fn trim_end_matches(s: &str, p: &str) -> (r: String)
    ensures
        r@ == strip_trailing(s@, p@),
{
    let v = chars_of(s);
    let q = chars_of(p);
    if q.len() == 0 {
        return s.to_owned();
    }
    let mut end: usize = v.len();
    proof {
        assert(v@.take(v@.len() as int) =~= v@);
    }
    while q.len() <= end && matches_at(&v, end - q.len(), &q)
        invariant
            v@ == s@,
            q@ == p@,
            q@.len() > 0,
            end <= v@.len(),
            strip_trailing(v@.take(end as int), q@) == strip_trailing(s@, p@),
        decreases end,
    {
        proof {
            assert(v@.take(end as int).skip(end - q@.len()) =~= v@.subrange(end - q@.len(), end as int));
            assert(v@.take(end as int).take(end - q@.len()) =~= v@.take(end - q@.len()));
        }
        end = end - q.len();
    }
    proof {
        if q@.len() <= end {
            assert(v@.take(end as int).skip(end - q@.len()) =~= v@.subrange(end - q@.len(), end as int));
        }
        assert(v@.take(v@.len() as int) =~= v@);
    }
    let rest = sub_chars(&v, 0, end);
    proof {
        assert(rest@ =~= v@.take(end as int));
    }
    string_of(&rest)
}

/// `s` in lower case, the way `str::to_lowercase` maps it.
pub uninterp spec fn lowercase(s: Seq<char>) -> Seq<char>;

/// `str::to_lowercase`; its result is named by `lowercase`.
#[verifier::external_body]
pub(crate) fn to_lowercase(s: &str) -> (r: String)
    ensures
        r@ == lowercase(s@),
{
    s.to_lowercase()
}

/// A text without the separator is one piece.
pub proof fn lemma_split_on_without_sep(x: Seq<char>, sep: char)
    requires
        !x.contains(sep),
    ensures
        split_on(x, sep) == seq![x],
    decreases x.len(),
{
    if x.len() == 0 {
        assert(x =~= Seq::<char>::empty());
        assert(split_on(x, sep) =~= seq![x]);
    } else {
        let p = x.drop_last();
        assert(!p.contains(sep)) by {
            if p.contains(sep) {
                let k = choose|k: int| 0 <= k < p.len() && p[k] == sep;
                assert(x[k] == sep);
            }
        }
        lemma_split_on_without_sep(p, sep);
        assert(x.last() != sep) by {
            assert(x[x.len() - 1] == x.last());
        }
        assert(p.push(x.last()) =~= x);
        let rest = split_on(p, sep);
        assert(rest.update(rest.len() - 1, rest.last().push(x.last())) =~= seq![x]);
        assert(split_on(x, sep) =~= seq![x]);
    }
}

/// Splitting at a separator between two texts splits each of them.
pub proof fn lemma_split_on_concat(a: Seq<char>, b: Seq<char>, sep: char)
    ensures
        split_on(a + seq![sep] + b, sep) == split_on(a, sep) + split_on(b, sep),
    decreases b.len(),
{
    let s = a + seq![sep] + b;
    if b.len() == 0 {
        assert(s.drop_last() =~= a);
        assert(split_on(s, sep) =~= split_on(a, sep) + split_on(b, sep));
    } else {
        lemma_split_on_concat(a, b.drop_last(), sep);
        assert(s.drop_last() =~= a + seq![sep] + b.drop_last());
        assert(s.last() == b.last());
        lemma_split_on_nonempty(b.drop_last(), sep);
        lemma_split_on_nonempty(a, sep);
        assert(split_on(s, sep) =~= split_on(a, sep) + split_on(b, sep));
    }
}

} // verus!
