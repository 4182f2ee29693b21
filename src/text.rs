use vstd::prelude::*;

verus! {

/// Whether two strings hold the same characters.
pub fn same_text(a: &str, b: &str) -> (r: bool)
    ensures
        r == (a@ == b@),
{
    let n = a.unicode_len();
    let m = b.unicode_len();
    if n != m {
        return false;
    }
    let mut i: usize = 0;
    while i < n
        invariant
            n == a@.len(),
            m == b@.len(),
            n == m,
            i <= n,
            forall|k: int| 0 <= k < i ==> a@[k] == b@[k],
        decreases n - i,
    {
        if a.get_char(i) != b.get_char(i) {
            return false;
        }
        i = i + 1;
    }
    assert(a@ =~= b@);
    true
}

/// Relies on std's `FromIterator<char>` for `String`: the string holds the
/// characters in order.
#[verifier::external_body]
pub(crate) fn string_of_chars(chars: &Vec<char>) -> (r: String)
    ensures
        r@ == chars@,
{
    chars.iter().collect()
}

/// The separator spellings that date-times accept, mapped to one: a space
/// or a lower-case `t` between date and time becomes `T`, and a lower-case
/// `z` offset becomes `Z`.
pub open spec fn normalize_datetime_char(c: char) -> char {
    if c == ' ' || c == 't' {
        'T'
    } else if c == 'z' {
        'Z'
    } else {
        c
    }
}

pub open spec fn normalize_datetime_spec(s: Seq<char>) -> Seq<char> {
    s.map_values(|c: char| normalize_datetime_char(c))
}

/// Rewrites the separators of a date-time text to their upper-case form.
pub fn normalize_datetime(s: &str) -> (r: String)
    ensures
        r@ == normalize_datetime_spec(s@),
{
    let n = s.unicode_len();
    let mut out: Vec<char> = Vec::new();
    let mut i: usize = 0;
    while i < n
        invariant
            n == s@.len(),
            i <= n,
            out@ =~= s@.take(i as int).map_values(|c: char| normalize_datetime_char(c)),
        decreases n - i,
    {
        let c = s.get_char(i);
        let d = if c == ' ' || c == 't' {
            'T'
        } else if c == 'z' {
            'Z'
        } else {
            c
        };
        out.push(d);
        i = i + 1;
        assert(s@.take(i as int).map_values(|c: char| normalize_datetime_char(c)) =~= s@.take(
            (i - 1) as int,
        ).map_values(|c: char| normalize_datetime_char(c)).push(d));
    }
    assert(s@.take(n as int) =~= s@);
    string_of_chars(&out)
}

pub open spec fn digit_char(d: nat) -> char {
    if d == 0 {
        '0'
    } else if d == 1 {
        '1'
    } else if d == 2 {
        '2'
    } else if d == 3 {
        '3'
    } else if d == 4 {
        '4'
    } else if d == 5 {
        '5'
    } else if d == 6 {
        '6'
    } else if d == 7 {
        '7'
    } else if d == 8 {
        '8'
    } else {
        '9'
    }
}

pub open spec fn decimal_digits(n: nat) -> Seq<char>
    decreases n,
{
    if n < 10 {
        seq![digit_char(n)]
    } else {
        decimal_digits(n / 10).push(digit_char(n % 10))
    }
}

/// The decimal spelling of an integer, with a leading `-` when negative.
pub open spec fn decimal_text(n: int) -> Seq<char> {
    if n < 0 {
        seq!['-'] + decimal_digits((-n) as nat)
    } else {
        decimal_digits(n as nat)
    }
}

fn digit_exec(d: u64) -> (r: char)
    requires
        d < 10,
    ensures
        r == digit_char(d as nat),
{
    if d == 0 {
        '0'
    } else if d == 1 {
        '1'
    } else if d == 2 {
        '2'
    } else if d == 3 {
        '3'
    } else if d == 4 {
        '4'
    } else if d == 5 {
        '5'
    } else if d == 6 {
        '6'
    } else if d == 7 {
        '7'
    } else if d == 8 {
        '8'
    } else {
        '9'
    }
}

/// The decimal spelling of an integer.
pub fn i64_text(n: i64) -> (r: String)
    ensures
        r@ == decimal_text(n as int),
{
    let magnitude: u64 = if n < 0 {
        (0i128 - n as i128) as u64
    } else {
        n as u64
    };
    let mut m: u64 = magnitude;
    let mut out: Vec<char> = Vec::new();
    while m >= 10
        invariant
            decimal_digits(magnitude as nat) == decimal_digits(m as nat) + out@,
        decreases m,
    {
        let d = digit_exec(m % 10);
        assert(decimal_digits(m as nat) == decimal_digits((m / 10) as nat).push(d));
        out.insert(0, d);
        assert(decimal_digits(magnitude as nat) =~= decimal_digits((m / 10) as nat) + out@);
        m = m / 10;
    }
    let d = digit_exec(m);
    out.insert(0, d);
    assert(decimal_digits(magnitude as nat) =~= out@);
    if n < 0 {
        out.insert(0, '-');
        assert(out@ =~= seq!['-'] + decimal_digits((-(n as int)) as nat));
    }
    string_of_chars(&out)
}

/// Whether `s` starts with `p`.
pub fn has_prefix(s: &str, p: &str) -> (r: bool)
    ensures
        r == (p@.len() <= s@.len() && s@.take(p@.len() as int) == p@),
{
    let n = s.unicode_len();
    let m = p.unicode_len();
    if m > n {
        return false;
    }
    let mut i: usize = 0;
    while i < m
        invariant
            n == s@.len(),
            m == p@.len(),
            m <= n,
            i <= m,
            forall|k: int| 0 <= k < i ==> s@[k] == p@[k],
        decreases m - i,
    {
        if s.get_char(i) != p.get_char(i) {
            assert(s@.take(m as int)[i as int] != p@[i as int]);
            return false;
        }
        i = i + 1;
    }
    assert(s@.take(m as int) =~= p@);
    true
}

/// Whether `s` ends with `p`.
pub fn has_suffix(s: &str, p: &str) -> (r: bool)
    ensures
        r == (p@.len() <= s@.len() && s@.skip(s@.len() - p@.len()) == p@),
{
    let n = s.unicode_len();
    let m = p.unicode_len();
    if m > n {
        return false;
    }
    let start = n - m;
    let mut i: usize = 0;
    while i < m
        invariant
            n == s@.len(),
            m == p@.len(),
            m <= n,
            start == n - m,
            i <= m,
            forall|k: int| 0 <= k < i ==> s@[start + k] == p@[k],
        decreases m - i,
    {
        if s.get_char(start + i) != p.get_char(i) {
            assert(s@.skip(start as int)[i as int] != p@[i as int]);
            return false;
        }
        i = i + 1;
    }
    assert(s@.skip(start as int) =~= p@);
    true
}

/// Whether `s` holds the character `c`.
pub fn has_char(s: &str, c: char) -> (r: bool)
    ensures
        r == s@.contains(c),
{
    let n = s.unicode_len();
    let mut i: usize = 0;
    while i < n
        invariant
            n == s@.len(),
            i <= n,
            forall|k: int| 0 <= k < i ==> s@[k] != c,
        decreases n - i,
    {
        if s.get_char(i) == c {
            return true;
        }
        i = i + 1;
    }
    false
}

/// Relies on std's `String::from_utf8`: it fails exactly on bytes that are
/// not UTF-8, and otherwise holds the characters they encode.
#[verifier::external_body]
pub(crate) fn utf8_text(bytes: Vec<u8>) -> (r: Option<String>)
    ensures
        r is Some <==> vstd::utf8::valid_utf8(bytes@),
        r is Some ==> r->0@ == vstd::utf8::decode_utf8(bytes@),
{
    String::from_utf8(bytes).ok()
}

/// The lines of a text as std's `str::lines` splits it, with the state of
/// a scan from the left: the lines ended so far and the line under way.
pub open spec fn line_scan(s: Seq<char>) -> (Seq<Seq<char>>, Seq<char>)
    decreases s.len(),
{
    if s.len() == 0 {
        (Seq::empty(), Seq::empty())
    } else {
        let (done, cur) = line_scan(s.drop_last());
        if s.last() == '\n' {
            (done.push(drop_carriage_return(cur)), Seq::empty())
        } else {
            (done, cur.push(s.last()))
        }
    }
}

pub open spec fn drop_carriage_return(line: Seq<char>) -> Seq<char> {
    if line.len() > 0 && line.last() == '\r' {
        line.drop_last()
    } else {
        line
    }
}

/// The lines of a text: split at `\n` or `\r\n`, with no line after a
/// final line ending.
pub open spec fn text_lines_spec(s: Seq<char>) -> Seq<Seq<char>> {
    let (done, cur) = line_scan(s);
    if cur.len() > 0 {
        done.push(cur)
    } else {
        done
    }
}

/// Relies on std's `str::lines`: the text split at `\n` or `\r\n`, with
/// no line after a final line ending.
#[verifier::external_body]
pub(crate) fn text_lines(s: &str) -> (r: Vec<String>)
    ensures
        r@.map_values(|l: String| l@) == text_lines_spec(s@),
{
    s.lines().map(|l| l.to_owned()).collect()
}

} // verus!
