use vstd::prelude::*;
use crate::text::{decimal_text, digit_char, i64_text, same_text, string_of_chars};

verus! {

/// Exponents beyond this magnitude are read as this magnitude; no finite
/// binary64 value lies that far from one.
pub const EXPONENT_CAP: u64 = 100_000_000;

/// Where the scan of a float text stands.
pub struct ScanModel {
    /// 0 start, 1 after the sign, 2 in the integer digits, 3 after a point
    /// with no digit before it, 9 after a point that follows digits, 4 in
    /// the fraction digits, 5 after the exponent mark, 6 after the exponent
    /// sign, 7 in the exponent digits, 8 not a float.
    pub phase: u8,
    pub negative: bool,
    /// The digits from the first non-zero one on.
    pub digits: Seq<u8>,
    /// How many of `digits` stand before the point.
    pub int_count: nat,
    /// The zeros between the point and the first non-zero digit.
    pub frac_zeros: nat,
    pub exp_negative: bool,
    pub exp: nat,
}

pub open spec fn is_digit(c: char) -> bool {
    '0' <= c && c <= '9'
}

pub open spec fn digit_value(c: char) -> u8 {
    (c as u32 - '0' as u32) as u8
}

pub open spec fn model(
    phase: u8,
    negative: bool,
    digits: Seq<u8>,
    int_count: nat,
    frac_zeros: nat,
    exp_negative: bool,
    exp: nat,
) -> ScanModel {
    ScanModel { phase, negative, digits, int_count, frac_zeros, exp_negative, exp }
}

pub open spec fn with_phase(m: ScanModel, p: u8) -> ScanModel {
    model(p, m.negative, m.digits, m.int_count, m.frac_zeros, m.exp_negative, m.exp)
}

pub open spec fn push_int_digit(m: ScanModel, d: u8) -> ScanModel {
    if m.digits.len() == 0 && d == 0 {
        with_phase(m, 2)
    } else {
        model(2, m.negative, m.digits.push(d), m.int_count + 1, m.frac_zeros, m.exp_negative, m.exp)
    }
}

pub open spec fn push_frac_digit(m: ScanModel, d: u8) -> ScanModel {
    if m.digits.len() == 0 && d == 0 {
        model(4, m.negative, m.digits, m.int_count, m.frac_zeros + 1, m.exp_negative, m.exp)
    } else {
        model(4, m.negative, m.digits.push(d), m.int_count, m.frac_zeros, m.exp_negative, m.exp)
    }
}

pub open spec fn clamp_exponent(e: nat) -> nat {
    if e > EXPONENT_CAP {
        EXPONENT_CAP as nat
    } else {
        e
    }
}

pub open spec fn push_exp_digit(m: ScanModel, d: u8) -> ScanModel {
    model(
        7,
        m.negative,
        m.digits,
        m.int_count,
        m.frac_zeros,
        m.exp_negative,
        clamp_exponent(m.exp * 10 + d as nat),
    )
}

/// One character of the grammar of Rust's float parser for decimals:
/// `[+-]? (d+ | d+ '.' d* | '.' d+) ([eE] [+-]? d+)?`.
pub open spec fn scan_step(m: ScanModel, c: char) -> ScanModel {
    let bad = with_phase(m, 8);
    if m.phase == 0 {
        if c == '+' {
            with_phase(m, 1)
        } else if c == '-' {
            model(1, true, m.digits, m.int_count, m.frac_zeros, m.exp_negative, m.exp)
        } else if is_digit(c) {
            push_int_digit(m, digit_value(c))
        } else if c == '.' {
            with_phase(m, 3)
        } else {
            bad
        }
    } else if m.phase == 1 {
        if is_digit(c) {
            push_int_digit(m, digit_value(c))
        } else if c == '.' {
            with_phase(m, 3)
        } else {
            bad
        }
    } else if m.phase == 2 {
        if is_digit(c) {
            push_int_digit(m, digit_value(c))
        } else if c == '.' {
            with_phase(m, 9)
        } else if c == 'e' || c == 'E' {
            with_phase(m, 5)
        } else {
            bad
        }
    } else if m.phase == 3 || m.phase == 4 || m.phase == 9 {
        if is_digit(c) {
            push_frac_digit(m, digit_value(c))
        } else if (m.phase == 4 || m.phase == 9) && (c == 'e' || c == 'E') {
            with_phase(m, 5)
        } else {
            bad
        }
    } else if m.phase == 5 {
        if c == '+' {
            with_phase(m, 6)
        } else if c == '-' {
            model(6, m.negative, m.digits, m.int_count, m.frac_zeros, true, m.exp)
        } else if is_digit(c) {
            push_exp_digit(m, digit_value(c))
        } else {
            bad
        }
    } else if m.phase == 6 || m.phase == 7 {
        if is_digit(c) {
            push_exp_digit(m, digit_value(c))
        } else {
            bad
        }
    } else {
        bad
    }
}

pub open spec fn scan(s: Seq<char>) -> ScanModel
    decreases s.len(),
{
    if s.len() == 0 {
        model(0, false, Seq::empty(), 0, 0, false, 0)
    } else {
        scan_step(scan(s.drop_last()), s.last())
    }
}

pub open spec fn strip_trailing_zeros(d: Seq<u8>) -> Seq<u8>
    decreases d.len(),
{
    if d.len() > 0 && d.last() == 0 {
        strip_trailing_zeros(d.drop_last())
    } else {
        d
    }
}

/// The exact value a float text denotes.
pub enum FloatKey {
    Zero,
    /// `0.d1 d2 ... dn * 10^point`, with `d1` and `dn` non-zero.
    Finite { negative: bool, digits: Seq<u8>, point: int },
    Infinite { negative: bool },
    NotANumber,
    /// The text is not a float.
    Unreadable,
}

/// Whether a character is the given lower-case ASCII letter in either case.
pub open spec fn letter_either_case(c: char, lower: char) -> bool {
    c == lower || c as u32 + 32 == lower as u32
}

/// Whether `s` spells the lower-case ASCII word `w` in any case.
pub open spec fn spells(s: Seq<char>, w: Seq<char>) -> bool {
    s.len() == w.len() && forall|i: int| 0 <= i < s.len() ==> letter_either_case(#[trigger] s[i], w[i])
}

/// The sign of a text and what follows it.
pub open spec fn split_sign(s: Seq<char>) -> (bool, Seq<char>) {
    if s.len() > 0 && s[0] == '-' {
        (true, s.skip(1))
    } else if s.len() > 0 && s[0] == '+' {
        (false, s.skip(1))
    } else {
        (false, s)
    }
}

/// The exact value a float text denotes. Besides decimals, `inf`,
/// `infinity` and `nan` in any case and with an optional sign are read, as
/// Rust's float parser reads them.
pub open spec fn float_key(s: Seq<char>) -> FloatKey {
    let (negative, word) = split_sign(s);
    if spells(word, seq!['n', 'a', 'n']) {
        FloatKey::NotANumber
    } else if spells(word, seq!['i', 'n', 'f']) || spells(
        word,
        seq!['i', 'n', 'f', 'i', 'n', 'i', 't', 'y'],
    ) {
        FloatKey::Infinite { negative }
    } else {
        let m = scan(s);
        if m.phase == 2 || m.phase == 4 || m.phase == 7 || m.phase == 9 {
            let d = strip_trailing_zeros(m.digits);
            if d.len() == 0 {
                FloatKey::Zero
            } else {
                FloatKey::Finite {
                    negative: m.negative,
                    digits: d,
                    point: m.int_count - m.frac_zeros + if m.exp_negative {
                        -m.exp
                    } else {
                        m.exp as int
                    },
                }
            }
        } else {
            FloatKey::Unreadable
        }
    }
}

/// The text of the binary64 value nearest to a decimal, as serde_json reads
/// the decimal and prints the value back in its shortest form: `None` where
/// serde_json cannot read it or the value is out of range.
pub uninterp spec fn binary64_text(decimal: Seq<char>) -> Option<Seq<char>>;

/// Relies on serde_json's `Number`: `FromStr` reads a JSON number into the
/// nearest binary64 value (with the `float_roundtrip` feature),
/// `as_f64` and `from_f64` carry it over as a float, and `Display` prints
/// the shortest text that reads back to the same value. Two decimals thus
/// get the same text exactly when they have the same nearest value.
#[verifier::external_body]
fn nearest_binary64_text(decimal: &str) -> (r: Option<String>)
    ensures
        match r {
            Some(t) => binary64_text(decimal@) == Some(t@),
            None => binary64_text(decimal@) is None,
        },
{
    decimal.parse::<serde_json::Number>().ok().and_then(|n| n.as_f64()).and_then(
        serde_json::Number::from_f64,
    ).map(|n| n.to_string())
}

/// A finite non-zero value as a JSON number: `0.d1d2...dn e point`.
pub open spec fn scientific_text(digits: Seq<u8>, point: int) -> Seq<char> {
    "0."@ + digits.map_values(|d: u8| digit_char(d as nat)) + "e"@ + decimal_text(point)
}

/// The binary64 value a float text reads as, up to its sign for zero.
pub enum FloatClass {
    NotANumber,
    Zero,
    Infinite { negative: bool },
    /// A finite non-zero value: its sign and the shortest text of its
    /// magnitude.
    Finite { negative: bool, text: Seq<char> },
    Unreadable,
}

/// The binary64 class of a finite non-zero decimal `0.d1...dn * 10^point`:
/// zero where it lies below the smallest subnormal, infinite where serde_json
/// cannot read the decimal (the decimal is well-formed JSON, so the value is
/// beyond the binary64 range) or the exponent does not even fit an `i64`.
pub open spec fn finite_class(negative: bool, digits: Seq<u8>, point: int) -> FloatClass {
    if point > i64::MAX {
        FloatClass::Infinite { negative }
    } else if point < i64::MIN {
        FloatClass::Zero
    } else {
        match binary64_text(scientific_text(digits, point)) {
            None => FloatClass::Infinite { negative },
            Some(t) => if t == seq!['0', '.', '0'] {
                FloatClass::Zero
            } else {
                FloatClass::Finite { negative, text: t }
            },
        }
    }
}

pub open spec fn float_class(s: Seq<char>) -> FloatClass {
    match float_key(s) {
        FloatKey::NotANumber => FloatClass::NotANumber,
        FloatKey::Unreadable => FloatClass::Unreadable,
        FloatKey::Zero => FloatClass::Zero,
        FloatKey::Infinite { negative } => FloatClass::Infinite { negative },
        FloatKey::Finite { negative, digits, point } => finite_class(negative, digits, point),
    }
}

/// Float equality, after IEEE-754 binary64 with two exceptions.
///
/// Both texts are read as Rust reads floats and compared by their nearest
/// binary64 value: zeros of either sign are equal, values beyond the range
/// are infinities of their sign, and `3.0e14` equals `300000000000000`. The
/// literal `nan` equals `nan`, while no other not-a-number equals anything.
/// Two texts that are not floats are equal when they are the same text.
pub open spec fn floats_equal(s: Seq<char>, o: Seq<char>) -> bool {
    if s == "nan"@ && o == "nan"@ {
        true
    } else {
        match (float_class(s), float_class(o)) {
            (FloatClass::NotANumber, _) => false,
            (_, FloatClass::NotANumber) => false,
            (FloatClass::Unreadable, FloatClass::Unreadable) => s == o,
            (a, b) => a == b,
        }
    }
}

struct FloatScan {
    phase: u8,
    negative: bool,
    digits: Vec<u8>,
    int_count: usize,
    frac_zeros: usize,
    exp_negative: bool,
    exp: u64,
}

impl FloatScan {
    spec fn view(&self) -> ScanModel {
        model(
            self.phase,
            self.negative,
            self.digits@,
            self.int_count as nat,
            self.frac_zeros as nat,
            self.exp_negative,
            self.exp as nat,
        )
    }

    fn step(&mut self, c: char)
        requires
            old(self).int_count < usize::MAX,
            old(self).frac_zeros < usize::MAX,
            old(self).exp <= EXPONENT_CAP,
            forall|k: int| 0 <= k < old(self).digits@.len() ==> old(self).digits@[k] < 10,
        ensures
            forall|k: int| 0 <= k < final(self).digits@.len() ==> final(self).digits@[k] < 10,
            final(self).view() == scan_step(old(self).view(), c),
            final(self).int_count <= old(self).int_count + 1,
            final(self).frac_zeros <= old(self).frac_zeros + 1,
            final(self).exp <= EXPONENT_CAP,
    {
        let digit = '0' <= c && c <= '9';
        let d: u8 = if digit {
            (c as u32 - '0' as u32) as u8
        } else {
            0
        };
        let p = self.phase;
        if p == 0 && c == '+' {
            self.phase = 1;
        } else if p == 0 && c == '-' {
            self.phase = 1;
            self.negative = true;
        } else if (p == 0 || p == 1 || p == 2) && digit {
            if !(self.digits.len() == 0 && d == 0) {
                self.digits.push(d);
                self.int_count = self.int_count + 1;
            }
            self.phase = 2;
        } else if (p == 0 || p == 1) && c == '.' {
            self.phase = 3;
        } else if p == 2 && c == '.' {
            self.phase = 9;
        } else if (p == 2 || p == 4 || p == 9) && (c == 'e' || c == 'E') {
            self.phase = 5;
        } else if (p == 3 || p == 4 || p == 9) && digit {
            if self.digits.len() == 0 && d == 0 {
                self.frac_zeros = self.frac_zeros + 1;
            } else {
                self.digits.push(d);
            }
            self.phase = 4;
        } else if p == 5 && c == '+' {
            self.phase = 6;
        } else if p == 5 && c == '-' {
            self.phase = 6;
            self.exp_negative = true;
        } else if (p == 5 || p == 6 || p == 7) && digit {
            let e = self.exp * 10 + d as u64;
            self.exp = if e > EXPONENT_CAP {
                EXPONENT_CAP
            } else {
                e
            };
            self.phase = 7;
        } else {
            self.phase = 8;
        }
    }
}

fn split_sign_exec(s: &str) -> (r: (bool, &str))
    ensures
        (r.0, r.1@) == split_sign(s@),
{
    let n = s.unicode_len();
    if n > 0 && s.get_char(0) == '-' {
        (true, s.substring_char(1, n))
    } else if n > 0 && s.get_char(0) == '+' {
        (false, s.substring_char(1, n))
    } else {
        (false, s)
    }
}

fn spells_exec(s: &str, w: &str) -> (r: bool)
    ensures
        r == spells(s@, w@),
{
    let n = s.unicode_len();
    if n != w.unicode_len() {
        return false;
    }
    let mut i: usize = 0;
    while i < n
        invariant
            n == s@.len(),
            n == w@.len(),
            i <= n,
            forall|k: int| 0 <= k < i ==> letter_either_case(#[trigger] s@[k], w@[k]),
        decreases n - i,
    {
        let c = s.get_char(i);
        let l = w.get_char(i);
        if !(c == l || (c as u32) + 32 == l as u32) {
            return false;
        }
        i = i + 1;
    }
    true
}

/// The exact value of a float text, held in executable form.
pub enum FloatValue {
    Zero,
    Finite { negative: bool, digits: Vec<u8>, point: i128 },
    Infinite { negative: bool },
    NotANumber,
    Unreadable,
}

impl FloatValue {
    pub open spec fn view(&self) -> FloatKey {
        match self {
            FloatValue::Zero => FloatKey::Zero,
            FloatValue::Finite { negative, digits, point } => FloatKey::Finite {
                negative: *negative,
                digits: digits@,
                point: *point as int,
            },
            FloatValue::Infinite { negative } => FloatKey::Infinite { negative: *negative },
            FloatValue::NotANumber => FloatKey::NotANumber,
            FloatValue::Unreadable => FloatKey::Unreadable,
        }
    }
}

/// Reads the exact value of a float text.
pub fn float_value(s: &str) -> (r: FloatValue)
    ensures
        r@ == float_key(s@),
        r matches FloatValue::Finite { digits, .. } ==> forall|k: int|
            0 <= k < digits@.len() ==> digits@[k] < 10,
{
    proof {
        reveal_strlit("nan");
        reveal_strlit("inf");
        reveal_strlit("infinity");
        assert("nan"@ =~= seq!['n', 'a', 'n']);
        assert("inf"@ =~= seq!['i', 'n', 'f']);
        assert("infinity"@ =~= seq!['i', 'n', 'f', 'i', 'n', 'i', 't', 'y']);
    }
    let (negative, word) = split_sign_exec(s);
    if spells_exec(word, "nan") {
        return FloatValue::NotANumber;
    }
    if spells_exec(word, "inf") || spells_exec(word, "infinity") {
        return FloatValue::Infinite { negative };
    }
    let n = s.unicode_len();
    let mut st = FloatScan {
        phase: 0,
        negative: false,
        digits: Vec::new(),
        int_count: 0,
        frac_zeros: 0,
        exp_negative: false,
        exp: 0,
    };
    let mut i: usize = 0;
    assert(s@.take(0) =~= Seq::<char>::empty());
    while i < n
        invariant
            n == s@.len(),
            i <= n,
            st.view() == scan(s@.take(i as int)),
            st.int_count <= i,
            st.frac_zeros <= i,
            st.exp <= EXPONENT_CAP,
            forall|k: int| 0 <= k < st.digits@.len() ==> st.digits@[k] < 10,
        decreases n - i,
    {
        let c = s.get_char(i);
        st.step(c);
        assert(s@.take(i + 1).drop_last() =~= s@.take(i as int));
        i = i + 1;
    }
    assert(s@.take(n as int) =~= s@);
    if !(st.phase == 2 || st.phase == 4 || st.phase == 7 || st.phase == 9) {
        return FloatValue::Unreadable;
    }
    let mut digits = st.digits;
    while digits.len() > 0 && digits[digits.len() - 1] == 0
        invariant
            strip_trailing_zeros(digits@) == strip_trailing_zeros(st.digits@),
            forall|k: int| 0 <= k < digits@.len() ==> digits@[k] < 10,
        decreases digits.len(),
    {
        assert(digits@.drop_last() =~= digits@.take(digits.len() - 1));
        digits.pop();
    }
    if digits.len() == 0 {
        return FloatValue::Zero;
    }
    let e: i128 = if st.exp_negative {
        -(st.exp as i128)
    } else {
        st.exp as i128
    };
    let point: i128 = st.int_count as i128 - st.frac_zeros as i128 + e;
    FloatValue::Finite { negative: st.negative, digits, point }
}

/// A finite value's class in executable form: `None` for infinite,
/// `Some(None)` for zero, `Some(Some(text))` for a finite non-zero value.
fn finite_class_exec(negative: bool, digits: &Vec<u8>, point: i128) -> (r: Option<Option<String>>)
    requires
        forall|k: int| 0 <= k < digits@.len() ==> digits@[k] < 10,
    ensures
        finite_class(negative, digits@, point as int) == match r {
            None => FloatClass::Infinite { negative },
            Some(None) => FloatClass::Zero,
            Some(Some(t)) => FloatClass::Finite { negative, text: t@ },
        },
{
    if point > i64::MAX as i128 {
        return None;
    }
    if point < i64::MIN as i128 {
        return Some(None);
    }
    let mut chars: Vec<char> = Vec::new();
    chars.push('0');
    chars.push('.');
    let mut i: usize = 0;
    while i < digits.len()
        invariant
            i <= digits.len(),
            forall|k: int| 0 <= k < digits@.len() ==> digits@[k] < 10,
            chars@ =~= seq!['0', '.'] + digits@.take(i as int).map_values(
                |d: u8| digit_char(d as nat),
            ),
        decreases digits.len() - i,
    {
        let d = digits[i];
        let c = if d == 0 {
            '0'
        } else if d == 1 {
            '1'
        } else if d == 2 {
            '2'
        } else if d == 3 {
            '3'
        } else if d == 4 {
            '4'
        } else if d == 5 {
            '5'
        } else if d == 6 {
            '6'
        } else if d == 7 {
            '7'
        } else if d == 8 {
            '8'
        } else {
            '9'
        };
        chars.push(c);
        assert(digits@.take(i + 1).map_values(|d: u8| digit_char(d as nat)) =~= digits@.take(
            i as int,
        ).map_values(|d: u8| digit_char(d as nat)).push(c));
        i = i + 1;
    }
    assert(digits@.take(digits.len() as int) =~= digits@);
    chars.push('e');
    let mut text = string_of_chars(&chars);
    text.append(i64_text(point as i64).as_str());
    proof {
        reveal_strlit("0.");
        reveal_strlit("e");
        assert(text@ =~= scientific_text(digits@, point as int));
    }
    match nearest_binary64_text(text.as_str()) {
        None => None,
        Some(t) => {
            proof {
                reveal_strlit("0.0");
                assert("0.0"@ =~= seq!['0', '.', '0']);
            }
            if same_text(t.as_str(), "0.0") {
                Some(None)
            } else {
                Some(Some(t))
            }
        },
    }
}

/// The class of a float text in executable form.
pub enum FloatReading {
    NotANumber,
    Zero,
    Infinite { negative: bool },
    Finite { negative: bool, text: String },
    Unreadable,
}

impl FloatReading {
    pub open spec fn view(&self) -> FloatClass {
        match self {
            FloatReading::NotANumber => FloatClass::NotANumber,
            FloatReading::Zero => FloatClass::Zero,
            FloatReading::Infinite { negative } => FloatClass::Infinite { negative: *negative },
            FloatReading::Finite { negative, text } => FloatClass::Finite {
                negative: *negative,
                text: text@,
            },
            FloatReading::Unreadable => FloatClass::Unreadable,
        }
    }
}

/// Reads the binary64 class of a float text.
pub fn float_reading(s: &str) -> (r: FloatReading)
    ensures
        r@ == float_class(s@),
{
    match float_value(s) {
        FloatValue::NotANumber => FloatReading::NotANumber,
        FloatValue::Unreadable => FloatReading::Unreadable,
        FloatValue::Zero => FloatReading::Zero,
        FloatValue::Infinite { negative } => FloatReading::Infinite { negative },
        FloatValue::Finite { negative, digits, point } => match finite_class_exec(negative, &digits, point) {
            None => FloatReading::Infinite { negative },
            Some(None) => FloatReading::Zero,
            Some(Some(text)) => FloatReading::Finite { negative, text },
        },
    }
}

/// Compares two float texts as [`floats_equal`] says.
pub fn float_texts_equal(s: &str, o: &str) -> (r: bool)
    ensures
        r == floats_equal(s@, o@),
{
    if same_text(s, "nan") && same_text(o, "nan") {
        return true;
    }
    match (float_reading(s), float_reading(o)) {
        (FloatReading::NotANumber, _) => false,
        (_, FloatReading::NotANumber) => false,
        (FloatReading::Unreadable, FloatReading::Unreadable) => same_text(s, o),
        (FloatReading::Zero, FloatReading::Zero) => true,
        (FloatReading::Infinite { negative: x }, FloatReading::Infinite { negative: y }) => x == y,
        (
            FloatReading::Finite { negative: x, text: tx },
            FloatReading::Finite { negative: y, text: ty },
        ) => x == y && same_text(tx.as_str(), ty.as_str()),
        _ => false,
    }
}

} // verus!
