use vstd::prelude::*;

verus! {

broadcast use vstd::string::axiom_spec_iter;

/// Whether `c` has the Unicode `White_Space` property, the set that
/// `char::is_whitespace` and `str::trim` go by.
pub open spec fn is_whitespace(c: char) -> bool {
    let u = c as u32;
    ||| 0x09 <= u <= 0x0D
    ||| u == 0x20
    ||| u == 0x85
    ||| u == 0xA0
    ||| u == 0x1680
    ||| 0x2000 <= u <= 0x200A
    ||| u == 0x2028
    ||| u == 0x2029
    ||| u == 0x202F
    ||| u == 0x205F
    ||| u == 0x3000
}

/// `s` without its leading whitespace.
pub open spec fn trim_start(s: Seq<char>) -> Seq<char>
    decreases s.len(),
{
    if s.len() > 0 && is_whitespace(s[0]) {
        trim_start(s.drop_first())
    } else {
        s
    }
}

/// `s` without its trailing whitespace.
pub open spec fn trim_end(s: Seq<char>) -> Seq<char>
    decreases s.len(),
{
    if s.len() > 0 && is_whitespace(s.last()) {
        trim_end(s.drop_last())
    } else {
        s
    }
}

/// `s` without leading and trailing whitespace, as `str::trim` gives it.
pub open spec fn spec_trim(s: Seq<char>) -> Seq<char> {
    trim_end(trim_start(s))
}

/// Whether `c` is one of the ASCII digits `0` to `9`.
pub open spec fn is_digit(c: char) -> bool {
    '0' <= c <= '9'
}

/// Whether every character of `s` is an ASCII digit.
pub open spec fn all_digits(s: Seq<char>) -> bool {
    forall|j: int| 0 <= j < s.len() ==> is_digit(#[trigger] s[j])
}

/// The value of the decimal digit `c`.
pub open spec fn digit_value(c: char) -> nat {
    (c as u32 - '0' as u32) as nat
}

/// The value of the decimal numeral `s`, most significant digit first.
pub open spec fn decimal_value(s: Seq<char>) -> nat
    decreases s.len(),
{
    if s.len() == 0 {
        0
    } else {
        decimal_value(s.drop_last()) * 10 + digit_value(s.last())
    }
}

/// `s` without one leading `+`, the one sign that an unsigned number may carry.
pub open spec fn unsigned_digits(s: Seq<char>) -> Seq<char> {
    if s.len() > 0 && s[0] == '+' {
        s.drop_first()
    } else {
        s
    }
}

/// What `s.parse::<u32>()` gives, success or not: an optional `+` followed by
/// one or more ASCII digits whose value fits in a `u32`.
pub open spec fn spec_parse_u32(s: Seq<char>) -> Option<u32> {
    let d = unsigned_digits(s);
    if d.len() > 0 && all_digits(d) && decimal_value(d) <= u32::MAX {
        Some(decimal_value(d) as u32)
    } else {
        None
    }
}

/// What the reading loop takes from the text of a sysfs attribute:
/// `text.trim().parse::<u32>()`, success or not.
pub open spec fn spec_parse_reading(text: Seq<char>) -> Option<u32> {
    spec_parse_u32(spec_trim(text))
}

fn chars_of(text: &str) -> (v: Vec<char>)
    ensures
        v@ == text@,
{
    let mut v: Vec<char> = Vec::new();
    for c in it: text.chars()
        invariant
            it.seq() == text@,
            v@ == it.seq().take(it.index()),
    {
        v.push(c);
    }
    v
}

/// Whether `c` is whitespace, as [`is_whitespace`] says.
pub fn char_is_whitespace(c: char) -> (b: bool)
    ensures
        b == is_whitespace(c),
{
    let u = c as u32;
    (0x09 <= u && u <= 0x0D) || u == 0x20 || u == 0x85 || u == 0xA0 || u == 0x1680 || (0x2000 <= u
        && u <= 0x200A) || u == 0x2028 || u == 0x2029 || u == 0x202F || u == 0x205F || u == 0x3000
}

/// Reads the value of a sysfs attribute: the text trimmed of surrounding
/// whitespace, as a decimal `u32` with an optional leading `+`; `None` when the
/// trimmed text is no such number or the number does not fit.
pub fn parse_reading(text: &str) -> (r: Option<u32>)
    ensures
        r == spec_parse_reading(text@),
{
    let chars = chars_of(text);
    let n = chars.len();
    let ghost s = chars@;

    // Leading whitespace.
    let mut lo: usize = 0;
    assert(s.subrange(0, n as int) =~= s);
    while lo < n && char_is_whitespace(chars[lo])
        invariant
            s == chars@,
            n == s.len(),
            lo <= n,
            trim_start(s) == trim_start(s.subrange(lo as int, n as int)),
        decreases n - lo,
    {
        assert(s.subrange(lo as int, n as int).drop_first() =~= s.subrange(lo + 1, n as int));
        lo = lo + 1;
    }
    assert(s.subrange(0, n as int) =~= s);
    assert(trim_start(s) == s.subrange(lo as int, n as int));

    // Trailing whitespace.
    let mut hi: usize = n;
    while hi > lo && char_is_whitespace(chars[hi - 1])
        invariant
            s == chars@,
            n == s.len(),
            lo <= hi <= n,
            trim_start(s) == s.subrange(lo as int, n as int),
            spec_trim(s) == trim_end(s.subrange(lo as int, hi as int)),
        decreases hi - lo,
    {
        assert(s.subrange(lo as int, hi as int).drop_last() =~= s.subrange(lo as int, hi - 1));
        hi = hi - 1;
    }
    let ghost t = s.subrange(lo as int, hi as int);
    assert(spec_trim(s) == t);

    // Optional sign.
    let mut start = lo;
    if start < hi && chars[start] == '+' {
        start = start + 1;
    }
    let ghost d = s.subrange(start as int, hi as int);
    assert(unsigned_digits(t) =~= d);
    if start == hi {
        assert(d.len() == 0);
        assert(spec_parse_u32(t) is None);
        return None;
    }
    // Digits: the value is accumulated until it passes u32::MAX; the scan goes
    // on to the end so that every character is checked.

    let mut value: u64 = 0;
    let mut overflow = false;
    let mut i = start;
    while i < hi
        invariant
            s == chars@,
            n == s.len(),
            start <= i <= hi <= n,
            d == s.subrange(start as int, hi as int),
            s == text@,
            unsigned_digits(spec_trim(s)) == d,
            all_digits(s.subrange(start as int, i as int)),
            !overflow ==> value == decimal_value(s.subrange(start as int, i as int)),
            !overflow ==> value <= u32::MAX,
            overflow ==> decimal_value(s.subrange(start as int, i as int)) > u32::MAX,
        decreases hi - i,
    {
        let c = chars[i];
        if !('0' <= c && c <= '9') {
            assert(!is_digit(d[i - start]));
            return None;
        }
        let ghost prefix = s.subrange(start as int, i + 1);
        assert(prefix.drop_last() =~= s.subrange(start as int, i as int));
        assert(prefix.last() == c);
        let digit = (c as u32 - '0' as u32) as u64;
        if !overflow {
            value = value * 10 + digit;
            if value > 0xFFFF_FFFF {
                overflow = true;
            }
        }
        i = i + 1;
        assert(all_digits(s.subrange(start as int, i as int)));
    }
    assert(s.subrange(start as int, hi as int) =~= d);
    if overflow {
        None
    } else {
        Some(value as u32)
    }
}

/// The ASCII digit for `d`, which is below ten.
pub open spec fn digit_char(d: nat) -> char {
    ((d + 48) as u32) as char
}

/// The decimal numeral of `n` without leading zeros, as a driver writes it.
pub open spec fn decimal_text(n: nat) -> Seq<char>
    decreases n,
{
    if n < 10 {
        seq![digit_char(n)]
    } else {
        decimal_text(n / 10).push(digit_char(n % 10))
    }
}

proof fn lemma_decimal_text(n: nat)
    ensures
        decimal_text(n).len() > 0,
        all_digits(decimal_text(n)),
        decimal_value(decimal_text(n)) == n,
        decimal_text(n)[0] != '+',
        !is_whitespace(decimal_text(n)[0]),
        !is_whitespace(decimal_text(n).last()),
    decreases n,
{
    let t = decimal_text(n);
    let c = digit_char(n % 10);
    assert(((n % 10 + 48) as u32) as char as u32 == n % 10 + 48);
    if n < 10 {
        assert(t.drop_last() =~= Seq::<char>::empty());
        assert(decimal_value(Seq::<char>::empty()) == 0);
    } else {
        lemma_decimal_text(n / 10);
        let p = decimal_text(n / 10);
        assert(t.drop_last() =~= p);
        assert(t[0] == p[0]);
        assert forall|j: int| 0 <= j < t.len() implies is_digit(#[trigger] t[j]) by {
            if j < p.len() {
                assert(t[j] == p[j]);
            }
        }
        assert(n == (n / 10) * 10 + n % 10);
    }
}

/// Law: the text a driver writes for a reading `n`, a decimal numeral ended by
/// a newline, reads back as `n`; so does the bare numeral.
pub proof fn lemma_reading_roundtrip(n: u32)
    ensures
        spec_parse_reading(decimal_text(n as nat).push('\n')) == Some(n),
        spec_parse_reading(decimal_text(n as nat)) == Some(n),
{
    let t = decimal_text(n as nat);
    lemma_decimal_text(n as nat);
    let tn = t.push('\n');
    assert(trim_start(t) == t);
    assert(trim_start(tn) == tn);
    assert(tn.drop_last() =~= t);
    assert(trim_end(t) == t);
    assert(trim_end(tn) == t);
    assert(unsigned_digits(t) == t);
}

/// What one pass of the reading loop found.
#[derive(PartialEq, Eq, Structural, Debug, Clone, Copy)]
pub enum SampleOutcome {
    /// The collected text held this value; `count` numbers the pass.
    Reading { value: u32, count: i32 },
    /// The collected text held no value; it is kept, and the next read is
    /// added to it. `count` numbers the pass.
    Unreadable { count: i32 },
}

/// Abstract state of a [`SampleReader`].
pub struct SampleReaderState {
    /// The text read and not yet taken as a value.
    pub pending: Seq<char>,
    /// The number of passes made.
    pub count: i32,
}

/// The reading loop over a sysfs attribute: each pass adds what was read to
/// the text collected so far and tries to take a value from it.
pub struct SampleReader {
    pending: String,
    count: i32,
}

impl View for SampleReader {
    type V = SampleReaderState;

    closed spec fn view(&self) -> SampleReaderState {
        SampleReaderState { pending: self.pending@, count: self.count }
    }
}

impl SampleReader {
    /// A reader that has made no pass and holds no text.
    pub fn new() -> (r: Self)
        ensures
            r@.pending == Seq::<char>::empty(),
            r@.count == 0,
    {
        SampleReader { pending: String::new(), count: 0 }
    }

    /// The text collected and not yet taken as a value.
    pub fn pending(&self) -> (t: &str)
        ensures
            t@ == self@.pending,
    {
        self.pending.as_str()
    }

    /// The number of passes made.
    pub fn count(&self) -> (c: i32)
        ensures
            c == self@.count,
    {
        self.count
    }

    /// One pass: `chunk` is added to the collected text, which is then read as
    /// by [`parse_reading`]. A value clears the text; otherwise the text stays.
    /// The pass counter goes up by one either way.
    pub fn ingest(&mut self, chunk: &str) -> (outcome: SampleOutcome)
        requires
            old(self)@.count < i32::MAX,
        ensures
            final(self)@.count == old(self)@.count + 1,
            ({
                let text = old(self)@.pending + chunk@;
                match spec_parse_reading(text) {
                    Some(v) => {
                        &&& outcome == SampleOutcome::Reading { value: v, count: old(self)@.count }
                        &&& final(self)@.pending == Seq::<char>::empty()
                    },
                    None => {
                        &&& outcome == SampleOutcome::Unreadable { count: old(self)@.count }
                        &&& final(self)@.pending == text
                    },
                }
            }),
    {
        self.pending.append(chunk);
        let count = self.count;
        let outcome = match parse_reading(self.pending.as_str()) {
            Some(value) => {
                self.pending = String::new();
                SampleOutcome::Reading { value, count }
            },
            None => SampleOutcome::Unreadable { count },
        };
        self.count = count + 1;
        outcome
    }
}

} // verus!
