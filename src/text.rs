use vstd::prelude::*;
use vstd::string::*;
use vstd::utf8::*;

verus! {

/// The byte is an ASCII decimal digit.
pub open spec fn is_digit(b: u8) -> bool {
    48 <= b <= 57
}

/// The byte is a space or a horizontal tab.
pub open spec fn is_blank(b: u8) -> bool {
    b == 32 || b == 9
}

/// ASCII lower case of a byte; other bytes stay as they are.
pub open spec fn lower(b: u8) -> u8 {
    if 65 <= b <= 90 {
        (b + 32) as u8
    } else {
        b
    }
}

/// `s` starts with `kw` at `at`, comparing ASCII letters without regard to case
/// (`kw` is written in lower case).
pub open spec fn has_keyword_at(s: Seq<u8>, at: int, kw: Seq<u8>) -> bool {
    0 <= at && at + kw.len() <= s.len() && forall|i: int|
        0 <= i < kw.len() ==> #[trigger] lower(s[at + i]) == kw[i]
}

/// Number of bytes satisfying `digit` (or blank, if `!digit`) from `at` on.
pub open spec fn run_len(s: Seq<u8>, at: int, digit: bool) -> nat
    decreases s.len() - at,
{
    if at < 0 || at >= s.len() {
        0
    } else if (digit && is_digit(s[at])) || (!digit && is_blank(s[at])) {
        1 + run_len(s, at + 1, digit)
    } else {
        0
    }
}

/// Value of the decimal digits `d`, most significant first.
pub open spec fn decimal_value(d: Seq<u8>) -> nat
    decreases d.len(),
{
    if d.len() == 0 {
        0
    } else {
        decimal_value(d.drop_last()) * 10 + (d.last() - 48) as nat
    }
}

/// Index of the first carriage return or line feed at or after `at`, else `s.len()`.
pub open spec fn line_end(s: Seq<u8>, at: int) -> int
    decreases s.len() - at,
{
    if at < 0 || at >= s.len() {
        s.len() as int
    } else if s[at] == 13 || s[at] == 10 {
        at
    } else {
        line_end(s, at + 1)
    }
}

/// The text from `at` to the end of the line can be taken: the line ends at the
/// end of `s`, at a line feed, or at a carriage return followed by a line feed.
pub open spec fn line_rest_ok(s: Seq<u8>, at: int) -> bool {
    let e = line_end(s, at);
    e >= s.len() || s[e] == 10 || (e + 1 < s.len() && s[e + 1] == 10)
}

/// A run stays within `s`, holds only its kind of byte, and ends at another.
pub proof fn lemma_run_len_bound(s: Seq<u8>, at: int, digit: bool)
    requires
        0 <= at <= s.len(),
    ensures
        at + run_len(s, at, digit) <= s.len(),
        forall|i: int| at <= i < at + run_len(s, at, digit) ==> (if digit { is_digit(s[i]) } else { is_blank(s[i]) }),
        at + run_len(s, at, digit) < s.len() ==> !(if digit { is_digit(s[at + run_len(s, at, digit)]) } else { is_blank(s[at + run_len(s, at, digit)]) }),
    decreases s.len() - at,
{
    if at < s.len() && ((digit && is_digit(s[at])) || (!digit && is_blank(s[at]))) {
        lemma_run_len_bound(s, at + 1, digit);
    }
}

/// The end of a line lies within `s`, at a line break or the end, with no break before it.
pub proof fn lemma_line_end(s: Seq<u8>, at: int)
    requires
        0 <= at <= s.len(),
    ensures
        at <= line_end(s, at) <= s.len(),
        line_end(s, at) < s.len() ==> (s[line_end(s, at)] == 13 || s[line_end(s, at)] == 10),
        forall|i: int| at <= i < line_end(s, at) ==> s[i] != 13 && s[i] != 10,
    decreases s.len() - at,
{
    if at < s.len() && !(s[at] == 13 || s[at] == 10) {
        lemma_line_end(s, at + 1);
    }
}

/// Position `k` of a valid UTF-8 sequence that follows an ASCII byte is a char boundary.
pub proof fn lemma_boundary_after_ascii(bytes: Seq<u8>, k: int)
    requires
        valid_utf8(bytes),
        0 < k <= bytes.len(),
        bytes[k - 1] < 0x80,
    ensures
        is_char_boundary(bytes, k),
{
    broadcast use is_char_boundary_iff_not_is_continuation_byte, is_char_boundary_start_end_of_seq, valid_utf8_split;

    if k < bytes.len() {
        is_char_boundary_iff_not_is_continuation_byte(bytes, k - 1);
        assert(is_char_boundary(bytes, k - 1));
        let tail = bytes.subrange(k - 1, bytes.len() as int);
        assert(valid_utf8(tail));
        assert(tail[0] == bytes[k - 1]);
        let rest = pop_first_scalar(tail);
        assert(rest =~= bytes.subrange(k, bytes.len() as int));
        assert(valid_utf8(rest));
        assert(rest[0] == bytes[k]);
        assert(!is_continuation_byte(bytes[k]));
    }
}

/// Position `k` of a valid UTF-8 sequence that is the end or holds an ASCII byte is a char boundary.
pub proof fn lemma_boundary_before_ascii(bytes: Seq<u8>, k: int)
    requires
        valid_utf8(bytes),
        0 <= k <= bytes.len(),
        0 < k < bytes.len() ==> bytes[k] < 0x80,
    ensures
        is_char_boundary(bytes, k),
{
    is_char_boundary_start_end_of_seq(bytes);
    if 0 < k < bytes.len() {
        is_char_boundary_iff_not_is_continuation_byte(bytes, k);
    }
}

/// The text of `s` between the byte positions `a` and `b`, both of which
/// lie next to an ASCII byte (or at an end).
pub fn substring(s: &str, a: usize, b: usize) -> (r: String)
    requires
        a <= b <= s.spec_bytes().len(),
        a > 0 ==> s.spec_bytes()[a - 1] < 0x80,
        b < s.spec_bytes().len() ==> s.spec_bytes()[b as int] < 0x80,
    ensures
        encode_utf8(r@) == s.spec_bytes().subrange(a as int, b as int),
{
    broadcast use encode_utf8_valid_utf8, valid_utf8_split;

    let bytes = Ghost(s.spec_bytes());
    proof {
        if a > 0 {
            lemma_boundary_after_ascii(bytes@, a as int);
        } else {
            lemma_boundary_before_ascii(bytes@, 0);
        }
    }
    let (_, tail) = s.split_at(a);
    let tb = Ghost(tail.spec_bytes());
    proof {
        assert(valid_utf8(tb@));
        lemma_boundary_before_ascii(tb@, (b - a) as int);
    }
    let (mid, _) = tail.split_at(b - a);
    assert(mid.spec_bytes() =~= s.spec_bytes().subrange(a as int, b as int));
    mid.to_owned()
}

/// Length of the run of digits (or blanks, if `!digit`) of `s` from `at` on.
pub fn scan_run(s: &[u8], at: usize, digit: bool) -> (n: usize)
    requires
        at <= s@.len(),
    ensures
        n == run_len(s@, at as int, digit),
{
    let mut i: usize = at;
    while i < s.len() && ((digit && s[i] >= 48 && s[i] <= 57) || (!digit && (s[i] == 32 || s[i] == 9)))
        invariant
            at <= i <= s@.len(),
            run_len(s@, at as int, digit) == (i - at) + run_len(s@, i as int, digit),
        decreases s@.len() - i,
    {
        i += 1;
    }
    i - at
}

/// Position of the end of the line of `s` that contains `at`.
pub fn scan_line_end(s: &[u8], at: usize) -> (e: usize)
    requires
        at <= s@.len(),
    ensures
        e == line_end(s@, at as int),
{
    let mut i: usize = at;
    while i < s.len() && s[i] != 13 && s[i] != 10
        invariant
            at <= i <= s@.len(),
            line_end(s@, at as int) == line_end(s@, i as int),
        decreases s@.len() - i,
    {
        i += 1;
    }
    i
}

/// Whether `s` holds `kw` at `at`, ASCII letters compared without regard to case.
pub fn keyword_at(s: &[u8], at: usize, kw: &[u8]) -> (r: bool)
    requires
        forall|i: int| 0 <= i < kw@.len() ==> lower(#[trigger] kw@[i]) == kw@[i],
    ensures
        r == has_keyword_at(s@, at as int, kw@),
{
    if at > s.len() || kw.len() > s.len() - at {
        return false;
    }
    let n = s.len();
    let mut i: usize = 0;
    while i < kw.len()
        invariant
            n == s@.len(),
            at + kw@.len() <= s@.len(),
            i <= kw@.len(),
            at + i <= s@.len(),
            forall|j: int| 0 <= j < i ==> #[trigger] lower(s@[at + j]) == kw@[j],
        decreases kw@.len() - i,
    {
        assert(at + i < s@.len());
        let c = s[at + i];
        let l = if c >= 65 && c <= 90 { c + 32 } else { c };
        if l != kw[i] {
            assert(lower(s@[at + i as int]) != kw@[i as int]);
            return false;
        }
        i += 1;
    }
    true
}

/// Value of the decimal digits `s[a..b]`, if it fits in a `u64`.
pub fn decimal_u64(s: &[u8], a: usize, b: usize) -> (r: Option<u64>)
    requires
        a <= b <= s@.len(),
        forall|i: int| a <= i < b ==> is_digit(s@[i]),
    ensures
        match r {
            Some(v) => v == decimal_value(s@.subrange(a as int, b as int)),
            None => decimal_value(s@.subrange(a as int, b as int)) > u64::MAX,
        },
{
    let mut v: u64 = 0;
    let mut i: usize = a;
    while i < b
        invariant
            a <= i <= b <= s@.len(),
            forall|j: int| a <= j < b ==> is_digit(s@[j]),
            v == decimal_value(s@.subrange(a as int, i as int)),
        decreases b - i,
    {
        let d = (s[i] - 48) as u64;
        assert(s@.subrange(a as int, i + 1).drop_last() =~= s@.subrange(a as int, i as int));
        if v > (u64::MAX - d) / 10 {
            proof {
                lemma_decimal_grows(s@.subrange(a as int, b as int), (i + 1 - a) as int);
                assert(s@.subrange(a as int, b as int).subrange(0, (i + 1 - a) as int) =~= s@.subrange(a as int, i + 1));
            }
            return None;
        }
        v = v * 10 + d;
        i += 1;
    }
    Some(v)
}

/// A longer run of digits never has a smaller value than its prefix.
proof fn lemma_decimal_grows(d: Seq<u8>, k: int)
    requires
        0 <= k <= d.len(),
        forall|i: int| 0 <= i < d.len() ==> is_digit(d[i]),
    ensures
        decimal_value(d.subrange(0, k)) <= decimal_value(d),
    decreases d.len() - k,
{
    if k < d.len() {
        lemma_decimal_grows(d, k + 1);
        assert(d.subrange(0, k + 1).drop_last() =~= d.subrange(0, k));
        assert(decimal_value(d.subrange(0, k + 1)) == decimal_value(d.subrange(0, k)) * 10 + (
        d[k] - 48) as nat);
    } else {
        assert(d.subrange(0, k) =~= d);
    }
}


/// `s` holds exactly the bytes `t` at `at`.
pub open spec fn has_tag_at(s: Seq<u8>, at: int, t: Seq<u8>) -> bool {
    0 <= at && at + t.len() <= s.len() && s.subrange(at, at + t.len()) == t
}

/// Whether `s` holds exactly the bytes `t` at `at`.
pub fn tag_at(s: &[u8], at: usize, t: &[u8]) -> (r: bool)
    ensures
        r == has_tag_at(s@, at as int, t@),
{
    let n = s.len();
    if at > n || t.len() > n - at {
        return false;
    }
    let mut i: usize = 0;
    while i < t.len()
        invariant
            n == s@.len(),
            at + t@.len() <= s@.len(),
            i <= t@.len(),
            forall|j: int| 0 <= j < i ==> s@[at + j] == t@[j],
        decreases t@.len() - i,
    {
        if s[at + i] != t[i] {
            assert(s@.subrange(at as int, at + t@.len())[i as int] != t@[i as int]);
            return false;
        }
        i += 1;
    }
    assert(s@.subrange(at as int, at + t@.len()) =~= t@);
    true
}

} // verus!
