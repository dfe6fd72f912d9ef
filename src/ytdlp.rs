use vstd::prelude::*;
use vstd::string::*;
use vstd::utf8::*;
use crate::text::{decimal_u64, decimal_value, has_tag_at, lemma_line_end, lemma_run_len_bound, line_end, line_rest_ok, run_len, scan_line_end, scan_run, substring, tag_at};

verus! {

/// What the downloader reports, and what the supervisor announces.
#[derive(Debug, Clone)]
pub enum DownloaderMsg {
    /// The downloader began the current URL.
    Starting(Option<String>),
    /// A progress sample.
    Downloading {
        downloaded_bytes: u64,
        total_bytes: Option<u64>,
        frag_index: Option<u64>,
        frag_count: Option<u64>,
    },
    /// The finished file was put in place.
    Moved(Option<String>),
    /// No progress line for the stall interval.
    Stuck,
    /// No current URL.
    Idle,
    /// Waiting for the user to resume, with the reason.
    Hold(String),
    /// The queue as it is now.
    QueueUpdate(Vec<String>),
}

pub open spec fn tag_download() -> Seq<u8> {
    seq![68u8, 79u8, 87u8, 78u8, 76u8, 79u8, 65u8, 68u8, 124u8]
}

pub open spec fn tag_moved() -> Seq<u8> {
    seq![77u8, 79u8, 86u8, 69u8, 68u8, 124u8]
}

pub open spec fn tag_start() -> Seq<u8> {
    seq![83u8, 84u8, 65u8, 82u8, 84u8, 124u8]
}

/// The bytes `NA`, which stand for "no value".
pub open spec fn bytes_na() -> Seq<u8> {
    seq![78u8, 65u8]
}

/// The bytes `NA|`.
pub open spec fn field_na() -> Seq<u8> {
    seq![78u8, 65u8, 124u8]
}

/// Value of the digits `s[a..b]` when it fits in a `u64`.
pub open spec fn u64_of(s: Seq<u8>, a: int, b: int) -> Option<u64> {
    if decimal_value(s.subrange(a, b)) <= u64::MAX {
        Some(decimal_value(s.subrange(a, b)) as u64)
    } else {
        None
    }
}

/// At `at`, `s` holds digits closed by `|`.
pub open spec fn field_is_digits(s: Seq<u8>, at: int) -> bool {
    run_len(s, at, true) > 0 && at + run_len(s, at, true) < s.len() && s[at + run_len(s, at, true)] == 124
}

/// At `at`, `s` holds an optional field: digits closed by `|`, or `NA|`.
pub open spec fn field_ok(s: Seq<u8>, at: int) -> bool {
    field_is_digits(s, at) || has_tag_at(s, at, field_na())
}

/// Where the field at `at` ends.
pub open spec fn field_next(s: Seq<u8>, at: int) -> int {
    if field_is_digits(s, at) {
        at + run_len(s, at, true) + 1
    } else {
        at + 3
    }
}

/// The value of the field at `at`: absent for `NA|` and for a number that
/// does not fit in a `u64`.
pub open spec fn field_value(s: Seq<u8>, at: int) -> Option<u64> {
    if field_is_digits(s, at) {
        u64_of(s, at, at + run_len(s, at, true))
    } else {
        None
    }
}

/// End of the downloaded byte count of a `DOWNLOAD|` line.
pub open spec fn count_end(s: Seq<u8>) -> int {
    9 + run_len(s, 9, true) as int
}

/// Start of the total-size field of a `DOWNLOAD|` line.
pub open spec fn f1(s: Seq<u8>) -> int {
    count_end(s) + 1
}

/// Start of the fragment-index field of a `DOWNLOAD|` line.
pub open spec fn f2(s: Seq<u8>) -> int {
    field_next(s, f1(s))
}

/// Start of the fragment-count field of a `DOWNLOAD|` line.
pub open spec fn f3(s: Seq<u8>) -> int {
    field_next(s, f2(s))
}

/// `s` is a complete `DOWNLOAD|<count>|<field>|<field>|<field>|` line (text
/// after it is ignored).
pub open spec fn download_form(s: Seq<u8>) -> bool {
    &&& has_tag_at(s, 0, tag_download())
    &&& run_len(s, 9, true) > 0
    &&& u64_of(s, 9, count_end(s)) is Some
    &&& count_end(s) < s.len() && s[count_end(s)] == 124
    &&& field_ok(s, f1(s))
    &&& field_ok(s, f2(s))
    &&& field_ok(s, f3(s))
}

/// `s` starts with `tag` and the rest of its line can be taken as a title.
pub open spec fn title_form(s: Seq<u8>, tag: Seq<u8>) -> bool {
    has_tag_at(s, 0, tag) && line_rest_ok(s, tag.len() as int)
}

/// The title bytes after a tag of `n` bytes.
pub open spec fn title_bytes(s: Seq<u8>, n: int) -> Seq<u8> {
    s.subrange(n, line_end(s, n))
}

/// `t` is the title written as `b`, with `NA` standing for none.
pub open spec fn title_is(t: Option<String>, b: Seq<u8>) -> bool {
    if b == bytes_na() {
        t is None
    } else {
        t matches Some(x) && encode_utf8(x@) == b
    }
}

/// The message that the downloader's line `s` denotes, as `r`; `r` is an
/// error where the line denotes none.
pub open spec fn progress_spec(s: Seq<u8>, r: Result<DownloaderMsg, ()>) -> bool {
    if download_form(s) {
        r == Ok::<DownloaderMsg, ()>(
            DownloaderMsg::Downloading {
                downloaded_bytes: u64_of(s, 9, count_end(s))->Some_0,
                total_bytes: field_value(s, f1(s)),
                frag_index: field_value(s, f2(s)),
                frag_count: field_value(s, f3(s)),
            },
        )
    } else if title_form(s, tag_moved()) {
        r matches Ok(DownloaderMsg::Moved(t)) && title_is(t, title_bytes(s, 6))
    } else if title_form(s, tag_start()) {
        r matches Ok(DownloaderMsg::Starting(t)) && title_is(t, title_bytes(s, 6))
    } else {
        r is Err
    }
}

/// Progress is counted in millionths: this is the whole.
pub const PROGRESS_WHOLE: u64 = 1000000;

/// `n / d` in millionths, when `d` is not zero.
pub open spec fn ratio(n: u64, d: u64) -> Option<int> {
    if d > 0 { Some((n as int) * 1000000 / (d as int)) } else { None }
}

/// The progress a message reports, in millionths clamped to the whole: the
/// mean of the byte ratio and the fragment ratio where both are known, else
/// the one that is known.
pub open spec fn progress_of(m: DownloaderMsg) -> Option<u64> {
    match m {
        DownloaderMsg::Downloading { downloaded_bytes, total_bytes, frag_index, frag_count } => {
            let br = match total_bytes { Some(t) => ratio(downloaded_bytes, t), None => None };
            let fr = match (frag_index, frag_count) { (Some(a), Some(c)) => ratio(a, c), _ => None };
            let v: Option<int> = match (br, fr) {
                (Some(x), Some(y)) => Some((x + y) / 2),
                (Some(x), None) => Some(x),
                (None, Some(y)) => Some(y),
                (None, None) => None,
            };
            match v {
                Some(x) => Some(if x > 1000000 { 1000000u64 } else { x as u64 }),
                None => None,
            }
        },
        _ => None,
    }
}

fn ratio_exec(n: u64, d: Option<u64>) -> (r: Option<u128>)
    ensures
        match d {
            Some(dv) => (dv > 0 ==> (r matches Some(x) && x as int == (n as int) * 1000000 / (dv as int)))
                && (dv == 0 ==> r is None),
            None => r is None,
        },
{
    match d {
        Some(dv) => if dv > 0 {
            proof {
                assert((n as int) * 1000000 / (dv as int) <= (n as int) * 1000000) by (nonlinear_arith)
                    requires dv > 0, n >= 0;
            }
            Some((n as u128) * 1000000 / (dv as u128))
        } else {
            None
        },
        None => None,
    }
}

impl DownloaderMsg {
    /// Progress of a `Downloading` message, in millionths of the whole.
    pub fn progress(&self) -> (r: Option<u64>)
        ensures
            r == progress_of(*self),
            r matches Some(p) ==> p <= PROGRESS_WHOLE,
    {
        match self {
            DownloaderMsg::Downloading { downloaded_bytes, total_bytes, frag_index, frag_count } => {
                let br = match total_bytes {
                    Some(t) => ratio_exec(*downloaded_bytes, Some(*t)),
                    None => None,
                };
                let fr = match (frag_index, frag_count) {
                    (Some(a), Some(c)) => ratio_exec(*a, Some(*c)),
                    _ => None,
                };
                let v: Option<u128> = match (br, fr) {
                    (Some(x), Some(y)) => Some((x + y) / 2),
                    (Some(x), None) => Some(x),
                    (None, Some(y)) => Some(y),
                    (None, None) => None,
                };
                match v {
                    Some(x) => Some(if x > 1000000 { 1000000u64 } else { x as u64 }),
                    None => None,
                }
            },
            _ => None,
        }
    }

    /// Byte count of a `Downloading` message.
    pub fn downloaded_bytes(&self) -> (r: Option<u64>)
        ensures
            r == (match *self {
                DownloaderMsg::Downloading { downloaded_bytes, .. } => Some(downloaded_bytes),
                _ => None,
            }),
    {
        match self {
            DownloaderMsg::Downloading { downloaded_bytes, .. } => Some(*downloaded_bytes),
            _ => None,
        }
    }

    /// Total size of a `Downloading` message, if known.
    pub fn total_bytes(&self) -> (r: Option<u64>)
        ensures
            r == (match *self {
                DownloaderMsg::Downloading { total_bytes, .. } => total_bytes,
                _ => None,
            }),
    {
        match self {
            DownloaderMsg::Downloading { total_bytes, .. } => *total_bytes,
            _ => None,
        }
    }

    /// Title of a `Starting` or `Moved` message, if known.
    pub fn title(&self) -> (r: Option<&String>)
        ensures
            match *self {
                DownloaderMsg::Starting(t) => (r is Some <==> t is Some) && (r matches Some(x) ==> *x == t->Some_0),
                DownloaderMsg::Moved(t) => (r is Some <==> t is Some) && (r matches Some(x) ==> *x == t->Some_0),
                _ => r is None,
            },
    {
        match self {
            DownloaderMsg::Starting(t) => t.as_ref(),
            DownloaderMsg::Moved(t) => t.as_ref(),
            _ => None,
        }
    }
}

/// Reads an optional field at `at`.
fn digit_field(b: &[u8], at: usize) -> (r: Option<(Option<u64>, usize)>)
    requires
        at <= b@.len(),
    ensures
        field_ok(b@, at as int) <==> r is Some,
        r matches Some((v, n)) ==> v == field_value(b@, at as int) && n == field_next(b@, at as int)
            && n <= b@.len(),
{
    broadcast use vstd::array::axiom_spec_array_as_slice;

    let n = b.len();
    let nd = scan_run(b, at, true);
    proof {
        lemma_run_len_bound(b@, at as int, true);
    }
    if nd > 0 && at + nd < n && b[at + nd] == 124 {
        let v = decimal_u64(b, at, at + nd);
        return Some((v, at + nd + 1));
    }
    if tag_at(b, at, [78u8, 65, 124].as_slice()) {
        return Some((None, at + 3));
    }
    None
}

/// The title after a tag of six bytes, if the rest of the line can be taken.
fn title_after_tag(line: &str) -> (r: Option<Option<String>>)
    requires
        line.spec_bytes().len() >= 6,
        forall|i: int| 0 <= i < 6 ==> line.spec_bytes()[i] < 0x80,
    ensures
        line_rest_ok(line.spec_bytes(), 6) <==> r is Some,
        r matches Some(t) ==> title_is(t, title_bytes(line.spec_bytes(), 6)),
{
    broadcast use vstd::array::axiom_spec_array_as_slice;

    let b = line.as_bytes();
    let n = b.len();
    let e = scan_line_end(b, 6);
    proof {
        lemma_line_end(b@, 6);
    }
    if !(e >= n || b[e] == 10 || (e + 1 < n && b[e + 1] == 10)) {
        return None;
    }
    if e == 8 && b[6] == 78 && b[7] == 65 {
        assert(b@.subrange(6, 8) =~= bytes_na());
        return Some(None);
    }
    let t = substring(line, 6, e);
    proof {
        if b@.subrange(6, e as int) == bytes_na() {
            assert(b@.subrange(6, e as int).len() == 2);
            assert(b@.subrange(6, e as int)[0] == 78);
            assert(b@.subrange(6, e as int)[1] == 65);
            assert(false);
        }
    }
    Some(Some(t))
}

/// Parses one line of the downloader's output: `DOWNLOAD|` with a byte count
/// and three optional fields, or `MOVED|` / `START|` with a title.
pub fn parse_progress_update_line(line: &str) -> (r: Result<DownloaderMsg, ()>)
    ensures
        progress_spec(line.spec_bytes(), r),
{
    broadcast use vstd::array::axiom_spec_array_as_slice;

    let b = line.as_bytes();
    let n = b.len();
    if tag_at(b, 0, [68u8, 79, 87, 78, 76, 79, 65, 68, 124].as_slice()) {
        let nd = scan_run(b, 9, true);
        proof {
            lemma_run_len_bound(b@, 9, true);
        }
        if nd > 0 && 9 + nd < n && b[9 + nd] == 124 {
            if let Some(count) = decimal_u64(b, 9, 9 + nd) {
                if let Some((total, p2)) = digit_field(b, 10 + nd) {
                    if let Some((fi, p3)) = digit_field(b, p2) {
                        if let Some((fc, _)) = digit_field(b, p3) {
                            return Ok(
                                DownloaderMsg::Downloading {
                                    downloaded_bytes: count,
                                    total_bytes: total,
                                    frag_index: fi,
                                    frag_count: fc,
                                },
                            );
                        }
                    }
                }
            }
        }
    }
    if tag_at(b, 0, [77u8, 79, 86, 69, 68, 124].as_slice()) {
        proof {
            assert forall|i: int| 0 <= i < 6 implies line.spec_bytes()[i] < 0x80 by {
                assert(b@.subrange(0, 6)[i] == b@[i]);
            }
        }
        if let Some(t) = title_after_tag(line) {
            return Ok(DownloaderMsg::Moved(t));
        }
    }
    if tag_at(b, 0, [83u8, 84, 65, 82, 84, 124].as_slice()) {
        proof {
            assert forall|i: int| 0 <= i < 6 implies line.spec_bytes()[i] < 0x80 by {
                assert(b@.subrange(0, 6)[i] == b@[i]);
            }
        }
        if let Some(t) = title_after_tag(line) {
            return Ok(DownloaderMsg::Starting(t));
        }
    }
    Err(())
}

} // verus!
