use vstd::prelude::*;
use crate::commands::DownloaderCommand;
use crate::supervisor::{is_hold, user_hold, HoldKind, Phase, Supervisor, SupervisorAction, SupervisorEvent};
use crate::queue::{moved_down, moved_up, removed};
use crate::rollingrate::{age, rate_of};
use crate::commands::{
    add_arg, add_form, arg_start, command_spec, index_digits, index_form, keyword_then_blank, kw_add, kw_cancel,
    kw_delete, kw_down, kw_pause, kw_resume, kw_up,
};
use crate::text::{decimal_value, has_keyword_at, has_tag_at, is_blank, is_digit, line_end, line_rest_ok, lower, run_len};
use crate::ytdlp::{
    count_end, download_form, f1, f2, f3, field_is_digits, field_na, field_next, field_ok, field_value,
    progress_spec, tag_download, u64_of, DownloaderMsg,
};

verus! {

/// A stall is reported once: the first timeout while downloading publishes
/// `Stuck`, a second one publishes nothing.
pub proof fn lemma_stall_reported_once(
    s0: Supervisor,
    s1: Supervisor,
    a1: Seq<SupervisorAction>,
    s2: Supervisor,
    a2: Seq<SupervisorAction>,
)
    requires
        s0.phase == Phase::Downloading,
        !s0.stopped,
        !s0.stuck,
        Supervisor::step_spec(s0, SupervisorEvent::StallTimeout, s1, a1),
        Supervisor::step_spec(s1, SupervisorEvent::StallTimeout, s2, a2),
    ensures
        a1 == seq![SupervisorAction::Emit(DownloaderMsg::Stuck)],
        a2.len() == 0,
        s2.stuck,
{
    assert(a1 =~= seq![SupervisorAction::Emit(DownloaderMsg::Stuck)]);
}

/// A line clears the stall: after it, the next timeout publishes `Stuck` again.
pub proof fn lemma_line_rearms_stall(
    s0: Supervisor,
    l: String,
    s1: Supervisor,
    a1: Seq<SupervisorAction>,
    s2: Supervisor,
    a2: Seq<SupervisorAction>,
)
    requires
        s0.phase == Phase::Downloading,
        !s0.stopped,
        s0.reading_out,
        Supervisor::step_spec(s0, SupervisorEvent::Line(l), s1, a1),
        Supervisor::step_spec(s1, SupervisorEvent::StallTimeout, s2, a2),
    ensures
        !s1.stuck,
        a1[0] == SupervisorAction::ResetStallTimer,
        a2 == seq![SupervisorAction::Emit(DownloaderMsg::Stuck)],
{
    assert(a2 =~= seq![SupervisorAction::Emit(DownloaderMsg::Stuck)]);
}

/// A pause while downloading kills the downloader; once it is reaped, whatever
/// its exit, `Hold("User hold")` is published with the URL kept, and `Resume`
/// starts the same URL again.
pub proof fn lemma_pause_then_resume(
    s0: Supervisor,
    s1: Supervisor,
    a1: Seq<SupervisorAction>,
    code: Option<i32>,
    s2: Supervisor,
    a2: Seq<SupervisorAction>,
    s3: Supervisor,
    a3: Seq<SupervisorAction>,
)
    requires
        s0.wf(),
        s0.phase == Phase::Downloading,
        !s0.stopped,
        Supervisor::step_spec(s0, SupervisorEvent::Command(DownloaderCommand::Pause), s1, a1),
        Supervisor::step_spec(s1, SupervisorEvent::ChildExited(code), s2, a2),
        Supervisor::step_spec(s2, SupervisorEvent::Command(DownloaderCommand::Resume), s3, a3),
    ensures
        a1 == seq![SupervisorAction::Kill],
        a2.len() == 1 && is_hold(a2[0], user_hold()),
        s2.phase == Phase::Hold(HoldKind::Retry),
        s2.current == s0.current,
        a3[0] == SupervisorAction::Spawn(s0.current->Some_0),
        s3.phase == Phase::Downloading,
        s3.current == s0.current,
{
    assert(a1 =~= seq![SupervisorAction::Kill]);
}

/// A cancel while downloading kills the downloader; once it is reaped, whatever
/// its exit, the URL is dropped, `Idle` is published and no hold.
pub proof fn lemma_cancel_goes_idle(
    s0: Supervisor,
    s1: Supervisor,
    a1: Seq<SupervisorAction>,
    code: Option<i32>,
    s2: Supervisor,
    a2: Seq<SupervisorAction>,
)
    requires
        s0.phase == Phase::Downloading,
        !s0.stopped,
        Supervisor::step_spec(s0, SupervisorEvent::Command(DownloaderCommand::Cancel), s1, a1),
        Supervisor::step_spec(s1, SupervisorEvent::ChildExited(code), s2, a2),
    ensures
        a1 == seq![SupervisorAction::Kill],
        a2 == seq![SupervisorAction::Emit(DownloaderMsg::Idle)],
        s2.phase == Phase::Idle,
        s2.current is None,
{
    assert(a1 =~= seq![SupervisorAction::Kill]);
    assert(a2 =~= seq![SupervisorAction::Emit(DownloaderMsg::Idle)]);
}

/// One operation on the queue.
pub enum QueueOp {
    Push(String),
    Pop,
    MoveUp(usize),
    MoveDown(usize),
    Remove(usize),
}

/// The queue after `op`, as the queue's methods state it.
pub open spec fn queue_step(s: Seq<String>, op: QueueOp) -> Seq<String> {
    match op {
        QueueOp::Push(u) => s.push(u),
        QueueOp::Pop => if s.len() > 0 { s.drop_first() } else { s },
        QueueOp::MoveUp(i) => moved_up(s, i as int),
        QueueOp::MoveDown(i) => moved_down(s, i as int),
        QueueOp::Remove(i) => removed(s, i as int),
    }
}

/// The queue after `op` in a plain list model: cut and glue.
pub open spec fn model_step(s: Seq<String>, op: QueueOp) -> Seq<String> {
    match op {
        QueueOp::Push(u) => s + seq![u],
        QueueOp::Pop => s.subrange(if s.len() > 0 { 1 } else { 0 }, s.len() as int),
        QueueOp::MoveUp(i) => if 1 <= i < s.len() {
            s.subrange(0, i - 1) + seq![s[i as int], s[i - 1]] + s.subrange(i + 1, s.len() as int)
        } else {
            s
        },
        QueueOp::MoveDown(i) => if i + 1 < s.len() {
            s.subrange(0, i as int) + seq![s[i + 1], s[i as int]] + s.subrange(i + 2, s.len() as int)
        } else {
            s
        },
        QueueOp::Remove(i) => if i < s.len() {
            s.subrange(0, i as int) + s.subrange(i + 1, s.len() as int)
        } else {
            s
        },
    }
}

/// `s` after the operations `ops` in turn, by `queue_step`.
pub open spec fn run_queue(s: Seq<String>, ops: Seq<QueueOp>) -> Seq<String>
    decreases ops.len(),
{
    if ops.len() == 0 { s } else { run_queue(queue_step(s, ops[0]), ops.drop_first()) }
}

/// `s` after the operations `ops` in turn, by `model_step`.
pub open spec fn run_model(s: Seq<String>, ops: Seq<QueueOp>) -> Seq<String>
    decreases ops.len(),
{
    if ops.len() == 0 { s } else { run_model(model_step(s, ops[0]), ops.drop_first()) }
}

/// Each queue operation does what the list model does.
pub proof fn lemma_queue_step_matches_model(s: Seq<String>, op: QueueOp)
    ensures
        queue_step(s, op) == model_step(s, op),
{
    match op {
        QueueOp::Push(u) => {
            assert(s.push(u) =~= s + seq![u]);
        },
        QueueOp::Pop => {
            if s.len() > 0 {
                assert(s.drop_first() =~= s.subrange(1, s.len() as int));
            } else {
                assert(s =~= s.subrange(0, 0));
            }
        },
        QueueOp::MoveUp(i) => {
            if 1 <= i < s.len() {
                assert(moved_up(s, i as int) =~= model_step(s, op));
            }
        },
        QueueOp::MoveDown(i) => {
            if i + 1 < s.len() {
                assert(moved_down(s, i as int) =~= model_step(s, op));
            }
        },
        QueueOp::Remove(i) => {
            if i < s.len() {
                assert(removed(s, i as int) =~= model_step(s, op));
            }
        },
    }
}

/// After any sequence of operations the queue (and so its snapshot) is what
/// the list model gives for the same sequence.
pub proof fn lemma_queue_matches_model(s: Seq<String>, ops: Seq<QueueOp>)
    ensures
        run_queue(s, ops) == run_model(s, ops),
    decreases ops.len(),
{
    if ops.len() > 0 {
        lemma_queue_step_matches_model(s, ops[0]);
        lemma_queue_matches_model(queue_step(s, ops[0]), ops.drop_first());
    }
}

/// Moving the head up, the tail down, any index past the end, and any
/// operation on an empty queue change nothing.
pub proof fn lemma_queue_no_ops(s: Seq<String>, i: int)
    ensures
        moved_up(s, 0) == s,
        s.len() > 0 ==> moved_down(s, s.len() - 1) == s,
        i >= s.len() ==> moved_up(s, i) == s && moved_down(s, i) == s && removed(s, i) == s,
        s.len() == 0 ==> moved_up(s, i) == s && moved_down(s, i) == s && removed(s, i) == s,
{
}

/// A rate needs two samples, the oldest at least `min` old.
pub proof fn lemma_rate_needs_span(s: Seq<(u64, u64)>, now: u64, min: u64)
    ensures
        s.len() < 2 ==> rate_of(s, now, min) is None,
        s.len() > 0 && age(now, s[0].0) < min ==> rate_of(s, now, min) is None,
        rate_of(s, now, min) is Some ==> s.len() >= 2 && age(now, s[0].0) >= min,
{
}

/// The byte is an ASCII letter.
pub open spec fn is_letter(b: u8) -> bool {
    (65 <= b <= 90) || (97 <= b <= 122)
}

/// `s` and `t` differ at most in the letter case of the letters that `s`
/// starts with (its first `k` bytes).
pub open spec fn same_but_keyword_case(s: Seq<u8>, t: Seq<u8>, k: int) -> bool {
    &&& s.len() == t.len()
    &&& 0 <= k <= s.len()
    &&& forall|i: int| 0 <= i < k ==> is_letter(#[trigger] s[i]) && lower(s[i]) == lower(t[i])
    &&& forall|i: int| k <= i < s.len() ==> #[trigger] s[i] == t[i]
    &&& (k == s.len() || !is_letter(s[k]))
}

proof fn lemma_case_bytes(s: Seq<u8>, t: Seq<u8>, k: int, i: int)
    requires
        same_but_keyword_case(s, t, k),
        0 <= i < s.len(),
    ensures
        lower(s[i]) == lower(t[i]),
        is_blank(s[i]) == is_blank(t[i]),
        is_digit(s[i]) == is_digit(t[i]),
        (s[i] == 13 || s[i] == 10) == (t[i] == 13 || t[i] == 10),
        !is_letter(s[i]) ==> s[i] == t[i],
{
    if i < k {
        assert(is_letter(s[i]) && lower(s[i]) == lower(t[i]));
    } else {
        assert(s[i] == t[i]);
    }
}

proof fn lemma_case_run(s: Seq<u8>, t: Seq<u8>, k: int, at: int, digit: bool)
    requires
        same_but_keyword_case(s, t, k),
    ensures
        run_len(s, at, digit) == run_len(t, at, digit),
    decreases s.len() - at,
{
    if 0 <= at < s.len() {
        lemma_case_bytes(s, t, k, at);
        lemma_case_run(s, t, k, at + 1, digit);
    }
}

proof fn lemma_case_line_end(s: Seq<u8>, t: Seq<u8>, k: int, at: int)
    requires
        same_but_keyword_case(s, t, k),
    ensures
        line_end(s, at) == line_end(t, at),
    decreases s.len() - at,
{
    if 0 <= at < s.len() {
        lemma_case_bytes(s, t, k, at);
        lemma_case_line_end(s, t, k, at + 1);
    }
}

proof fn lemma_case_keyword(s: Seq<u8>, t: Seq<u8>, k: int, kw: Seq<u8>)
    requires
        same_but_keyword_case(s, t, k),
    ensures
        has_keyword_at(s, 0, kw) == has_keyword_at(t, 0, kw),
        run_len(s, kw.len() as int, false) == run_len(t, kw.len() as int, false),
        keyword_then_blank(s, kw) ==> k <= kw.len(),
        arg_start(s, kw) == arg_start(t, kw),
{
    assert forall|i: int| 0 <= i < s.len() implies lower(#[trigger] s[i]) == lower(t[i]) by {
        lemma_case_bytes(s, t, k, i);
    }
    if has_keyword_at(s, 0, kw) {
        assert forall|i: int| 0 <= i < kw.len() implies #[trigger] lower(t[0 + i]) == kw[i] by {
            assert(lower(s[0 + i]) == kw[i]);
        }
    }
    if has_keyword_at(t, 0, kw) {
        assert forall|i: int| 0 <= i < kw.len() implies #[trigger] lower(s[0 + i]) == kw[i] by {
            assert(lower(t[0 + i]) == kw[i]);
        }
    }
    lemma_case_run(s, t, k, kw.len() as int, false);
    if keyword_then_blank(s, kw) && k > kw.len() {
        assert(is_letter(s[kw.len() as int]));
    }
}

proof fn lemma_case_index(s: Seq<u8>, t: Seq<u8>, k: int, kw: Seq<u8>)
    requires
        same_but_keyword_case(s, t, k),
    ensures
        index_form(s, kw) == index_form(t, kw),
        index_form(s, kw) ==> index_digits(s, kw) == index_digits(t, kw),
{
    lemma_case_keyword(s, t, k, kw);
    let p = arg_start(s, kw);
    lemma_case_run(s, t, k, p, true);
    if keyword_then_blank(s, kw) {
        crate::text::lemma_run_len_bound(s, kw.len() as int, false);
        crate::text::lemma_run_len_bound(s, p, true);
        assert(index_digits(s, kw) =~= index_digits(t, kw));
    }
}

/// Keywords are read without regard to letter case: two lines that differ
/// only in the case of their leading letters denote the same command, and an
/// `add` line's URL is its bytes as they stand.
pub proof fn lemma_command_case_insensitive(s: Seq<u8>, t: Seq<u8>, k: int, r: Result<DownloaderCommand, ()>)
    requires
        same_but_keyword_case(s, t, k),
    ensures
        command_spec(s, r) == command_spec(t, r),
        add_form(s) ==> add_form(t) && add_arg(s) == add_arg(t),
{
    lemma_case_keyword(s, t, k, kw_add());
    lemma_case_keyword(s, t, k, kw_pause());
    lemma_case_keyword(s, t, k, kw_cancel());
    lemma_case_keyword(s, t, k, kw_resume());
    lemma_case_index(s, t, k, kw_down());
    lemma_case_index(s, t, k, kw_up());
    lemma_case_index(s, t, k, kw_delete());
    let p = arg_start(s, kw_add());
    lemma_case_line_end(s, t, k, p);
    let e = line_end(s, p);
    if keyword_then_blank(s, kw_add()) {
        crate::text::lemma_run_len_bound(s, 3, false);
        crate::text::lemma_line_end(s, p);
        if e < s.len() {
            lemma_case_bytes(s, t, k, e);
        }
        if e + 1 < s.len() {
            lemma_case_bytes(s, t, k, e + 1);
        }
        assert(line_rest_ok(s, p) == line_rest_ok(t, p));
        assert(add_arg(s) =~= add_arg(t));
    }
}

/// Decimal digits of `n` as ASCII bytes.
pub open spec fn dec_bytes(n: nat) -> Seq<u8>
    decreases n,
{
    if n < 10 {
        seq![(48 + n) as u8]
    } else {
        dec_bytes(n / 10).push((48 + n % 10) as u8)
    }
}

/// An optional field as the downloader writes it: digits and `|`, or `NA|`.
pub open spec fn field_bytes(v: Option<u64>) -> Seq<u8> {
    match v {
        Some(x) => dec_bytes(x as nat) + seq![124u8],
        None => field_na(),
    }
}

/// The progress line the downloader writes for these values.
pub open spec fn download_line(b: u64, tot: Option<u64>, fi: Option<u64>, fc: Option<u64>) -> Seq<u8> {
    tag_download() + dec_bytes(b as nat) + seq![124u8] + field_bytes(tot) + field_bytes(fi) + field_bytes(fc)
}

proof fn lemma_dec_bytes(n: nat)
    ensures
        dec_bytes(n).len() >= 1,
        forall|i: int| 0 <= i < dec_bytes(n).len() ==> is_digit(#[trigger] dec_bytes(n)[i]),
        decimal_value(dec_bytes(n)) == n,
    decreases n,
{
    if n >= 10 {
        lemma_dec_bytes(n / 10);
        assert(dec_bytes(n).drop_last() =~= dec_bytes(n / 10));
        assert(dec_bytes(n).last() == (48 + n % 10) as u8);
        assert(decimal_value(dec_bytes(n)) == decimal_value(dec_bytes(n / 10)) * 10 + (n % 10));
    } else {
        assert(dec_bytes(n).drop_last() =~= Seq::<u8>::empty());
        assert(decimal_value(Seq::<u8>::empty()) == 0);
    }
}

proof fn lemma_run_exact(s: Seq<u8>, at: int, k: int)
    requires
        0 <= at,
        0 <= k,
        at + k <= s.len(),
        forall|i: int| at <= i < at + k ==> is_digit(#[trigger] s[i]),
        at + k == s.len() || !is_digit(s[at + k]),
    ensures
        run_len(s, at, true) == k,
    decreases k,
{
    if k > 0 {
        lemma_run_exact(s, at + 1, k - 1);
    }
}

/// Reading a field written by `field_bytes` at `at` gives its value back.
proof fn lemma_field(s: Seq<u8>, at: int, v: Option<u64>)
    requires
        0 <= at,
        at + field_bytes(v).len() <= s.len(),
        s.subrange(at, at + field_bytes(v).len()) == field_bytes(v),
    ensures
        field_ok(s, at),
        field_next(s, at) == at + field_bytes(v).len(),
        field_value(s, at) == v,
{
    match v {
        Some(x) => {
            let d = dec_bytes(x as nat);
            lemma_dec_bytes(x as nat);
            assert forall|i: int| at <= i < at + d.len() implies is_digit(#[trigger] s[i]) by {
                assert(s[i] == s.subrange(at, at + field_bytes(v).len())[i - at]);
                assert(field_bytes(v)[i - at] == d[i - at]);
            }
            assert(s[at + d.len() as int] == s.subrange(at, at + field_bytes(v).len())[d.len() as int]);
            lemma_run_exact(s, at, d.len() as int);
            assert(s.subrange(at, at + d.len() as int) =~= d);
        },
        None => {
            assert(s[at] == s.subrange(at, at + 3)[0]);
            assert(run_len(s, at, true) == 0);
        },
    }
}

/// A progress line written for any byte count and optional total, fragment
/// index and fragment count parses back to exactly those values.
pub proof fn lemma_download_round_trip(
    b: u64,
    tot: Option<u64>,
    fi: Option<u64>,
    fc: Option<u64>,
    r: Result<DownloaderMsg, ()>,
)
    requires
        progress_spec(download_line(b, tot, fi, fc), r),
    ensures
        r == Ok::<DownloaderMsg, ()>(
            DownloaderMsg::Downloading { downloaded_bytes: b, total_bytes: tot, frag_index: fi, frag_count: fc },
        ),
{
    let s = download_line(b, tot, fi, fc);
    let d = dec_bytes(b as nat);
    let a1 = field_bytes(tot);
    let a2 = field_bytes(fi);
    let a3 = field_bytes(fc);
    lemma_dec_bytes(b as nat);
    let n: int = d.len() as int;
    let p1: int = 10 + n;
    let p2: int = p1 + a1.len();
    let p3: int = p2 + a2.len();
    assert(s.subrange(0, 9) =~= tag_download());
    assert forall|i: int| 9 <= i < 9 + d.len() implies is_digit(#[trigger] s[i]) by {
        assert(s[i] == d[i - 9]);
    }
    assert(s[9 + n] == 124u8);
    lemma_run_exact(s, 9, d.len() as int);
    assert(s.subrange(9, 9 + n) =~= d);
    assert(count_end(s) == 9 + d.len());
    assert(s.subrange(p1, p1 + a1.len()) =~= a1);
    lemma_field(s, p1, tot);
    assert(s.subrange(p2, p2 + a2.len()) =~= a2);
    lemma_field(s, p2, fi);
    assert(s.subrange(p3, p3 + a3.len()) =~= a3);
    lemma_field(s, p3, fc);
    assert(f1(s) == p1);
    assert(download_form(s));
}

} // verus!
