use vstd::prelude::*;
use crate::render::{digits_of, join, u64_text};
use crate::rollingrate::{evicted, rate_of, RollingRate};
use crate::ytdlp::{progress_of, DownloaderMsg, PROGRESS_WHOLE};

verus! {

/// `1000` to the power `k`.
pub open spec fn pow1000(k: nat) -> nat
    decreases k,
{
    if k == 0 { 1 } else { 1000 * pow1000((k - 1) as nat) }
}

/// The unit for `x` bytes, searched from `k` on: the first whose scaled value
/// is under 1000 (exabytes at the most).
pub open spec fn unit_from(x: nat, k: nat) -> nat
    decreases 6 - k,
{
    if k >= 6 || x < pow1000(k + 1) { k } else { unit_from(x, k + 1) }
}

/// `n / d` rounded to the nearest integer, ties to even.
pub open spec fn round_div(n: nat, d: nat) -> nat {
    let q = n / d;
    let r = n % d;
    if 2 * r > d || (2 * r == d && q % 2 == 1) { q + 1 } else { q }
}

pub open spec fn unit_name(k: nat) -> Seq<char> {
    if k == 0 { "B"@ } else if k == 1 { "KB"@ } else if k == 2 { "MB"@ } else if k == 3 { "GB"@ }
    else if k == 4 { "TB"@ } else if k == 5 { "PB"@ } else { "EB"@ }
}

/// `x` bytes in the largest decimal unit that keeps the value under 1000, with
/// one decimal, rounded to the nearest tenth: `1.2 KB`.
pub open spec fn humanized(x: nat) -> Seq<char> {
    let k = unit_from(x, 0);
    let t = round_div(x * 10, pow1000(k));
    digits_of(t / 10) + "."@ + digits_of(t % 10) + " "@ + unit_name(k)
}

/// A byte count written for people, such as `1.2 KB`.
pub fn humanize_bytes(x: u64) -> (r: String)
    ensures
        r@ == humanized(x as nat),
{
    proof {
        reveal_strlit("B");
        reveal_strlit("KB");
        reveal_strlit("MB");
        reveal_strlit("GB");
        reveal_strlit("TB");
        reveal_strlit("PB");
        reveal_strlit("EB");
        reveal_strlit(".");
        reveal_strlit(" ");
    }
    let mut k: u64 = 0;
    let mut d: u128 = 1;
    while k < 6 && (x as u128) >= d * 1000
        invariant
            k <= 6,
            d == pow1000(k as nat),
            d <= 1_000_000_000_000_000_000,
            d >= 1,
            unit_from(x as nat, k as nat) == unit_from(x as nat, 0),
        decreases 6 - k,
    {
        proof {
            reveal_with_fuel(pow1000, 7);
            assert(pow1000(6) == 1_000_000_000_000_000_000);
            lemma_pow1000_mono(k as nat + 1, 6);
            lemma_pow1000_mono(0, k as nat + 1);
        }
        d = d * 1000;
        k = k + 1;
    }
    let n = (x as u128) * 10;
    let q = n / d;
    let rem = n % d;
    let t = if 2 * rem > d || (2 * rem == d && q % 2 == 1) { q + 1 } else { q };
    proof {
        assert(q <= n) by (nonlinear_arith) requires d >= 1, q == n / d;
    }
    let unit = if k == 0 { "B" } else if k == 1 { "KB" } else if k == 2 { "MB" } else if k == 3 { "GB" }
        else if k == 4 { "TB" } else if k == 5 { "PB" } else { "EB" };
    let whole = u64_text((t / 10) as u64);
    let tenth = u64_text((t % 10) as u64);
    let s = join(join(join(join(whole, "."), tenth.as_str()), " "), unit);
    s
}

proof fn lemma_pow1000_mono(a: nat, b: nat)
    requires
        a <= b,
    ensures
        pow1000(a) <= pow1000(b),
    decreases b - a,
{
    if a < b {
        lemma_pow1000_mono(a, (b - 1) as nat);
    }
}

/// A rate written for people, such as `1.2 KB/s`.
pub fn humanize_rate(r: Option<u64>) -> (h: Option<String>)
    ensures
        r is None ==> h is None,
        r matches Some(v) ==> (h matches Some(s) && s@ == humanized(v as nat) + "/s"@),
{
    match r {
        Some(v) => Some(join(humanize_bytes(v), "/s")),
        None => None,
    }
}

/// Seconds left at rate `rate` for what remains of `total` after `done`, where
/// all of that is known and the rate is not zero.
pub open spec fn eta_of(rate: Option<u64>, total: Option<u64>, done: u64) -> Option<u64> {
    match (rate, total) {
        (Some(r), Some(t)) => if r > 0 && t >= done { Some(((t - done) / r as int) as u64) } else { None },
        _ => None,
    }
}

/// What is shown of the download: state, title, progress in millionths, rate,
/// size, ETA in seconds, and the queue.
pub struct Tracker {
    pub title: Option<String>,
    pub state: String,
    pub progress: Option<u64>,
    pub rate: Option<u64>,
    pub rate_h: Option<String>,
    pub queue: Vec<String>,
    pub total_bytes: Option<u64>,
    pub downloaded_bytes: u64,
    pub eta: Option<u64>,
    pub rolling_rate: RollingRate,
}

impl Tracker {
    /// Progress is within the whole; an ETA needs a rate and a total.
    pub open spec fn inv(&self) -> bool {
        &&& (self.progress matches Some(p) ==> p <= PROGRESS_WHOLE)
        &&& (self.eta is Some ==> self.rate is Some && self.total_bytes is Some)
        &&& self.rolling_rate.wf()
    }

    /// An idle tracker; the rate needs 1.5 s of samples and looks back 15 s.
    pub fn new() -> (r: Tracker)
        ensures
            r.inv(),
            r.state@ == "Idle"@,
            r.title is None && r.progress is None && r.rate is None && r.eta is None,
            r.total_bytes is None && r.downloaded_bytes == 0 && r.queue@.len() == 0,
            r.rolling_rate.samples().len() == 0,
            r.rolling_rate.min() == 1500 && r.rolling_rate.max() == 15000,
    {
        Tracker {
            title: None,
            state: "Idle".to_owned(),
            progress: None,
            rate: None,
            rate_h: None,
            queue: Vec::new(),
            total_bytes: None,
            downloaded_bytes: 0,
            eta: None,
            rolling_rate: RollingRate::new(1500, 15000),
        }
    }

    /// Derives the written rate and the ETA from the rate, total and count.
    pub fn calculate(&mut self)
        ensures
            final(self).eta == eta_of(old(self).rate, old(self).total_bytes, old(self).downloaded_bytes),
            old(self).rate is None ==> final(self).rate_h is None,
            old(self).rate matches Some(v) ==> (final(self).rate_h matches Some(s) && s@ == humanized(v as nat) + "/s"@),
            final(self).title == old(self).title,
            final(self).state == old(self).state,
            final(self).progress == old(self).progress,
            final(self).rate == old(self).rate,
            final(self).queue == old(self).queue,
            final(self).total_bytes == old(self).total_bytes,
            final(self).downloaded_bytes == old(self).downloaded_bytes,
            final(self).rolling_rate == old(self).rolling_rate,
    {
        self.rate_h = humanize_rate(self.rate);
        self.eta = match (self.rate, self.total_bytes) {
            (Some(r), Some(t)) => if r > 0 && t >= self.downloaded_bytes {
                Some((t - self.downloaded_bytes) / r)
            } else {
                None
            },
            _ => None,
        };
    }

    /// Forgets the rate.
    fn clear_rate(&mut self)
        ensures
            final(self).rate is None && final(self).rate_h is None && final(self).eta is None,
            final(self).rolling_rate.samples().len() == 0,
            final(self).rolling_rate.min() == old(self).rolling_rate.min(),
            final(self).rolling_rate.max() == old(self).rolling_rate.max(),
            final(self).rolling_rate.wf(),
            final(self).title == old(self).title,
            final(self).state == old(self).state,
            final(self).progress == old(self).progress,
            final(self).queue == old(self).queue,
            final(self).total_bytes == old(self).total_bytes,
            final(self).downloaded_bytes == old(self).downloaded_bytes,
    {
        self.rate = None;
        self.rate_h = None;
        self.eta = None;
        self.rolling_rate.reset();
    }

    /// Takes in one message, received at `now` (milliseconds).
    pub fn update(&mut self, now: u64, msg: DownloaderMsg)
        requires
            old(self).inv(),
        ensures
            final(self).inv(),
            match msg {
                DownloaderMsg::Starting(t) => final(self).state@ == "Starting"@ && final(self).title == t
                    && final(self).rate == old(self).rate && final(self).progress == old(self).progress,
                DownloaderMsg::Downloading { downloaded_bytes, total_bytes, .. } => {
                    let pushed = if old(self).rolling_rate.samples().len() > 0
                        && downloaded_bytes < old(self).rolling_rate.samples().last().1 {
                        seq![(now, downloaded_bytes)]
                    } else {
                        old(self).rolling_rate.samples().push((now, downloaded_bytes))
                    };
                    &&& final(self).rolling_rate.samples() == evicted(pushed, now, old(self).rolling_rate.max())
                    &&& final(self).rate == rate_of(final(self).rolling_rate.samples(), now, old(self).rolling_rate.min())
                    &&& final(self).state@ == "Downloading"@
                    &&& final(self).progress == progress_of(msg)
                    &&& final(self).total_bytes == total_bytes
                    &&& final(self).downloaded_bytes == downloaded_bytes
                    &&& final(self).eta == eta_of(final(self).rate, total_bytes, downloaded_bytes)
                    &&& final(self).title == old(self).title
                },
                DownloaderMsg::Moved(_) => final(self).rate is None && final(self).eta is None
                    && final(self).state == old(self).state && final(self).progress == old(self).progress
                    && final(self).rolling_rate.samples().len() == 0,
                DownloaderMsg::Stuck => final(self).state@ == "Stuck"@ && final(self).progress is None
                    && final(self).rate is None && final(self).eta is None
                    && final(self).rolling_rate.samples().len() == 0,
                DownloaderMsg::Idle => final(self).state@ == "Idle"@ && final(self).progress is None
                    && final(self).title is None && final(self).rate is None && final(self).rate_h is None
                    && final(self).eta is None && final(self).rolling_rate.samples().len() == 0,
                DownloaderMsg::Hold(r) => final(self).state@ == "Holding: "@ + r@
                    && final(self).rate is None && final(self).eta is None
                    && final(self).progress == old(self).progress
                    && final(self).rolling_rate.samples().len() == 0,
                DownloaderMsg::QueueUpdate(q) => final(self).queue == q && final(self).state == old(self).state
                    && final(self).rate == old(self).rate && final(self).progress == old(self).progress,
            },
            final(self).rolling_rate.min() == old(self).rolling_rate.min(),
            final(self).rolling_rate.max() == old(self).rolling_rate.max(),
    {
        proof {
            reveal_strlit("Starting");
            reveal_strlit("Downloading");
            reveal_strlit("Stuck");
            reveal_strlit("Idle");
            reveal_strlit("Holding: ");
        }
        match msg {
            DownloaderMsg::Starting(t) => {
                self.state = "Starting".to_owned();
                self.title = t;
            },
            DownloaderMsg::Downloading { downloaded_bytes, total_bytes, frag_index, frag_count } => {
                let p = DownloaderMsg::Downloading { downloaded_bytes, total_bytes, frag_index, frag_count }.progress();
                self.rolling_rate.push(now, downloaded_bytes);
                self.rate = self.rolling_rate.rate(now);
                self.state = "Downloading".to_owned();
                self.progress = p;
                self.total_bytes = total_bytes;
                self.downloaded_bytes = downloaded_bytes;
                self.calculate();
            },
            DownloaderMsg::Moved(_) => {
                self.clear_rate();
            },
            DownloaderMsg::Stuck => {
                self.state = "Stuck".to_owned();
                self.progress = None;
                self.clear_rate();
            },
            DownloaderMsg::Idle => {
                self.state = "Idle".to_owned();
                self.progress = None;
                self.title = None;
                self.clear_rate();
            },
            DownloaderMsg::Hold(reason) => {
                self.state = join("Holding: ".to_owned(), reason.as_str());
                self.clear_rate();
            },
            DownloaderMsg::QueueUpdate(urls) => {
                self.queue = urls;
            },
        }
    }
}

} // verus!
