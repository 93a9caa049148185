//! Saving a stream with ffmpeg: its command line, reading its progress output, and
//! what each turn of its run means.
use vstd::prelude::*;

use crate::config::Downloaders;
use crate::download::retry::{Outcome, MAX_ATTEMPTS};
use crate::download::Status;
use crate::error::DownloaderError;
use crate::paths::{with_added_extension, with_added_extension_spec};
use crate::text::{chars_of, decimal, parse_u64_spec, push_chars, push_decimal, parse_u64};

verus! {

/// Seconds without output after which ffmpeg is stopped.
pub const EXTERNAL_IDLE_TIMEOUT_SECS: u64 = 60;

/// The downloader that runs ffmpeg.
#[derive(Debug, Clone, Copy)]
pub struct FfmpegDownloader;

pub open spec fn string_views(v: Seq<String>) -> Seq<Seq<char>> {
    v.map_values(|s: String| s@)
}

/// The arguments ffmpeg is run with to copy `input` into `path` in `format`, writing its
/// progress to standard output.
pub open spec fn ffmpeg_args_spec(input: Seq<char>, format: Seq<char>, path: Seq<char>) -> Seq<Seq<char>> {
    seq![
        "-timeout"@, "30000000"@,
        "-reconnect"@, "1"@,
        "-reconnect_streamed"@, "1"@,
        "-reconnect_delay_max"@, "5"@,
        "-loglevel"@, "error"@,
        "-i"@, input,
        "-c"@, "copy"@,
        "-f"@, format,
        "-progress"@, "pipe:1"@,
        path,
    ]
}

fn push_str(v: &mut Vec<String>, s: &str)
    ensures
        string_views(final(v)@) == string_views(old(v)@).push(s@),
{
    let ghost before = v@;
    v.push(String::from_str(s));
    assert(string_views(v@) =~= string_views(before).push(s@));
}

impl FfmpegDownloader {
    /// The arguments ffmpeg is run with.
    pub fn args(input: &str, format: &str, path: &str) -> (r: Vec<String>)
        ensures
            string_views(r@) == ffmpeg_args_spec(input@, format@, path@),
    {
        let mut v: Vec<String> = Vec::new();
        push_str(&mut v, "-timeout");
        push_str(&mut v, "30000000");
        push_str(&mut v, "-reconnect");
        push_str(&mut v, "1");
        push_str(&mut v, "-reconnect_streamed");
        push_str(&mut v, "1");
        push_str(&mut v, "-reconnect_delay_max");
        push_str(&mut v, "5");
        push_str(&mut v, "-loglevel");
        push_str(&mut v, "error");
        push_str(&mut v, "-i");
        push_str(&mut v, input);
        push_str(&mut v, "-c");
        push_str(&mut v, "copy");
        push_str(&mut v, "-f");
        push_str(&mut v, format);
        push_str(&mut v, "-progress");
        push_str(&mut v, "pipe:1");
        push_str(&mut v, path);
        assert(string_views(v@) =~= ffmpeg_args_spec(input@, format@, path@));
        v
    }

    /// Where a download into `location` is written while it runs (`.tmp` added) and where
    /// it is moved when it succeeds (`.mp4` added).
    pub fn targets(location: &str) -> (r: (String, String))
        ensures
            r.0@ == with_added_extension_spec(location@, "tmp"@),
            r.1@ == with_added_extension_spec(location@, "mp4"@),
    {
        (with_added_extension(location, "tmp"), with_added_extension(location, "mp4"))
    }
}

/// The key of ffmpeg's progress line that gives the time written so far.
pub open spec fn out_time_tag() -> Seq<char> {
    seq!['o', 'u', 't', '_', 't', 'i', 'm', 'e', '_', 'm', 's', '=']
}

/// The seconds written so far, from an `out_time_ms=` line (whose value ffmpeg gives
/// in microseconds); nothing for other lines or a value that is not a `u64`.
pub open spec fn progress_seconds_spec(line: Seq<char>) -> Option<u64> {
    if line.len() >= 12 && line.take(12) == out_time_tag() {
        match parse_u64_spec(line.skip(12)) {
            Some(us) => Some(us / 1_000_000),
            None => None,
        }
    } else {
        None
    }
}

/// Every `u64` count of microseconds that ffmpeg prints after `out_time_ms=` is read
/// back whole, and gives the seconds it holds, rounded down.
pub proof fn lemma_progress_seconds_reads_u64(n: u64)
    ensures
        progress_seconds_spec(out_time_tag() + decimal(n as nat)) == Some(n / 1_000_000),
{
    let line = out_time_tag() + decimal(n as nat);
    crate::text::lemma_parse_decimal(n as nat, u64::MAX as nat);
    assert(line.take(12) =~= out_time_tag());
    assert(line.skip(12) =~= decimal(n as nat));
}

/// The seconds written so far, read from a line of ffmpeg's progress output.
pub fn progress_seconds(line: &str) -> (r: Option<u64>)
    ensures
        r == progress_seconds_spec(line@),
{
    let v = chars_of(line);
    if v.len() < 12 {
        return None;
    }
    let tag = ['o', 'u', 't', '_', 't', 'i', 'm', 'e', '_', 'm', 's', '='];
    let mut i: usize = 0;
    while i < 12
        invariant
            i <= 12,
            12 <= v@.len(),
            v@ == line@,
            tag@ == out_time_tag(),
            forall|j: int| 0 <= j < i ==> v@[j] == tag@[j],
        decreases 12 - i,
    {
        if v[i] != tag[i] {
            assert(v@.take(12)[i as int] != out_time_tag()[i as int]);
            return None;
        }
        i = i + 1;
    }
    assert(v@.take(12) =~= out_time_tag());
    let mut rest = String::new();
    let mut k: usize = 12;
    while k < v.len()
        invariant
            12 <= k <= v@.len(),
            rest@ == v@.subrange(12, k as int),
        decreases v@.len() - k,
    {
        push_chars(&mut rest, &[v[k]]);
        k = k + 1;
        assert(rest@ =~= v@.subrange(12, k as int));
    }
    assert(rest@ =~= v@.skip(12));
    match parse_u64(rest.as_str()) {
        Some(us) => Some(us / 1_000_000),
        None => None,
    }
}

/// What happened while waiting for ffmpeg's output.
#[derive(Debug)]
pub enum OutputEvent {
    /// A line was read.
    Line(String),
    /// The output ended.
    Closed,
    /// Reading the output failed.
    ReadFailed,
    /// Nothing came within `EXTERNAL_IDLE_TIMEOUT_SECS` seconds.
    Idle,
}

/// What to do about it.
#[derive(Debug)]
pub enum OutputAction {
    /// Report that this many seconds are written, then wait for more.
    Progress { seconds: u64 },
    /// Wait for more.
    Skip,
    /// Stop reading and wait for ffmpeg to exit.
    Finish,
    /// Fail with the read error.
    Fail,
    /// Stop ffmpeg and fail: it has been silent too long.
    StopIdle,
}

impl OutputAction {
    pub open spec fn answers(self, event: OutputEvent) -> bool {
        match event {
            OutputEvent::Line(l) => match progress_seconds_spec(l@) {
                Some(s) => self == OutputAction::Progress { seconds: s },
                None => self == OutputAction::Skip,
            },
            OutputEvent::Closed => self == OutputAction::Finish,
            OutputEvent::ReadFailed => self == OutputAction::Fail,
            OutputEvent::Idle => self == OutputAction::StopIdle,
        }
    }
}

/// Decides what an event of ffmpeg's run means.
pub fn on_output(event: &OutputEvent) -> (a: OutputAction)
    ensures
        a.answers(*event),
{
    match event {
        OutputEvent::Line(l) => match progress_seconds(l.as_str()) {
            Some(s) => OutputAction::Progress { seconds: s },
            None => OutputAction::Skip,
        },
        OutputEvent::Closed => OutputAction::Finish,
        OutputEvent::ReadFailed => OutputAction::Fail,
        OutputEvent::Idle => OutputAction::StopIdle,
    }
}

/// The error of a run stopped for silence.
pub fn idle_timeout_error() -> (e: DownloaderError)
    ensures
        e == (DownloaderError::Timeout {
            downloader: Downloaders::Ffmpeg,
            timeout: EXTERNAL_IDLE_TIMEOUT_SECS,
        }),
{
    DownloaderError::Timeout { downloader: Downloaders::Ffmpeg, timeout: EXTERNAL_IDLE_TIMEOUT_SECS }
}

/// How ffmpeg's exit ends the try: success, or a crash carrying what it wrote to its
/// error output.
pub fn exit_result(success: bool, stderr: String) -> (r: Result<(), DownloaderError>)
    ensures
        success ==> r is Ok,
        !success ==> r == Err::<(), DownloaderError>(
            DownloaderError::Crash { downloader: Downloaders::Ffmpeg, msg: stderr },
        ),
{
    if success {
        Ok(())
    } else {
        Err(DownloaderError::Crash { downloader: Downloaders::Ffmpeg, msg: stderr })
    }
}

/// `"{id} - попытка {attempt}/{MAX_ATTEMPTS}"`.
pub open spec fn attempt_text(id: Seq<char>, attempt: u32) -> Seq<char> {
    id + " - попытка "@ + decimal(attempt as nat) + "/"@ + decimal(MAX_ATTEMPTS as nat)
}

/// The report of a failed try.
pub fn attempt_message(id: &str, attempt: u32) -> (s: String)
    ensures
        s@ == attempt_text(id@, attempt),
{
    let mut s = String::from_str(id);
    s.append(" - попытка ");
    push_decimal(&mut s, attempt as u64);
    s.append("/");
    push_decimal(&mut s, MAX_ATTEMPTS as u64);
    s
}

/// The report of a finished download: `"Загружено: {filename}"`.
pub fn finished_message(filename: &str) -> (s: String)
    ensures
        s@ == "Загружено: "@ + filename@,
{
    let mut s = String::from_str("Загружено: ");
    s.append(filename);
    s
}

/// The error of a download whose directory could not be made.
pub fn create_dir_error(dir: &str) -> (e: DownloaderError)
    ensures
        e matches DownloaderError::Crash { downloader, msg } && downloader == Downloaders::Ffmpeg
            && msg@ == "Не удалось создать директорию "@ + dir@,
{
    let mut msg = String::from_str("Не удалось создать директорию ");
    msg.append(dir);
    DownloaderError::Crash { downloader: Downloaders::Ffmpeg, msg }
}

/// A progress report: whose download it is, what it says and its message.
#[derive(Debug)]
pub struct Report {
    pub id: String,
    pub status: Status,
    pub msg: String,
}

/// Where a download stands.
#[derive(Debug, Clone, Copy, PartialEq, Eq, Structural)]
pub enum Phase {
    /// Not started.
    Fresh,
    /// A try is running.
    Trying,
    /// Every try failed; the final report is still to be made.
    Failing,
    /// The final report is made; nothing follows it.
    Closed,
}

/// What follows the end of a try: the report to send now, then what to do (after a
/// pause when the try failed).
#[derive(Debug)]
pub struct Step {
    pub report: Report,
    pub next: crate::download::retry::Next,
}

/// The tries of one download and the progress reports they give. Every report carries the
/// download's id; exactly one final report (`Finished` or `Failed`) is made, and none
/// follows it.
pub struct DownloadRun {
    id: String,
    made: u32,
    phase: Phase,
    /// How the tries so far ended.
    outcomes: Ghost<Seq<Outcome>>,
    /// The failed-try and final reports made so far, as (status, message).
    reports: Ghost<Seq<(Status, Seq<char>)>>,
    /// The last error, once the final `Failed` report is made.
    error: Ghost<Seq<char>>,
}

/// The reports of a download whose tries, from try number `made` on, end as `rs`, and
/// whose last error reads `e`; each is a status and a message.
pub open spec fn trace(id: Seq<char>, made: nat, rs: Seq<Outcome>, e: Seq<char>) -> Seq<(Status, Seq<char>)>
    decreases rs.len(),
{
    if rs.len() == 0 {
        Seq::empty()
    } else if rs[0] == Outcome::Succeeded {
        seq![(Status::Finished, "Загружено: "@ + id)]
    } else if made < MAX_ATTEMPTS {
        seq![(Status::FailAttempt, attempt_text(id, made as u32))] + trace(
            id,
            made + 1,
            rs.drop_first(),
            e,
        )
    } else {
        seq![(Status::FailAttempt, attempt_text(id, made as u32)), (Status::Failed, e)]
    }
}

pub open spec fn is_final(s: Status) -> bool {
    s == Status::Finished || s == Status::Failed
}

/// The part of `trace` that the try number `n` adds when it ends as `o`.
pub open spec fn trace_tail(id: Seq<char>, n: nat, o: Outcome, e: Seq<char>) -> Seq<(Status, Seq<char>)> {
    if o == Outcome::Succeeded {
        seq![(Status::Finished, "Загружено: "@ + id)]
    } else if n < MAX_ATTEMPTS {
        seq![(Status::FailAttempt, attempt_text(id, n as u32))]
    } else {
        seq![(Status::FailAttempt, attempt_text(id, n as u32)), (Status::Failed, e)]
    }
}

pub open spec fn all_failed(rs: Seq<Outcome>) -> bool {
    forall|j: int| 0 <= j < rs.len() ==> #[trigger] rs[j] == Outcome::Failed
}

/// The reports of failed tries that went on to another one do not depend on the last error,
/// and one more try adds its part at the end.
proof fn lemma_trace_push(id: Seq<char>, m: nat, rs: Seq<Outcome>, o: Outcome, e: Seq<char>, e2: Seq<char>)
    requires
        1 <= m,
        m + rs.len() <= MAX_ATTEMPTS,
        all_failed(rs),
    ensures
        trace(id, m, rs, e) == trace(id, m, rs, e2),
        trace(id, m, rs.push(o), e) == trace(id, m, rs, e) + trace_tail(id, m + rs.len(), o, e),
        forall|i: int| 0 <= i < trace(id, m, rs, e).len() ==> #[trigger] trace(id, m, rs, e)[i].0
            == Status::FailAttempt,
    decreases rs.len(),
{
    if rs.len() == 0 {
        let t = trace(id, m, rs.push(o), e);
        assert(rs.push(o)[0] == o);
        assert(rs.push(o).drop_first() =~= Seq::<Outcome>::empty());
        if o == Outcome::Failed && m < MAX_ATTEMPTS {
            assert(trace(id, m + 1, Seq::<Outcome>::empty(), e) == Seq::<(Status, Seq<char>)>::empty());
            assert(t =~= trace_tail(id, m, o, e));
        }
        assert(trace(id, m, rs, e) + trace_tail(id, m, o, e) =~= trace_tail(id, m, o, e));
    } else {
        let r = rs.drop_first();
        assert(rs[0] == Outcome::Failed);
        assert(all_failed(r)) by {
            assert forall|j: int| 0 <= j < r.len() implies #[trigger] r[j] == Outcome::Failed by {
                assert(r[j] == rs[j + 1]);
            }
        }
        lemma_trace_push(id, m + 1, r, o, e, e2);
        assert(rs.push(o).drop_first() =~= r.push(o));
        assert(rs.push(o)[0] == Outcome::Failed);
        let head = seq![(Status::FailAttempt, attempt_text(id, m as u32))];
        assert(trace(id, m, rs.push(o), e) == head + trace(id, m + 1, r.push(o), e));
        assert(head + (trace(id, m + 1, r, e) + trace_tail(id, m + 1 + r.len(), o, e)) =~= (head
            + trace(id, m + 1, r, e)) + trace_tail(id, m + rs.len(), o, e));
        let t = trace(id, m, rs, e);
        assert forall|i: int| 0 <= i < t.len() implies #[trigger] t[i].0 == Status::FailAttempt by {
            if i > 0 {
                assert(t[i] == trace(id, m + 1, r, e)[i - 1]);
            }
        }
    }
}

impl DownloadRun {
    /// The machine's state is consistent: the reports made so far are those `trace` gives
    /// for the tries so far (without the final one while it is still to be made).
    pub closed spec fn wf(self) -> bool {
        let rs = self.outcomes@;
        let id = self.id@;
        &&& self.made <= MAX_ATTEMPTS
        &&& rs.len() <= MAX_ATTEMPTS
        &&& self.phase == Phase::Fresh ==> rs.len() == 0 && self.reports@.len() == 0
        &&& self.phase == Phase::Trying ==> {
            &&& self.made >= 1
            &&& rs.len() == self.made - 1
            &&& all_failed(rs)
            &&& self.reports@ == trace(id, 1, rs, Seq::empty())
        }
        &&& self.phase == Phase::Failing ==> {
            &&& self.made == MAX_ATTEMPTS
            &&& rs.len() == MAX_ATTEMPTS
            &&& all_failed(rs)
            &&& self.reports@ == trace(id, 1, rs, Seq::empty()).drop_last()
        }
        &&& self.phase == Phase::Closed ==> {
            &&& rs.len() >= 1
            &&& all_failed(rs.drop_last())
            &&& (rs.last() == Outcome::Succeeded || rs.len() == MAX_ATTEMPTS)
            &&& self.reports@ == trace(id, 1, rs, self.error@)
        }
    }

    pub closed spec fn id(self) -> Seq<char> {
        self.id@
    }

    /// Tries made so far.
    pub closed spec fn made(self) -> nat {
        self.made as nat
    }

    pub closed spec fn phase(self) -> Phase {
        self.phase
    }

    /// How the tries so far ended.
    pub closed spec fn outcomes(self) -> Seq<Outcome> {
        self.outcomes@
    }

    /// The failed-try and final reports made so far, as (status, message).
    pub closed spec fn reports(self) -> Seq<(Status, Seq<char>)> {
        self.reports@
    }

    /// A download of `id`, not started.
    pub fn new(id: String) -> (r: DownloadRun)
        ensures
            r.wf(),
            r.id() == id@,
            r.made() == 0,
            r.phase() == Phase::Fresh,
            r.outcomes() == Seq::<Outcome>::empty(),
            r.reports() == Seq::<(Status, Seq<char>)>::empty(),
    {
        DownloadRun {
            id,
            made: 0,
            phase: Phase::Fresh,
            outcomes: Ghost(Seq::empty()),
            reports: Ghost(Seq::empty()),
            error: Ghost(Seq::empty()),
        }
    }

    /// Starts the first try (once).
    pub fn start(&mut self) -> (a: Option<u32>)
        requires
            old(self).wf(),
        ensures
            final(self).wf(),
            final(self).id() == old(self).id(),
            final(self).outcomes() == old(self).outcomes(),
            final(self).reports() == old(self).reports(),
            old(self).phase() == Phase::Fresh ==> a == Some(1u32) && final(self).made() == 1
                && final(self).phase() == Phase::Trying,
            old(self).phase() != Phase::Fresh ==> a is None && final(self).made() == old(self).made()
                && final(self).phase() == old(self).phase(),
    {
        if self.phase == Phase::Fresh {
            self.made = 1;
            self.phase = Phase::Trying;
            proof {
                assert(all_failed(self.outcomes@));
                assert(self.reports@ =~= Seq::<(Status, Seq<char>)>::empty());
                assert(trace(self.id@, 1, self.outcomes@, Seq::empty()) == Seq::<(Status, Seq<char>)>::empty());
            }
            Some(1)
        } else {
            None
        }
    }

    /// The report of progress within a try: `Downloading`, its message the id.
    pub fn progress_report(&self) -> (r: Option<Report>)
        ensures
            self.phase() == Phase::Trying ==> (r matches Some(rep) && rep.id@ == self.id()
                && rep.status == Status::Downloading && rep.msg@ == self.id()),
            self.phase() != Phase::Trying ==> r is None,
    {
        if self.phase == Phase::Trying {
            Some(
                Report {
                    id: String::from_str(self.id.as_str()),
                    status: Status::Downloading,
                    msg: String::from_str(self.id.as_str()),
                },
            )
        } else {
            None
        }
    }

    /// Records how the running try ended: the report to send and what follows. A success
    /// is reported `Finished` and ends the download; a failure is reported with its number
    /// and leads to the next try, or after `MAX_ATTEMPTS` of them to giving up. Outside a
    /// try nothing is reported and nothing changes.
    pub fn record(&mut self, outcome: Outcome) -> (s: Option<Step>)
        requires
            old(self).wf(),
        ensures
            final(self).wf(),
            final(self).id() == old(self).id(),
            old(self).phase() != Phase::Trying ==> s is None && final(self).made() == old(self).made()
                && final(self).phase() == old(self).phase() && final(self).outcomes() == old(self).outcomes()
                && final(self).reports() == old(self).reports(),
            old(self).phase() == Phase::Trying ==> (s matches Some(st) && st.report.id@ == old(self).id()
                && final(self).outcomes() == old(self).outcomes().push(outcome)
                && final(self).reports() == old(self).reports().push((st.report.status, st.report.msg@))
                && {
                &&& outcome == Outcome::Succeeded ==> {
                    &&& st.report.status == Status::Finished
                    &&& st.report.msg@ == "Загружено: "@ + old(self).id()
                    &&& st.next == crate::download::retry::Next::Done
                    &&& final(self).phase() == Phase::Closed
                    &&& final(self).made() == old(self).made()
                }
                &&& outcome == Outcome::Failed ==> {
                    &&& st.report.status == Status::FailAttempt
                    &&& st.report.msg@ == attempt_text(old(self).id(), old(self).made() as u32)
                    &&& old(self).made() < MAX_ATTEMPTS ==> st.next == (crate::download::retry::Next::Run {
                        attempt: (old(self).made() + 1) as u32,
                    }) && final(self).made() == old(self).made() + 1 && final(self).phase()
                        == Phase::Trying
                    &&& old(self).made() >= MAX_ATTEMPTS ==> st.next
                        == crate::download::retry::Next::GiveUp && final(self).made() == old(self).made()
                        && final(self).phase() == Phase::Failing
                }
            }),
    {
        if self.phase != Phase::Trying {
            return None;
        }
        let ghost id = self.id@;
        let ghost rs = self.outcomes@;
        let ghost m = self.made as nat;
        proof {
            lemma_trace_push(id, 1, rs, outcome, Seq::empty(), Seq::empty());
            assert(1 + rs.len() == m);
        }
        let rid = String::from_str(self.id.as_str());
        self.outcomes = Ghost(rs.push(outcome));
        match outcome {
            Outcome::Succeeded => {
                self.phase = Phase::Closed;
                let msg = finished_message(self.id.as_str());
                proof {
                    self.reports@ = self.reports@.push((Status::Finished, msg@));
                    assert(rs.push(outcome).drop_last() =~= rs);
                    lemma_trace_push(id, 1, rs, outcome, self.error@, Seq::empty());
                    assert(self.reports@ =~= trace(id, 1, rs.push(outcome), self.error@));
                }
                Some(
                    Step {
                        report: Report { id: rid, status: Status::Finished, msg },
                        next: crate::download::retry::Next::Done,
                    },
                )
            },
            Outcome::Failed => {
                let msg = attempt_message(self.id.as_str(), self.made);
                proof {
                    self.reports@ = self.reports@.push((Status::FailAttempt, msg@));
                    assert(all_failed(rs.push(outcome))) by {
                        assert forall|j: int| 0 <= j < rs.push(outcome).len() implies #[trigger] rs.push(outcome)[j] == Outcome::Failed by {
                            if j < rs.len() {
                                assert(rs.push(outcome)[j] == rs[j]);
                            }
                        }
                    }
                }
                let report = Report { id: rid, status: Status::FailAttempt, msg };
                if self.made < MAX_ATTEMPTS {
                    self.made = self.made + 1;
                    proof {
                        assert(self.reports@ =~= trace(id, 1, rs.push(outcome), Seq::empty()));
                    }
                    Some(
                        Step {
                            report,
                            next: crate::download::retry::Next::Run { attempt: self.made },
                        },
                    )
                } else {
                    self.phase = Phase::Failing;
                    proof {
                        let tail = trace_tail(id, m, outcome, Seq::empty());
                        assert(trace(id, 1, rs, Seq::empty()) + tail
                            == trace(id, 1, rs.push(outcome), Seq::empty()));
                        assert((trace(id, 1, rs, Seq::empty()) + tail).drop_last()
                            =~= trace(id, 1, rs, Seq::empty()).push(tail[0]));
                    }
                    Some(Step { report, next: crate::download::retry::Next::GiveUp })
                }
            },
        }
    }

    /// The final report of a download whose tries all failed: `Failed`, its message the
    /// last error. Made once, after giving up; nothing otherwise.
    pub fn give_up(&mut self, last_error: String) -> (r: Option<Report>)
        requires
            old(self).wf(),
        ensures
            final(self).wf(),
            final(self).id() == old(self).id(),
            final(self).made() == old(self).made(),
            final(self).outcomes() == old(self).outcomes(),
            old(self).phase() == Phase::Failing ==> (r matches Some(rep) && rep.id@ == old(self).id()
                && rep.status == Status::Failed && rep.msg == last_error) && final(self).phase()
                == Phase::Closed && final(self).reports() == old(self).reports().push(
                (Status::Failed, last_error@),
            ),
            old(self).phase() != Phase::Failing ==> r is None && final(self).phase() == old(self).phase()
                && final(self).reports() == old(self).reports(),
    {
        if self.phase == Phase::Failing {
            let ghost id = self.id@;
            let ghost rs = self.outcomes@;
            proof {
                let k = (rs.len() - 1) as int;
                let front = rs.take(k);
                assert(rs =~= front.push(rs[k]));
                assert(all_failed(front)) by {
                    assert forall|j: int| 0 <= j < front.len() implies #[trigger] front[j] == Outcome::Failed by {
                        assert(front[j] == rs[j]);
                    }
                }
                assert(rs[k] == Outcome::Failed);
                lemma_trace_push(id, 1, front, rs[k], last_error@, Seq::empty());
                lemma_trace_push(id, 1, front, rs[k], Seq::empty(), last_error@);
                let t0 = trace(id, 1, front, Seq::empty());
                let fa = (Status::FailAttempt, attempt_text(id, MAX_ATTEMPTS));
                assert(trace(id, 1, rs, Seq::empty()) == t0 + seq![fa, (Status::Failed, Seq::<char>::empty())]);
                assert(trace(id, 1, rs, last_error@) == t0 + seq![fa, (Status::Failed, last_error@)]);
                assert((t0 + seq![fa, (Status::Failed, Seq::<char>::empty())]).drop_last() =~= t0.push(fa));
                assert(t0.push(fa).push((Status::Failed, last_error@)) =~= t0 + seq![fa, (Status::Failed, last_error@)]);
                assert(rs.drop_last() =~= front);
                self.reports@ = self.reports@.push((Status::Failed, last_error@));
                self.error@ = last_error@;
            }
            self.phase = Phase::Closed;
            Some(
                Report {
                    id: String::from_str(self.id.as_str()),
                    status: Status::Failed,
                    msg: last_error,
                },
            )
        } else {
            None
        }
    }
}

/// What a download's reports are, at every point of its run: until the download closes,
/// none of them is final; once it has closed, every report but the last is a failed try,
/// the last is the one final report, `Finished` exactly when a try succeeded and `Failed`
/// exactly when all `MAX_ATTEMPTS` tries failed. (Once closed, the machine makes no more
/// reports: see `record`, `give_up` and `progress_report`.)
pub proof fn lemma_run_reports(run: DownloadRun)
    requires
        run.wf(),
    ensures
        run.phase() != Phase::Closed ==> forall|i: int|
            0 <= i < run.reports().len() ==> !is_final(#[trigger] run.reports()[i].0),
        run.phase() == Phase::Closed ==> {
            let t = run.reports();
            let rs = run.outcomes();
            &&& t.len() > 0
            &&& forall|i: int| 0 <= i < t.len() - 1 ==> #[trigger] t[i].0 == Status::FailAttempt
            &&& is_final(t.last().0)
            &&& (t.last().0 == Status::Finished <==> exists|j: int|
                0 <= j < rs.len() && #[trigger] rs[j] == Outcome::Succeeded)
            &&& (t.last().0 == Status::Failed <==> rs.len() == MAX_ATTEMPTS && all_failed(rs))
        },
{
    let rs = run.outcomes@;
    let id = run.id@;
    match run.phase {
        Phase::Fresh => {},
        Phase::Trying => {
            lemma_trace_push(id, 1, rs, Outcome::Failed, Seq::empty(), Seq::empty());
        },
        Phase::Failing => {
            let k = (rs.len() - 1) as int;
            let front = rs.take(k);
            assert(rs =~= front.push(rs[k]));
            assert(all_failed(front)) by {
                assert forall|j: int| 0 <= j < front.len() implies #[trigger] front[j] == Outcome::Failed by {
                    assert(front[j] == rs[j]);
                }
            }
            lemma_trace_push(id, 1, front, rs[k], Seq::empty(), Seq::empty());
            let t0 = trace(id, 1, front, Seq::empty());
            let fa = (Status::FailAttempt, attempt_text(id, MAX_ATTEMPTS));
            assert(trace(id, 1, rs, Seq::empty()).drop_last() =~= t0.push(fa));
            assert forall|i: int| 0 <= i < run.reports().len() implies !is_final(#[trigger] run.reports()[i].0) by {
                if i < t0.len() {
                    assert(run.reports()[i] == t0[i]);
                }
            }
        },
        Phase::Closed => {
            let e = run.error@;
            let k = (rs.len() - 1) as int;
            let front = rs.take(k);
            assert(rs =~= front.push(rs[k]));
            assert(front =~= rs.drop_last());
            lemma_trace_push(id, 1, front, rs[k], e, Seq::empty());
            lemma_one_final_report(id, 1, rs, e);
            let t = run.reports();
            if rs[k] == Outcome::Succeeded {
                assert(t.last().0 == Status::Finished);
            } else {
                assert(rs.len() == MAX_ATTEMPTS);
                assert(all_failed(rs)) by {
                    assert forall|j: int| 0 <= j < rs.len() implies #[trigger] rs[j] == Outcome::Failed by {
                        if j < k {
                            assert(rs[j] == front[j]);
                        }
                    }
                }
                assert(t.last().0 == Status::Failed);
                assert forall|j: int| 0 <= j < rs.len() implies #[trigger] rs[j] != Outcome::Succeeded by {}
            }
            if t.last().0 == Status::Failed {
                assert forall|j: int| 0 <= j < rs.len() implies #[trigger] rs[j] == Outcome::Failed by {
                    assert(0 <= j <= MAX_ATTEMPTS - 1);
                }
            }
        },
    }
}

/// The reports of a download, from its try number `made` on: every report but the last is
/// a failed try; the last is `Finished` exactly when one of the remaining allowed tries
/// succeeds, and `Failed` exactly when all of them fail; so once the download stops,
/// exactly one final report is made and it is the last one.
pub proof fn lemma_one_final_report(id: Seq<char>, made: nat, rs: Seq<Outcome>, e: Seq<char>)
    requires
        1 <= made <= MAX_ATTEMPTS,
    ensures
        forall|i: int|
            0 <= i < trace(id, made, rs, e).len() - 1 ==> #[trigger] trace(id, made, rs, e)[i].0
                == Status::FailAttempt,
        (trace(id, made, rs, e).len() > 0 && trace(id, made, rs, e).last().0 == Status::Finished)
            <==> exists|j: int|
            0 <= j < rs.len() && made + j <= MAX_ATTEMPTS && #[trigger] rs[j]
                == Outcome::Succeeded,
        (trace(id, made, rs, e).len() > 0 && trace(id, made, rs, e).last().0 == Status::Failed)
            <==> (rs.len() > MAX_ATTEMPTS - made && forall|j: int|
            0 <= j <= MAX_ATTEMPTS - made ==> #[trigger] rs[j] == Outcome::Failed),
        trace(id, made, rs, e).len() <= MAX_ATTEMPTS - made + 2,
    decreases rs.len(),
{
    let t = trace(id, made, rs, e);
    if rs.len() == 0 {
    } else if rs[0] == Outcome::Succeeded {
        assert(rs[0] == Outcome::Succeeded);
        if rs.len() > MAX_ATTEMPTS - made {
            assert(rs[0] != Outcome::Failed);
        }
    } else if made < MAX_ATTEMPTS {
        let r = rs.drop_first();
        lemma_one_final_report(id, made + 1, r, e);
        let t2 = trace(id, made + 1, r, e);
        let head = seq![(Status::FailAttempt, attempt_text(id, made as u32))];
        assert(t == head + t2);
        assert forall|i: int| 0 <= i < t.len() - 1 implies #[trigger] t[i].0 == Status::FailAttempt by {
            if i > 0 {
                assert(t[i] == t2[i - 1]);
            }
        }
        if t2.len() > 0 {
            assert(t.last() == t2.last());
        }
        // a success among the remaining tries
        if exists|j: int| 0 <= j < rs.len() && made + j <= MAX_ATTEMPTS && #[trigger] rs[j] == Outcome::Succeeded {
            let j = choose|j: int| 0 <= j < rs.len() && made + j <= MAX_ATTEMPTS && #[trigger] rs[j] == Outcome::Succeeded;
            assert(j > 0);
            assert(r[j - 1] == rs[j]);
        }
        if exists|j: int| 0 <= j < r.len() && made + 1 + j <= MAX_ATTEMPTS && #[trigger] r[j] == Outcome::Succeeded {
            let j = choose|j: int| 0 <= j < r.len() && made + 1 + j <= MAX_ATTEMPTS && #[trigger] r[j] == Outcome::Succeeded;
            assert(rs[j + 1] == r[j]);
        }
        // all remaining tries fail
        if rs.len() > MAX_ATTEMPTS - made && forall|j: int| 0 <= j <= MAX_ATTEMPTS - made ==> #[trigger] rs[j] == Outcome::Failed {
            assert forall|j: int| 0 <= j <= MAX_ATTEMPTS - (made + 1) implies #[trigger] r[j] == Outcome::Failed by {
                assert(r[j] == rs[j + 1]);
            }
        }
        if r.len() > MAX_ATTEMPTS - (made + 1) && forall|j: int| 0 <= j <= MAX_ATTEMPTS - (made + 1) ==> #[trigger] r[j] == Outcome::Failed {
            assert forall|j: int| 0 <= j <= MAX_ATTEMPTS - made implies #[trigger] rs[j] == Outcome::Failed by {
                if j > 0 {
                    assert(rs[j] == r[j - 1]);
                }
            }
        }
        if t2.len() == 0 {
            assert(r.len() == 0);
        }
    } else {
        assert(t.last().0 == Status::Failed);
        assert(made == MAX_ATTEMPTS);
    }
}

} // verus!
