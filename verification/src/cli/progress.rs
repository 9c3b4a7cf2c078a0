//! Waiting for the setup of a tunnel: which checkpoints have changed, which
//! keep waiting, and when the wait is over.
use vstd::prelude::*;

use crate::cli::output;
use crate::text;
use crate::tunnels::progress;
use crate::tunnels::progress::{
    ProgressStep, ProgressStepKind, ProgressStepModel, StepStatus, TunnelProgress,
    TunnelProgressModel,
};

verus! {

pub const NANOS_PER_SEC: u64 = 1_000_000_000;

/// How long to wait between two polls, in nanoseconds.
pub const POLL_NANOS: u64 = 250_000_000;

/// After how many seconds a waiting checkpoint is mentioned, and how many pass
/// until it is mentioned again.
pub const MENTION_SECS: u64 = 10;

/// What is remembered of a checkpoint between two polls.
#[derive(Debug, Clone, Copy, PartialEq, Eq, Structural)]
pub struct StepTrack {
    /// The status at the last poll.
    pub last: StepStatus,
    /// Whether it was pending then, ...
    pub pending: bool,
    /// ... and since when, in nanoseconds.
    pub since: u64,
    /// How many seconds it had waited when it was last mentioned, or 0.
    pub mentioned: u64,
}

/// What is worth saying after a poll, by the index of the checkpoint.
#[derive(Debug, Clone, Copy, PartialEq, Eq, Structural)]
pub enum Report {
    /// The checkpoint has a new status.
    Changed { index: usize, from: StepStatus },
    /// The checkpoint has waited for this long, in nanoseconds.
    Waiting { index: usize, elapsed: u64 },
}

/// Nothing is known of the checkpoint yet.
pub open spec fn untracked() -> StepTrack {
    StepTrack { last: StepStatus::Unknown, pending: false, since: 0, mentioned: 0 }
}

/// How long the checkpoint waits at the time `now`.
pub open spec fn waited(track: StepTrack, now: u64) -> u64 {
    if track.pending && track.since <= now {
        (now - track.since) as u64
    } else {
        0
    }
}

/// Whether the checkpoint, pending at the time `now`, is to be mentioned.
pub open spec fn is_due(track: StepTrack, now: u64) -> bool {
    let secs = waited(track, now) / NANOS_PER_SEC;
    secs >= MENTION_SECS && secs - track.mentioned >= MENTION_SECS
}

/// What is remembered after a poll that saw `status` at the time `now`.
pub open spec fn track_after(track: StepTrack, status: StepStatus, now: u64) -> StepTrack {
    if status is Pending {
        StepTrack {
            last: status,
            pending: true,
            since: if track.pending {
                track.since
            } else {
                now
            },
            mentioned: if is_due(track, now) {
                waited(track, now) / NANOS_PER_SEC
            } else {
                track.mentioned
            },
        }
    } else {
        StepTrack { last: status, ..untracked() }
    }
}

/// What is worth saying of the checkpoint at this index.
pub open spec fn reports_on(track: StepTrack, status: StepStatus, now: u64, index: usize) -> Seq<
    Report,
> {
    (if track.last != status {
        seq![Report::Changed { index, from: track.last }]
    } else {
        seq![]
    }) + (if status is Pending && is_due(track, now) {
        seq![Report::Waiting { index, elapsed: waited(track, now) }]
    } else {
        seq![]
    })
}

/// Where a checkpoint stands among all.
pub open spec fn kind_index(kind: ProgressStepKind) -> int {
    match kind {
        ProgressStepKind::ProxyAccepted => 0,
        ProgressStepKind::CertificatesReady => 1,
        ProgressStepKind::ConnectorReady => 2,
        ProgressStepKind::IrohDnsPublished => 3,
        ProgressStepKind::ProxyProgrammed => 4,
        ProgressStepKind::ConnectorMetadataProgrammed => 5,
    }
}

/// What is remembered after the first `n` of the polled checkpoints.
pub open spec fn tracks_after(
    tracks: Seq<StepTrack>,
    steps: Seq<ProgressStepModel>,
    now: u64,
    n: int,
) -> Seq<StepTrack>
    decreases n,
{
    if n <= 0 {
        tracks
    } else {
        let before = tracks_after(tracks, steps, now, n - 1);
        let step = steps[n - 1];
        before.update(
            kind_index(step.kind),
            track_after(before[kind_index(step.kind)], step.status, now),
        )
    }
}

/// What is worth saying of the first `n` of the polled checkpoints.
pub open spec fn reports_after(
    tracks: Seq<StepTrack>,
    steps: Seq<ProgressStepModel>,
    now: u64,
    n: int,
) -> Seq<Report>
    decreases n,
{
    if n <= 0 {
        seq![]
    } else {
        let before = tracks_after(tracks, steps, now, n - 1);
        let step = steps[n - 1];
        reports_after(tracks, steps, now, n - 1) + reports_on(
            before[kind_index(step.kind)],
            step.status,
            now,
            (n - 1) as usize,
        )
    }
}

/// How a poll ends.
#[derive(Debug, Clone, PartialEq, Eq)]
pub enum PollVerdict {
    /// The wait has failed.
    Failed { message: String },
    /// Every checkpoint is ready.
    Ready,
    /// The next poll comes after this many nanoseconds.
    Wait { nanos: u64 },
}

/// The model of a [`PollVerdict`].
#[verifier::ext_equal]
pub enum PollVerdictModel {
    Failed { message: Seq<char> },
    Ready,
    Wait { nanos: u64 },
}

impl DeepView for PollVerdict {
    type V = PollVerdictModel;

    open spec fn deep_view(&self) -> PollVerdictModel {
        match self {
            PollVerdict::Failed { message } => PollVerdictModel::Failed { message: message@ },
            PollVerdict::Ready => PollVerdictModel::Ready,
            PollVerdict::Wait { nanos } => PollVerdictModel::Wait { nanos: *nanos },
        }
    }
}

/// What the progress of a tunnel means for the wait.
pub open spec fn verdict_on(progress: TunnelProgressModel) -> PollVerdictModel {
    match progress.terminal_from(0) {
        Some(step) => PollVerdictModel::Failed { message: output::failure_text(step) },
        None => if progress.is_all_ready() {
            PollVerdictModel::Ready
        } else {
            PollVerdictModel::Wait { nanos: POLL_NANOS }
        },
    }
}

/// What a poll means for the wait. A tunnel that is gone, and a poll that
/// fails, end it.
pub open spec fn poll_verdict(
    tunnel_id: Seq<char>,
    reply: Result<Option<TunnelProgressModel>, Seq<char>>,
) -> PollVerdictModel {
    match reply {
        Err(e) => PollVerdictModel::Failed {
            message: "polling tunnel "@ + tunnel_id + " progress: "@ + e,
        },
        Ok(None) => PollVerdictModel::Failed {
            message: "Tunnel "@ + tunnel_id + " disappeared during setup"@,
        },
        Ok(Some(progress)) => verdict_on(progress),
    }
}

/// The model of the reply to a poll.
pub open spec fn poll_reply(reply: Result<Option<TunnelProgress>, String>) -> Result<
    Option<TunnelProgressModel>,
    Seq<char>,
> {
    match reply {
        Ok(progress) => Ok(progress.deep_view()),
        Err(e) => Err(e@),
    }
}

/// A wait for the setup of a tunnel.
pub struct ProgressWatch {
    tracks: [StepTrack; 6],
}

impl View for ProgressWatch {
    type V = Seq<StepTrack>;

    closed spec fn view(&self) -> Seq<StepTrack> {
        self.tracks@
    }
}

fn index_of(kind: ProgressStepKind) -> (r: usize)
    ensures
        r == kind_index(kind),
        r < 6,
{
    match kind {
        ProgressStepKind::ProxyAccepted => 0,
        ProgressStepKind::CertificatesReady => 1,
        ProgressStepKind::ConnectorReady => 2,
        ProgressStepKind::IrohDnsPublished => 3,
        ProgressStepKind::ProxyProgrammed => 4,
        ProgressStepKind::ConnectorMetadataProgrammed => 5,
    }
}

impl ProgressWatch {
    /// A wait that has polled nothing yet.
    pub fn new() -> (r: Self)
        ensures
            r@ == Seq::new(6, |i: int| untracked()),
    {
        let unseen = StepTrack {
            last: StepStatus::Unknown,
            pending: false,
            since: 0,
            mentioned: 0,
        };
        let r = ProgressWatch { tracks: [unseen; 6] };
        assert(r@ =~= Seq::new(6, |i: int| untracked()));
        r
    }

    fn track(&mut self, step: &ProgressStep, now: u64, index: usize) -> (r: Vec<Report>)
        ensures
            final(self)@ == old(self)@.update(
                kind_index(step.kind),
                track_after(old(self)@[kind_index(step.kind)], step.status, now),
            ),
            r@ == reports_on(old(self)@[kind_index(step.kind)], step.status, now, index),
    {
        let k: usize = index_of(step.kind);
        let track = self.tracks[k];
        let mut out: Vec<Report> = Vec::new();
        if track.last != step.status {
            out.push(Report::Changed { index, from: track.last });
        }
        if step.status == StepStatus::Pending {
            let elapsed: u64 = if track.pending && track.since <= now {
                now - track.since
            } else {
                0
            };
            let secs: u64 = elapsed / NANOS_PER_SEC;
            let mut mentioned: u64 = track.mentioned;
            if secs >= MENTION_SECS && secs >= track.mentioned && secs - track.mentioned
                >= MENTION_SECS {
                out.push(Report::Waiting { index, elapsed });
                mentioned = secs;
            }
            self.tracks[k] = StepTrack {
                last: step.status,
                pending: true,
                since: if track.pending {
                    track.since
                } else {
                    now
                },
                mentioned,
            };
        } else {
            self.tracks[k] = StepTrack {
                last: step.status,
                pending: false,
                since: 0,
                mentioned: 0,
            };
        }
        assert(out@ =~= reports_on(track, step.status, now, index));
        out
    }

    /// What a poll at the time `now`, in nanoseconds, shows and means.
    pub fn on_poll(
        &mut self,
        tunnel_id: &str,
        reply: &Result<Option<TunnelProgress>, String>,
        now: u64,
    ) -> (r: (Vec<Report>, PollVerdict))
        ensures
            r.1.deep_view() == poll_verdict(tunnel_id@, poll_reply(*reply)),
            match poll_reply(*reply) {
                Ok(Some(progress)) => {
                    &&& final(self)@ == tracks_after(
                        old(self)@,
                        progress.steps,
                        now,
                        progress.steps.len() as int,
                    )
                    &&& r.0@ == reports_after(
                        old(self)@,
                        progress.steps,
                        now,
                        progress.steps.len() as int,
                    )
                },
                _ => final(self)@ == old(self)@ && r.0@.len() == 0,
            },
    {
        let progress = match reply {
            Err(e) => {
                let mut message = text::concat3("polling tunnel ", tunnel_id, " progress: ");
                message.append(e);
                return (Vec::new(), PollVerdict::Failed { message });
            },
            Ok(None) => {
                return (
                    Vec::new(),
                    PollVerdict::Failed {
                        message: text::concat3("Tunnel ", tunnel_id, " disappeared during setup"),
                    },
                );
            },
            Ok(Some(progress)) => progress,
        };
        let ghost steps = progress.deep_view().steps;
        let mut out: Vec<Report> = Vec::new();
        let mut i: usize = 0;
        while i < progress.steps.len()
            invariant
                i <= progress.steps@.len(),
                steps == progress.deep_view().steps,
                steps.len() == progress.steps@.len(),
                self@ == tracks_after(old(self)@, steps, now, i as int),
                out@ == reports_after(old(self)@, steps, now, i as int),
            decreases progress.steps@.len() - i,
        {
            assert(steps[i as int] == progress.steps@[i as int].deep_view());
            let mut reports = self.track(&progress.steps[i], now, i);
            out.append(&mut reports);
            i = i + 1;
        }
        let verdict = match progress.terminal_failure() {
            Some(step) => PollVerdict::Failed { message: output::format_terminal_failure(step) },
            None => if progress.all_ready() {
                PollVerdict::Ready
            } else {
                PollVerdict::Wait { nanos: POLL_NANOS }
            },
        };
        (out, verdict)
    }
}

// ---------------------------------------------------------------------------
// Laws
// ---------------------------------------------------------------------------
/// No checkpoint occurs twice.
pub open spec fn distinct_kinds(steps: Seq<ProgressStepModel>) -> bool {
    forall|i: int, j: int|
        0 <= i < j < steps.len() ==> (#[trigger] steps[i]).kind != (#[trigger] steps[j]).kind
}

proof fn lemma_tracks_len(tracks: Seq<StepTrack>, steps: Seq<ProgressStepModel>, now: u64, n: int)
    requires
        tracks.len() == 6,
    ensures
        tracks_after(tracks, steps, now, n).len() == tracks.len(),
    decreases n,
{
    if n > 0 {
        lemma_tracks_len(tracks, steps, now, n - 1);
    }
}

proof fn lemma_last_is_remembered(
    tracks: Seq<StepTrack>,
    steps: Seq<ProgressStepModel>,
    now: u64,
    n: int,
    k: int,
)
    requires
        tracks.len() == 6,
        distinct_kinds(steps),
        0 <= k < n <= steps.len(),
    ensures
        tracks_after(tracks, steps, now, n)[kind_index(steps[k].kind)].last == steps[k].status,
    decreases n,
{
    lemma_tracks_len(tracks, steps, now, n - 1);
    if k < n - 1 {
        lemma_last_is_remembered(tracks, steps, now, n - 1, k);
        assert(steps[k].kind != steps[n - 1].kind);
    }
}

proof fn lemma_untouched(
    tracks: Seq<StepTrack>,
    steps: Seq<ProgressStepModel>,
    now: u64,
    n: int,
    k: int,
)
    requires
        tracks.len() == 6,
        distinct_kinds(steps),
        0 <= n <= k < steps.len(),
    ensures
        tracks_after(tracks, steps, now, n)[kind_index(steps[k].kind)] == tracks[kind_index(
            steps[k].kind,
        )],
    decreases n,
{
    if n > 0 {
        lemma_tracks_len(tracks, steps, now, n - 1);
        lemma_untouched(tracks, steps, now, n - 1, k);
        assert(steps[n - 1].kind != steps[k].kind);
    }
}

proof fn lemma_no_change(
    tracks: Seq<StepTrack>,
    steps: Seq<ProgressStepModel>,
    now: u64,
    n: int,
    i: int,
)
    requires
        tracks.len() == 6,
        distinct_kinds(steps),
        0 <= n <= steps.len(),
        forall|k: int|
            0 <= k < steps.len() ==> tracks[kind_index((#[trigger] steps[k]).kind)].last
                == steps[k].status,
        0 <= i < reports_after(tracks, steps, now, n).len(),
    ensures
        reports_after(tracks, steps, now, n)[i] is Waiting,
    decreases n,
{
    if n > 0 {
        let before = reports_after(tracks, steps, now, n - 1);
        lemma_untouched(tracks, steps, now, n - 1, n - 1);
        if i < before.len() {
            lemma_no_change(tracks, steps, now, n - 1, i);
        }
    }
}

/// A change is reported once: a second poll that sees the same progress reports
/// none.
pub proof fn changes_are_reported_once(
    tracks: Seq<StepTrack>,
    steps: Seq<ProgressStepModel>,
    first: u64,
    second: u64,
    i: int,
)
    requires
        tracks.len() == 6,
        distinct_kinds(steps),
    ensures
        ({
            let n = steps.len() as int;
            let again = reports_after(tracks_after(tracks, steps, first, n), steps, second, n);
            0 <= i < again.len() ==> again[i] is Waiting
        }),
{
    let n = steps.len() as int;
    let after = tracks_after(tracks, steps, first, n);
    lemma_tracks_len(tracks, steps, first, n);
    assert forall|k: int| 0 <= k < steps.len() implies after[kind_index(
        (#[trigger] steps[k]).kind,
    )].last == steps[k].status by {
        lemma_last_is_remembered(tracks, steps, first, n, k);
    }
    if 0 <= i < reports_after(after, steps, second, n).len() {
        lemma_no_change(after, steps, second, n, i);
    }
}

/// A checkpoint that keeps waiting is mentioned only after ten seconds, and
/// again only after ten more.
pub proof fn mentions_are_spaced(track: StepTrack, first: u64, second: u64)
    requires
        is_due(track, first),
        is_due(track_after(track, StepStatus::Pending, first), second),
    ensures
        waited(track, first) / NANOS_PER_SEC >= 10,
        waited(track, second) / NANOS_PER_SEC >= waited(track, first) / NANOS_PER_SEC + 10,
{
}

/// The wait ends well exactly when every checkpoint is ready.
pub proof fn ready_means_all_ready(
    tunnel_id: Seq<char>,
    reply: Result<Option<TunnelProgressModel>, Seq<char>>,
)
    ensures
        poll_verdict(tunnel_id, reply) is Ready <==> (reply matches Ok(
            Some(progress),
        ) && progress.is_all_ready()),
{
    if let Ok(Some(progress)) = reply {
        if progress.is_all_ready() {
            progress::terminal_failure_excludes_ready(progress);
        }
    }
}

/// Whether a checkpoint waits because another connector owns the DNS record.
pub open spec fn is_deferred(step: ProgressStepModel) -> bool {
    step.kind is IrohDnsPublished && step.status is Pending && step.reason == Some(
        "DeferredToOwner"@,
    )
}

proof fn lemma_deferred(progress: TunnelProgressModel, from: int)
    requires
        0 <= from <= progress.steps.len(),
    ensures
        progress.terminal_from(from) is Some <==> exists|i: int|
            from <= i < progress.steps.len() && is_deferred(#[trigger] progress.steps[i]),
    decreases progress.steps.len() - from,
{
    if from < progress.steps.len() {
        lemma_deferred(progress, from + 1);
        assert(progress.steps[from].is_terminal() <==> is_deferred(progress.steps[from]));
        if progress.terminal_from(from + 1) is Some {
            let i = choose|i: int|
                from + 1 <= i < progress.steps.len() && is_deferred(#[trigger] progress.steps[i]);
            assert(from <= i);
        }
    }
}

/// The wait fails where the progress cannot be read, the tunnel is gone, or another
/// connector owns the DNS record; it ends well where every checkpoint is ready; and
/// else the next poll comes a quarter of a second later.
pub proof fn wait_goes_on_until_it_is_decided(
    tunnel_id: Seq<char>,
    error: Seq<char>,
    progress: TunnelProgressModel,
)
    ensures
        poll_verdict(tunnel_id, Err(error)) == (PollVerdictModel::Failed {
            message: "polling tunnel "@ + tunnel_id + " progress: "@ + error,
        }),
        poll_verdict(tunnel_id, Ok(None)) == (PollVerdictModel::Failed {
            message: "Tunnel "@ + tunnel_id + " disappeared during setup"@,
        }),
        ({
            let verdict = poll_verdict(tunnel_id, Ok(Some(progress)));
            let deferred = exists|i: int|
                0 <= i < progress.steps.len() && is_deferred(#[trigger] progress.steps[i]);
            let ready = forall|i: int|
                0 <= i < progress.steps.len() ==> (#[trigger] progress.steps[i]).status is Ready;
            if deferred {
                verdict is Failed
            } else if ready {
                verdict is Ready
            } else {
                verdict == (PollVerdictModel::Wait { nanos: 250_000_000 })
            }
        }),
{
    lemma_deferred(progress, 0);
}

/// Of one checkpoint, a new status is reported as a change from the last one, and
/// a wait of ten seconds, or of ten more since the last mention, with its length.
pub proof fn checkpoint_reports_changes_and_waits(
    track: StepTrack,
    status: StepStatus,
    now: u64,
    index: usize,
    report: Report,
)
    ensures
        reports_on(track, status, now, index).contains(report) <==> match report {
            Report::Changed { index: at, from } => at == index && track.last != status && from
                == track.last,
            Report::Waiting { index: at, elapsed } => {
                &&& at == index
                &&& status is Pending
                &&& track.pending
                &&& track.since <= now
                &&& elapsed == now - track.since
                &&& elapsed / 1_000_000_000 >= 10
                &&& elapsed / 1_000_000_000 >= track.mentioned + 10
            },
        },
{
    let out = reports_on(track, status, now, index);
    if track.last != status {
        assert(out[0] == (Report::Changed { index, from: track.last }));
    }
    if status is Pending && is_due(track, now) {
        assert(out[out.len() - 1] == (Report::Waiting { index, elapsed: waited(track, now) }));
    }
    if out.contains(report) {
        let i = choose|i: int| 0 <= i < out.len() && out[i] == report;
        assert(out[i] == report);
    }
}

/// What is remembered of a checkpoint: its status, since when it waits, and how
/// long it had waited when that was last mentioned. A new wait starts nothing old.
pub proof fn checkpoint_remembers_its_wait(track: StepTrack, status: StepStatus, now: u64)
    ensures
        ({
            let after = track_after(track, status, now);
            &&& after.last == status
            &&& after.pending <==> status is Pending
            &&& status is Pending ==> after.since == if track.pending {
                track.since
            } else {
                now
            }
            &&& status is Pending && !track.pending ==> after.mentioned == track.mentioned
            &&& !(status is Pending) ==> after.since == 0 && after.mentioned == 0
        }),
        untracked().last is Unknown,
        !untracked().pending,
        untracked().mentioned == 0,
{
}

/// Each checkpoint is tracked on its own: what is remembered of it after a poll
/// depends on its own status alone, and its place among the tracks is its own.
pub proof fn checkpoints_are_tracked_apart(
    tracks: Seq<StepTrack>,
    steps: Seq<ProgressStepModel>,
    now: u64,
    k: int,
    a: ProgressStepKind,
    b: ProgressStepKind,
)
    requires
        tracks.len() == 6,
        distinct_kinds(steps),
        0 <= k < steps.len(),
    ensures
        0 <= kind_index(a) < 6,
        kind_index(a) == kind_index(b) ==> a == b,
        tracks_after(tracks, steps, now, steps.len() as int)[kind_index(steps[k].kind)]
            == track_after(tracks[kind_index(steps[k].kind)], steps[k].status, now),
{
    lemma_tracked(tracks, steps, now, steps.len() as int, k);
}

proof fn lemma_tracked(
    tracks: Seq<StepTrack>,
    steps: Seq<ProgressStepModel>,
    now: u64,
    n: int,
    k: int,
)
    requires
        tracks.len() == 6,
        distinct_kinds(steps),
        0 <= k < n <= steps.len(),
    ensures
        tracks_after(tracks, steps, now, n)[kind_index(steps[k].kind)] == track_after(
            tracks[kind_index(steps[k].kind)],
            steps[k].status,
            now,
        ),
    decreases n,
{
    lemma_tracks_len(tracks, steps, now, n - 1);
    if k < n - 1 {
        lemma_tracked(tracks, steps, now, n - 1, k);
        assert(steps[k].kind != steps[n - 1].kind);
    } else {
        lemma_untouched(tracks, steps, now, n - 1, k);
    }
}

/// A poll reports exactly what is to be reported of each of its checkpoints.
pub proof fn poll_reports_every_checkpoint(
    tracks: Seq<StepTrack>,
    steps: Seq<ProgressStepModel>,
    now: u64,
    report: Report,
)
    requires
        tracks.len() == 6,
        distinct_kinds(steps),
    ensures
        reports_after(tracks, steps, now, steps.len() as int).contains(report) <==> exists|k: int|
            0 <= k < steps.len() && reports_on(
                tracks[kind_index((#[trigger] steps[k]).kind)],
                steps[k].status,
                now,
                k as usize,
            ).contains(report),
{
    lemma_reported(tracks, steps, now, steps.len() as int, report);
}

proof fn lemma_reported(
    tracks: Seq<StepTrack>,
    steps: Seq<ProgressStepModel>,
    now: u64,
    n: int,
    report: Report,
)
    requires
        tracks.len() == 6,
        distinct_kinds(steps),
        0 <= n <= steps.len(),
    ensures
        reports_after(tracks, steps, now, n).contains(report) <==> exists|k: int|
            0 <= k < n && reports_on(
                tracks[kind_index((#[trigger] steps[k]).kind)],
                steps[k].status,
                now,
                k as usize,
            ).contains(report),
    decreases n,
{
    if n > 0 {
        lemma_reported(tracks, steps, now, n - 1, report);
        lemma_untouched(tracks, steps, now, n - 1, n - 1);
        let before = reports_after(tracks, steps, now, n - 1);
        let last = reports_on(
            tracks[kind_index(steps[n - 1].kind)],
            steps[n - 1].status,
            now,
            (n - 1) as usize,
        );
        let all = reports_after(tracks, steps, now, n);
        assert(all == before + last);
        if all.contains(report) {
            let i = choose|i: int| 0 <= i < all.len() && all[i] == report;
            if i < before.len() {
                assert(before[i] == report);
                let k = choose|k: int|
                    0 <= k < n - 1 && reports_on(
                        tracks[kind_index((#[trigger] steps[k]).kind)],
                        steps[k].status,
                        now,
                        k as usize,
                    ).contains(report);
                assert(0 <= k < n);
            } else {
                assert(last[i - before.len()] == report);
                assert(steps[n - 1] == steps[n - 1]);
            }
        }
        if exists|k: int|
            0 <= k < n && reports_on(
                tracks[kind_index((#[trigger] steps[k]).kind)],
                steps[k].status,
                now,
                k as usize,
            ).contains(report) {
            let k = choose|k: int|
                0 <= k < n && reports_on(
                    tracks[kind_index((#[trigger] steps[k]).kind)],
                    steps[k].status,
                    now,
                    k as usize,
                ).contains(report);
            if k < n - 1 {
                let i = choose|i: int| 0 <= i < before.len() && before[i] == report;
                assert(all[i] == report);
            } else {
                let i = choose|i: int| 0 <= i < last.len() && last[i] == report;
                assert(all[before.len() + i] == report);
            }
        }
    }
}

} // verus!
