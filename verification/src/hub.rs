//! Service hub: routes work and audio/video commands to their services and
//! drains the services' reports under a shared budget, kernel first, then
//! filesystem, GPU and audio.
use vstd::prelude::*;
use crate::gb_core::CoreConfig;
use crate::kernel::{kernel_submitted, reps_view, KernelService, KernelServiceView};
use crate::service_abi::{AudioRep, FsRep, GpuRep, KernelRep, KernelRepView, SubmitOutcome, SubmitPolicy};
use crate::services::{
    audio_submitted, contains_text, fs_submitted_with, persist_path, plain_manual_save_path, gpu_submitted, AudioService, FsService, GpuService, ServiceView,
};
use crate::world::{AvCmd, Report, WorkCmd};

verus! {

/// Default budget for processing intents per scheduler tick.
pub const DEFAULT_INTENT_BUDGET: usize = 3;

/// Default budget for draining reports per scheduler tick.
pub const DEFAULT_REPORT_BUDGET: usize = 32;

/// Model of a report, tagged with the service it came from.
pub enum ReportView {
    Kernel(KernelRepView),
    Fs(FsRep),
    Gpu(GpuRep),
    Audio(AudioRep),
}

/// Model of one report.
pub open spec fn report_view(r: Report) -> ReportView {
    match r {
        Report::Kernel(k) => ReportView::Kernel(k@),
        Report::Fs(f) => ReportView::Fs(f),
        Report::Gpu(g) => ReportView::Gpu(g),
        Report::Audio(a) => ReportView::Audio(a),
    }
}

/// Model of a list of reports.
pub open spec fn reports_view(v: Seq<Report>) -> Seq<ReportView> {
    Seq::new(v.len(), |i: int| report_view(v[i]))
}

/// Model of the hub: the four services.
pub struct HubView {
    pub kernel: KernelServiceView,
    pub fs: ServiceView<FsRep>,
    pub gpu: ServiceView<GpuRep>,
    pub audio: ServiceView<AudioRep>,
}

/// Kernel reports tagged as such.
pub open spec fn tag_kernel(q: Seq<KernelRepView>) -> Seq<ReportView> {
    Seq::new(q.len(), |i: int| ReportView::Kernel(q[i]))
}

/// Filesystem reports tagged as such.
pub open spec fn tag_fs(q: Seq<FsRep>) -> Seq<ReportView> {
    Seq::new(q.len(), |i: int| ReportView::Fs(q[i]))
}

/// GPU reports tagged as such.
pub open spec fn tag_gpu(q: Seq<GpuRep>) -> Seq<ReportView> {
    Seq::new(q.len(), |i: int| ReportView::Gpu(q[i]))
}

/// Audio reports tagged as such.
pub open spec fn tag_audio(q: Seq<AudioRep>) -> Seq<ReportView> {
    Seq::new(q.len(), |i: int| ReportView::Audio(q[i]))
}

/// Reports waiting in the hub, in drain order: kernel, filesystem, GPU, audio.
pub open spec fn pending_reports(h: HubView) -> Seq<ReportView> {
    tag_kernel(h.kernel.queued) + tag_fs(h.fs.queued) + tag_gpu(h.gpu.queued) + tag_audio(
        h.audio.queued,
    )
}

/// How many reports leave a queue of `len` reports that starts at `offset` in
/// the drain order, when the first `n` pending reports are drained.
pub open spec fn taken_from(offset: int, len: int, n: int) -> int {
    if n <= offset {
        0
    } else if n - offset >= len {
        len
    } else {
        n - offset
    }
}

/// The hub after its first `n` pending reports have been drained.
pub open spec fn hub_drained(h: HubView, n: int) -> HubView {
    let k = h.kernel.queued.len() as int;
    let f = h.fs.queued.len() as int;
    let g = h.gpu.queued.len() as int;
    let a = h.audio.queued.len() as int;
    HubView {
        kernel: KernelServiceView { queued: h.kernel.queued.skip(taken_from(0, k, n)), ..h.kernel },
        fs: ServiceView { queued: h.fs.queued.skip(taken_from(k, f, n)), ..h.fs },
        gpu: ServiceView { queued: h.gpu.queued.skip(taken_from(k + f, g, n)), ..h.gpu },
        audio: ServiceView { queued: h.audio.queued.skip(taken_from(k + f + g, a, n)), ..h.audio },
    }
}

/// Number of reports a drain with `budget` takes.
pub open spec fn drain_count(h: HubView, budget: usize) -> int {
    let total = pending_reports(h).len() as int;
    if budget < total {
        budget as int
    } else {
        total
    }
}

/// Aggregates the backend services and routes commands and reports.
pub struct ServicesHub {
    kernel: KernelService,
    fs: FsService,
    gpu: GpuService,
    audio: AudioService,
}

impl View for ServicesHub {
    type V = HubView;

    closed spec fn view(&self) -> HubView {
        HubView { kernel: self.kernel@, fs: self.fs@, gpu: self.gpu@, audio: self.audio@ }
    }
}

/// Appends kernel reports, tagged.
fn push_kernel(out: &mut Vec<Report>, reps: Vec<KernelRep>)
    ensures
        reports_view(final(out)@) == reports_view(old(out)@) + tag_kernel(reps_view(reps@)),
{
    let ghost start = out@;
    let ghost all = reps@;
    let mut rest = reps;
    let ghost mut k: int = 0;
    while rest.len() > 0
        invariant
            0 <= k <= all.len(),
            rest@ == all.skip(k),
            reports_view(out@) == reports_view(start) + tag_kernel(reps_view(all)).take(k),
        decreases rest@.len(),
    {
        let ghost before = out@;
        let rep = rest.remove(0);
        out.push(Report::Kernel(rep));
        assert(reports_view(out@) =~= reports_view(before).push(report_view(out@.last())));
        assert(rest@ =~= all.skip(k + 1));
        assert(reports_view(out@) =~= reports_view(start) + tag_kernel(reps_view(all)).take(k + 1));
        proof {
            k = k + 1;
        }
    }
    assert(tag_kernel(reps_view(all)).take(k) =~= tag_kernel(reps_view(all)));
}

/// Appends filesystem reports, tagged.
fn push_fs(out: &mut Vec<Report>, reps: Vec<FsRep>)
    ensures
        reports_view(final(out)@) == reports_view(old(out)@) + tag_fs(reps@),
{
    let ghost start = out@;
    let ghost all = reps@;
    let mut rest = reps;
    let ghost mut k: int = 0;
    while rest.len() > 0
        invariant
            0 <= k <= all.len(),
            rest@ == all.skip(k),
            reports_view(out@) == reports_view(start) + tag_fs(all).take(k),
        decreases rest@.len(),
    {
        let ghost before = out@;
        let rep = rest.remove(0);
        out.push(Report::Fs(rep));
        assert(reports_view(out@) =~= reports_view(before).push(report_view(out@.last())));
        assert(rest@ =~= all.skip(k + 1));
        assert(reports_view(out@) =~= reports_view(start) + tag_fs(all).take(k + 1));
        proof {
            k = k + 1;
        }
    }
    assert(tag_fs(all).take(k) =~= tag_fs(all));
}

/// Appends GPU reports, tagged.
fn push_gpu(out: &mut Vec<Report>, reps: Vec<GpuRep>)
    ensures
        reports_view(final(out)@) == reports_view(old(out)@) + tag_gpu(reps@),
{
    let ghost start = out@;
    let ghost all = reps@;
    let mut rest = reps;
    let ghost mut k: int = 0;
    while rest.len() > 0
        invariant
            0 <= k <= all.len(),
            rest@ == all.skip(k),
            reports_view(out@) == reports_view(start) + tag_gpu(all).take(k),
        decreases rest@.len(),
    {
        let ghost before = out@;
        let rep = rest.remove(0);
        out.push(Report::Gpu(rep));
        assert(reports_view(out@) =~= reports_view(before).push(report_view(out@.last())));
        assert(rest@ =~= all.skip(k + 1));
        assert(reports_view(out@) =~= reports_view(start) + tag_gpu(all).take(k + 1));
        proof {
            k = k + 1;
        }
    }
    assert(tag_gpu(all).take(k) =~= tag_gpu(all));
}

/// Appends audio reports, tagged.
fn push_audio(out: &mut Vec<Report>, reps: Vec<AudioRep>)
    ensures
        reports_view(final(out)@) == reports_view(old(out)@) + tag_audio(reps@),
{
    let ghost start = out@;
    let ghost all = reps@;
    let mut rest = reps;
    let ghost mut k: int = 0;
    while rest.len() > 0
        invariant
            0 <= k <= all.len(),
            rest@ == all.skip(k),
            reports_view(out@) == reports_view(start) + tag_audio(all).take(k),
        decreases rest@.len(),
    {
        let ghost before = out@;
        let rep = rest.remove(0);
        out.push(Report::Audio(rep));
        assert(reports_view(out@) =~= reports_view(before).push(report_view(out@.last())));
        assert(rest@ =~= all.skip(k + 1));
        assert(reports_view(out@) =~= reports_view(start) + tag_audio(all).take(k + 1));
        proof {
            k = k + 1;
        }
    }
    assert(tag_audio(all).take(k) =~= tag_audio(all));
}

/// Where each service's reports sit in the drain order.
proof fn lemma_pending_index(h: HubView)
    ensures
        ({
            let k = h.kernel.queued.len() as int;
            let f = h.fs.queued.len() as int;
            let g = h.gpu.queued.len() as int;
            let a = h.audio.queued.len() as int;
            &&& pending_reports(h).len() == k + f + g + a
            &&& forall|i: int| 0 <= i < k ==> pending_reports(h)[i] == ReportView::Kernel(h.kernel.queued[i])
            &&& forall|i: int| k <= i < k + f ==> pending_reports(h)[i] == ReportView::Fs(h.fs.queued[i - k])
            &&& forall|i: int|
                k + f <= i < k + f + g ==> pending_reports(h)[i] == ReportView::Gpu(h.gpu.queued[i - k - f])
            &&& forall|i: int|
                k + f + g <= i < k + f + g + a ==> pending_reports(h)[i] == ReportView::Audio(
                    h.audio.queued[i - k - f - g],
                )
        }),
{
}

/// Taking `d` more reports from position `n` appends the reports found there.
proof fn lemma_take_more(p: Seq<ReportView>, n: int, d: int, mid: Seq<ReportView>)
    requires
        0 <= n,
        0 <= d,
        n + d <= p.len(),
        mid.len() == d,
        forall|j: int| 0 <= j < d ==> mid[j] == p[n + j],
    ensures
        p.take(n + d) == p.take(n) + mid,
{
    assert(p.take(n + d) =~= p.take(n) + mid);
}

/// Draining nothing leaves the hub as it is.
proof fn lemma_drained_none(h: HubView)
    ensures
        hub_drained(h, 0) == h,
{
    assert(h.kernel.queued.skip(0) =~= h.kernel.queued);
    assert(h.fs.queued.skip(0) =~= h.fs.queued);
    assert(h.gpu.queued.skip(0) =~= h.gpu.queued);
    assert(h.audio.queued.skip(0) =~= h.audio.queued);
}

impl ServicesHub {
    /// Well-formed hub: a well-formed kernel service.
    pub closed spec fn wf(&self) -> bool {
        self.kernel.wf()
    }

    /// Drains up to `remaining` kernel reports into `out`, the hub being
    /// `n` reports into the drain order of `h0` with the services before
    /// this one exhausted; returns how many were drained.
    fn drain_kernel_into(
        &mut self,
        out: &mut Vec<Report>,
        remaining: usize,
        Ghost(h0): Ghost<HubView>,
        Ghost(n): Ghost<int>,
    ) -> (d: usize)
        requires
            old(self).wf(),
            old(self)@ == hub_drained(h0, n),
            reports_view(old(out)@) == pending_reports(h0).take(n),
            0 <= n <= pending_reports(h0).len(),
            n >= 0,
        ensures
            final(self).wf(),
            d <= remaining,
            final(self)@ == hub_drained(h0, n + d),
            reports_view(final(out)@) == pending_reports(h0).take(n + d),
            n + d <= pending_reports(h0).len(),
            d < remaining ==> n + d >= 0 + (h0.kernel.queued.len() as int),
    {
        let ghost k0 = h0.kernel.queued.len() as int;
        let ghost f0 = h0.fs.queued.len() as int;
        let ghost g0 = h0.gpu.queued.len() as int;
        let ghost a0 = h0.audio.queued.len() as int;
        proof {
            lemma_pending_index(h0);
        }
        let ghost cur = self@.kernel.queued;
        let drained = self.kernel.drain(remaining);
        let ghost dd: int = drained@.len() as int;
        proof {
            assert(cur == h0.kernel.queued.skip(taken_from(0, k0, n)));
            assert(cur.len() == k0 - taken_from(0, k0, n));
            assert(reps_view(drained@).len() == dd);
            assert(dd == if remaining < cur.len() { remaining as int } else { cur.len() as int });
            if dd > 0 {
                assert(n < 0 + k0);
                assert(taken_from(0, k0, n) == n - (0));
                assert(taken_from(0, k0, n + dd) == n + dd - (0));
                lemma_take_more(pending_reports(h0), n, dd, tag_kernel(reps_view(drained@)));
                assert(cur.subrange(dd, cur.len() as int) =~= h0.kernel.queued.skip(n + dd - (0)));
            } else {
                assert(cur.subrange(0, cur.len() as int) =~= cur);
            }
        }
        let d = drained.len();
        push_kernel(out, drained);
        proof {
            if dd == 0 {
                assert(pending_reports(h0).take(n) + tag_kernel(reps_view(drained@)) =~= pending_reports(h0).take(n));
            }
            let h1 = hub_drained(h0, n + dd);
            assert(self@.kernel.queued == h1.kernel.queued);
            assert(self@.kernel == h1.kernel);
            assert(self@.fs == h1.fs);
            assert(self@.gpu == h1.gpu);
            assert(self@.audio == h1.audio);
        }
        d
    }

    /// Drains up to `remaining` filesystem reports into `out`, the hub being
    /// `n` reports into the drain order of `h0` with the services before
    /// this one exhausted; returns how many were drained.
    fn drain_fs_into(
        &mut self,
        out: &mut Vec<Report>,
        remaining: usize,
        Ghost(h0): Ghost<HubView>,
        Ghost(n): Ghost<int>,
    ) -> (d: usize)
        requires
            old(self).wf(),
            old(self)@ == hub_drained(h0, n),
            reports_view(old(out)@) == pending_reports(h0).take(n),
            0 <= n <= pending_reports(h0).len(),
            n >= (h0.kernel.queued.len() as int),
        ensures
            final(self).wf(),
            d <= remaining,
            final(self)@ == hub_drained(h0, n + d),
            reports_view(final(out)@) == pending_reports(h0).take(n + d),
            n + d <= pending_reports(h0).len(),
            d < remaining ==> n + d >= (h0.kernel.queued.len() as int) + (h0.fs.queued.len() as int),
    {
        let ghost k0 = h0.kernel.queued.len() as int;
        let ghost f0 = h0.fs.queued.len() as int;
        let ghost g0 = h0.gpu.queued.len() as int;
        let ghost a0 = h0.audio.queued.len() as int;
        proof {
            lemma_pending_index(h0);
        }
        let ghost cur = self@.fs.queued;
        let drained = self.fs.drain(remaining);
        let ghost dd: int = drained@.len() as int;
        proof {
            assert(cur == h0.fs.queued.skip(taken_from(k0, f0, n)));
            assert(cur.len() == f0 - taken_from(k0, f0, n));
            assert(drained@.len() == dd);
            assert(dd == if remaining < cur.len() { remaining as int } else { cur.len() as int });
            if dd > 0 {
                assert(n < k0 + f0);
                assert(taken_from(k0, f0, n) == n - (k0));
                assert(taken_from(k0, f0, n + dd) == n + dd - (k0));
                lemma_take_more(pending_reports(h0), n, dd, tag_fs(drained@));
                assert(cur.subrange(dd, cur.len() as int) =~= h0.fs.queued.skip(n + dd - (k0)));
            } else {
                assert(cur.subrange(0, cur.len() as int) =~= cur);
            }
        }
        let d = drained.len();
        push_fs(out, drained);
        proof {
            if dd == 0 {
                assert(pending_reports(h0).take(n) + tag_fs(drained@) =~= pending_reports(h0).take(n));
            }
            let h1 = hub_drained(h0, n + dd);
            assert(self@.fs.queued == h1.fs.queued);
            assert(self@.kernel == h1.kernel);
            assert(self@.fs == h1.fs);
            assert(self@.gpu == h1.gpu);
            assert(self@.audio == h1.audio);
        }
        d
    }

    /// Drains up to `remaining` GPU reports into `out`, the hub being
    /// `n` reports into the drain order of `h0` with the services before
    /// this one exhausted; returns how many were drained.
    fn drain_gpu_into(
        &mut self,
        out: &mut Vec<Report>,
        remaining: usize,
        Ghost(h0): Ghost<HubView>,
        Ghost(n): Ghost<int>,
    ) -> (d: usize)
        requires
            old(self).wf(),
            old(self)@ == hub_drained(h0, n),
            reports_view(old(out)@) == pending_reports(h0).take(n),
            0 <= n <= pending_reports(h0).len(),
            n >= (h0.kernel.queued.len() as int) + (h0.fs.queued.len() as int),
        ensures
            final(self).wf(),
            d <= remaining,
            final(self)@ == hub_drained(h0, n + d),
            reports_view(final(out)@) == pending_reports(h0).take(n + d),
            n + d <= pending_reports(h0).len(),
            d < remaining ==> n + d >= (h0.kernel.queued.len() as int) + (h0.fs.queued.len() as int) + (h0.gpu.queued.len() as int),
    {
        let ghost k0 = h0.kernel.queued.len() as int;
        let ghost f0 = h0.fs.queued.len() as int;
        let ghost g0 = h0.gpu.queued.len() as int;
        let ghost a0 = h0.audio.queued.len() as int;
        proof {
            lemma_pending_index(h0);
        }
        let ghost cur = self@.gpu.queued;
        let drained = self.gpu.drain(remaining);
        let ghost dd: int = drained@.len() as int;
        proof {
            assert(cur == h0.gpu.queued.skip(taken_from(k0 + f0, g0, n)));
            assert(cur.len() == g0 - taken_from(k0 + f0, g0, n));
            assert(drained@.len() == dd);
            assert(dd == if remaining < cur.len() { remaining as int } else { cur.len() as int });
            if dd > 0 {
                assert(n < k0 + f0 + g0);
                assert(taken_from(k0 + f0, g0, n) == n - (k0 + f0));
                assert(taken_from(k0 + f0, g0, n + dd) == n + dd - (k0 + f0));
                lemma_take_more(pending_reports(h0), n, dd, tag_gpu(drained@));
                assert(cur.subrange(dd, cur.len() as int) =~= h0.gpu.queued.skip(n + dd - (k0 + f0)));
            } else {
                assert(cur.subrange(0, cur.len() as int) =~= cur);
            }
        }
        let d = drained.len();
        push_gpu(out, drained);
        proof {
            if dd == 0 {
                assert(pending_reports(h0).take(n) + tag_gpu(drained@) =~= pending_reports(h0).take(n));
            }
            let h1 = hub_drained(h0, n + dd);
            assert(self@.gpu.queued == h1.gpu.queued);
            assert(self@.kernel == h1.kernel);
            assert(self@.fs == h1.fs);
            assert(self@.gpu == h1.gpu);
            assert(self@.audio == h1.audio);
        }
        d
    }

    /// Drains up to `remaining` audio reports into `out`, the hub being
    /// `n` reports into the drain order of `h0` with the services before
    /// this one exhausted; returns how many were drained.
    fn drain_audio_into(
        &mut self,
        out: &mut Vec<Report>,
        remaining: usize,
        Ghost(h0): Ghost<HubView>,
        Ghost(n): Ghost<int>,
    ) -> (d: usize)
        requires
            old(self).wf(),
            old(self)@ == hub_drained(h0, n),
            reports_view(old(out)@) == pending_reports(h0).take(n),
            0 <= n <= pending_reports(h0).len(),
            n >= (h0.kernel.queued.len() as int) + (h0.fs.queued.len() as int) + (h0.gpu.queued.len() as int),
        ensures
            final(self).wf(),
            d <= remaining,
            final(self)@ == hub_drained(h0, n + d),
            reports_view(final(out)@) == pending_reports(h0).take(n + d),
            n + d <= pending_reports(h0).len(),
            d < remaining ==> n + d >= (h0.kernel.queued.len() as int) + (h0.fs.queued.len() as int) + (h0.gpu.queued.len() as int) + (h0.audio.queued.len() as int),
    {
        let ghost k0 = h0.kernel.queued.len() as int;
        let ghost f0 = h0.fs.queued.len() as int;
        let ghost g0 = h0.gpu.queued.len() as int;
        let ghost a0 = h0.audio.queued.len() as int;
        proof {
            lemma_pending_index(h0);
        }
        let ghost cur = self@.audio.queued;
        let drained = self.audio.drain(remaining);
        let ghost dd: int = drained@.len() as int;
        proof {
            assert(cur == h0.audio.queued.skip(taken_from(k0 + f0 + g0, a0, n)));
            assert(cur.len() == a0 - taken_from(k0 + f0 + g0, a0, n));
            assert(drained@.len() == dd);
            assert(dd == if remaining < cur.len() { remaining as int } else { cur.len() as int });
            if dd > 0 {
                assert(n < k0 + f0 + g0 + a0);
                assert(taken_from(k0 + f0 + g0, a0, n) == n - (k0 + f0 + g0));
                assert(taken_from(k0 + f0 + g0, a0, n + dd) == n + dd - (k0 + f0 + g0));
                lemma_take_more(pending_reports(h0), n, dd, tag_audio(drained@));
                assert(cur.subrange(dd, cur.len() as int) =~= h0.audio.queued.skip(n + dd - (k0 + f0 + g0)));
            } else {
                assert(cur.subrange(0, cur.len() as int) =~= cur);
            }
        }
        let d = drained.len();
        push_audio(out, drained);
        proof {
            if dd == 0 {
                assert(pending_reports(h0).take(n) + tag_audio(drained@) =~= pending_reports(h0).take(n));
            }
            let h1 = hub_drained(h0, n + dd);
            assert(self@.audio.queued == h1.audio.queued);
            assert(self@.kernel == h1.kernel);
            assert(self@.fs == h1.fs);
            assert(self@.gpu == h1.gpu);
            assert(self@.audio == h1.audio);
        }
        d
    }

    /// Drains up to `budget` reports across the services, oldest first:
    /// the kernel's, then the filesystem's, the GPU's and the audio
    /// service's, passing over the services again while reports keep coming.
    pub fn drain_reports(&mut self, budget: usize) -> (r: Vec<Report>)
        requires
            old(self).wf(),
        ensures
            final(self).wf(),
            reports_view(r@) == pending_reports(old(self)@).take(drain_count(old(self)@, budget)),
            final(self)@ == hub_drained(old(self)@, drain_count(old(self)@, budget)),
    {
        let ghost h0 = self@;
        let ghost total = pending_reports(h0).len() as int;
        proof {
            lemma_drained_none(h0);
            lemma_pending_index(h0);
        }
        if budget == 0 {
            assert(pending_reports(h0).take(0) =~= Seq::<ReportView>::empty());
            return Vec::new();
        }
        let mut remaining = budget;
        let mut out: Vec<Report> = Vec::new();
        let mut progressed = true;
        assert(reports_view(out@) =~= pending_reports(h0).take(0));
        while remaining > 0 && progressed
            invariant
                self.wf(),
                remaining <= budget,
                total == pending_reports(h0).len(),
                total == h0.kernel.queued.len() + h0.fs.queued.len() + h0.gpu.queued.len()
                    + h0.audio.queued.len(),
                budget - remaining <= total,
                self@ == hub_drained(h0, budget - remaining),
                reports_view(out@) == pending_reports(h0).take(budget - remaining),
                !progressed ==> remaining == 0 || budget - remaining == total,
            decreases remaining + (if progressed { 1int } else { 0int }),
        {
            progressed = false;
            if remaining > 0 {
                let d = self.drain_kernel_into(&mut out, remaining, Ghost(h0), Ghost((budget - remaining) as int));
                if d > 0 {
                    remaining = remaining - d;
                    progressed = true;
                }
            }
            if remaining > 0 {
                let d = self.drain_fs_into(&mut out, remaining, Ghost(h0), Ghost((budget - remaining) as int));
                if d > 0 {
                    remaining = remaining - d;
                    progressed = true;
                }
            }
            if remaining > 0 {
                let d = self.drain_gpu_into(&mut out, remaining, Ghost(h0), Ghost((budget - remaining) as int));
                if d > 0 {
                    remaining = remaining - d;
                    progressed = true;
                }
            }
            if remaining > 0 {
                let d = self.drain_audio_into(&mut out, remaining, Ghost(h0), Ghost((budget - remaining) as int));
                if d > 0 {
                    remaining = remaining - d;
                    progressed = true;
                }
            }
        }
        out
    }
}

/// Draining takes reports off the front of the drain order: the reports a
/// drain of `n` returns, followed by the reports still pending after it, are
/// the reports that were pending before.
pub proof fn lemma_drain_splits_pending(h: HubView, n: int)
    requires
        0 <= n <= pending_reports(h).len(),
    ensures
        pending_reports(h).take(n) + pending_reports(hub_drained(h, n)) == pending_reports(h),
{
    let d = hub_drained(h, n);
    lemma_pending_index(h);
    lemma_pending_index(d);
    assert(pending_reports(h).take(n) + pending_reports(d) =~= pending_reports(h));
}

/// A service that a hub builder was not given.
#[derive(Clone, Copy, Debug, PartialEq, Eq, Structural)]
pub enum HubError {
    MissingKernel,
    MissingFs,
    MissingGpu,
    MissingAudio,
}

impl HubError {
    /// Human-readable description of the error.
    pub fn message(&self) -> (r: &'static str)
        ensures
            r@ == match *self {
                HubError::MissingKernel => "missing kernel service"@,
                HubError::MissingFs => "missing filesystem service"@,
                HubError::MissingGpu => "missing GPU service"@,
                HubError::MissingAudio => "missing audio service"@,
            },
    {
        match self {
            HubError::MissingKernel => "missing kernel service",
            HubError::MissingFs => "missing filesystem service",
            HubError::MissingGpu => "missing GPU service",
            HubError::MissingAudio => "missing audio service",
        }
    }
}

/// Model of a hub builder: the services given so far.
pub struct BuilderView {
    pub kernel: Option<KernelServiceView>,
    pub fs: Option<ServiceView<FsRep>>,
    pub gpu: Option<ServiceView<GpuRep>>,
    pub audio: Option<ServiceView<AudioRep>>,
}

/// Assembles a hub from individual services.
pub struct ServicesHubBuilder {
    kernel: Option<KernelService>,
    fs: Option<FsService>,
    gpu: Option<GpuService>,
    audio: Option<AudioService>,
}

impl View for ServicesHubBuilder {
    type V = BuilderView;

    closed spec fn view(&self) -> BuilderView {
        BuilderView {
            kernel: match self.kernel {
                Some(k) => Some(k@),
                None => None,
            },
            fs: match self.fs {
                Some(f) => Some(f@),
                None => None,
            },
            gpu: match self.gpu {
                Some(g) => Some(g@),
                None => None,
            },
            audio: match self.audio {
                Some(a) => Some(a@),
                None => None,
            },
        }
    }
}

/// A builder that has been given no service.
pub open spec fn empty_builder() -> BuilderView {
    BuilderView { kernel: None, fs: None, gpu: None, audio: None }
}

impl ServicesHubBuilder {
    /// A kernel service, when given, is well formed.
    pub closed spec fn wf(&self) -> bool {
        self.kernel matches Some(k) ==> k.wf()
    }

    /// Creates a builder with no services.
    pub fn new() -> (r: Self)
        ensures
            r.wf(),
            r@ == empty_builder(),
    {
        ServicesHubBuilder { kernel: None, fs: None, gpu: None, audio: None }
    }

    /// Sets the kernel service.
    pub fn kernel(self, svc: KernelService) -> (r: Self)
        requires
            self.wf(),
            svc.wf(),
        ensures
            r.wf(),
            r@ == (BuilderView { kernel: Some(svc@), ..self@ }),
    {
        let mut b = self;
        b.kernel = Some(svc);
        b
    }

    /// Sets the filesystem service.
    pub fn fs(self, svc: FsService) -> (r: Self)
        requires
            self.wf(),
        ensures
            r.wf(),
            r@ == (BuilderView { fs: Some(svc@), ..self@ }),
    {
        let mut b = self;
        b.fs = Some(svc);
        b
    }

    /// Sets the GPU service.
    pub fn gpu(self, svc: GpuService) -> (r: Self)
        requires
            self.wf(),
        ensures
            r.wf(),
            r@ == (BuilderView { gpu: Some(svc@), ..self@ }),
    {
        let mut b = self;
        b.gpu = Some(svc);
        b
    }

    /// Sets the audio service.
    pub fn audio(self, svc: AudioService) -> (r: Self)
        requires
            self.wf(),
        ensures
            r.wf(),
            r@ == (BuilderView { audio: Some(svc@), ..self@ }),
    {
        let mut b = self;
        b.audio = Some(svc);
        b
    }

    /// Builds the hub; fails with the first missing service, in the order
    /// kernel, filesystem, GPU, audio.
    pub fn build(self) -> (r: Result<ServicesHub, HubError>)
        requires
            self.wf(),
        ensures
            self@.kernel is None ==> r == Err::<ServicesHub, HubError>(HubError::MissingKernel),
            self@.kernel is Some && self@.fs is None ==> r == Err::<ServicesHub, HubError>(
                HubError::MissingFs,
            ),
            self@.kernel is Some && self@.fs is Some && self@.gpu is None ==> r == Err::<
                ServicesHub,
                HubError,
            >(HubError::MissingGpu),
            self@.kernel is Some && self@.fs is Some && self@.gpu is Some && self@.audio is None ==> r
                == Err::<ServicesHub, HubError>(HubError::MissingAudio),
            r matches Ok(h) ==> h.wf() && self@.kernel == Some(h@.kernel) && self@.fs == Some(h@.fs)
                && self@.gpu == Some(h@.gpu) && self@.audio == Some(h@.audio),
    {
        let kernel = match self.kernel {
            Some(k) => k,
            None => return Err(HubError::MissingKernel),
        };
        let fs = match self.fs {
            Some(f) => f,
            None => return Err(HubError::MissingFs),
        };
        let gpu = match self.gpu {
            Some(g) => g,
            None => return Err(HubError::MissingGpu),
        };
        let audio = match self.audio {
            Some(a) => a,
            None => return Err(HubError::MissingAudio),
        };
        Ok(ServicesHub { kernel, fs, gpu, audio })
    }
}

impl Default for ServicesHubBuilder {
    fn default() -> (r: Self)
        ensures
            r.wf(),
            r@ == empty_builder(),
    {
        ServicesHubBuilder::new()
    }
}

impl ServicesHub {
    /// Creates a builder with no services.
    pub fn builder() -> (r: ServicesHubBuilder)
        ensures
            r.wf(),
            r@ == empty_builder(),
    {
        ServicesHubBuilder::new()
    }

    /// Submits a work command to the service it targets; the other services
    /// are untouched.
    pub fn try_submit_work(&mut self, cmd: WorkCmd) -> (r: SubmitOutcome)
        requires
            old(self).wf(),
            cmd is Kernel ==> old(self)@.kernel.queued.len() + 3 <= usize::MAX,
            cmd is Fs ==> old(self)@.fs.queued.len() + 1 <= usize::MAX,
        ensures
            final(self).wf(),
            final(self)@.gpu == old(self)@.gpu,
            final(self)@.audio == old(self)@.audio,
            cmd matches WorkCmd::Kernel(k) ==> kernel_submitted(old(self)@.kernel, final(self)@.kernel, k@, r)
                && final(self)@.fs == old(self)@.fs,
            cmd matches WorkCmd::Fs(f) ==> plain_manual_save_path(persist_path(f)) ==> fs_submitted_with(
                old(self)@.fs,
                final(self)@.fs,
                f,
                SubmitPolicy::Lossless,
                r,
            ),
            cmd matches WorkCmd::Fs(f) ==> !contains_text(persist_path(f), "manual-save"@) ==> fs_submitted_with(
                old(self)@.fs,
                final(self)@.fs,
                f,
                SubmitPolicy::Coalesce,
                r,
            ),
            cmd matches WorkCmd::Fs(f) ==> final(self)@.kernel == old(self)@.kernel && exists|p: SubmitPolicy|
                (p == SubmitPolicy::Lossless || p == SubmitPolicy::Coalesce) && #[trigger] fs_submitted_with(
                    old(self)@.fs,
                    final(self)@.fs,
                    f,
                    p,
                    r,
                ),
    {
        match &cmd {
            WorkCmd::Kernel(inner) => self.kernel.try_submit(inner),
            WorkCmd::Fs(inner) => {
                let r = self.fs.try_submit(inner);
                proof {
                    let p = choose|p: SubmitPolicy|
                        (p == SubmitPolicy::Lossless || p == SubmitPolicy::Coalesce) && #[trigger] fs_submitted_with(
                            old(self)@.fs,
                            self@.fs,
                            *inner,
                            p,
                            r,
                        );
                    assert(fs_submitted_with(old(self)@.fs, self@.fs, *inner, p, r));
                }
                r
            },
        }
    }

    /// Submits an audio/video command to the service it targets; the other
    /// services are untouched.
    pub fn try_submit_av(&mut self, cmd: AvCmd) -> (r: SubmitOutcome)
        requires
            old(self).wf(),
            cmd is Gpu ==> old(self)@.gpu.queued.len() + 1 <= usize::MAX,
            cmd is Audio ==> old(self)@.audio.queued.len() + 1 <= usize::MAX,
        ensures
            final(self).wf(),
            final(self)@.kernel == old(self)@.kernel,
            final(self)@.fs == old(self)@.fs,
            cmd matches AvCmd::Gpu(g) ==> gpu_submitted(old(self)@.gpu, final(self)@.gpu, g, r)
                && final(self)@.audio == old(self)@.audio,
            cmd matches AvCmd::Audio(a) ==> audio_submitted(old(self)@.audio, final(self)@.audio, a, r)
                && final(self)@.gpu == old(self)@.gpu,
    {
        match &cmd {
            AvCmd::Gpu(inner) => self.gpu.try_submit(inner),
            AvCmd::Audio(inner) => self.audio.try_submit(inner),
        }
    }
}

/// Creates a hub over fresh services with the given report queue capacities.
pub fn make_hub_with_capacities(kernel: usize, fs: usize, gpu: usize, audio: usize) -> (r: ServicesHub)
    ensures
        r.wf(),
        r@.kernel.capacity == kernel,
        r@.fs.capacity == fs,
        r@.gpu.capacity == gpu,
        r@.audio.capacity == audio,
        pending_reports(r@) == Seq::<ReportView>::empty(),
{
    let config = CoreConfig { frame_width: 160, frame_height: 144 };
    let hub = ServicesHub {
        kernel: KernelService::with_capacity(kernel, config),
        fs: FsService::new(fs),
        gpu: GpuService::new(gpu),
        audio: AudioService::new(audio),
    };
    assert(pending_reports(hub@) =~= Seq::<ReportView>::empty());
    hub
}

/// Creates a hub over fresh services with the default capacities (kernel 64,
/// filesystem 32, GPU and audio 128).
pub fn make_hub() -> (r: ServicesHub)
    ensures
        r.wf(),
        r@.kernel.capacity == 64,
        r@.fs.capacity == 32,
        r@.gpu.capacity == 128,
        r@.audio.capacity == 128,
        pending_reports(r@) == Seq::<ReportView>::empty(),
{
    make_hub_with_capacities(64, 32, 128, 128)
}

} // verus!
