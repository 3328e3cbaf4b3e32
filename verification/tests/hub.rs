use gbx::hub::{make_hub, make_hub_with_capacities, HubError, ServicesHub, DEFAULT_REPORT_BUDGET};
use gbx::kernel::KernelService;
use gbx::service_abi::{
    AudioCmd, AudioRep, AudioSpan, FrameSpan, FsCmd, FsRep, GpuCmd, GpuRep, KernelCmd, KernelRep,
    SubmitOutcome,
};
use gbx::services::{AudioService, FsService, GpuService};
use gbx::world::{AvCmd, Report, WorkCmd};

fn hub() -> ServicesHub {
    ServicesHub::builder()
        .kernel(KernelService::default())
        .fs(FsService::new(8))
        .gpu(GpuService::new(8))
        .audio(AudioService::new(8))
        .build()
        .expect("all services given")
}

fn audio(frames: usize) -> AvCmd {
    let mut span = AudioSpan::empty();
    span.channels = 1;
    span.samples = vec![0; frames];
    AvCmd::Audio(AudioCmd::Submit { span })
}

#[test]
fn build_reports_the_first_missing_service() {
    let err = ServicesHub::builder().build().err().unwrap();
    assert_eq!(err, HubError::MissingKernel);
    assert_eq!(err.message(), "missing kernel service");
    let err = ServicesHub::builder()
        .kernel(KernelService::default())
        .gpu(GpuService::new(4))
        .build()
        .err()
        .unwrap();
    assert_eq!(err, HubError::MissingFs);
    let err = ServicesHub::builder()
        .kernel(KernelService::default())
        .fs(FsService::new(4))
        .build()
        .err()
        .unwrap();
    assert_eq!(err, HubError::MissingGpu);
    let err = ServicesHub::builder()
        .kernel(KernelService::default())
        .fs(FsService::new(4))
        .gpu(GpuService::new(4))
        .build()
        .err()
        .unwrap();
    assert_eq!(err, HubError::MissingAudio);
    assert_eq!(err.message(), "missing audio service");
}

#[test]
fn drain_reports_kernel_first_then_fs_gpu_audio() {
    let mut hub = hub();
    assert_eq!(hub.try_submit_av(audio(4)), SubmitOutcome::Accepted);
    assert_eq!(
        hub.try_submit_av(AvCmd::Gpu(GpuCmd::UploadFrame { lane: 0, span: FrameSpan::empty() })),
        SubmitOutcome::Accepted
    );
    let persist = FsCmd::Persist { path: "saves/manual.sav".to_string(), bytes: vec![1, 2, 3] };
    assert_eq!(hub.try_submit_work(WorkCmd::Fs(persist)), SubmitOutcome::Accepted);
    let load = KernelCmd::LoadRom { group: 0, bytes: vec![0u8; 0x8000] };
    assert_eq!(hub.try_submit_work(WorkCmd::Kernel(load)), SubmitOutcome::Accepted);

    let reports = hub.drain_reports(DEFAULT_REPORT_BUDGET);
    assert_eq!(reports.len(), 4);
    assert!(matches!(reports[0], Report::Kernel(KernelRep::RomLoaded { group: 0, bytes_len: 0x8000 })));
    assert!(matches!(&reports[1], Report::Fs(FsRep::Saved { ok: true, .. })));
    assert_eq!(reports[2], Report::Gpu(GpuRep::FrameShown { lane: 0, frame_id: 1 }));
    assert_eq!(reports[3], Report::Audio(AudioRep::Played { frames: 4 }));
    assert!(hub.drain_reports(DEFAULT_REPORT_BUDGET).is_empty());
}

#[test]
fn drain_reports_stops_at_the_budget_and_keeps_the_rest() {
    let mut hub = hub();
    for _ in 0..3 {
        assert_eq!(hub.try_submit_av(audio(2)), SubmitOutcome::Accepted);
    }
    assert_eq!(
        hub.try_submit_av(AvCmd::Gpu(GpuCmd::UploadFrame { lane: 1, span: FrameSpan::empty() })),
        SubmitOutcome::Accepted
    );
    let first = hub.drain_reports(2);
    assert_eq!(
        first,
        vec![
            Report::Gpu(GpuRep::FrameShown { lane: 1, frame_id: 1 }),
            Report::Audio(AudioRep::Played { frames: 2 }),
        ]
    );
    assert!(hub.drain_reports(0).is_empty());
    let rest = hub.drain_reports(10);
    assert_eq!(rest.len(), 2);
    assert!(rest.iter().all(|r| *r == Report::Audio(AudioRep::Played { frames: 2 })));
}

#[test]
fn mock_hub_starts_empty_and_routes_commands() {
    let mut hub = make_hub();
    assert!(hub.drain_reports(DEFAULT_REPORT_BUDGET).is_empty());
    assert_eq!(hub.try_submit_av(audio(6)), SubmitOutcome::Accepted);
    assert_eq!(
        hub.drain_reports(DEFAULT_REPORT_BUDGET),
        vec![Report::Audio(AudioRep::Played { frames: 6 })]
    );
}

#[test]
fn custom_capacity_hub_blocks_a_full_must_queue() {
    let mut hub = make_hub_with_capacities(4, 4, 1, 1);
    assert_eq!(hub.try_submit_av(audio(1)), SubmitOutcome::Accepted);
    assert_eq!(hub.try_submit_av(audio(1)), SubmitOutcome::WouldBlock);
    assert_eq!(hub.drain_reports(8).len(), 1);
}
