//! Tests of the device worker's loop decisions: order handling, completion
//! order, the live-view fallback, batch writes, and the fatal path.

use gcam::camera_loop::{CameraThreadState, LoopStep, StopReason};
use gcam::error::{AppError, WorkerError};
use gcam::messages::{
    CameraDescriptor, CameraInfo, DeviceOutcome, DeviceRequest, MessageFromThread,
    MessageToThread, RecvEvent, WriteValue,
};
use gcam::settings::{CameraSettings, RawKind, RawWidget, StaticWidget};

fn descriptor(model: &str, port: &str) -> CameraDescriptor {
    CameraDescriptor { model: model.to_string(), port: port.to_string() }
}

fn info_for(d: &CameraDescriptor) -> CameraInfo {
    CameraInfo {
        model: d.model.clone(),
        port: d.port.clone(),
        manual: None,
        summary: Some("a camera".to_string()),
        about: None,
    }
}

fn open_camera(worker: &mut CameraThreadState, model: &str, port: &str) {
    let d = descriptor(model, port);
    let step = worker.on_receive(RecvEvent::Order(MessageToThread::UseCamera(d.clone())));
    assert!(matches!(step, LoopStep::Call(DeviceRequest::OpenCamera(_))));
    let step = worker.on_device(DeviceOutcome::Opened(d.clone(), Ok(info_for(&d))));
    assert!(matches!(
        step,
        LoopStep::Reply(MessageFromThread::CameraOpen(Some(_)))
    ));
}

fn range_leaf(id: i32, name: &str, value: i64) -> CameraSettings {
    CameraSettings {
        id,
        name: name.to_string(),
        label: name.to_string(),
        widget: StaticWidget::Range { value, min: 0, max: 100, step: 1 },
        readonly: false,
    }
}

#[test]
fn completions_arrive_in_submission_order() {
    // several tagged discovery orders, answered in order: the replies carry
    // the tags back in the same order
    let mut worker = CameraThreadState::new();
    let mut replies: Vec<MessageFromThread> = Vec::new();
    for tag in 0..5 {
        let step = worker.on_receive(RecvEvent::Order(MessageToThread::ListCameras));
        match step {
            LoopStep::Call(DeviceRequest::ListCameras) => {}
            _ => panic!("discovery must go to the device"),
        }
        let answer = vec![descriptor(&format!("cam{}", tag), "usb")];
        match worker.on_device(DeviceOutcome::Cameras(Ok(answer))) {
            LoopStep::Reply(m) => replies.push(m),
            _ => panic!("a discovery outcome owes a completion"),
        }
    }
    assert_eq!(replies.len(), 5);
    for (tag, reply) in replies.iter().enumerate() {
        match reply {
            MessageFromThread::CameraList(l) => {
                assert_eq!(l.len(), 1);
                assert_eq!(l[0].model, format!("cam{}", tag));
            }
            _ => panic!("expected a camera list"),
        }
    }
}

#[test]
fn set_live_view_has_no_completion_and_switches_polling() {
    let mut worker = CameraThreadState::new();
    assert!(worker.blocks_when_idle());
    let step = worker.on_receive(RecvEvent::Order(MessageToThread::SetLiveView(true)));
    assert!(matches!(step, LoopStep::Continue));
    assert!(!worker.blocks_when_idle());
}

#[test]
fn live_view_without_camera_stops_itself_with_one_completion() {
    // live view on, no camera: one idle poll yields exactly one completion
    // that clears the frontend's flag, the worker's flag falls back, and the
    // loop does not stop
    let mut worker = CameraThreadState::new();
    let step = worker.on_receive(RecvEvent::Order(MessageToThread::SetLiveView(true)));
    assert!(matches!(step, LoopStep::Continue));
    let step = worker.on_receive(RecvEvent::Empty);
    assert!(matches!(step, LoopStep::Reply(MessageFromThread::LiveViewStopped)));
    assert!(worker.blocks_when_idle());
    // the next idle wait is an ordinary one
    let step = worker.on_receive(RecvEvent::Empty);
    assert!(matches!(step, LoopStep::Continue));
}

#[test]
fn live_view_with_camera_asks_for_a_preview_frame() {
    let mut worker = CameraThreadState::new();
    open_camera(&mut worker, "CamX", "usb:001,002");
    let step = worker.on_receive(RecvEvent::Order(MessageToThread::SetLiveView(true)));
    assert!(matches!(step, LoopStep::Continue));
    let step = worker.on_receive(RecvEvent::Empty);
    assert!(matches!(step, LoopStep::Call(DeviceRequest::CapturePreviewFrame)));
    // a failed capture is an error completion, live view stays on
    let step = worker.on_device(DeviceOutcome::Preview(Err(AppError::GPhotoError(
        "busy".to_string(),
    ))));
    assert!(matches!(step, LoopStep::Reply(MessageFromThread::Error(_))));
    assert!(!worker.blocks_when_idle());
}

#[test]
fn disconnection_is_fatal_within_one_receive() {
    let mut worker = CameraThreadState::new();
    let step = worker.on_receive(RecvEvent::Disconnected);
    assert!(matches!(step, LoopStep::Stop(StopReason::ChannelClosed)));
}

#[test]
fn break_ends_the_loop() {
    let mut worker = CameraThreadState::new();
    let step = worker.on_receive(RecvEvent::Order(MessageToThread::Break));
    assert!(matches!(step, LoopStep::Stop(StopReason::Shutdown)));
}

#[test]
fn get_config_without_camera_is_an_error_not_a_stop() {
    let mut worker = CameraThreadState::new();
    let step = worker.on_receive(RecvEvent::Order(MessageToThread::GetConfig));
    match step {
        LoopStep::Reply(MessageFromThread::Error(AppError::Worker(w))) => {
            assert_eq!(w, WorkerError::NoCamera);
        }
        _ => panic!("expected the no-camera error"),
    }
}

#[test]
fn get_config_parses_the_raw_tree() {
    let mut worker = CameraThreadState::new();
    open_camera(&mut worker, "CamX", "usb:001,002");
    let step = worker.on_receive(RecvEvent::Order(MessageToThread::GetConfig));
    assert!(matches!(step, LoopStep::Call(DeviceRequest::ReadConfig)));
    let raw = RawWidget {
        id: Some(1),
        name: Some("main".to_string()),
        label: Some("Main".to_string()),
        readonly: Some(false),
        kind: RawKind::Group { children: vec![] },
    };
    match worker.on_device(DeviceOutcome::Config(Ok(raw))) {
        LoopStep::Reply(MessageFromThread::CameraConfig(cfg)) => {
            assert_eq!(cfg.name, "main");
            assert!(matches!(cfg.widget, StaticWidget::Group { .. }));
        }
        _ => panic!("expected the parsed settings tree"),
    }
}

#[test]
fn a_batch_writes_each_node_in_order_and_reports_once() {
    let mut worker = CameraThreadState::new();
    open_camera(&mut worker, "CamX", "usb:001,002");
    let batch = vec![
        (10, range_leaf(21, "exposure", 42)),
        (10, range_leaf(22, "contrast", 7)),
    ];
    let mut written: Vec<(String, WriteValue)> = Vec::new();
    let mut step = worker.on_receive(RecvEvent::Order(MessageToThread::ApplyConfig(batch)));
    loop {
        match step {
            LoopStep::Call(DeviceRequest::WriteNode(cmd)) => {
                written.push((cmd.name, cmd.value));
                step = worker.on_device(DeviceOutcome::Written(Ok(())));
            }
            LoopStep::Reply(MessageFromThread::ConfigApplied) => break,
            _ => panic!("unexpected step during a batch"),
        }
    }
    assert_eq!(
        written,
        vec![
            ("exposure".to_string(), WriteValue::Range(42)),
            ("contrast".to_string(), WriteValue::Range(7)),
        ]
    );
}

#[test]
fn a_failing_write_aborts_the_rest_of_the_batch() {
    let mut worker = CameraThreadState::new();
    open_camera(&mut worker, "CamX", "usb:001,002");
    let batch = vec![
        (10, range_leaf(21, "exposure", 42)),
        (10, range_leaf(22, "contrast", 7)),
        (10, range_leaf(23, "sharpness", 9)),
    ];
    let step = worker.on_receive(RecvEvent::Order(MessageToThread::ApplyConfig(batch)));
    let first = match step {
        LoopStep::Call(DeviceRequest::WriteNode(cmd)) => cmd,
        _ => panic!("the first write must go out"),
    };
    assert_eq!(first.name, "exposure");
    // the first write fails: one error completion, no further writes
    let step = worker.on_device(DeviceOutcome::Written(Err(AppError::GPhotoError(
        "rejected".to_string(),
    ))));
    assert!(matches!(step, LoopStep::Reply(MessageFromThread::Error(_))));
    // a following successful-write outcome finds an empty batch
    let step = worker.on_device(DeviceOutcome::Written(Ok(())));
    assert!(matches!(step, LoopStep::Reply(MessageFromThread::ConfigApplied)));
}

#[test]
fn a_batch_with_a_group_node_is_refused_whole() {
    let mut worker = CameraThreadState::new();
    open_camera(&mut worker, "CamX", "usb:001,002");
    let group = CameraSettings {
        id: 5,
        name: "section".to_string(),
        label: "Section".to_string(),
        widget: StaticWidget::Group { children: vec![], id_by_names: vec![] },
        readonly: false,
    };
    let step = worker.on_receive(RecvEvent::Order(MessageToThread::ApplyConfig(vec![(
        1, group,
    )])));
    match step {
        LoopStep::Reply(MessageFromThread::Error(AppError::Worker(w))) => {
            assert_eq!(w, WorkerError::Unwritable);
        }
        _ => panic!("expected the unwritable error"),
    }
}

#[test]
fn apply_without_camera_completes_without_writes() {
    let mut worker = CameraThreadState::new();
    let step = worker.on_receive(RecvEvent::Order(MessageToThread::ApplyConfig(vec![(
        10,
        range_leaf(21, "exposure", 42),
    )])));
    assert!(matches!(step, LoopStep::Reply(MessageFromThread::ConfigApplied)));
}

#[test]
fn close_camera_clears_the_handle_and_reports() {
    let mut worker = CameraThreadState::new();
    open_camera(&mut worker, "CamX", "usb:001,002");
    let step = worker.on_receive(RecvEvent::Order(MessageToThread::CloseCamera));
    assert!(matches!(step, LoopStep::Reply(MessageFromThread::CameraOpen(None))));
    // the handle is gone: reading the configuration now fails
    let step = worker.on_receive(RecvEvent::Order(MessageToThread::GetConfig));
    assert!(matches!(
        step,
        LoopStep::Reply(MessageFromThread::Error(AppError::Worker(WorkerError::NoCamera)))
    ));
}

#[test]
fn a_failed_open_leaves_no_camera() {
    let mut worker = CameraThreadState::new();
    let d = descriptor("CamX", "usb:001,002");
    let step = worker.on_receive(RecvEvent::Order(MessageToThread::UseCamera(d.clone())));
    assert!(matches!(step, LoopStep::Call(DeviceRequest::OpenCamera(_))));
    let step = worker.on_device(DeviceOutcome::Opened(
        d,
        Err(AppError::GPhotoError("unplugged".to_string())),
    ));
    assert!(matches!(step, LoopStep::Reply(MessageFromThread::Error(_))));
    let step = worker.on_receive(RecvEvent::Order(MessageToThread::GetConfig));
    assert!(matches!(
        step,
        LoopStep::Reply(MessageFromThread::Error(AppError::Worker(WorkerError::NoCamera)))
    ));
}
