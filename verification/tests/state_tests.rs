//! Tests of the frontend state: pending edits, completion application, the
//! end-to-end open-edit-apply scenario, and error display.

use gcam::camera_loop::{CameraThreadState, LoopStep};
use gcam::config_file::Settings;
use gcam::error::{AppError, ToUIError, WorkerError};
use gcam::state::CatchAppResult;
use gcam::messages::{
    CameraDescriptor, CameraInfo, DeviceOutcome, DeviceRequest, MessageFromThread,
    MessageToThread, PreviewImage, RecvEvent, WriteValue,
};
use gcam::settings::{CameraSettings, RawKind, RawWidget, StaticWidget};
use gcam::state::{AppState, ModifiedSet, UICamera, VisiblePanes};

fn range_leaf(id: i32, name: &str, value: i64) -> CameraSettings {
    CameraSettings {
        id,
        name: name.to_string(),
        label: name.to_string(),
        widget: StaticWidget::Range { value, min: 0, max: 100, step: 1 },
        readonly: false,
    }
}

fn fresh_state() -> AppState {
    AppState::new(Settings::default())
}

fn open_ui_camera(state: &mut AppState) {
    let info = CameraInfo {
        model: "CamX".to_string(),
        port: "usb:001,002".to_string(),
        manual: None,
        summary: None,
        about: None,
    };
    let orders = state.apply_from_thread(MessageFromThread::CameraOpen(Some(info)));
    assert!(orders.is_empty());
    assert!(state.camera.is_some());
}

#[test]
fn panes_start_visible() {
    let panes = VisiblePanes::default();
    assert!(panes.camera_info && panes.camera_settings && panes.camera_media);
}

#[test]
fn record_then_discard_leaves_the_set_empty() {
    let mut set = ModifiedSet::new();
    set.record_edit(10, range_leaf(21, "exposure", 42));
    assert!(!set.is_empty());
    set.discard();
    assert!(set.is_empty());
    // nothing queued for the device: draining now yields an empty batch
    assert!(set.begin_apply().is_empty());
}

#[test]
fn recording_the_same_id_twice_keeps_one_entry_with_the_second_edit() {
    let mut set = ModifiedSet::new();
    set.record_edit(10, range_leaf(5, "exposure", 41));
    set.record_edit(11, range_leaf(5, "exposure", 42));
    let batch = set.begin_apply();
    assert!(set.is_empty());
    assert_eq!(batch.len(), 1);
    assert_eq!(batch[0].0, 11);
    assert_eq!(batch[0].1.widget, StaticWidget::Range { value: 42, min: 0, max: 100, step: 1 });
}

#[test]
fn begin_apply_keeps_first_edit_order() {
    let mut set = ModifiedSet::new();
    set.record_edit(1, range_leaf(5, "a", 1));
    set.record_edit(1, range_leaf(7, "b", 2));
    set.record_edit(1, range_leaf(5, "a", 3));
    let batch = set.begin_apply();
    let ids: Vec<i32> = batch.iter().map(|(_, c)| c.id).collect();
    assert_eq!(ids, vec![5, 7]);
}

#[test]
fn ui_camera_edits_go_through_the_modified_set() {
    let mut state = fresh_state();
    open_ui_camera(&mut state);
    let cam: &mut UICamera = state.camera.as_mut().unwrap();
    cam.modify_setting(10, range_leaf(21, "exposure", 42));
    assert!(!cam.modified_settings.is_empty());
    cam.discard_settings();
    assert!(cam.modified_settings.is_empty());
}

#[test]
fn apply_settings_drains_edits_and_blocks_until_a_completion() {
    let mut state = fresh_state();
    open_ui_camera(&mut state);
    state.camera.as_mut().unwrap().modify_setting(10, range_leaf(21, "exposure", 42));
    let order = state.apply_settings().expect("an apply order must leave");
    match order {
        MessageToThread::ApplyConfig(batch) => assert_eq!(batch.len(), 1),
        _ => panic!("expected an apply order"),
    }
    let cam = state.camera.as_ref().unwrap();
    assert!(cam.block_config);
    assert!(cam.modified_settings.is_empty());
    // the completion lifts the block
    let orders = state.apply_from_thread(MessageFromThread::ConfigApplied);
    assert!(orders.is_empty());
    assert!(!state.camera.as_ref().unwrap().block_config);
}

#[test]
fn apply_settings_without_camera_sends_nothing() {
    let mut state = fresh_state();
    assert!(state.apply_settings().is_none());
}

#[test]
fn set_live_view_follows_locally_and_tells_the_worker() {
    let mut state = fresh_state();
    assert!(state.set_live_view(true).is_none());
    open_ui_camera(&mut state);
    match state.set_live_view(true) {
        Some(MessageToThread::SetLiveView(true)) => {}
        _ => panic!("expected the live-view order"),
    }
    assert!(state.camera.as_ref().unwrap().live_view_enabled);
    // the worker's own stop clears the flag again
    let orders = state.apply_from_thread(MessageFromThread::LiveViewStopped);
    assert!(orders.is_empty());
    assert!(!state.camera.as_ref().unwrap().live_view_enabled);
}

#[test]
fn every_error_is_queued_and_none_stops_the_frontend() {
    let mut state = fresh_state();
    let orders = state.apply_from_thread(MessageFromThread::Error(AppError::GPhotoError(
        "busy".to_string(),
    )));
    assert!(orders.is_empty());
    assert_eq!(state.errors.len(), 1);
    assert_eq!(state.errors[0].title, "Gphoto Error");
    assert_eq!(state.errors[0].message, "busy");
    let orders = state.apply_from_thread(MessageFromThread::Error(AppError::Worker(
        WorkerError::ChannelClosed,
    )));
    assert!(orders.is_empty());
    assert_eq!(state.errors.len(), 2);
    assert_eq!(state.errors[1].title, "Worker Error");
}

#[test]
fn catch_queues_the_error_and_keeps_the_result() {
    let mut state = fresh_state();
    let ok: Result<i32, AppError> = Ok(7);
    let caught = ok.catch(&mut state);
    assert!(matches!(caught.result, Ok(7)));
    assert!(state.errors.is_empty());
    let err: Result<i32, AppError> = Err(AppError::Unknown("odd".to_string()));
    let caught = err.catch(&mut state);
    assert!(caught.result.is_err());
    assert_eq!(state.errors.len(), 1);
    assert_eq!(state.errors[0].title, "Unknown Error");
    assert_eq!(state.errors[0].message, "odd");
}

#[test]
fn to_ui_error_names_each_kind() {
    assert_eq!(AppError::IoError("x".to_string()).to_ui_error().title, "I/O Error");
    assert_eq!(AppError::ThreadError("x".to_string()).to_ui_error().title, "Threading Error");
    assert_eq!(AppError::ImageError("x".to_string()).to_ui_error().title, "Image Error");
    let ui = AppError::Worker(WorkerError::NoCamera).to_ui_error();
    assert_eq!(ui.title, "Worker Error");
    assert_eq!(ui.message, "cannot use a camera command when there is no camera");
}

#[test]
fn preview_completions_install_the_last_frame() {
    let mut state = fresh_state();
    let img = PreviewImage { width: 1, height: 1, rgba: vec![1, 2, 3, 4] };
    let orders = state.apply_from_thread(MessageFromThread::PreviewCapture(img));
    assert!(orders.is_empty());
    let held = state.last_preview_capture.as_ref().unwrap();
    assert_eq!((held.width, held.height), (1, 1));
}

#[test]
fn settings_exclusion_list_decides_visibility() {
    let mut settings = Settings::default();
    assert!(!settings.is_excluded(&"other".to_string()));
    settings.dev_settings.exclude_settings.push("other".to_string());
    assert!(settings.is_excluded(&"other".to_string()));
    assert!(!settings.is_excluded(&"status".to_string()));
}

#[test]
fn end_to_end_discovery_open_edit_apply() {
    // the frontend and the worker, wired together the way the application
    // runs them, over a scripted device
    let mut state = fresh_state();
    let mut worker = CameraThreadState::new();

    // discovery
    let step = worker.on_receive(RecvEvent::Order(state.update_cameras()));
    assert!(matches!(step, LoopStep::Call(DeviceRequest::ListCameras)));
    let found = vec![CameraDescriptor {
        model: "CamX".to_string(),
        port: "usb:001,002".to_string(),
    }];
    let reply = match worker.on_device(DeviceOutcome::Cameras(Ok(found))) {
        LoopStep::Reply(m) => m,
        _ => panic!("discovery owes a completion"),
    };

    // the first camera list opens the first camera
    let orders = state.apply_from_thread(reply);
    let kinds: Vec<&MessageToThread> = orders.iter().collect();
    assert_eq!(kinds.len(), 2);
    assert!(matches!(kinds[0], MessageToThread::UseCamera(_)));
    assert!(matches!(kinds[1], MessageToThread::GetConfig));
    assert_eq!(state.camera_list.len(), 1);

    // the worker executes both orders against the scripted device
    let mut completions: Vec<MessageFromThread> = Vec::new();
    for order in orders {
        let mut step = worker.on_receive(RecvEvent::Order(order));
        loop {
            match step {
                LoopStep::Call(DeviceRequest::OpenCamera(d)) => {
                    let info = CameraInfo {
                        model: d.model.clone(),
                        port: d.port.clone(),
                        manual: None,
                        summary: None,
                        about: None,
                    };
                    step = worker.on_device(DeviceOutcome::Opened(d, Ok(info)));
                }
                LoopStep::Call(DeviceRequest::ReadConfig) => {
                    let raw = RawWidget {
                        id: Some(1),
                        name: Some("main".to_string()),
                        label: Some("Main".to_string()),
                        readonly: Some(false),
                        kind: RawKind::Group {
                            children: vec![RawWidget {
                                id: Some(10),
                                name: Some("status".to_string()),
                                label: Some("Status".to_string()),
                                readonly: Some(false),
                                kind: RawKind::Group {
                                    children: vec![RawWidget {
                                        id: Some(21),
                                        name: Some("exposure".to_string()),
                                        label: Some("Exposure".to_string()),
                                        readonly: Some(false),
                                        kind: RawKind::Range {
                                            value: Some(50),
                                            min: Some(0),
                                            max: Some(100),
                                            step: Some(1),
                                        },
                                    }],
                                },
                            }],
                        },
                    };
                    step = worker.on_device(DeviceOutcome::Config(Ok(raw)));
                }
                LoopStep::Reply(m) => {
                    completions.push(m);
                    break;
                }
                _ => panic!("unexpected step"),
            }
        }
    }
    for m in completions {
        let more = state.apply_from_thread(m);
        assert!(more.is_empty());
    }

    // the tree arrived, its root is a group holding the status subtree
    let (edited, status_id) = {
        let cam = state.camera.as_ref().unwrap();
        assert_eq!(cam.info.model, "CamX");
        let tree = cam.settings.as_ref().unwrap();
        assert!(matches!(tree.widget, StaticWidget::Group { .. }));
        let status = tree.get_child("status").expect("status subtree");

        // edit the range leaf with a value over the bound: it is clamped
        let leaf = status.get_child("exposure").expect("exposure leaf");
        let edited = leaf.edit_range_value(250).expect("a range accepts an edit");
        assert_eq!(
            edited.widget,
            StaticWidget::Range { value: 100, min: 0, max: 100, step: 1 }
        );
        (edited, status.id)
    };
    state.camera.as_mut().unwrap().modify_setting(status_id, edited);

    // apply: exactly one write goes out, carrying the clamped value
    let order = state.apply_settings().expect("an apply order must leave");
    let mut step = worker.on_receive(RecvEvent::Order(order));
    let mut writes: Vec<(String, WriteValue)> = Vec::new();
    let done = loop {
        match step {
            LoopStep::Call(DeviceRequest::WriteNode(cmd)) => {
                writes.push((cmd.name, cmd.value));
                step = worker.on_device(DeviceOutcome::Written(Ok(())));
            }
            LoopStep::Reply(m) => break m,
            _ => panic!("unexpected step during the apply"),
        }
    };
    assert_eq!(writes, vec![("exposure".to_string(), WriteValue::Range(100))]);

    // the completion unblocks editing; the set stayed drained
    state.apply_from_thread(done);
    let cam = state.camera.as_ref().unwrap();
    assert!(!cam.block_config);
    assert!(cam.modified_settings.is_empty());
}
