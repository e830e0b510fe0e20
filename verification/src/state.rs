//! Frontend-side state: the camera list, the open camera with its settings
//! tree, the transient set of pending edits, and the application of
//! completions arriving from the device worker.

use vstd::prelude::*;

use crate::error::{AppError, ToUIError, UiError};
use crate::messages::{CameraDescriptor, CameraInfo, MessageFromThread, MessageToThread, PreviewImage};
use crate::settings::CameraSettings;
use crate::config_file::Settings;

verus! {

// ------------------------------------------------------------------
// Pending edits
// ------------------------------------------------------------------

/// The transient set of pending, unapplied edits to settings leaves: one
/// entry per edited node id, in first-edit order, each carrying its section's
/// id and the edited node. Applying or discarding clears the set whole.
#[derive(Debug)]
pub struct ModifiedSet {
    pub entries: Vec<(i32, CameraSettings)>,
}

/// At most one entry per node id.
pub open spec fn edits_wf(s: Seq<(i32, CameraSettings)>) -> bool {
    forall|k1: int, k2: int| 0 <= k1 < k2 < s.len() ==> s[k1].1.id != s[k2].1.id
}

/// Recording an edit: the entry of the same node id is overwritten in place
/// (the last edit wins, no history); a new id is appended.
pub open spec fn record_edit_spec(
    s: Seq<(i32, CameraSettings)>,
    section_id: i32,
    setting: CameraSettings,
) -> Seq<(i32, CameraSettings)> {
    if exists|k: int| 0 <= k < s.len() && s[k].1.id == setting.id {
        s.update(choose|k: int| 0 <= k < s.len() && s[k].1.id == setting.id, (section_id, setting))
    } else {
        s.push((section_id, setting))
    }
}

impl ModifiedSet {
    pub open spec fn wf(self) -> bool {
        edits_wf(self.entries@)
    }

    /// The empty set.
    pub fn new() -> (r: Self)
        ensures
            r.entries@.len() == 0,
            r.wf(),
    {
        ModifiedSet { entries: Vec::new() }
    }

    pub fn is_empty(&self) -> (r: bool)
        ensures
            r == (self.entries@.len() == 0),
    {
        self.entries.len() == 0
    }

    /// Records one edit; an edit of an already edited node replaces the
    /// earlier edit in place.
    pub fn record_edit(&mut self, section_id: i32, setting: CameraSettings)
        requires
            old(self).wf(),
        ensures
            final(self).wf(),
            final(self).entries@ == record_edit_spec(old(self).entries@, section_id, setting),
    {
        let ghost s0 = self.entries@;
        let id = setting.id;
        let mut k: usize = 0;
        while k < self.entries.len()
            invariant
                0 <= k <= self.entries@.len(),
                self.entries@ == s0,
                s0 == old(self).entries@,
                edits_wf(s0),
                id == setting.id,
                forall|k2: int| 0 <= k2 < k ==> s0[k2].1.id != id,
            decreases self.entries@.len() - k,
        {
            if self.entries[k].1.id == id {
                self.entries.remove(k);
                self.entries.insert(k, (section_id, setting));
                proof {
                    assert(self.entries@ =~= s0.update(k as int, (section_id, setting)));
                    let w = choose|w: int| 0 <= w < s0.len() && s0[w].1.id == id;
                    if w != k {
                        assert(s0[w].1.id != s0[k as int].1.id);
                        assert(false);
                    }
                }
                return ;
            }
            k += 1;
        }
        self.entries.push((section_id, setting));
        proof {
            if exists|w: int| 0 <= w < s0.len() && s0[w].1.id == id {
                let w = choose|w: int| 0 <= w < s0.len() && s0[w].1.id == id;
                assert(false);
            }
        }
    }

    /// Drops every pending edit; nothing is written to the device (no order
    /// leaves this function).
    pub fn discard(&mut self)
        ensures
            final(self).entries@.len() == 0,
            final(self).wf(),
    {
        self.entries = Vec::new();
    }

    /// Atomically drains the set into the ordered batch it hands to the
    /// apply order: the entries in first-edit order, the set left empty.
    pub fn begin_apply(&mut self) -> (batch: Vec<(i32, CameraSettings)>)
        ensures
            batch@ == old(self).entries@,
            final(self).entries@.len() == 0,
            final(self).wf(),
    {
        let mut batch: Vec<(i32, CameraSettings)> = Vec::new();
        core::mem::swap(&mut self.entries, &mut batch);
        batch
    }
}

/// The last edit wins: editing one node twice and then draining the batch
/// yields exactly one entry for that node, carrying the second edit.
pub proof fn lemma_last_edit_wins(
    sec1: i32,
    c1: CameraSettings,
    sec2: i32,
    c2: CameraSettings,
)
    requires
        c1.id == c2.id,
    ensures
        record_edit_spec(
            record_edit_spec(Seq::empty(), sec1, c1),
            sec2,
            c2,
        ) =~= seq![(sec2, c2)],
{
    let s0 = Seq::<(i32, CameraSettings)>::empty();
    let s1 = record_edit_spec(s0, sec1, c1);
    assert(s1 =~= seq![(sec1, c1)]);
    assert(s1[0].1.id == c2.id);
    let w = choose|k: int| 0 <= k < s1.len() && s1[k].1.id == c2.id;
    assert(w == 0);
}

// ------------------------------------------------------------------
// The open camera, as the frontend sees it
// ------------------------------------------------------------------

/// Frontend-side image of the open camera: its description, the last-read
/// settings tree, the pending edits, and the two user-interface flags.
#[derive(Debug)]
pub struct UICamera {
    pub info: CameraInfo,
    pub settings: Option<CameraSettings>,
    pub block_config: bool,
    pub modified_settings: ModifiedSet,
    pub live_view_enabled: bool,
}

impl UICamera {
    /// Records one pending edit of a settings leaf under its section.
    pub fn modify_setting(&mut self, section_id: i32, setting: CameraSettings)
        requires
            old(self).modified_settings.wf(),
        ensures
            final(self).modified_settings.wf(),
            final(self).modified_settings.entries@ == record_edit_spec(
                old(self).modified_settings.entries@,
                section_id,
                setting,
            ),
            final(self).info == old(self).info,
            final(self).settings == old(self).settings,
            final(self).block_config == old(self).block_config,
            final(self).live_view_enabled == old(self).live_view_enabled,
    {
        self.modified_settings.record_edit(section_id, setting);
    }

    /// Drops every pending edit without writing anything to the device.
    pub fn discard_settings(&mut self)
        ensures
            final(self).modified_settings.entries@.len() == 0,
            final(self).modified_settings.wf(),
            final(self).info == old(self).info,
            final(self).settings == old(self).settings,
            final(self).block_config == old(self).block_config,
            final(self).live_view_enabled == old(self).live_view_enabled,
    {
        self.modified_settings.discard();
    }
}

// ------------------------------------------------------------------
// The whole frontend state
// ------------------------------------------------------------------

/// Which panes the user keeps open.
#[derive(Debug, Clone, Copy, PartialEq, Eq, Structural)]
pub struct VisiblePanes {
    pub camera_info: bool,
    pub camera_settings: bool,
    pub camera_media: bool,
}

impl Default for VisiblePanes {
    /// Every pane starts visible.
    fn default() -> (r: Self)
        ensures
            r.camera_info && r.camera_settings && r.camera_media,
    {
        VisiblePanes { camera_info: true, camera_settings: true, camera_media: true }
    }
}

/// The frontend's own state. The execution context running the worker, and
/// anything a rendering backend owns, live outside; this is everything the
/// frontend decides on.
#[derive(Debug)]
pub struct AppState {
    pub camera_list: Vec<CameraDescriptor>,
    pub current_camera: Option<CameraDescriptor>,
    pub camera: Option<UICamera>,
    pub panes: VisiblePanes,
    pub settings: Settings,
    pub last_preview_capture: Option<PreviewImage>,
    pub errors: Vec<UiError>,
    pub first_load: bool,
}

/// Everything of the frontend state but the open camera is the same.
pub open spec fn same_but_camera(a: AppState, b: AppState) -> bool {
    &&& a.camera_list == b.camera_list
    &&& a.current_camera == b.current_camera
    &&& a.panes == b.panes
    &&& a.settings == b.settings
    &&& a.last_preview_capture == b.last_preview_capture
    &&& a.errors == b.errors
    &&& a.first_load == b.first_load
}

/// Everything of the frontend state but the error queue is the same.
pub open spec fn same_but_errors(a: AppState, b: AppState) -> bool {
    &&& a.camera_list == b.camera_list
    &&& a.current_camera == b.current_camera
    &&& a.camera == b.camera
    &&& a.panes == b.panes
    &&& a.settings == b.settings
    &&& a.last_preview_capture == b.last_preview_capture
    &&& a.first_load == b.first_load
}

/// The orders that opening a camera sends: close the old one where one is
/// open, then open the new one and read its settings tree.
pub open spec fn use_camera_orders(had_camera: bool, d: CameraDescriptor) -> Seq<MessageToThread> {
    if had_camera {
        seq![
            MessageToThread::CloseCamera,
            MessageToThread::UseCamera(d),
            MessageToThread::GetConfig,
        ]
    } else {
        seq![MessageToThread::UseCamera(d), MessageToThread::GetConfig]
    }
}

impl AppState {
    /// The pending-edit set of the open camera, if any, is well formed.
    pub open spec fn wf(self) -> bool {
        self.camera matches Some(c) ==> c.modified_settings.wf()
    }

    /// A fresh frontend: nothing discovered, nothing open, no errors, first
    /// load still ahead.
    pub fn new(settings: Settings) -> (r: Self)
        ensures
            r.camera_list@.len() == 0,
            r.current_camera is None,
            r.camera is None,
            r.settings == settings,
            r.last_preview_capture is None,
            r.errors@.len() == 0,
            r.first_load,
            r.panes.camera_info && r.panes.camera_settings && r.panes.camera_media,
            r.wf(),
    {
        AppState {
            camera_list: Vec::new(),
            current_camera: None,
            camera: None,
            panes: VisiblePanes { camera_info: true, camera_settings: true, camera_media: true },
            settings,
            last_preview_capture: None,
            errors: Vec::new(),
            first_load: true,
        }
    }

    /// The order that refreshes the camera list.
    pub fn update_cameras(&self) -> (m: MessageToThread)
        ensures
            m is ListCameras,
    {
        MessageToThread::ListCameras
    }

    /// The order that closes the open camera. The state clears when the
    /// worker's completion arrives, not here.
    pub fn close_camera(&mut self) -> (m: MessageToThread)
        ensures
            m is CloseCamera,
            *final(self) == *old(self),
    {
        MessageToThread::CloseCamera
    }

    /// The orders that switch to the camera behind `descriptor`: close the
    /// old camera where one is open, open the new one, read its settings.
    /// The local handle clears at once; the rest follows by completions.
    pub fn use_camera(&mut self, descriptor: CameraDescriptor) -> (orders: Vec<MessageToThread>)
        ensures
            orders@ == use_camera_orders((old(self).camera is Some), descriptor),
            final(self).camera is None,
            same_but_camera(*old(self), *final(self)),
            final(self).wf(),
    {
        let mut orders: Vec<MessageToThread> = Vec::new();
        if self.camera.is_some() {
            orders.push(MessageToThread::CloseCamera);
        }
        self.camera = None;
        orders.push(MessageToThread::UseCamera(descriptor));
        orders.push(MessageToThread::GetConfig);
        proof {
            assert(orders@ =~= use_camera_orders(old(self).camera is Some, descriptor));
        }
        orders
    }

    /// The order that re-reads the settings tree of the open camera.
    pub fn reload_settings(&self) -> (m: MessageToThread)
        ensures
            m is GetConfig,
    {
        MessageToThread::GetConfig
    }

    /// Drains the pending edits into one apply order and blocks further
    /// editing until a completion (success or failure) arrives. With no open
    /// camera there is nothing to apply and no order leaves.
    pub fn apply_settings(&mut self) -> (m: Option<MessageToThread>)
        requires
            old(self).wf(),
        ensures
            final(self).wf(),
            same_but_camera(*old(self), *final(self)),
            match old(self).camera {
                Some(cam) => {
                    &&& m matches Some(MessageToThread::ApplyConfig(batch))
                    &&& (m matches Some(MessageToThread::ApplyConfig(batch)) ==> batch@
                        == cam.modified_settings.entries@)
                    &&& final(self).camera matches Some(c2)
                    &&& (final(self).camera matches Some(c2) ==> c2.modified_settings.entries@.len()
                        == 0 && c2.block_config && c2.info == cam.info && c2.settings
                        == cam.settings && c2.live_view_enabled == cam.live_view_enabled)
                },
                None => m is None && *final(self) == *old(self),
            },
    {
        match &mut self.camera {
            Some(cam) => {
                let batch = cam.modified_settings.begin_apply();
                cam.block_config = true;
                Some(MessageToThread::ApplyConfig(batch))
            },
            None => None,
        }
    }

    /// Switches live view on or off: the local flag follows at once, and the
    /// worker is told. With no open camera nothing happens.
    pub fn set_live_view(&mut self, live_view: bool) -> (m: Option<MessageToThread>)
        requires
            old(self).wf(),
        ensures
            final(self).wf(),
            same_but_camera(*old(self), *final(self)),
            match old(self).camera {
                Some(cam) => {
                    &&& m == Some(MessageToThread::SetLiveView(live_view))
                    &&& final(self).camera matches Some(c2)
                    &&& (final(self).camera matches Some(c2) ==> c2.live_view_enabled == live_view
                        && c2.info == cam.info && c2.settings == cam.settings && c2.block_config
                        == cam.block_config && c2.modified_settings == cam.modified_settings)
                },
                None => m is None && *final(self) == *old(self),
            },
    {
        match &mut self.camera {
            Some(cam) => {
                cam.live_view_enabled = live_view;
                Some(MessageToThread::SetLiveView(live_view))
            },
            None => None,
        }
    }

    /// Applies one completion from the worker to the frontend state, in
    /// arrival order, and returns the orders it provokes (the first camera
    /// list received while the first load is still ahead opens its first
    /// camera). Every error is queued for display and never stops the
    /// frontend; an error received with a camera open also ends a pending
    /// apply, so the editing block clears on failure as on success.
    pub fn apply_from_thread(&mut self, msg: MessageFromThread) -> (orders: Vec<MessageToThread>)
        requires
            old(self).wf(),
        ensures
            final(self).wf(),
            final(self).settings == old(self).settings,
            final(self).panes == old(self).panes,
            final(self).first_load == old(self).first_load,
            match msg {
                MessageFromThread::PreviewCapture(img) => {
                    &&& orders@.len() == 0
                    &&& final(self).last_preview_capture == Some(img)
                    &&& final(self).camera == old(self).camera
                    &&& final(self).camera_list == old(self).camera_list
                    &&& final(self).current_camera == old(self).current_camera
                    &&& final(self).errors == old(self).errors
                },
                MessageFromThread::CameraList(l) => {
                    &&& final(self).camera_list == l
                    &&& final(self).current_camera == old(self).current_camera
                    &&& final(self).errors == old(self).errors
                    &&& final(self).last_preview_capture == old(self).last_preview_capture
                    &&& (old(self).first_load && l@.len() > 0) ==> (orders@ == use_camera_orders(
                        (old(self).camera is Some),
                        l@[0],
                    ) && final(self).camera is None)
                    &&& !(old(self).first_load && l@.len() > 0) ==> (orders@.len() == 0 && final(self).camera == old(self).camera)
                },
                MessageFromThread::CameraOpen(opened) => {
                    &&& orders@.len() == 0
                    &&& final(self).camera_list == old(self).camera_list
                    &&& final(self).errors == old(self).errors
                    &&& final(self).last_preview_capture == old(self).last_preview_capture
                    &&& match opened {
                        Some(info) => {
                            &&& final(self).current_camera matches Some(d)
                            &&& (final(self).current_camera matches Some(d) ==> d.model@
                                == info.model@ && d.port@ == info.port@)
                            &&& final(self).camera matches Some(c)
                            &&& (final(self).camera matches Some(c) ==> c.info == info
                                && c.settings is None && !c.block_config
                                && c.modified_settings.entries@.len() == 0
                                && !c.live_view_enabled)
                        },
                        None => final(self).camera is None && final(self).current_camera is None,
                    }
                },
                MessageFromThread::CameraConfig(cfg) => {
                    &&& orders@.len() == 0
                    &&& final(self).camera_list == old(self).camera_list
                    &&& final(self).current_camera == old(self).current_camera
                    &&& final(self).errors == old(self).errors
                    &&& final(self).last_preview_capture == old(self).last_preview_capture
                    &&& match old(self).camera {
                        Some(cam) => {
                            &&& final(self).camera matches Some(c)
                            &&& (final(self).camera matches Some(c) ==> c.settings == Some(cfg)
                                && c.info == cam.info && c.block_config == cam.block_config
                                && c.modified_settings == cam.modified_settings
                                && c.live_view_enabled == cam.live_view_enabled)
                        },
                        None => final(self).camera is None,
                    }
                },
                MessageFromThread::ConfigApplied => {
                    &&& orders@.len() == 0
                    &&& final(self).camera_list == old(self).camera_list
                    &&& final(self).current_camera == old(self).current_camera
                    &&& final(self).errors == old(self).errors
                    &&& final(self).last_preview_capture == old(self).last_preview_capture
                    &&& match old(self).camera {
                        Some(cam) => {
                            &&& final(self).camera matches Some(c)
                            &&& (final(self).camera matches Some(c) ==> !c.block_config && c.info
                                == cam.info && c.settings == cam.settings && c.modified_settings
                                == cam.modified_settings && c.live_view_enabled
                                == cam.live_view_enabled)
                        },
                        None => final(self).camera is None,
                    }
                },
                MessageFromThread::LiveViewStopped => {
                    &&& orders@.len() == 0
                    &&& final(self).camera_list == old(self).camera_list
                    &&& final(self).current_camera == old(self).current_camera
                    &&& final(self).errors == old(self).errors
                    &&& final(self).last_preview_capture == old(self).last_preview_capture
                    &&& match old(self).camera {
                        Some(cam) => {
                            &&& final(self).camera matches Some(c)
                            &&& (final(self).camera matches Some(c) ==> !c.live_view_enabled
                                && c.info == cam.info && c.settings == cam.settings
                                && c.block_config == cam.block_config && c.modified_settings
                                == cam.modified_settings)
                        },
                        None => final(self).camera is None,
                    }
                },
                MessageFromThread::Error(e) => {
                    &&& orders@.len() == 0
                    &&& final(self).camera_list == old(self).camera_list
                    &&& final(self).current_camera == old(self).current_camera
                    &&& final(self).last_preview_capture == old(self).last_preview_capture
                    &&& final(self).errors@.len() == old(self).errors@.len() + 1
                    &&& final(self).errors@.last().title@ == e.title_spec()
                    &&& final(self).errors@.last().message@ == e.detail_spec()
                    &&& final(self).errors@.take(old(self).errors@.len() as int) == old(self).errors@
                    &&& match old(self).camera {
                        Some(cam) => {
                            &&& final(self).camera matches Some(c)
                            &&& (final(self).camera matches Some(c) ==> !c.block_config && c.info
                                == cam.info && c.settings == cam.settings && c.modified_settings
                                == cam.modified_settings && c.live_view_enabled
                                == cam.live_view_enabled)
                        },
                        None => final(self).camera is None,
                    }
                },
            },
    {
        match msg {
            MessageFromThread::PreviewCapture(img) => {
                self.last_preview_capture = Some(img);
                Vec::new()
            },
            MessageFromThread::CameraList(l) => {
                self.camera_list = l;
                if self.first_load && self.camera_list.len() > 0 {
                    let first = self.camera_list[0].clone();
                    self.use_camera(first)
                } else {
                    Vec::new()
                }
            },
            MessageFromThread::CameraOpen(opened) => {
                match opened {
                    Some(info) => {
                        self.current_camera = Some(
                            CameraDescriptor { model: info.model.clone(), port: info.port.clone() },
                        );
                        self.camera = Some(
                            UICamera {
                                info,
                                settings: None,
                                block_config: false,
                                modified_settings: ModifiedSet::new(),
                                live_view_enabled: false,
                            },
                        );
                    },
                    None => {
                        self.camera = None;
                        self.current_camera = None;
                    },
                }
                Vec::new()
            },
            MessageFromThread::CameraConfig(cfg) => {
                if let Some(cam) = &mut self.camera {
                    cam.settings = Some(cfg);
                }
                Vec::new()
            },
            MessageFromThread::ConfigApplied => {
                if let Some(cam) = &mut self.camera {
                    cam.block_config = false;
                }
                Vec::new()
            },
            MessageFromThread::LiveViewStopped => {
                if let Some(cam) = &mut self.camera {
                    cam.live_view_enabled = false;
                }
                Vec::new()
            },
            MessageFromThread::Error(e) => {
                if let Some(cam) = &mut self.camera {
                    cam.block_config = false;
                }
                let ui = e.to_ui_error();
                self.show_error(ui);
                Vec::new()
            },
        }
    }

    /// Queues one error for display; the frontend keeps ticking.
    pub fn show_error(&mut self, error: UiError)
        ensures
            final(self).errors@ == old(self).errors@.push(error),
            same_but_errors(*old(self), *final(self)),
    {
        self.errors.push(error);
    }
}

// ------------------------------------------------------------------
// Catching errors into the display queue
// ------------------------------------------------------------------

/// A result whose error, if any, has already been queued for display.
pub struct CaughtAppResult<T> {
    pub result: Result<T, AppError>,
}

/// Queues the error of a failed result for display, keeping the result.
pub trait CatchAppResult<V> {
    fn catch(self, state: &mut AppState) -> CaughtAppResult<V>;
}

impl<T> CatchAppResult<T> for Result<T, AppError> {
    /// On failure, the error joins the display queue; the result itself is
    /// kept either way.
    fn catch(self, state: &mut AppState) -> (r: CaughtAppResult<T>)
        ensures
            r.result == self,
            self is Ok ==> *final(state) == *old(state),
            self matches Err(e) ==> {
                &&& final(state).errors@.len() == old(state).errors@.len() + 1
                &&& final(state).errors@.last().title@ == e.title_spec()
                &&& final(state).errors@.last().message@ == e.detail_spec()
                &&& final(state).errors@.take(old(state).errors@.len() as int) == old(state).errors@
                &&& same_but_errors(*old(state), *final(state))
            },
    {
        match self {
            Ok(v) => CaughtAppResult { result: Ok(v) },
            Err(err) => {
                let ui = err.to_ui_error();
                state.show_error(ui);
                CaughtAppResult { result: Err(err) }
            },
        }
    }
}

} // verus!
