//! The message protocol between the frontend and the device worker: work
//! orders travelling to the worker, completions travelling back, and the
//! device calls a work order needs.
//!
//! The two queues carry these values by move; the sides share no memory.

use vstd::prelude::*;

use crate::error::AppError;
use crate::settings::{CameraSettings, RadioChoice};

verus! {

/// Identity of a discovered camera: the display model and the port address.
/// Equality is by value; it serves as both a discovery result and a connect
/// request.
#[derive(Debug, PartialEq, Eq)]
pub struct CameraDescriptor {
    pub model: String,
    pub port: String,
}

impl Clone for CameraDescriptor {
    /// A clone is the same descriptor.
    fn clone(&self) -> (r: Self)
        ensures
            r == *self,
    {
        CameraDescriptor { model: self.model.clone(), port: self.port.clone() }
    }
}

/// The descriptive texts of an opened camera, as plain values.
#[derive(Debug, Clone, PartialEq, Eq)]
pub struct CameraInfo {
    pub model: String,
    pub port: String,
    pub manual: Option<String>,
    pub summary: Option<String>,
    pub about: Option<String>,
}

/// A decoded preview frame: dimensions and tightly packed RGBA bytes.
#[derive(Debug, Clone, PartialEq, Eq)]
pub struct PreviewImage {
    pub width: usize,
    pub height: usize,
    pub rgba: Vec<u8>,
}

impl PreviewImage {
    /// Four bytes per pixel, no padding.
    pub open spec fn wf(self) -> bool {
        self.rgba@.len() == 4 * self.width * self.height
    }
}

/// A work order: one unit of work for the device worker, executed exactly
/// once, in arrival order.
#[derive(Debug)]
pub enum MessageToThread {
    /// Discover the connected cameras.
    ListCameras,
    /// Open the camera behind the descriptor and read its description.
    UseCamera(CameraDescriptor),
    /// Drop the open camera, if any.
    CloseCamera,
    /// Read the full settings tree from the open camera.
    GetConfig,
    /// Write a batch of edited leaves, each with its section's id, in batch
    /// order; the first failing write aborts the rest.
    ApplyConfig(Vec<(i32, CameraSettings)>),
    /// Switch preview polling on or off; worker-local, with no completion.
    SetLiveView(bool),
    /// End the worker loop.
    Break,
}

/// A completion: one unit of work for the frontend, produced by a work order
/// (or by a preview attempt), executed exactly once, in production order.
#[derive(Debug)]
pub enum MessageFromThread {
    /// Install a decoded preview frame.
    PreviewCapture(PreviewImage),
    /// Install the discovered camera list.
    CameraList(Vec<CameraDescriptor>),
    /// Install the opened camera's description, or clear it.
    CameraOpen(Option<CameraInfo>),
    /// Install a freshly read settings tree.
    CameraConfig(CameraSettings),
    /// A configuration batch is done; editing may resume.
    ConfigApplied,
    /// Preview polling stopped because no camera is open.
    LiveViewStopped,
    /// A work order failed; the loop carries on.
    Error(AppError),
}

/// The value written back to one settings node.
#[derive(Debug, Clone, PartialEq, Eq)]
pub enum WriteValue {
    Text(String),
    /// A fixed-point range value, in the same embedding the tree uses.
    Range(i64),
    Toggle(bool),
    /// The resolved choice text.
    Choice(String),
    Date(i32),
    /// Press the button; there is no value.
    Press,
}

/// One write to the device: the node's name and the value.
#[derive(Debug, Clone, PartialEq, Eq)]
pub struct WriteCommand {
    pub name: String,
    pub value: WriteValue,
}

/// A call only the device itself can answer; the loop performs it and hands
/// the outcome back to the worker logic.
#[derive(Debug)]
pub enum DeviceRequest {
    ListCameras,
    OpenCamera(CameraDescriptor),
    ReadConfig,
    WriteNode(WriteCommand),
    CapturePreviewFrame,
}

/// The outcome of a device call, reduced to plain values.
#[derive(Debug)]
pub enum DeviceOutcome {
    /// Outcome of `ListCameras`.
    Cameras(Result<Vec<CameraDescriptor>, AppError>),
    /// Outcome of `OpenCamera`, with the descriptor it was made for.
    Opened(CameraDescriptor, Result<CameraInfo, AppError>),
    /// Outcome of `ReadConfig`: the raw widget tree, still unconverted.
    Config(Result<crate::settings::RawWidget, AppError>),
    /// Outcome of one `WriteNode`.
    Written(Result<(), AppError>),
    /// Outcome of `CapturePreviewFrame`: the encoded frame bytes.
    Preview(Result<Vec<u8>, AppError>),
}

/// The result of one receive attempt on the order queue.
#[derive(Debug)]
pub enum RecvEvent {
    /// An order arrived.
    Order(MessageToThread),
    /// Nothing queued (only reported by a non-blocking attempt).
    Empty,
    /// The frontend's sender is gone.
    Disconnected,
}

} // verus!
