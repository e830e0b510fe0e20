//! Error taxonomy of the application.

use vstd::prelude::*;

verus! {

/// A required attribute of a raw widget that the settings parser could not
/// read.
#[derive(Clone, Copy, Debug, PartialEq, Eq, Structural)]
pub enum FieldKind {
    Id,
    Name,
    Label,
    Readonly,
    Value,
    Bounds,
    Choice,
    Timestamp,
}

/// Failure of the raw-widget-tree conversion: a required attribute could not
/// be read from a node. The first failure, depth first, is reported.
#[derive(Clone, Copy, Debug, PartialEq, Eq, Structural)]
pub enum ConfigError {
    UnreadableField(FieldKind),
}

/// A failure arising in the device worker itself, not in any outside call.
#[derive(Clone, Copy, Debug, PartialEq, Eq, Structural)]
pub enum WorkerError {
    /// The peer end of a queue is gone; the sole fatal condition.
    ChannelClosed,
    /// An order needed an open camera and none is open.
    NoCamera,
    /// A configuration batch carried a group node, which cannot be written.
    Unwritable,
}

/// The application's error taxonomy. Device failures, malformed preview
/// frames, unreadable configuration trees and worker conditions all surface
/// through this one type.
#[derive(Debug, Clone)]
pub enum AppError {
    /// The native camera backend failed a call.
    GPhotoError(String),
    /// A failure with no more specific classification.
    Unknown(String),
    /// An operating system I/O failure.
    IoError(String),
    /// A channel or thread failure.
    ThreadError(String),
    /// A preview frame could not be decoded.
    ImageError(String),
    /// The raw settings tree could not be converted.
    Config(ConfigError),
    /// A condition of the device worker itself.
    Worker(WorkerError),
}

pub type AppResult<T> = Result<T, AppError>;

impl AppError {
    /// A short heading for the error kind, fit for a dialog title.
    pub fn title(&self) -> (r: &'static str)
        ensures
            r@ == self.title_spec(),
    {
        match self {
            AppError::GPhotoError(_) => "Gphoto Error",
            AppError::Unknown(_) => "Unknown Error",
            AppError::IoError(_) => "I/O Error",
            AppError::ThreadError(_) => "Threading Error",
            AppError::ImageError(_) => "Image Error",
            AppError::Config(_) => "Configuration Error",
            AppError::Worker(_) => "Worker Error",
        }
    }

    pub open spec fn title_spec(&self) -> Seq<char> {
        match self {
            AppError::GPhotoError(_) => "Gphoto Error"@,
            AppError::Unknown(_) => "Unknown Error"@,
            AppError::IoError(_) => "I/O Error"@,
            AppError::ThreadError(_) => "Threading Error"@,
            AppError::ImageError(_) => "Image Error"@,
            AppError::Config(_) => "Configuration Error"@,
            AppError::Worker(_) => "Worker Error"@,
        }
    }

    /// The carried detail text, without the heading.
    pub open spec fn detail_spec(&self) -> Seq<char> {
        match self {
            AppError::GPhotoError(s) => s@,
            AppError::Unknown(s) => s@,
            AppError::IoError(s) => s@,
            AppError::ThreadError(s) => s@,
            AppError::ImageError(s) => s@,
            AppError::Config(c) => field_text_spec(c.field()),
            AppError::Worker(w) => worker_text_spec(*w),
        }
    }
}

impl ConfigError {
    pub open spec fn field(&self) -> FieldKind {
        match self {
            ConfigError::UnreadableField(f) => *f,
        }
    }
}

/// The wording used when reporting which attribute was unreadable.
pub open spec fn field_text_spec(f: FieldKind) -> Seq<char> {
    match f {
        FieldKind::Id => "could not read the widget id"@,
        FieldKind::Name => "could not read the widget name"@,
        FieldKind::Label => "could not read the widget label"@,
        FieldKind::Readonly => "could not read the read-only flag"@,
        FieldKind::Value => "could not read the widget value"@,
        FieldKind::Bounds => "could not read consistent range bounds"@,
        FieldKind::Choice => "could not read the current choice"@,
        FieldKind::Timestamp => "could not read the timestamp"@,
    }
}

/// Exec twin of [`field_text_spec`].
pub fn field_text(f: FieldKind) -> (r: &'static str)
    ensures
        r@ == field_text_spec(f),
{
    match f {
        FieldKind::Id => "could not read the widget id",
        FieldKind::Name => "could not read the widget name",
        FieldKind::Label => "could not read the widget label",
        FieldKind::Readonly => "could not read the read-only flag",
        FieldKind::Value => "could not read the widget value",
        FieldKind::Bounds => "could not read consistent range bounds",
        FieldKind::Choice => "could not read the current choice",
        FieldKind::Timestamp => "could not read the timestamp",
    }
}

/// The wording used when reporting a worker condition.
pub open spec fn worker_text_spec(w: WorkerError) -> Seq<char> {
    match w {
        WorkerError::ChannelClosed => "the other side of the channel is gone"@,
        WorkerError::NoCamera => "cannot use a camera command when there is no camera"@,
        WorkerError::Unwritable => "a group node cannot be written back"@,
    }
}

/// Exec twin of [`worker_text_spec`].
pub fn worker_text(w: WorkerError) -> (r: &'static str)
    ensures
        r@ == worker_text_spec(w),
{
    match w {
        WorkerError::ChannelClosed => "the other side of the channel is gone",
        WorkerError::NoCamera => "cannot use a camera command when there is no camera",
        WorkerError::Unwritable => "a group node cannot be written back",
    }
}

/// An error as the frontend queues it for display: a static heading and the
/// detail text.
#[derive(Debug, Clone)]
pub struct UiError {
    pub title: &'static str,
    pub message: String,
}

/// Conversion of an error into its user-facing form.
pub trait ToUIError {
    fn to_ui_error(&self) -> UiError;
}

impl ToUIError for AppError {
    /// Builds the user-facing form: the heading for the kind and the carried
    /// detail text.
    fn to_ui_error(&self) -> (r: UiError)
        ensures
            r.title@ == self.title_spec(),
            r.message@ == self.detail_spec(),
    {
        let message = match self {
            AppError::GPhotoError(s) => s.clone(),
            AppError::Unknown(s) => s.clone(),
            AppError::IoError(s) => s.clone(),
            AppError::ThreadError(s) => s.clone(),
            AppError::ImageError(s) => s.clone(),
            AppError::Config(c) => {
                let f = match c {
                    ConfigError::UnreadableField(f) => *f,
                };
                field_text(f).to_owned()
            },
            AppError::Worker(w) => worker_text(*w).to_owned(),
        };
        UiError { title: self.title(), message }
    }
}

} // verus!
