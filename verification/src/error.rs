//! The errors that the library hands back to its caller.

use crate::text::append_text;
use vstd::prelude::*;

verus! {

/// An error, by where it arose, with a message for the user.
#[derive(Debug, PartialEq, Eq)]
pub enum AppError {
    Io(String),
    Ffmpeg(String),
    Tauri(String),
    Internal(String),
}

/// An error as contracts see it.
pub enum AppErrorView {
    Io(Seq<char>),
    Ffmpeg(Seq<char>),
    Tauri(Seq<char>),
    Internal(Seq<char>),
}

impl View for AppError {
    type V = AppErrorView;

    open spec fn view(&self) -> AppErrorView {
        match self {
            AppError::Io(m) => AppErrorView::Io(m@),
            AppError::Ffmpeg(m) => AppErrorView::Ffmpeg(m@),
            AppError::Tauri(m) => AppErrorView::Tauri(m@),
            AppError::Internal(m) => AppErrorView::Internal(m@),
        }
    }
}

impl Clone for AppError {
    fn clone(&self) -> (r: Self)
        ensures
            r@ == self@,
    {
        match self {
            AppError::Io(m) => AppError::Io(m.clone()),
            AppError::Ffmpeg(m) => AppError::Ffmpeg(m.clone()),
            AppError::Tauri(m) => AppError::Tauri(m.clone()),
            AppError::Internal(m) => AppError::Internal(m.clone()),
        }
    }
}

/// The line that presents an error: its kind, then its message.
pub open spec fn described(e: AppErrorView) -> Seq<char> {
    match e {
        AppErrorView::Io(m) => "I/O Error: "@ + m,
        AppErrorView::Ffmpeg(m) => "FFmpeg Error: "@ + m,
        AppErrorView::Tauri(m) => "Tauri Error: "@ + m,
        AppErrorView::Internal(m) => "Internal Error: "@ + m,
    }
}

impl AppError {
    /// The line that presents this error.
    pub fn describe(&self) -> (line: String)
        ensures
            line@ == described(self@),
    {
        match self {
            AppError::Io(m) => append_text("I/O Error: ", m.as_str()),
            AppError::Ffmpeg(m) => append_text("FFmpeg Error: ", m.as_str()),
            AppError::Tauri(m) => append_text("Tauri Error: ", m.as_str()),
            AppError::Internal(m) => append_text("Internal Error: ", m.as_str()),
        }
    }
}

} // verus!
