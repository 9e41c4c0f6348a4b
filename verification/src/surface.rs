//! Surfaces: the binding of an instance to a native window.

use vstd::prelude::*;
use vstd::string::*;
use raw_window_handle::RawWindowHandle;
use crate::error::{message_text, result_description, Error, SUCCESS};
use crate::instance::Instance;

verus! {

#[verifier::external_type_specification]
#[verifier::external_body]
pub struct ExRawWindowHandle(raw_window_handle::RawWindowHandle);

/// What is read of a native window handle: the two handles of a Win32
/// window, or that the window is of another kind.
#[derive(Debug, Clone, Copy, PartialEq, Eq, Structural)]
pub enum WindowHandle {
    Win32 { hwnd: usize, hinstance: usize },
    Other,
}

/// What a native window handle holds, as far as it is read: for the Win32
/// variant its two addresses, for every other variant that it is of another
/// kind.
pub uninterp spec fn window_reading(raw: RawWindowHandle) -> WindowHandle;

/// Tells the variants of `raw_window_handle::RawWindowHandle` apart: of a
/// Win32 handle it takes the two addresses, every other variant counts as
/// another kind. What is read depends on the handle alone.
#[verifier::external_body]
fn read_window_handle(raw: &RawWindowHandle) -> (window: WindowHandle)
    ensures
        window == window_reading(*raw),
{
    match raw {
        RawWindowHandle::Win32(h) => WindowHandle::Win32 {
            hwnd: h.hwnd as usize,
            hinstance: h.hinstance as usize,
        },
        _ => WindowHandle::Other,
    }
}

/// Why no surface came about.
#[derive(Debug, Clone, Copy, PartialEq, Eq, Structural)]
pub enum SurfaceError {
    /// The window is of a kind for which no surface can be created.
    NotSupported,
    /// The creation call reported a code other than success.
    Native(Error),
}

/// What is reported of a window of an unsupported kind.
pub const NOT_SUPPORTED: &'static str = "not supported";

/// What is reported, before the code, where the creation call failed.
pub const SURFACE_NOT_CREATED: &'static str = "Failed to create surface object: ";

/// The message of each failure.
pub open spec fn surface_error_text(error: SurfaceError) -> Seq<char> {
    match error {
        SurfaceError::NotSupported => NOT_SUPPORTED@,
        SurfaceError::Native(e) => SURFACE_NOT_CREATED@ + message_text(
            result_description(e.code),
            e.code,
        ),
    }
}

impl SurfaceError {
    /// The message of this failure.
    pub fn message(&self) -> (text: String)
        ensures
            text@ == surface_error_text(*self),
    {
        match self {
            SurfaceError::NotSupported => NOT_SUPPORTED.to_owned(),
            SurfaceError::Native(e) => {
                let mut text = SURFACE_NOT_CREATED.to_owned();
                let detail = e.message();
                text.append(detail.as_str());
                text
            },
        }
    }
}

/// What a Win32 surface is created with.
#[derive(Debug, Clone, Copy, PartialEq, Eq, Structural)]
pub struct Win32SurfaceCreateInfo {
    pub instance: u64,
    pub hinstance: usize,
    pub hwnd: usize,
}

/// A surface of an instance. It is destroyed before its instance.
#[derive(Debug, Clone, Copy, PartialEq, Eq, Structural)]
pub struct SurfaceKhr {
    pub handle: u64,
    pub instance: Instance,
}

/// The creation parameters for a window, where its kind is supported.
pub open spec fn surface_request(instance: Instance, window: WindowHandle) -> Result<
    Win32SurfaceCreateInfo,
    SurfaceError,
> {
    match window {
        WindowHandle::Win32 { hwnd, hinstance } => Ok(
            Win32SurfaceCreateInfo { instance: instance.handle, hinstance, hwnd },
        ),
        WindowHandle::Other => Err(SurfaceError::NotSupported),
    }
}

/// The surface that a creation call gave for a window. For a window of a
/// supported kind there is a surface exactly where the call reported success;
/// otherwise the error carries the code. For any other window there is none,
/// whatever was reported.
pub open spec fn surface_outcome(
    instance: Instance,
    window: WindowHandle,
    code: i32,
    handle: u64,
) -> Result<SurfaceKhr, SurfaceError> {
    match window {
        WindowHandle::Win32 { .. } => if code == SUCCESS {
            Ok(SurfaceKhr { handle, instance })
        } else {
            Err(SurfaceError::Native(Error { code }))
        },
        WindowHandle::Other => Err(SurfaceError::NotSupported),
    }
}

impl WindowHandle {
    /// Reads a native window handle: the result is what the handle holds.
    /// What a surface is created with, and whether one comes about, follows
    /// from the result alone.
    pub fn from_raw(raw: &RawWindowHandle) -> (window: WindowHandle)
        ensures
            window == window_reading(*raw),
    {
        read_window_handle(raw)
    }
}

impl SurfaceKhr {
    /// What to create the surface of a window with; only Win32 windows are
    /// supported.
    pub fn create_info(instance: &Instance, window: &WindowHandle) -> (request: Result<
        Win32SurfaceCreateInfo,
        SurfaceError,
    >)
        ensures
            request == surface_request(*instance, *window),
    {
        match window {
            WindowHandle::Win32 { hwnd, hinstance } => Ok(
                Win32SurfaceCreateInfo {
                    instance: instance.handle,
                    hinstance: *hinstance,
                    hwnd: *hwnd,
                },
            ),
            WindowHandle::Other => Err(SurfaceError::NotSupported),
        }
    }

    /// The surface that a creation call gave for a window.
    pub fn new(instance: &Instance, window: &WindowHandle, code: i32, handle: u64) -> (outcome:
        Result<SurfaceKhr, SurfaceError>)
        ensures
            outcome == surface_outcome(*instance, *window, code, handle),
            outcome is Ok <==> window is Win32 && code == SUCCESS,
    {
        match window {
            WindowHandle::Win32 { .. } => {
                if code == SUCCESS {
                    Ok(SurfaceKhr { handle, instance: *instance })
                } else {
                    Err(SurfaceError::Native(Error::new(code)))
                }
            },
            WindowHandle::Other => Err(SurfaceError::NotSupported),
        }
    }
}

/// The transforms that a surface supports.
pub struct SurfaceTransformKhr {
    pub identity: bool,
    pub rotate_90: bool,
    pub rotate_180: bool,
    pub rotate_270: bool,
    pub horizontal_mirror: bool,
    pub horizontal_mirror_rotate_90: bool,
    pub horizontal_mirror_rotate_180: bool,
    pub horizontal_mirror_rotate_270: bool,
    pub inherit: bool,
}

impl SurfaceTransformKhr {
    /// Whether the surface can be presented as it is.
    pub fn identity(&self) -> (held: bool)
        ensures
            held == self.identity,
    {
        self.identity
    }

    /// Whether the surface can be rotated by 90 degrees.
    pub fn rotate_90(&self) -> (held: bool)
        ensures
            held == self.rotate_90,
    {
        self.rotate_90
    }

    /// Whether the surface can be rotated by 180 degrees.
    pub fn rotate_180(&self) -> (held: bool)
        ensures
            held == self.rotate_180,
    {
        self.rotate_180
    }

    /// Whether the surface can be rotated by 270 degrees.
    pub fn rotate_270(&self) -> (held: bool)
        ensures
            held == self.rotate_270,
    {
        self.rotate_270
    }

    /// Whether the surface can be mirrored horizontally.
    pub fn horizontal_mirror(&self) -> (held: bool)
        ensures
            held == self.horizontal_mirror,
    {
        self.horizontal_mirror
    }

    /// Whether the surface can be mirrored horizontally and rotated by 90 degrees.
    pub fn horizontal_mirror_rotate_90(&self) -> (held: bool)
        ensures
            held == self.horizontal_mirror_rotate_90,
    {
        self.horizontal_mirror_rotate_90
    }

    /// Whether the surface can be mirrored horizontally and rotated by 180 degrees.
    pub fn horizontal_mirror_rotate_180(&self) -> (held: bool)
        ensures
            held == self.horizontal_mirror_rotate_180,
    {
        self.horizontal_mirror_rotate_180
    }

    /// Whether the surface can be mirrored horizontally and rotated by 270 degrees.
    pub fn horizontal_mirror_rotate_270(&self) -> (held: bool)
        ensures
            held == self.horizontal_mirror_rotate_270,
    {
        self.horizontal_mirror_rotate_270
    }

    /// Whether the transform is left to the platform.
    pub fn inherit(&self) -> (held: bool)
        ensures
            held == self.inherit,
    {
        self.inherit
    }
}

} // verus!
