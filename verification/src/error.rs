//! Typed failure values, and the decision that classifies the GPU driver's
//! post-call error query.

use vstd::prelude::*;

verus! {

/// The native entry points whose failures the library reports.  An error
/// value carries the variant of the call that failed.
#[derive(Clone, Copy, PartialEq, Eq, Structural, Debug)]
pub enum NativeCall {
    /// `eglGetDisplay`
    EglGetDisplay,
    /// `eglInitialize`
    EglInitialize,
    /// `graphics_get_display_size`
    GraphicsGetDisplaySize,
    /// `eglChooseConfig`
    EglChooseConfig,
    /// `eglBindAPI`
    EglBindApi,
    /// `eglCreateContext`
    EglCreateContext,
    /// `vc_dispmanx_display_open`
    VcDispmanxDisplayOpen,
    /// `vc_dispmanx_update_start`
    VcDispmanxUpdateStart,
    /// `vc_dispmanx_element_add`
    VcDispmanxElementAdd,
    /// `vc_dispmanx_update_submit_sync`
    VcDispmanxUpdateSubmitSync,
    /// `eglCreateWindowSurface`
    EglCreateWindowSurface,
    /// `eglMakeCurrent`
    EglMakeCurrent,
}

impl NativeCall {
    /// The entry point's name as the native library spells it.
    pub fn name(&self) -> (r: &'static str)
        ensures
            r@ == call_name(*self),
    {
        match *self {
            NativeCall::EglGetDisplay => "eglGetDisplay",
            NativeCall::EglInitialize => "eglInitialize",
            NativeCall::GraphicsGetDisplaySize => "graphics_get_display_size",
            NativeCall::EglChooseConfig => "eglChooseConfig",
            NativeCall::EglBindApi => "eglBindAPI",
            NativeCall::EglCreateContext => "eglCreateContext",
            NativeCall::VcDispmanxDisplayOpen => "vc_dispmanx_display_open",
            NativeCall::VcDispmanxUpdateStart => "vc_dispmanx_update_start",
            NativeCall::VcDispmanxElementAdd => "vc_dispmanx_element_add",
            NativeCall::VcDispmanxUpdateSubmitSync => "vc_dispmanx_update_submit_sync",
            NativeCall::EglCreateWindowSurface => "eglCreateWindowSurface",
            NativeCall::EglMakeCurrent => "eglMakeCurrent",
        }
    }
}

/// The spelling of each native entry point's name.
pub open spec fn call_name(c: NativeCall) -> Seq<char> {
    match c {
        NativeCall::EglGetDisplay => "eglGetDisplay"@,
        NativeCall::EglInitialize => "eglInitialize"@,
        NativeCall::GraphicsGetDisplaySize => "graphics_get_display_size"@,
        NativeCall::EglChooseConfig => "eglChooseConfig"@,
        NativeCall::EglBindApi => "eglBindAPI"@,
        NativeCall::EglCreateContext => "eglCreateContext"@,
        NativeCall::VcDispmanxDisplayOpen => "vc_dispmanx_display_open"@,
        NativeCall::VcDispmanxUpdateStart => "vc_dispmanx_update_start"@,
        NativeCall::VcDispmanxElementAdd => "vc_dispmanx_element_add"@,
        NativeCall::VcDispmanxUpdateSubmitSync => "vc_dispmanx_update_submit_sync"@,
        NativeCall::EglCreateWindowSurface => "eglCreateWindowSurface"@,
        NativeCall::EglMakeCurrent => "eglMakeCurrent"@,
    }
}

/// Why a required shared library could not be opened.
#[derive(Clone, PartialEq, Eq, Debug)]
pub enum LoadingError {
    /// The library file itself could not be found or opened; carries the
    /// loader's description.
    LibraryNotFound(String),
    /// A required symbol was missing from the library; carries the symbol's
    /// name.
    SymbolNotFound(String),
}

/// Possible errors of a system or window construction.
#[derive(Clone, PartialEq, Eq, Debug)]
pub enum Error {
    /// The GPU driver's error query returned a nonzero code after the named
    /// call.
    Gl(NativeCall, u32),
    /// The named call returned a sentinel/failure value with no richer code
    /// available.
    Fn(NativeCall),
    /// A required shared library could not be opened.
    Sl(LoadingError),
    /// The generic dynamic-symbol handle could not be opened.
    Dl(String),
}

/// Classifies the result of the GPU driver's error query made after the
/// named call: a nonzero code is a driver error carrying the call's name and
/// the code; zero is success.
pub fn gl_error(name: NativeCall, code: u32) -> (r: Result<(), Error>)
    ensures
        code == 0 ==> r is Ok,
        code != 0 ==> r == Result::<(), Error>::Err(Error::Gl(name, code)),
{
    if code != 0 {
        Err(Error::Gl(name, code))
    } else {
        Ok(())
    }
}

} // verus!
