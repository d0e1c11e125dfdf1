//! The window: configuration selection, context and surface creation in
//! strict dependency order, the compositor element's geometry, and teardown
//! in the exact reverse order.
//!
//! The native calls themselves happen outside this crate.  [`WindowBuilder`]
//! is driven through the fixed construction sequence by feeding it each
//! native result as a plain value; any failure short-circuits with the typed
//! error while the handles already created stay recorded, so the teardown
//! plan of the partial window releases exactly what was allocated.

use vstd::prelude::*;

use crate::config::WindowConfig;
use crate::error::{Error, NativeCall};
use crate::handle::Handle;

verus! {

/// Attribute key requesting the surface kinds a configuration must support.
pub const EGL_SURFACE_TYPE: i32 = 0x3033;

/// Surface-kind bit for window surfaces.
pub const EGL_WINDOW_BIT: i32 = 0x0004;

/// Attribute key for the red channel's bit depth.
pub const EGL_RED_SIZE: i32 = 0x3024;

/// Attribute key for the green channel's bit depth.
pub const EGL_GREEN_SIZE: i32 = 0x3023;

/// Attribute key for the blue channel's bit depth.
pub const EGL_BLUE_SIZE: i32 = 0x3022;

/// Attribute key for the alpha channel's bit depth.
pub const EGL_ALPHA_SIZE: i32 = 0x3021;

/// Attribute key for the depth buffer's bit depth.
pub const EGL_DEPTH_SIZE: i32 = 0x3025;

/// The attribute list terminator, and the "no value" attribute.
pub const EGL_NONE: i32 = 0x3038;

/// Context attribute key for the client API version.
pub const EGL_CONTEXT_CLIENT_VERSION: i32 = 0x3098;

/// The one supported client API generation the window binds.
pub const EGL_OPENGL_ES_API: u32 = 0x30A0;

/// Success status of a compositor update submission.
pub const DISPMANX_SUCCESS: i32 = 0;

/// Protection mode passed when the compositor element is added.
pub const DISPMANX_PROTECTION_NONE: u32 = 0;

/// The device index of the compositor-layer display a window opens.
pub const DISPMANX_DEVICE: u32 = 0;

/// A configuration's numeric values all fit the context API's signed 32-bit
/// attribute entries and the descriptor's signed 32-bit dimensions — the
/// machine limit of the native interface.
pub open spec fn spec_config_representable(cfg: WindowConfig) -> bool {
    &&& cfg.red.0 <= 0x7FFF_FFFF
    &&& cfg.green.0 <= 0x7FFF_FFFF
    &&& cfg.blue.0 <= 0x7FFF_FFFF
    &&& (cfg.alpha matches Some(a) ==> a.0 <= 0x7FFF_FFFF)
    &&& (cfg.depth matches Some(d) ==> d.0 <= 0x7FFF_FFFF)
    &&& (cfg.surface_size matches Some(s) ==> s.0 <= 0x7FFF_FFFF && s.1 <= 0x7FFF_FFFF)
}

/// Whether every numeric value of the configuration fits the native
/// interface's signed 32-bit entries; a window construction requires it.
pub fn config_representable(config: &WindowConfig) -> (r: bool)
    ensures
        r == spec_config_representable(*config),
{
    let reds = config.red.0 <= 0x7FFF_FFFF && config.green.0 <= 0x7FFF_FFFF && config.blue.0
        <= 0x7FFF_FFFF;
    let alpha_ok = match config.alpha {
        Some(a) => a.0 <= 0x7FFF_FFFF,
        None => true,
    };
    let depth_ok = match config.depth {
        Some(d) => d.0 <= 0x7FFF_FFFF,
        None => true,
    };
    let size_ok = match config.surface_size {
        Some(s) => s.0 <= 0x7FFF_FFFF && s.1 <= 0x7FFF_FFFF,
        None => true,
    };
    reds && alpha_ok && depth_ok && size_ok
}

/// The attribute list a window construction hands to the configuration
/// selection: a fixed preamble requesting a window-surface-capable
/// configuration, the red/green/blue size requests, the alpha-size request
/// only if alpha was specified, the depth-size request only if depth was
/// specified, terminated by the sentinel marker.
pub open spec fn spec_attribute_list(cfg: WindowConfig) -> Seq<i32> {
    seq![
        EGL_SURFACE_TYPE,
        EGL_WINDOW_BIT,
        EGL_RED_SIZE,
        cfg.red.0 as i32,
        EGL_GREEN_SIZE,
        cfg.green.0 as i32,
        EGL_BLUE_SIZE,
        cfg.blue.0 as i32,
    ] + (match cfg.alpha {
        Some(a) => seq![EGL_ALPHA_SIZE, a.0 as i32],
        None => Seq::<i32>::empty(),
    }) + (match cfg.depth {
        Some(d) => seq![EGL_DEPTH_SIZE, d.0 as i32],
        None => Seq::<i32>::empty(),
    }) + seq![EGL_NONE]
}

/// The attribute list's length: 9 entries through the terminator when both
/// alpha and depth are omitted; requesting alpha adds exactly 2 entries and
/// requesting depth adds exactly 2 more.
pub open spec fn spec_attribute_list_len(cfg: WindowConfig) -> int {
    9 + (if cfg.alpha is Some {
        2int
    } else {
        0int
    }) + (if cfg.depth is Some {
        2int
    } else {
        0int
    })
}

/// Builds the configuration-selection attribute list for `config`.
pub fn attribute_list(config: &WindowConfig) -> (r: Vec<i32>)
    requires
        spec_config_representable(*config),
    ensures
        r@ == spec_attribute_list(*config),
        r@.len() == spec_attribute_list_len(*config),
        r@.last() == EGL_NONE,
{
    let mut v: Vec<i32> = Vec::new();
    v.push(EGL_SURFACE_TYPE);
    v.push(EGL_WINDOW_BIT);
    v.push(EGL_RED_SIZE);
    v.push(config.red.0 as i32);
    v.push(EGL_GREEN_SIZE);
    v.push(config.green.0 as i32);
    v.push(EGL_BLUE_SIZE);
    v.push(config.blue.0 as i32);
    match config.alpha {
        Some(a) => {
            v.push(EGL_ALPHA_SIZE);
            v.push(a.0 as i32);
        },
        None => {},
    }
    match config.depth {
        Some(d) => {
            v.push(EGL_DEPTH_SIZE);
            v.push(d.0 as i32);
        },
        None => {},
    }
    v.push(EGL_NONE);
    proof {
        assert(v@ =~= spec_attribute_list(*config));
    }
    v
}

/// The attribute list always holds exactly 9 entries through its terminator
/// for a configuration omitting alpha and depth; requesting alpha adds
/// exactly 2 entries, and requesting depth adds exactly 2 more; the
/// terminator is always last.
pub proof fn lemma_attribute_list_len(cfg: WindowConfig)
    ensures
        spec_attribute_list(cfg).len() == spec_attribute_list_len(cfg),
        cfg.alpha is None && cfg.depth is None ==> spec_attribute_list(cfg).len() == 9,
        cfg.alpha is Some && cfg.depth is None ==> spec_attribute_list(cfg).len() == 11,
        cfg.alpha is Some && cfg.depth is Some ==> spec_attribute_list(cfg).len() == 13,
        spec_attribute_list(cfg).last() == EGL_NONE,
{
}

/// The context attribute list: request client version 2, terminated by the
/// sentinel marker.
pub fn context_attribute_list() -> (r: Vec<i32>)
    ensures
        r@ =~= seq![EGL_CONTEXT_CLIENT_VERSION, 2i32, EGL_NONE],
{
    let mut v: Vec<i32> = Vec::new();
    v.push(EGL_CONTEXT_CLIENT_VERSION);
    v.push(2);
    v.push(EGL_NONE);
    v
}

/// A rectangle in the compositor's native layout.
#[derive(Clone, Copy, PartialEq, Eq, Structural, Debug)]
pub struct VcRect {
    /// Left edge.
    pub x: i32,
    /// Top edge.
    pub y: i32,
    /// Width; pixel units in a source rectangle, 16.16 fixed point in a
    /// destination rectangle.
    pub width: i32,
    /// Height; pixel units in a source rectangle, 16.16 fixed point in a
    /// destination rectangle.
    pub height: i32,
}

/// The source rectangle of the compositor element: the full surface,
/// anchored at the origin, in pixel units.
pub fn source_rect(surface_width: u32, surface_height: u32) -> (r: VcRect)
    requires
        surface_width <= 0x7FFF_FFFF,
        surface_height <= 0x7FFF_FFFF,
    ensures
        r.x == 0,
        r.y == 0,
        r.width == surface_width,
        r.height == surface_height,
{
    VcRect { x: 0, y: 0, width: surface_width as i32, height: surface_height as i32 }
}

/// The destination rectangle of the compositor element: the full display,
/// anchored at the origin, in the compositor's native 16.16 fixed-point
/// convention — each dimension left-shifted by 16 bits, that is multiplied
/// by 65536, exactly.
pub fn dest_rect(display_width: u32, display_height: u32) -> (r: VcRect)
    requires
        display_width < 0x8000,
        display_height < 0x8000,
    ensures
        r.x == 0,
        r.y == 0,
        r.width == display_width * 0x10000,
        r.height == display_height * 0x10000,
{
    VcRect {
        x: 0,
        y: 0,
        width: (display_width * 0x10000) as i32,
        height: (display_height * 0x10000) as i32,
    }
}

/// The surface size a construction settles on: the configuration's explicit
/// size if one was given, else the full display size.
pub open spec fn spec_resolved_surface_size(cfg: WindowConfig, display_size: (u32, u32)) -> (
    u32,
    u32,
) {
    match cfg.surface_size {
        Some(s) => s,
        None => display_size,
    }
}

/// A configuration with an explicit surface size settles on exactly that
/// size, whatever the underlying display's native size is.
pub proof fn lemma_explicit_surface_size_wins(cfg: WindowConfig, d1: (u32, u32), d2: (u32, u32))
    requires
        cfg.surface_size is Some,
    ensures
        spec_resolved_surface_size(cfg, d1) == spec_resolved_surface_size(cfg, d2),
        cfg.surface_size matches Some(s) ==> spec_resolved_surface_size(cfg, d1) == s,
{
}

/// The native-window descriptor: the compositor element a surface is bound
/// to, together with the surface's pixel dimensions.  The surrounding
/// process keeps the descriptor it passes to the context API at a stable
/// heap address, since the context API retains the pointer.
#[derive(Clone, Copy, PartialEq, Eq, Structural, Debug)]
pub struct EGLDispmanxWindow {
    /// The compositor element handle.
    pub element: Handle,
    /// Surface width in pixels.
    pub width: u32,
    /// Surface height in pixels.
    pub height: u32,
}

/// Where a window construction stands: which native step's result the
/// builder expects next.
#[derive(Clone, Copy, PartialEq, Eq, Structural, Debug)]
pub enum WindowStep {
    /// Awaiting the result of the configuration selection.
    ChooseConfig,
    /// Awaiting the result of binding the client API.
    BindApi,
    /// Awaiting the rendering context the context API returned.
    CreateContext,
    /// Awaiting the selected display's geometry.
    QueryDisplaySize,
    /// Awaiting the compositor-layer display handle.
    OpenLayerDisplay,
    /// Awaiting the compositor update-transaction handle.
    StartUpdate,
    /// Awaiting the compositor element handle.
    AddElement,
    /// Awaiting the synchronous submission of the update transaction.
    SubmitUpdate,
    /// Awaiting the rendering surface bound to the descriptor.
    CreateSurface,
    /// Awaiting the result of making the context and surface current.
    MakeCurrent,
    /// Construction finished; the window can be taken.
    Complete,
    /// A step failed; the partial window must be torn down.
    Failed,
}

/// The construction sequence of a [`Window`], as a state machine: the caller
/// performs one native step at a time, in the fixed order, under the
/// system's serialization lock, and reports each result; the builder
/// classifies it and records every handle already created.
pub struct WindowBuilder {
    /// The configuration the construction was started with.
    pub config: WindowConfig,
    /// The step whose result the builder expects next.
    pub step: WindowStep,
    /// The rendering context; sentinel until created.
    pub egl_context: Handle,
    /// The compositor-layer display; sentinel until opened.
    pub dispmanx_display: Handle,
    /// The compositor element; sentinel until added.
    pub element: Handle,
    /// The selected display's width, once queried.
    pub display_width: u32,
    /// The selected display's height, once queried.
    pub display_height: u32,
    /// The surface width the construction settled on.
    pub surface_width: u32,
    /// The surface height the construction settled on.
    pub surface_height: u32,
    /// The rendering surface; sentinel until created.
    pub egl_surface: Handle,
}

impl WindowBuilder {
    /// The display geometry was queried and the surface size settled: the
    /// explicit configured size if one was given, else the full display
    /// size; everything fits the native interface's limits.
    pub open spec fn dims_resolved(self) -> bool {
        &&& (self.surface_width, self.surface_height) == spec_resolved_surface_size(
            self.config,
            (self.display_width, self.display_height),
        )
        &&& self.display_width < 0x8000
        &&& self.display_height < 0x8000
        &&& self.surface_width <= 0x7FFF_FFFF
        &&& self.surface_height <= 0x7FFF_FFFF
    }

    /// Each handle field is independently either sentinel (not yet created)
    /// or live, and exactly the handles of the steps already passed are
    /// live; after a failure, whatever was already created stays recorded.
    pub open spec fn wf(self) -> bool {
        &&& spec_config_representable(self.config)
        &&& self.egl_context.wf()
        &&& self.dispmanx_display.wf()
        &&& self.element.wf()
        &&& self.egl_surface.wf()
        &&& (match self.step {
            WindowStep::ChooseConfig | WindowStep::BindApi | WindowStep::CreateContext => {
                &&& self.egl_context is Sentinel
                &&& self.dispmanx_display is Sentinel
                &&& self.element is Sentinel
                &&& self.egl_surface is Sentinel
            },
            WindowStep::QueryDisplaySize => {
                &&& self.egl_context is Live
                &&& self.dispmanx_display is Sentinel
                &&& self.element is Sentinel
                &&& self.egl_surface is Sentinel
            },
            WindowStep::OpenLayerDisplay => {
                &&& self.egl_context is Live
                &&& self.dispmanx_display is Sentinel
                &&& self.element is Sentinel
                &&& self.egl_surface is Sentinel
                &&& self.dims_resolved()
            },
            WindowStep::StartUpdate | WindowStep::AddElement => {
                &&& self.egl_context is Live
                &&& self.dispmanx_display is Live
                &&& self.element is Sentinel
                &&& self.egl_surface is Sentinel
                &&& self.dims_resolved()
            },
            WindowStep::SubmitUpdate | WindowStep::CreateSurface => {
                &&& self.egl_context is Live
                &&& self.dispmanx_display is Live
                &&& self.element is Live
                &&& self.egl_surface is Sentinel
                &&& self.dims_resolved()
            },
            WindowStep::MakeCurrent | WindowStep::Complete => {
                &&& self.egl_context is Live
                &&& self.dispmanx_display is Live
                &&& self.element is Live
                &&& self.egl_surface is Live
                &&& self.dims_resolved()
            },
            WindowStep::Failed => true,
        })
    }

    /// The window state the handles recorded so far describe: what
    /// [`WindowBuilder::finish`] returns on success, and what must be torn
    /// down after a failure.
    pub open spec fn spec_window(self) -> Window {
        Window {
            egl_context: self.egl_context,
            dispmanx_display: self.dispmanx_display,
            egl_dispmanx_window: EGLDispmanxWindow {
                element: self.element,
                width: self.surface_width,
                height: self.surface_height,
            },
            egl_surface: self.egl_surface,
        }
    }

    /// Starts a construction; the first step is the configuration
    /// selection.
    pub fn new(config: &WindowConfig) -> (r: WindowBuilder)
        requires
            spec_config_representable(*config),
        ensures
            r.wf(),
            r.step == WindowStep::ChooseConfig,
            r.config == *config,
            r.egl_context is Sentinel,
            r.dispmanx_display is Sentinel,
            r.element is Sentinel,
            r.egl_surface is Sentinel,
    {
        WindowBuilder {
            config: *config,
            step: WindowStep::ChooseConfig,
            egl_context: Handle::Sentinel,
            dispmanx_display: Handle::Sentinel,
            element: Handle::Sentinel,
            display_width: 0,
            display_height: 0,
            surface_width: 0,
            surface_height: 0,
            egl_surface: Handle::Sentinel,
        }
    }

    /// The step whose result the builder expects next.
    pub fn current_step(&self) -> (r: WindowStep)
        ensures
            r == self.step,
    {
        self.step
    }

    /// Reports the configuration selection's result: whether the call
    /// succeeded, how many matching configurations it returned (exactly one
    /// was requested; none is a failure), and the driver's post-call error
    /// code.
    pub fn config_chosen(&mut self, ok: bool, num_configs: i32, gl_code: u32) -> (r: Result<
        (),
        Error,
    >)
        requires
            old(self).wf(),
            old(self).step == WindowStep::ChooseConfig,
        ensures
            final(self).wf(),
            final(self).config == old(self).config,
            final(self).spec_window() == old(self).spec_window(),
            !ok ==> r == Result::<(), Error>::Err(Error::Fn(NativeCall::EglChooseConfig))
                && final(self).step == WindowStep::Failed,
            ok && num_configs < 1 ==> r == Result::<(), Error>::Err(
                Error::Fn(NativeCall::EglChooseConfig),
            ) && final(self).step == WindowStep::Failed,
            ok && num_configs >= 1 && gl_code != 0 ==> r == Result::<(), Error>::Err(
                Error::Gl(NativeCall::EglChooseConfig, gl_code),
            ) && final(self).step == WindowStep::Failed,
            ok && num_configs >= 1 && gl_code == 0 ==> r is Ok && final(self).step
                == WindowStep::BindApi,
    {
        if !ok {
            self.step = WindowStep::Failed;
            return Err(Error::Fn(NativeCall::EglChooseConfig));
        }
        if num_configs < 1 {
            self.step = WindowStep::Failed;
            return Err(Error::Fn(NativeCall::EglChooseConfig));
        }
        if gl_code != 0 {
            self.step = WindowStep::Failed;
            return Err(Error::Gl(NativeCall::EglChooseConfig, gl_code));
        }
        self.step = WindowStep::BindApi;
        Ok(())
    }

    /// Reports the result of binding the client API.
    pub fn api_bound(&mut self, ok: bool) -> (r: Result<(), Error>)
        requires
            old(self).wf(),
            old(self).step == WindowStep::BindApi,
        ensures
            final(self).wf(),
            final(self).config == old(self).config,
            final(self).spec_window() == old(self).spec_window(),
            !ok ==> r == Result::<(), Error>::Err(Error::Fn(NativeCall::EglBindApi))
                && final(self).step == WindowStep::Failed,
            ok ==> r is Ok && final(self).step == WindowStep::CreateContext,
    {
        if !ok {
            self.step = WindowStep::Failed;
            return Err(Error::Fn(NativeCall::EglBindApi));
        }
        self.step = WindowStep::CreateContext;
        Ok(())
    }

    /// Reports the rendering context the context API returned, together
    /// with the driver's post-call error code.  The sentinel context is a
    /// function error; a context that was created is recorded even when the
    /// error query fails afterwards, so teardown releases it.
    pub fn context_created(&mut self, raw: u64, gl_code: u32) -> (r: Result<(), Error>)
        requires
            old(self).wf(),
            old(self).step == WindowStep::CreateContext,
        ensures
            final(self).wf(),
            final(self).config == old(self).config,
            raw == 0 ==> r == Result::<(), Error>::Err(Error::Fn(NativeCall::EglCreateContext))
                && final(self).step == WindowStep::Failed
                && final(self).spec_window() == old(self).spec_window(),
            raw != 0 ==> final(self).egl_context == Handle::Live(raw)
                && final(self).dispmanx_display is Sentinel
                && final(self).element is Sentinel
                && final(self).egl_surface is Sentinel,
            raw != 0 && gl_code != 0 ==> r == Result::<(), Error>::Err(
                Error::Gl(NativeCall::EglCreateContext, gl_code),
            ) && final(self).step == WindowStep::Failed,
            raw != 0 && gl_code == 0 ==> r is Ok && final(self).step
                == WindowStep::QueryDisplaySize,
    {
        if raw == 0 {
            self.step = WindowStep::Failed;
            return Err(Error::Fn(NativeCall::EglCreateContext));
        }
        self.egl_context = Handle::from_raw(raw);
        if gl_code != 0 {
            self.step = WindowStep::Failed;
            return Err(Error::Gl(NativeCall::EglCreateContext, gl_code));
        }
        self.step = WindowStep::QueryDisplaySize;
        Ok(())
    }

    /// Reports the selected display's geometry, as the system's size query
    /// returned it.  A negative status is the query's function error.  A
    /// geometry the compositor's 16.16 fixed-point destination rectangle
    /// cannot represent is rejected the same way.  On success the surface
    /// size is settled: the explicit configured size if one was given, else
    /// the full display size.
    pub fn display_size_obtained(&mut self, res: i32, width: u32, height: u32) -> (r: Result<
        (),
        Error,
    >)
        requires
            old(self).wf(),
            old(self).step == WindowStep::QueryDisplaySize,
        ensures
            final(self).wf(),
            final(self).config == old(self).config,
            final(self).egl_context == old(self).egl_context,
            final(self).dispmanx_display is Sentinel,
            final(self).element is Sentinel,
            final(self).egl_surface is Sentinel,
            res < 0 || width >= 0x8000 || height >= 0x8000 ==> r == Result::<(), Error>::Err(
                Error::Fn(NativeCall::GraphicsGetDisplaySize),
            ) && final(self).step == WindowStep::Failed,
            res >= 0 && width < 0x8000 && height < 0x8000 ==> r is Ok && final(self).step
                == WindowStep::OpenLayerDisplay && final(self).display_width == width
                && final(self).display_height == height && (
            final(self).surface_width,
            final(self).surface_height,
            ) == spec_resolved_surface_size(old(self).config, (width, height)),
    {
        if res < 0 {
            self.step = WindowStep::Failed;
            return Err(Error::Fn(NativeCall::GraphicsGetDisplaySize));
        }
        if width >= 0x8000 || height >= 0x8000 {
            self.step = WindowStep::Failed;
            return Err(Error::Fn(NativeCall::GraphicsGetDisplaySize));
        }
        self.display_width = width;
        self.display_height = height;
        let chosen: (u32, u32) = match self.config.surface_size {
            Some(s) => s,
            None => (width, height),
        };
        self.surface_width = chosen.0;
        self.surface_height = chosen.1;
        self.step = WindowStep::OpenLayerDisplay;
        Ok(())
    }

    /// Reports the compositor-layer display handle.  The sentinel handle is
    /// a function error.
    pub fn layer_display_opened(&mut self, raw: u64) -> (r: Result<(), Error>)
        requires
            old(self).wf(),
            old(self).step == WindowStep::OpenLayerDisplay,
        ensures
            final(self).wf(),
            final(self).config == old(self).config,
            final(self).display_width == old(self).display_width,
            final(self).display_height == old(self).display_height,
            final(self).surface_width == old(self).surface_width,
            final(self).surface_height == old(self).surface_height,
            final(self).egl_context == old(self).egl_context,
            final(self).element is Sentinel,
            final(self).egl_surface is Sentinel,
            raw == 0 ==> r == Result::<(), Error>::Err(
                Error::Fn(NativeCall::VcDispmanxDisplayOpen),
            ) && final(self).step == WindowStep::Failed && final(self).spec_window() == old(
                self,
            ).spec_window(),
            raw != 0 ==> r is Ok && final(self).step == WindowStep::StartUpdate
                && final(self).dispmanx_display == Handle::Live(raw)
                && final(self).spec_window() == (Window {
                dispmanx_display: Handle::Live(raw),
                ..old(self).spec_window()
            }),
    {
        if raw == 0 {
            self.step = WindowStep::Failed;
            return Err(Error::Fn(NativeCall::VcDispmanxDisplayOpen));
        }
        self.dispmanx_display = Handle::from_raw(raw);
        self.step = WindowStep::StartUpdate;
        Ok(())
    }

    /// Reports the compositor update-transaction handle.  The sentinel
    /// handle is a function error; the live handle stays with the caller,
    /// who passes it to the element addition and the submission.
    pub fn update_started(&mut self, raw: u64) -> (r: Result<(), Error>)
        requires
            old(self).wf(),
            old(self).step == WindowStep::StartUpdate,
        ensures
            final(self).wf(),
            final(self).config == old(self).config,
            final(self).display_width == old(self).display_width,
            final(self).display_height == old(self).display_height,
            final(self).surface_width == old(self).surface_width,
            final(self).surface_height == old(self).surface_height,
            final(self).spec_window() == old(self).spec_window(),
            raw == 0 ==> r == Result::<(), Error>::Err(
                Error::Fn(NativeCall::VcDispmanxUpdateStart),
            ) && final(self).step == WindowStep::Failed,
            raw != 0 ==> r is Ok && final(self).step == WindowStep::AddElement,
    {
        if raw == 0 {
            self.step = WindowStep::Failed;
            return Err(Error::Fn(NativeCall::VcDispmanxUpdateStart));
        }
        self.step = WindowStep::AddElement;
        Ok(())
    }

    /// The rectangles the compositor element spans: the source rectangle is
    /// the full surface in pixel units, the destination rectangle the full
    /// display in the compositor's 16.16 fixed-point convention.
    pub fn element_rects(&self) -> (r: (VcRect, VcRect))
        requires
            self.wf(),
            self.step == WindowStep::AddElement,
        ensures
            r.0 == (VcRect {
                x: 0,
                y: 0,
                width: self.surface_width as i32,
                height: self.surface_height as i32,
            }),
            r.1.x == 0,
            r.1.y == 0,
            r.1.width == self.display_width * 0x10000,
            r.1.height == self.display_height * 0x10000,
    {
        let src = source_rect(self.surface_width, self.surface_height);
        let dst = dest_rect(self.display_width, self.display_height);
        (src, dst)
    }

    /// Reports the compositor element handle the addition returned.  The
    /// sentinel handle is a function error.
    pub fn element_added(&mut self, raw: u64) -> (r: Result<(), Error>)
        requires
            old(self).wf(),
            old(self).step == WindowStep::AddElement,
        ensures
            final(self).wf(),
            final(self).config == old(self).config,
            final(self).display_width == old(self).display_width,
            final(self).display_height == old(self).display_height,
            final(self).surface_width == old(self).surface_width,
            final(self).surface_height == old(self).surface_height,
            final(self).egl_context == old(self).egl_context,
            final(self).dispmanx_display == old(self).dispmanx_display,
            final(self).egl_surface is Sentinel,
            raw == 0 ==> r == Result::<(), Error>::Err(Error::Fn(NativeCall::VcDispmanxElementAdd))
                && final(self).step == WindowStep::Failed && final(self).spec_window() == old(
                self,
            ).spec_window(),
            raw != 0 ==> r is Ok && final(self).step == WindowStep::SubmitUpdate
                && final(self).element == Handle::Live(raw),
    {
        if raw == 0 {
            self.step = WindowStep::Failed;
            return Err(Error::Fn(NativeCall::VcDispmanxElementAdd));
        }
        self.element = Handle::from_raw(raw);
        self.step = WindowStep::SubmitUpdate;
        Ok(())
    }

    /// Reports the synchronous submission's status, together with the
    /// driver's post-call error code.  A nonzero status is a function
    /// error.
    pub fn update_submitted(&mut self, status: i32, gl_code: u32) -> (r: Result<(), Error>)
        requires
            old(self).wf(),
            old(self).step == WindowStep::SubmitUpdate,
        ensures
            final(self).wf(),
            final(self).config == old(self).config,
            final(self).display_width == old(self).display_width,
            final(self).display_height == old(self).display_height,
            final(self).surface_width == old(self).surface_width,
            final(self).surface_height == old(self).surface_height,
            final(self).spec_window() == old(self).spec_window(),
            status != DISPMANX_SUCCESS ==> r == Result::<(), Error>::Err(
                Error::Fn(NativeCall::VcDispmanxUpdateSubmitSync),
            ) && final(self).step == WindowStep::Failed,
            status == DISPMANX_SUCCESS && gl_code != 0 ==> r == Result::<(), Error>::Err(
                Error::Gl(NativeCall::VcDispmanxUpdateSubmitSync, gl_code),
            ) && final(self).step == WindowStep::Failed,
            status == DISPMANX_SUCCESS && gl_code == 0 ==> r is Ok && final(self).step
                == WindowStep::CreateSurface,
    {
        if status != DISPMANX_SUCCESS {
            self.step = WindowStep::Failed;
            return Err(Error::Fn(NativeCall::VcDispmanxUpdateSubmitSync));
        }
        if gl_code != 0 {
            self.step = WindowStep::Failed;
            return Err(Error::Gl(NativeCall::VcDispmanxUpdateSubmitSync, gl_code));
        }
        self.step = WindowStep::CreateSurface;
        Ok(())
    }

    /// The native-window descriptor the surface creation is handed: the
    /// compositor element together with the settled surface dimensions.
    pub fn descriptor(&self) -> (r: EGLDispmanxWindow)
        requires
            self.wf(),
            self.step == WindowStep::CreateSurface,
        ensures
            r.element == self.element,
            r.width == self.surface_width,
            r.height == self.surface_height,
            r.element is Live,
    {
        EGLDispmanxWindow {
            element: self.element,
            width: self.surface_width,
            height: self.surface_height,
        }
    }

    /// Reports the rendering surface the context API returned, together
    /// with the driver's post-call error code.  The sentinel surface is a
    /// function error; a surface that was created is recorded even when the
    /// error query fails afterwards, so teardown releases it.
    pub fn surface_created(&mut self, raw: u64, gl_code: u32) -> (r: Result<(), Error>)
        requires
            old(self).wf(),
            old(self).step == WindowStep::CreateSurface,
        ensures
            final(self).wf(),
            final(self).config == old(self).config,
            final(self).display_width == old(self).display_width,
            final(self).display_height == old(self).display_height,
            final(self).surface_width == old(self).surface_width,
            final(self).surface_height == old(self).surface_height,
            final(self).egl_context == old(self).egl_context,
            final(self).dispmanx_display == old(self).dispmanx_display,
            final(self).element == old(self).element,
            raw == 0 ==> r == Result::<(), Error>::Err(
                Error::Fn(NativeCall::EglCreateWindowSurface),
            ) && final(self).step == WindowStep::Failed && final(self).egl_surface is Sentinel,
            raw != 0 ==> final(self).egl_surface == Handle::Live(raw),
            raw != 0 && gl_code != 0 ==> r == Result::<(), Error>::Err(
                Error::Gl(NativeCall::EglCreateWindowSurface, gl_code),
            ) && final(self).step == WindowStep::Failed,
            raw != 0 && gl_code == 0 ==> r is Ok && final(self).step == WindowStep::MakeCurrent,
    {
        if raw == 0 {
            self.step = WindowStep::Failed;
            return Err(Error::Fn(NativeCall::EglCreateWindowSurface));
        }
        self.egl_surface = Handle::from_raw(raw);
        if gl_code != 0 {
            self.step = WindowStep::Failed;
            return Err(Error::Gl(NativeCall::EglCreateWindowSurface, gl_code));
        }
        self.step = WindowStep::MakeCurrent;
        Ok(())
    }

    /// Reports the result of making the new context and surface current on
    /// the calling thread, together with the driver's post-call error code.
    pub fn made_current(&mut self, ok: bool, gl_code: u32) -> (r: Result<(), Error>)
        requires
            old(self).wf(),
            old(self).step == WindowStep::MakeCurrent,
        ensures
            final(self).wf(),
            final(self).config == old(self).config,
            final(self).display_width == old(self).display_width,
            final(self).display_height == old(self).display_height,
            final(self).surface_width == old(self).surface_width,
            final(self).surface_height == old(self).surface_height,
            final(self).spec_window() == old(self).spec_window(),
            !ok ==> r == Result::<(), Error>::Err(Error::Fn(NativeCall::EglMakeCurrent))
                && final(self).step == WindowStep::Failed,
            ok && gl_code != 0 ==> r == Result::<(), Error>::Err(
                Error::Gl(NativeCall::EglMakeCurrent, gl_code),
            ) && final(self).step == WindowStep::Failed,
            ok && gl_code == 0 ==> r is Ok && final(self).step == WindowStep::Complete,
    {
        if !ok {
            self.step = WindowStep::Failed;
            return Err(Error::Fn(NativeCall::EglMakeCurrent));
        }
        if gl_code != 0 {
            self.step = WindowStep::Failed;
            return Err(Error::Gl(NativeCall::EglMakeCurrent, gl_code));
        }
        self.step = WindowStep::Complete;
        Ok(())
    }

    /// Takes the finished window.  Every handle is live and the descriptor
    /// carries exactly the surface size the construction settled on.
    pub fn finish(self) -> (r: Window)
        requires
            self.wf(),
            self.step == WindowStep::Complete,
        ensures
            r == self.spec_window(),
            r.wf(),
            r.egl_context is Live,
            r.dispmanx_display is Live,
            r.egl_dispmanx_window.element is Live,
            r.egl_surface is Live,
            r.egl_dispmanx_window.width == self.surface_width,
            r.egl_dispmanx_window.height == self.surface_height,
            (r.egl_dispmanx_window.width, r.egl_dispmanx_window.height)
                == spec_resolved_surface_size(
                self.config,
                (self.display_width, self.display_height),
            ),
    {
        Window {
            egl_context: self.egl_context,
            dispmanx_display: self.dispmanx_display,
            egl_dispmanx_window: EGLDispmanxWindow {
                element: self.element,
                width: self.surface_width,
                height: self.surface_height,
            },
            egl_surface: self.egl_surface,
        }
    }

    /// Takes the partial window of a failed construction: exactly the
    /// handles already created are live, so its teardown plan releases what
    /// was allocated and nothing else.
    pub fn abandon(self) -> (r: Window)
        requires
            self.wf(),
            self.step == WindowStep::Failed,
        ensures
            r == self.spec_window(),
            r.wf(),
    {
        Window {
            egl_context: self.egl_context,
            dispmanx_display: self.dispmanx_display,
            egl_dispmanx_window: EGLDispmanxWindow {
                element: self.element,
                width: self.surface_width,
                height: self.surface_height,
            },
            egl_surface: self.egl_surface,
        }
    }
}

/// A window's native resources: the rendering context, the compositor-layer
/// display, the native-window descriptor (compositor element plus surface
/// dimensions) and the rendering surface.  Each is independently sentinel or
/// live; teardown inspects each independently, so it is safe on a
/// partially-constructed or already-torn-down window.
#[derive(Clone, Copy, PartialEq, Eq, Structural, Debug)]
pub struct Window {
    /// The rendering context.
    pub egl_context: Handle,
    /// The compositor-layer display (distinct from the system's display
    /// connection).
    pub dispmanx_display: Handle,
    /// The native-window descriptor: the compositor element plus the
    /// surface's pixel dimensions.
    pub egl_dispmanx_window: EGLDispmanxWindow,
    /// The rendering surface bound to the descriptor.
    pub egl_surface: Handle,
}

/// One native call of a window teardown.
#[derive(Clone, Copy, PartialEq, Eq, Structural, Debug)]
pub enum TeardownStep {
    /// Detach the current context and surfaces from the calling thread
    /// (make the sentinel context and surfaces current).
    ReleaseCurrent,
    /// Destroy the rendering surface (carries its raw handle).
    DestroySurface(u64),
    /// Start the compositor update transaction that removes the element.
    BeginElementRemoval,
    /// Remove the compositor element (carries its raw handle).
    RemoveElement(u64),
    /// Submit the removal transaction synchronously.
    SubmitElementRemoval,
    /// Close the compositor-layer display (carries its raw handle).
    CloseLayerDisplay(u64),
    /// Destroy the rendering context (carries its raw handle).
    DestroyContext(u64),
}

/// The exact teardown sequence a window in the given state requires — the
/// exact reverse of construction, where each resource is released only if it
/// is live: release the current context and destroy the surface; remove the
/// compositor element inside its own synchronous transaction; close the
/// compositor-layer display; destroy the rendering context.
pub open spec fn spec_teardown_plan(w: Window) -> Seq<TeardownStep> {
    (if w.egl_surface is Live {
        seq![
            TeardownStep::ReleaseCurrent,
            TeardownStep::DestroySurface(w.egl_surface.spec_raw()),
        ]
    } else {
        Seq::<TeardownStep>::empty()
    }) + (if w.egl_dispmanx_window.element is Live {
        seq![
            TeardownStep::BeginElementRemoval,
            TeardownStep::RemoveElement(w.egl_dispmanx_window.element.spec_raw()),
            TeardownStep::SubmitElementRemoval,
        ]
    } else {
        Seq::<TeardownStep>::empty()
    }) + (if w.dispmanx_display is Live {
        seq![TeardownStep::CloseLayerDisplay(w.dispmanx_display.spec_raw())]
    } else {
        Seq::<TeardownStep>::empty()
    }) + (if w.egl_context is Live {
        seq![TeardownStep::DestroyContext(w.egl_context.spec_raw())]
    } else {
        Seq::<TeardownStep>::empty()
    })
}

impl Window {
    /// Every handle is independently either sentinel or live and nonzero.
    pub open spec fn wf(self) -> bool {
        &&& self.egl_context.wf()
        &&& self.dispmanx_display.wf()
        &&& self.egl_dispmanx_window.element.wf()
        &&& self.egl_surface.wf()
    }

    /// The framebuffer's pixel dimensions, read from the descriptor — no
    /// native call: exactly the surface size the construction settled on.
    pub fn get_framebuffer_dimensions(&self) -> (r: (u32, u32))
        ensures
            r == (self.egl_dispmanx_window.width, self.egl_dispmanx_window.height),
    {
        (self.egl_dispmanx_window.width, self.egl_dispmanx_window.height)
    }

    /// Whether this window's context is the one presently current on the
    /// calling thread, given the raw context the native query reported.
    pub fn is_current(&self, current_context: u64) -> (r: bool)
        ensures
            r == (self.egl_context.spec_raw() == current_context),
    {
        self.egl_context.raw() == current_context
    }

    /// The exact sequence of native teardown calls this window requires, in
    /// order.  Each call's success is asserted by the caller, since a
    /// teardown failure leaves the native state inconsistent with no safe
    /// recovery.
    pub fn teardown_plan(&self) -> (r: Vec<TeardownStep>)
        requires
            self.wf(),
        ensures
            r@ == spec_teardown_plan(*self),
    {
        let mut plan: Vec<TeardownStep> = Vec::new();
        if self.egl_surface.is_live() {
            plan.push(TeardownStep::ReleaseCurrent);
            plan.push(TeardownStep::DestroySurface(self.egl_surface.raw()));
        }
        if self.egl_dispmanx_window.element.is_live() {
            plan.push(TeardownStep::BeginElementRemoval);
            plan.push(TeardownStep::RemoveElement(self.egl_dispmanx_window.element.raw()));
            plan.push(TeardownStep::SubmitElementRemoval);
        }
        if self.dispmanx_display.is_live() {
            plan.push(TeardownStep::CloseLayerDisplay(self.dispmanx_display.raw()));
        }
        if self.egl_context.is_live() {
            plan.push(TeardownStep::DestroyContext(self.egl_context.raw()));
        }
        proof {
            assert(plan@ =~= spec_teardown_plan(*self));
        }
        plan
    }

    /// Marks every native resource of this window as released: after the
    /// teardown plan was executed, each handle is the sentinel again, so a
    /// second teardown has an empty plan.
    pub fn complete_teardown(&mut self)
        requires
            old(self).wf(),
        ensures
            final(self).wf(),
            final(self).egl_context is Sentinel,
            final(self).dispmanx_display is Sentinel,
            final(self).egl_dispmanx_window.element is Sentinel,
            final(self).egl_surface is Sentinel,
            final(self).egl_dispmanx_window.width == old(self).egl_dispmanx_window.width,
            final(self).egl_dispmanx_window.height == old(self).egl_dispmanx_window.height,
            spec_teardown_plan(*final(self)) =~= Seq::<TeardownStep>::empty(),
    {
        self.egl_context = Handle::Sentinel;
        self.dispmanx_display = Handle::Sentinel;
        self.egl_dispmanx_window.element = Handle::Sentinel;
        self.egl_surface = Handle::Sentinel;
    }
}

/// A construction that failed with only the rendering context created (the
/// later steps never ran) tears down exactly that context: it does not
/// attempt to remove a compositor element, close a display, or destroy a
/// surface that were never created.
pub proof fn lemma_teardown_context_only(w: Window)
    requires
        w.wf(),
        w.egl_context is Live,
        w.dispmanx_display is Sentinel,
        w.egl_dispmanx_window.element is Sentinel,
        w.egl_surface is Sentinel,
    ensures
        spec_teardown_plan(w) =~= seq![TeardownStep::DestroyContext(w.egl_context.spec_raw())],
{
}

/// Tearing down an already-torn-down window does nothing: every handle is
/// the sentinel, so the plan is empty.
pub proof fn lemma_teardown_idempotent(w: Window)
    requires
        w.wf(),
        w.egl_context is Sentinel,
        w.dispmanx_display is Sentinel,
        w.egl_dispmanx_window.element is Sentinel,
        w.egl_surface is Sentinel,
    ensures
        spec_teardown_plan(w) =~= Seq::<TeardownStep>::empty(),
{
}

/// A fully-constructed window is torn down by the exact reverse of its
/// construction order: surface first (after detaching the current context),
/// then the compositor element inside its own transaction, then the
/// compositor-layer display, and the rendering context last.
pub proof fn lemma_teardown_full_order(w: Window)
    requires
        w.wf(),
        w.egl_context is Live,
        w.dispmanx_display is Live,
        w.egl_dispmanx_window.element is Live,
        w.egl_surface is Live,
    ensures
        spec_teardown_plan(w) =~= seq![
            TeardownStep::ReleaseCurrent,
            TeardownStep::DestroySurface(w.egl_surface.spec_raw()),
            TeardownStep::BeginElementRemoval,
            TeardownStep::RemoveElement(w.egl_dispmanx_window.element.spec_raw()),
            TeardownStep::SubmitElementRemoval,
            TeardownStep::CloseLayerDisplay(w.dispmanx_display.spec_raw()),
            TeardownStep::DestroyContext(w.egl_context.spec_raw()),
        ],
{
}

} // verus!
