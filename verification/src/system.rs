//! The process-wide system: library loading order, compositor and context-API
//! initialization, display geometry queries, and teardown.
//!
//! The native calls themselves happen outside this crate.  [`SystemBuilder`]
//! is driven through the fixed construction sequence by feeding it each
//! native result as a plain value; it decides how the result is classified
//! and what comes next.  [`System::teardown_plan`] decides, in order, which
//! native teardown calls a destructor must make.

use vstd::prelude::*;

use crate::config::{Display, LibDir};
use crate::error::{Error, LoadingError, NativeCall};
use crate::handle::Handle;

verus! {

/// File name of the compositor library, a fixed external contract.
pub fn compositor_library_name() -> (r: &'static str)
    ensures
        r@ == "libbcm_host.so"@,
{
    "libbcm_host.so"
}

/// File name of the GPU-driver library, a fixed external contract.
pub fn gpu_library_name() -> (r: &'static str)
    ensures
        r@ == "libGLESv2.so"@,
{
    "libGLESv2.so"
}

/// File name of the context-API library, a fixed external contract.
pub fn context_api_library_name() -> (r: &'static str)
    ensures
        r@ == "libEGL.so"@,
{
    "libEGL.so"
}

/// Where a system construction stands: which native step's result the
/// builder expects next.
#[derive(Clone, Copy, PartialEq, Eq, Structural, Debug)]
pub enum SystemStep {
    /// Awaiting the result of opening the compositor library.
    LoadCompositorLibrary,
    /// Awaiting the result of opening the GPU-driver library.
    LoadGpuLibrary,
    /// Awaiting the result of opening the raw dynamic-symbol handle for the
    /// GPU-driver library.
    OpenGpuSymbols,
    /// Awaiting the result of opening the context-API library.
    LoadContextApiLibrary,
    /// Awaiting the one-shot singleton claim.
    ClaimSingleton,
    /// Awaiting completion of the compositor subsystem's initialization.
    InitCompositor,
    /// Awaiting the default display connection returned by the context API.
    GetDisplay,
    /// Awaiting the result of initializing the context API on that display.
    InitializeApi,
    /// Construction finished; the system can be taken.
    Ready,
    /// A step failed; construction was abandoned.
    Failed,
}

/// The construction sequence of a [`System`], as a state machine: the caller
/// performs one native step at a time, in the fixed order, and reports each
/// result; the builder classifies it.
pub struct SystemBuilder {
    /// The library directory the construction was started with.
    pub lib_dir: LibDir,
    /// The step whose result the builder expects next.
    pub step: SystemStep,
    /// The display connection accumulated so far.
    pub egl_display: Handle,
}

impl SystemBuilder {
    /// The builder is well formed: before the display connection is opened
    /// it is the sentinel, and a live connection is nonzero.
    pub open spec fn wf(self) -> bool {
        &&& self.egl_display.wf()
        &&& (match self.step {
            SystemStep::LoadCompositorLibrary
            | SystemStep::LoadGpuLibrary
            | SystemStep::OpenGpuSymbols
            | SystemStep::LoadContextApiLibrary
            | SystemStep::ClaimSingleton
            | SystemStep::InitCompositor
            | SystemStep::GetDisplay => self.egl_display is Sentinel,
            SystemStep::InitializeApi | SystemStep::Ready => self.egl_display is Live,
            SystemStep::Failed => true,
        })
    }




    /// Starts a construction: the first step is loading the compositor
    /// library from `lib_dir`.
    pub fn new(lib_dir: LibDir) -> (r: SystemBuilder)
        ensures
            r.wf(),
            r.step == SystemStep::LoadCompositorLibrary,
            r.lib_dir == lib_dir,
            r.egl_display is Sentinel,
    {
        SystemBuilder { lib_dir, step: SystemStep::LoadCompositorLibrary, egl_display: Handle::Sentinel }
    }

    /// The step whose result the builder expects next.
    pub fn current_step(&self) -> (r: SystemStep)
        ensures
            r == self.step,
    {
        self.step
    }

    /// Reports the result of opening the compositor library.  A loading
    /// failure aborts the construction with a loading error; no partial
    /// system is ever produced.
    pub fn compositor_library_loaded(&mut self, outcome: Option<LoadingError>) -> (r: Result<
        (),
        Error,
    >)
        requires
            old(self).wf(),
            old(self).step == SystemStep::LoadCompositorLibrary,
        ensures
            final(self).wf(),
            final(self).lib_dir == old(self).lib_dir,
            final(self).egl_display == old(self).egl_display,
            outcome is None ==> r is Ok && final(self).step
                == SystemStep::LoadGpuLibrary,
            outcome matches Some(e) ==> r == Result::<(), Error>::Err(Error::Sl(e))
                && final(self).step == SystemStep::Failed,
    {
        match outcome {
            None => {
                self.step = SystemStep::LoadGpuLibrary;
                Ok(())
            },
            Some(e) => {
                self.step = SystemStep::Failed;
                Err(Error::Sl(e))
            },
        }
    }

    /// Reports the result of opening the GPU-driver library.
    pub fn gpu_library_loaded(&mut self, outcome: Option<LoadingError>) -> (r: Result<(), Error>)
        requires
            old(self).wf(),
            old(self).step == SystemStep::LoadGpuLibrary,
        ensures
            final(self).wf(),
            final(self).lib_dir == old(self).lib_dir,
            final(self).egl_display == old(self).egl_display,
            outcome is None ==> r is Ok && final(self).step == SystemStep::OpenGpuSymbols,
            outcome matches Some(e) ==> r == Result::<(), Error>::Err(Error::Sl(e))
                && final(self).step == SystemStep::Failed,
    {
        match outcome {
            None => {
                self.step = SystemStep::OpenGpuSymbols;
                Ok(())
            },
            Some(e) => {
                self.step = SystemStep::Failed;
                Err(Error::Sl(e))
            },
        }
    }

    /// Reports the result of opening the raw dynamic-symbol handle for the
    /// GPU-driver library (used later for generic symbol lookup).  A failure
    /// carries the loader's description as a dynamic-symbol error.
    pub fn gpu_symbols_opened(&mut self, outcome: Option<String>) -> (r: Result<(), Error>)
        requires
            old(self).wf(),
            old(self).step == SystemStep::OpenGpuSymbols,
        ensures
            final(self).wf(),
            final(self).lib_dir == old(self).lib_dir,
            final(self).egl_display == old(self).egl_display,
            outcome is None ==> r is Ok && final(self).step
                == SystemStep::LoadContextApiLibrary,
            outcome matches Some(descr) ==> r == Result::<(), Error>::Err(Error::Dl(descr))
                && final(self).step == SystemStep::Failed,
    {
        match outcome {
            None => {
                self.step = SystemStep::LoadContextApiLibrary;
                Ok(())
            },
            Some(descr) => {
                self.step = SystemStep::Failed;
                Err(Error::Dl(descr))
            },
        }
    }

    /// Reports the result of opening the context-API library.
    pub fn context_api_library_loaded(&mut self, outcome: Option<LoadingError>) -> (r: Result<
        (),
        Error,
    >)
        requires
            old(self).wf(),
            old(self).step == SystemStep::LoadContextApiLibrary,
        ensures
            final(self).wf(),
            final(self).lib_dir == old(self).lib_dir,
            final(self).egl_display == old(self).egl_display,
            outcome is None ==> r is Ok && final(self).step == SystemStep::ClaimSingleton,
            outcome matches Some(e) ==> r == Result::<(), Error>::Err(Error::Sl(e))
                && final(self).step == SystemStep::Failed,
    {
        match outcome {
            None => {
                self.step = SystemStep::ClaimSingleton;
                Ok(())
            },
            Some(e) => {
                self.step = SystemStep::Failed;
                Err(Error::Sl(e))
            },
        }
    }

    /// Records the one-shot singleton claim.  At most one system may ever be
    /// constructed in a process; `previously_claimed` is the prior value of
    /// the process-wide one-shot flag, and a `true` value is a programming
    /// contract violation, not a recoverable condition — the caller must
    /// treat it as fatal instead of calling this.
    pub fn singleton_claimed(&mut self, previously_claimed: bool)
        requires
            old(self).wf(),
            old(self).step == SystemStep::ClaimSingleton,
            !previously_claimed,
        ensures
            final(self).wf(),
            final(self).lib_dir == old(self).lib_dir,
            final(self).egl_display == old(self).egl_display,
            final(self).step == SystemStep::InitCompositor,
    {
        let _ = previously_claimed;
        self.step = SystemStep::InitCompositor;
    }

    /// Records that the compositor subsystem was initialized (that native
    /// call reports no failure).
    pub fn compositor_initialized(&mut self)
        requires
            old(self).wf(),
            old(self).step == SystemStep::InitCompositor,
        ensures
            final(self).wf(),
            final(self).lib_dir == old(self).lib_dir,
            final(self).egl_display == old(self).egl_display,
            final(self).step == SystemStep::GetDisplay,
    {
        self.step = SystemStep::GetDisplay;
    }

    /// Reports the default display connection the context API returned,
    /// together with the GPU driver's post-call error code.  The sentinel
    /// (zero) connection is a function error; a nonzero error code is a
    /// driver error.
    pub fn display_obtained(&mut self, raw: u64, gl_code: u32) -> (r: Result<(), Error>)
        requires
            old(self).wf(),
            old(self).step == SystemStep::GetDisplay,
        ensures
            final(self).wf(),
            final(self).lib_dir == old(self).lib_dir,
            raw == 0 ==> r == Result::<(), Error>::Err(Error::Fn(NativeCall::EglGetDisplay))
                && final(self).step == SystemStep::Failed
                && final(self).egl_display is Sentinel,
            raw != 0 ==> final(self).egl_display == Handle::Live(raw),
            raw != 0 && gl_code != 0 ==> r == Result::<(), Error>::Err(
                Error::Gl(NativeCall::EglGetDisplay, gl_code),
            ) && final(self).step == SystemStep::Failed,
            raw != 0 && gl_code == 0 ==> r is Ok && final(self).step
                == SystemStep::InitializeApi,
    {
        if raw == 0 {
            self.step = SystemStep::Failed;
            return Err(Error::Fn(NativeCall::EglGetDisplay));
        }
        self.egl_display = Handle::from_raw(raw);
        if gl_code != 0 {
            self.step = SystemStep::Failed;
            return Err(Error::Gl(NativeCall::EglGetDisplay, gl_code));
        }
        self.step = SystemStep::InitializeApi;
        Ok(())
    }

    /// Reports the result of initializing the context API against the
    /// display connection, together with the GPU driver's post-call error
    /// code.
    pub fn api_initialized(&mut self, ok: bool, gl_code: u32) -> (r: Result<(), Error>)
        requires
            old(self).wf(),
            old(self).step == SystemStep::InitializeApi,
        ensures
            final(self).wf(),
            final(self).lib_dir == old(self).lib_dir,
            final(self).egl_display == old(self).egl_display,
            !ok ==> r == Result::<(), Error>::Err(Error::Fn(NativeCall::EglInitialize))
                && final(self).step == SystemStep::Failed,
            ok && gl_code != 0 ==> r == Result::<(), Error>::Err(
                Error::Gl(NativeCall::EglInitialize, gl_code),
            ) && final(self).step == SystemStep::Failed,
            ok && gl_code == 0 ==> r is Ok && final(self).step == SystemStep::Ready,
    {
        if !ok {
            self.step = SystemStep::Failed;
            return Err(Error::Fn(NativeCall::EglInitialize));
        }
        if gl_code != 0 {
            self.step = SystemStep::Failed;
            return Err(Error::Gl(NativeCall::EglInitialize, gl_code));
        }
        self.step = SystemStep::Ready;
        Ok(())
    }

    /// Takes the finished system.  Only a construction whose every step
    /// succeeded reaches here, so the display connection is live.
    pub fn finish(self) -> (r: System)
        requires
            self.wf(),
            self.step == SystemStep::Ready,
        ensures
            r.wf(),
            r.egl_display == self.egl_display,
            r.egl_display is Live,
            r.lib_dir == self.lib_dir,
    {
        System { lib_dir: self.lib_dir, egl_display: self.egl_display }
    }
}

/// The process-wide system value: the library directory it was built from
/// and the display connection the context API returned.  At most one lives
/// per process (the one-shot claim in the builder); the loaded libraries,
/// the raw symbol handle and the serialization lock that guards every native
/// call sequence are held by the surrounding process alongside this state.
pub struct System {
    /// The library directory the system was built from.
    pub lib_dir: LibDir,
    /// The display connection; live from successful construction until
    /// teardown.
    pub egl_display: Handle,
}

/// One native call of a system teardown.
#[derive(Clone, Copy, PartialEq, Eq, Structural, Debug)]
pub enum SystemTeardownStep {
    /// Terminate the display connection (carries its raw handle).
    TerminateDisplay(u64),
    /// Deinitialize the compositor subsystem.
    DeinitCompositor,
}

/// The exact teardown sequence a system in the given state requires: the
/// display connection is terminated first — only if it is still live — and
/// the compositor subsystem is deinitialized after it, always, in that fixed
/// order, never the reverse.
pub open spec fn spec_system_teardown_plan(s: System) -> Seq<SystemTeardownStep> {
    if s.egl_display is Live {
        seq![
            SystemTeardownStep::TerminateDisplay(s.egl_display.spec_raw()),
            SystemTeardownStep::DeinitCompositor,
        ]
    } else {
        seq![SystemTeardownStep::DeinitCompositor]
    }
}

impl System {
    /// The display connection is either the sentinel or a live, nonzero
    /// handle returned by a successful display-open call; it is never
    /// partially initialized.
    pub open spec fn wf(self) -> bool {
        self.egl_display.wf()
    }



    /// The library directory in use.
    pub fn lib_dir(&self) -> (r: &str)
        ensures
            r@ == self.lib_dir.0@,
    {
        self.lib_dir.path()
    }

    /// Classifies the native display-geometry query's result for the chosen
    /// output: a negative status is a function error; otherwise the reported
    /// width and height are the display's size.
    pub fn display_size(&self, display: Display, res: i32, width: u32, height: u32) -> (r: Result<
        (u32, u32),
        Error,
    >)
        ensures
            res < 0 ==> r == Result::<(u32, u32), Error>::Err(
                Error::Fn(NativeCall::GraphicsGetDisplaySize),
            ),
            res >= 0 ==> r == Result::<(u32, u32), Error>::Ok((width, height)),
    {
        let _ = display;
        if res < 0 {
            Err(Error::Fn(NativeCall::GraphicsGetDisplaySize))
        } else {
            Ok((width, height))
        }
    }

    /// The exact sequence of native teardown calls this system requires, in
    /// order.  Runs exactly once per constructed system; each call's success
    /// is asserted by the caller, since a teardown failure has no safe
    /// recovery.
    pub fn teardown_plan(&self) -> (r: Vec<SystemTeardownStep>)
        requires
            self.wf(),
        ensures
            r@ == spec_system_teardown_plan(*self),
    {
        let mut plan: Vec<SystemTeardownStep> = Vec::new();
        if self.egl_display.is_live() {
            plan.push(SystemTeardownStep::TerminateDisplay(self.egl_display.raw()));
        }
        plan.push(SystemTeardownStep::DeinitCompositor);
        proof {
            assert(plan@ =~= spec_system_teardown_plan(*self));
        }
        plan
    }

    /// Marks every native resource of this system as released: after the
    /// teardown plan was executed, the display connection is the sentinel
    /// again.
    pub fn complete_teardown(&mut self)
        requires
            old(self).wf(),
        ensures
            final(self).wf(),
            final(self).egl_display is Sentinel,
            final(self).lib_dir == old(self).lib_dir,
    {
        self.egl_display = Handle::Sentinel;
    }
}

/// A torn-down system asks for no display termination: its plan is only the
/// compositor deinitialization, so running the teardown a second time
/// touches no display handle.
pub proof fn lemma_system_teardown_idempotent(s: System)
    requires
        s.wf(),
        s.egl_display is Sentinel,
    ensures
        spec_system_teardown_plan(s) =~= seq![SystemTeardownStep::DeinitCompositor],
{
}

/// Every system teardown deinitializes the compositor subsystem exactly
/// once, as its last step, and terminates the display connection — if at all
/// — strictly before it: the fixed order is never reversed and never
/// skipped.
pub proof fn lemma_system_teardown_order(s: System)
    requires
        s.wf(),
    ensures
        spec_system_teardown_plan(s).last() == SystemTeardownStep::DeinitCompositor,
        forall|i: int|
            0 <= i < spec_system_teardown_plan(s).len() - 1 ==> spec_system_teardown_plan(s)[i]
                != SystemTeardownStep::DeinitCompositor,
        s.egl_display is Live <==> spec_system_teardown_plan(s).contains(
            SystemTeardownStep::TerminateDisplay(s.egl_display.spec_raw()),
        ),
{
    if s.egl_display is Live {
        assert(spec_system_teardown_plan(s)[0] == SystemTeardownStep::TerminateDisplay(
            s.egl_display.spec_raw(),
        ));
    } else {
        assert forall|i: int| 0 <= i < spec_system_teardown_plan(s).len() implies
            spec_system_teardown_plan(s)[i] != SystemTeardownStep::TerminateDisplay(
                s.egl_display.spec_raw(),
            ) by {}
    }
}

} // verus!
