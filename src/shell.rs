//! The protocol for taking a thumbnail bitmap from the host shell. The host
//! performs each step with its native calls and reports how it went; this
//! machine decides the next one, so that every native resource acquired is
//! released, surface first, then bitmap, then the component-model context,
//! on success and on every failure alike.
use vstd::prelude::*;
use crate::thumbnail::ThumbErrorKind;

verus! {

/// The native step to perform next.
#[derive(Clone, Copy, Debug, PartialEq, Eq, Structural)]
pub enum ShellStep {
    /// Initialise the component model for this thread.
    InitContext,
    /// Resolve the path to a shell item that can produce images.
    CreateItem,
    /// Ask the item for a thumbnail-only bitmap (no icon fallback).
    RequestBitmap,
    /// Create an off-screen drawing surface and select the bitmap into it.
    CreateSurface,
    /// Read the bitmap's pixels through the surface.
    ReadPixels,
    /// Release the drawing surface.
    ReleaseSurface,
    /// Release the bitmap.
    ReleaseBitmap,
    /// Tear down the component model.
    ReleaseContext,
    /// Nothing is left to do; nothing is held.
    Finished,
}

/// A shell thumbnail request in progress: the next step, which resources are
/// held, and the failure that ended it early, if any.
#[derive(Debug)]
pub struct ShellSession {
    pub step: ShellStep,
    pub context: bool,
    pub bitmap: bool,
    pub surface: bool,
    pub failure: Option<ThumbErrorKind>,
    pub detail: String,
}

pub struct SessionView {
    pub step: ShellStep,
    pub context: bool,
    pub bitmap: bool,
    pub surface: bool,
    pub failure: Option<ThumbErrorKind>,
    pub detail: Seq<char>,
}

impl View for ShellSession {
    type V = SessionView;

    open spec fn view(&self) -> SessionView {
        SessionView {
            step: self.step,
            context: self.context,
            bitmap: self.bitmap,
            surface: self.surface,
            failure: self.failure,
            detail: self.detail@,
        }
    }
}

/// Resources are acquired in order (context, bitmap, surface), and each step
/// agrees with what is held: an acquiring step holds what came before it, a
/// releasing step holds what it releases and nothing acquired after it, and
/// a finished session holds nothing.
pub open spec fn session_wf(s: SessionView) -> bool {
    &&& (s.surface ==> s.bitmap)
    &&& (s.bitmap ==> s.context)
    &&& match s.step {
        ShellStep::InitContext => !s.context && s.failure is None,
        ShellStep::CreateItem => s.context && !s.bitmap && s.failure is None,
        ShellStep::RequestBitmap => s.context && !s.bitmap && s.failure is None,
        ShellStep::CreateSurface => s.bitmap && !s.surface && s.failure is None,
        ShellStep::ReadPixels => s.surface && s.failure is None,
        ShellStep::ReleaseSurface => s.surface,
        ShellStep::ReleaseBitmap => s.bitmap && !s.surface,
        ShellStep::ReleaseContext => s.context && !s.bitmap,
        ShellStep::Finished => !s.context,
    }
}

/// The release that comes next for what is held: surface, then bitmap, then
/// context, then nothing.
pub open spec fn next_release(surface: bool, bitmap: bool, context: bool) -> ShellStep {
    if surface {
        ShellStep::ReleaseSurface
    } else if bitmap {
        ShellStep::ReleaseBitmap
    } else if context {
        ShellStep::ReleaseContext
    } else {
        ShellStep::Finished
    }
}

/// The session stops acquiring: the failure (if any) is recorded and the
/// releases begin.
pub open spec fn stop_spec(s: SessionView, failure: Option<ThumbErrorKind>, detail: Seq<char>) -> SessionView {
    SessionView {
        step: next_release(s.surface, s.bitmap, s.context),
        failure,
        detail,
        ..s
    }
}

/// The session after the host reports how its step went.
pub open spec fn session_step_spec(s: SessionView, r: Result<(), Seq<char>>) -> SessionView {
    let native = Some(ThumbErrorKind::NativeResourceFailure);
    match s.step {
        ShellStep::InitContext => match r {
            Ok(_) => SessionView { step: ShellStep::CreateItem, context: true, ..s },
            Err(m) => stop_spec(s, native, m),
        },
        ShellStep::CreateItem => match r {
            Ok(_) => SessionView { step: ShellStep::RequestBitmap, ..s },
            Err(m) => stop_spec(s, native, m),
        },
        ShellStep::RequestBitmap => match r {
            Ok(_) => SessionView { step: ShellStep::CreateSurface, bitmap: true, ..s },
            Err(m) => stop_spec(s, native, m),
        },
        ShellStep::CreateSurface => match r {
            Ok(_) => SessionView { step: ShellStep::ReadPixels, surface: true, ..s },
            Err(m) => stop_spec(s, native, m),
        },
        ShellStep::ReadPixels => match r {
            Ok(_) => stop_spec(s, None, s.detail),
            Err(m) => stop_spec(s, Some(ThumbErrorKind::DecodeFailure), m),
        },
        ShellStep::ReleaseSurface => SessionView {
            step: next_release(false, s.bitmap, s.context),
            surface: false,
            ..s
        },
        ShellStep::ReleaseBitmap => SessionView {
            step: next_release(false, false, s.context),
            bitmap: false,
            ..s
        },
        ShellStep::ReleaseContext => SessionView { step: ShellStep::Finished, context: false, ..s },
        ShellStep::Finished => s,
    }
}

impl ShellSession {
    /// A request about to start: nothing held.
    pub fn new() -> (r: ShellSession)
        ensures
            r@.step == ShellStep::InitContext,
            !r.context && !r.bitmap && !r.surface,
            r.failure is None,
            session_wf(r@),
    {
        ShellSession {
            step: ShellStep::InitContext,
            context: false,
            bitmap: false,
            surface: false,
            failure: None,
            detail: String::new(),
        }
    }

    fn release_step(surface: bool, bitmap: bool, context: bool) -> (r: ShellStep)
        ensures
            r == next_release(surface, bitmap, context),
    {
        if surface {
            ShellStep::ReleaseSurface
        } else if bitmap {
            ShellStep::ReleaseBitmap
        } else if context {
            ShellStep::ReleaseContext
        } else {
            ShellStep::Finished
        }
    }

    /// Takes in how the current step went: `Ok`, or the host's message. A
    /// release is never retried: once attempted, the resource counts as
    /// released.
    pub fn handle(&mut self, result: Result<(), String>)
        requires
            session_wf(old(self)@),
        ensures
            final(self)@ == session_step_spec(
                old(self)@,
                match result {
                    Ok(_) => Ok(()),
                    Err(m) => Err(m@),
                },
            ),
            session_wf(final(self)@),
    {
        match self.step {
            ShellStep::InitContext | ShellStep::CreateItem | ShellStep::RequestBitmap
            | ShellStep::CreateSurface | ShellStep::ReadPixels => {
                match result {
                    Ok(_) => {
                        match self.step {
                            ShellStep::InitContext => {
                                self.context = true;
                                self.step = ShellStep::CreateItem;
                            },
                            ShellStep::CreateItem => {
                                self.step = ShellStep::RequestBitmap;
                            },
                            ShellStep::RequestBitmap => {
                                self.bitmap = true;
                                self.step = ShellStep::CreateSurface;
                            },
                            ShellStep::CreateSurface => {
                                self.surface = true;
                                self.step = ShellStep::ReadPixels;
                            },
                            _ => {
                                self.step = ShellSession::release_step(
                                    self.surface,
                                    self.bitmap,
                                    self.context,
                                );
                            },
                        }
                    },
                    Err(m) => {
                        let kind = if self.step == ShellStep::ReadPixels {
                            ThumbErrorKind::DecodeFailure
                        } else {
                            ThumbErrorKind::NativeResourceFailure
                        };
                        self.failure = Some(kind);
                        self.detail = m;
                        self.step = ShellSession::release_step(self.surface, self.bitmap, self.context);
                    },
                }
            },
            ShellStep::ReleaseSurface => {
                self.surface = false;
                self.step = ShellSession::release_step(false, self.bitmap, self.context);
            },
            ShellStep::ReleaseBitmap => {
                self.bitmap = false;
                self.step = ShellSession::release_step(false, false, self.context);
            },
            ShellStep::ReleaseContext => {
                self.context = false;
                self.step = ShellStep::Finished;
            },
            ShellStep::Finished => {},
        }
    }

    /// Whether the pixels were read and every resource released.
    pub fn succeeded(&self) -> (r: bool)
        ensures
            r == (self.step == ShellStep::Finished && self.failure is None),
    {
        self.step == ShellStep::Finished && self.failure.is_none()
    }
}

/// A session that reaches its end holds nothing, whichever step failed.
pub proof fn lemma_finished_holds_nothing(s: SessionView)
    requires
        session_wf(s),
        s.step == ShellStep::Finished,
    ensures
        !s.context && !s.bitmap && !s.surface,
{
}

/// After a failure while holding the surface, the releases come surface,
/// bitmap, context, in that order, and the session ends with the failure.
pub proof fn lemma_release_order(s: SessionView, m: Seq<char>)
    requires
        session_wf(s),
        s.step == ShellStep::ReadPixels,
    ensures
        ({
            let s1 = session_step_spec(s, Err(m));
            let s2 = session_step_spec(s1, Ok(()));
            let s3 = session_step_spec(s2, Ok(()));
            let s4 = session_step_spec(s3, Ok(()));
            &&& s1.step == ShellStep::ReleaseSurface
            &&& s2.step == ShellStep::ReleaseBitmap
            &&& s3.step == ShellStep::ReleaseContext
            &&& s4.step == ShellStep::Finished
            &&& s4.failure == Some(ThumbErrorKind::DecodeFailure)
            &&& !s4.context && !s4.bitmap && !s4.surface
        }),
{
}

} // verus!
