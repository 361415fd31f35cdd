//! The matcher: what it remembers from call to call, and what follows from
//! it for the next call.
//!
//! The matcher itself never touches the accelerator. A call to
//! [`TemplateMatcher::match_template`] yields the [`DispatchPlan`] that the
//! owner of the device carries out; [`TemplateMatcher::wait_for_result`]
//! yields a [`PendingResult`], which turns what was read back from the
//! staging buffer into the result image.

use vstd::prelude::*;
use crate::image::{Image, Surface};
use crate::method::MatchTemplateMethod;
use crate::plan::{plan_for, request_error, workgroup_count, BufferAction};
use crate::plan::{CacheKey, DispatchPlan, Grid, MatchError, ShaderUniforms, Size, SAMPLE_BYTES};

verus! {

/// The mathematical content of a [`TemplateMatcher`].
pub struct MatcherState {
    /// The key of the last dispatched call; `None` before the first one.
    /// Pipeline, buffers and binding set exist on the device exactly when
    /// this is `Some`, built for this key.
    pub cache: Option<CacheKey>,
    /// Whether a call was dispatched whose result has not been retrieved.
    pub matching_ongoing: bool,
}

impl MatcherState {
    /// The state of a new matcher: nothing built, nothing dispatched.
    pub open spec fn initial() -> MatcherState {
        MatcherState { cache: None, matching_ongoing: false }
    }

    /// The remembered key is one a call could be dispatched for, and a
    /// result is outstanding only once something was dispatched.
    pub open spec fn wf(self) -> bool {
        &&& self.cache matches Some(key) ==> key.valid()
        &&& self.matching_ongoing ==> self.cache is Some
    }

    /// The plan of a call with key `request` in this state.
    pub open spec fn plan(self, request: CacheKey) -> DispatchPlan {
        plan_for(self.cache, self.matching_ongoing, request)
    }

    /// The state that a dispatched call with key `request` leaves,
    /// whatever the state before.
    pub open spec fn dispatched(request: CacheKey) -> MatcherState {
        MatcherState { cache: Some(request), matching_ongoing: true }
    }

    /// The size of the outstanding result, if there is one.
    pub open spec fn pending(self) -> Option<Size> {
        match self.cache {
            Some(key) if self.matching_ongoing => Some(key.result_size()),
            _ => None,
        }
    }

    /// The state after a retrieval: nothing is outstanding, the device
    /// resources stay.
    pub open spec fn retrieved(self) -> MatcherState {
        MatcherState { cache: self.cache, matching_ongoing: false }
    }
}

/// What came of mapping the staging buffer for reading.
#[derive(Debug)]
pub enum Readback {
    /// The mapping succeeded; these are the buffer's samples.
    Mapped(Vec<u32>),
    /// The mapping was reported as failed.
    Failed,
}

/// The surface that a result of `size` becomes for a given readback: the
/// samples read, or zeros where the mapping failed.
pub open spec fn retrieved_surface(size: Size, readback: Readback) -> Surface {
    match readback {
        Readback::Mapped(samples) => Surface {
            samples: samples@,
            width: size.width as nat,
            height: size.height as nat,
        },
        Readback::Failed => Surface::zeroed(size.width as nat, size.height as nat),
    }
}

/// The claim on an outstanding result, handed out by
/// [`TemplateMatcher::wait_for_result`].
#[derive(Debug)]
pub struct PendingResult {
    size: Size,
}

impl View for PendingResult {
    type V = Size;

    closed spec fn view(&self) -> Size {
        self.size
    }
}

impl PendingResult {
    /// The samples of the result can be counted and held in memory.
    #[verifier::type_invariant]
    spec fn fits_in_memory(self) -> bool {
        self.size.width * self.size.height <= usize::MAX
    }

    /// The size of the result.
    pub fn size(&self) -> (size: Size)
        ensures
            size == self@,
    {
        self.size
    }

    /// Number of samples in the result, and in a successful readback.
    pub fn sample_count(&self) -> (count: usize)
        ensures
            count == self@.width * self@.height,
    {
        proof {
            use_type_invariant(self);
        }
        (self.size.width as usize) * (self.size.height as usize)
    }

    /// Whether [`PendingResult::complete`] can be given this readback: a
    /// failed mapping always, a successful one if it has as many samples as
    /// the result.
    pub fn accepts(&self, readback: &Readback) -> (ok: bool)
        ensures
            ok == (readback matches Readback::Mapped(samples) ==> samples@.len() == self@.width
                * self@.height),
    {
        match readback {
            Readback::Mapped(samples) => samples.len() == self.sample_count(),
            Readback::Failed => true,
        }
    }

    /// The result image for what was read back from the staging buffer.
    ///
    /// A successful mapping hands over the staging buffer's samples, of
    /// which there are as many as the result has. A failed mapping gives an
    /// image of the same size filled with zeros.
    pub fn complete(self, readback: Readback) -> (image: Image)
        requires
            readback matches Readback::Mapped(samples) ==> samples@.len() == self@.width
                * self@.height,
        ensures
            image@ == retrieved_surface(self@, readback),
            image.wf(),
    {
        proof {
            use_type_invariant(&self);
        }
        match readback {
            Readback::Mapped(samples) => Image::new(samples, self.size.width, self.size.height),
            Readback::Failed => Image::zeroed(self.size.width, self.size.height),
        }
    }
}

/// The long-lived state of a matcher: the key of the last dispatched call
/// and whether its result is still outstanding.
#[derive(Debug)]
pub struct TemplateMatcher {
    cache: Option<CacheKey>,
    matching_ongoing: bool,
}

impl View for TemplateMatcher {
    type V = MatcherState;

    closed spec fn view(&self) -> MatcherState {
        MatcherState { cache: self.cache, matching_ongoing: self.matching_ongoing }
    }
}

impl Default for TemplateMatcher {
    fn default() -> (matcher: Self)
        ensures
            matcher@ == MatcherState::initial(),
    {
        Self::new()
    }
}

impl TemplateMatcher {
    /// Every matcher is well formed.
    #[verifier::type_invariant]
    spec fn inv(self) -> bool {
        self@.wf()
    }

    /// A matcher that has built nothing and dispatched nothing.
    pub fn new() -> (matcher: Self)
        ensures
            matcher@ == MatcherState::initial(),
            matcher@.wf(),
    {
        Self { cache: None, matching_ongoing: false }
    }

    /// Whether a dispatched call's result has not been retrieved yet.
    pub fn is_matching_ongoing(&self) -> (ongoing: bool)
        ensures
            ongoing == self@.matching_ongoing,
    {
        self.matching_ongoing
    }

    /// The key of the last dispatched call.
    pub fn cache_key(&self) -> (key: Option<CacheKey>)
        ensures
            key == self@.cache,
    {
        self.cache
    }

    /// Claims the result of the last dispatched call.
    ///
    /// Returns `None` if no call is outstanding. Otherwise the call is no
    /// longer outstanding, and the claim returned carries the size of its
    /// result; the caller maps the staging buffer, waits for the device and
    /// hands what it read to [`PendingResult::complete`].
    pub fn wait_for_result(&mut self) -> (pending: Option<PendingResult>)
        ensures
            final(self)@.wf(),
            final(self)@ == old(self)@.retrieved(),
            match pending {
                Some(claim) => old(self)@.pending() == Some(claim@),
                None => old(self)@.pending() is None,
            },
    {
        proof {
            use_type_invariant(&*self);
        }
        if !self.matching_ongoing {
            return None;
        }
        self.matching_ongoing = false;
        match self.cache {
            Some(key) => {
                let size = Size {
                    width: key.input_size.width - key.template_size.width + 1,
                    height: key.input_size.height - key.template_size.height + 1,
                };
                Some(PendingResult { size })
            },
            None => None,
        }
    }

    /// Plans a matching call and records it as dispatched.
    ///
    /// The call is turned down, and the matcher left as it was, when a
    /// surface is malformed, when the template exceeds the input, or when
    /// the result cannot be represented. Otherwise the plan says what is
    /// rebuilt and what is reused, given the call before; the call counts
    /// as dispatched, and a result that was still outstanding is the plan's
    /// to discard.
    pub fn match_template(
        &mut self,
        input: &Image,
        template: &Image,
        method: MatchTemplateMethod,
    ) -> (outcome: Result<DispatchPlan, MatchError>)
        ensures
            final(self)@.wf(),
            match outcome {
                Ok(plan) => {
                    &&& request_error(input@, template@, method) is None
                    &&& plan == old(self)@.plan(CacheKey::of(input@, template@, method))
                    &&& final(self)@ == MatcherState::dispatched(
                        CacheKey::of(input@, template@, method),
                    )
                },
                Err(error) => {
                    &&& request_error(input@, template@, method) == Some(error)
                    &&& final(self)@ == old(self)@
                },
            },
    {
        proof {
            use_type_invariant(&*self);
        }
        let request = CacheKey {
            method,
            input_size: Size { width: input.width, height: input.height },
            template_size: Size { width: template.width, height: template.height },
        };
        if !input.is_well_formed() || !template.is_well_formed() {
            return Err(MatchError::MalformedSurface);
        }
        if template.width > input.width || template.height > input.height {
            return Err(MatchError::TemplateLargerThanInput);
        }
        let result_width: u64 = (input.width - template.width) as u64 + 1;
        let result_height: u64 = (input.height - template.height) as u64 + 1;
        if result_width > u32::MAX as u64 || result_height > u32::MAX as u64 {
            return Err(MatchError::ResultTooLarge);
        }
        assert(result_width * result_height <= u64::MAX) by (nonlinear_arith)
            requires
                result_width <= u32::MAX,
                result_height <= u32::MAX,
        ;
        let result_samples: u64 = result_width * result_height;
        if result_samples > usize::MAX as u64 {
            return Err(MatchError::ResultTooLarge);
        }
        let result_bytes: u64 = match result_samples.checked_mul(SAMPLE_BYTES) {
            Some(bytes) => bytes,
            None => {
                return Err(MatchError::ResultTooLarge);
            },
        };
        let (build_pipeline, input_changed, template_changed) = match self.cache {
            Some(key) => (
                key.method != method,
                key.input_size != request.input_size,
                key.template_size != request.template_size,
            ),
            None => (true, true, true),
        };
        let buffers_changed = input_changed || template_changed;
        let plan = DispatchPlan {
            discard_previous: self.matching_ongoing,
            method,
            build_pipeline,
            input: if input_changed { BufferAction::Allocate } else { BufferAction::Overwrite },
            uniforms: if buffers_changed {
                Some(
                    ShaderUniforms {
                        input_width: input.width,
                        input_height: input.height,
                        template_width: template.width,
                        template_height: template.height,
                    },
                )
            } else {
                None
            },
            template: if template_changed {
                BufferAction::Allocate
            } else {
                BufferAction::Overwrite
            },
            rebuild_result: buffers_changed,
            result_size: Size { width: result_width as u32, height: result_height as u32 },
            result_bytes,
            workgroups: Grid {
                x: workgroup_count(result_width as u32),
                y: workgroup_count(result_height as u32),
                z: 1,
            },
        };
        self.cache = Some(request);
        self.matching_ongoing = true;
        Ok(plan)
    }
}

/// Plans a single matching call on a matcher of its own.
///
/// This is [`TemplateMatcher::new`], [`TemplateMatcher::match_template`] and
/// [`TemplateMatcher::wait_for_result`] in one: the plan builds every
/// resource, and the claim is for this call's result.
pub fn match_template(input: &Image, template: &Image, method: MatchTemplateMethod) -> (outcome:
    Result<(DispatchPlan, PendingResult), MatchError>)
    ensures
        match outcome {
            Ok((plan, claim)) => {
                &&& request_error(input@, template@, method) is None
                &&& plan == MatcherState::initial().plan(CacheKey::of(input@, template@, method))
                &&& claim@ == CacheKey::of(input@, template@, method).result_size()
            },
            Err(error) => request_error(input@, template@, method) == Some(error),
        },
{
    let mut matcher = TemplateMatcher::new();
    match matcher.match_template(input, template, method) {
        Ok(plan) => {
            let claim = matcher.wait_for_result().unwrap();
            Ok((plan, claim))
        },
        Err(error) => Err(error),
    }
}

} // verus!
