//! What one matching call asks of the accelerator.
//!
//! A call is summed up by its [`CacheKey`]: the method and the dimensions of
//! the two surfaces. From the key of the call before and the key of this one
//! follows the [`DispatchPlan`]: which device resources are built anew, which
//! are kept and only refilled, and the grid of workgroups that is dispatched.

use vstd::prelude::*;
use crate::image::Surface;
use crate::method::MatchTemplateMethod;

verus! {

/// Samples along one side of the square tile that one workgroup scores.
pub const WORKGROUP_SIZE: u32 = 16;

/// Bytes that one sample occupies in a device buffer.
pub const SAMPLE_BYTES: u64 = 4;

/// Size in bytes of the uniform buffer: four words.
pub const UNIFORM_BYTES: u64 = 16;

/// Why a matching call was turned down before anything was dispatched.
#[derive(Copy, Clone, Debug, PartialEq, Eq, Structural)]
pub enum MatchError {
    /// The input or the template does not hold `width * height` samples.
    MalformedSurface,
    /// The template is wider or taller than the input.
    TemplateLargerThanInput,
    /// The result's dimensions, sample count or byte size cannot be
    /// represented on this machine.
    ResultTooLarge,
}

impl MatchError {
    /// The text of [`MatchError::description`].
    pub open spec fn spec_description(self) -> Seq<char> {
        match self {
            MatchError::MalformedSurface => "a surface must hold width * height samples"@,
            MatchError::TemplateLargerThanInput => "the template must not exceed the input in either dimension"@,
            MatchError::ResultTooLarge => "the result surface is too large to be represented"@,
        }
    }

    /// A sentence that says what was wrong with the call.
    pub fn description(self) -> (text: &'static str)
        ensures
            text@ == self.spec_description(),
    {
        match self {
            MatchError::MalformedSurface => "a surface must hold width * height samples",
            MatchError::TemplateLargerThanInput => "the template must not exceed the input in either dimension",
            MatchError::ResultTooLarge => "the result surface is too large to be represented",
        }
    }
}

/// The width and height of a surface, in samples.
#[derive(Copy, Clone, Debug, PartialEq, Eq, Structural)]
pub struct Size {
    pub width: u32,
    pub height: u32,
}

/// Numbers of workgroups along the three axes of a dispatch.
#[derive(Copy, Clone, Debug, PartialEq, Eq, Structural)]
pub struct Grid {
    pub x: u32,
    pub y: u32,
    pub z: u32,
}

/// The four integers the kernel addresses its buffers with.
#[derive(Copy, Clone, Debug, PartialEq, Eq, Structural)]
pub struct ShaderUniforms {
    pub input_width: u32,
    pub input_height: u32,
    pub template_width: u32,
    pub template_height: u32,
}

impl ShaderUniforms {
    /// The uniform buffer's contents, word by word.
    pub fn words(self) -> (words: [u32; 4])
        ensures
            words@ == seq![
                self.input_width,
                self.input_height,
                self.template_width,
                self.template_height,
            ],
    {
        let words: [u32; 4] = [
            self.input_width,
            self.input_height,
            self.template_width,
            self.template_height,
        ];
        assert(words@ =~= seq![
            self.input_width,
            self.input_height,
            self.template_width,
            self.template_height,
        ]);
        words
    }
}

/// What decides whether device resources can be kept from one call to the
/// next: the method, and the sizes of the input and of the template.
#[derive(Copy, Clone, Debug, PartialEq, Eq, Structural)]
pub struct CacheKey {
    pub method: MatchTemplateMethod,
    pub input_size: Size,
    pub template_size: Size,
}

impl CacheKey {
    /// The key of a call with these surfaces and this method.
    pub open spec fn of(input: Surface, template: Surface, method: MatchTemplateMethod) -> CacheKey {
        CacheKey {
            method,
            input_size: Size { width: input.width as u32, height: input.height as u32 },
            template_size: Size { width: template.width as u32, height: template.height as u32 },
        }
    }

    /// The template exceeds the input in neither dimension.
    pub open spec fn template_fits(self) -> bool {
        &&& self.template_size.width <= self.input_size.width
        &&& self.template_size.height <= self.input_size.height
    }

    /// Number of positions along a row at which the template lies inside
    /// the input.
    pub open spec fn result_width(self) -> int {
        self.input_size.width - self.template_size.width + 1
    }

    /// Number of positions along a column at which the template lies inside
    /// the input.
    pub open spec fn result_height(self) -> int {
        self.input_size.height - self.template_size.height + 1
    }

    /// Number of scores in the result.
    pub open spec fn result_samples(self) -> int {
        self.result_width() * self.result_height()
    }

    /// Size in bytes of the result buffer, and of its staging twin.
    pub open spec fn result_bytes(self) -> int {
        self.result_samples() * SAMPLE_BYTES
    }

    /// The result can be described, held in memory and addressed on the
    /// device.
    pub open spec fn result_representable(self) -> bool {
        &&& self.result_width() <= u32::MAX
        &&& self.result_height() <= u32::MAX
        &&& self.result_samples() <= usize::MAX
        &&& self.result_bytes() <= u64::MAX
    }

    /// A key that a call can be dispatched for.
    pub open spec fn valid(self) -> bool {
        self.template_fits() && self.result_representable()
    }

    /// The size of the result.
    pub open spec fn result_size(self) -> Size {
        Size { width: self.result_width() as u32, height: self.result_height() as u32 }
    }

    /// The dimensions as the kernel is told them.
    pub open spec fn uniforms(self) -> ShaderUniforms {
        ShaderUniforms {
            input_width: self.input_size.width,
            input_height: self.input_size.height,
            template_width: self.template_size.width,
            template_height: self.template_size.height,
        }
    }

    /// The grid of workgroups that covers the result, one 16 by 16 tile per
    /// workgroup.
    pub open spec fn workgroups(self) -> Grid {
        Grid {
            x: groups_covering(self.result_width() as nat) as u32,
            y: groups_covering(self.result_height() as nat) as u32,
            z: 1,
        }
    }
}

/// The least number of tiles of [`WORKGROUP_SIZE`] samples that cover
/// `extent` samples: `extent / 16`, rounded up.
pub open spec fn groups_covering(extent: nat) -> nat {
    ((extent + WORKGROUP_SIZE - 1) / (WORKGROUP_SIZE as int)) as nat
}

/// `groups_covering(extent)` tiles cover the extent, and one tile fewer
/// does not.
pub proof fn lemma_groups_covering_is_least(extent: nat)
    ensures
        groups_covering(extent) * WORKGROUP_SIZE >= extent,
        extent > 0 ==> (groups_covering(extent) - 1) * WORKGROUP_SIZE < extent,
        extent == 0 ==> groups_covering(extent) == 0,
{
}

/// The number of workgroups along an axis of `extent` samples.
pub fn workgroup_count(extent: u32) -> (count: u32)
    ensures
        count == groups_covering(extent as nat),
{
    let whole: u32 = extent / WORKGROUP_SIZE;
    if extent % WORKGROUP_SIZE == 0 {
        whole
    } else {
        whole + 1
    }
}

/// What is done with a buffer that receives a surface's samples.
#[derive(Copy, Clone, Debug, PartialEq, Eq, Structural)]
pub enum BufferAction {
    /// A new buffer is created, sized to the samples and filled with them.
    Allocate,
    /// The buffer of the call before is kept and the samples are written
    /// over its contents, from its start.
    Overwrite,
}

/// The device work of one matching call, in the order in which it is
/// carried out:
///
/// 1. if `discard_previous`, the result of the call before is retrieved and
///    dropped;
/// 2. if `build_pipeline`, the pipeline is built for `method`'s entry point;
/// 3. the input is uploaded as `input` says;
/// 4. if `uniforms` is `Some`, it is written to the uniform buffer;
/// 5. the template is uploaded as `template` says;
/// 6. if `rebuild_result`, the result buffer and its staging twin are
///    created anew with `result_bytes` bytes each, and the binding set is
///    created anew over the buffers that now exist;
/// 7. a compute pass with the pipeline and the binding set dispatches
///    `workgroups`, then `result_bytes` bytes are copied from the result
///    buffer to the staging buffer, and the batch is submitted.
#[derive(Copy, Clone, Debug, PartialEq, Eq, Structural)]
pub struct DispatchPlan {
    pub discard_previous: bool,
    pub method: MatchTemplateMethod,
    pub build_pipeline: bool,
    pub input: BufferAction,
    pub uniforms: Option<ShaderUniforms>,
    pub template: BufferAction,
    pub rebuild_result: bool,
    pub result_size: Size,
    pub result_bytes: u64,
    pub workgroups: Grid,
}

/// Whether a buffer sized for `cached` dimensions has to be replaced for a
/// surface of `requested` dimensions: there is none yet, or the dimensions
/// differ.
pub open spec fn must_allocate(cached: Option<Size>, requested: Size) -> bool {
    cached != Some(requested)
}

/// The plan of a call with key `request`, when `cached` is the key of the
/// call before (`None` before the first call) and `outstanding` says whether
/// that call's result was never retrieved.
pub open spec fn plan_for(cached: Option<CacheKey>, outstanding: bool, request: CacheKey) -> DispatchPlan {
    let input_changed = must_allocate(
        match cached { Some(key) => Some(key.input_size), None => None },
        request.input_size,
    );
    let template_changed = must_allocate(
        match cached { Some(key) => Some(key.template_size), None => None },
        request.template_size,
    );
    DispatchPlan {
        discard_previous: outstanding,
        method: request.method,
        build_pipeline: match cached {
            Some(key) => key.method != request.method,
            None => true,
        },
        input: if input_changed { BufferAction::Allocate } else { BufferAction::Overwrite },
        uniforms: if input_changed || template_changed { Some(request.uniforms()) } else { None },
        template: if template_changed { BufferAction::Allocate } else { BufferAction::Overwrite },
        rebuild_result: input_changed || template_changed,
        result_size: request.result_size(),
        result_bytes: request.result_bytes() as u64,
        workgroups: request.workgroups(),
    }
}

/// Why a call with these surfaces is turned down, if it is.
pub open spec fn request_error(input: Surface, template: Surface, method: MatchTemplateMethod) -> Option<MatchError> {
    let key = CacheKey::of(input, template, method);
    if !input.wf() || !template.wf() {
        Some(MatchError::MalformedSurface)
    } else if !key.template_fits() {
        Some(MatchError::TemplateLargerThanInput)
    } else if !key.result_representable() {
        Some(MatchError::ResultTooLarge)
    } else {
        None
    }
}

} // verus!
