//! A model of what the accelerator holds for one matcher.
//!
//! The model follows a [`DispatchPlan`] step by step, in the order the plan
//! documents, and says what the dispatched kernel then reads and writes. It
//! is the yardstick for the plans: [`lemma_plan_is_sound`] shows that, call
//! after call, the kernel is given the samples, dimensions and result buffer
//! of the call at hand and of no earlier one.

use vstd::prelude::*;
use crate::image::Image;
use crate::matcher::MatcherState;
use crate::method::MatchTemplateMethod;
use crate::plan::{request_error, BufferAction, CacheKey, DispatchPlan, Grid, ShaderUniforms};

verus! {

/// A buffer that holds a surface's samples.
pub struct BufferModel {
    /// Which allocation this is, counted from the first one on the device.
    pub allocation: nat,
    /// The buffer's contents.
    pub samples: Seq<u32>,
}

/// The result buffer together with its staging twin of the same size.
pub struct ResultModel {
    /// Which allocation this is.
    pub allocation: nat,
    /// Size of each of the two buffers in bytes.
    pub bytes: nat,
}

/// The allocations that a binding set points at.
pub struct BindingModel {
    pub input: nat,
    pub template: nat,
    pub result: nat,
}

/// What a compute pass reads, writes and covers.
pub struct Work {
    /// The method whose entry point runs.
    pub method: MatchTemplateMethod,
    /// The contents of the buffer bound as input.
    pub input: Seq<u32>,
    /// The contents of the buffer bound as template.
    pub template: Seq<u32>,
    /// The contents of the uniform buffer.
    pub uniforms: ShaderUniforms,
    /// The size in bytes of the buffer bound as result.
    pub result_bytes: nat,
    /// The grid of workgroups.
    pub workgroups: Grid,
    /// The number of bytes copied from the result to the staging buffer.
    pub copied_bytes: nat,
}

/// The device-side resources of one matcher.
pub struct DeviceModel {
    /// Number of buffers allocated so far.
    pub allocations: nat,
    /// The method the pipeline was built for.
    pub pipeline: Option<MatchTemplateMethod>,
    /// What was last written to the uniform buffer.
    pub uniforms: Option<ShaderUniforms>,
    pub input: Option<BufferModel>,
    pub template: Option<BufferModel>,
    pub result: Option<ResultModel>,
    pub bindings: Option<BindingModel>,
}

/// The buffer after an upload of `samples`: a new allocation that holds
/// them, or the old one with its first samples written over.
pub open spec fn uploaded(
    buffer: Option<BufferModel>,
    action: BufferAction,
    samples: Seq<u32>,
    next_allocation: nat,
) -> Option<BufferModel> {
    match action {
        BufferAction::Allocate => Some(BufferModel { allocation: next_allocation, samples }),
        BufferAction::Overwrite => match buffer {
            Some(old_buffer) => Some(
                BufferModel {
                    allocation: old_buffer.allocation,
                    samples: samples + old_buffer.samples.skip(samples.len() as int),
                },
            ),
            None => None,
        },
    }
}

/// Number of allocations that an upload makes.
pub open spec fn allocated_by(action: BufferAction) -> nat {
    match action {
        BufferAction::Allocate => 1,
        BufferAction::Overwrite => 0,
    }
}

impl DeviceModel {
    /// The device before the first call: nothing built, nothing written.
    pub open spec fn fresh() -> DeviceModel {
        DeviceModel {
            allocations: 0,
            pipeline: None,
            uniforms: None,
            input: None,
            template: None,
            result: None,
            bindings: None,
        }
    }

    /// The device after the plan was carried out with these samples.
    pub open spec fn perform(self, plan: DispatchPlan, input: Seq<u32>, template: Seq<u32>) -> DeviceModel {
        let input_buffer = uploaded(self.input, plan.input, input, self.allocations);
        let after_input = self.allocations + allocated_by(plan.input);
        let template_buffer = uploaded(self.template, plan.template, template, after_input);
        let after_template = after_input + allocated_by(plan.template);
        DeviceModel {
            allocations: if plan.rebuild_result { after_template + 1 } else { after_template },
            pipeline: if plan.build_pipeline { Some(plan.method) } else { self.pipeline },
            uniforms: if plan.uniforms is Some { plan.uniforms } else { self.uniforms },
            input: input_buffer,
            template: template_buffer,
            result: if plan.rebuild_result {
                Some(ResultModel { allocation: after_template, bytes: plan.result_bytes as nat })
            } else {
                self.result
            },
            bindings: if plan.rebuild_result {
                match (input_buffer, template_buffer) {
                    (Some(i), Some(t)) => Some(
                        BindingModel {
                            input: i.allocation,
                            template: t.allocation,
                            result: after_template,
                        },
                    ),
                    _ => None,
                }
            } else {
                self.bindings
            },
        }
    }

    /// The binding set points at the buffers that the uploads go to.
    pub open spec fn bindings_are_current(self) -> bool {
        match (self.input, self.template, self.result, self.bindings) {
            (Some(i), Some(t), Some(r), Some(b)) => {
                &&& b.input == i.allocation
                &&& b.template == t.allocation
                &&& b.result == r.allocation
            },
            _ => false,
        }
    }

    /// What the compute pass of the plan works on, provided that a pipeline
    /// exists, the uniform buffer was written and the binding set points at
    /// the current buffers; `None` otherwise.
    pub open spec fn work(self, plan: DispatchPlan) -> Option<Work> {
        match (self.pipeline, self.uniforms, self.input, self.template, self.result) {
            (Some(method), Some(uniforms), Some(i), Some(t), Some(r))
                if self.bindings_are_current() => Some(
                Work {
                    method,
                    input: i.samples,
                    template: t.samples,
                    uniforms,
                    result_bytes: r.bytes,
                    workgroups: plan.workgroups,
                    copied_bytes: plan.result_bytes as nat,
                },
            ),
            _ => None,
        }
    }

    /// The device holds what the matcher remembers: nothing is assumed of
    /// it before the first call; afterwards pipeline, uniforms and buffers
    /// are those of the remembered key, and the binding set is current.
    pub open spec fn consistent(self, state: MatcherState) -> bool {
        match state.cache {
            None => true,
            Some(key) => {
                &&& self.pipeline == Some(key.method)
                &&& self.uniforms == Some(key.uniforms())
                &&& self.bindings_are_current()
                &&& self.input matches Some(i) && i.allocation < self.allocations
                    && i.samples.len() == key.input_size.width * key.input_size.height
                &&& self.template matches Some(t) && t.allocation < self.allocations
                    && t.samples.len() == key.template_size.width * key.template_size.height
                &&& self.result matches Some(r) && r.allocation < self.allocations && r.bytes
                    == key.result_bytes()
            },
        }
    }
}

/// What the kernel should be given for a call with these surfaces.
pub open spec fn expected_work(input: Image, template: Image, method: MatchTemplateMethod) -> Work {
    let key = CacheKey::of(input@, template@, method);
    Work {
        method,
        input: input@.samples,
        template: template@.samples,
        uniforms: key.uniforms(),
        result_bytes: key.result_bytes() as nat,
        workgroups: key.workgroups(),
        copied_bytes: key.result_bytes() as nat,
    }
}

/// Whatever was called before, carrying out the plan of a call gives the
/// kernel exactly this call's method, samples, dimensions, result size and
/// grid, and leaves the device consistent with what the matcher remembers.
pub proof fn lemma_plan_is_sound(
    state: MatcherState,
    device: DeviceModel,
    input: Image,
    template: Image,
    method: MatchTemplateMethod,
)
    requires
        state.wf(),
        device.consistent(state),
        request_error(input@, template@, method) is None,
    ensures
        ({
            let key = CacheKey::of(input@, template@, method);
            let plan = state.plan(key);
            let after = device.perform(plan, input@.samples, template@.samples);
            &&& after.consistent(MatcherState::dispatched(key))
            &&& after.work(plan) == Some(expected_work(input, template, method))
        }),
{
}

} // verus!
