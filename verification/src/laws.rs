//! Laws of the matcher, stated over the models that the contracts use.

use vstd::prelude::*;
use crate::device::{expected_work, lemma_plan_is_sound, DeviceModel};
use crate::image::Image;
use crate::matcher::{retrieved_surface, MatcherState, Readback};
use crate::method::MatchTemplateMethod;
use crate::plan::{request_error, BufferAction, CacheKey, Size};

verus! {

/// Retrieval after a dispatched call yields a surface that is exactly
/// `input.width - template.width + 1` wide and
/// `input.height - template.height + 1` high, and well formed, whether the
/// mapping of the staging buffer succeeded or failed.
pub proof fn lemma_retrieved_surface_has_result_size(
    input: Image,
    template: Image,
    method: MatchTemplateMethod,
    readback: Readback,
)
    requires
        request_error(input@, template@, method) is None,
        readback matches Readback::Mapped(samples) ==> samples@.len() == (input.width
            - template.width + 1) * (input.height - template.height + 1),
    ensures
        ({
            let state = MatcherState::dispatched(CacheKey::of(input@, template@, method));
            &&& state.pending() matches Some(size)
            &&& size.width == input.width - template.width + 1
            &&& size.height == input.height - template.height + 1
            &&& retrieved_surface(size, readback).width == input.width - template.width + 1
            &&& retrieved_surface(size, readback).height == input.height - template.height + 1
            &&& retrieved_surface(size, readback).wf()
        }),
{
}

/// A call repeated with the same surfaces and method, after its result was
/// retrieved, rebuilds nothing and gives the kernel the same work as the
/// first time; its result has the same size.
pub proof fn lemma_repeated_call_repeats_work(
    state: MatcherState,
    device: DeviceModel,
    input: Image,
    template: Image,
    method: MatchTemplateMethod,
)
    requires
        state.wf(),
        device.consistent(state),
        request_error(input@, template@, method) is None,
    ensures
        ({
            let key = CacheKey::of(input@, template@, method);
            let first_plan = state.plan(key);
            let first_device = device.perform(first_plan, input@.samples, template@.samples);
            let between = MatcherState::dispatched(key).retrieved();
            let second_plan = between.plan(key);
            let second_device = first_device.perform(
                second_plan,
                input@.samples,
                template@.samples,
            );
            &&& !second_plan.discard_previous
            &&& !second_plan.build_pipeline
            &&& second_plan.input == BufferAction::Overwrite
            &&& second_plan.template == BufferAction::Overwrite
            &&& second_plan.uniforms is None
            &&& !second_plan.rebuild_result
            &&& second_device.work(second_plan) == first_device.work(first_plan)
            &&& first_device.work(first_plan) == Some(expected_work(input, template, method))
            &&& second_plan.result_size == first_plan.result_size
        }),
{
    let key = CacheKey::of(input@, template@, method);
    let first_plan = state.plan(key);
    let first_device = device.perform(first_plan, input@.samples, template@.samples);
    let between = MatcherState::dispatched(key).retrieved();
    lemma_plan_is_sound(state, device, input, template, method);
    lemma_plan_is_sound(between, first_device, input, template, method);
}

/// Of two calls dispatched without a retrieval between them, only the
/// second one's result can be retrieved: the second plan discards the
/// first result, the retrieval that follows is for the second call's
/// result, and one more retrieval finds nothing.
pub proof fn lemma_second_dispatch_discards_first(first: CacheKey, second: CacheKey)
    requires
        first.valid(),
        second.valid(),
    ensures
        ({
            let after_first = MatcherState::dispatched(first);
            let after_second = MatcherState::dispatched(second);
            &&& after_first.plan(second).discard_previous
            &&& after_second.pending() == Some(second.result_size())
            &&& after_second.retrieved().pending() is None
            &&& after_second.retrieved().wf()
        }),
{
}

/// A matcher that is used again for surfaces of the dimensions it was last
/// used with keeps its buffers and writes the new samples over them, and
/// the kernel is given the same work as by a matcher that has never been
/// used: nothing of the earlier samples is left.
pub proof fn lemma_reuse_matches_fresh_matcher(
    state: MatcherState,
    device: DeviceModel,
    input: Image,
    template: Image,
    method: MatchTemplateMethod,
)
    requires
        state.wf(),
        device.consistent(state),
        request_error(input@, template@, method) is None,
        state.cache matches Some(cached) && cached.input_size == (Size {
            width: input.width,
            height: input.height,
        }) && cached.template_size == (Size { width: template.width, height: template.height }),
    ensures
        ({
            let key = CacheKey::of(input@, template@, method);
            let plan = state.plan(key);
            let fresh_plan = MatcherState::initial().plan(key);
            &&& plan.input == BufferAction::Overwrite
            &&& plan.template == BufferAction::Overwrite
            &&& !plan.rebuild_result
            &&& device.perform(plan, input@.samples, template@.samples).work(plan)
                == DeviceModel::fresh().perform(
                fresh_plan,
                input@.samples,
                template@.samples,
            ).work(fresh_plan)
        }),
{
    lemma_plan_is_sound(state, device, input, template, method);
    lemma_plan_is_sound(MatcherState::initial(), DeviceModel::fresh(), input, template, method);
}

} // verus!
