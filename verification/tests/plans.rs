use template_matching::plan::{workgroup_count, SAMPLE_BYTES, UNIFORM_BYTES, WORKGROUP_SIZE};
use template_matching::{
    BufferAction, CacheKey, DispatchPlan, Grid, Image, MatchError, MatchTemplateMethod,
    ShaderUniforms, Size, TemplateMatcher,
};

const SAD: MatchTemplateMethod = MatchTemplateMethod::SumOfAbsoluteDifferences;
const SSD: MatchTemplateMethod = MatchTemplateMethod::SumOfSquaredDifferences;

fn blank(width: u32, height: u32) -> Image {
    Image::new(vec![0u32; (width * height) as usize], width, height)
}

fn plan_of(matcher: &mut TemplateMatcher, input: &Image, template: &Image, method: MatchTemplateMethod) -> DispatchPlan {
    match matcher.match_template(input, template, method) {
        Ok(plan) => plan,
        Err(error) => panic!("{}", error.description()),
    }
}

#[test]
fn first_call_builds_everything() {
    let mut matcher = TemplateMatcher::new();
    let plan = plan_of(&mut matcher, &blank(4, 4), &blank(2, 2), SSD);
    assert_eq!(
        plan,
        DispatchPlan {
            discard_previous: false,
            method: SSD,
            build_pipeline: true,
            input: BufferAction::Allocate,
            uniforms: Some(ShaderUniforms {
                input_width: 4,
                input_height: 4,
                template_width: 2,
                template_height: 2,
            }),
            template: BufferAction::Allocate,
            rebuild_result: true,
            result_size: Size { width: 3, height: 3 },
            result_bytes: 36,
            workgroups: Grid { x: 1, y: 1, z: 1 },
        }
    );
    assert!(matcher.is_matching_ongoing());
    assert_eq!(
        matcher.cache_key(),
        Some(CacheKey {
            method: SSD,
            input_size: Size { width: 4, height: 4 },
            template_size: Size { width: 2, height: 2 },
        })
    );
}

#[test]
fn same_dimensions_reuse_everything() {
    let mut matcher = TemplateMatcher::new();
    plan_of(&mut matcher, &blank(4, 4), &blank(2, 2), SSD);
    assert!(matcher.wait_for_result().is_some());
    let plan = plan_of(&mut matcher, &blank(4, 4), &blank(2, 2), SSD);
    assert_eq!(
        plan,
        DispatchPlan {
            discard_previous: false,
            method: SSD,
            build_pipeline: false,
            input: BufferAction::Overwrite,
            uniforms: None,
            template: BufferAction::Overwrite,
            rebuild_result: false,
            result_size: Size { width: 3, height: 3 },
            result_bytes: 36,
            workgroups: Grid { x: 1, y: 1, z: 1 },
        }
    );
}

#[test]
fn changed_input_dimensions_rebuild_input_and_result() {
    let mut matcher = TemplateMatcher::new();
    plan_of(&mut matcher, &blank(4, 4), &blank(2, 2), SSD);
    matcher.wait_for_result();
    let plan = plan_of(&mut matcher, &blank(5, 4), &blank(2, 2), SSD);
    assert!(!plan.build_pipeline);
    assert_eq!(plan.input, BufferAction::Allocate);
    assert_eq!(plan.template, BufferAction::Overwrite);
    assert!(plan.rebuild_result);
    assert_eq!(
        plan.uniforms,
        Some(ShaderUniforms { input_width: 5, input_height: 4, template_width: 2, template_height: 2 })
    );
    assert_eq!(plan.result_size, Size { width: 4, height: 3 });
    assert_eq!(plan.result_bytes, 48);
}

#[test]
fn changed_template_dimensions_rebuild_template_and_result() {
    let mut matcher = TemplateMatcher::new();
    plan_of(&mut matcher, &blank(4, 4), &blank(2, 2), SSD);
    matcher.wait_for_result();
    let plan = plan_of(&mut matcher, &blank(4, 4), &blank(2, 3), SSD);
    assert!(!plan.build_pipeline);
    assert_eq!(plan.input, BufferAction::Overwrite);
    assert_eq!(plan.template, BufferAction::Allocate);
    assert!(plan.rebuild_result);
    assert_eq!(
        plan.uniforms,
        Some(ShaderUniforms { input_width: 4, input_height: 4, template_width: 2, template_height: 3 })
    );
    assert_eq!(plan.result_size, Size { width: 3, height: 2 });
    assert_eq!(plan.result_bytes, 24);
}

#[test]
fn transposed_dimensions_are_different_dimensions() {
    let mut matcher = TemplateMatcher::new();
    plan_of(&mut matcher, &blank(6, 4), &blank(3, 2), SAD);
    matcher.wait_for_result();
    let plan = plan_of(&mut matcher, &blank(4, 6), &blank(2, 3), SAD);
    assert_eq!(plan.input, BufferAction::Allocate);
    assert_eq!(plan.template, BufferAction::Allocate);
    assert!(plan.rebuild_result);
}

#[test]
fn changed_method_rebuilds_only_the_pipeline() {
    let mut matcher = TemplateMatcher::new();
    plan_of(&mut matcher, &blank(4, 4), &blank(2, 2), SSD);
    matcher.wait_for_result();
    let plan = plan_of(&mut matcher, &blank(4, 4), &blank(2, 2), SAD);
    assert!(plan.build_pipeline);
    assert_eq!(plan.method, SAD);
    assert_eq!(plan.input, BufferAction::Overwrite);
    assert_eq!(plan.template, BufferAction::Overwrite);
    assert_eq!(plan.uniforms, None);
    assert!(!plan.rebuild_result);
    // And back again.
    matcher.wait_for_result();
    let plan = plan_of(&mut matcher, &blank(4, 4), &blank(2, 2), SSD);
    assert!(plan.build_pipeline);
    assert_eq!(plan.method, SSD);
}

#[test]
fn result_size_is_input_minus_template_plus_one() {
    let cases: [(u32, u32, u32, u32, u32, u32); 6] = [
        (4, 4, 2, 2, 3, 3),
        (4, 4, 4, 4, 1, 1),
        (10, 7, 3, 5, 8, 3),
        (1, 1, 1, 1, 1, 1),
        (100, 1, 1, 1, 100, 1),
        (33, 17, 1, 1, 33, 17),
    ];
    for (iw, ih, tw, th, rw, rh) in cases {
        let mut matcher = TemplateMatcher::new();
        let plan = plan_of(&mut matcher, &blank(iw, ih), &blank(tw, th), SAD);
        assert_eq!(plan.result_size, Size { width: rw, height: rh });
        assert_eq!(plan.result_bytes, (rw as u64) * (rh as u64) * 4);
        let claim = match matcher.wait_for_result() {
            Some(claim) => claim,
            None => panic!("a call was dispatched"),
        };
        assert_eq!(claim.size(), Size { width: rw, height: rh });
        assert_eq!(claim.sample_count(), (rw * rh) as usize);
    }
}

#[test]
fn workgroups_cover_the_result_in_tiles_of_sixteen() {
    assert_eq!(WORKGROUP_SIZE, 16);
    assert_eq!(workgroup_count(0), 0);
    assert_eq!(workgroup_count(1), 1);
    assert_eq!(workgroup_count(15), 1);
    assert_eq!(workgroup_count(16), 1);
    assert_eq!(workgroup_count(17), 2);
    assert_eq!(workgroup_count(32), 2);
    assert_eq!(workgroup_count(33), 3);
    assert_eq!(workgroup_count(16_777_217), 1_048_577);
    assert_eq!(workgroup_count(u32::MAX), 268_435_456);

    let mut matcher = TemplateMatcher::new();
    let plan = plan_of(&mut matcher, &blank(40, 17), &blank(8, 1), SAD);
    assert_eq!(plan.result_size, Size { width: 33, height: 17 });
    assert_eq!(plan.workgroups, Grid { x: 3, y: 2, z: 1 });
}

#[test]
fn sizes_in_bytes() {
    assert_eq!(SAMPLE_BYTES, 4);
    assert_eq!(UNIFORM_BYTES, 16);
    let uniforms = ShaderUniforms { input_width: 7, input_height: 5, template_width: 3, template_height: 2 };
    assert_eq!(uniforms.words(), [7, 5, 3, 2]);
    assert_eq!(uniforms.words().len() as u64 * SAMPLE_BYTES, UNIFORM_BYTES);
}

#[test]
fn entry_points_are_named_after_the_method() {
    assert_eq!(SAD.entry_point(), "main_sad");
    assert_eq!(SSD.entry_point(), "main_ssd");
}

#[test]
fn second_dispatch_discards_the_first_result() {
    let mut matcher = TemplateMatcher::new();
    let first = plan_of(&mut matcher, &blank(8, 8), &blank(2, 2), SSD);
    assert!(!first.discard_previous);
    let second = plan_of(&mut matcher, &blank(6, 5), &blank(3, 3), SSD);
    assert!(second.discard_previous);
    let claim = match matcher.wait_for_result() {
        Some(claim) => claim,
        None => panic!("a call was dispatched"),
    };
    assert_eq!(claim.size(), Size { width: 4, height: 3 });
    assert!(matcher.wait_for_result().is_none());
    assert!(!matcher.is_matching_ongoing());
    let third = plan_of(&mut matcher, &blank(6, 5), &blank(3, 3), SSD);
    assert!(!third.discard_previous);
}

#[test]
fn nothing_to_retrieve_before_the_first_call() {
    let mut matcher = TemplateMatcher::new();
    assert!(!matcher.is_matching_ongoing());
    assert_eq!(matcher.cache_key(), None);
    assert!(matcher.wait_for_result().is_none());
    assert!(matcher.wait_for_result().is_none());
}

#[test]
fn default_matcher_is_a_new_matcher() {
    let mut matcher = TemplateMatcher::default();
    assert!(!matcher.is_matching_ongoing());
    assert_eq!(matcher.cache_key(), None);
    let plan = plan_of(&mut matcher, &blank(3, 3), &blank(1, 1), SAD);
    assert!(plan.build_pipeline && plan.rebuild_result);
}

#[test]
fn template_wider_than_input_is_turned_down() {
    let mut matcher = TemplateMatcher::new();
    let outcome = matcher.match_template(&blank(4, 4), &blank(5, 2), SSD);
    assert_eq!(outcome, Err(MatchError::TemplateLargerThanInput));
}

#[test]
fn template_taller_than_input_is_turned_down() {
    let mut matcher = TemplateMatcher::new();
    let outcome = matcher.match_template(&blank(4, 4), &blank(2, 5), SSD);
    assert_eq!(outcome, Err(MatchError::TemplateLargerThanInput));
}

#[test]
fn malformed_surfaces_are_turned_down() {
    let mut matcher = TemplateMatcher::new();
    let short = Image::new(vec![0u32; 15], 4, 4);
    let long = Image::new(vec![0u32; 5], 2, 2);
    assert!(!short.is_well_formed());
    assert!(!long.is_well_formed());
    assert!(blank(4, 4).is_well_formed());
    assert_eq!(matcher.match_template(&short, &blank(2, 2), SSD), Err(MatchError::MalformedSurface));
    assert_eq!(matcher.match_template(&blank(4, 4), &long, SSD), Err(MatchError::MalformedSurface));
    // A malformed surface is reported before a template that is too large.
    assert_eq!(matcher.match_template(&long, &short, SSD), Err(MatchError::MalformedSurface));
}

#[test]
fn result_that_cannot_be_represented_is_turned_down() {
    // An input without rows may be as wide as can be; an empty template
    // then fits at one position more than a width can count.
    let mut matcher = TemplateMatcher::new();
    let input = Image::new(Vec::new(), u32::MAX, 0);
    let template = Image::new(Vec::new(), 0, 0);
    assert_eq!(matcher.match_template(&input, &template, SAD), Err(MatchError::ResultTooLarge));
    let input = Image::new(Vec::new(), 0, u32::MAX);
    assert_eq!(matcher.match_template(&input, &template, SAD), Err(MatchError::ResultTooLarge));
}

#[test]
fn empty_template_fits_everywhere() {
    let mut matcher = TemplateMatcher::new();
    let plan = plan_of(&mut matcher, &blank(3, 2), &Image::new(Vec::new(), 0, 0), SAD);
    assert_eq!(plan.result_size, Size { width: 4, height: 3 });
    assert_eq!(plan.result_bytes, 48);
}

#[test]
fn a_call_that_is_turned_down_changes_nothing() {
    let mut matcher = TemplateMatcher::new();
    plan_of(&mut matcher, &blank(4, 4), &blank(2, 2), SSD);
    let before = matcher.cache_key();
    assert_eq!(matcher.match_template(&blank(2, 2), &blank(4, 4), SAD), Err(MatchError::TemplateLargerThanInput));
    assert_eq!(matcher.cache_key(), before);
    assert!(matcher.is_matching_ongoing());
    let claim = match matcher.wait_for_result() {
        Some(claim) => claim,
        None => panic!("the first call is still outstanding"),
    };
    assert_eq!(claim.size(), Size { width: 3, height: 3 });
}

#[test]
fn errors_describe_themselves() {
    assert_eq!(MatchError::MalformedSurface.description(), "a surface must hold width * height samples");
    assert_eq!(
        MatchError::TemplateLargerThanInput.description(),
        "the template must not exceed the input in either dimension"
    );
    assert_eq!(MatchError::ResultTooLarge.description(), "the result surface is too large to be represented");
}
