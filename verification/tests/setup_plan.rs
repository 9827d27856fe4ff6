use triangle_demo::setup::plan;
use triangle_demo::setup::ContextProfile;
use triangle_demo::setup::InitFailure;
use triangle_demo::setup::SetupStep;
use triangle_demo::setup::ShaderStage;
use triangle_demo::setup::Subsystem;

fn linked(steps: &[SetupStep]) -> Vec<ShaderStage> {
    let mut stages = Vec::new();
    for step in steps {
        if let SetupStep::CompileShader { stage, linked: true } = step {
            stages.push(*stage);
        }
    }
    stages
}

#[test]
fn plan_for_the_default_window() {
    let steps = plan(800, 600);
    let expected = vec![
        SetupStep::InitSubsystem { subsystem: Subsystem::Core },
        SetupStep::InitSubsystem { subsystem: Subsystem::Video },
        SetupStep::InitSubsystem { subsystem: Subsystem::Timer },
        SetupStep::RequestContext { profile: ContextProfile::Core, major: 4, minor: 5 },
        SetupStep::CreateWindow { width: 800, height: 600 },
        SetupStep::CreateContext,
        SetupStep::LoadFunctions,
        SetupStep::CompileShader { stage: ShaderStage::Vertex, linked: true },
        SetupStep::CompileShader { stage: ShaderStage::Fragment, linked: true },
        SetupStep::CompileShader { stage: ShaderStage::TessControl, linked: false },
        SetupStep::CompileShader { stage: ShaderStage::TessEvaluation, linked: false },
        SetupStep::CompileShader { stage: ShaderStage::Geometry, linked: false },
        SetupStep::LinkProgram,
        SetupStep::UseProgram,
        SetupStep::SetViewport { x: 0, y: 0, width: 800, height: 600 },
        SetupStep::CreateVertexArray,
        SetupStep::BindVertexArray,
    ];
    assert_eq!(steps, expected);
}

#[test]
fn plan_follows_the_window_size() {
    let steps = plan(1, 2);
    assert_eq!(steps.len(), 17);
    assert_eq!(steps[4], SetupStep::CreateWindow { width: 1, height: 2 });
    assert_eq!(steps[14], SetupStep::SetViewport { x: 0, y: 0, width: 1, height: 2 });
}

#[test]
fn plan_for_an_empty_window() {
    let steps = plan(0, 0);
    assert_eq!(steps[4], SetupStep::CreateWindow { width: 0, height: 0 });
    assert_eq!(steps[14], SetupStep::SetViewport { x: 0, y: 0, width: 0, height: 0 });
}

#[test]
fn viewport_takes_the_largest_signed_size_unchanged() {
    let steps = plan(2147483647, 2147483647);
    assert_eq!(
        steps[14],
        SetupStep::SetViewport { x: 0, y: 0, width: 2147483647, height: 2147483647 }
    );
}

#[test]
fn viewport_wraps_sizes_above_the_signed_range() {
    let steps = plan(2147483648, 4294967295);
    assert_eq!(steps[4], SetupStep::CreateWindow { width: 2147483648, height: 4294967295 });
    assert_eq!(steps[14], SetupStep::SetViewport { x: 0, y: 0, width: -2147483648, height: -1 });
}

#[test]
fn context_is_core_profile_4_5() {
    let steps = plan(800, 600);
    assert_eq!(
        steps[3],
        SetupStep::RequestContext { profile: ContextProfile::Core, major: 4, minor: 5 }
    );
}

#[test]
fn link_receives_vertex_and_fragment_only() {
    let steps = plan(800, 600);
    assert_eq!(linked(&steps), vec![ShaderStage::Vertex, ShaderStage::Fragment]);
}

#[test]
fn link_does_not_depend_on_the_shaders_left_aside() {
    let full = plan(800, 600);
    let mut without: Vec<SetupStep> = Vec::new();
    for step in &full {
        match step {
            SetupStep::CompileShader { linked: false, .. } => {}
            other => without.push(*other),
        }
    }
    assert_eq!(without.len(), 14);
    assert_eq!(linked(&without), linked(&full));
}

#[test]
fn all_five_stages_are_compiled_before_the_link() {
    let steps = plan(800, 600);
    let link = steps.iter().position(|s| *s == SetupStep::LinkProgram).unwrap();
    let mut compiled = Vec::new();
    for step in &steps[..link] {
        if let SetupStep::CompileShader { stage, .. } = step {
            compiled.push(*stage);
        }
    }
    assert_eq!(
        compiled,
        vec![
            ShaderStage::Vertex,
            ShaderStage::Fragment,
            ShaderStage::TessControl,
            ShaderStage::TessEvaluation,
            ShaderStage::Geometry,
        ]
    );
}

#[test]
fn only_vertex_and_fragment_stages_are_linked() {
    assert!(ShaderStage::Vertex.is_linked());
    assert!(ShaderStage::Fragment.is_linked());
    assert!(!ShaderStage::TessControl.is_linked());
    assert!(!ShaderStage::TessEvaluation.is_linked());
    assert!(!ShaderStage::Geometry.is_linked());
}

#[test]
fn subsystem_steps_fail_as_subsystem() {
    for subsystem in [Subsystem::Core, Subsystem::Video, Subsystem::Timer] {
        let step = SetupStep::InitSubsystem { subsystem };
        assert_eq!(step.failure(), Some(InitFailure::Subsystem));
    }
}

#[test]
fn window_step_fails_as_window_creation() {
    let step = SetupStep::CreateWindow { width: 800, height: 600 };
    assert_eq!(step.failure(), Some(InitFailure::WindowCreation));
}

#[test]
fn context_step_fails_as_context_creation() {
    assert_eq!(SetupStep::CreateContext.failure(), Some(InitFailure::ContextCreation));
}

#[test]
fn compile_steps_fail_as_shader_compile() {
    let linked = SetupStep::CompileShader { stage: ShaderStage::Vertex, linked: true };
    let aside = SetupStep::CompileShader { stage: ShaderStage::Geometry, linked: false };
    assert_eq!(linked.failure(), Some(InitFailure::ShaderCompile));
    assert_eq!(aside.failure(), Some(InitFailure::ShaderCompile));
}

#[test]
fn link_step_fails_as_shader_link() {
    assert_eq!(SetupStep::LinkProgram.failure(), Some(InitFailure::ShaderLink));
}

#[test]
fn steps_without_a_result_report_no_failure() {
    let steps = [
        SetupStep::RequestContext { profile: ContextProfile::Core, major: 4, minor: 5 },
        SetupStep::LoadFunctions,
        SetupStep::UseProgram,
        SetupStep::SetViewport { x: 0, y: 0, width: 800, height: 600 },
        SetupStep::CreateVertexArray,
        SetupStep::BindVertexArray,
    ];
    for step in steps {
        assert_eq!(step.failure(), None);
    }
}

#[test]
fn failures_of_the_whole_plan() {
    let kinds: Vec<Option<InitFailure>> = plan(800, 600).iter().map(|s| s.failure()).collect();
    let expected = vec![
        Some(InitFailure::Subsystem),
        Some(InitFailure::Subsystem),
        Some(InitFailure::Subsystem),
        None,
        Some(InitFailure::WindowCreation),
        Some(InitFailure::ContextCreation),
        None,
        Some(InitFailure::ShaderCompile),
        Some(InitFailure::ShaderCompile),
        Some(InitFailure::ShaderCompile),
        Some(InitFailure::ShaderCompile),
        Some(InitFailure::ShaderCompile),
        Some(InitFailure::ShaderLink),
        None,
        None,
        None,
        None,
    ];
    assert_eq!(kinds, expected);
}
