//! The steps that bring the demo up, in the order in which they are taken.
//!
//! The caller carries the steps out one after the other. A step that fails
//! ends the start-up for good: there is no retry and no reduced mode.

use vstd::prelude::*;

verus! {

/// A part of the window system that is brought up on its own.
#[derive(Clone, Copy, Debug, PartialEq, Eq, Structural)]
pub enum Subsystem {
    /// The window system itself.
    Core,
    /// Windows and graphics contexts.
    Video,
    /// The clock that frames read the elapsed time from.
    Timer,
}

/// The feature set asked of the graphics context.
#[derive(Clone, Copy, Debug, PartialEq, Eq, Structural)]
pub enum ContextProfile {
    /// Without the deprecated fixed-function features.
    Core,
    /// With them.
    Compatibility,
    /// The profile for embedded systems.
    Embedded,
}

/// A stage of the graphics pipeline that a shader is written for.
#[derive(Clone, Copy, Debug, PartialEq, Eq, Structural)]
pub enum ShaderStage {
    Vertex,
    Fragment,
    TessControl,
    TessEvaluation,
    Geometry,
}

impl ShaderStage {
    /// Whether a shader of this stage goes into the program. Only the vertex
    /// and the fragment shader do; the tessellation and geometry shaders are
    /// compiled and then left aside.
    pub open spec fn goes_into_program(self) -> bool {
        self == ShaderStage::Vertex || self == ShaderStage::Fragment
    }

    /// Tells whether a shader of this stage goes into the program.
    pub fn is_linked(&self) -> (linked: bool)
        ensures
            linked == self.goes_into_program(),
    {
        match self {
            ShaderStage::Vertex => true,
            ShaderStage::Fragment => true,
            ShaderStage::TessControl => false,
            ShaderStage::TessEvaluation => false,
            ShaderStage::Geometry => false,
        }
    }
}

/// One step of the start-up.
#[allow(inconsistent_fields)]
#[derive(Clone, Copy, Debug, PartialEq, Eq, Structural)]
pub enum SetupStep {
    /// Bring up a part of the window system.
    InitSubsystem { subsystem: Subsystem },
    /// Ask that the graphics context to come has this profile and version.
    RequestContext { profile: ContextProfile, major: u8, minor: u8 },
    /// Open the window, `width` by `height` pixels.
    CreateWindow { width: u32, height: u32 },
    /// Create the graphics context of the window.
    CreateContext,
    /// Resolve the entry points of the graphics interface against the
    /// context.
    LoadFunctions,
    /// Compile the shader of `stage`. `linked` says whether the compiled
    /// shader is handed to the link step.
    CompileShader { stage: ShaderStage, linked: bool },
    /// Link the program from the compiled shaders that are marked `linked`,
    /// in the order in which they were compiled.
    LinkProgram,
    /// Make the linked program the active one.
    UseProgram,
    /// Set the viewport to the rectangle at (`x`, `y`) of the given size.
    SetViewport { x: i32, y: i32, width: i32, height: i32 },
    /// Allocate the vertex-array object.
    CreateVertexArray,
    /// Bind the vertex-array object that was allocated.
    BindVertexArray,
}

/// Why the start-up ended early.
#[derive(Clone, Copy, Debug, PartialEq, Eq, Structural)]
pub enum InitFailure {
    /// A part of the window system did not come up.
    Subsystem,
    /// The window could not be opened.
    WindowCreation,
    /// The graphics context could not be created.
    ContextCreation,
    /// A shader did not compile.
    ShaderCompile,
    /// The program did not link.
    ShaderLink,
}

impl SetupStep {
    /// The failure that this step ends the start-up with where it does not
    /// succeed, or `None` for a step that has no way to report one.
    pub open spec fn failure_kind(self) -> Option<InitFailure> {
        match self {
            SetupStep::InitSubsystem { .. } => Some(InitFailure::Subsystem),
            SetupStep::CreateWindow { .. } => Some(InitFailure::WindowCreation),
            SetupStep::CreateContext => Some(InitFailure::ContextCreation),
            SetupStep::CompileShader { .. } => Some(InitFailure::ShaderCompile),
            SetupStep::LinkProgram => Some(InitFailure::ShaderLink),
            SetupStep::RequestContext { .. } => None,
            SetupStep::LoadFunctions => None,
            SetupStep::UseProgram => None,
            SetupStep::SetViewport { .. } => None,
            SetupStep::CreateVertexArray => None,
            SetupStep::BindVertexArray => None,
        }
    }

    /// Names the failure that this step ends the start-up with where it does
    /// not succeed; `None` for a step that has no way to report one.
    pub fn failure(&self) -> (kind: Option<InitFailure>)
        ensures
            kind == self.failure_kind(),
    {
        match self {
            SetupStep::InitSubsystem { .. } => Some(InitFailure::Subsystem),
            SetupStep::CreateWindow { .. } => Some(InitFailure::WindowCreation),
            SetupStep::CreateContext => Some(InitFailure::ContextCreation),
            SetupStep::CompileShader { .. } => Some(InitFailure::ShaderCompile),
            SetupStep::LinkProgram => Some(InitFailure::ShaderLink),
            _ => None,
        }
    }
}

/// The compile step of `stage`, marked for the link step exactly where the
/// stage goes into the program.
pub open spec fn compile_step(stage: ShaderStage) -> SetupStep {
    SetupStep::CompileShader { stage, linked: stage.goes_into_program() }
}

/// The start-up for a window of `width` by `height` pixels: the window
/// system, a core-profile context of version 4.5 in a new window, the
/// graphics entry points, all five shaders compiled and the program linked
/// and activated, the viewport over the whole window, and one vertex-array
/// object allocated and bound.
pub open spec fn plan_steps(width: u32, height: u32) -> Seq<SetupStep> {
    seq![
        SetupStep::InitSubsystem { subsystem: Subsystem::Core },
        SetupStep::InitSubsystem { subsystem: Subsystem::Video },
        SetupStep::InitSubsystem { subsystem: Subsystem::Timer },
        SetupStep::RequestContext { profile: ContextProfile::Core, major: 4, minor: 5 },
        SetupStep::CreateWindow { width, height },
        SetupStep::CreateContext,
        SetupStep::LoadFunctions,
        compile_step(ShaderStage::Vertex),
        compile_step(ShaderStage::Fragment),
        compile_step(ShaderStage::TessControl),
        compile_step(ShaderStage::TessEvaluation),
        compile_step(ShaderStage::Geometry),
        SetupStep::LinkProgram,
        SetupStep::UseProgram,
        SetupStep::SetViewport { x: 0, y: 0, width: width as i32, height: height as i32 },
        SetupStep::CreateVertexArray,
        SetupStep::BindVertexArray,
    ]
}

/// The stages of the shaders that the link step of `steps` receives: those
/// of the compile steps marked `linked`, in order.
pub open spec fn linked_stages(steps: Seq<SetupStep>) -> Seq<ShaderStage>
    decreases steps.len(),
{
    if steps.len() == 0 {
        Seq::empty()
    } else {
        let rest = linked_stages(steps.drop_last());
        match steps.last() {
            SetupStep::CompileShader { stage, linked } => if linked {
                rest.push(stage)
            } else {
                rest
            },
            _ => rest,
        }
    }
}

fn compile(stage: ShaderStage) -> (step: SetupStep)
    ensures
        step == compile_step(stage),
{
    SetupStep::CompileShader { stage, linked: stage.is_linked() }
}

/// Lists the steps of the start-up for a window of `width` by `height`
/// pixels, in the order in which they are to be taken.
///
/// The viewport takes the two sizes as signed numbers: a size above
/// `i32::MAX` wraps, as the cast does.
pub fn plan(width: u32, height: u32) -> (steps: Vec<SetupStep>)
    ensures
        steps@ == plan_steps(width, height),
{
    let mut steps: Vec<SetupStep> = Vec::new();
    steps.push(SetupStep::InitSubsystem { subsystem: Subsystem::Core });
    steps.push(SetupStep::InitSubsystem { subsystem: Subsystem::Video });
    steps.push(SetupStep::InitSubsystem { subsystem: Subsystem::Timer });
    steps.push(SetupStep::RequestContext { profile: ContextProfile::Core, major: 4, minor: 5 });
    steps.push(SetupStep::CreateWindow { width, height });
    steps.push(SetupStep::CreateContext);
    steps.push(SetupStep::LoadFunctions);
    steps.push(compile(ShaderStage::Vertex));
    steps.push(compile(ShaderStage::Fragment));
    steps.push(compile(ShaderStage::TessControl));
    steps.push(compile(ShaderStage::TessEvaluation));
    steps.push(compile(ShaderStage::Geometry));
    steps.push(SetupStep::LinkProgram);
    steps.push(SetupStep::UseProgram);
    steps.push(
        SetupStep::SetViewport {
            x: 0,
            y: 0,
            width: #[verifier::truncate] (width as i32),
            height: #[verifier::truncate] (height as i32),
        },
    );
    steps.push(SetupStep::CreateVertexArray);
    steps.push(SetupStep::BindVertexArray);
    assert(steps@ =~= plan_steps(width, height));
    steps
}

/// A step appended to `steps` adds its stage to what the link step receives
/// where it is a compile step marked `linked`, and nothing otherwise.
proof fn linked_stages_of_push(steps: Seq<SetupStep>, step: SetupStep)
    ensures
        linked_stages(steps.push(step)) == match step {
            SetupStep::CompileShader { stage, linked } => if linked {
                linked_stages(steps).push(stage)
            } else {
                linked_stages(steps)
            },
            _ => linked_stages(steps),
        },
{
    assert(steps.push(step).drop_last() =~= steps);
}

/// What the link step receives from the first `k` steps of the start-up.
proof fn linked_stages_of_plan_prefix(width: u32, height: u32, k: int)
    requires
        0 <= k <= 17,
    ensures
        k <= 7 ==> linked_stages(plan_steps(width, height).take(k)) == Seq::<
            ShaderStage,
        >::empty(),
        k == 8 ==> linked_stages(plan_steps(width, height).take(k)) == seq![ShaderStage::Vertex],
        k >= 9 ==> linked_stages(plan_steps(width, height).take(k)) == seq![
            ShaderStage::Vertex,
            ShaderStage::Fragment,
        ],
    decreases k,
{
    let plan = plan_steps(width, height);
    if k > 0 {
        linked_stages_of_plan_prefix(width, height, k - 1);
        linked_stages_of_push(plan.take(k - 1), plan[k - 1]);
        assert(plan.take(k) =~= plan.take(k - 1).push(plan[k - 1]));
        assert(Seq::<ShaderStage>::empty().push(ShaderStage::Vertex) =~= seq![
            ShaderStage::Vertex,
        ]);
        assert(seq![ShaderStage::Vertex].push(ShaderStage::Fragment) =~= seq![
            ShaderStage::Vertex,
            ShaderStage::Fragment,
        ]);
    }
}

/// The link step of the start-up receives the vertex shader and the fragment
/// shader, in this order, and no other, whatever the size of the window.
pub proof fn plan_links_vertex_and_fragment_only(width: u32, height: u32)
    ensures
        linked_stages(plan_steps(width, height)) == seq![
            ShaderStage::Vertex,
            ShaderStage::Fragment,
        ],
{
    let plan = plan_steps(width, height);
    linked_stages_of_plan_prefix(width, height, 17);
    assert(plan.take(17) =~= plan);
}

/// What the link step receives does not depend on the shaders that are
/// compiled and left aside: with the compile step of such a shader taken out
/// of `steps`, the link step receives the same shaders in the same order.
pub proof fn link_ignores_shaders_left_aside(steps: Seq<SetupStep>, i: int)
    requires
        0 <= i < steps.len(),
        steps[i] matches SetupStep::CompileShader { linked, .. } && !linked,
    ensures
        linked_stages(steps.remove(i)) == linked_stages(steps),
    decreases steps.len(),
{
    if i == steps.len() - 1 {
        assert(steps.remove(i) =~= steps.drop_last());
    } else {
        let shorter = steps.drop_last();
        link_ignores_shaders_left_aside(shorter, i);
        assert(steps.remove(i).drop_last() =~= shorter.remove(i));
        assert(steps.remove(i).last() == steps.last());
    }
}

} // verus!
