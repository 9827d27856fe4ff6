//! What one frame draws.
//!
//! A frame is described by the graphics commands that produce it. The colour
//! vectors of a frame follow the elapsed time through a sine and a cosine
//! wave; a vector names the wave of each of its components, and the caller
//! samples the waves when it carries a command out.

use vstd::prelude::*;

verus! {

/// Where one component of a vector takes its value from.
///
/// With `t` the elapsed time in seconds, `Sine` stands for
/// `sin(t) * 0.5 + 0.5` and `Cosine` for `cos(t) * 0.5 + 0.5`; both stay
/// between zero and one. `Zero` and `One` are the constants.
#[derive(Clone, Copy, Debug, PartialEq, Eq, Structural)]
pub enum Channel {
    Zero,
    One,
    Sine,
    Cosine,
}

impl Channel {
    /// This channel with the two waves exchanged; the constants stay.
    pub open spec fn swapped(self) -> Channel {
        match self {
            Channel::Sine => Channel::Cosine,
            Channel::Cosine => Channel::Sine,
            Channel::Zero => Channel::Zero,
            Channel::One => Channel::One,
        }
    }

    /// Whether the channel follows the elapsed time.
    pub open spec fn oscillates(self) -> bool {
        self == Channel::Sine || self == Channel::Cosine
    }
}

/// A vector of four components, used for colours and vertex attributes.
#[derive(Clone, Copy, Debug, PartialEq, Eq, Structural)]
pub struct Vector4 {
    pub x: Channel,
    pub y: Channel,
    pub z: Channel,
    pub w: Channel,
}

impl Vector4 {
    /// This vector with the sine and cosine waves exchanged in every
    /// component.
    pub open spec fn swapped(self) -> Vector4 {
        Vector4 {
            x: self.x.swapped(),
            y: self.y.swapped(),
            z: self.z.swapped(),
            w: self.w.swapped(),
        }
    }
}

/// Opaque black.
pub open spec fn black_vector() -> Vector4 {
    Vector4 { x: Channel::Zero, y: Channel::Zero, z: Channel::Zero, w: Channel::One }
}

/// The first oscillating vector: sine, cosine, zero, one.
pub open spec fn red_vector() -> Vector4 {
    Vector4 { x: Channel::Sine, y: Channel::Cosine, z: Channel::Zero, w: Channel::One }
}

/// The second oscillating vector: cosine, sine, zero, one.
pub open spec fn red2_vector() -> Vector4 {
    Vector4 { x: Channel::Cosine, y: Channel::Sine, z: Channel::Zero, w: Channel::One }
}

/// Opaque black, the colour every frame is cleared to.
pub fn black() -> (v: Vector4)
    ensures
        v == black_vector(),
{
    Vector4 { x: Channel::Zero, y: Channel::Zero, z: Channel::Zero, w: Channel::One }
}

/// The vector that vertex attribute 0 is set to.
pub fn red() -> (v: Vector4)
    ensures
        v == red_vector(),
{
    Vector4 { x: Channel::Sine, y: Channel::Cosine, z: Channel::Zero, w: Channel::One }
}

/// The vector that vertex attribute 1 is set to: `red` a quarter period
/// apart, with the two waves in each other's place.
pub fn red2() -> (v: Vector4)
    ensures
        v == red2_vector(),
        v == red_vector().swapped(),
{
    Vector4 { x: Channel::Cosine, y: Channel::Sine, z: Channel::Zero, w: Channel::One }
}

/// One graphics command of a frame.
#[derive(Clone, Copy, Debug, PartialEq, Eq, Structural)]
pub enum Command {
    /// Clear colour buffer number `draw_buffer` to `color`.
    ClearColor { draw_buffer: i32, color: Vector4 },
    /// Make `program` the active shader program.
    UseProgram { program: u32 },
    /// Set the vertex attribute register `index` to `value`.
    SetAttribute { index: u32, value: Vector4 },
    /// Draw `count` vertices as triangles, starting at vertex `first`,
    /// `instances` times over.
    DrawTriangles { first: i32, count: i32, instances: i32 },
    /// Show the finished back buffer in the window.
    SwapBuffers,
}

/// The commands that draw a frame with the shader program `program`: clear
/// to opaque black, activate the program, load the two attribute registers,
/// and draw one triangle once.
pub open spec fn draw_commands(program: u32) -> Seq<Command> {
    seq![
        Command::ClearColor { draw_buffer: 0, color: black_vector() },
        Command::UseProgram { program },
        Command::SetAttribute { index: 0, value: red_vector() },
        Command::SetAttribute { index: 1, value: red2_vector() },
        Command::DrawTriangles { first: 0, count: 3, instances: 1 },
    ]
}

/// Lists the commands that draw a frame with the shader program `program`.
/// They are the same for every frame: the elapsed time enters only where the
/// caller samples the waves that the vectors name.
pub fn render(program: u32) -> (commands: Vec<Command>)
    ensures
        commands@ == draw_commands(program),
{
    let mut commands: Vec<Command> = Vec::new();
    commands.push(Command::ClearColor { draw_buffer: 0, color: black() });
    commands.push(Command::UseProgram { program });
    commands.push(Command::SetAttribute { index: 0, value: red() });
    commands.push(Command::SetAttribute { index: 1, value: red2() });
    commands.push(Command::DrawTriangles { first: 0, count: 3, instances: 1 });
    assert(commands@ =~= draw_commands(program));
    commands
}

/// Exchanging the waves twice gives the vector back.
pub proof fn swap_is_an_involution(v: Vector4)
    ensures
        v.swapped().swapped() == v,
{
}

/// The two oscillating vectors are each other's swap, so each component of
/// one follows the wave that the other does not.
pub proof fn oscillating_vectors_are_phase_shifted()
    ensures
        red2_vector() == red_vector().swapped(),
        red_vector() == red2_vector().swapped(),
        red_vector().x.oscillates() && red_vector().x != red2_vector().x,
        red_vector().y.oscillates() && red_vector().y != red2_vector().y,
        red_vector().z == red2_vector().z,
        red_vector().w == red2_vector().w,
{
}

} // verus!
