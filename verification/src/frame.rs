//! The commands of each frame. Every frame moves the agents, blurs the
//! substrate, draws the substrate, saves it to the staging buffer and draws
//! the agents; in the first frames it first loads the substrate from the
//! staging buffer. The two particle buffers take turns as source and
//! destination of the movement kernel.

use vstd::prelude::*;
use crate::bindings::{TRIANGLE_VERTICES, destination_buffer, source_buffer};
use crate::sizing::{
    BLUR_TILE, NUM_PARTICLES, PARTICLES_PER_GROUP, blur_work_group_count, ceil_div,
    lemma_ceil_div_covers, lemma_padded_row, padded_row_bytes, particle_work_group_count,
    row_pitch, staging_buffer_bytes, staging_bytes_per_row, substrate_fits, texel_bytes,
    COPY_ROW_ALIGNMENT,
};

verus! {

/// Frames, counted from the first, at whose start the staging buffer is
/// copied into the substrate texture.
pub const SEED_FRAMES: usize = 10;

/// Vertices of the substrate draw.
pub const SUBSTRATE_VERTICES: u32 = 3;

/// Instances of the substrate draw.
pub const SUBSTRATE_INSTANCES: u32 = 2;

/// How the whole substrate lies in the staging buffer: rows of
/// `bytes_per_row` bytes, `rows_per_image` of them, starting at offset 0, for a
/// copy of `width` by `height` texels.
#[derive(Clone, Copy, Debug, PartialEq, Eq)]
pub struct CopyLayout {
    pub bytes_per_row: u32,
    pub rows_per_image: u32,
    pub width: u32,
    pub height: u32,
}

/// The two compute kernels, which share one bind group.
#[derive(Clone, Copy, Debug, PartialEq, Eq)]
pub enum Kernel {
    /// Moves the agents from the source to the destination particle buffer.
    Movement,
    /// Diffuses the substrate.
    Blur,
}

/// The named groups in which a frame's commands are recorded.
#[derive(Clone, Copy, Debug, PartialEq, Eq)]
pub enum DebugGroup {
    ComputeMovement,
    RenderSubstrate,
    RenderAgents,
}

/// One command of a frame, in the order in which it is recorded.
#[derive(Clone, Copy, Debug, PartialEq, Eq)]
pub enum Command {
    /// Copy the staging buffer into the substrate texture.
    SeedSubstrate(CopyLayout),
    PushDebugGroup(DebugGroup),
    PopDebugGroup,
    /// A compute pass with one kernel, compute bind group `bind_group`, and
    /// `x` by `y` by `z` work groups.
    Dispatch { kernel: Kernel, bind_group: usize, x: u32, y: u32, z: u32 },
    /// A render pass that draws the substrate with its bind group.
    DrawSubstrate { vertices: u32, instances: u32 },
    /// Copy the substrate texture into the staging buffer.
    SaveSubstrate(CopyLayout),
    /// A render pass that draws one triangle per agent, the agents read from
    /// particle buffer `particle_buffer`.
    DrawAgents { particle_buffer: usize, vertices: u32, instances: u32 },
}

impl Kernel {
    /// The entry point of the kernel in the compute shader.
    pub fn entry_point(&self) -> (s: &'static str)
        ensures
            s@ == match *self {
                Kernel::Movement => "main"@,
                Kernel::Blur => "blur"@,
            },
    {
        match self {
            Kernel::Movement => "main",
            Kernel::Blur => "blur",
        }
    }
}

impl DebugGroup {
    /// The label the group is recorded under.
    pub fn label(&self) -> (s: &'static str)
        ensures
            s@ == match *self {
                DebugGroup::ComputeMovement => "compute movement"@,
                DebugGroup::RenderSubstrate => "render substrate"@,
                DebugGroup::RenderAgents => "render agents"@,
            },
    {
        match self {
            DebugGroup::ComputeMovement => "compute movement",
            DebugGroup::RenderSubstrate => "render substrate",
            DebugGroup::RenderAgents => "render agents",
        }
    }
}

/// What a frame's commands depend on: the number of frames rendered so far,
/// the work group counts and the size of the substrate.
#[derive(Clone, Copy, Debug, PartialEq, Eq)]
pub struct FrameView {
    pub frame: usize,
    pub work_groups: u32,
    pub blur_x: u32,
    pub blur_y: u32,
    pub width: u32,
    pub height: u32,
}

impl FrameView {
    /// The work group counts are those that cover the particles and the
    /// substrate, and the substrate can be laid out in the staging buffer.
    pub open spec fn valid(self) -> bool {
        &&& substrate_fits(self.width as int, self.height as int)
        &&& self.work_groups == ceil_div(NUM_PARTICLES as int, PARTICLES_PER_GROUP as int)
        &&& self.blur_x == ceil_div(self.width as int, BLUR_TILE as int)
        &&& self.blur_y == ceil_div(self.height as int, BLUR_TILE as int)
    }

    /// The same state one frame later.
    pub open spec fn next(self) -> FrameView {
        FrameView { frame: (self.frame + 1) as usize, ..self }
    }
}

/// The compute bind group used in frame `frame`.
pub open spec fn compute_bind_group(frame: usize) -> usize {
    frame % 2
}

/// The particle buffer drawn in frame `frame`.
pub open spec fn drawn_buffer(frame: usize) -> usize {
    ((frame + 1) % 2) as usize
}

/// The staging layout of the whole substrate.
pub open spec fn copy_layout(v: FrameView) -> CopyLayout {
    CopyLayout {
        bytes_per_row: padded_row_bytes(v.width as int) as u32,
        rows_per_image: v.height,
        width: v.width,
        height: v.height,
    }
}

/// Whether frame `frame` starts by loading the substrate from the staging
/// buffer.
pub open spec fn seeds(frame: usize) -> bool {
    frame < SEED_FRAMES
}

/// The commands of every frame after the optional seeding copy.
pub open spec fn frame_body(v: FrameView) -> Seq<Command> {
    seq![
        Command::PushDebugGroup(DebugGroup::ComputeMovement),
        Command::Dispatch {
            kernel: Kernel::Movement,
            bind_group: compute_bind_group(v.frame),
            x: v.work_groups,
            y: 1,
            z: 1,
        },
        Command::Dispatch {
            kernel: Kernel::Blur,
            bind_group: compute_bind_group(v.frame),
            x: v.blur_x,
            y: v.blur_y,
            z: 1,
        },
        Command::PopDebugGroup,
        Command::PushDebugGroup(DebugGroup::RenderSubstrate),
        Command::DrawSubstrate { vertices: SUBSTRATE_VERTICES, instances: SUBSTRATE_INSTANCES },
        Command::PopDebugGroup,
        Command::SaveSubstrate(copy_layout(v)),
        Command::PushDebugGroup(DebugGroup::RenderAgents),
        Command::DrawAgents {
            particle_buffer: drawn_buffer(v.frame),
            vertices: TRIANGLE_VERTICES,
            instances: NUM_PARTICLES,
        },
        Command::PopDebugGroup,
    ]
}

/// The commands of the frame described by `v`, in order.
pub open spec fn frame_plan(v: FrameView) -> Seq<Command> {
    if seeds(v.frame) {
        seq![Command::SeedSubstrate(copy_layout(v))] + frame_body(v)
    } else {
        frame_body(v)
    }
}

/// The simulation's per-frame state.
pub struct FrameState {
    frame_num: usize,
    work_group_count: u32,
    blur_work_group_count: (u32, u32),
    width: u32,
    height: u32,
}

impl View for FrameState {
    type V = FrameView;

    closed spec fn view(&self) -> FrameView {
        FrameView {
            frame: self.frame_num,
            work_groups: self.work_group_count,
            blur_x: self.blur_work_group_count.0,
            blur_y: self.blur_work_group_count.1,
            width: self.width,
            height: self.height,
        }
    }
}

impl FrameState {
    #[verifier::type_invariant]
    spec fn inv(self) -> bool {
        self@.valid()
    }

    /// The state before the first frame, for a `width` by `height` substrate.
    pub fn new(width: u32, height: u32) -> (r: FrameState)
        requires
            substrate_fits(width as int, height as int),
        ensures
            r@ == (FrameView {
                frame: 0,
                work_groups: ceil_div(NUM_PARTICLES as int, PARTICLES_PER_GROUP as int) as u32,
                blur_x: ceil_div(width as int, BLUR_TILE as int) as u32,
                blur_y: ceil_div(height as int, BLUR_TILE as int) as u32,
                width,
                height,
            }),
            r@.valid(),
    {
        FrameState {
            frame_num: 0,
            work_group_count: particle_work_group_count(),
            blur_work_group_count: blur_work_group_count(width, height),
            width,
            height,
        }
    }

    /// The state before the first frame, for a `width` by `height` substrate,
    /// or `None` where such a substrate cannot be laid out in a staging
    /// buffer (`new` demands that it can).
    pub fn try_new(width: u32, height: u32) -> (r: Option<FrameState>)
        ensures
            r is Some <==> substrate_fits(width as int, height as int),
            r is Some <==> padded_row_bytes(width as int) <= u32::MAX,
            r matches Some(s) ==> s@.frame == 0 && s@.width == width && s@.height == height,
            r matches Some(s) ==> s@ == (FrameView {
                frame: 0,
                work_groups: ceil_div(NUM_PARTICLES as int, PARTICLES_PER_GROUP as int) as u32,
                blur_x: ceil_div(width as int, BLUR_TILE as int) as u32,
                blur_y: ceil_div(height as int, BLUR_TILE as int) as u32,
                width,
                height,
            }),
    {
        let row = row_pitch(width);
        if row > u32::MAX as u64 {
            return None;
        }
        Some(FrameState::new(width, height))
    }

    /// Frames rendered so far.
    pub fn frame_num(&self) -> (r: usize)
        ensures
            r == self@.frame,
    {
        self.frame_num
    }

    /// Work groups of the movement kernel.
    pub fn work_group_count(&self) -> (r: u32)
        ensures
            r == self@.work_groups,
    {
        self.work_group_count
    }

    /// Work groups of the blur kernel, in x and in y.
    pub fn blur_work_group_count(&self) -> (r: (u32, u32))
        ensures
            r == (self@.blur_x, self@.blur_y),
    {
        self.blur_work_group_count
    }

    /// Width and height of the substrate, in texels.
    pub fn substrate_size(&self) -> (r: (u32, u32))
        ensures
            r == (self@.width, self@.height),
    {
        (self.width, self.height)
    }

    /// The staging layout of the whole substrate.
    pub fn staging_layout(&self) -> (r: CopyLayout)
        ensures
            r == copy_layout(self@),
            r.width == self@.width,
            r.height == self@.height,
            r.rows_per_image == self@.height,
            r.bytes_per_row == padded_row_bytes(self@.width as int),
    {
        proof {
            use_type_invariant(self);
        }
        CopyLayout {
            bytes_per_row: staging_bytes_per_row(self.width),
            rows_per_image: self.height,
            width: self.width,
            height: self.height,
        }
    }

    /// Bytes of the staging buffer, which holds the whole substrate.
    pub fn staging_buffer_bytes(&self) -> (r: u64)
        ensures
            r == padded_row_bytes(self@.width as int) * self@.height,
    {
        proof {
            use_type_invariant(self);
        }
        staging_buffer_bytes(self.width, self.height)
    }

    /// Renders one frame: returns its commands, in order, and counts it.
    pub fn render(&mut self) -> (plan: Vec<Command>)
        requires
            old(self)@.frame < usize::MAX,
        ensures
            plan@ == frame_plan(old(self)@),
            final(self)@ == old(self)@.next(),
            final(self)@.frame == old(self)@.frame + 1,
            final(self)@.work_groups == old(self)@.work_groups,
            final(self)@.blur_x == old(self)@.blur_x,
            final(self)@.blur_y == old(self)@.blur_y,
            final(self)@.width == old(self)@.width,
            final(self)@.height == old(self)@.height,
            old(self)@.valid(),
            final(self)@.valid(),
    {
        proof {
            use_type_invariant(&*self);
        }
        let layout = self.staging_layout();
        let group = self.frame_num % 2;
        let mut plan: Vec<Command> = Vec::new();
        if self.frame_num < SEED_FRAMES {
            plan.push(Command::SeedSubstrate(layout));
        }
        let ghost seeded = plan@;
        plan.push(Command::PushDebugGroup(DebugGroup::ComputeMovement));
        plan.push(
            Command::Dispatch {
                kernel: Kernel::Movement,
                bind_group: group,
                x: self.work_group_count,
                y: 1,
                z: 1,
            },
        );
        plan.push(
            Command::Dispatch {
                kernel: Kernel::Blur,
                bind_group: group,
                x: self.blur_work_group_count.0,
                y: self.blur_work_group_count.1,
                z: 1,
            },
        );
        plan.push(Command::PopDebugGroup);
        plan.push(Command::PushDebugGroup(DebugGroup::RenderSubstrate));
        plan.push(
            Command::DrawSubstrate { vertices: SUBSTRATE_VERTICES, instances: SUBSTRATE_INSTANCES },
        );
        plan.push(Command::PopDebugGroup);
        plan.push(Command::SaveSubstrate(layout));
        plan.push(Command::PushDebugGroup(DebugGroup::RenderAgents));
        plan.push(
            Command::DrawAgents {
                particle_buffer: (self.frame_num + 1) % 2,
                vertices: TRIANGLE_VERTICES,
                instances: NUM_PARTICLES,
            },
        );
        plan.push(Command::PopDebugGroup);
        assert(plan@ =~= seeded + frame_body(self@));
        self.frame_num = self.frame_num + 1;
        plan
    }
}

/// Commands before the frame body: one seeding copy in the first frames,
/// none after.
pub open spec fn seed_count(frame: usize) -> int {
    if seeds(frame) {
        1
    } else {
        0
    }
}

/// How a command changes the number of open debug groups.
pub open spec fn group_delta(c: Command) -> int {
    match c {
        Command::PushDebugGroup(_) => 1,
        Command::PopDebugGroup => -1,
        _ => 0,
    }
}

/// Whether, starting with `open` open debug groups, every pop in `p` closes a
/// group that is open, and no group is left open at the end.
pub open spec fn groups_balanced(p: Seq<Command>, open: int) -> bool
    decreases p.len(),
{
    if p.len() == 0 {
        open == 0
    } else {
        let next = open + group_delta(p[0]);
        next >= 0 && groups_balanced(p.drop_first(), next)
    }
}

/// The particle buffers take turns: the movement kernel of a frame writes
/// the buffer that the same frame draws, and the next frame's movement
/// kernel reads it; consecutive frames use different bind groups.
pub proof fn lemma_ping_pong(v: FrameView)
    requires
        v.frame < usize::MAX,
    ensures
        frame_plan(v)[seed_count(v.frame) + 1] == (Command::Dispatch {
            kernel: Kernel::Movement,
            bind_group: compute_bind_group(v.frame),
            x: v.work_groups,
            y: 1,
            z: 1,
        }),
        frame_plan(v)[seed_count(v.frame) + 9] == (Command::DrawAgents {
            particle_buffer: drawn_buffer(v.frame),
            vertices: TRIANGLE_VERTICES,
            instances: NUM_PARTICLES,
        }),
        drawn_buffer(v.frame) == destination_buffer(compute_bind_group(v.frame) as int),
        drawn_buffer(v.frame) == source_buffer(compute_bind_group(v.next().frame) as int),
        compute_bind_group(v.next().frame) != compute_bind_group(v.frame),
{
}

/// Only the first `SEED_FRAMES` frames load the substrate from the staging
/// buffer, each once and before anything else; every frame saves the
/// substrate back once, after drawing it.
pub proof fn lemma_seed_only_first_frames(v: FrameView)
    ensures
        frame_plan(v).len() == 11 + seed_count(v.frame),
        (frame_plan(v)[0] is SeedSubstrate) <==> v.frame < 10,
        seed_count(v.frame) == (if v.frame < 10 { 1int } else { 0int }),
        forall|k: int|
            1 <= k < frame_plan(v).len() ==> !(#[trigger] frame_plan(v)[k] is SeedSubstrate),
        frame_plan(v)[seed_count(v.frame) + 7] == Command::SaveSubstrate(copy_layout(v)),
        forall|k: int|
            0 <= k < frame_plan(v).len() && k != seed_count(v.frame) + 7 ==> !(
            #[trigger] frame_plan(v)[k] is SaveSubstrate),
{
    let p = frame_plan(v);
    let b = frame_body(v);
    assert forall|k: int| 1 <= k < p.len() implies !(#[trigger] p[k] is SeedSubstrate) by {
        if seeds(v.frame) {
            assert(p[k] == b[k - 1]);
        }
    }
    assert forall|k: int| 0 <= k < p.len() && k != seed_count(v.frame) + 7 implies !(
    #[trigger] p[k] is SaveSubstrate) by {
        if seeds(v.frame) && k >= 1 {
            assert(p[k] == b[k - 1]);
        }
    }
}

/// In a valid state the dispatches cover the work and no more than one group
/// too many: the movement kernel's groups hold every particle, the blur
/// kernel's tiles cover the whole substrate.
pub proof fn lemma_dispatches_cover(v: FrameView)
    requires
        v.valid(),
    ensures
        NUM_PARTICLES <= v.work_groups * PARTICLES_PER_GROUP < NUM_PARTICLES + PARTICLES_PER_GROUP,
        v.width <= v.blur_x * BLUR_TILE < v.width + BLUR_TILE,
        v.height <= v.blur_y * BLUR_TILE < v.height + BLUR_TILE,
        frame_plan(v)[seed_count(v.frame) + 2] == (Command::Dispatch {
            kernel: Kernel::Blur,
            bind_group: compute_bind_group(v.frame),
            x: v.blur_x,
            y: v.blur_y,
            z: 1,
        }),
{
    lemma_ceil_div_covers(NUM_PARTICLES as int, PARTICLES_PER_GROUP as int);
    lemma_ceil_div_covers(v.width as int, BLUR_TILE as int);
    lemma_ceil_div_covers(v.height as int, BLUR_TILE as int);
}

/// In a valid state both substrate copies use a layout whose row pitch is
/// a multiple of the copy alignment, holds one row of texels with less than
/// one alignment unit to spare, and whose rows span exactly the staging
/// buffer.
pub proof fn lemma_copies_fit_staging(v: FrameView)
    requires
        v.valid(),
    ensures
        copy_layout(v).bytes_per_row % COPY_ROW_ALIGNMENT == 0,
        v.width * texel_bytes() <= copy_layout(v).bytes_per_row < v.width * texel_bytes()
            + COPY_ROW_ALIGNMENT,
        copy_layout(v).rows_per_image == v.height,
        copy_layout(v).bytes_per_row * copy_layout(v).rows_per_image == padded_row_bytes(
            v.width as int,
        ) * v.height,
{
    lemma_padded_row(v.width as int);
}

/// Every frame closes each debug group it opens and never closes one that
/// is not open.
pub proof fn lemma_debug_groups_balanced(v: FrameView)
    ensures
        groups_balanced(frame_plan(v), 0),
{
    reveal_with_fuel(groups_balanced, 13);
    let b = frame_body(v);
    assert(b.drop_first() =~= b.subrange(1, 11));
    assert(groups_balanced(b, 0));
    if seeds(v.frame) {
        let p = frame_plan(v);
        assert(p.drop_first() =~= b);
    }
}

/// Every frame draws the substrate exactly once, with three vertices and two
/// instances, between the blur and the save; and draws the agents exactly
/// once, last, one triangle per agent from the buffer the frame wrote.
pub proof fn lemma_every_frame_draws_substrate_and_agents(v: FrameView)
    ensures
        frame_plan(v)[seed_count(v.frame) + 5] == (Command::DrawSubstrate {
            vertices: 3,
            instances: 2,
        }),
        forall|k: int|
            0 <= k < frame_plan(v).len() && k != seed_count(v.frame) + 5 ==> !(
            #[trigger] frame_plan(v)[k] is DrawSubstrate),
        frame_plan(v)[seed_count(v.frame) + 9] == (Command::DrawAgents {
            particle_buffer: ((v.frame + 1) % 2) as usize,
            vertices: 3,
            instances: 1_000_000,
        }),
        forall|k: int|
            0 <= k < frame_plan(v).len() && k != seed_count(v.frame) + 9 ==> !(
            #[trigger] frame_plan(v)[k] is DrawAgents),
        frame_plan(v).len() == seed_count(v.frame) + 11,
{
    let p = frame_plan(v);
    let b = frame_body(v);
    assert forall|k: int|
        0 <= k < p.len() && k != seed_count(v.frame) + 5 implies !(#[trigger] p[k] is DrawSubstrate) by {
        if seeds(v.frame) && k >= 1 {
            assert(p[k] == b[k - 1]);
        }
    }
    assert forall|k: int|
        0 <= k < p.len() && k != seed_count(v.frame) + 9 implies !(#[trigger] p[k] is DrawAgents) by {
        if seeds(v.frame) && k >= 1 {
            assert(p[k] == b[k - 1]);
        }
    }
}

/// Both substrate copies cover the whole substrate: their extent is the
/// substrate's width by height, one padded row per texel row; and in the
/// seeding frames the load uses the very layout of the save.
pub proof fn lemma_copies_cover_substrate(v: FrameView)
    ensures
        copy_layout(v).width == v.width,
        copy_layout(v).height == v.height,
        copy_layout(v).rows_per_image == v.height,
        copy_layout(v).bytes_per_row == padded_row_bytes(v.width as int) as u32,
        frame_plan(v)[seed_count(v.frame) + 7] == Command::SaveSubstrate(
            CopyLayout {
                bytes_per_row: padded_row_bytes(v.width as int) as u32,
                rows_per_image: v.height,
                width: v.width,
                height: v.height,
            },
        ),
        v.frame < 10 ==> frame_plan(v)[0] == Command::SeedSubstrate(
            CopyLayout {
                bytes_per_row: padded_row_bytes(v.width as int) as u32,
                rows_per_image: v.height,
                width: v.width,
                height: v.height,
            },
        ),
        v.frame < 10 ==> frame_plan(v)[0]->SeedSubstrate_0 == frame_plan(v)[8]->SaveSubstrate_0,
{
}

/// One frame later, the frame count is one more and nothing else has
/// changed; so after `n` renders from a new state the count is `n`, and
/// seeding stops for good once the count reaches 10.
pub proof fn lemma_next_counts_one_frame(v: FrameView)
    requires
        v.frame < usize::MAX,
    ensures
        v.next().frame == v.frame + 1,
        v.next().work_groups == v.work_groups,
        v.next().blur_x == v.blur_x,
        v.next().blur_y == v.blur_y,
        v.next().width == v.width,
        v.next().height == v.height,
        v.valid() ==> v.next().valid(),
        v.frame >= 10 ==> !(frame_plan(v.next())[0] is SeedSubstrate),
{
}

/// Whether a substrate can be laid out depends on its width alone: exactly
/// when a padded row fits a `u32` byte count, whatever the height.
pub proof fn lemma_substrate_fits_by_width(width: int, height: int, other_height: int)
    ensures
        substrate_fits(width, height) <==> padded_row_bytes(width) <= u32::MAX,
        substrate_fits(width, height) == substrate_fits(width, other_height),
{
}

} // verus!
