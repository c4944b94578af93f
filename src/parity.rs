use vstd::prelude::*;

verus! {

/// Index of the particle buffer that the simulation step of `tick` writes.
pub open spec fn write_slot(tick: int) -> int {
    tick % 2
}

/// Index of the particle buffer that the render pass of `tick` reads: the
/// buffer that the previous step completed.
pub open spec fn render_slot(tick: int) -> int {
    (tick + 1) % 2
}

/// The buffer written by the simulation step of `tick`.
pub fn write_index(tick: usize) -> (r: usize)
    ensures
        r == write_slot(tick as int),
        r < 2,
{
    tick % 2
}

/// The buffer read by the render pass of `tick`.
pub fn read_index_for_render(tick: usize) -> (r: usize)
    ensures
        r == render_slot(tick as int),
        r < 2,
{
    if tick % 2 == 0 {
        1
    } else {
        0
    }
}

/// The two buffers one simulation step touches.
#[derive(Clone, Copy, Debug, PartialEq, Eq, Structural)]
pub struct StepBuffers {
    /// Input: the buffer written by the previous step.
    pub read: usize,
    /// Output.
    pub write: usize,
}

/// The buffers of the simulation step of `tick`: it reads what the step of
/// `tick - 1` wrote and writes the other buffer.
pub fn step_buffers(tick: usize) -> (r: StepBuffers)
    ensures
        r.write == write_slot(tick as int),
        r.read == write_slot(tick - 1),
        r.read != r.write,
        r.read < 2 && r.write < 2,
{
    StepBuffers { read: read_index_for_render(tick), write: write_index(tick) }
}

/// Number of workgroups that cover `particle_count` particles in groups of
/// `group_size`: the quotient rounded up. None when the group size is zero or
/// the count does not fit in 32 bits.
pub fn work_group_count(particle_count: usize, group_size: u32) -> (r: Option<u32>)
    ensures
        group_size == 0 ==> r is None,
        group_size > 0 ==> {
            let groups = (particle_count + group_size - 1) / (group_size as int);
            &&& r is Some <==> groups <= u32::MAX
            &&& r matches Some(n) ==> n == groups
        },
{
    if group_size == 0 {
        return None;
    }
    let g = group_size as u128;
    let groups = (particle_count as u128 + g - 1) / g;
    if groups > u32::MAX as u128 {
        None
    } else {
        Some(groups as u32)
    }
}

/// The two particle buffers and the simulation tick counter. For each step it
/// names a read buffer and a write buffer, never the same one; the render pass
/// reads the buffer that the previous step completed.
pub struct BufferGenerations<H> {
    buffers: (H, H),
    tick: usize,
}

impl<H> BufferGenerations<H> {
    pub closed spec fn spec_tick(&self) -> usize {
        self.tick
    }

    pub closed spec fn spec_buffer(&self, slot: int) -> H {
        if slot == 0 {
            self.buffers.0
        } else {
            self.buffers.1
        }
    }

    /// Starts at tick zero with buffer 0 and buffer 1.
    pub fn new(first: H, second: H) -> (r: Self)
        ensures
            r.spec_tick() == 0,
            r.spec_buffer(0) == first,
            r.spec_buffer(1) == second,
    {
        BufferGenerations { buffers: (first, second), tick: 0 }
    }

    pub fn tick(&self) -> (r: usize)
        ensures
            r == self.spec_tick(),
    {
        self.tick
    }

    pub fn buffer(&self, slot: usize) -> (r: &H)
        requires
            slot < 2,
        ensures
            *r == self.spec_buffer(slot as int),
    {
        if slot == 0 {
            &self.buffers.0
        } else {
            &self.buffers.1
        }
    }

    /// Records `steps` more simulation steps.
    pub fn advance(&mut self, steps: usize)
        requires
            old(self).spec_tick() + steps <= usize::MAX,
        ensures
            final(self).spec_tick() == old(self).spec_tick() + steps,
            final(self).spec_buffer(0) == old(self).spec_buffer(0),
            final(self).spec_buffer(1) == old(self).spec_buffer(1),
    {
        self.tick = self.tick + steps;
    }

    /// The buffer that the render pass of the current tick reads.
    pub fn render_buffer(&self) -> (r: &H)
        ensures
            *r == self.spec_buffer(render_slot(self.spec_tick() as int)),
    {
        self.buffer(read_index_for_render(self.tick))
    }
}

/// At every tick the render pass and the simulation step use different buffers.
pub proof fn lemma_render_and_write_disjoint(tick: int)
    requires
        tick >= 0,
    ensures
        write_slot(tick) != render_slot(tick),
        0 <= write_slot(tick) < 2,
        0 <= render_slot(tick) < 2,
{
}

/// The render pass of a tick reads the buffer that the step before it wrote,
/// not the one that the step of the same tick writes.
pub proof fn lemma_render_lags_one_step(tick: int)
    requires
        tick >= 1,
    ensures
        render_slot(tick) == write_slot(tick - 1),
        render_slot(tick) != write_slot(tick),
{
}

} // verus!
