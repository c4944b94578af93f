use gpu_particles::pacer::FixedTimestep;
use gpu_particles::parity::{
    read_index_for_render, step_buffers, work_group_count, write_index, BufferGenerations,
    StepBuffers,
};

#[test]
fn render_and_write_never_share_a_buffer() {
    for tick in 0..1000usize {
        assert_ne!(write_index(tick), read_index_for_render(tick));
    }
    assert_ne!(write_index(usize::MAX), read_index_for_render(usize::MAX));
}

#[test]
fn first_step_writes_b_and_render_reads_a() {
    assert_eq!(write_index(0), 0);
    assert_eq!(read_index_for_render(0), 1);
    assert_eq!(write_index(1), 1);
    assert_eq!(read_index_for_render(1), 0);
    assert_eq!(step_buffers(1), StepBuffers { read: 0, write: 1 });
    assert_eq!(step_buffers(2), StepBuffers { read: 1, write: 0 });
    assert_eq!(step_buffers(0), StepBuffers { read: 1, write: 0 });
}

#[test]
fn step_reads_what_previous_step_wrote() {
    for tick in 1..100usize {
        assert_eq!(step_buffers(tick).read, write_index(tick - 1));
        assert_eq!(read_index_for_render(tick), write_index(tick - 1));
    }
}

#[test]
fn work_groups_round_up() {
    assert_eq!(work_group_count(1_000_000, 64), Some(15_625));
    assert_eq!(work_group_count(1_000_001, 64), Some(15_626));
    assert_eq!(work_group_count(63, 64), Some(1));
    assert_eq!(work_group_count(0, 64), Some(0));
    assert_eq!(work_group_count(10, 0), None);
    assert_eq!(work_group_count(usize::MAX, 1), None);
}

#[test]
fn generations_hand_out_buffers_by_parity() {
    let mut g = BufferGenerations::new("a", "b");
    assert_eq!(g.tick(), 0);
    assert_eq!(*g.render_buffer(), "b");
    g.advance(1);
    assert_eq!(g.tick(), 1);
    assert_eq!(*g.buffer(step_buffers(g.tick()).write), "b");
    assert_eq!(*g.render_buffer(), "a");
    g.advance(3);
    assert_eq!(g.tick(), 4);
    assert_eq!(*g.render_buffer(), "b");
}

#[test]
fn zero_step_is_refused() {
    assert!(FixedTimestep::new(0).is_none());
}

#[test]
fn chunked_time_emits_exact_steps() {
    let mut p = FixedTimestep::new(10).unwrap();
    let chunks = [3u64, 4, 3, 10, 5, 5, 1, 9];
    let mut total = 0u64;
    for dt in chunks {
        total += p.due_steps(dt);
    }
    assert_eq!(total, 4);
    assert_eq!(p.accumulator_ns, 0);
}

#[test]
fn one_chunk_and_many_chunks_agree() {
    let mut whole = FixedTimestep::new(16_666_667).unwrap();
    let k = 37u64;
    assert_eq!(whole.due_steps(k * 16_666_667), k);
    let mut split = FixedTimestep::new(16_666_667).unwrap();
    let mut total = 0u64;
    let mut left = k * 16_666_667;
    let mut chunk = 1_234_567u64;
    while left > 0 {
        let dt = if chunk < left { chunk } else { left };
        total += split.due_steps(dt);
        left -= dt;
        chunk = chunk * 7 % 40_000_000 + 1;
    }
    assert_eq!(total, k);
    assert_eq!(split.accumulator_ns, 0);
}

#[test]
fn remainder_carries_over() {
    let mut p = FixedTimestep::new(10).unwrap();
    assert_eq!(p.due_steps(25), 2);
    assert_eq!(p.accumulator_ns, 5);
    assert_eq!(p.due_steps(4), 0);
    assert_eq!(p.accumulator_ns, 9);
    assert_eq!(p.due_steps(1), 1);
    assert_eq!(p.accumulator_ns, 0);
}

#[test]
fn largest_chunk_does_not_overflow() {
    let mut p = FixedTimestep::new(1).unwrap();
    assert_eq!(p.due_steps(u64::MAX), u64::MAX);
    let mut q = FixedTimestep::new(u64::MAX).unwrap();
    assert_eq!(q.due_steps(u64::MAX - 1), 0);
    assert_eq!(q.due_steps(u64::MAX), 1);
    assert_eq!(q.accumulator_ns, u64::MAX - 1);
}
