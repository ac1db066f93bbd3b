use raytracer::wavefront::{Payload, Ray, RayBuffer, RayQueue, Shaded, TerminalWrite};

fn payload(tag: i32) -> Payload<i32> {
    Payload { origin: tag, direction: tag + 1, throughput: tag + 2 }
}

fn primary(pixel: u32) -> Payload<i32> {
    payload(pixel as i32 * 100)
}

fn same_ray(a: &Ray<i32>, b: &Ray<i32>) -> bool {
    a.payload.origin == b.payload.origin
        && a.payload.direction == b.payload.direction
        && a.payload.throughput == b.payload.throughput
        && a.pixel_index == b.pixel_index
        && a.depth == b.depth
}

fn pixels(writes: &[TerminalWrite<i32>]) -> Vec<u32> {
    let mut pixels: Vec<u32> = writes.iter().map(|w| w.pixel_index).collect();
    pixels.sort();
    pixels
}

#[test]
fn buffer_push_returns_the_slot() {
    let mut buffer = RayBuffer::new(3, 0i32);
    assert_eq!(buffer.capacity(), 3);
    assert_eq!(buffer.count(), 0);
    let a = Ray { payload: payload(1), pixel_index: 7, depth: 0 };
    let b = Ray { payload: payload(2), pixel_index: 8, depth: 1 };
    let c = Ray { payload: payload(3), pixel_index: 9, depth: 2 };
    assert_eq!(buffer.push(a), Some(0));
    assert_eq!(buffer.push(b), Some(1));
    assert_eq!(buffer.push(c), Some(2));
    assert_eq!(buffer.count(), 3);
    assert!(same_ray(&buffer.get(0), &a));
    assert!(same_ray(&buffer.get(1), &b));
    assert!(same_ray(&buffer.get(2), &c));
}

#[test]
fn full_buffer_refuses_a_ray() {
    let mut buffer = RayBuffer::new(1, 0i32);
    let a = Ray { payload: payload(1), pixel_index: 7, depth: 0 };
    let b = Ray { payload: payload(2), pixel_index: 8, depth: 1 };
    assert_eq!(buffer.push(a), Some(0));
    assert_eq!(buffer.push(b), None);
    assert_eq!(buffer.count(), 1);
    assert!(same_ray(&buffer.get(0), &a));
    let mut empty = RayBuffer::new(0, 0i32);
    assert_eq!(empty.push(a), None);
}

#[test]
fn cleared_buffer_starts_at_slot_zero() {
    let mut buffer = RayBuffer::new(2, 0i32);
    buffer.push(Ray { payload: payload(1), pixel_index: 7, depth: 0 });
    buffer.clear();
    assert_eq!(buffer.count(), 0);
    assert_eq!(buffer.capacity(), 2);
    assert_eq!(buffer.push(Ray { payload: payload(2), pixel_index: 8, depth: 0 }), Some(0));
}

#[test]
fn generate_puts_one_ray_per_pixel_in_order() {
    let mut queue = RayQueue::new(12, 0i32);
    assert!(queue.generate(4, 3, primary));
    assert_eq!(queue.current_count(), 12);
    for pixel in 0..12u32 {
        let expected = Ray { payload: primary(pixel), pixel_index: pixel, depth: 0 };
        assert!(same_ray(&queue.ray(pixel), &expected));
    }
}

#[test]
fn generate_that_does_not_fit_changes_nothing() {
    let mut queue = RayQueue::new(12, 0i32);
    assert!(queue.generate(2, 2, primary));
    assert!(!queue.generate(13, 1, primary));
    assert!(!queue.generate(65536, 65536, primary));
    assert_eq!(queue.current_count(), 4);
    assert_eq!(queue.capacity(), 12);
}

#[test]
fn generate_of_an_empty_frame_empties_the_queue() {
    let mut queue = RayQueue::new(4, 0i32);
    assert!(queue.generate(2, 2, primary));
    assert!(queue.generate(0, 5, primary));
    assert_eq!(queue.current_count(), 0);
}

#[test]
fn stage_compacts_survivors_and_writes_the_rest() {
    let mut queue = RayQueue::new(5, 0i32);
    assert!(queue.generate(5, 1, primary));
    let outcomes = vec![
        Shaded::Scattered { payload: payload(10) },
        Shaded::Terminated { contribution: 11 },
        Shaded::Terminated { contribution: 12 },
        Shaded::Scattered { payload: payload(13) },
        Shaded::Scattered { payload: payload(14) },
    ];
    let writes = queue.stage(&outcomes);
    assert_eq!(writes.len(), 2);
    assert_eq!((writes[0].pixel_index, writes[0].contribution), (1, 11));
    assert_eq!((writes[1].pixel_index, writes[1].contribution), (2, 12));
    assert_eq!(queue.current_count(), 3);
    assert!(same_ray(&queue.ray(0), &Ray { payload: payload(10), pixel_index: 0, depth: 1 }));
    assert!(same_ray(&queue.ray(1), &Ray { payload: payload(13), pixel_index: 3, depth: 1 }));
    assert!(same_ray(&queue.ray(2), &Ray { payload: payload(14), pixel_index: 4, depth: 1 }));

    let outcomes = vec![
        Shaded::Terminated { contribution: 20 },
        Shaded::Scattered { payload: payload(21) },
        Shaded::Terminated { contribution: 22 },
    ];
    let writes = queue.stage(&outcomes);
    assert_eq!(pixels(&writes), vec![0, 4]);
    assert_eq!(queue.current_count(), 1);
    assert!(same_ray(&queue.ray(0), &Ray { payload: payload(21), pixel_index: 3, depth: 2 }));
}

#[test]
fn stage_on_an_empty_queue_does_nothing() {
    let mut queue = RayQueue::new(5, 0i32);
    let writes = queue.stage(&vec![]);
    assert!(writes.is_empty());
    assert_eq!(queue.current_count(), 0);
}

#[test]
fn trace_writes_every_pixel_exactly_once() {
    let mut queue = RayQueue::new(64, 0i32);
    let shade = |ray: Ray<i32>| {
        if (ray.pixel_index + ray.depth) % 3 == 0 {
            Shaded::Terminated { contribution: ray.depth as i32 }
        } else {
            Shaded::Scattered { payload: ray.payload }
        }
    };
    let finish = |_ray: Ray<i32>| -1;
    let traced = queue.trace(7, 5, 30, primary, shade, finish).expect("35 rays fit 64 slots");
    assert_eq!(traced.writes.len(), 35);
    assert_eq!(pixels(&traced.writes), (0..35).collect::<Vec<u32>>());
    assert_eq!(traced.stages, 3);
    assert_eq!(queue.current_count(), 0);
    for write in &traced.writes {
        assert_eq!(write.contribution, ((3 - write.pixel_index % 3) % 3) as i32);
    }
}

#[test]
fn trace_cuts_paths_at_the_depth_limit() {
    let mut queue = RayQueue::new(16, 0i32);
    let never_ends = |ray: Ray<i32>| Shaded::Scattered { payload: ray.payload };
    let finish = |ray: Ray<i32>| 1000 + ray.depth as i32;
    let traced = queue.trace(4, 4, 5, primary, never_ends, finish).expect("fits");
    assert_eq!(traced.stages, 5);
    assert_eq!(pixels(&traced.writes), (0..16).collect::<Vec<u32>>());
    assert!(traced.writes.iter().all(|w| w.contribution == 1004));
    assert_eq!(queue.current_count(), 0);
}

#[test]
fn trace_with_depth_limit_zero_or_one_runs_one_stage() {
    for max_depth in [0, 1] {
        let mut queue = RayQueue::new(6, 0i32);
        let never_ends = |ray: Ray<i32>| Shaded::Scattered { payload: ray.payload };
        let finish = |ray: Ray<i32>| ray.payload.origin;
        let traced = queue.trace(3, 2, max_depth, primary, never_ends, finish).expect("fits");
        assert_eq!(traced.stages, 1);
        assert_eq!(traced.writes.len(), 6);
        for (k, write) in traced.writes.iter().enumerate() {
            assert_eq!(write.pixel_index, k as u32);
            assert_eq!(write.contribution, k as i32 * 100);
        }
    }
}

#[test]
fn trace_of_an_empty_frame_runs_no_stage() {
    let mut queue = RayQueue::new(6, 0i32);
    let shade = |ray: Ray<i32>| Shaded::Scattered { payload: ray.payload };
    let finish = |_ray: Ray<i32>| 0;
    let traced = queue.trace(0, 9, 30, primary, shade, finish).expect("nothing always fits");
    assert_eq!(traced.stages, 0);
    assert!(traced.writes.is_empty());
}

#[test]
fn trace_that_does_not_fit_does_nothing() {
    let mut queue = RayQueue::new(6, 0i32);
    assert!(queue.generate(2, 1, primary));
    let shade = |ray: Ray<i32>| Shaded::Scattered { payload: ray.payload };
    let finish = |_ray: Ray<i32>| 0;
    assert!(queue.trace(7, 1, 30, primary, shade, finish).is_none());
    assert_eq!(queue.current_count(), 2);
}

#[test]
fn trace_results_do_not_depend_on_earlier_frames() {
    let mut queue = RayQueue::new(9, 0i32);
    let shade = |ray: Ray<i32>| {
        if ray.depth >= ray.pixel_index % 4 {
            Shaded::Terminated { contribution: ray.payload.origin }
        } else {
            Shaded::Scattered { payload: ray.payload }
        }
    };
    let finish = |_ray: Ray<i32>| -1;
    let first = queue.trace(3, 3, 30, primary, shade, finish).expect("fits");
    let second = queue.trace(3, 3, 30, primary, shade, finish).expect("fits");
    assert_eq!(first.stages, 4);
    assert_eq!(second.stages, 4);
    assert_eq!(first.writes.len(), 9);
    for (a, b) in first.writes.iter().zip(second.writes.iter()) {
        assert_eq!((a.pixel_index, a.contribution), (b.pixel_index, b.contribution));
    }
    assert_eq!(pixels(&second.writes), (0..9).collect::<Vec<u32>>());
}
