use embedded_charts::buffer::SeriesBuffer;
use embedded_charts::geometry::Point;

fn p(x: i32, y: i32) -> Point {
    Point { x, y }
}

#[test]
fn buffer_starts_empty() {
    let buffer: SeriesBuffer<4> = SeriesBuffer::empty();
    assert_eq!(buffer.snapshot(), &[None, None, None, None]);
}

#[test]
fn push_inserts_newest_first() {
    let mut buffer: SeriesBuffer<5> = SeriesBuffer::empty();
    buffer.push(p(1, 10));
    buffer.push(p(2, 20));
    assert_eq!(
        buffer.snapshot(),
        &[Some(p(2, 20)), Some(p(1, 10)), None, None, None]
    );
}

#[test]
fn pushing_one_more_than_capacity_evicts_the_oldest() {
    let mut buffer: SeriesBuffer<5> = SeriesBuffer::empty();
    for i in 1..=6 {
        buffer.push(p(i, i * i));
    }
    // The first-pushed point (1, 1) has been evicted; the newest sits at
    // slot 0 and ages increase along the window.
    assert_eq!(
        buffer.snapshot(),
        &[
            Some(p(6, 36)),
            Some(p(5, 25)),
            Some(p(4, 16)),
            Some(p(3, 9)),
            Some(p(2, 4)),
        ]
    );
}

#[test]
fn push_only_shifts_never_reorders() {
    let mut buffer: SeriesBuffer<3> = SeriesBuffer::empty();
    buffer.push(p(7, 0));
    buffer.push(p(8, 0));
    buffer.push(p(9, 0));
    buffer.push(p(10, 0));
    assert_eq!(
        buffer.snapshot(),
        &[Some(p(10, 0)), Some(p(9, 0)), Some(p(8, 0))]
    );
}

#[test]
fn single_slot_buffer_keeps_only_the_newest() {
    let mut buffer: SeriesBuffer<1> = SeriesBuffer::empty();
    buffer.push(p(1, 1));
    buffer.push(p(2, 2));
    assert_eq!(buffer.snapshot(), &[Some(p(2, 2))]);
}
