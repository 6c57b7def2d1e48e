use fc_link::moving_sum::MovingSum;

fn average<const N: usize>(window: &MovingSum<N>) -> f32 {
    if window.len() == 0 {
        return 0.0;
    }
    window.sum() as f32 / window.len() as f32
}

#[test]
fn empty_window() {
    let window: MovingSum<50> = MovingSum::new();
    assert_eq!(window.len(), 0);
    assert_eq!(window.sum(), 0);
    assert_eq!(window.capacity(), 50);
    assert_eq!(average(&window), 0.0);
}

#[test]
fn full_window_of_distinct_values_averages_them() {
    let mut window: MovingSum<4> = MovingSum::new();
    for v in [1u8, 2, 3, 6] {
        window.push(v);
    }
    assert_eq!(window.len(), 4);
    assert_eq!(window.sum(), 12);
    assert_eq!(average(&window), 3.0);
}

#[test]
fn one_push_past_capacity_evicts_the_oldest() {
    let mut window: MovingSum<4> = MovingSum::new();
    for v in [1u8, 2, 3, 6, 10] {
        window.push(v);
    }
    assert_eq!(window.len(), 4);
    assert_eq!(window.sum(), 2 + 3 + 6 + 10);
}

#[test]
fn fifty_tens_average_ten() {
    let mut window: MovingSum<50> = MovingSum::new();
    for _ in 0..50 {
        window.push(10);
    }
    assert_eq!(window.sum(), 500);
    assert_eq!(window.len(), 50);
    assert_eq!(average(&window), 10.0);
}

#[test]
fn largest_samples_over_a_full_window() {
    let mut window: MovingSum<257> = MovingSum::new();
    for _ in 0..600 {
        window.push(255);
    }
    assert_eq!(window.len(), 257);
    assert_eq!(window.sum(), 65535);
}

#[test]
fn partially_filled_window() {
    let mut window: MovingSum<5> = MovingSum::new();
    window.push(7);
    window.push(9);
    assert_eq!(window.len(), 2);
    assert_eq!(window.sum(), 16);
    assert_eq!(average(&window), 8.0);
}
