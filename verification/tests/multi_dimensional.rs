use ilyvion_util::multi_dimensional::{Vec2D, Window2D};

#[test]
fn indexing_works_correctly() {
    let mut values = [0, 1, 2, 3, 4, 5, 6, 7];
    let window = Window2D::new_ref(&values, 2);

    assert_eq!(window.row(0), [0, 1]);
    assert_eq!(window.row(1), [2, 3]);
    assert_eq!(window.row(2), [4, 5]);
    assert_eq!(window.row(3), [6, 7]);

    assert_eq!(*window.get(0, 0), 0);
    assert_eq!(*window.get(0, 1), 1);
    assert_eq!(*window.get(1, 0), 2);
    assert_eq!(*window.get(1, 1), 3);
    assert_eq!(*window.get(2, 0), 4);
    assert_eq!(*window.get(2, 1), 5);
    assert_eq!(*window.get(3, 0), 6);
    assert_eq!(*window.get(3, 1), 7);

    let mut window = Window2D::new_mut(&mut values, 2);
    for y in 0..4 {
        for x in 0..2 {
            *window.get_mut(y, x) = 2 * (3 - y as i32) + (1 - x as i32);
        }
    }
    assert_eq!(window.row(0), [7, 6]);
    assert_eq!(window.row(1), [5, 4]);
    assert_eq!(window.row(2), [3, 2]);
    assert_eq!(window.row(3), [1, 0]);

    for y in 0..4 {
        for x in 0..2 {
            *window.get_mut(y, x) *= 2;
        }
    }

    assert_eq!(*window.get(0, 0), 14);
    assert_eq!(*window.get(0, 1), 12);
    assert_eq!(*window.get(1, 0), 10);
    assert_eq!(*window.get(1, 1), 8);
    assert_eq!(*window.get(2, 0), 6);
    assert_eq!(*window.get(2, 1), 4);
    assert_eq!(*window.get(3, 0), 2);
    assert_eq!(*window.get(3, 1), 0);
}

#[test]
fn mut_window_writes_reach_the_underlying_slice() {
    let mut values = [0u32; 8];
    {
        let mut window = Window2D::new_mut(&mut values, 2);
        *window.get_mut(0, 1) = 1;
        *window.get_mut(1, 1) = 2;
        *window.get_mut(2, 1) = 3;
        *window.get_mut(3, 1) = 4;
    }
    assert_eq!(values, [0, 1, 0, 2, 0, 3, 0, 4]);
}

#[test]
fn unchecked_window_constructors_agree_with_checked_ones() {
    let values = [1, 2, 3, 4, 5, 6];
    let checked = Window2D::new_ref(&values, 3);
    let unchecked = Window2D::new_ref_unchecked(&values, 2, 3);
    assert_eq!(checked.row(1), unchecked.row(1));

    let mut mut_values = [1, 2, 3, 4, 5, 6];
    let mut window = Window2D::new_mut_unchecked(&mut mut_values, 2, 3);
    *window.get_mut(1, 2) = 60;
    assert_eq!(window.row(1), [4, 5, 60]);
}

#[test]
fn vec2d_new_with_lays_rows_out_in_order() {
    let v = Vec2D::new_with(2, 2, |y, x| 100 * y + 10 * x);
    let values = v.into_inner();

    assert_eq!(values, [0, 10, 100, 110]);
}

#[test]
fn vec2d_from_and_into_inner_round_trip() {
    let mut window = Vec2D::from(vec![0u32; 8], 2);
    *window.get_mut(0, 1) = 1;
    *window.get_mut(1, 1) = 2;
    *window.get_mut(2, 1) = 3;
    *window.get_mut(3, 1) = 4;

    let values = window.into_inner();

    assert_eq!(values, [0, 1, 0, 2, 0, 3, 0, 4]);
}

#[test]
fn vec2d_new_fills_with_defaults() {
    let v: Vec2D<u8> = Vec2D::new(2, 3);
    assert_eq!(*v.get(0, 0), 0);
    assert_eq!(*v.get(1, 2), 0);
    assert_eq!(v.into_inner(), vec![0; 6]);
}

#[test]
fn vec2d_from_unchecked_keeps_the_buffer() {
    let v = Vec2D::from_unchecked(vec![1, 2, 3, 4, 5, 6], 3, 2);
    assert_eq!(*v.get(2, 1), 6);
    assert_eq!(v.into_inner(), vec![1, 2, 3, 4, 5, 6]);
}
