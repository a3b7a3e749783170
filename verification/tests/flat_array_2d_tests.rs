use flat_arrays::flat_array_2d::{
    get_1d_from_2d, get_1d_from_2d_ivec2, get_2d_from_1d, get_2d_from_1d_ivec2, Array2d, IVec2,
};

fn get_data_2d() -> Vec<(usize, usize, usize)> {
    vec![
        (4, 0, 0),
        (4, 1, 0),
        (4, 1, 1),
        (4, 2, 1),
        (4, 3, 1),
        (4, 1, 2),
        (4, 1, 3),
        (4, 3, 3),
        (8, 6, 7),
        (8, 0, 7),
        (8, 7, 7),
    ]
}

#[test]
fn flat_array_2d_test_from_and_to_1d() {
    let data = get_data_2d();

    for (width, x1, y1) in data {
        let t = get_1d_from_2d(width, x1, y1);
        let (x2, y2) = get_2d_from_1d(width, t);

        assert_eq!(x1, x2);
        assert_eq!(y1, y2);
    }
}

#[test]
fn test_from_and_to_1d_ivec2() {
    let data = get_data_2d();

    for (width, x1, y1) in data {
        let s1 = IVec2 {
            x: x1 as i32,
            y: y1 as i32,
        };

        let t = get_1d_from_2d_ivec2(width, s1);
        let s2 = get_2d_from_1d_ivec2(width, t);

        assert_eq!(s1, s2);
    }
}

#[test]
fn flat_array_2d_test_into_iter() {
    let test: Array2d<u64> = Array2d::new(2, 2);
    assert_eq!(test.len(), 4);

    let mut iter = test.iter();
    while let Some((_pos, value)) = iter.next() {
        assert_eq!(*value, 0);
    }
}

#[test]
fn flat_array_2d_test_into_iter_mut() {
    let mut test: Array2d<i64> = Array2d::new(2, 2);
    assert_eq!(test.len(), 4);

    let mut iter = test.iter_mut();
    while let Some((_pos, value)) = iter.next(&mut test) {
        *value = 10;
    }
}

#[test]
fn flat_array_2d_test_getter_setter() {
    let mut test: Array2d<usize> = Array2d::new(2, 2);
    assert_eq!(test.len(), 4);

    for i in 0..test.len() {
        *test.index_mut(i) = i;
        let comp = *test.index(i);

        assert_eq!(i, comp);
    }
}

#[test]
fn flat_array_2d_test_resize_array() {
    let mut test: Array2d<usize> = Array2d::new(2, 2);
    assert_eq!(test.len(), 4);
    test.resize(3, 3);
    assert_eq!(test.len(), 9);
}

#[test]
fn flat_array_2d_test_getter_and_setter() {
    let mut test: Array2d<usize> = Array2d::new(4, 4);
    assert_eq!(test.len(), 16);

    let mut pos = IVec2 { x: 0, y: 0 };
    assert_eq!(*test.get(pos), 0);
    test.set(pos, 1);
    assert_eq!(*test.get(pos), 1);

    pos = IVec2 { x: 3, y: 3 };
    assert_eq!(*test.get(pos), 0);
    test.set(pos, 64);
    assert_eq!(*test.get(pos), 64);
}

#[test]
fn test_mapper_scenario_2d() {
    assert_eq!(get_1d_from_2d(2, 1, 1), 3);
    assert_eq!(get_2d_from_1d(2, 3), (1, 1));
    assert_eq!(
        get_2d_from_1d_ivec2(2, 3),
        IVec2 { x: 1, y: 1 }
    );
}

#[test]
fn test_new_fills_default_2d() {
    let test: Array2d<u64> = Array2d::new(3, 5);
    assert_eq!(test.len(), 15);
    for i in 0..test.len() {
        assert_eq!(*test.index(i), 0);
    }
}

#[test]
fn test_set_leaves_other_cells_default_2d() {
    let mut test: Array2d<usize> = Array2d::new(4, 4);
    test.set(IVec2 { x: 3, y: 3 }, 64);

    assert_eq!(*test.get(IVec2 { x: 3, y: 3 }), 64);
    for i in 0..test.len() {
        if i != get_1d_from_2d(4, 3, 3) {
            assert_eq!(*test.index(i), 0);
        }
    }
}

#[test]
fn test_resize_retains_raw_offsets_2d() {
    let mut test: Array2d<usize> = Array2d::new(2, 2);
    for i in 0..test.len() {
        *test.index_mut(i) = i + 1;
    }

    test.resize(3, 3);
    assert_eq!(test.len(), 9);
    for i in 0..4 {
        assert_eq!(*test.index(i), i + 1);
    }
    for i in 4..9 {
        assert_eq!(*test.index(i), 0);
    }

    test.resize(1, 2);
    assert_eq!(test.len(), 2);
    assert_eq!(*test.index(0), 1);
    assert_eq!(*test.index(1), 2);
}

#[test]
fn test_iter_coordinates_2d() {
    let width = 2;
    let test: Array2d<u64> = Array2d::new(width, 3);
    let mut iter = test.iter();
    let mut count = 0;
    while let Some((pos, _value)) = iter.next() {
        assert_eq!(pos.x as usize, count / width);
        assert_eq!(pos.y as usize, count % width);
        count += 1;
    }
    assert_eq!(count, test.len());
}

#[test]
fn test_iter_mut_writes_every_cell_2d() {
    let mut test: Array2d<usize> = Array2d::new(3, 2);
    let mut iter = test.iter_mut();
    let mut count = 0;
    while let Some((pos, value)) = iter.next(&mut test) {
        *value = get_1d_from_2d(3, pos.x as usize, pos.y as usize) + 7;
        count += 1;
    }
    assert_eq!(count, 6);
    for i in 0..test.len() {
        assert_eq!(*test.index(i), i + 7);
    }
}

#[test]
fn test_is_empty_2d() {
    let test: Array2d<u64> = Array2d::new(1, 1);
    assert!(!test.is_empty());
    let large: Array2d<u64> = Array2d::new(7, 9);
    assert!(!large.is_empty());
}

#[test]
fn test_get_mut_2d() {
    let mut test: Array2d<usize> = Array2d::new(2, 2);
    *test.get_mut(IVec2 { x: 1, y: 0 }) = 5;
    assert_eq!(*test.get(IVec2 { x: 1, y: 0 }), 5);
    assert_eq!(*test.index(2), 5);
}
