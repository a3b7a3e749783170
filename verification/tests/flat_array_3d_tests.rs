use flat_arrays::flat_array_3d::{
    get_1d_from_3d, get_1d_from_3d_ivec3, get_3d_from_1d, get_3d_from_1d_ivec3, Array3d, IVec3,
};

fn get_data_3d() -> Vec<(usize, usize, usize, usize, usize)> {
    vec![
        (4, 4, 0, 0, 0),
        (4, 4, 1, 0, 0),
        (4, 4, 1, 1, 0),
        (4, 4, 1, 1, 1),
        (4, 4, 2, 1, 0),
        (4, 4, 2, 1, 1),
        (4, 4, 2, 2, 1),
        (4, 4, 2, 2, 2),
        (4, 4, 3, 2, 1),
        (4, 4, 3, 2, 2),
        (4, 4, 3, 3, 2),
        (4, 4, 3, 3, 3),
    ]
}

#[test]
fn flat_array_3d_test_from_and_to_1d() {
    let data = get_data_3d();

    for (width, height, x1, y1, z1) in data {
        let t = get_1d_from_3d(width, height, x1, y1, z1);
        let (x2, y2, z2) = get_3d_from_1d(width, height, t);

        assert_eq!(x1, x2);
        assert_eq!(y1, y2);
        assert_eq!(z1, z2);
    }
}

#[test]
fn test_from_and_to_1d_ivec() {
    let data = get_data_3d();

    for (width, height, x1, y1, z1) in data {
        let v1 = IVec3 {
            x: x1 as i32,
            y: y1 as i32,
            z: z1 as i32,
        };
        let t = get_1d_from_3d_ivec3(width, height, v1);
        let v2 = get_3d_from_1d_ivec3(width, height, t);

        assert_eq!(v1, v2);
    }
}

#[test]
fn flat_array_3d_test_into_iter() {
    let test: Array3d<u64> = Array3d::new(2, 2, 2);
    assert_eq!(test.len(), 8);

    let mut iter = test.iter();
    while let Some((_pos, value)) = iter.next() {
        assert_eq!(*value, 0);
    }
}

#[test]
fn flat_array_3d_test_into_iter_mut() {
    let mut test: Array3d<i64> = Array3d::new(2, 2, 2);
    assert_eq!(test.len(), 8);

    let mut iter = test.iter_mut();
    while let Some((_pos, value)) = iter.next(&mut test) {
        *value = 10;
    }
}

#[test]
fn flat_array_3d_test_getter_setter() {
    let mut test: Array3d<usize> = Array3d::new(2, 2, 2);
    assert_eq!(test.len(), 8);

    for i in 0..test.len() {
        *test.index_mut(i) = i;
        let comp = *test.index(i);

        assert_eq!(i, comp);
    }
}

#[test]
fn flat_array_3d_test_resize_array() {
    let mut test: Array3d<usize> = Array3d::new(2, 2, 2);
    assert_eq!(test.len(), 8);
    test.resize(3, 3, 3);
    assert_eq!(test.len(), 27);
}

#[test]
fn flat_array_3d_test_getter_and_setter() {
    let mut test: Array3d<usize> = Array3d::new(4, 4, 4);
    assert_eq!(test.len(), 64);

    let mut pos = IVec3 { x: 0, y: 0, z: 0 };
    assert_eq!(*test.get(pos), 0);
    test.set(pos, 1);
    assert_eq!(*test.get(pos), 1);

    pos = IVec3 { x: 3, y: 3, z: 3 };
    assert_eq!(*test.get(pos), 0);
    test.set(pos, 64);
    assert_eq!(*test.get(pos), 64);
}

#[test]
fn test_mapper_scenario_3d() {
    // The first axis varies fastest: (1, 1, 1) in a 4x4 slab lands at
    // 1*16 + 1*4 + 1.
    assert_eq!(get_1d_from_3d(4, 4, 1, 1, 1), 21);
    assert_eq!(get_3d_from_1d(4, 4, 21), (1, 1, 1));
    assert_eq!(get_1d_from_3d(2, 2, 1, 0, 0), 1);
    assert_eq!(get_3d_from_1d(2, 2, 1), (1, 0, 0));
}

#[test]
fn test_new_fills_default_3d() {
    let test: Array3d<u64> = Array3d::new(2, 3, 4);
    assert_eq!(test.len(), 24);
    for i in 0..test.len() {
        assert_eq!(*test.index(i), 0);
    }
}

#[test]
fn test_set_leaves_other_cells_default_3d() {
    let mut test: Array3d<usize> = Array3d::new(3, 3, 3);
    test.set(IVec3 { x: 2, y: 1, z: 0 }, 42);

    for i in 0..test.len() {
        if i == get_1d_from_3d(3, 3, 2, 1, 0) {
            assert_eq!(*test.index(i), 42);
        } else {
            assert_eq!(*test.index(i), 0);
        }
    }
}

#[test]
fn test_resize_retains_raw_offsets_3d() {
    let mut test: Array3d<usize> = Array3d::new(2, 2, 2);
    for i in 0..test.len() {
        *test.index_mut(i) = i + 1;
    }

    test.resize(2, 2, 3);
    assert_eq!(test.len(), 12);
    for i in 0..8 {
        assert_eq!(*test.index(i), i + 1);
    }
    for i in 8..12 {
        assert_eq!(*test.index(i), 0);
    }

    test.resize(1, 1, 3);
    assert_eq!(test.len(), 3);
    for i in 0..3 {
        assert_eq!(*test.index(i), i + 1);
    }
}

#[test]
fn test_iter_coordinates_3d() {
    let test: Array3d<u64> = Array3d::new(2, 3, 4);
    let mut iter = test.iter();
    let mut count = 0;
    while let Some((pos, _value)) = iter.next() {
        let z = count / (2 * 3);
        let rest = count - z * (2 * 3);
        assert_eq!(pos.x as usize, rest % 2);
        assert_eq!(pos.y as usize, rest / 2);
        assert_eq!(pos.z as usize, z);
        count += 1;
    }
    assert_eq!(count, test.len());
}

#[test]
fn test_iter_mut_writes_every_cell_3d() {
    let mut test: Array3d<usize> = Array3d::new(2, 2, 2);
    let mut iter = test.iter_mut();
    let mut count = 0;
    while let Some((pos, value)) = iter.next(&mut test) {
        *value = get_1d_from_3d(2, 2, pos.x as usize, pos.y as usize, pos.z as usize) + 3;
        count += 1;
    }
    assert_eq!(count, 8);
    for i in 0..test.len() {
        assert_eq!(*test.index(i), i + 3);
    }
}

#[test]
fn test_is_empty_3d() {
    let test: Array3d<u64> = Array3d::new(1, 1, 1);
    assert!(!test.is_empty());
    let large: Array3d<u64> = Array3d::new(4, 5, 6);
    assert!(!large.is_empty());
}

#[test]
fn test_get_mut_3d() {
    let mut test: Array3d<usize> = Array3d::new(2, 2, 2);
    *test.get_mut(IVec3 { x: 0, y: 1, z: 1 }) = 11;
    assert_eq!(*test.get(IVec3 { x: 0, y: 1, z: 1 }), 11);
    assert_eq!(*test.index(6), 11);
}
