use layouter::layout::{key_rect, KeyRect, KEY_COUNT};

#[test]
fn key_rects_exact_values() {
    assert_eq!(key_rect(0), KeyRect { x: 0, y: 3, width: 8, height: 4 });
    assert_eq!(key_rect(3), KeyRect { x: 27, y: 0, width: 8, height: 4 });
    assert_eq!(key_rect(6), KeyRect { x: 64, y: 2, width: 8, height: 4 });
    assert_eq!(key_rect(8), KeyRect { x: 82, y: 0, width: 8, height: 4 });
    assert_eq!(key_rect(13), KeyRect { x: 9, y: 8, width: 8, height: 4 });
    assert_eq!(key_rect(36), KeyRect { x: 27, y: 18, width: 8, height: 4 });
    assert_eq!(key_rect(38), KeyRect { x: 45, y: 18, width: 8, height: 4 });
    assert_eq!(key_rect(40), KeyRect { x: 73, y: 18, width: 8, height: 4 });
    assert_eq!(key_rect(41), KeyRect { x: 82, y: 18, width: 8, height: 4 });
}

#[test]
fn large_index_does_not_overflow() {
    let r = key_rect(u16::MAX);
    assert_eq!(r, KeyRect { x: 27, y: 27305, width: 8, height: 4 });
}

#[test]
fn all_keys_are_placed_without_overlap() {
    for i in 0..KEY_COUNT {
        for j in 0..KEY_COUNT {
            if i == j {
                continue;
            }
            let a = key_rect(i);
            let b = key_rect(j);
            let apart = a.x + a.width <= b.x
                || b.x + b.width <= a.x
                || a.y + a.height <= b.y
                || b.y + b.height <= a.y;
            assert!(apart, "keys {i} and {j} overlap");
        }
    }
}
