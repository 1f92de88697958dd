use perspective::matching::{
    best_match_of, lowe_match_of, match_descriptors, matching, symmetric_matching, symmetric_pairs_of,
};

fn descriptor(first: u8, second: u8) -> [u8; 64] {
    let mut d = [0u8; 64];
    d[0] = first;
    d[1] = second;
    d
}

fn bits(n: u32) -> [u8; 64] {
    let mut d = [0u8; 64];
    for i in 0..n as usize {
        d[i / 8] |= 1 << (i % 8);
    }
    d
}

#[test]
fn matching_needs_a_clear_winner() {
    // distances from bits(0): 0, 40, 100
    let a = vec![bits(0)];
    let b = vec![bits(100), bits(40), bits(0)];
    assert_eq!(matching(&a, &b), vec![Some(2)]);
    // distances 10 and 30: 10 + 24 is not below 30
    let b = vec![bits(30), bits(10)];
    assert_eq!(matching(&a, &b), vec![None]);
    // distances 10 and 35: 10 + 24 < 35
    let b = vec![bits(35), bits(10)];
    assert_eq!(matching(&a, &b), vec![Some(1)]);
}

#[test]
fn symmetric_matching_keeps_mutual_matches() {
    let a = vec![bits(0), bits(200)];
    let b = vec![bits(199), bits(1)];
    assert_eq!(symmetric_matching(&a, &b), vec![[0, 1], [1, 0]]);
    assert_eq!(symmetric_matching(&b, &a), vec![[0, 1], [1, 0]]);
}

#[test]
fn symmetric_matching_drops_one_sided_matches() {
    // a[0] matches b[0], but b[0]'s nearest in a is a[1]
    let a = vec![bits(0), bits(60), bits(229)];
    let b = vec![bits(58), bits(400)];
    assert_eq!(matching(&a, &b), vec![Some(0), Some(0), None]);
    assert_eq!(matching(&b, &a), vec![Some(1), Some(2)]);
    assert_eq!(symmetric_matching(&a, &b), vec![[1, 0]]);
}

#[test]
fn lowe_ratio_test() {
    let ds1 = vec![bits(0), descriptor(0xFF, 0)];
    // from bits(0): 9 and 20 (9 < 10); from descriptor(0xFF,0): 1 and 12 (1 < 6)
    let ds2 = vec![bits(20), bits(9)];
    assert_eq!(match_descriptors(&ds1, &ds2), vec![(0, 1), (1, 1)]);
    // from bits(0): 10 and 20 is not below half
    let ds2 = vec![bits(20), bits(10)];
    assert_eq!(match_descriptors(&[bits(0)], &ds2), vec![]);
}

#[test]
fn match_decisions_on_given_neighbours() {
    assert_eq!(best_match_of(&[(3, 10), (1, 35)]), Some(3));
    assert_eq!(best_match_of(&[(3, 10), (1, 34)]), None);
    assert_eq!(lowe_match_of(&[(5, 4), (2, 9)]), Some(5));
    assert_eq!(lowe_match_of(&[(5, 4), (2, 8)]), None);
    let forward = [Some(1), None, Some(0), Some(2)];
    let reverse = [Some(2), Some(0), Some(1)];
    assert_eq!(symmetric_pairs_of(&forward, &reverse), vec![[0, 1], [2, 0]]);
    assert_eq!(symmetric_pairs_of(&[], &reverse), Vec::<[usize; 2]>::new());
}
