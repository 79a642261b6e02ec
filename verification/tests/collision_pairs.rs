use arena::systems::collision::CollisionSystem;

#[test]
fn pairs_skip_entities_of_one_id() {
    let system = CollisionSystem;
    let pairs = system.candidate_pairs(&vec![4, 7, 9]);
    assert_eq!(pairs, vec![(0, 1), (0, 2), (1, 0), (1, 2), (2, 0), (2, 1)]);
}

#[test]
fn pairs_of_no_or_one_entity_are_none() {
    let system = CollisionSystem;
    assert!(system.candidate_pairs(&vec![]).is_empty());
    assert!(system.candidate_pairs(&vec![3]).is_empty());
}

#[test]
fn pairs_are_symmetric_and_skip_equal_ids() {
    let system = CollisionSystem;
    let ids = vec![5, 5, 6];
    let pairs = system.candidate_pairs(&ids);
    assert_eq!(pairs, vec![(0, 2), (1, 2), (2, 0), (2, 1)]);
    for &(i, j) in &pairs {
        assert!(pairs.contains(&(j, i)));
        assert_ne!(ids[i], ids[j]);
    }
}
