use signed_index::plan;

#[test]
fn plan_gives_remainder_to_first_chunks() {
    assert_eq!(plan(10, 3), vec![(0, 4), (4, 7), (7, 10)]);
    assert_eq!(plan(11, 4), vec![(0, 3), (3, 6), (6, 9), (9, 11)]);
    assert_eq!(plan(9, 3), vec![(0, 3), (3, 6), (6, 9)]);
}

#[test]
fn plan_on_empty_sequence() {
    assert_eq!(plan(0, 2), vec![(0, 0), (0, 0)]);
}

#[test]
fn plan_without_workers_is_empty() {
    assert_eq!(plan(10, 0), Vec::<(usize, usize)>::new());
    assert_eq!(plan(0, 0), Vec::<(usize, usize)>::new());
}

#[test]
fn plan_with_more_workers_than_elements() {
    assert_eq!(plan(2, 4), vec![(0, 1), (1, 2), (2, 2), (2, 2)]);
}

#[test]
fn plan_at_the_largest_length() {
    let p = plan(usize::MAX, 2);
    assert_eq!(p, vec![(0, usize::MAX / 2 + 1), (usize::MAX / 2 + 1, usize::MAX)]);
}

#[test]
fn chunk_sums_add_up_to_the_whole() {
    let data: Vec<u64> = (1..=100).collect();
    let total: u64 = data.iter().sum();
    assert_eq!(total, 5050);
    for workers in [1usize, 2, 7, 100, 101] {
        let chunks = plan(data.len(), workers);
        assert_eq!(chunks.len(), workers);
        let combined: u64 = chunks
            .iter()
            .map(|&(s, e)| data[s..e].iter().sum::<u64>())
            .sum();
        assert_eq!(combined, total, "workers = {}", workers);
    }
}
