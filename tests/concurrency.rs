use mishka::format::{State, Tally};

fn sizes(seed: u64, n: usize) -> Vec<usize> {
    let mut x = seed;
    (0..n)
        .map(|_| {
            x = x.wrapping_mul(6364136223846793005).wrapping_add(1442695040888963407);
            ((x >> 33) % 50) as usize
        })
        .collect()
}

#[test]
fn every_delivery_order_gives_one_header_and_the_sum() {
    for seed in 1..50u64 {
        let mut batches = sizes(seed, 12);
        let total: usize = batches.iter().sum();
        let mut x = seed;
        for i in (1..batches.len()).rev() {
            x = x.wrapping_mul(6364136223846793005).wrapping_add(1);
            batches.swap(i, (x >> 33) as usize % (i + 1));
        }
        let mut tally = Tally::new();
        let headers = batches.iter().filter(|n| tally.record(**n)).count();
        assert_eq!(headers, 1);
        assert_eq!(tally.row_count, total);

        let state = State::new();
        let headers = batches
            .iter()
            .filter(|n| {
                let first = state.claim_header();
                state.add_rows(**n);
                first
            })
            .count();
        assert_eq!(headers, 1);
        assert_eq!(state.row_count(), total);
    }
}

#[test]
fn no_batches_no_header() {
    let tally = Tally::new();
    assert!(!tally.header_done);
    assert_eq!(tally.row_count, 0);
    assert_eq!(State::new().row_count(), 0);
}
