use latmon::stats::LatencyStats;

#[test]
fn fresh_stats_are_zero() {
    let st = LatencyStats::new();
    assert_eq!(st.sample_count(), 0);
    assert_eq!(st.total_latency(), 0);
}

#[test]
fn update_adds_one_sample() {
    let mut st = LatencyStats::new();
    st.update(100);
    assert_eq!(st.sample_count(), 1);
    assert_eq!(st.total_latency(), 100);
    st.update(250);
    assert_eq!(st.sample_count(), 2);
    assert_eq!(st.total_latency(), 350);
}

#[test]
fn count_grows_by_one_per_update() {
    let mut st = LatencyStats::new();
    let samples = [3u64, 0, 17, 9999, 42];
    for (fed, latency) in samples.iter().enumerate() {
        let before = st.sample_count();
        st.update(*latency);
        assert_eq!(st.sample_count(), before + 1);
        assert_eq!(st.sample_count() as usize, fed + 1);
    }
}

#[test]
fn running_average_matches_batch_mean() {
    let samples = [12u64, 7, 333, 0, 81, 81, 5000];
    let mut st = LatencyStats::new();
    let mut fed: Vec<u64> = Vec::new();
    for latency in samples {
        st.update(latency);
        fed.push(latency);
        let batch_total: u128 = fed.iter().map(|l| *l as u128).sum();
        let batch_count = fed.len() as u128;
        assert_eq!(st.total_latency(), batch_total);
        assert_eq!(st.sample_count() as u128, batch_count);
        let batch_centi = (200 * batch_total + batch_count) / (2 * batch_count);
        assert_eq!(st.average_centi(), batch_centi);
    }
}

#[test]
fn average_sequence_of_three_samples() {
    let mut st = LatencyStats::new();
    st.update(100);
    assert_eq!(st.average_centi(), 10000);
    st.update(200);
    assert_eq!(st.average_centi(), 15000);
    st.update(300);
    assert_eq!(st.average_centi(), 20000);
}

#[test]
fn average_rounds_half_up_at_the_second_decimal() {
    let mut st = LatencyStats::new();
    st.update(1);
    st.update(0);
    // mean 0.5 exactly
    assert_eq!(st.average_centi(), 50);
    let mut st2 = LatencyStats::new();
    for _ in 0..7 {
        st2.update(0);
    }
    st2.update(1);
    // mean 0.125: the half hundredth rounds up
    assert_eq!(st2.average_centi(), 13);
}
