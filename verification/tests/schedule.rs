use seneca_solver::times::{generate_random_duration, generate_time_vec, render_times};

#[test]
fn schedule_has_one_more_boundary_than_modules() {
    let end = 1_700_000_000i64;
    let (start, times) = generate_time_vec(end, 7, 30, 5);
    assert_eq!(times.len(), 6);
    assert_eq!(*times.last().unwrap(), end);
    assert_eq!(times[0], start);
    for w in times.windows(2) {
        let gap = w[1] - w[0];
        assert!((7 - 30..7 + 30).contains(&gap), "gap {} out of range", gap);
    }
}

#[test]
fn schedule_strictly_increases_when_min_gap_dominates() {
    let end = 1_700_000_000i64;
    let (_, times) = generate_time_vec(end, 31, 30, 8);
    assert_eq!(times.len(), 9);
    assert_eq!(*times.last().unwrap(), end);
    for w in times.windows(2) {
        assert!(w[0] < w[1], "boundaries must strictly increase");
    }
}

#[test]
fn schedule_of_no_modules_is_only_the_end() {
    let end = 12_345i64;
    let (start, times) = generate_time_vec(end, 7, 30, 0);
    assert_eq!(times, vec![end]);
    assert_eq!(start, end);
}

#[test]
fn random_duration_stays_in_sampling_range() {
    for _ in 0..200 {
        let d = generate_random_duration(7, 30);
        assert!((7 - 30..7 + 30).contains(&d), "duration {} out of range", d);
    }
}

#[test]
fn epoch_boundaries_render_as_rfc3339() {
    let rendered = render_times(&vec![0i64, 1_000_000_000]).unwrap();
    assert_eq!(rendered[0], "1970-01-01T00:00:00+00:00");
    assert_eq!(rendered[1], "2001-09-09T01:46:40+00:00");
}

#[test]
fn out_of_range_boundary_refuses_to_render() {
    assert!(render_times(&vec![i64::MAX]).is_none());
}
