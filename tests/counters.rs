use alloc_counter::{allow_alloc, count_alloc, deny_alloc, AllocEvent, AllocState, Counters};

// A `Box<i32>` is one block of four bytes, aligned to four.

#[test]
fn count_0() {
    let mut st = AllocState::new();
    assert_eq!(count_alloc(&mut st, |_s: &mut AllocState| 0).0.counts(), (0, 0, 0));
}

#[test]
fn count_1() {
    let mut st = AllocState::new();
    let (counts, r) = count_alloc(&mut st, |s: &mut AllocState| s.record_alloc(4, 4));
    assert!(r.is_ok());
    assert_eq!(counts.counts(), (1, 0, 0));
}

#[test]
fn count_2() {
    let mut st = AllocState::new();
    let counts = count_alloc(&mut st, |s: &mut AllocState| {
        // alloc
        let a = s.record_alloc(4, 4);
        // dealloc
        let d = s.record_dealloc(4, 4);
        a.is_ok() && d.is_ok()
    });
    assert!(counts.1);
    assert_eq!(counts.0.counts(), (1, 0, 1));
}

#[test]
fn count_3() {
    let mut st = AllocState::new();
    assert_eq!(
        count_alloc(&mut st, |s: &mut AllocState| {
            // no alloc: an empty vector
            // alloc: the first push
            let _ = s.record_alloc(4, 4);
            // realloc: the second push
            let _ = s.record_realloc(4, 4, 8);
            // dealloc: the vector is dropped
            let _ = s.record_dealloc(8, 4);
        })
        .0
        .counts(),
        (1, 1, 1)
    );
}

#[test]
fn sizes_are_summed() {
    let mut st = AllocState::new();
    let (counts, _) = count_alloc(&mut st, |s: &mut AllocState| {
        let _ = s.record_alloc(16, 8);
        let _ = s.record_alloc(4, 4);
        let _ = s.record_realloc(16, 8, 64);
        let _ = s.record_dealloc(64, 8);
    });
    assert_eq!(counts.counts(), (2, 1, 1));
    assert_eq!(counts.sizes(), (20, 64, 64));
}

#[test]
fn measurement_starts_from_the_current_totals() {
    let mut st = AllocState::new();
    let _ = st.record_alloc(100, 8);
    let _ = st.record_dealloc(100, 8);
    let (counts, _) = count_alloc(&mut st, |s: &mut AllocState| s.record_alloc(4, 4));
    assert_eq!(counts.counts(), (1, 0, 0));
    assert_eq!(counts.sizes(), (4, 0, 0));
    assert_eq!(st.counters.counts(), (2, 0, 1));
}

#[test]
fn counting_ignores_the_mode() {
    let mut st = AllocState::new();
    let (counts, _) = count_alloc(&mut st, |s: &mut AllocState| {
        let a = allow_alloc(s, |s: &mut AllocState| s.record_alloc(4, 4));
        let d = deny_alloc(s, |s: &mut AllocState| s.record_alloc(4, 4));
        (a, d)
    });
    assert_eq!(counts.counts(), (2, 0, 0));
}

#[test]
fn nested_measurement_is_part_of_the_outer_one() {
    let mut st = AllocState::new();
    let (outer, inner) = count_alloc(&mut st, |s: &mut AllocState| {
        let _ = s.record_alloc(4, 4);
        let (inner, _) = count_alloc(s, |s: &mut AllocState| s.record_dealloc(4, 4));
        let _ = s.record_alloc(8, 8);
        inner
    });
    assert_eq!(inner.counts(), (0, 0, 1));
    assert_eq!(outer.counts(), (2, 0, 1));
}

#[test]
fn deltas_wrap_around() {
    let mut before = Counters::new();
    before.alloc_count = usize::MAX;
    let mut after = before;
    after.record(AllocEvent::Alloc { size: 3, align: 1 });
    assert_eq!(after.alloc_count, 0);
    assert_eq!(after.since(&before).counts(), (1, 0, 0));
    assert_eq!(after.since(&before).sizes(), (3, 0, 0));
}

#[test]
fn default_counters_are_zero() {
    let c = Counters::default();
    assert_eq!(c, Counters::new());
    assert_eq!(c.counts(), (0, 0, 0));
    assert_eq!(c.sizes(), (0, 0, 0));
}
