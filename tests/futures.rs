use alloc_counter::{
    count_alloc_future, guard_future, AllocEvent, AllocMode, AllocState, PolicyViolation,
};

// The work is a countdown: each step allocates one block and lowers the
// counter; the step that finds it at zero frees a block and finishes.
fn step(n: &mut u32, s: &mut AllocState) -> Option<&'static str> {
    if *n == 0 {
        let _ = s.record_dealloc(4, 4);
        Some("done")
    } else {
        let _ = s.record_alloc(4, 4);
        *n -= 1;
        None
    }
}

#[test]
fn counts_accumulate_over_steps() {
    let mut st = AllocState::new();
    let mut g = count_alloc_future(2u32);
    assert_eq!(g.poll_step(&mut st, step), Ok(None));
    assert_eq!(g.counts().counts(), (1, 0, 0));
    assert_eq!(g.poll_step(&mut st, step), Ok(None));
    let r = g.poll_step(&mut st, step);
    match r {
        Ok(Some((c, x))) => {
            assert_eq!(x, "done");
            assert_eq!(c.counts(), (2, 0, 1));
            assert_eq!(c.sizes(), (8, 0, 4));
        },
        _ => panic!("the work should be done"),
    }
}

#[test]
fn work_between_steps_is_not_counted() {
    let mut st = AllocState::new();
    let mut g = count_alloc_future(1u32);
    assert_eq!(g.poll_step(&mut st, step), Ok(None));
    // unrelated work on the same thread
    let _ = st.record_alloc(100, 8);
    let _ = st.record_alloc(100, 8);
    let r = g.poll_step(&mut st, step);
    assert_eq!(r.map(|o| o.map(|(c, _)| c.counts())), Ok(Some((1, 0, 1))));
    assert_eq!(st.counters.counts(), (3, 0, 1));
}

#[test]
fn guarded_step_raises_and_unrelated_work_does_not() {
    let mut st = AllocState::new();
    let mut g = guard_future(AllocMode::Count, 1u32);
    // the mode is in force during a step only
    let _ = st.record_alloc(100, 8);
    assert_eq!(st.mode, AllocMode::Ignore);
    let r = g.poll_step(&mut st, step);
    assert_eq!(r, Err(PolicyViolation { event: AllocEvent::Alloc { size: 4, align: 4 } }));
    assert_eq!(st.mode, AllocMode::Ignore);
    assert_eq!(g.counts().counts(), (1, 0, 0));
}

#[test]
fn guarded_work_that_does_not_allocate() {
    let mut st = AllocState::new();
    let mut g = guard_future(AllocMode::CountAll, 5u32);
    let r = g.poll_step(&mut st, |n: &mut u32, _s: &mut AllocState| Some(*n + 1));
    assert_eq!(r.map(|o| o.map(|(c, x)| (c.counts(), x))), Ok(Some(((0, 0, 0), 6))));
}

#[test]
fn measured_work_is_not_policed() {
    let mut st = AllocState::new();
    let mut g = count_alloc_future(0u32);
    let r = g.poll_step(&mut st, |_n: &mut u32, s: &mut AllocState| {
        let first = alloc_counter::deny_alloc(s, |s: &mut AllocState| s.record_alloc(4, 4));
        Some(first.is_err())
    });
    assert_eq!(r.map(|o| o.map(|(c, x)| (c.counts(), x))), Ok(Some(((1, 0, 0), true))));
}
