use live_wgsl::swap::HotSwap;

#[test]
fn new_swap_is_stable_on_the_initial_program() {
    let swap = HotSwap::new(7u32);
    assert_eq!(*swap.active(), 7);
    assert_eq!(*swap.on_trial(), 7);
    assert!(swap.is_confirmed());
}

#[test]
fn rejected_build_changes_nothing_and_returns_the_error() {
    let mut swap = HotSwap::new(1u32);
    let outcome = swap.stage(Err::<u32, &str>("no entry point"));
    assert_eq!(outcome, Err("no entry point"));
    assert_eq!(*swap.active(), 1);
    assert!(swap.is_confirmed());
}

#[test]
fn accepted_build_waits_as_candidate() {
    let mut swap = HotSwap::new(1u32);
    assert_eq!(swap.stage(Ok::<u32, &str>(2)), Ok(()));
    assert_eq!(*swap.active(), 1);
    assert_eq!(*swap.on_trial(), 2);
    assert!(!swap.is_confirmed());
}

#[test]
fn passing_trial_promotes_the_candidate() {
    let mut swap = HotSwap::new(1u32);
    swap.stage(Ok::<u32, &str>(2)).unwrap();
    assert_eq!(swap.settle(None::<&str>), Ok(()));
    assert_eq!(*swap.active(), 2);
    assert!(swap.is_confirmed());
}

#[test]
fn failing_trial_keeps_the_fallback_and_the_candidate() {
    let mut swap = HotSwap::new(1u32);
    swap.stage(Ok::<u32, &str>(2)).unwrap();
    assert_eq!(swap.settle(Some("draw failed")), Err("draw failed"));
    assert_eq!(*swap.active(), 1);
    assert_eq!(*swap.on_trial(), 2);
    assert!(!swap.is_confirmed());
}

#[test]
fn trial_without_candidate_keeps_the_active_program() {
    let mut swap = HotSwap::new(1u32);
    assert_eq!(swap.settle(None::<&str>), Ok(()));
    assert_eq!(*swap.active(), 1);
    assert_eq!(swap.settle(Some("lost")), Err("lost"));
    assert_eq!(*swap.active(), 1);
    assert!(swap.is_confirmed());
}

#[test]
fn second_reload_never_falls_back_to_an_unconfirmed_candidate() {
    let mut swap = HotSwap::new(1u32);
    swap.stage(Ok::<u32, &str>(2)).unwrap();
    // 2 was never drawn; a further reload must keep 1 as the fallback.
    swap.stage(Ok::<u32, &str>(3)).unwrap();
    assert_eq!(*swap.active(), 1);
    assert_eq!(*swap.on_trial(), 3);
    assert_eq!(swap.settle(Some("3 fails to draw")), Err("3 fails to draw"));
    assert_eq!(*swap.active(), 1);
    // A rejected build leaves the pending candidate where it was.
    assert_eq!(swap.stage(Err::<u32, &str>("4 is broken")), Err("4 is broken"));
    assert_eq!(*swap.on_trial(), 3);
    assert_eq!(*swap.active(), 1);
}

#[test]
fn valid_source_after_a_failure_is_adopted() {
    let mut swap = HotSwap::new(0u32);
    assert!(swap.stage(Err::<u32, &str>("S1 is broken")).is_err());
    assert_eq!(*swap.active(), 0);
    swap.stage(Ok::<u32, &str>(2)).unwrap();
    swap.settle(None::<&str>).unwrap();
    assert_eq!(*swap.active(), 2);
    assert!(swap.is_confirmed());
}

#[test]
fn same_program_twice_is_adopted_twice() {
    let mut swap = HotSwap::new(0u32);
    for _ in 0..2 {
        swap.stage(Ok::<u32, &str>(5)).unwrap();
        swap.settle(None::<&str>).unwrap();
        assert_eq!(*swap.active(), 5);
        assert!(swap.is_confirmed());
    }
}

#[test]
fn active_program_is_always_a_confirmed_one() {
    // Builds 10, 11, 12, ... with every third rejected and every other
    // trial failing; the active program must be 0 or a program whose trial
    // passed.
    let mut swap = HotSwap::new(0u32);
    let mut confirmed = vec![0u32];
    for round in 0..40u32 {
        let program = 10 + round;
        let built = if round % 3 == 0 { Err("rejected") } else { Ok(program) };
        let staged = swap.stage(built).is_ok();
        assert!(confirmed.contains(swap.active()));
        if round % 2 == 0 {
            let fault = if round % 4 == 0 { Some("draw failed") } else { None };
            let on_trial = *swap.on_trial();
            if swap.settle(fault).is_ok() {
                confirmed.push(on_trial);
                assert_eq!(*swap.active(), on_trial);
            }
        }
        assert!(confirmed.contains(swap.active()));
        assert!(staged || round % 3 == 0);
    }
    assert!(*swap.active() >= 10);
}

#[test]
fn frame_hands_the_active_program_to_the_draw() {
    let mut swap = HotSwap::new(1u32);
    assert_eq!(swap.frame(|program| *program * 10), 10);
    swap.stage(Ok::<u32, &str>(2)).unwrap();
    // A candidate is pending: ordinary frames still get the active program.
    assert_eq!(swap.frame(|program| *program * 10), 10);
    swap.settle(None::<&str>).unwrap();
    assert_eq!(swap.frame(|program| *program * 10), 20);
}

#[test]
fn trial_hands_the_program_on_trial_to_the_draw() {
    let mut swap = HotSwap::new(1u32);
    swap.stage(Ok::<u32, &str>(2)).unwrap();
    let (drawn, outcome) = swap.trial(|program| (*program, Some("draw failed")));
    assert_eq!(drawn, 2);
    assert_eq!(outcome, Err("draw failed"));
    assert_eq!(*swap.active(), 1);
    assert!(!swap.is_confirmed());
    let (drawn, outcome) = swap.trial(|program| (*program, None::<&str>));
    assert_eq!(drawn, 2);
    assert_eq!(outcome, Ok(()));
    assert_eq!(*swap.active(), 2);
    assert!(swap.is_confirmed());
    // Without a candidate the trial draws the active program.
    let (drawn, outcome) = swap.trial(|program| (*program, None::<&str>));
    assert_eq!(drawn, 2);
    assert_eq!(outcome, Ok(()));
    assert_eq!(*swap.active(), 2);
}
