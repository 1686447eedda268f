use band_aid::{
    drain, unify_cond2, unify_cond3, unify_match2, unify_match3, EmptyProducer, MyIter,
    OnceProducer, UnmatchedScrutinee, VecProducer,
};

#[derive(Clone, Copy)]
enum F {
    A,
    B,
    C(i32),
}

fn mk_iter(foo: i32) -> MyIter<VecProducer<i32>, MyIter<OnceProducer<i32>, EmptyProducer<i32>>> {
    unify_cond2(
        foo < 0,
        VecProducer::new(vec![1, 2, 3]),
        foo < 2,
        OnceProducer::new(4),
        EmptyProducer::new(),
    )
}

fn mk_match_iter(
    foo: F,
) -> Result<
    MyIter<VecProducer<i32>, MyIter<EmptyProducer<i32>, OnceProducer<i32>>>,
    UnmatchedScrutinee,
> {
    let bound = match foo {
        F::C(n) => n,
        _ => 0,
    };
    unify_match3(
        matches!(foo, F::A),
        VecProducer::new(vec![1, 2, 3]),
        matches!(foo, F::B),
        EmptyProducer::new(),
        matches!(foo, F::C(_)),
        OnceProducer::new(bound),
    )
}

#[test]
fn if_else_expr() {
    assert_eq!(vec![4], drain(mk_iter(1)));
}

#[test]
fn match_expr() {
    let foo = F::C(4);
    assert_eq!(vec![4], drain(mk_match_iter(foo).unwrap()));
}

#[test]
fn first_true_wins() {
    // Both conditions hold: the leftmost arm is selected, and draining the
    // unified value gives the same elements as draining that arm directly.
    let unified = unify_cond2(
        true,
        VecProducer::new(vec![10, 20]),
        true,
        OnceProducer::new(99),
        EmptyProducer::new(),
    );
    assert_eq!(drain(VecProducer::new(vec![10, 20])), drain(unified));
}

#[test]
fn else_arm_when_no_condition_holds() {
    // Scenario: both conditions false drains to the empty else arm.
    assert_eq!(Vec::<i32>::new(), drain(mk_iter(7)));
}

#[test]
fn second_condition_selects_second_arm() {
    let unified = unify_cond2(
        false,
        VecProducer::new(vec![1, 2, 3]),
        true,
        OnceProducer::new(4),
        EmptyProducer::new(),
    );
    assert_eq!(vec![4], drain(unified));
}

#[test]
fn first_condition_selects_first_arm() {
    assert_eq!(vec![1, 2, 3], drain(mk_iter(-1)));
}

#[test]
fn match_first_arm() {
    assert_eq!(vec![1, 2, 3], drain(mk_match_iter(F::A).unwrap()));
}

#[test]
fn match_second_arm_is_empty() {
    assert_eq!(Vec::<i32>::new(), drain(mk_match_iter(F::B).unwrap()));
}

#[test]
fn unmatched_scrutinee_is_fatal_not_exhaustion() {
    // A scrutinee matching no declared arm reaches the impossible state: an
    // explicit error value, distinct from a producer that drains to nothing.
    let r = unify_match2(
        false,
        VecProducer::new(vec![1, 2, 3]),
        false,
        OnceProducer::new(4),
    );
    assert!(matches!(r, Err(UnmatchedScrutinee)));
    let r3 = mk_match_iter(F::C(0));
    assert!(r3.is_ok());
}

#[test]
fn unmatched_scrutinee_three_arms() {
    let r = unify_match3(
        false,
        VecProducer::new(vec![1]),
        false,
        EmptyProducer::new(),
        false,
        OnceProducer::new(2),
    );
    assert!(matches!(r, Err(UnmatchedScrutinee)));
}

#[test]
fn same_site_twice_is_deterministic() {
    // Two invocations with the same condition values and equivalent arms
    // yield sequences with identical element order and length.
    let first = drain(mk_iter(1));
    let second = drain(mk_iter(1));
    assert_eq!(first, second);
    let third = drain(mk_match_iter(F::C(4)).unwrap());
    let fourth = drain(mk_match_iter(F::C(4)).unwrap());
    assert_eq!(third, fourth);
}

#[test]
fn exhaustion_through_deep_nesting() {
    // Three conditioned arms plus the else arm: four levels of nesting. For
    // every selection, draining ends after exactly the selected arm's count.
    for (c0, c1, c2, expect) in [
        (true, false, false, vec![1, 2, 3]),
        (false, true, false, vec![4]),
        (false, false, true, vec![5, 6]),
        (false, false, false, vec![]),
    ] {
        let unified = unify_cond3(
            c0,
            VecProducer::new(vec![1, 2, 3]),
            c1,
            OnceProducer::new(4),
            c2,
            VecProducer::new(vec![5, 6]),
            EmptyProducer::new(),
        );
        let drained = drain(unified);
        assert_eq!(expect.len(), drained.len());
        assert_eq!(expect, drained);
    }
}

#[test]
fn exactly_one_arm_expression_evaluated() {
    // With the deferred form, selecting an arm runs that arm's expression and
    // no other, whatever the later conditions say.
    let evaluated: std::cell::Cell<u32> = std::cell::Cell::new(0);
    let unified = band_aid::unify_cond2_deferred(
        false,
        || {
            evaluated.set(evaluated.get() + 1);
            VecProducer::new(vec![1, 2, 3])
        },
        true,
        || {
            evaluated.set(evaluated.get() + 1);
            OnceProducer::new(4)
        },
        || {
            evaluated.set(evaluated.get() + 1);
            EmptyProducer::new()
        },
    );
    assert_eq!(1, evaluated.get());
    assert_eq!(vec![4], drain(unified));
}

#[test]
fn deferred_base_case_selects_else() {
    let unified = band_aid::unify_cond1_deferred(
        false,
        || OnceProducer::new(1),
        || VecProducer::new(vec![2, 3]),
    );
    assert_eq!(vec![2, 3], drain(unified));
}

#[test]
fn hand_expansion_agrees_with_builder() {
    // The builders emit exactly the right-nested chain the rewrite describes:
    // writing that chain out by hand gives the same drained sequence.
    let foo = 1;
    let by_hand = if foo < 0 {
        MyIter::A(VecProducer::new(vec![1, 2, 3]))
    } else {
        MyIter::B(if foo < 2 {
            MyIter::A(OnceProducer::new(4))
        } else {
            MyIter::B(EmptyProducer::new())
        })
    };
    assert_eq!(drain(by_hand), drain(mk_iter(foo)));
}
