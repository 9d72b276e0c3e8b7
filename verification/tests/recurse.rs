//! Behaviour of the registry and of the bounded-recursion combinator, run
//! against real proptest sampling.

use std::cell::Cell;

use proptest::strategy::{Just, Strategy, ValueTree};
use proptest::test_runner::TestRunner;
use proptest_recurse::recursive::branch_weights;
use proptest_recurse::strategy::Strat;
use proptest_recurse::{StrategySet, StrategyExt};

fn sample<T: std::fmt::Debug>(
    s: &proptest::strategy::SBoxedStrategy<T>,
    runner: &mut TestRunner,
) -> T {
    s.new_tree(runner).unwrap().current()
}

fn requires_send<T: Send>() {}

fn requires_sync<T: Sync>() {}

#[test]
fn strategy_set_send_sync() {
    requires_send::<StrategySet>();
    requires_sync::<StrategySet>();
}

#[derive(Clone, Debug)]
enum First {
    Zero,
    Second(Vec<Second>),
}

#[derive(Clone, Debug)]
enum Second {
    Zero,
    First(First),
}

fn first_depth(f: &First) -> u32 {
    match f {
        First::Zero => 0,
        First::Second(v) => 1 + v.iter().map(second_depth).max().unwrap_or(0),
    }
}

fn second_depth(s: &Second) -> u32 {
    match s {
        Second::Zero => 0,
        Second::First(f) => 1 + first_depth(f),
    }
}

fn arb_first(set: StrategySet) -> Strat<First> {
    Strat::from_boxed(Just(First::Zero).sboxed()).prop_mutually_recursive(
        5,
        32,
        8,
        &set,
        |mut s: StrategySet| {
            let second = s.get::<Second, _>(arb_second);
            Strat::from_boxed(
                proptest::collection::vec(second.into_boxed(), 0..8)
                    .prop_map(First::Second)
                    .sboxed(),
            )
        },
    )
}

fn arb_second(set: StrategySet) -> Strat<Second> {
    Strat::from_boxed(Just(Second::Zero).sboxed()).prop_mutually_recursive(
        3,
        32,
        1,
        &set,
        |mut s: StrategySet| {
            let first = s.get::<First, _>(arb_first);
            Strat::from_boxed(first.into_boxed().prop_map(Second::First).sboxed())
        },
    )
}

#[derive(Clone, Debug)]
enum Nest {
    End,
    More(Box<Nest>),
}

fn nest_depth(n: &Nest) -> u32 {
    match n {
        Nest::End => 0,
        Nest::More(inner) => 1 + nest_depth(inner),
    }
}

fn nest_base(_set: StrategySet) -> Strat<Nest> {
    Strat::from_boxed(Just(Nest::End).sboxed())
}

fn nest_step(mut set: StrategySet) -> Strat<Nest> {
    let inner = set.get::<Nest, _>(nest_base);
    Strat::from_boxed(
        inner
            .into_boxed()
            .prop_map(|n| Nest::More(Box::new(n)))
            .sboxed(),
    )
}

fn arb_nest(depth: u32, desired_size: u32, expected_branch_size: u32) -> Strat<Nest> {
    let set = StrategySet::default();
    Strat::from_boxed(Just(Nest::End).sboxed()).prop_mutually_recursive(
        depth,
        desired_size,
        expected_branch_size,
        &set,
        nest_step,
    )
}

#[test]
fn memoization_invokes_first_builder_only() {
    let mut set = StrategySet::default();
    let first_calls = Cell::new(0u32);
    let second_calls = Cell::new(0u32);
    let _a = set.get::<u32, _>(|_s: StrategySet| {
        first_calls.set(first_calls.get() + 1);
        Strat::from_boxed(Just(7u32).sboxed())
    });
    let b = set.get::<u32, _>(|_s: StrategySet| {
        second_calls.set(second_calls.get() + 1);
        Strat::from_boxed(Just(8u32).sboxed())
    });
    assert_eq!(first_calls.get(), 1);
    assert_eq!(second_calls.get(), 0);
    let mut runner = TestRunner::deterministic();
    let boxed = b.into_boxed();
    for _ in 0..10 {
        assert_eq!(sample(&boxed, &mut runner), 7);
    }
}

#[test]
fn builder_gets_snapshot_without_its_entry() {
    let mut set = StrategySet::default();
    let inner_calls = Cell::new(0u32);
    let _ = set.get::<u32, _>(|mut s: StrategySet| {
        s.get::<u32, _>(|_s2: StrategySet| {
            inner_calls.set(inner_calls.get() + 1);
            Strat::from_boxed(Just(1u32).sboxed())
        })
    });
    assert_eq!(inner_calls.get(), 1);
    let later_calls = Cell::new(0u32);
    let g = set.get::<u32, _>(|_s: StrategySet| {
        later_calls.set(later_calls.get() + 1);
        Strat::from_boxed(Just(2u32).sboxed())
    });
    assert_eq!(later_calls.get(), 0);
    let mut runner = TestRunner::deterministic();
    assert_eq!(sample(&g.into_boxed(), &mut runner), 1);
}

#[test]
fn clone_independence() {
    let mut original = StrategySet::default();
    let _ = original.get::<u8, _>(|_s: StrategySet| Strat::from_boxed(Just(1u8).sboxed()));
    let _ = original.get::<u16, _>(|_s: StrategySet| Strat::from_boxed(Just(2u16).sboxed()));
    let _ = original.get::<u32, _>(|_s: StrategySet| Strat::from_boxed(Just(3u32).sboxed()));
    let mut copy = original.clone();

    // The copy keeps showing what the original held before the clone.
    let kept = Cell::new(0u32);
    let _ = copy.get::<u8, _>(|_s: StrategySet| {
        kept.set(kept.get() + 1);
        Strat::from_boxed(Just(9u8).sboxed())
    });
    assert_eq!(kept.get(), 0);

    // A strategy stored in the copy stays invisible to the original.
    let _ = copy.get::<u64, _>(|_s: StrategySet| Strat::from_boxed(Just(4u64).sboxed()));
    let into_original = Cell::new(0u32);
    let _ = original.get::<u64, _>(|_s: StrategySet| {
        into_original.set(into_original.get() + 1);
        Strat::from_boxed(Just(5u64).sboxed())
    });
    assert_eq!(into_original.get(), 1);

    // A strategy stored in the original stays invisible to the copy.
    let _ = original.get::<i32, _>(|_s: StrategySet| Strat::from_boxed(Just(6i32).sboxed()));
    let into_copy = Cell::new(0u32);
    let _ = copy.get::<i32, _>(|_s: StrategySet| {
        into_copy.set(into_copy.get() + 1);
        Strat::from_boxed(Just(7i32).sboxed())
    });
    assert_eq!(into_copy.get(), 1);
}

#[test]
fn strategy_handle_clone_samples_same() {
    let s = Strat::from_boxed(Just(42u32).sboxed());
    let c = s.clone();
    let mut runner = TestRunner::deterministic();
    assert_eq!(sample(&c.into_boxed(), &mut runner), 42);
    assert_eq!(sample(&s.into_boxed(), &mut runner), 42);
}

#[test]
fn probability_clamp_weights() {
    let ws = branch_weights(50, u32::MAX, 1);
    assert_eq!(ws.len(), 50);
    for (branch, leaf) in ws {
        assert!(branch <= 900_000);
        assert!(leaf >= 100_000);
        assert_eq!(branch + leaf, 1_000_000);
    }
}

#[test]
fn branch_weights_exact_values() {
    let ws = branch_weights(3, 32, 8);
    assert_eq!(ws, vec![(900_000, 100_000), (125_000, 875_000), (7_813, 992_187)]);
}

#[test]
fn branch_weights_degenerate_values() {
    for (branch, leaf) in branch_weights(4, 0, 5) {
        assert_eq!(branch, 0);
        assert_eq!(leaf, 1_000_000);
    }
    for (branch, leaf) in branch_weights(4, 32, 0) {
        assert_eq!(branch, 0);
        assert_eq!(leaf, 1_000_000);
    }
}

#[test]
fn probability_clamp_leaf_still_sampled() {
    // Even with the largest size hint the depth bound holds.
    let deep = arb_nest(12, u32::MAX, 1).into_boxed();
    let mut runner = TestRunner::deterministic();
    for _ in 0..200 {
        assert!(nest_depth(&sample(&deep, &mut runner)) <= 12);
    }
    // With the branch probability clamped to nine tenths, a single layer
    // still yields its terminal alternative about a tenth of the time.
    let shallow = arb_nest(1, u32::MAX, 1).into_boxed();
    let mut saw_end = false;
    let mut saw_more = false;
    for _ in 0..400 {
        match sample(&shallow, &mut runner) {
            Nest::End => saw_end = true,
            Nest::More(_) => saw_more = true,
        }
    }
    assert!(saw_end);
    assert!(saw_more);
}

#[test]
fn zero_depth_yields_base_only() {
    let boxed = arb_nest(0, 1000, 8).into_boxed();
    let mut runner = TestRunner::deterministic();
    for _ in 0..100 {
        assert_eq!(nest_depth(&sample(&boxed, &mut runner)), 0);
    }
}

#[test]
fn zero_size_yields_base_only() {
    let boxed = arb_nest(5, 0, 8).into_boxed();
    let mut runner = TestRunner::deterministic();
    for _ in 0..100 {
        assert_eq!(nest_depth(&sample(&boxed, &mut runner)), 0);
    }
}

#[test]
fn zero_branch_factor_yields_base_only() {
    let boxed = arb_nest(5, 1000, 0).into_boxed();
    let mut runner = TestRunner::deterministic();
    for _ in 0..100 {
        assert_eq!(nest_depth(&sample(&boxed, &mut runner)), 0);
    }
}

#[test]
fn depth_bound_mutual() {
    let first = arb_first(StrategySet::default()).into_boxed();
    let mut runner = TestRunner::deterministic();
    for _ in 0..1000 {
        let value = sample(&first, &mut runner);
        assert!(first_depth(&value) <= 8);
    }
}

#[test]
fn reachability_mutual() {
    let first = arb_first(StrategySet::default()).into_boxed();
    let second = arb_second(StrategySet::default()).into_boxed();
    let mut runner = TestRunner::deterministic();
    let mut first_recursed = false;
    for _ in 0..1000 {
        if matches!(sample(&first, &mut runner), First::Second(_)) {
            first_recursed = true;
        }
    }
    let mut second_recursed = false;
    for _ in 0..1000 {
        if matches!(sample(&second, &mut runner), Second::First(_)) {
            second_recursed = true;
        }
    }
    assert!(first_recursed);
    assert!(second_recursed);
}
