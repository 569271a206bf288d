use mock_traffic::generator::mainnet_size_classes;
use mock_traffic::planner::{intra_period_delay_micros, period_overrun, plan_batch, PeriodPlan};

#[test]
fn scenario_mainnet_budget_30000() {
    let table = mainnet_size_classes();
    let plan = plan_batch(30000, &table);
    assert_eq!(plan, vec![0, 8, 8, 165, 165, 165, 165, 11099, 11099]);
    let total: u64 = plan.iter().sum();
    assert_eq!(total, 22874);
    assert!(total <= 30000);
    let next = table[plan.len() % table.len()];
    assert!(total + next > 30000);
}

#[test]
fn plan_is_empty_when_smallest_class_exceeds_budget() {
    let table = vec![500, 700];
    let plan = plan_batch(400, &table);
    assert!(plan.is_empty());
}

#[test]
fn plan_wraps_around_the_table() {
    let table = vec![10];
    let plan = plan_batch(30, &table);
    assert_eq!(plan, vec![10, 10, 10]);
}

#[test]
fn plan_with_zero_budget_takes_only_empty_classes() {
    let table = vec![0, 5];
    let plan = plan_batch(0, &table);
    assert_eq!(plan, vec![0]);
}

#[test]
fn intra_period_delay_divides_evenly() {
    assert_eq!(intra_period_delay_micros(350_000, 7), 50_000);
    assert_eq!(intra_period_delay_micros(350_000, 0), 0);
}

#[test]
fn period_plan_offsets_stay_inside_the_period() {
    let table = mainnet_size_classes();
    let plan = PeriodPlan::new(30000, &table, 350_000);
    assert_eq!(plan.sizes.len(), 9);
    assert_eq!(plan.delay_micros, 350_000 / 9);
    let mut last = 0;
    for i in 0..plan.sizes.len() {
        let offset = plan.offset_micros(i);
        assert!(offset >= last);
        assert!(offset <= 350_000);
        last = offset;
    }
    assert_eq!(plan.offset_micros(8), 8 * (350_000 / 9));
}

#[test]
fn overrun_is_detected_only_past_the_period() {
    assert!(!period_overrun(350_000, 350_000));
    assert!(period_overrun(350_001, 350_000));
}

#[test]
fn period_plan_of_empty_batch_needs_no_schedule() {
    let table = vec![1000];
    let plan = PeriodPlan::new(500, &table, 350_000);
    assert!(plan.sizes.is_empty());
    assert_eq!(plan.delay_micros, 0);
}
