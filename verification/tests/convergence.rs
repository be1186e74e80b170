use liglicko2::{ConvergenceError, IterationBudget};

#[test]
fn a_budget_allows_as_many_steps_as_it_holds() {
    let mut budget = IterationBudget::new(3);
    assert_eq!(budget.iterations(), 0);
    assert!(budget.step().is_ok());
    assert!(budget.step().is_ok());
    assert_eq!(budget.iterations(), 2);
    assert!(budget.step().is_ok());
    assert_eq!(budget.iterations(), 3);
    assert!(budget.step().is_err());
    assert_eq!(budget.iterations(), 3);
    assert!(budget.step().is_err());
    assert_eq!(budget.iterations(), 3);
}

#[test]
fn an_empty_budget_allows_no_step() {
    let mut budget = IterationBudget::new(0);
    assert!(budget.step().is_err());
    assert_eq!(budget.iterations(), 0);
}

#[test]
fn a_budget_of_a_thousand_fails_at_the_next_step() {
    let mut budget = IterationBudget::new(1000);
    for _ in 0..1000 {
        assert!(budget.step().is_ok());
    }
    assert!(budget.step().is_err());
    assert_eq!(budget.iterations(), 1000);
}

#[test]
fn the_error_says_what_failed() {
    let error: ConvergenceError = IterationBudget::new(0).step().unwrap_err();
    assert_eq!(error.to_string(), "failed to converge");
    assert_eq!(error.clone().to_string(), "failed to converge");
    assert!(format!("{error:?}").contains("ConvergenceError"));
}
