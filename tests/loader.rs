use polykit::loader::{step, Action, Outcome, Stage};

fn run(outcomes: &[Outcome]) -> Vec<Action> {
    let mut stage = Stage::Open;
    let mut actions = Vec::new();
    for o in outcomes.iter() {
        let (next, action) = step(stage, *o);
        actions.push(action);
        stage = next;
        if stage == Stage::Done {
            break;
        }
    }
    actions
}

#[test]
fn absent_resource_is_created_then_read() {
    let actions = run(&[Outcome::NotFound, Outcome::Succeeded, Outcome::Succeeded]);
    assert_eq!(actions, vec![Action::Create, Action::Read, Action::Deliver]);
}

#[test]
fn present_resource_is_read() {
    let actions = run(&[Outcome::Succeeded, Outcome::Succeeded]);
    assert_eq!(actions, vec![Action::Read, Action::Deliver]);
}

#[test]
fn read_failure_is_recoverable() {
    let actions = run(&[Outcome::Succeeded, Outcome::Failed]);
    assert_eq!(actions, vec![Action::Read, Action::Propagate]);
    assert_eq!(step(Stage::Read, Outcome::NotFound), (Stage::Done, Action::Propagate));
}

#[test]
fn other_open_failure_is_fatal() {
    assert_eq!(step(Stage::Open, Outcome::Failed), (Stage::Done, Action::AbortOpen));
}

#[test]
fn create_failure_is_fatal() {
    let actions = run(&[Outcome::NotFound, Outcome::Failed]);
    assert_eq!(actions, vec![Action::Create, Action::AbortCreate]);
    assert_eq!(step(Stage::Create, Outcome::NotFound), (Stage::Done, Action::AbortCreate));
}
