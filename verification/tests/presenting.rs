use oxidoc::presenter::{no_results, select, Action, Event, Session, Stage, MAX_RESULTS};

fn resolve_all(count: usize) -> (Session, Vec<Action>) {
    let mut actions = Vec::new();
    let (mut session, first) = Session::new("foo").step(Event::Candidates(count));
    let mut pending = first;
    while let Some(action) = pending {
        actions.push(action.clone());
        match action {
            Action::Resolve(position) => {
                let (after, then) = session.step(Event::Rendered(format!("entry {}", position)));
                session = after;
                pending = then;
            }
            _ => {
                pending = None;
            }
        }
    }
    (session, actions)
}

#[test]
fn no_candidates_reports_and_finishes() {
    let session = Session::new("foo");
    assert_eq!(session.stage(), Stage::Searching);
    let (session, action) = session.step(Event::Candidates(0));
    assert_eq!(action, Some(Action::Report("No results for \"foo\".".to_string())));
    assert_eq!(session.stage(), Stage::Finished);
    let (session, action) = session.step(Event::Rendered("late".to_string()));
    assert_eq!(action, None);
    let (session, action) = session.step(Event::Candidates(3));
    assert_eq!(action, None);
    assert_eq!(session.stage(), Stage::Finished);
}

#[test]
fn eleven_candidates_show_the_first_ten_in_order() {
    let (session, actions) = resolve_all(11);
    let mut expected: Vec<Action> = (0..10).map(Action::Resolve).collect();
    expected.push(Action::Page((0..10).map(|i| format!("entry {}", i)).collect()));
    assert_eq!(actions, expected);
    assert_eq!(session.stage(), Stage::Finished);
}

#[test]
fn ten_candidates_are_all_shown() {
    let (_, actions) = resolve_all(10);
    assert_eq!(actions.len(), 11);
    assert_eq!(
        actions.last(),
        Some(&Action::Page((0..10).map(|i| format!("entry {}", i)).collect()))
    );
}

#[test]
fn one_candidate_is_paged_alone() {
    let (session, actions) = resolve_all(1);
    assert_eq!(
        actions,
        vec![Action::Resolve(0), Action::Page(vec!["entry 0".to_string()])]
    );
    assert_eq!(session.stage(), Stage::Finished);
}

#[test]
fn three_candidates_in_store_order() {
    let (_, actions) = resolve_all(3);
    assert_eq!(
        actions,
        vec![
            Action::Resolve(0),
            Action::Resolve(1),
            Action::Resolve(2),
            Action::Page(vec![
                "entry 0".to_string(),
                "entry 1".to_string(),
                "entry 2".to_string()
            ]),
        ]
    );
}

#[test]
fn unresolved_entry_aborts_the_query() {
    let (session, action) = Session::new("foo").step(Event::Candidates(3));
    assert_eq!(action, Some(Action::Resolve(0)));
    assert_eq!(session.stage(), Stage::Resolving);
    let (session, action) = session.step(Event::Rendered("first".to_string()));
    assert_eq!(action, Some(Action::Resolve(1)));
    let (session, action) = session.step(Event::Unresolved);
    assert_eq!(action, Some(Action::Abort));
    assert_eq!(session.stage(), Stage::Finished);
    let (_, action) = session.step(Event::Rendered("second".to_string()));
    assert_eq!(action, None);
}

#[test]
fn events_out_of_turn_change_nothing() {
    let (session, action) = Session::new("foo").step(Event::Rendered("early".to_string()));
    assert_eq!(action, None);
    assert_eq!(session.stage(), Stage::Searching);
    let (session, action) = session.step(Event::Unresolved);
    assert_eq!(action, None);
    assert_eq!(session.stage(), Stage::Searching);
    let (session, action) = session.step(Event::Candidates(2));
    assert_eq!(action, Some(Action::Resolve(0)));
    let (session, action) = session.step(Event::Candidates(5));
    assert_eq!(action, None);
    assert_eq!(session.stage(), Stage::Resolving);
    let (session, action) = session.step(Event::Rendered("a".to_string()));
    assert_eq!(action, Some(Action::Resolve(1)));
    let (_, action) = session.step(Event::Rendered("b".to_string()));
    assert_eq!(action, Some(Action::Page(vec!["a".to_string(), "b".to_string()])));
}

#[test]
fn selection_is_capped_at_ten() {
    assert_eq!(MAX_RESULTS, 10);
    assert_eq!(select(0), 0);
    assert_eq!(select(9), 9);
    assert_eq!(select(10), 10);
    assert_eq!(select(11), 10);
    assert_eq!(select(usize::MAX), 10);
}

#[test]
fn no_results_message_quotes_the_query() {
    assert_eq!(no_results("foo"), "No results for \"foo\".");
    assert_eq!(no_results(""), "No results for \"\".");
    assert_eq!(no_results("a b"), "No results for \"a b\".");
}
