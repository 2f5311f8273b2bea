use pg_where_guard::policy::GuardError;
use pg_where_guard::query::{CommandKind, JoinTree, QueryTree};
use pg_where_guard::registry::Registry;

/// Runs one statement through the guard the way the host glue does and
/// returns the error, if any, and the interposers that were called.
fn run(g: &Registry<u32>, query: Option<&QueryTree>) -> (Option<GuardError>, Vec<u32>) {
    let mut called = Vec::new();
    match g.on_query_analyzed(query) {
        Ok(Some(prev)) => {
            called.push(prev);
            (None, called)
        }
        Ok(None) => (None, called),
        Err(e) => (Some(e), called),
    }
}

fn installed_over(prev: u32) -> Registry<u32> {
    let mut g = Registry::new();
    let mut hook = Some(prev);
    assert!(g.install(&mut hook, 99));
    assert_eq!(hook, Some(99));
    g
}

#[test]
fn enabled_by_default() {
    let g: Registry<u32> = Registry::new();
    assert!(g.is_enabled());
    assert!(!g.is_installed());
}

#[test]
fn delete_with_where_chains_once() {
    let g = installed_over(7);
    let q = QueryTree::new(CommandKind::Delete, JoinTree::Qualified);
    assert_eq!(run(&g, Some(&q)), (None, vec![7]));
}

#[test]
fn delete_without_where_skips_previous() {
    let g = installed_over(7);
    let q = QueryTree::new(CommandKind::Delete, JoinTree::Unqualified);
    let (err, called) = run(&g, Some(&q));
    assert_eq!(err, Some(GuardError::Unfiltered(CommandKind::Delete)));
    assert!(err.unwrap().message().contains("DELETE"));
    assert!(called.is_empty());
}

#[test]
fn update_without_where_skips_previous() {
    let g = installed_over(7);
    let q = QueryTree::new(CommandKind::Update, JoinTree::Unqualified);
    let (err, called) = run(&g, Some(&q));
    assert!(err.unwrap().message().contains("UPDATE"));
    assert!(called.is_empty());
}

#[test]
fn select_chains_once() {
    let g = installed_over(7);
    let q = QueryTree::new(CommandKind::Select, JoinTree::Unqualified);
    assert_eq!(run(&g, Some(&q)), (None, vec![7]));
}

#[test]
fn refused_cte_skips_previous() {
    let g = installed_over(7);
    let mut q = QueryTree::new(CommandKind::Select, JoinTree::Qualified);
    q.push_cte(Some(QueryTree::new(CommandKind::Delete, JoinTree::Unqualified)), true);
    let (err, called) = run(&g, Some(&q));
    assert_eq!(err, Some(GuardError::Unfiltered(CommandKind::Delete)));
    assert!(called.is_empty());
}

#[test]
fn disabled_guard_lets_delete_through() {
    let mut g = installed_over(7);
    g.set_enabled(false);
    assert!(!g.is_enabled());
    let q = QueryTree::new(CommandKind::Delete, JoinTree::Unqualified);
    assert_eq!(run(&g, Some(&q)), (None, vec![7]));
}

#[test]
fn reenabling_restores_decisions() {
    let mut g = installed_over(7);
    let bad = QueryTree::new(CommandKind::Update, JoinTree::Unqualified);
    let good = QueryTree::new(CommandKind::Update, JoinTree::Qualified);
    let before = (run(&g, Some(&bad)), run(&g, Some(&good)));
    g.set_enabled(false);
    assert_eq!(run(&g, Some(&bad)), (None, vec![7]));
    assert_eq!(run(&g, Some(&good)), (None, vec![7]));
    g.set_enabled(true);
    assert_eq!((run(&g, Some(&bad)), run(&g, Some(&good))), before);
    assert_eq!(before.0 .0, Some(GuardError::Unfiltered(CommandKind::Update)));
}

#[test]
fn absent_query_is_not_checked() {
    let g = installed_over(7);
    assert_eq!(run(&g, None), (None, vec![7]));
}

#[test]
fn nothing_to_chain_without_previous() {
    let mut g = Registry::new();
    let mut hook: Option<u32> = None;
    assert!(g.install(&mut hook, 99));
    let q = QueryTree::new(CommandKind::Delete, JoinTree::Qualified);
    assert_eq!(g.on_query_analyzed(Some(&q)), Ok(None));
}

#[test]
fn second_install_changes_nothing() {
    let mut g = installed_over(7);
    let mut hook = Some(99);
    assert!(!g.install(&mut hook, 99));
    assert_eq!(hook, Some(99));
    let q = QueryTree::new(CommandKind::Select, JoinTree::Qualified);
    assert_eq!(g.on_query_analyzed(Some(&q)), Ok(Some(7)));
}

#[test]
fn uninstall_restores_previous() {
    let mut g = installed_over(7);
    let mut hook = Some(99);
    g.uninstall(&mut hook);
    assert_eq!(hook, Some(7));
    assert!(!g.is_installed());
}

#[test]
fn uninstall_without_install_is_a_no_op() {
    let mut g: Registry<u32> = Registry::new();
    let mut hook = Some(5);
    g.uninstall(&mut hook);
    assert_eq!(hook, Some(5));
    assert!(!g.is_installed());
}
