use clusterctl::playbook::{AnsibleAggregatePlaybook, AnsiblePlaybook, BatchEvent, BatchShape, BatchStep, PlaybookRun};
use clusterctl::settings::{ClusterSettings, GenericCommand, SubCommand};

fn settings(verbose: u64, inventory: Option<&str>) -> ClusterSettings {
    ClusterSettings {
        inventory: inventory.map(|s| s.to_string()),
        verbose,
        host_pattern: None,
        subcommand: SubCommand::Ping(GenericCommand),
    }
}

fn batch(texts: &[&str]) -> AnsibleAggregatePlaybook {
    let mut b = AnsibleAggregatePlaybook::new();
    for t in texts {
        b.add_playbook(AnsiblePlaybook::load(t));
    }
    b
}

fn strings(items: &[&str]) -> Vec<String> {
    items.iter().map(|s| s.to_string()).collect()
}

fn materialize(index: usize, contents: &str) -> BatchStep {
    BatchStep::Materialize { index, contents: contents.to_string() }
}

fn invoke(args: &[&str]) -> BatchStep {
    BatchStep::Invoke { arguments: strings(args) }
}

#[test]
fn sequential_failure_stops_the_batch() {
    let (mut run, step) = PlaybookRun::start(&batch(&["A", "B"]), &settings(0, None), BatchShape::Sequential);
    assert_eq!(step, materialize(0, "A"));
    let step = run.advance(BatchEvent::Materialized("/tmp/a.yml".to_string()));
    assert_eq!(step, invoke(&["-K", "/tmp/a.yml"]));
    let step = run.advance(BatchEvent::Exited(false));
    assert_eq!(step, BatchStep::Finished { success: false });
    assert!(run.is_finished());
    assert_eq!(run.advance(BatchEvent::Materialized("/tmp/b.yml".to_string())), BatchStep::Finished { success: false });
    assert_eq!(run.advance(BatchEvent::Exited(true)), BatchStep::Finished { success: false });
}

#[test]
fn sequential_runs_each_playbook_in_order() {
    let s = settings(1, Some("hosts.ini"));
    let (mut run, step) = PlaybookRun::start(&batch(&["A", "B"]), &s, BatchShape::Sequential);
    assert_eq!(step, materialize(0, "A"));
    assert_eq!(
        run.advance(BatchEvent::Materialized("/tmp/a".to_string())),
        invoke(&["-v", "-K", "--inventory", "hosts.ini", "/tmp/a"])
    );
    assert_eq!(run.advance(BatchEvent::Exited(true)), materialize(1, "B"));
    assert_eq!(
        run.advance(BatchEvent::Materialized("/tmp/b".to_string())),
        invoke(&["-v", "-K", "--inventory", "hosts.ini", "/tmp/b"])
    );
    assert_eq!(run.advance(BatchEvent::Exited(true)), BatchStep::Finished { success: true });
}

#[test]
fn sequential_failure_of_a_later_playbook() {
    let (mut run, _) = PlaybookRun::start(&batch(&["A", "B", "C"]), &settings(0, None), BatchShape::Sequential);
    run.advance(BatchEvent::Materialized("/a".to_string()));
    run.advance(BatchEvent::Exited(true));
    run.advance(BatchEvent::Materialized("/b".to_string()));
    assert_eq!(run.advance(BatchEvent::Exited(false)), BatchStep::Finished { success: false });
}

#[test]
fn combined_runs_once_with_every_path() {
    let (mut run, step) = PlaybookRun::start(&batch(&["A", "B", "C"]), &settings(0, Some("inv")), BatchShape::Combined);
    assert_eq!(step, materialize(0, "A"));
    assert_eq!(run.advance(BatchEvent::Materialized("/tmp/first".to_string())), materialize(1, "B"));
    assert_eq!(run.advance(BatchEvent::Materialized("/tmp/second".to_string())), materialize(2, "C"));
    assert_eq!(
        run.advance(BatchEvent::Materialized("/tmp/third".to_string())),
        invoke(&["-K", "--inventory", "inv", "/tmp/first", "/tmp/second", "/tmp/third"])
    );
    assert_eq!(run.advance(BatchEvent::Exited(false)), BatchStep::Finished { success: false });
}

#[test]
fn combined_outcome_is_the_single_run() {
    let (mut run, _) = PlaybookRun::start(&batch(&["only"]), &settings(4, None), BatchShape::Combined);
    assert_eq!(run.advance(BatchEvent::Materialized("/x".to_string())), invoke(&["-vvvv", "-K", "/x"]));
    assert_eq!(run.advance(BatchEvent::Exited(true)), BatchStep::Finished { success: true });
}

#[test]
fn events_out_of_turn_change_nothing() {
    let (mut run, _) = PlaybookRun::start(&batch(&["A"]), &settings(0, None), BatchShape::Sequential);
    assert_eq!(run.advance(BatchEvent::Exited(false)), materialize(0, "A"));
    assert_eq!(run.advance(BatchEvent::Materialized("/a".to_string())), invoke(&["-K", "/a"]));
    assert_eq!(run.advance(BatchEvent::Materialized("/again".to_string())), invoke(&["-K", "/a"]));
}

#[test]
fn empty_batches() {
    let (_, step) = PlaybookRun::start(&batch(&[]), &settings(0, None), BatchShape::Sequential);
    assert_eq!(step, BatchStep::Finished { success: true });
    let (_, step) = PlaybookRun::start(&batch(&[]), &settings(0, None), BatchShape::Combined);
    assert_eq!(step, invoke(&["-K"]));
}
