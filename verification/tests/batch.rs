use terrabad::auth::Session;
use terrabad::batch::{clone_name, Batch, BatchOperation, Naming};
use terrabad::model::{CloneMode, ConfigError, Operation, Target};
use terrabad::pipeline::Phase;

fn session() -> Session {
    Session { ticket: "T".to_string(), csrf: "C".to_string() }
}

fn clones(prefix: &str, min: i32, max: i32) -> Batch {
    let op = BatchOperation::Clone {
        source: 9000,
        mode: CloneMode::Linked,
        naming: Naming::indexed_by(prefix),
    };
    Batch::new("https://pve:8006/", "pve1", min, max, 2, op).unwrap()
}

#[test]
fn clone_names_count_from_zero_in_range_order() {
    assert_eq!(clone_name("web", 100, 100), "web0");
    assert_eq!(clone_name("web", 101, 100), "web1");
    assert_eq!(clone_name("web", 102, 100), "web2");
    assert_eq!(clone_name("web", 103, 100), "web3");
}

#[test]
fn clone_names_cover_the_widest_range() {
    assert_eq!(clone_name("n", i32::MAX, i32::MIN), "n4294967295");
    assert_eq!(clone_name("", 10, 0), "10");
    assert_eq!(clone_name("vm-", -1, -12), "vm-11");
}

#[test]
fn batch_names_each_clone_by_its_place() {
    let batch = clones("web", 100, 103);
    let expected = ["web0", "web1", "web2", "web3"];
    for (offset, name) in expected.iter().enumerate() {
        let id = 100 + offset as i32;
        let pipeline = batch.pipeline_for(&session(), id).unwrap();
        assert_eq!(pipeline.target, Target { node: "pve1".to_string(), id });
        assert_eq!(
            pipeline.op,
            Operation::Clone { source: 9000, mode: CloneMode::Linked, name: Some(name.to_string()) }
        );
        assert_eq!(pipeline.base, "https://pve:8006");
        assert_eq!(pipeline.session, session());
        assert_eq!(pipeline.phase, Phase::Idle);
    }
}

#[test]
fn batch_without_prefix_sends_no_name() {
    let batch = clones("", 100, 101);
    let pipeline = batch.pipeline_for(&session(), 101).unwrap();
    assert_eq!(pipeline.op, Operation::Clone { source: 9000, mode: CloneMode::Linked, name: None });
}

#[test]
fn naming_tells_prefix_from_exact_name() {
    assert_eq!(Naming::indexed_by(""), Naming::Unnamed);
    assert_eq!(Naming::exactly(""), Naming::Unnamed);
    assert_eq!(Naming::indexed_by("a"), Naming::Indexed("a".to_string()));
    assert_eq!(Naming::exactly("a"), Naming::Exact("a".to_string()));
    assert_eq!(Naming::Unnamed.name_at(3), None);
    assert_eq!(Naming::Exact("db".to_string()).name_at(3), Some("db".to_string()));
    assert_eq!(Naming::Indexed("db".to_string()).name_at(3), Some("db3".to_string()));
    assert_eq!(Naming::Indexed("db".to_string()).name_at(0), Some("db0".to_string()));
}

#[test]
fn batch_has_no_pipeline_outside_its_range() {
    let batch = clones("web", 100, 103);
    assert_eq!(batch.pipeline_for(&session(), 99), None);
    assert_eq!(batch.pipeline_for(&session(), 104), None);
    assert!(batch.pipeline_for(&session(), 100).is_some());
    assert!(batch.pipeline_for(&session(), 103).is_some());
}

#[test]
fn batch_refuses_bad_ranges_before_workers() {
    assert_eq!(Batch::new("u", "n", 2, 1, 0, BatchOperation::Destroy), Err(ConfigError::InvalidRange));
    assert_eq!(Batch::new("u", "n", 2, 1, 4, BatchOperation::Destroy), Err(ConfigError::InvalidRange));
    assert_eq!(Batch::new("u", "n", 1, 1, 0, BatchOperation::Destroy), Err(ConfigError::NoWorkers));
    assert!(Batch::new("u", "n", 1, 1, 1, BatchOperation::Destroy).is_ok());
}

#[test]
fn batch_operation_for_other_kinds_ignores_the_place() {
    assert_eq!(BatchOperation::Destroy.at(5), Operation::Destroy);
    assert_eq!(BatchOperation::Start.at(5), Operation::Start);
    assert_eq!(BatchOperation::Stop.at(5), Operation::Stop);
}

#[test]
fn batch_dispatcher_starts_empty() {
    let batch = clones("web", 100, 103);
    let dispatcher = batch.dispatcher();
    assert_eq!(dispatcher.min(), 100);
    assert_eq!(dispatcher.max(), 103);
    assert_eq!(dispatcher.limit(), 2);
    assert_eq!(dispatcher.started(), 0);
    assert_eq!(dispatcher.in_flight(), 0);
    assert!(!dispatcher.is_finished());
}
