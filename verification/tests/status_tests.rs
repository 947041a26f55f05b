use stack_manager::errors::StackError;
use stack_manager::runtime::{get_running_containers, Container};
use stack_manager::status::{
    lookup_service, stack_report, stack_reports, Overall, ServiceStatus, StackReport, StackStatus,
};

fn running(port: &str) -> ServiceStatus {
    ServiceStatus { state: StackStatus::Running, port: Some(port.as_bytes().to_vec()) }
}

fn stopped() -> ServiceStatus {
    ServiceStatus { state: StackStatus::Stopped, port: None }
}

fn container(name: &str, port: Option<&str>) -> Container {
    Container { name: name.as_bytes().to_vec(), port: port.map(|p| p.as_bytes().to_vec()) }
}

#[test]
fn status_words() {
    assert_eq!(StackStatus::try_from("running".to_string()), Ok(StackStatus::Running));
    assert_eq!(StackStatus::try_from("stopped".to_string()), Ok(StackStatus::Stopped));
    assert_eq!(StackStatus::try_from("RUNNING".to_string()), Ok(StackStatus::Running));
    assert_eq!(StackStatus::try_from("Stopped".to_string()), Ok(StackStatus::Stopped));
    assert_eq!(StackStatus::try_from("sToPpEd".to_string()), Ok(StackStatus::Stopped));
}

#[test]
fn unknown_status_is_handed_back() {
    for word in ["", "run", "running ", " running", "paused", "stop", "runnin\u{212A}"] {
        assert_eq!(
            StackStatus::try_from(word.to_string()),
            Err(StackError::InvalidStatus(word.to_string())),
            "word {:?}",
            word
        );
    }
}

#[test]
fn status_names() {
    assert_eq!(StackStatus::Running.name(), b"running".to_vec());
    assert_eq!(StackStatus::Stopped.name(), b"stopped".to_vec());
}

#[test]
fn lookup_finds_running_service() {
    let containers = vec![container("a", Some("1")), container("b", None)];
    assert_eq!(lookup_service(&containers, b"a"), running("1"));
    assert_eq!(
        lookup_service(&containers, b"b"),
        ServiceStatus { state: StackStatus::Running, port: None }
    );
    assert_eq!(lookup_service(&containers, b"c"), stopped());
    assert_eq!(lookup_service(&vec![], b"a"), stopped());
}

#[test]
fn lookup_takes_the_last_entry_of_a_name() {
    let containers =
        vec![container("a", Some("1")), container("b", Some("2")), container("a", Some("3"))];
    assert_eq!(lookup_service(&containers, b"a"), running("3"));
}

#[test]
fn lookup_compares_whole_names() {
    let containers = vec![container("minecraft_server_12", Some("1"))];
    assert_eq!(lookup_service(&containers, b"minecraft_server_1"), stopped());
    assert_eq!(lookup_service(&containers, b"minecraft_server_123"), stopped());
}

#[test]
fn report_of_one_stack() {
    let containers = get_running_containers(
        b"sftp_server_3|0.0.0.0:2231->22/tcp\nminecraft_server_3|0.0.0.0:25574->25565/tcp\n",
    );
    assert_eq!(
        stack_report(3, &containers),
        StackReport { id: 3, sftp_server: running("2231"), minecraft_server: running("25574") }
    );
}

#[test]
fn aggregated_status_of_two_stacks_with_one_running_service() {
    let containers = get_running_containers(b"minecraft_server_2|0.0.0.0:30001->25565/tcp\n");
    let reports = stack_reports(&vec![2, 5], &containers);
    assert_eq!(
        reports,
        vec![
            StackReport { id: 2, sftp_server: stopped(), minecraft_server: running("30001") },
            StackReport { id: 5, sftp_server: stopped(), minecraft_server: stopped() },
        ]
    );
}

#[test]
fn reports_of_no_stacks() {
    let containers = get_running_containers(b"minecraft_server_2|0.0.0.0:30001->25565/tcp\n");
    assert_eq!(stack_reports(&vec![], &containers), vec![]);
}

#[test]
fn overall_status_is_derived_from_both_services() {
    let report = |sftp: ServiceStatus, server: ServiceStatus| StackReport {
        id: 1,
        sftp_server: sftp,
        minecraft_server: server,
    };
    assert_eq!(report(running("1"), running("2")).overall(), Overall::Running);
    assert_eq!(report(stopped(), stopped()).overall(), Overall::Stopped);
    assert_eq!(report(running("1"), stopped()).overall(), Overall::Mixed);
    assert_eq!(report(stopped(), running("2")).overall(), Overall::Mixed);
}
