use stack_manager::runtime::{
    compose_down, compose_up, get_running_containers, list_running, read_container,
    read_host_port, read_published_port, volume_remove, Command, Container,
};

fn text(v: &Vec<Vec<u8>>) -> Vec<String> {
    v.iter().map(|a| String::from_utf8(a.clone()).unwrap()).collect()
}

fn container(name: &str, port: Option<&str>) -> Container {
    Container { name: name.as_bytes().to_vec(), port: port.map(|p| p.as_bytes().to_vec()) }
}

fn check(command: &Command, expected: &[&str]) {
    assert_eq!(command.program, b"docker".to_vec());
    assert_eq!(command.timeout_secs, 45);
    assert_eq!(text(&command.args), expected);
}

#[test]
fn compose_up_command() {
    check(
        &compose_up(b"/srv/stacks/stack_1/compose.yaml", 45),
        &["compose", "-f", "/srv/stacks/stack_1/compose.yaml", "up", "-d"],
    );
}

#[test]
fn compose_down_command() {
    check(
        &compose_down(b"/srv/stacks/stack_1/compose.yaml", 45),
        &["compose", "-f", "/srv/stacks/stack_1/compose.yaml", "down"],
    );
}

#[test]
fn volume_remove_command() {
    check(&volume_remove(17, 45), &["volume", "rm", "minecraft_server_17"]);
}

#[test]
fn list_running_command() {
    check(&list_running(45), &["ps", "--format", "{{.Names}}|{{.Ports}}"]);
}

#[test]
fn host_port_of_a_mapping() {
    assert_eq!(read_host_port(b"0.0.0.0:25568->25565/tcp"), Some(b"25568".to_vec()));
    assert_eq!(read_host_port(b"  0.0.0.0:2225->22/tcp  "), Some(b"2225".to_vec()));
    assert_eq!(read_host_port(b"0.0.0.0:100-200->100-200/tcp"), Some(b"100".to_vec()));
    assert_eq!(read_host_port(b"host:8080"), Some(b"8080".to_vec()));
    assert_eq!(read_host_port(b"host:8080 "), Some(b"8080".to_vec()));
    assert_eq!(read_host_port(b"host:"), Some(b"".to_vec()));
}

#[test]
fn host_port_of_an_ipv6_mapping_is_empty() {
    assert_eq!(read_host_port(b":::25568->25565/tcp"), Some(b"".to_vec()));
    assert_eq!(read_host_port(b"[::]:25568->25565/tcp"), Some(b"".to_vec()));
}

#[test]
fn mapping_without_colon_publishes_nothing() {
    assert_eq!(read_host_port(b"25565/tcp"), None);
    assert_eq!(read_host_port(b""), None);
    assert_eq!(read_host_port(b"   "), None);
}

#[test]
fn published_port_is_the_first_host_port() {
    assert_eq!(
        read_published_port(b"0.0.0.0:25568->25565/tcp, :::25568->25565/tcp"),
        Some(b"25568".to_vec())
    );
    assert_eq!(
        read_published_port(b"25575/tcp, 0.0.0.0:30001->25565/tcp"),
        Some(b"30001".to_vec())
    );
    assert_eq!(
        read_published_port(b"0.0.0.0:1->1/tcp,0.0.0.0:2->2/tcp"),
        Some(b"1".to_vec())
    );
    assert_eq!(read_published_port(b"25575/tcp, 25565/tcp"), None);
    assert_eq!(read_published_port(b""), None);
    assert_eq!(read_published_port(b",,"), None);
}

#[test]
fn container_line_needs_exactly_one_bar() {
    assert_eq!(
        read_container(b"minecraft_server_2|0.0.0.0:30001->25565/tcp"),
        Some(container("minecraft_server_2", Some("30001")))
    );
    assert_eq!(read_container(b"name|"), Some(container("name", None)));
    assert_eq!(read_container(b"|"), Some(container("", None)));
    assert_eq!(read_container(b"name"), None);
    assert_eq!(read_container(b""), None);
    assert_eq!(read_container(b"a|b|c"), None);
    assert_eq!(read_container(b"a||"), None);
}

#[test]
fn running_containers_in_line_order() {
    let stdout = b"sftp_server_1|0.0.0.0:2225->22/tcp, :::2225->22/tcp\n\nbroken line\nminecraft_server_1|0.0.0.0:25568->25565/tcp, 25575/tcp\nidle|\r\n";
    assert_eq!(
        get_running_containers(stdout),
        vec![
            container("sftp_server_1", Some("2225")),
            container("minecraft_server_1", Some("25568")),
            container("idle", None),
        ]
    );
}

#[test]
fn running_containers_of_empty_output() {
    assert_eq!(get_running_containers(b""), vec![]);
    assert_eq!(get_running_containers(b"\n\n"), vec![]);
}
