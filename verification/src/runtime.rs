//! The container runtime as the stack operations see it: the commands they
//! ask for, what a finished process hands back, and the reading of the list of
//! running containers.

use vstd::prelude::*;
use crate::template::{server_container_name, server_name};
use crate::text::{
    after, ascii, before, find, head, lines, literal, split_lines, tail, to_vec, trim, trimmed,
    view_of, views,
};

verus! {

/// The vertical bar between a container's name and its ports.
pub const BAR: u8 = 124;

/// The comma between two port mappings.
pub const COMMA: u8 = 44;

/// The colon between a host address and a host port.
pub const COLON: u8 = 58;

/// The hyphen that opens the arrow to the container port.
pub const DASH: u8 = 45;

/// What a finished process hands back.
#[derive(Debug, PartialEq, Eq)]
pub struct ProcessOutput {
    /// Whether the process ended with exit status 0.
    pub success: bool,
    /// What it wrote to its output stream.
    pub stdout: Vec<u8>,
    /// What it wrote to its error stream.
    pub stderr: Vec<u8>,
}

/// A program, its arguments, and the time it may take.
#[derive(Debug, PartialEq, Eq)]
pub struct Command {
    pub program: Vec<u8>,
    pub args: Vec<Vec<u8>>,
    /// After this many seconds the program is given up and stopped.
    pub timeout_secs: u64,
}

/// The arguments that bring up the stack of the manifest at `manifest`, in the
/// background.
pub open spec fn compose_up_args(manifest: Seq<u8>) -> Seq<Seq<u8>> {
    seq![ascii("compose"), ascii("-f"), manifest, ascii("up"), ascii("-d")]
}

/// The arguments that take down the stack of the manifest at `manifest`.
pub open spec fn compose_down_args(manifest: Seq<u8>) -> Seq<Seq<u8>> {
    seq![ascii("compose"), ascii("-f"), manifest, ascii("down")]
}

/// The arguments that remove the volume of stack `id`.
pub open spec fn volume_remove_args(id: int) -> Seq<Seq<u8>> {
    seq![ascii("volume"), ascii("rm"), server_name(id)]
}

/// The arguments that list the running containers, one to a line: the name, a
/// vertical bar, the ports.
pub open spec fn list_running_args() -> Seq<Seq<u8>> {
    seq![ascii("ps"), ascii("--format"), ascii("{{.Names}}|{{.Ports}}")]
}

fn docker(args: Vec<Vec<u8>>, timeout_secs: u64) -> (r: Command)
    ensures
        r.program@ == ascii("docker"),
        r.args == args,
        r.timeout_secs == timeout_secs,
{
    proof {
        reveal_strlit("docker");
    }
    Command { program: to_vec(literal("docker")), args, timeout_secs }
}

/// `docker compose -f <manifest> up -d`
pub fn compose_up(manifest: &[u8], timeout_secs: u64) -> (r: Command)
    ensures
        r.program@ == ascii("docker"),
        views(r.args@) == compose_up_args(manifest@),
        r.timeout_secs == timeout_secs,
{
    proof {
        reveal_strlit("compose");
        reveal_strlit("-f");
        reveal_strlit("up");
        reveal_strlit("-d");
    }
    let mut args: Vec<Vec<u8>> = Vec::new();
    args.push(to_vec(literal("compose")));
    args.push(to_vec(literal("-f")));
    args.push(to_vec(manifest));
    args.push(to_vec(literal("up")));
    args.push(to_vec(literal("-d")));
    docker(args, timeout_secs)
}

/// `docker compose -f <manifest> down`
pub fn compose_down(manifest: &[u8], timeout_secs: u64) -> (r: Command)
    ensures
        r.program@ == ascii("docker"),
        views(r.args@) == compose_down_args(manifest@),
        r.timeout_secs == timeout_secs,
{
    proof {
        reveal_strlit("compose");
        reveal_strlit("-f");
        reveal_strlit("down");
    }
    let mut args: Vec<Vec<u8>> = Vec::new();
    args.push(to_vec(literal("compose")));
    args.push(to_vec(literal("-f")));
    args.push(to_vec(manifest));
    args.push(to_vec(literal("down")));
    docker(args, timeout_secs)
}

/// `docker volume rm minecraft_server_<id>`
pub fn volume_remove(id: i32, timeout_secs: u64) -> (r: Command)
    ensures
        r.program@ == ascii("docker"),
        views(r.args@) == volume_remove_args(id as int),
        r.timeout_secs == timeout_secs,
{
    proof {
        reveal_strlit("volume");
        reveal_strlit("rm");
    }
    let mut args: Vec<Vec<u8>> = Vec::new();
    args.push(to_vec(literal("volume")));
    args.push(to_vec(literal("rm")));
    args.push(server_container_name(id));
    docker(args, timeout_secs)
}

/// `docker ps --format {{.Names}}|{{.Ports}}`
pub fn list_running(timeout_secs: u64) -> (r: Command)
    ensures
        r.program@ == ascii("docker"),
        views(r.args@) == list_running_args(),
        r.timeout_secs == timeout_secs,
{
    proof {
        reveal_strlit("ps");
        reveal_strlit("--format");
        reveal_strlit("{{.Names}}|{{.Ports}}");
    }
    let mut args: Vec<Vec<u8>> = Vec::new();
    args.push(to_vec(literal("ps")));
    args.push(to_vec(literal("--format")));
    args.push(to_vec(literal("{{.Names}}|{{.Ports}}")));
    docker(args, timeout_secs)
}

/// The host port in one port mapping, such as `0.0.0.0:25568->25565/tcp`: with
/// the white space around the mapping set aside, what stands between its first
/// colon and the next colon or hyphen. A mapping without a colon publishes
/// nothing.
pub open spec fn host_port(mapping: Seq<u8>) -> Option<Seq<u8>> {
    match after(trim(mapping), COLON) {
        Some(rest) => Some(before(before(rest, COLON), DASH)),
        None => None,
    }
}

/// The first host port among the mappings of a ports column, which a comma
/// separates.
pub open spec fn published_port(ports: Seq<u8>) -> Option<Seq<u8>>
    decreases ports.len(),
{
    match host_port(before(ports, COMMA)) {
        Some(port) => Some(port),
        None => match after(ports, COMMA) {
            Some(rest) => published_port(rest),
            None => None,
        },
    }
}

/// Reads the host port of one port mapping.
pub fn read_host_port(mapping: &[u8]) -> (r: Option<Vec<u8>>)
    ensures
        view_of(r) == host_port(mapping@),
{
    match tail(trimmed(mapping), COLON) {
        Some(rest) => Some(to_vec(head(head(rest, COLON), DASH))),
        None => None,
    }
}

/// Reads the first host port of a ports column.
pub fn read_published_port(ports: &[u8]) -> (r: Option<Vec<u8>>)
    ensures
        view_of(r) == published_port(ports@),
{
    let mut rest: &[u8] = ports;
    loop
        invariant
            published_port(rest@) == published_port(ports@),
        decreases rest@.len(),
    {
        match read_host_port(head(rest, COMMA)) {
            Some(port) => {
                return Some(port);
            },
            None => {},
        }
        match tail(rest, COMMA) {
            Some(next) => {
                rest = next;
            },
            None => {
                return None;
            },
        }
    }
}

/// One running container: its name and the first host port it publishes.
#[derive(Debug, PartialEq, Eq)]
pub struct Container {
    pub name: Vec<u8>,
    pub port: Option<Vec<u8>>,
}

/// The name and the published port of a running container.
pub struct ContainerView {
    pub name: Seq<u8>,
    pub port: Option<Seq<u8>>,
}

impl View for Container {
    type V = ContainerView;

    open spec fn view(&self) -> ContainerView {
        ContainerView { name: self.name@, port: view_of(self.port) }
    }
}

/// What one line of the list of running containers reports. The line must
/// hold exactly one vertical bar: the name before it, the ports after it. Any
/// other line reports nothing.
pub open spec fn container_on(line: Seq<u8>) -> Option<ContainerView> {
    match after(line, BAR) {
        Some(ports) => if after(ports, BAR) is None {
            Some(ContainerView { name: before(line, BAR), port: published_port(ports) })
        } else {
            None
        },
        None => None,
    }
}

/// What the lines report, in their order. Lines that report nothing are passed
/// over.
pub open spec fn containers_on(ls: Seq<Seq<u8>>) -> Seq<ContainerView>
    decreases ls.len(),
{
    if ls.len() == 0 {
        Seq::empty()
    } else {
        match container_on(ls.last()) {
            Some(c) => containers_on(ls.drop_last()).push(c),
            None => containers_on(ls.drop_last()),
        }
    }
}

/// The running containers that the runtime's list reports.
pub open spec fn running_containers(stdout: Seq<u8>) -> Seq<ContainerView> {
    containers_on(lines(stdout))
}

/// The views of a list of containers.
pub open spec fn container_views(v: Seq<Container>) -> Seq<ContainerView> {
    Seq::new(v.len(), |i: int| v[i]@)
}

/// Reads one line of the list of running containers.
pub fn read_container(line: &[u8]) -> (r: Option<Container>)
    ensures
        match r {
            Some(c) => container_on(line@) == Some(c@),
            None => container_on(line@) is None,
        },
{
    match tail(line, BAR) {
        Some(ports) => {
            if find(ports, BAR) < ports.len() {
                None
            } else {
                Some(Container { name: to_vec(head(line, BAR)), port: read_published_port(ports) })
            }
        },
        None => None,
    }
}

/// Reads the list of running containers that the runtime wrote.
pub fn get_running_containers(stdout: &[u8]) -> (r: Vec<Container>)
    ensures
        container_views(r@) == running_containers(stdout@),
{
    let ls = split_lines(stdout);
    let mut out: Vec<Container> = Vec::new();
    let mut i: usize = 0;
    while i < ls.len()
        invariant
            0 <= i <= ls.len(),
            views(ls@) == lines(stdout@),
            container_views(out@) == containers_on(views(ls@).take(i as int)),
        decreases ls.len() - i,
    {
        let ghost done = views(ls@).take(i as int);
        let ghost next = views(ls@).take(i as int + 1);
        assert(next.drop_last() =~= done);
        match read_container(ls[i].as_slice()) {
            Some(c) => {
                out.push(c);
            },
            None => {},
        }
        i = i + 1;
    }
    assert(views(ls@).take(i as int) =~= views(ls@));
    out
}

} // verus!
