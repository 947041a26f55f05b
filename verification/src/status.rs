//! Stack and service status: the status a caller may ask for, and the status
//! of each declared stack as the list of running containers shows it.

use vstd::prelude::*;
use vstd::utf8::encode_utf8;
use crate::errors::StackError;
use crate::runtime::{container_views, Container, ContainerView};
use crate::template::{server_container_name, server_name, sftp_container_name, sftp_name};
use crate::text::{ascii, bytes_eq, literal, lower, string_bytes, to_lower, to_vec, view_of};

verus! {

/// Whether the containers of a stack, or one service, are up.
#[derive(Clone, Copy, Debug, PartialEq, Eq, Structural)]
pub enum StackStatus {
    Running,
    Stopped,
}

/// A request to change the status of a stack.
#[derive(Debug, PartialEq, Eq)]
pub struct StatusUpdate {
    /// The status asked for, as the caller wrote it.
    pub status: String,
}

/// The status that a caller's word stands for: `running` or `stopped`, in
/// capital or small ASCII letters. Any other word is refused, and handed back
/// in the error.
pub open spec fn status_named(status: String) -> Result<StackStatus, StackError> {
    if lower(encode_utf8(status@)) == ascii("running") {
        Ok(StackStatus::Running)
    } else if lower(encode_utf8(status@)) == ascii("stopped") {
        Ok(StackStatus::Stopped)
    } else {
        Err(StackError::InvalidStatus(status))
    }
}

impl StackStatus {
    /// Reads the status that a caller asks for.
    pub fn try_from(status: String) -> (r: Result<StackStatus, StackError>)
        ensures
            r == status_named(status),
    {
        proof {
            reveal_strlit("running");
            reveal_strlit("stopped");
        }
        let word = to_lower(string_bytes(&status));
        if bytes_eq(word.as_slice(), literal("running")) {
            Ok(StackStatus::Running)
        } else if bytes_eq(word.as_slice(), literal("stopped")) {
            Ok(StackStatus::Stopped)
        } else {
            Err(StackError::InvalidStatus(status))
        }
    }

    /// The word for this status.
    pub open spec fn word(self) -> Seq<u8> {
        match self {
            StackStatus::Running => ascii("running"),
            StackStatus::Stopped => ascii("stopped"),
        }
    }

    /// The word for this status: `running` or `stopped`.
    pub fn name(&self) -> (r: Vec<u8>)
        ensures
            r@ == self.word(),
    {
        proof {
            reveal_strlit("running");
            reveal_strlit("stopped");
        }
        match self {
            StackStatus::Running => to_vec(literal("running")),
            StackStatus::Stopped => to_vec(literal("stopped")),
        }
    }
}

/// The status of one service of a stack at the time of a query.
#[derive(Debug, PartialEq, Eq)]
pub struct ServiceStatus {
    pub state: StackStatus,
    /// The first host port that the service publishes, as the runtime wrote
    /// it; none for a stopped service.
    pub port: Option<Vec<u8>>,
}

/// The status of one service, with its port as a byte string.
pub struct ServiceView {
    pub state: StackStatus,
    pub port: Option<Seq<u8>>,
}

impl View for ServiceStatus {
    type V = ServiceView;

    open spec fn view(&self) -> ServiceView {
        ServiceView { state: self.state, port: view_of(self.port) }
    }
}

/// The status of one declared stack.
#[derive(Debug, PartialEq, Eq)]
pub struct StackReport {
    pub id: i32,
    pub sftp_server: ServiceStatus,
    pub minecraft_server: ServiceStatus,
}

/// The status of one declared stack, with its ports as byte strings.
pub struct ReportView {
    pub id: int,
    pub sftp_server: ServiceView,
    pub minecraft_server: ServiceView,
}

impl View for StackReport {
    type V = ReportView;

    open spec fn view(&self) -> ReportView {
        ReportView {
            id: self.id as int,
            sftp_server: self.sftp_server@,
            minecraft_server: self.minecraft_server@,
        }
    }
}

/// The status of a stack as a whole, as that of its two services shows it.
#[derive(Clone, Copy, Debug, PartialEq, Eq, Structural)]
pub enum Overall {
    /// Both services are running.
    Running,
    /// Both services are stopped.
    Stopped,
    /// One service is running and the other is not.
    Mixed,
}

/// The status of a stack as a whole.
pub open spec fn overall_of(report: ReportView) -> Overall {
    match (report.sftp_server.state, report.minecraft_server.state) {
        (StackStatus::Running, StackStatus::Running) => Overall::Running,
        (StackStatus::Stopped, StackStatus::Stopped) => Overall::Stopped,
        _ => Overall::Mixed,
    }
}

impl StackReport {
    /// Derives the status of the stack as a whole.
    pub fn overall(&self) -> (r: Overall)
        ensures
            r == overall_of(self@),
    {
        match (self.sftp_server.state, self.minecraft_server.state) {
            (StackStatus::Running, StackStatus::Running) => Overall::Running,
            (StackStatus::Stopped, StackStatus::Stopped) => Overall::Stopped,
            _ => Overall::Mixed,
        }
    }
}

/// The views of a list of reports.
pub open spec fn report_views(v: Seq<StackReport>) -> Seq<ReportView> {
    Seq::new(v.len(), |i: int| v[i]@)
}

/// What the list of running containers says of the container `name`: its last
/// entry of that name, if it has one.
pub open spec fn reported(containers: Seq<ContainerView>, name: Seq<u8>) -> Option<ContainerView>
    decreases containers.len(),
{
    if containers.len() == 0 {
        None
    } else if containers.last().name == name {
        Some(containers.last())
    } else {
        reported(containers.drop_last(), name)
    }
}

/// The status of the service whose container is `name`: running, with the port
/// of its entry, if the list has it; stopped, with no port, if not.
pub open spec fn service_status(containers: Seq<ContainerView>, name: Seq<u8>) -> ServiceView {
    match reported(containers, name) {
        Some(c) => ServiceView { state: StackStatus::Running, port: c.port },
        None => ServiceView { state: StackStatus::Stopped, port: None },
    }
}

/// The status of stack `id`: that of its file-transfer container and that of
/// its game server container, each looked up by the name that the identifier
/// gives it.
pub open spec fn report_of(id: int, containers: Seq<ContainerView>) -> ReportView {
    ReportView {
        id,
        sftp_server: service_status(containers, sftp_name(id)),
        minecraft_server: service_status(containers, server_name(id)),
    }
}

/// The status of each of the stacks `ids`, in their order.
pub open spec fn reports_of(ids: Seq<i32>, containers: Seq<ContainerView>) -> Seq<ReportView> {
    Seq::new(ids.len(), |i: int| report_of(ids[i] as int, containers))
}

/// A service whose container the list does not name is stopped, with no port.
pub proof fn lemma_unlisted_service_is_stopped(containers: Seq<ContainerView>, name: Seq<u8>)
    requires
        forall|k: int| 0 <= k < containers.len() ==> (#[trigger] containers[k]).name != name,
    ensures
        service_status(containers, name) == (ServiceView {
            state: StackStatus::Stopped,
            port: None,
        }),
    decreases containers.len(),
{
    if containers.len() > 0 {
        let rest = containers.drop_last();
        lemma_unlisted_service_is_stopped(rest, name);
    }
}

/// A service whose container the list names is running, with the port of the
/// last entry of that name.
pub proof fn lemma_listed_service_is_running(
    containers: Seq<ContainerView>,
    name: Seq<u8>,
    k: int,
)
    requires
        0 <= k < containers.len(),
        containers[k].name == name,
        forall|j: int| k < j < containers.len() ==> (#[trigger] containers[j]).name != name,
    ensures
        service_status(containers, name) == (ServiceView {
            state: StackStatus::Running,
            port: containers[k].port,
        }),
    decreases containers.len(),
{
    if k < containers.len() - 1 {
        let rest = containers.drop_last();
        lemma_listed_service_is_running(rest, name, k);
    }
}

/// A stack is reported by its own two containers alone: the entries of a list
/// that bear neither of its names make no difference to its report.
pub proof fn lemma_report_ignores_other_containers(
    id: int,
    containers: Seq<ContainerView>,
    other: ContainerView,
)
    requires
        other.name != sftp_name(id),
        other.name != server_name(id),
    ensures
        report_of(id, containers.push(other)) == report_of(id, containers),
{
    assert(containers.push(other).drop_last() =~= containers);
}

/// Looks up the status of the service whose container is `name`.
pub fn lookup_service(containers: &Vec<Container>, name: &[u8]) -> (r: ServiceStatus)
    ensures
        r@ == service_status(container_views(containers@), name@),
{
    let ghost all = container_views(containers@);
    let mut i: usize = containers.len();
    assert(all.take(i as int) =~= all);
    while i > 0
        invariant
            0 <= i <= containers.len(),
            all == container_views(containers@),
            reported(all, name@) == reported(all.take(i as int), name@),
        decreases i,
    {
        let c = &containers[i - 1];
        let ghost upto = all.take(i as int);
        assert(upto.drop_last() =~= all.take(i as int - 1));
        if bytes_eq(c.name.as_slice(), name) {
            let port = match &c.port {
                Some(p) => Some(to_vec(p.as_slice())),
                None => None,
            };
            return ServiceStatus { state: StackStatus::Running, port };
        }
        i = i - 1;
    }
    ServiceStatus { state: StackStatus::Stopped, port: None }
}

/// Reports the status of stack `id`.
pub fn stack_report(id: i32, containers: &Vec<Container>) -> (r: StackReport)
    ensures
        r@ == report_of(id as int, container_views(containers@)),
{
    let sftp = sftp_container_name(id);
    let server = server_container_name(id);
    StackReport {
        id,
        sftp_server: lookup_service(containers, sftp.as_slice()),
        minecraft_server: lookup_service(containers, server.as_slice()),
    }
}

/// Reports the status of each of the stacks `ids`, in their order.
pub fn stack_reports(ids: &Vec<i32>, containers: &Vec<Container>) -> (r: Vec<StackReport>)
    ensures
        report_views(r@) == reports_of(ids@, container_views(containers@)),
{
    let mut out: Vec<StackReport> = Vec::new();
    let mut i: usize = 0;
    while i < ids.len()
        invariant
            0 <= i <= ids.len(),
            out@.len() == i,
            forall|k: int|
                0 <= k < i ==> (#[trigger] out@[k])@ == report_of(
                    ids@[k] as int,
                    container_views(containers@),
                ),
        decreases ids.len() - i,
    {
        out.push(stack_report(ids[i], containers));
        i = i + 1;
    }
    out
}

} // verus!
