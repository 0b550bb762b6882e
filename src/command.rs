use vstd::prelude::*;
use crate::options::{
    ClusterCreateOptions, ClusterFlags, ClusterOptionsView, NodegroupCreateOptions, NodegroupFlags,
    NodegroupOptionsView, cluster_translated, nodegroup_translated,
};
use crate::render::OutputMode;

verus! {

/// A parsed command line: resource kind, action and its parameters.
pub enum Command {
    ClusterGet { output: String, cluster_id: String },
    ClusterList { output: String },
    ClusterCreate {
        output: String,
        name: String,
        kube_version: String,
        region: String,
        flags: ClusterFlags,
    },
    ClusterDelete { cluster_id: String },
    KubeversionList { output: String },
    NodeGet { output: String, cluster_id: String, nodegroup_id: String, node_id: String },
    NodeReinstall { cluster_id: String, nodegroup_id: String, node_id: String },
    NodegroupList { output: String, cluster_id: String },
    NodegroupGet { output: String, cluster_id: String, nodegroup_id: String },
    NodegroupCreate {
        output: String,
        cluster_id: String,
        nodes_count: u32,
        local_volume: bool,
        availability_zone: String,
        flags: NodegroupFlags,
    },
    NodegroupSet { cluster_id: String, count: Option<u32> },
    NodegroupDelete { cluster_id: String, nodegroup_id: String },
    TaskList { output: String, cluster_id: String },
    TaskGet { output: String, cluster_id: String, task_id: String },
}

/// Why a command was refused before any remote call.
#[derive(Clone, Copy, Debug, PartialEq, Eq, Structural)]
pub enum CommandError {
    /// The output format is neither `table` nor `json`.
    UnknownOutputFormat,
    /// The resource and action are a combination that is not offered.
    UnsupportedCommand,
}

/// The one remote call that a command asks for. Nested resources carry
/// their ancestors' identifiers in the order cluster, nodegroup, node.
pub enum Request {
    GetCluster { cluster_id: String },
    ListClusters,
    CreateCluster { cluster: ClusterCreateOptions },
    DeleteCluster { cluster_id: String },
    ListKubeVersions,
    GetNode { cluster_id: String, nodegroup_id: String, node_id: String },
    ReinstallNode { cluster_id: String, nodegroup_id: String, node_id: String },
    ListNodegroups { cluster_id: String },
    GetNodegroup { cluster_id: String, nodegroup_id: String },
    CreateNodegroup { cluster_id: String, nodegroup: NodegroupCreateOptions },
    DeleteNodegroup { cluster_id: String, nodegroup_id: String },
    GetTask { cluster_id: String, task_id: String },
    ListTasks { cluster_id: String },
}

pub enum RequestView {
    GetCluster(Seq<char>),
    ListClusters,
    CreateCluster(ClusterOptionsView),
    DeleteCluster(Seq<char>),
    ListKubeVersions,
    GetNode(Seq<char>, Seq<char>, Seq<char>),
    ReinstallNode(Seq<char>, Seq<char>, Seq<char>),
    ListNodegroups(Seq<char>),
    GetNodegroup(Seq<char>, Seq<char>),
    CreateNodegroup(Seq<char>, NodegroupOptionsView),
    DeleteNodegroup(Seq<char>, Seq<char>),
    GetTask(Seq<char>, Seq<char>),
    ListTasks(Seq<char>),
}

impl View for Request {
    type V = RequestView;

    open spec fn view(&self) -> RequestView {
        match self {
            Request::GetCluster { cluster_id } => RequestView::GetCluster(cluster_id@),
            Request::ListClusters => RequestView::ListClusters,
            Request::CreateCluster { cluster } => RequestView::CreateCluster(cluster@),
            Request::DeleteCluster { cluster_id } => RequestView::DeleteCluster(cluster_id@),
            Request::ListKubeVersions => RequestView::ListKubeVersions,
            Request::GetNode { cluster_id, nodegroup_id, node_id } => RequestView::GetNode(
                cluster_id@,
                nodegroup_id@,
                node_id@,
            ),
            Request::ReinstallNode { cluster_id, nodegroup_id, node_id } => RequestView::ReinstallNode(
                cluster_id@,
                nodegroup_id@,
                node_id@,
            ),
            Request::ListNodegroups { cluster_id } => RequestView::ListNodegroups(cluster_id@),
            Request::GetNodegroup { cluster_id, nodegroup_id } => RequestView::GetNodegroup(
                cluster_id@,
                nodegroup_id@,
            ),
            Request::CreateNodegroup { cluster_id, nodegroup } => RequestView::CreateNodegroup(
                cluster_id@,
                nodegroup@,
            ),
            Request::DeleteNodegroup { cluster_id, nodegroup_id } => RequestView::DeleteNodegroup(
                cluster_id@,
                nodegroup_id@,
            ),
            Request::GetTask { cluster_id, task_id } => RequestView::GetTask(cluster_id@, task_id@),
            Request::ListTasks { cluster_id } => RequestView::ListTasks(cluster_id@),
        }
    }
}

/// A command resolved into the remote call to make and how to show its
/// result.
pub struct Plan {
    pub request: Request,
    pub output: OutputMode,
}

pub struct PlanView {
    pub request: RequestView,
    pub output: OutputMode,
}

impl View for Plan {
    type V = PlanView;

    open spec fn view(&self) -> PlanView {
        PlanView { request: self.request@, output: self.output }
    }
}

pub open spec fn plan_result_view(r: Result<Plan, CommandError>) -> Result<PlanView, CommandError> {
    match r {
        Ok(p) => Ok(p@),
        Err(e) => Err(e),
    }
}

/// The output mode that `s` names, if any.
pub open spec fn output_mode(s: Seq<char>) -> Option<OutputMode> {
    if s == "table"@ {
        Some(OutputMode::Table)
    } else if s == "json"@ {
        Some(OutputMode::Json)
    } else {
        None
    }
}

/// A request shown in the output mode that `output` names; an unknown
/// mode refuses the command.
pub open spec fn shown_as(output: Seq<char>, request: RequestView) -> Result<PlanView, CommandError> {
    match output_mode(output) {
        Some(m) => Ok(PlanView { request, output: m }),
        None => Err(CommandError::UnknownOutputFormat),
    }
}

/// A request that returns no body, so nothing is shown.
pub open spec fn without_body(request: RequestView) -> Result<PlanView, CommandError> {
    Ok(PlanView { request, output: OutputMode::Table })
}

/// What each command resolves to.
pub open spec fn spec_plan(c: Command) -> Result<PlanView, CommandError> {
    match c {
        Command::ClusterGet { output, cluster_id } => shown_as(
            output@,
            RequestView::GetCluster(cluster_id@),
        ),
        Command::ClusterList { output } => shown_as(output@, RequestView::ListClusters),
        Command::ClusterCreate { output, name, kube_version, region, flags } => shown_as(
            output@,
            RequestView::CreateCluster(cluster_translated(name@, kube_version@, region@, flags)),
        ),
        Command::ClusterDelete { cluster_id } => without_body(
            RequestView::DeleteCluster(cluster_id@),
        ),
        Command::KubeversionList { output } => shown_as(output@, RequestView::ListKubeVersions),
        Command::NodeGet { output, cluster_id, nodegroup_id, node_id } => shown_as(
            output@,
            RequestView::GetNode(cluster_id@, nodegroup_id@, node_id@),
        ),
        Command::NodeReinstall { cluster_id, nodegroup_id, node_id } => without_body(
            RequestView::ReinstallNode(cluster_id@, nodegroup_id@, node_id@),
        ),
        Command::NodegroupList { output, cluster_id } => shown_as(
            output@,
            RequestView::ListNodegroups(cluster_id@),
        ),
        Command::NodegroupGet { output, cluster_id, nodegroup_id } => shown_as(
            output@,
            RequestView::GetNodegroup(cluster_id@, nodegroup_id@),
        ),
        Command::NodegroupCreate {
            output,
            cluster_id,
            nodes_count,
            local_volume,
            availability_zone,
            flags,
        } => shown_as(
            output@,
            RequestView::CreateNodegroup(
                cluster_id@,
                nodegroup_translated(nodes_count, local_volume, availability_zone@, flags),
            ),
        ),
        Command::NodegroupSet { .. } => Err(CommandError::UnsupportedCommand),
        Command::NodegroupDelete { cluster_id, nodegroup_id } => without_body(
            RequestView::DeleteNodegroup(cluster_id@, nodegroup_id@),
        ),
        Command::TaskList { output, cluster_id } => shown_as(
            output@,
            RequestView::ListTasks(cluster_id@),
        ),
        Command::TaskGet { output, cluster_id, task_id } => shown_as(
            output@,
            RequestView::GetTask(cluster_id@, task_id@),
        ),
    }
}

/// Reads an output format: `table` or `json`, nothing else.
pub fn parse_output_mode(s: &String) -> (r: Result<OutputMode, CommandError>)
    ensures
        match output_mode(s@) {
            Some(m) => r == Ok::<OutputMode, CommandError>(m),
            None => r == Err::<OutputMode, CommandError>(CommandError::UnknownOutputFormat),
        },
{
    let table = "table".to_owned();
    let json = "json".to_owned();
    if s.eq(&table) {
        Ok(OutputMode::Table)
    } else if s.eq(&json) {
        Ok(OutputMode::Json)
    } else {
        Err(CommandError::UnknownOutputFormat)
    }
}

/// Resolves a command into the single remote call to make and the output
/// mode to show its result in. The output format is checked first, so a
/// command with an unknown format yields no request at all.
pub fn plan(c: &Command) -> (r: Result<Plan, CommandError>)
    ensures
        plan_result_view(r) == spec_plan(*c),
{
    match c {
        Command::ClusterGet { output, cluster_id } => {
            let mode = parse_output_mode(output)?;
            Ok(Plan { request: Request::GetCluster { cluster_id: cluster_id.clone() }, output: mode })
        },
        Command::ClusterList { output } => {
            let mode = parse_output_mode(output)?;
            Ok(Plan { request: Request::ListClusters, output: mode })
        },
        Command::ClusterCreate { output, name, kube_version, region, flags } => {
            let mode = parse_output_mode(output)?;
            let options = ClusterCreateOptions::translate(
                name.as_str(),
                kube_version.as_str(),
                region.as_str(),
                flags,
            );
            Ok(Plan { request: Request::CreateCluster { cluster: options }, output: mode })
        },
        Command::ClusterDelete { cluster_id } => Ok(
            Plan {
                request: Request::DeleteCluster { cluster_id: cluster_id.clone() },
                output: OutputMode::Table,
            },
        ),
        Command::KubeversionList { output } => {
            let mode = parse_output_mode(output)?;
            Ok(Plan { request: Request::ListKubeVersions, output: mode })
        },
        Command::NodeGet { output, cluster_id, nodegroup_id, node_id } => {
            let mode = parse_output_mode(output)?;
            Ok(
                Plan {
                    request: Request::GetNode {
                        cluster_id: cluster_id.clone(),
                        nodegroup_id: nodegroup_id.clone(),
                        node_id: node_id.clone(),
                    },
                    output: mode,
                },
            )
        },
        Command::NodeReinstall { cluster_id, nodegroup_id, node_id } => Ok(
            Plan {
                request: Request::ReinstallNode {
                    cluster_id: cluster_id.clone(),
                    nodegroup_id: nodegroup_id.clone(),
                    node_id: node_id.clone(),
                },
                output: OutputMode::Table,
            },
        ),
        Command::NodegroupList { output, cluster_id } => {
            let mode = parse_output_mode(output)?;
            Ok(
                Plan {
                    request: Request::ListNodegroups { cluster_id: cluster_id.clone() },
                    output: mode,
                },
            )
        },
        Command::NodegroupGet { output, cluster_id, nodegroup_id } => {
            let mode = parse_output_mode(output)?;
            Ok(
                Plan {
                    request: Request::GetNodegroup {
                        cluster_id: cluster_id.clone(),
                        nodegroup_id: nodegroup_id.clone(),
                    },
                    output: mode,
                },
            )
        },
        Command::NodegroupCreate {
            output,
            cluster_id,
            nodes_count,
            local_volume,
            availability_zone,
            flags,
        } => {
            let mode = parse_output_mode(output)?;
            let options = NodegroupCreateOptions::translate(
                *nodes_count,
                *local_volume,
                availability_zone.as_str(),
                flags,
            );
            Ok(
                Plan {
                    request: Request::CreateNodegroup {
                        cluster_id: cluster_id.clone(),
                        nodegroup: options,
                    },
                    output: mode,
                },
            )
        },
        Command::NodegroupSet { .. } => Err(CommandError::UnsupportedCommand),
        Command::NodegroupDelete { cluster_id, nodegroup_id } => Ok(
            Plan {
                request: Request::DeleteNodegroup {
                    cluster_id: cluster_id.clone(),
                    nodegroup_id: nodegroup_id.clone(),
                },
                output: OutputMode::Table,
            },
        ),
        Command::TaskList { output, cluster_id } => {
            let mode = parse_output_mode(output)?;
            Ok(
                Plan {
                    request: Request::ListTasks { cluster_id: cluster_id.clone() },
                    output: mode,
                },
            )
        },
        Command::TaskGet { output, cluster_id, task_id } => {
            let mode = parse_output_mode(output)?;
            Ok(
                Plan {
                    request: Request::GetTask {
                        cluster_id: cluster_id.clone(),
                        task_id: task_id.clone(),
                    },
                    output: mode,
                },
            )
        },
    }
}

impl Command {
    /// The output format that the command carries, for those that show a
    /// result.
    pub open spec fn output_format(&self) -> Option<Seq<char>> {
        match self {
            Command::ClusterGet { output, .. } => Some(output@),
            Command::ClusterList { output } => Some(output@),
            Command::ClusterCreate { output, .. } => Some(output@),
            Command::KubeversionList { output } => Some(output@),
            Command::NodeGet { output, .. } => Some(output@),
            Command::NodegroupList { output, .. } => Some(output@),
            Command::NodegroupGet { output, .. } => Some(output@),
            Command::NodegroupCreate { output, .. } => Some(output@),
            Command::TaskList { output, .. } => Some(output@),
            Command::TaskGet { output, .. } => Some(output@),
            _ => None,
        }
    }
}

/// A command whose output format is neither `table` nor `json` is refused
/// with `UnknownOutputFormat` and resolves to no request, so no remote call
/// is made for it; a known format never yields that error.
pub proof fn lemma_unknown_output_rejected(c: Command)
    ensures
        (c.output_format() matches Some(s) && output_mode(s) is None) ==> spec_plan(c) == Err::<
            PlanView,
            CommandError,
        >(CommandError::UnknownOutputFormat),
        (c.output_format() matches Some(s) && output_mode(s) is Some) ==> spec_plan(c) is Ok,
        spec_plan(c) == Err::<PlanView, CommandError>(CommandError::UnknownOutputFormat) ==> (
        c.output_format() matches Some(s) && output_mode(s) is None),
{
}

} // verus!
