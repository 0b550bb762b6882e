use vstd::prelude::*;
use crate::command::{CommandError, Plan, Request, RequestView};
use crate::render::{Response, output_text, render_text, spec_render, text_view};

verus! {

/// The operation that a request attempts, as named in a diagnostic.
pub open spec fn failure_context(r: RequestView) -> Seq<char> {
    match r {
        RequestView::GetCluster(_) => "Failed to get cluster"@,
        RequestView::ListClusters => "Failed to list clusters"@,
        RequestView::CreateCluster(_) => "Failed to create cluster"@,
        RequestView::DeleteCluster(_) => "Failed to delete cluster"@,
        RequestView::ListKubeVersions => "Failed to list Kubernetes versions"@,
        RequestView::GetNode(..) => "Failed to get node"@,
        RequestView::ReinstallNode(..) => "Failed to reinstall node"@,
        RequestView::ListNodegroups(_) => "Failed to list nodegroups"@,
        RequestView::GetNodegroup(..) => "Failed to get nodegroup"@,
        RequestView::CreateNodegroup(..) => "Failed to create nodegroup"@,
        RequestView::DeleteNodegroup(..) => "Failed to delete nodegroup"@,
        RequestView::GetTask(..) => "Failed to get cluster task"@,
        RequestView::ListTasks(_) => "Failed to list cluster tasks"@,
    }
}

/// The one-line diagnostic for a failed remote call: the operation, then
/// the collaborator's own message unchanged.
pub open spec fn diagnostic(r: RequestView, message: Seq<char>) -> Seq<char> {
    failure_context(r) + ": "@ + message
}

pub open spec fn command_error_text(e: CommandError) -> Seq<char> {
    match e {
        CommandError::UnknownOutputFormat => "Unknown output format"@,
        CommandError::UnsupportedCommand => "Unknown command"@,
    }
}

impl CommandError {
    /// The diagnostic for a refused command.
    pub fn message(&self) -> (r: String)
        ensures
            r@ == command_error_text(*self),
    {
        match self {
            CommandError::UnknownOutputFormat => "Unknown output format".to_owned(),
            CommandError::UnsupportedCommand => "Unknown command".to_owned(),
        }
    }
}

impl Request {
    /// The operation this request attempts, for diagnostics.
    pub fn failure_context(&self) -> (r: String)
        ensures
            r@ == failure_context(self@),
    {
        let s = match self {
            Request::GetCluster { .. } => "Failed to get cluster",
            Request::ListClusters => "Failed to list clusters",
            Request::CreateCluster { .. } => "Failed to create cluster",
            Request::DeleteCluster { .. } => "Failed to delete cluster",
            Request::ListKubeVersions => "Failed to list Kubernetes versions",
            Request::GetNode { .. } => "Failed to get node",
            Request::ReinstallNode { .. } => "Failed to reinstall node",
            Request::ListNodegroups { .. } => "Failed to list nodegroups",
            Request::GetNodegroup { .. } => "Failed to get nodegroup",
            Request::CreateNodegroup { .. } => "Failed to create nodegroup",
            Request::DeleteNodegroup { .. } => "Failed to delete nodegroup",
            Request::GetTask { .. } => "Failed to get cluster task",
            Request::ListTasks { .. } => "Failed to list cluster tasks",
        };
        s.to_owned()
    }
}

/// The last step of an invocation: the outcome of the plan's remote call
/// becomes either the text to write out, in the plan's output mode (none
/// for a response without a body), or the one-line diagnostic that names
/// the failed operation.
pub fn finish(plan: &Plan, outcome: Result<Response, String>) -> (r: Result<Option<String>, String>)
    ensures
        match outcome {
            Ok(resp) => r matches Ok(o) && text_view(o) == output_text(spec_render(resp, plan.output)),
            Err(message) => r matches Err(d) && d@ == diagnostic(plan.request@, message@),
        },
{
    match outcome {
        Ok(resp) => Ok(render_text(&resp, plan.output)),
        Err(message) => {
            let mut d = plan.request.failure_context();
            d.append(": ");
            d.append(message.as_str());
            Err(d)
        },
    }
}

} // verus!
