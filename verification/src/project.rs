//! Projects.

use crate::api::Record;
use crate::api::Request;
use crate::api::TodoistAPI;
use crate::api::TodoistAPIError;
use crate::api::result_view;
use crate::task::TaskParamsBuilder;
use crate::task::TaskParamsView;
use crate::text::decimal;
use vstd::prelude::*;

verus! {

/// A project.
#[derive(Debug, Clone, PartialEq, Eq)]
pub struct Project {
    pub id: u64,
    pub name: String,
    pub color: u64,
    pub parent_id: u64,
    pub order: u64,
    pub comment_count: u64,
    pub shared: bool,
    pub favorite: bool,
    pub inbox_project: bool,
    pub team_inbox: bool,
    pub sync_id: u64,
}

/// A project as plain values.
pub struct ProjectView {
    pub id: u64,
    pub name: Seq<char>,
    pub color: u64,
    pub parent_id: u64,
    pub order: u64,
    pub comment_count: u64,
    pub shared: bool,
    pub favorite: bool,
    pub inbox_project: bool,
    pub team_inbox: bool,
    pub sync_id: u64,
}

impl View for Project {
    type V = ProjectView;

    open spec fn view(&self) -> ProjectView {
        ProjectView {
            id: self.id,
            name: self.name@,
            color: self.color,
            parent_id: self.parent_id,
            order: self.order,
            comment_count: self.comment_count,
            shared: self.shared,
            favorite: self.favorite,
            inbox_project: self.inbox_project,
            team_inbox: self.team_inbox,
            sync_id: self.sync_id,
        }
    }
}

impl DeepView for Project {
    type V = ProjectView;

    open spec fn deep_view(&self) -> ProjectView {
        self@
    }
}

/// The fields of a project as they stood in a JSON body.
#[derive(Debug, Clone, PartialEq, Eq)]
pub struct ProjectPayload {
    pub id: Option<u64>,
    pub name: Option<String>,
    pub color: Option<u64>,
    pub parent_id: Option<u64>,
    pub order: Option<u64>,
    pub comment_count: Option<u64>,
    pub shared: Option<bool>,
    pub favorite: Option<bool>,
    pub inbox_project: Option<bool>,
    pub team_inbox: Option<bool>,
    pub sync_id: Option<u64>,
}

/// A project payload as plain values.
pub struct ProjectPayloadView {
    pub id: Option<u64>,
    pub name: Option<Seq<char>>,
    pub color: Option<u64>,
    pub parent_id: Option<u64>,
    pub order: Option<u64>,
    pub comment_count: Option<u64>,
    pub shared: Option<bool>,
    pub favorite: Option<bool>,
    pub inbox_project: Option<bool>,
    pub team_inbox: Option<bool>,
    pub sync_id: Option<u64>,
}

impl View for ProjectPayload {
    type V = ProjectPayloadView;

    open spec fn view(&self) -> ProjectPayloadView {
        ProjectPayloadView {
            id: self.id,
            name: self.name.deep_view(),
            color: self.color,
            parent_id: self.parent_id,
            order: self.order,
            comment_count: self.comment_count,
            shared: self.shared,
            favorite: self.favorite,
            inbox_project: self.inbox_project,
            team_inbox: self.team_inbox,
            sync_id: self.sync_id,
        }
    }
}

impl DeepView for ProjectPayload {
    type V = ProjectPayloadView;

    open spec fn deep_view(&self) -> ProjectPayloadView {
        self@
    }
}

/// The number, or zero where it is absent.
pub open spec fn or_zero(n: Option<u64>) -> u64 {
    match n {
        Some(v) => v,
        None => 0,
    }
}

/// The flag, or `false` where it is absent.
pub open spec fn or_false(b: Option<bool>) -> bool {
    match b {
        Some(v) => v,
        None => false,
    }
}

impl ProjectPayloadView {
    /// Whether every field is present that has no default.
    pub open spec fn is_complete(self) -> bool {
        &&& self.id is Some
        &&& self.name is Some
        &&& self.color is Some
        &&& self.comment_count is Some
        &&& self.shared is Some
        &&& self.favorite is Some
        &&& self.sync_id is Some
    }
}

impl Record for Project {
    type Payload = ProjectPayload;

    /// The parent and the order default to zero, and the two inbox flags to
    /// `false`. Every other field is required.
    open spec fn decoded(payload: ProjectPayloadView) -> Result<ProjectView, TodoistAPIError> {
        if payload.is_complete() {
            Ok(
                ProjectView {
                    id: payload.id->0,
                    name: payload.name->0,
                    color: payload.color->0,
                    parent_id: or_zero(payload.parent_id),
                    order: or_zero(payload.order),
                    comment_count: payload.comment_count->0,
                    shared: payload.shared->0,
                    favorite: payload.favorite->0,
                    inbox_project: or_false(payload.inbox_project),
                    team_inbox: or_false(payload.team_inbox),
                    sync_id: payload.sync_id->0,
                },
            )
        } else {
            Err(TodoistAPIError::DecodeFailure)
        }
    }

    fn from_payload(payload: &ProjectPayload) -> (r: Result<Project, TodoistAPIError>) {
        match (
            payload.id,
            &payload.name,
            payload.color,
            payload.comment_count,
            payload.shared,
            payload.favorite,
            payload.sync_id,
        ) {
            (
                Some(id),
                Some(name),
                Some(color),
                Some(comment_count),
                Some(shared),
                Some(favorite),
                Some(sync_id),
            ) => Ok(
                Project {
                    id,
                    name: name.clone(),
                    color,
                    parent_id: match payload.parent_id {
                        Some(v) => v,
                        None => 0,
                    },
                    order: match payload.order {
                        Some(v) => v,
                        None => 0,
                    },
                    comment_count,
                    shared,
                    favorite,
                    inbox_project: match payload.inbox_project {
                        Some(v) => v,
                        None => false,
                    },
                    team_inbox: match payload.team_inbox {
                        Some(v) => v,
                        None => false,
                    },
                    sync_id,
                },
            ),
            _ => Err(TodoistAPIError::DecodeFailure),
        }
    }
}

impl Project {
    /// The request that lists every project.
    pub fn get_all(client: &TodoistAPI) -> (r: Result<Request, TodoistAPIError>)
        ensures
            result_view(r) == client@.request("projects"@),
    {
        client.get_projects()
    }

    /// The request for the project `id`.
    pub fn get(id: u64, client: &TodoistAPI) -> (r: Result<Request, TodoistAPIError>)
        ensures
            result_view(r) == client@.request("projects/"@ + decimal(id as nat)),
    {
        client.get_project(id)
    }

    /// The request that lists the tasks of this project: a task listing
    /// with the project as its only criterion.
    pub fn get_tasks(&self, client: &TodoistAPI) -> (r: Result<Request, TodoistAPIError>)
        ensures
            result_view(r) == client@.listing(
                "tasks"@,
                (TaskParamsView { project_id: Some(self.id), ..TaskParamsView::unset() }).pairs(),
            ),
    {
        TaskParamsBuilder::default().project_id(self.id).call(client)
    }
}

} // verus!
