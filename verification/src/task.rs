//! Tasks, their due dates, and the parameters of a task listing.

use crate::api::ApiView;
use crate::api::Record;
use crate::api::Request;
use crate::api::TodoistAPI;
use crate::api::TodoistAPIError;
use crate::api::result_view;
use crate::params::lemma_decimal_is_plain;
use crate::params::lemma_query_text_extends;
use crate::params::lemma_query_text_push;
use crate::params::optional_pair;
use crate::params::query_text;
use crate::params::push_pair;
use crate::text::comma_joined;
use crate::text::comma_joined_text;
use crate::text::decimal;
use crate::text::decimal_text;
use crate::todoist_date_format::CalendarDate;
use crate::todoist_date_format::DateView;
use crate::todoist_date_format::deserialize;
use crate::todoist_date_format::parsed;
use crate::urls::form_plain;
use vstd::prelude::*;

verus! {

/// A moment in time: whole seconds since the start of 1970 in UTC, and
/// the nanoseconds past them.
#[derive(Debug, Clone, Copy, PartialEq, Eq, Structural)]
pub struct Timestamp {
    pub seconds: i64,
    pub nanoseconds: u32,
}

/// When a task is due. The date is always there; the moment, where the
/// server gave one, is kept as it came and is not held against the date.
#[derive(Debug, Clone, PartialEq, Eq)]
pub struct Due {
    pub date: CalendarDate,
    pub recurring: bool,
    pub datetime: Option<Timestamp>,
    /// The due date in the words in which it was entered.
    pub string: String,
    pub timezone: Option<String>,
}

/// A due date as plain values.
pub struct DueView {
    pub date: DateView,
    pub recurring: bool,
    pub datetime: Option<Timestamp>,
    pub string: Seq<char>,
    pub timezone: Option<Seq<char>>,
}

impl View for Due {
    type V = DueView;

    open spec fn view(&self) -> DueView {
        DueView {
            date: self.date@,
            recurring: self.recurring,
            datetime: self.datetime,
            string: self.string@,
            timezone: self.timezone.deep_view(),
        }
    }
}

impl DeepView for Due {
    type V = DueView;

    open spec fn deep_view(&self) -> DueView {
        self@
    }
}

/// The fields of a due date as they stood in a JSON body.
#[derive(Debug, Clone, PartialEq, Eq)]
pub struct DuePayload {
    pub date: Option<String>,
    pub recurring: Option<bool>,
    pub datetime: Option<Timestamp>,
    pub string: Option<String>,
    pub timezone: Option<String>,
}

/// A due-date payload as plain values.
pub struct DuePayloadView {
    pub date: Option<Seq<char>>,
    pub recurring: Option<bool>,
    pub datetime: Option<Timestamp>,
    pub string: Option<Seq<char>>,
    pub timezone: Option<Seq<char>>,
}

impl View for DuePayload {
    type V = DuePayloadView;

    open spec fn view(&self) -> DuePayloadView {
        DuePayloadView {
            date: self.date.deep_view(),
            recurring: self.recurring,
            datetime: self.datetime,
            string: self.string.deep_view(),
            timezone: self.timezone.deep_view(),
        }
    }
}

impl DeepView for DuePayload {
    type V = DuePayloadView;

    open spec fn deep_view(&self) -> DuePayloadView {
        self@
    }
}

impl Record for Due {
    type Payload = DuePayload;

    /// The date, the recurring flag and the words are required; the
    /// moment and the time zone are not. Where all three are there, the
    /// date must be a calendar date written as `YYYY-MM-DD`.
    open spec fn decoded(payload: DuePayloadView) -> Result<DueView, TodoistAPIError> {
        if payload.date is None || payload.recurring is None || payload.string is None {
            Err(TodoistAPIError::DecodeFailure)
        } else {
            match parsed(payload.date->0) {
                None => Err(TodoistAPIError::MalformedDate),
                Some(date) => Ok(
                    DueView {
                        date,
                        recurring: payload.recurring->0,
                        datetime: payload.datetime,
                        string: payload.string->0,
                        timezone: payload.timezone,
                    },
                ),
            }
        }
    }

    fn from_payload(payload: &DuePayload) -> (r: Result<Due, TodoistAPIError>) {
        match (&payload.date, payload.recurring, &payload.string) {
            (Some(text), Some(recurring), Some(string)) => match deserialize(text.as_str()) {
                Ok(date) => Ok(
                    Due {
                        date,
                        recurring,
                        datetime: payload.datetime,
                        string: string.clone(),
                        timezone: payload.timezone.clone(),
                    },
                ),
                Err(e) => Err(e),
            },
            _ => Err(TodoistAPIError::DecodeFailure),
        }
    }
}

/// A task.
#[derive(Debug, Clone, PartialEq, Eq)]
pub struct Task {
    pub id: u64,
    pub assignee: Option<u64>,
    pub comment_count: u64,
    pub completed: bool,
    pub content: String,
    pub due: Option<Due>,
    /// The labels of the task, as the server listed them; one may occur
    /// more than once.
    pub label_ids: Vec<u64>,
    pub order: u64,
    pub priority: u64,
    pub project_id: u64,
    pub section_id: u64,
    /// The task that this one is a subtask of.
    pub parent_id: Option<u64>,
    pub url: String,
}

/// A task as plain values.
pub struct TaskView {
    pub id: u64,
    pub assignee: Option<u64>,
    pub comment_count: u64,
    pub completed: bool,
    pub content: Seq<char>,
    pub due: Option<DueView>,
    pub label_ids: Seq<u64>,
    pub order: u64,
    pub priority: u64,
    pub project_id: u64,
    pub section_id: u64,
    pub parent_id: Option<u64>,
    pub url: Seq<char>,
}

impl View for Task {
    type V = TaskView;

    open spec fn view(&self) -> TaskView {
        TaskView {
            id: self.id,
            assignee: self.assignee,
            comment_count: self.comment_count,
            completed: self.completed,
            content: self.content@,
            due: self.due.deep_view(),
            label_ids: self.label_ids@,
            order: self.order,
            priority: self.priority,
            project_id: self.project_id,
            section_id: self.section_id,
            parent_id: self.parent_id,
            url: self.url@,
        }
    }
}

impl DeepView for Task {
    type V = TaskView;

    open spec fn deep_view(&self) -> TaskView {
        self@
    }
}

/// The fields of a task as they stood in a JSON body.
#[derive(Debug, Clone, PartialEq, Eq)]
pub struct TaskPayload {
    pub id: Option<u64>,
    pub assignee: Option<u64>,
    pub comment_count: Option<u64>,
    pub completed: Option<bool>,
    pub content: Option<String>,
    pub due: Option<DuePayload>,
    pub label_ids: Option<Vec<u64>>,
    pub order: Option<u64>,
    pub priority: Option<u64>,
    pub project_id: Option<u64>,
    pub section_id: Option<u64>,
    pub parent_id: Option<u64>,
    pub url: Option<String>,
}

/// A task payload as plain values.
pub struct TaskPayloadView {
    pub id: Option<u64>,
    pub assignee: Option<u64>,
    pub comment_count: Option<u64>,
    pub completed: Option<bool>,
    pub content: Option<Seq<char>>,
    pub due: Option<DuePayloadView>,
    pub label_ids: Option<Seq<u64>>,
    pub order: Option<u64>,
    pub priority: Option<u64>,
    pub project_id: Option<u64>,
    pub section_id: Option<u64>,
    pub parent_id: Option<u64>,
    pub url: Option<Seq<char>>,
}

impl View for TaskPayload {
    type V = TaskPayloadView;

    open spec fn view(&self) -> TaskPayloadView {
        TaskPayloadView {
            id: self.id,
            assignee: self.assignee,
            comment_count: self.comment_count,
            completed: self.completed,
            content: self.content.deep_view(),
            due: self.due.deep_view(),
            label_ids: ids_view(self.label_ids),
            order: self.order,
            priority: self.priority,
            project_id: self.project_id,
            section_id: self.section_id,
            parent_id: self.parent_id,
            url: self.url.deep_view(),
        }
    }
}

impl DeepView for TaskPayload {
    type V = TaskPayloadView;

    open spec fn deep_view(&self) -> TaskPayloadView {
        self@
    }
}

impl TaskPayloadView {
    /// Whether every field is present that a task must have: all but the
    /// assignee, the due date and the parent.
    pub open spec fn is_complete(self) -> bool {
        &&& self.id is Some
        &&& self.comment_count is Some
        &&& self.completed is Some
        &&& self.content is Some
        &&& self.label_ids is Some
        &&& self.order is Some
        &&& self.priority is Some
        &&& self.project_id is Some
        &&& self.section_id is Some
        &&& self.url is Some
    }

    /// The task with the given due date.
    pub open spec fn with_due(self, due: Option<DueView>) -> TaskView {
        TaskView {
            id: self.id->0,
            assignee: self.assignee,
            comment_count: self.comment_count->0,
            completed: self.completed->0,
            content: self.content->0,
            due,
            label_ids: self.label_ids->0,
            order: self.order->0,
            priority: self.priority->0,
            project_id: self.project_id->0,
            section_id: self.section_id->0,
            parent_id: self.parent_id,
            url: self.url->0,
        }
    }
}

impl Record for Task {
    type Payload = TaskPayload;

    /// A payload that lacks a required field is refused before its due
    /// date is looked at; one that has them all decodes if its due date
    /// does, or has none.
    open spec fn decoded(payload: TaskPayloadView) -> Result<TaskView, TodoistAPIError> {
        if !payload.is_complete() {
            Err(TodoistAPIError::DecodeFailure)
        } else {
            match payload.due {
                None => Ok(payload.with_due(None)),
                Some(due) => match Due::decoded(due) {
                    Ok(d) => Ok(payload.with_due(Some(d))),
                    Err(e) => Err(e),
                },
            }
        }
    }

    fn from_payload(payload: &TaskPayload) -> (r: Result<Task, TodoistAPIError>) {
        match (
            payload.id,
            payload.comment_count,
            payload.completed,
            &payload.content,
            &payload.label_ids,
            payload.order,
            payload.priority,
            payload.project_id,
            payload.section_id,
            &payload.url,
        ) {
            (
                Some(id),
                Some(comment_count),
                Some(completed),
                Some(content),
                Some(label_ids),
                Some(order),
                Some(priority),
                Some(project_id),
                Some(section_id),
                Some(url),
            ) => {
                let due = match &payload.due {
                    None => None,
                    Some(d) => match Due::from_payload(d) {
                        Ok(due) => Some(due),
                        Err(e) => {
                            return Err(e);
                        },
                    },
                };
                Ok(
                    Task {
                        id,
                        assignee: payload.assignee,
                        comment_count,
                        completed,
                        content: content.clone(),
                        due,
                        label_ids: label_ids.clone(),
                        order,
                        priority,
                        project_id,
                        section_id,
                        parent_id: payload.parent_id,
                        url: url.clone(),
                    },
                )
            },
            _ => Err(TodoistAPIError::DecodeFailure),
        }
    }
}

impl Task {
    /// The request that lists every task.
    pub fn get_all(client: &TodoistAPI) -> (r: Result<Request, TodoistAPIError>)
        ensures
            result_view(r) == client@.request("tasks"@),
    {
        assert(TaskParamsView::unset().pairs() =~= Seq::empty());
        client.get_tasks(TaskParams::default())
    }
}

/// The criteria of a task listing. Nothing set means every task; what is
/// set is combined by the server.
#[derive(Debug, Clone, PartialEq, Eq)]
pub struct TaskParams {
    pub project_id: Option<u64>,
    pub label_id: Option<u64>,
    pub filter: Option<String>,
    pub lang: Option<String>,
    pub ids: Option<Vec<u64>>,
}

/// The criteria of a task listing as plain values.
pub struct TaskParamsView {
    pub project_id: Option<u64>,
    pub label_id: Option<u64>,
    pub filter: Option<Seq<char>>,
    pub lang: Option<Seq<char>>,
    pub ids: Option<Seq<u64>>,
}

pub open spec fn text_view(text: Option<String>) -> Option<Seq<char>> {
    match text {
        Some(t) => Some(t@),
        None => None,
    }
}

pub open spec fn ids_view(ids: Option<Vec<u64>>) -> Option<Seq<u64>> {
    match ids {
        Some(v) => Some(v@),
        None => None,
    }
}

impl View for TaskParams {
    type V = TaskParamsView;

    open spec fn view(&self) -> TaskParamsView {
        TaskParamsView {
            project_id: self.project_id,
            label_id: self.label_id,
            filter: text_view(self.filter),
            lang: text_view(self.lang),
            ids: ids_view(self.ids),
        }
    }
}

impl Default for TaskParams {
    fn default() -> (r: TaskParams)
        ensures
            r@ == TaskParamsView::unset(),
    {
        TaskParams { project_id: None, label_id: None, filter: None, lang: None, ids: None }
    }
}

pub open spec fn decimal_value(id: Option<u64>) -> Option<Seq<char>> {
    match id {
        Some(n) => Some(decimal(n as nat)),
        None => None,
    }
}

pub open spec fn joined_value(ids: Option<Seq<u64>>) -> Option<Seq<char>> {
    match ids {
        Some(v) => Some(comma_joined(v)),
        None => None,
    }
}

/// One criterion with the value that it is set to.
pub enum Criterion {
    ProjectId(u64),
    LabelId(u64),
    Filter(Seq<char>),
    Lang(Seq<char>),
    Ids(Seq<u64>),
}

impl Criterion {
    /// Whether two settings are of the same criterion.
    pub open spec fn same_field(self, other: Criterion) -> bool {
        match (self, other) {
            (Criterion::ProjectId(_), Criterion::ProjectId(_)) => true,
            (Criterion::LabelId(_), Criterion::LabelId(_)) => true,
            (Criterion::Filter(_), Criterion::Filter(_)) => true,
            (Criterion::Lang(_), Criterion::Lang(_)) => true,
            (Criterion::Ids(_), Criterion::Ids(_)) => true,
            _ => false,
        }
    }
}

impl TaskParamsView {
    /// These parameters with one criterion set anew.
    pub open spec fn with(self, criterion: Criterion) -> TaskParamsView {
        match criterion {
            Criterion::ProjectId(id) => TaskParamsView { project_id: Some(id), ..self },
            Criterion::LabelId(id) => TaskParamsView { label_id: Some(id), ..self },
            Criterion::Filter(text) => TaskParamsView { filter: Some(text), ..self },
            Criterion::Lang(text) => TaskParamsView { lang: Some(text), ..self },
            Criterion::Ids(ids) => TaskParamsView { ids: Some(ids), ..self },
        }
    }

    /// No criterion set.
    pub open spec fn unset() -> TaskParamsView {
        TaskParamsView { project_id: None, label_id: None, filter: None, lang: None, ids: None }
    }

    /// The parameters as name and value pairs, in the order in which they
    /// are sent whatever the order in which they were set: project, label,
    /// filter, language, identifiers. A criterion that is not set has no
    /// pair. Numbers are written in decimal, the identifier list joined by
    /// commas, and the filter and the language as they were given.
    pub open spec fn pairs(self) -> Seq<(Seq<char>, Seq<char>)> {
        optional_pair("project_id"@, decimal_value(self.project_id)) + optional_pair(
            "label_id"@,
            decimal_value(self.label_id),
        ) + optional_pair("filter"@, self.filter) + optional_pair("lang"@, self.lang)
            + optional_pair("ids"@, joined_value(self.ids))
    }
}

proof fn lemma_names_are_plain()
    ensures
        form_plain("project_id"@),
        form_plain("label_id"@),
        "project_id"@.len() == 10,
        "label_id"@.len() == 8,
{
    reveal_strlit("project_id");
    reveal_strlit("label_id");
}

/// With nothing set there is no pair and the query string is empty.
pub proof fn lemma_unset_renders_nothing()
    ensures
        TaskParamsView::unset().pairs() == Seq::<(Seq<char>, Seq<char>)>::empty(),
        query_text(TaskParamsView::unset().pairs()) == Seq::<char>::empty(),
{
    assert(TaskParamsView::unset().pairs() =~= Seq::empty());
}

/// With the project as the only criterion the query string is
/// `project_id=` and the number, whatever else was left unset and in
/// whatever order.
pub proof fn lemma_project_alone(project_id: u64)
    ensures
        query_text(
            (TaskParamsView { project_id: Some(project_id), ..TaskParamsView::unset() }).pairs(),
        ) == "project_id="@ + decimal(project_id as nat),
{
    let params = TaskParamsView { project_id: Some(project_id), ..TaskParamsView::unset() };
    let number = decimal(project_id as nat);
    let none = Seq::<(Seq<char>, Seq<char>)>::empty();
    assert(params.pairs() =~= none.push(("project_id"@, number)));
    lemma_query_text_push(none, "project_id"@, number);
    lemma_names_are_plain();
    lemma_decimal_is_plain(project_id as nat);
    reveal_strlit("project_id");
    reveal_strlit("project_id=");
    assert("project_id="@ =~= "project_id"@ + seq!['=']);
    assert(query_text(params.pairs()) =~= "project_id="@ + number);
}

/// A task listing with the project as its only criterion asks for
/// `tasks?project_id=` and the number.
pub proof fn lemma_listing_by_project(client: ApiView, project_id: u64)
    ensures
        client.listing(
            "tasks"@,
            (TaskParamsView { project_id: Some(project_id), ..TaskParamsView::unset() }).pairs(),
        ) == client.request("tasks?project_id="@ + decimal(project_id as nat)),
{
    lemma_project_alone(project_id);
    lemma_decimal_is_plain(project_id as nat);
    reveal_strlit("tasks");
    reveal_strlit("project_id=");
    reveal_strlit("tasks?project_id=");
    let number = decimal(project_id as nat);
    assert("tasks?project_id="@ =~= "tasks"@ + seq!['?'] + "project_id="@);
    assert("tasks"@ + seq!['?'] + ("project_id="@ + number) =~= "tasks?project_id="@ + number);
}

/// Where a project and a label are both set, the project comes first and
/// the label second, and the query string begins with the two of them in
/// that order.
pub proof fn lemma_project_before_label(params: TaskParamsView)
    requires
        params.project_id is Some,
        params.label_id is Some,
    ensures
        params.pairs().len() >= 2,
        params.pairs()[0] == ("project_id"@, decimal(params.project_id->0 as nat)),
        params.pairs()[1] == ("label_id"@, decimal(params.label_id->0 as nat)),
        ("project_id="@ + decimal(params.project_id->0 as nat) + "&label_id="@ + decimal(
            params.label_id->0 as nat,
        )).is_prefix_of(query_text(params.pairs())),
{
    let project = decimal(params.project_id->0 as nat);
    let label = decimal(params.label_id->0 as nat);
    let first = seq![("project_id"@, project), ("label_id"@, label)];
    let rest = optional_pair("filter"@, params.filter) + optional_pair("lang"@, params.lang)
        + optional_pair("ids"@, joined_value(params.ids));
    assert(params.pairs() =~= first + rest);
    lemma_query_text_extends(first, rest);
    lemma_names_are_plain();
    lemma_decimal_is_plain(params.project_id->0 as nat);
    lemma_decimal_is_plain(params.label_id->0 as nat);
    reveal_strlit("project_id");
    reveal_strlit("project_id=");
    reveal_strlit("label_id");
    reveal_strlit("&label_id=");
    assert("project_id="@ =~= "project_id"@ + seq!['=']);
    assert("&label_id="@ =~= seq!['&'] + "label_id"@ + seq!['=']);
    let none = Seq::<(Seq<char>, Seq<char>)>::empty();
    let one = none.push(("project_id"@, project));
    lemma_query_text_push(none, "project_id"@, project);
    assert(query_text(one) =~= "project_id="@ + project);
    assert(first =~= one.push(("label_id"@, label)));
    lemma_query_text_push(one, "label_id"@, label);
    assert(query_text(first) =~= "project_id="@ + project + "&label_id="@ + label);
}

/// Criteria may be set in any order: setting one and then another gives
/// what setting them the other way round gives.
pub proof fn lemma_setting_order(params: TaskParamsView, one: Criterion, other: Criterion)
    requires
        !one.same_field(other),
    ensures
        params.with(one).with(other) == params.with(other).with(one),
{
}

/// Setting a criterion again replaces what it was set to before.
pub proof fn lemma_last_setting_wins(params: TaskParamsView, earlier: Criterion, later: Criterion)
    requires
        earlier.same_field(later),
    ensures
        params.with(earlier).with(later) == params.with(later),
{
}

impl TaskParams {
    /// Computes the pairs of these parameters.
    pub fn query_pairs(&self) -> (r: Vec<(String, String)>)
        ensures
            r.deep_view() == self@.pairs(),
    {
        let mut pairs: Vec<(String, String)> = Vec::new();
        assert(pairs.deep_view() =~= Seq::empty());
        if let Some(id) = self.project_id {
            push_pair(&mut pairs, "project_id", decimal_text(id));
        }
        let ghost first = optional_pair("project_id"@, decimal_value(self.project_id));
        assert(pairs.deep_view() =~= first);
        if let Some(id) = self.label_id {
            push_pair(&mut pairs, "label_id", decimal_text(id));
        }
        let ghost second = first + optional_pair("label_id"@, decimal_value(self.label_id));
        assert(pairs.deep_view() =~= second);
        if let Some(filter) = &self.filter {
            push_pair(&mut pairs, "filter", filter.clone());
        }
        let ghost third = second + optional_pair("filter"@, self@.filter);
        assert(pairs.deep_view() =~= third);
        if let Some(lang) = &self.lang {
            push_pair(&mut pairs, "lang", lang.clone());
        }
        let ghost fourth = third + optional_pair("lang"@, self@.lang);
        assert(pairs.deep_view() =~= fourth);
        if let Some(ids) = &self.ids {
            push_pair(&mut pairs, "ids", comma_joined_text(ids));
        }
        assert(pairs.deep_view() =~= fourth + optional_pair("ids"@, joined_value(self@.ids)));
        pairs
    }
}

/// Collects the criteria of a task listing one by one, in any order.
#[derive(Debug, Clone)]
pub struct TaskParamsBuilder {
    project_id: Option<u64>,
    label_id: Option<u64>,
    filter: Option<String>,
    lang: Option<String>,
    ids: Option<Vec<u64>>,
}

impl Default for TaskParamsBuilder {
    fn default() -> (r: TaskParamsBuilder)
        ensures
            r.params() == TaskParamsView::unset(),
    {
        TaskParamsBuilder { project_id: None, label_id: None, filter: None, lang: None, ids: None }
    }
}

impl TaskParamsBuilder {
    /// What has been set so far.
    pub closed spec fn params(self) -> TaskParamsView {
        TaskParamsView {
            project_id: self.project_id,
            label_id: self.label_id,
            filter: text_view(self.filter),
            lang: text_view(self.lang),
            ids: ids_view(self.ids),
        }
    }

    /// Restricts the listing to one project. A later call replaces an
    /// earlier one.
    pub fn project_id(&mut self, value: u64) -> (r: &mut Self)
        ensures
            r.params() == old(self).params().with(Criterion::ProjectId(value)),
            *final(self) == *final(r),
    {
        self.project_id = Some(value);
        self
    }

    /// Restricts the listing to one label. A later call replaces an
    /// earlier one.
    pub fn label_id(&mut self, value: u64) -> (r: &mut Self)
        ensures
            r.params() == old(self).params().with(Criterion::LabelId(value)),
            *final(self) == *final(r),
    {
        self.label_id = Some(value);
        self
    }

    /// Sets the filter expression, which is sent as it is given. A later
    /// call replaces an earlier one.
    pub fn filter(&mut self, value: String) -> (r: &mut Self)
        ensures
            r.params() == old(self).params().with(Criterion::Filter(value@)),
            *final(self) == *final(r),
    {
        self.filter = Some(value);
        self
    }

    /// Sets the language of the filter expression. A later call replaces
    /// an earlier one.
    pub fn lang(&mut self, value: String) -> (r: &mut Self)
        ensures
            r.params() == old(self).params().with(Criterion::Lang(value@)),
            *final(self) == *final(r),
    {
        self.lang = Some(value);
        self
    }

    /// Restricts the listing to the given tasks, in the given order. A
    /// later call replaces an earlier one.
    pub fn ids(&mut self, value: Vec<u64>) -> (r: &mut Self)
        ensures
            r.params() == old(self).params().with(Criterion::Ids(value@)),
            *final(self) == *final(r),
    {
        self.ids = Some(value);
        self
    }

    /// The parameters as set. No task listing requires a criterion, so this
    /// always succeeds.
    pub fn build(&self) -> (r: Result<TaskParams, TodoistAPIError>)
        ensures
            r matches Ok(params) && params@ == self.params(),
    {
        Ok(
            TaskParams {
                project_id: self.project_id,
                label_id: self.label_id,
                filter: self.filter.clone(),
                lang: self.lang.clone(),
                ids: self.ids.clone(),
            },
        )
    }

    /// The request that lists the tasks that meet what has been set.
    pub fn call(&self, client: &TodoistAPI) -> (r: Result<Request, TodoistAPIError>)
        ensures
            result_view(r) == client@.listing("tasks"@, self.params().pairs()),
    {
        match self.build() {
            Ok(data) => client.get_tasks(data),
            Err(_) => Err(TodoistAPIError::IncompleteParams),
        }
    }
}

} // verus!
