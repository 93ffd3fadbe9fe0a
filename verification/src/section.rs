//! Sections and the parameters of a section listing.

use crate::api::Record;
use crate::api::Request;
use crate::api::TodoistAPI;
use crate::api::TodoistAPIError;
use crate::api::result_view;
use crate::params::optional_pair;
use crate::params::push_pair;
use crate::text::decimal;
use crate::text::decimal_text;
use vstd::prelude::*;

verus! {

/// A section of a project.
#[derive(Debug, Clone, PartialEq, Eq)]
pub struct Section {
    pub id: u64,
    /// The project that the section belongs to. Nothing here checks that
    /// it exists.
    pub project_id: u64,
    pub order: u64,
    pub name: String,
}

/// A section as plain values.
pub struct SectionView {
    pub id: u64,
    pub project_id: u64,
    pub order: u64,
    pub name: Seq<char>,
}

impl View for Section {
    type V = SectionView;

    open spec fn view(&self) -> SectionView {
        SectionView {
            id: self.id,
            project_id: self.project_id,
            order: self.order,
            name: self.name@,
        }
    }
}

impl DeepView for Section {
    type V = SectionView;

    open spec fn deep_view(&self) -> SectionView {
        self@
    }
}

/// The fields of a section as they stood in a JSON body.
#[derive(Debug, Clone, PartialEq, Eq)]
pub struct SectionPayload {
    pub id: Option<u64>,
    pub project_id: Option<u64>,
    pub order: Option<u64>,
    pub name: Option<String>,
}

/// A section payload as plain values.
pub struct SectionPayloadView {
    pub id: Option<u64>,
    pub project_id: Option<u64>,
    pub order: Option<u64>,
    pub name: Option<Seq<char>>,
}

impl View for SectionPayload {
    type V = SectionPayloadView;

    open spec fn view(&self) -> SectionPayloadView {
        SectionPayloadView {
            id: self.id,
            project_id: self.project_id,
            order: self.order,
            name: self.name.deep_view(),
        }
    }
}

impl DeepView for SectionPayload {
    type V = SectionPayloadView;

    open spec fn deep_view(&self) -> SectionPayloadView {
        self@
    }
}

impl Record for Section {
    type Payload = SectionPayload;

    /// Every field of a section is required.
    open spec fn decoded(payload: SectionPayloadView) -> Result<SectionView, TodoistAPIError> {
        if payload.id is Some && payload.project_id is Some && payload.order is Some
            && payload.name is Some {
            Ok(
                SectionView {
                    id: payload.id->0,
                    project_id: payload.project_id->0,
                    order: payload.order->0,
                    name: payload.name->0,
                },
            )
        } else {
            Err(TodoistAPIError::DecodeFailure)
        }
    }

    fn from_payload(payload: &SectionPayload) -> (r: Result<Section, TodoistAPIError>) {
        match (payload.id, payload.project_id, payload.order, &payload.name) {
            (Some(id), Some(project_id), Some(order), Some(name)) => Ok(
                Section { id, project_id, order, name: name.clone() },
            ),
            _ => Err(TodoistAPIError::DecodeFailure),
        }
    }
}

impl Section {
    /// The request that lists every section.
    pub fn get_all(client: &TodoistAPI) -> (r: Result<Request, TodoistAPIError>)
        ensures
            result_view(r) == client@.request("sections"@),
    {
        assert((SectionParams { project_id: None }).pairs() =~= Seq::empty());
        SectionParamsBuilder::default().call(client)
    }
}

/// The criteria of a section listing. Nothing set means every section.
#[derive(Debug, Clone, PartialEq, Eq)]
pub struct SectionParams {
    pub project_id: Option<u64>,
}

impl Default for SectionParams {
    fn default() -> (r: SectionParams)
        ensures
            r.project_id is None,
    {
        SectionParams { project_id: None }
    }
}

impl SectionParams {
    /// The parameters as name and value pairs, in the order in which they
    /// are sent; a criterion that is not set has no pair.
    pub open spec fn pairs(self) -> Seq<(Seq<char>, Seq<char>)> {
        optional_pair(
            "project_id"@,
            match self.project_id {
                Some(id) => Some(decimal(id as nat)),
                None => None,
            },
        )
    }

    /// Computes `pairs`.
    pub fn query_pairs(&self) -> (r: Vec<(String, String)>)
        ensures
            r.deep_view() == self.pairs(),
    {
        let mut pairs: Vec<(String, String)> = Vec::new();
        assert(pairs.deep_view() =~= Seq::empty());
        if let Some(id) = self.project_id {
            push_pair(&mut pairs, "project_id", decimal_text(id));
        }
        pairs
    }
}

/// Collects the criteria of a section listing one by one.
#[derive(Debug, Clone)]
pub struct SectionParamsBuilder {
    project_id: Option<u64>,
}

impl Default for SectionParamsBuilder {
    fn default() -> (r: SectionParamsBuilder)
        ensures
            r.params() == (SectionParams { project_id: None }),
    {
        SectionParamsBuilder { project_id: None }
    }
}

impl SectionParamsBuilder {
    /// What has been set so far.
    pub closed spec fn params(self) -> SectionParams {
        SectionParams { project_id: self.project_id }
    }

    /// Restricts the listing to one project. A later call replaces an
    /// earlier one.
    pub fn project_id(&mut self, value: u64) -> (r: &mut Self)
        ensures
            r.params() == (SectionParams { project_id: Some(value) }),
            *final(self) == *final(r),
    {
        self.project_id = Some(value);
        self
    }

    /// The parameters as set. No section listing requires a criterion, so
    /// this always succeeds.
    pub fn build(&self) -> (r: Result<SectionParams, TodoistAPIError>)
        ensures
            r == Ok::<SectionParams, TodoistAPIError>(self.params()),
    {
        Ok(SectionParams { project_id: self.project_id })
    }

    /// The request that lists the sections that meet what has been set.
    pub fn call(&self, client: &TodoistAPI) -> (r: Result<Request, TodoistAPIError>)
        ensures
            result_view(r) == client@.listing("sections"@, self.params().pairs()),
    {
        match self.build() {
            Ok(data) => client.get_sections(data),
            Err(_) => Err(TodoistAPIError::IncompleteParams),
        }
    }
}

} // verus!
