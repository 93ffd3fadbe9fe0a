//! Labels.

use crate::api::Record;
use crate::api::Request;
use crate::api::TodoistAPI;
use crate::api::TodoistAPIError;
use crate::api::result_view;
use vstd::prelude::*;

verus! {

/// A label.
#[derive(Debug, Clone, PartialEq, Eq)]
pub struct Label {
    pub id: u64,
    pub name: String,
    pub color: u64,
    pub order: u64,
    pub favorite: bool,
}

/// A label as plain values.
pub struct LabelView {
    pub id: u64,
    pub name: Seq<char>,
    pub color: u64,
    pub order: u64,
    pub favorite: bool,
}

impl View for Label {
    type V = LabelView;

    open spec fn view(&self) -> LabelView {
        LabelView {
            id: self.id,
            name: self.name@,
            color: self.color,
            order: self.order,
            favorite: self.favorite,
        }
    }
}

impl DeepView for Label {
    type V = LabelView;

    open spec fn deep_view(&self) -> LabelView {
        self@
    }
}

/// The fields of a label as they stood in a JSON body.
#[derive(Debug, Clone, PartialEq, Eq)]
pub struct LabelPayload {
    pub id: Option<u64>,
    pub name: Option<String>,
    pub color: Option<u64>,
    pub order: Option<u64>,
    pub favorite: Option<bool>,
}

/// A label payload as plain values.
pub struct LabelPayloadView {
    pub id: Option<u64>,
    pub name: Option<Seq<char>>,
    pub color: Option<u64>,
    pub order: Option<u64>,
    pub favorite: Option<bool>,
}

impl View for LabelPayload {
    type V = LabelPayloadView;

    open spec fn view(&self) -> LabelPayloadView {
        LabelPayloadView {
            id: self.id,
            name: self.name.deep_view(),
            color: self.color,
            order: self.order,
            favorite: self.favorite,
        }
    }
}

impl DeepView for LabelPayload {
    type V = LabelPayloadView;

    open spec fn deep_view(&self) -> LabelPayloadView {
        self@
    }
}

impl Record for Label {
    type Payload = LabelPayload;

    /// Every field of a label is required.
    open spec fn decoded(payload: LabelPayloadView) -> Result<LabelView, TodoistAPIError> {
        if payload.id is Some && payload.name is Some && payload.color is Some
            && payload.order is Some && payload.favorite is Some {
            Ok(
                LabelView {
                    id: payload.id->0,
                    name: payload.name->0,
                    color: payload.color->0,
                    order: payload.order->0,
                    favorite: payload.favorite->0,
                },
            )
        } else {
            Err(TodoistAPIError::DecodeFailure)
        }
    }

    fn from_payload(payload: &LabelPayload) -> (r: Result<Label, TodoistAPIError>) {
        match (payload.id, &payload.name, payload.color, payload.order, payload.favorite) {
            (Some(id), Some(name), Some(color), Some(order), Some(favorite)) => Ok(
                Label { id, name: name.clone(), color, order, favorite },
            ),
            _ => Err(TodoistAPIError::DecodeFailure),
        }
    }
}

impl Label {
    /// The request that lists every label.
    pub fn get_all(client: &TodoistAPI) -> (r: Result<Request, TodoistAPIError>)
        ensures
            result_view(r) == client@.request("labels"@),
    {
        client.get_labels()
    }
}

} // verus!
