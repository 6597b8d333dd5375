//! Events that reach the page, and what the page asks of its host in return.

use vstd::prelude::*;
use crate::form::MemeRequest;
use crate::model::{EffectModel, EventModel, ReactionModel, ScreenModel, SubmissionModel};

verus! {

/// One thing that happened: an input of the user, or the end of a request.
#[derive(Debug, PartialEq, Eq)]
pub enum Event {
    /// The user changed the top caption.
    EditTopText(String),
    /// The user changed the bottom caption.
    EditBottomText(String),
    /// The user changed the image URL.
    EditImageUrl(String),
    /// The user picked a template; the empty string means "none".
    SelectTemplate(String),
    /// The user asked for the meme.
    SubmitRequested,
    /// The catalog request ended with this list of template identifiers.
    CatalogLoaded(Vec<String>),
    /// The catalog request failed.
    CatalogLoadFailed(String),
    /// The rendering request ended with an image behind this handle.
    RenderSucceeded(String),
    /// The rendering request failed.
    RenderFailed(String),
}

impl View for Event {
    type V = EventModel;

    open spec fn view(&self) -> EventModel {
        match self {
            Event::EditTopText(t) => EventModel::EditTopText(t@),
            Event::EditBottomText(t) => EventModel::EditBottomText(t@),
            Event::EditImageUrl(u) => EventModel::EditImageUrl(u@),
            Event::SelectTemplate(t) => EventModel::SelectTemplate(t@),
            Event::SubmitRequested => EventModel::SubmitRequested,
            Event::CatalogLoaded(list) => EventModel::CatalogLoaded(list.deep_view()),
            Event::CatalogLoadFailed(m) => EventModel::CatalogLoadFailed(m@),
            Event::RenderSucceeded(h) => EventModel::RenderSucceeded(h@),
            Event::RenderFailed(m) => EventModel::RenderFailed(m@),
        }
    }
}

/// Where the current submission stands. `Loading` keeps further submissions
/// out until the request in flight has ended.
#[derive(Debug, PartialEq, Eq)]
pub enum SubmissionState {
    /// Nothing was submitted yet.
    Idle,
    /// A rendering request is in flight.
    Loading,
    /// The last request gave an image, kept behind this handle.
    Succeeded(String),
    /// The last request failed with this message.
    Failed(String),
}

impl View for SubmissionState {
    type V = SubmissionModel;

    open spec fn view(&self) -> SubmissionModel {
        match self {
            SubmissionState::Idle => SubmissionModel::Idle,
            SubmissionState::Loading => SubmissionModel::Loading,
            SubmissionState::Succeeded(h) => SubmissionModel::Succeeded(h@),
            SubmissionState::Failed(m) => SubmissionModel::Failed(m@),
        }
    }
}

/// Asynchronous work for the host. When it ends, the host hands the page the
/// matching event.
#[derive(Debug, PartialEq, Eq)]
pub enum Effect {
    /// Ask the catalog service for the list of templates.
    FetchCatalog,
    /// Ask the rendering service for the meme that the request describes.
    RenderMeme(MemeRequest),
}

impl View for Effect {
    type V = EffectModel;

    open spec fn view(&self) -> EffectModel {
        match self {
            Effect::FetchCatalog => EffectModel::FetchCatalog,
            Effect::RenderMeme(request) => EffectModel::RenderMeme(request@),
        }
    }
}

/// What the host does after an event, besides showing the state again.
#[derive(Debug, PartialEq, Eq)]
pub struct Reaction {
    /// The request to start, if any.
    pub effect: Option<Effect>,
    /// A result handle that the page gave up: the host disposes of it.
    pub released: Option<String>,
    /// Whether the event was applied. An ignored event leaves the state as it
    /// was, and the page need not be shown again.
    pub dirty: bool,
}

impl View for Reaction {
    type V = ReactionModel;

    open spec fn view(&self) -> ReactionModel {
        ReactionModel {
            effect: match self.effect {
                Some(effect) => Some(effect@),
                None => None,
            },
            released: self.released.deep_view(),
            dirty: self.dirty,
        }
    }
}

/// What the page shows besides the form and the catalog.
#[derive(Debug, PartialEq, Eq)]
pub struct Screen {
    /// Whether the generate action is offered.
    pub submit_enabled: bool,
    /// The label of the generate action.
    pub submit_label: &'static str,
    /// The message of the failed submission, if the last one failed.
    pub error: Option<String>,
    /// The notice that a failed catalog request left.
    pub notice: Option<String>,
    /// The handle of the image, if the last submission gave one.
    pub result: Option<String>,
}

impl View for Screen {
    type V = ScreenModel;

    open spec fn view(&self) -> ScreenModel {
        ScreenModel {
            submit_enabled: self.submit_enabled,
            submit_label: self.submit_label@,
            error: self.error.deep_view(),
            notice: self.notice.deep_view(),
            result: self.result.deep_view(),
        }
    }
}

impl Reaction {
    /// The reaction to an event that was ignored.
    pub fn ignored() -> (reaction: Reaction)
        ensures
            reaction@ == ReactionModel::ignored(),
    {
        Reaction { effect: None, released: None, dirty: false }
    }

    /// The reaction to an event that changed the state and asks nothing else.
    pub fn applied() -> (reaction: Reaction)
        ensures
            reaction@ == ReactionModel::applied(),
    {
        Reaction { effect: None, released: None, dirty: true }
    }
}

} // verus!
