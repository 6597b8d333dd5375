//! How a request ended, and the event that reports it to the page.

use vstd::prelude::*;
use vstd::string::StringExecFns;
use crate::event::Event;
use crate::model::{EventModel, Text};

verus! {

/// The notice for a catalog request that failed.
pub const CATALOG_FAILED: &'static str = "Failed to load templates";

/// The message for a rendering service that answered without success.
pub const RENDER_REFUSED: &'static str = "Failed to generate meme";

/// The message for an answer whose image could not be read.
pub const RENDER_UNREADABLE: &'static str = "Failed to process meme image";

/// What stands before the transport's own words in the message for a
/// rendering request that got no answer.
pub const NETWORK_ERROR_PREFIX: &'static str = "Network error: ";

/// How the catalog request ended.
#[derive(Debug, PartialEq, Eq)]
pub enum CatalogReply {
    /// The service answered with this list of template identifiers.
    Templates(Vec<String>),
    /// The service answered, and the answer could not be read as a list.
    Unreadable,
    /// The service could not be reached.
    Unreachable,
}

/// How the rendering request ended.
#[derive(Debug, PartialEq, Eq)]
pub enum RenderReply {
    /// The service sent an image, which the host keeps behind this handle.
    Image(String),
    /// The service answered with success, and the image could not be read.
    Unreadable,
    /// The service answered without success.
    Refused,
    /// The service could not be reached; the text is the transport's own.
    Unreachable(String),
}

/// The event that reports `reply` to the page.
pub open spec fn catalog_event_of(reply: CatalogReply) -> EventModel {
    match reply {
        CatalogReply::Templates(list) => EventModel::CatalogLoaded(list.deep_view()),
        CatalogReply::Unreadable => EventModel::CatalogLoadFailed(CATALOG_FAILED@),
        CatalogReply::Unreachable => EventModel::CatalogLoadFailed(CATALOG_FAILED@),
    }
}

/// The event that reports `reply` to the page.
pub open spec fn render_event_of(reply: RenderReply) -> EventModel {
    match reply {
        RenderReply::Image(handle) => EventModel::RenderSucceeded(handle@),
        RenderReply::Unreadable => EventModel::RenderFailed(RENDER_UNREADABLE@),
        RenderReply::Refused => EventModel::RenderFailed(RENDER_REFUSED@),
        RenderReply::Unreachable(text) => EventModel::RenderFailed(network_error(text@)),
    }
}

/// The message for a rendering request that got no answer: the transport's
/// own words behind a fixed prefix.
pub open spec fn network_error(text: Text) -> Text {
    NETWORK_ERROR_PREFIX@ + text
}

/// Turns the end of the catalog request into the event for the page: the
/// list on success, the same notice for every failure.
pub fn catalog_event(reply: CatalogReply) -> (event: Event)
    ensures
        event@ == catalog_event_of(reply),
        event@ is CatalogLoaded <==> reply is Templates,
{
    match reply {
        CatalogReply::Templates(list) => Event::CatalogLoaded(list),
        CatalogReply::Unreadable => Event::CatalogLoadFailed(String::from_str(CATALOG_FAILED)),
        CatalogReply::Unreachable => Event::CatalogLoadFailed(String::from_str(CATALOG_FAILED)),
    }
}

/// Turns the end of the rendering request into the event for the page:
/// success with the handle of the image, failure with a message that says
/// what went wrong.
pub fn render_event(reply: RenderReply) -> (event: Event)
    ensures
        event@ == render_event_of(reply),
        event@ is RenderSucceeded <==> reply is Image,
{
    match reply {
        RenderReply::Image(handle) => Event::RenderSucceeded(handle),
        RenderReply::Unreadable => Event::RenderFailed(String::from_str(RENDER_UNREADABLE)),
        RenderReply::Refused => Event::RenderFailed(String::from_str(RENDER_REFUSED)),
        RenderReply::Unreachable(text) => {
            let mut message = String::from_str(NETWORK_ERROR_PREFIX);
            message.append(text.as_str());
            Event::RenderFailed(message)
        },
    }
}

} // verus!
