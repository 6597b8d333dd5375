use meme_frontend::controller::Controller;
use meme_frontend::event::{Event, SubmissionState};
use meme_frontend::reply::{
    catalog_event, render_event, CatalogReply, RenderReply, CATALOG_FAILED, NETWORK_ERROR_PREFIX,
    RENDER_REFUSED, RENDER_UNREADABLE,
};

#[test]
fn messages_are_fixed() {
    assert_eq!(CATALOG_FAILED, "Failed to load templates");
    assert_eq!(RENDER_REFUSED, "Failed to generate meme");
    assert_eq!(RENDER_UNREADABLE, "Failed to process meme image");
    assert_eq!(NETWORK_ERROR_PREFIX, "Network error: ");
}

#[test]
fn catalog_reply_with_list_loads_it() {
    let list = vec!["doge".to_string(), "success-kid".to_string()];
    assert_eq!(catalog_event(CatalogReply::Templates(list.clone())), Event::CatalogLoaded(list));
    assert_eq!(catalog_event(CatalogReply::Templates(Vec::new())), Event::CatalogLoaded(Vec::new()));
}

#[test]
fn catalog_failures_give_the_same_notice() {
    let expected = Event::CatalogLoadFailed("Failed to load templates".to_string());
    assert_eq!(catalog_event(CatalogReply::Unreachable), expected);
    assert_eq!(catalog_event(CatalogReply::Unreadable), expected);
}

#[test]
fn render_reply_with_image_succeeds() {
    assert_eq!(
        render_event(RenderReply::Image("blob:1".to_string())),
        Event::RenderSucceeded("blob:1".to_string())
    );
    assert_eq!(render_event(RenderReply::Image(String::new())), Event::RenderSucceeded(String::new()));
}

#[test]
fn render_refusal_and_unreadable_image_fail() {
    assert_eq!(
        render_event(RenderReply::Refused),
        Event::RenderFailed("Failed to generate meme".to_string())
    );
    assert_eq!(
        render_event(RenderReply::Unreadable),
        Event::RenderFailed("Failed to process meme image".to_string())
    );
}

#[test]
fn transport_failure_carries_its_text() {
    assert_eq!(
        render_event(RenderReply::Unreachable("connection refused".to_string())),
        Event::RenderFailed("Network error: connection refused".to_string())
    );
    assert_eq!(
        render_event(RenderReply::Unreachable(String::new())),
        Event::RenderFailed("Network error: ".to_string())
    );
}

#[test]
fn replies_drive_the_page() {
    let (mut page, _) = Controller::create();
    page.update(catalog_event(CatalogReply::Unreachable));
    assert_eq!(page.notice(), &Some("Failed to load templates".to_string()));
    page.update(Event::EditImageUrl("http://x/y.png".to_string()));
    page.update(Event::SubmitRequested);
    page.update(render_event(RenderReply::Unreachable("timeout".to_string())));
    assert_eq!(page.submission(), &SubmissionState::Failed("Network error: timeout".to_string()));
    page.update(Event::SubmitRequested);
    page.update(render_event(RenderReply::Image("blob:7".to_string())));
    assert_eq!(page.submission(), &SubmissionState::Succeeded("blob:7".to_string()));
}
