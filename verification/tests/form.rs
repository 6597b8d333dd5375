use meme_frontend::form::{FormState, MemeRequest};

#[test]
fn new_form_is_empty() {
    let form = FormState::new();
    assert_eq!(form.top_text(), "");
    assert_eq!(form.bottom_text(), "");
    assert_eq!(form.image_url(), "");
    assert_eq!(form.selected_template(), "");
    assert!(!form.has_source());
}

#[test]
fn setters_replace_their_field() {
    let mut form = FormState::new();
    form.set_top_text("top".to_string());
    form.set_bottom_text("bottom".to_string());
    assert_eq!(form.top_text(), "top");
    assert_eq!(form.bottom_text(), "bottom");
    assert!(!form.has_source());
    form.set_image_url("http://x/y.png".to_string());
    assert_eq!(form.image_url(), "http://x/y.png");
    assert_eq!(form.top_text(), "top");
    assert_eq!(form.bottom_text(), "bottom");
    assert!(form.has_source());
}

#[test]
fn last_writer_wins_between_url_and_template() {
    let mut form = FormState::new();
    form.set_image_url("http://x/y.png".to_string());
    form.select_template("doge".to_string());
    assert_eq!(form.image_url(), "");
    assert_eq!(form.selected_template(), "doge");
    assert!(form.has_source());
    form.set_image_url("http://x/z.png".to_string());
    assert_eq!(form.image_url(), "http://x/z.png");
    assert_eq!(form.selected_template(), "");
    form.select_template(String::new());
    assert_eq!(form.image_url(), "");
    assert_eq!(form.selected_template(), "");
    assert!(!form.has_source());
}

#[test]
fn snapshot_copies_all_four_fields() {
    let mut form = FormState::new();
    form.set_top_text("WOW".to_string());
    form.set_bottom_text("MUCH".to_string());
    form.select_template("doge".to_string());
    let request = form.snapshot();
    assert_eq!(
        request,
        MemeRequest {
            template: "doge".to_string(),
            image_url: String::new(),
            top_text: "WOW".to_string(),
            bottom_text: "MUCH".to_string(),
        }
    );
    form.set_top_text("later".to_string());
    assert_eq!(request.top_text, "WOW");
}
