//! The form: two captions and the choice between a template and an image URL.

use vstd::prelude::*;
use crate::model::{FormModel, RequestModel};

verus! {

/// The body of a rendering request: the form as it stood when the user
/// submitted it. Both the template and the image URL are always sent; the one
/// that is not chosen is sent empty.
#[derive(Debug, PartialEq, Eq)]
pub struct MemeRequest {
    pub template: String,
    pub image_url: String,
    pub top_text: String,
    pub bottom_text: String,
}

impl View for MemeRequest {
    type V = RequestModel;

    open spec fn view(&self) -> RequestModel {
        RequestModel {
            template: self.template@,
            image_url: self.image_url@,
            top_text: self.top_text@,
            bottom_text: self.bottom_text@,
        }
    }
}

/// What the user has entered. The image URL and the template exclude each
/// other: writing one of them empties the other.
#[derive(Debug, PartialEq, Eq)]
pub struct FormState {
    top_text: String,
    bottom_text: String,
    image_url: String,
    selected_template: String,
}

impl View for FormState {
    type V = FormModel;

    closed spec fn view(&self) -> FormModel {
        FormModel {
            top_text: self.top_text@,
            bottom_text: self.bottom_text@,
            image_url: self.image_url@,
            selected_template: self.selected_template@,
        }
    }
}

impl FormState {
    /// The invariant that every form meets: image URL and template exclude
    /// each other.
    #[verifier::type_invariant]
    pub open spec fn inv(self) -> bool {
        self@.exclusive()
    }

    /// The empty form.
    pub fn new() -> (form: FormState)
        ensures
            form@ == FormModel::empty(),
    {
        FormState {
            top_text: String::new(),
            bottom_text: String::new(),
            image_url: String::new(),
            selected_template: String::new(),
        }
    }

    /// Replaces the top caption.
    pub fn set_top_text(&mut self, text: String)
        ensures
            final(self)@ == (FormModel { top_text: text@, ..old(self)@ }),
            final(self)@.exclusive(),
    {
        proof {
            use_type_invariant(&*self);
        }
        self.top_text = text;
    }

    /// Replaces the bottom caption.
    pub fn set_bottom_text(&mut self, text: String)
        ensures
            final(self)@ == (FormModel { bottom_text: text@, ..old(self)@ }),
            final(self)@.exclusive(),
    {
        proof {
            use_type_invariant(&*self);
        }
        self.bottom_text = text;
    }

    /// Replaces the image URL and empties the template, whatever `url` holds.
    pub fn set_image_url(&mut self, url: String)
        ensures
            final(self)@ == (FormModel {
                image_url: url@,
                selected_template: Seq::empty(),
                ..old(self)@
            }),
    {
        self.selected_template = String::new();
        self.image_url = url;
    }

    /// Replaces the template and empties the image URL, whatever `template`
    /// holds. The empty template stands for "none chosen".
    pub fn select_template(&mut self, template: String)
        ensures
            final(self)@ == (FormModel {
                selected_template: template@,
                image_url: Seq::empty(),
                ..old(self)@
            }),
    {
        self.image_url = String::new();
        self.selected_template = template;
    }

    /// Whether an image URL or a template is given.
    pub fn has_source(&self) -> (b: bool)
        ensures
            b == self@.has_source(),
    {
        !self.image_url.as_str().is_empty() || !self.selected_template.as_str().is_empty()
    }

    /// The request that submitting the form now would send.
    pub fn snapshot(&self) -> (request: MemeRequest)
        ensures
            request@ == self@.snapshot(),
    {
        MemeRequest {
            template: self.selected_template.clone(),
            image_url: self.image_url.clone(),
            top_text: self.top_text.clone(),
            bottom_text: self.bottom_text.clone(),
        }
    }

    /// The top caption.
    pub fn top_text(&self) -> (text: &str)
        ensures
            text@ == self@.top_text,
    {
        self.top_text.as_str()
    }

    /// The bottom caption.
    pub fn bottom_text(&self) -> (text: &str)
        ensures
            text@ == self@.bottom_text,
    {
        self.bottom_text.as_str()
    }

    /// The image URL; empty while a template is chosen.
    pub fn image_url(&self) -> (url: &str)
        ensures
            url@ == self@.image_url,
            url@.len() > 0 ==> self@.selected_template.len() == 0,
    {
        proof {
            use_type_invariant(self);
        }
        self.image_url.as_str()
    }

    /// The chosen template; empty while an image URL is given.
    pub fn selected_template(&self) -> (template: &str)
        ensures
            template@ == self@.selected_template,
            template@.len() > 0 ==> self@.image_url.len() == 0,
    {
        proof {
            use_type_invariant(self);
        }
        self.selected_template.as_str()
    }
}

} // verus!
