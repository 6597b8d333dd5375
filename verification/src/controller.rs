//! The controller: owner of the page's state, one event at a time.

use vstd::prelude::*;
use crate::event::{Effect, Event, Reaction, Screen, SubmissionState};
use crate::form::FormState;
use crate::model::{screen, step, torn_down, EffectModel, ReactionModel, StateModel};

verus! {

/// The state of the page and its only writer.
#[derive(Debug, PartialEq, Eq)]
pub struct Controller {
    form: FormState,
    catalog: Vec<String>,
    notice: Option<String>,
    submission: SubmissionState,
}

impl View for Controller {
    type V = StateModel;

    closed spec fn view(&self) -> StateModel {
        StateModel {
            form: self.form@,
            catalog: self.catalog.deep_view(),
            notice: self.notice.deep_view(),
            submission: self.submission@,
        }
    }
}

impl Controller {
    /// Creates the controller in its initial state and asks for the catalog:
    /// the one request that is made at startup.
    pub fn create() -> (start: (Controller, Effect))
        ensures
            start.0@ == StateModel::initial(),
            start.0@.wf(),
            start.1@ == EffectModel::FetchCatalog,
    {
        let controller = Controller {
            form: FormState::new(),
            catalog: Vec::new(),
            notice: None,
            submission: SubmissionState::Idle,
        };
        assert(controller.catalog.deep_view() =~= Seq::<Seq<char>>::empty());
        (controller, Effect::FetchCatalog)
    }

    /// Whether the generate action is offered: no request is in flight, and
    /// the form names an image URL or a template.
    pub fn can_submit(&self) -> (b: bool)
        ensures
            b == self@.can_submit(),
    {
        let loading = match &self.submission {
            SubmissionState::Loading => true,
            _ => false,
        };
        !loading && self.form.has_source()
    }

    /// Applies one event and says what the host has to do.
    pub fn update(&mut self, event: Event) -> (reaction: Reaction)
        ensures
            (final(self)@, reaction@) == step(old(self)@, event@),
            final(self)@.wf(),
            // A submission while a request is in flight is ignored.
            event@ is SubmitRequested && old(self)@.submission is Loading ==> ({
                &&& final(self)@ == old(self)@
                &&& reaction@ == ReactionModel::ignored()
            }),
            // So is one of a form that names nothing to render.
            event@ is SubmitRequested && !old(self)@.form.has_source() ==> ({
                &&& final(self)@ == old(self)@
                &&& reaction@ == ReactionModel::ignored()
            }),
            // The end of a rendering request is discarded unless one is in flight.
            (event@ is RenderSucceeded || event@ is RenderFailed)
                && !(old(self)@.submission is Loading) ==> ({
                &&& final(self)@ == old(self)@
                &&& reaction@ == ReactionModel::ignored()
            }),
            // Only an accepted submission starts a request; it carries the form
            // as it stood, and it is then the one request in flight.
            reaction@.effect is Some ==> ({
                &&& event@ is SubmitRequested
                &&& old(self)@.can_submit()
                &&& final(self)@.submission is Loading
                &&& reaction@.effect == Some(EffectModel::RenderMeme(old(self)@.form.snapshot()))
            }),
    {
        let reaction = match event {
            Event::EditTopText(text) => {
                self.form.set_top_text(text);
                Reaction::applied()
            },
            Event::EditBottomText(text) => {
                self.form.set_bottom_text(text);
                Reaction::applied()
            },
            Event::EditImageUrl(url) => {
                self.form.set_image_url(url);
                Reaction::applied()
            },
            Event::SelectTemplate(template) => {
                self.form.select_template(template);
                Reaction::applied()
            },
            Event::SubmitRequested => {
                if self.can_submit() {
                    let request = self.form.snapshot();
                    let mut previous = SubmissionState::Loading;
                    core::mem::swap(&mut self.submission, &mut previous);
                    let released = match previous {
                        SubmissionState::Succeeded(handle) => Some(handle),
                        _ => None,
                    };
                    Reaction { effect: Some(Effect::RenderMeme(request)), released, dirty: true }
                } else {
                    Reaction::ignored()
                }
            },
            Event::CatalogLoaded(list) => {
                self.catalog = list;
                Reaction::applied()
            },
            Event::CatalogLoadFailed(message) => {
                self.notice = Some(message);
                Reaction::applied()
            },
            Event::RenderSucceeded(handle) => {
                match &self.submission {
                    SubmissionState::Loading => {
                        self.submission = SubmissionState::Succeeded(handle);
                        Reaction::applied()
                    },
                    _ => Reaction::ignored(),
                }
            },
            Event::RenderFailed(message) => {
                match &self.submission {
                    SubmissionState::Loading => {
                        self.submission = SubmissionState::Failed(message);
                        Reaction::applied()
                    },
                    _ => Reaction::ignored(),
                }
            },
        };
        proof {
            use_type_invariant(&self.form);
        }
        reaction
    }

    /// What the page shows now.
    pub fn screen(&self) -> (shown: Screen)
        ensures
            shown@ == screen(self@),
    {
        let loading = match &self.submission {
            SubmissionState::Loading => true,
            _ => false,
        };
        let error = match &self.submission {
            SubmissionState::Failed(message) => Some(message.clone()),
            _ => None,
        };
        let result = match &self.submission {
            SubmissionState::Succeeded(handle) => Some(handle.clone()),
            _ => None,
        };
        let notice = match &self.notice {
            Some(message) => Some(message.clone()),
            None => None,
        };
        Screen {
            submit_enabled: !loading && self.form.has_source(),
            submit_label: if loading {
                "Generating..."
            } else {
                "Generate Meme"
            },
            error,
            notice,
            result,
        }
    }

    /// Gives up the result handle when the controller is discarded: the page
    /// holds none afterwards, and the host disposes of the one returned.
    pub fn teardown(&mut self) -> (released: Option<String>)
        ensures
            released.deep_view() == old(self)@.submission.handle(),
            final(self)@ == torn_down(old(self)@),
            final(self)@.submission.handle() is None,
            final(self)@.wf(),
    {
        proof {
            use_type_invariant(&self.form);
        }
        let held = match &self.submission {
            SubmissionState::Succeeded(_) => true,
            _ => false,
        };
        if held {
            let mut previous = SubmissionState::Idle;
            core::mem::swap(&mut self.submission, &mut previous);
            match previous {
                SubmissionState::Succeeded(handle) => Some(handle),
                _ => None,
            }
        } else {
            None
        }
    }

    /// The form.
    pub fn form(&self) -> (form: &FormState)
        ensures
            form@ == self@.form,
            form@.exclusive(),
    {
        proof {
            use_type_invariant(&self.form);
        }
        &self.form
    }

    /// The template identifiers that the catalog offers, in its order.
    pub fn catalog(&self) -> (catalog: &Vec<String>)
        ensures
            catalog.deep_view() == self@.catalog,
    {
        &self.catalog
    }

    /// The notice that a failed catalog request left, if any.
    pub fn notice(&self) -> (notice: &Option<String>)
        ensures
            notice.deep_view() == self@.notice,
    {
        &self.notice
    }

    /// Where the current submission stands.
    pub fn submission(&self) -> (submission: &SubmissionState)
        ensures
            submission@ == self@.submission,
    {
        &self.submission
    }
}

} // verus!
