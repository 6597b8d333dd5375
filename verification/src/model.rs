//! The mathematical model of the page: states, events and the transition
//! between them, over sequences of characters.

use vstd::prelude::*;

verus! {

/// A piece of text as the contracts see it.
pub type Text = Seq<char>;

/// What the user has entered so far.
pub struct FormModel {
    pub top_text: Text,
    pub bottom_text: Text,
    pub image_url: Text,
    pub selected_template: Text,
}

/// The four fields that a rendering request carries.
pub struct RequestModel {
    pub template: Text,
    pub image_url: Text,
    pub top_text: Text,
    pub bottom_text: Text,
}

/// Where the current submission stands.
pub enum SubmissionModel {
    Idle,
    Loading,
    Succeeded(Text),
    Failed(Text),
}

/// The whole state of the page.
pub struct StateModel {
    pub form: FormModel,
    pub catalog: Seq<Text>,
    pub notice: Option<Text>,
    pub submission: SubmissionModel,
}

/// The closed set of events that the page reacts to.
pub enum EventModel {
    EditTopText(Text),
    EditBottomText(Text),
    EditImageUrl(Text),
    SelectTemplate(Text),
    SubmitRequested,
    CatalogLoaded(Seq<Text>),
    CatalogLoadFailed(Text),
    RenderSucceeded(Text),
    RenderFailed(Text),
}

/// Asynchronous work that the host starts on behalf of the page.
pub enum EffectModel {
    FetchCatalog,
    RenderMeme(RequestModel),
}

/// What one event asks of the host besides showing the new state.
pub struct ReactionModel {
    /// The request to start, if any.
    pub effect: Option<EffectModel>,
    /// The result handle that the page no longer holds and the host disposes of.
    pub released: Option<Text>,
    /// Whether the event was applied, so that the page is shown again.
    pub dirty: bool,
}

/// What the page shows besides the form and the catalog.
pub struct ScreenModel {
    pub submit_enabled: bool,
    pub submit_label: Text,
    pub error: Option<Text>,
    pub notice: Option<Text>,
    pub result: Option<Text>,
}

impl FormModel {
    /// The form before any input.
    pub open spec fn empty() -> FormModel {
        FormModel {
            top_text: Seq::empty(),
            bottom_text: Seq::empty(),
            image_url: Seq::empty(),
            selected_template: Seq::empty(),
        }
    }

    /// At most one of image URL and template is chosen.
    pub open spec fn exclusive(self) -> bool {
        self.image_url.len() == 0 || self.selected_template.len() == 0
    }

    /// There is something to render: an image URL or a template.
    pub open spec fn has_source(self) -> bool {
        self.image_url.len() > 0 || self.selected_template.len() > 0
    }

    /// The request that a submission of this form sends.
    pub open spec fn snapshot(self) -> RequestModel {
        RequestModel {
            template: self.selected_template,
            image_url: self.image_url,
            top_text: self.top_text,
            bottom_text: self.bottom_text,
        }
    }
}

impl SubmissionModel {
    /// The result handle held in this state, if any.
    pub open spec fn handle(self) -> Option<Text> {
        match self {
            SubmissionModel::Succeeded(h) => Some(h),
            _ => None,
        }
    }

    /// The failure message shown in this state, if any.
    pub open spec fn error(self) -> Option<Text> {
        match self {
            SubmissionModel::Failed(m) => Some(m),
            _ => None,
        }
    }
}

impl ReactionModel {
    /// The reaction to an event that was ignored.
    pub open spec fn ignored() -> ReactionModel {
        ReactionModel { effect: None, released: None, dirty: false }
    }

    /// The reaction to an event that changed the state and asks nothing else.
    pub open spec fn applied() -> ReactionModel {
        ReactionModel { effect: None, released: None, dirty: true }
    }
}

impl StateModel {
    /// The state at startup: empty form, empty catalog, nothing submitted.
    pub open spec fn initial() -> StateModel {
        StateModel {
            form: FormModel::empty(),
            catalog: Seq::empty(),
            notice: None,
            submission: SubmissionModel::Idle,
        }
    }

    /// The invariant of the page: image URL and template exclude each other.
    pub open spec fn wf(self) -> bool {
        self.form.exclusive()
    }

    /// The generate action is offered: no request is in flight and the form
    /// names something to render.
    pub open spec fn can_submit(self) -> bool {
        !(self.submission is Loading) && self.form.has_source()
    }
}

/// What the page shows in state `s`: whether the generate action is offered
/// and under which label, the failure of the last submission or its result
/// (never both), and the notice that the catalog left.
pub open spec fn screen(s: StateModel) -> ScreenModel {
    ScreenModel {
        submit_enabled: s.can_submit(),
        submit_label: if s.submission is Loading {
            "Generating..."@
        } else {
            "Generate Meme"@
        },
        error: s.submission.error(),
        notice: s.notice,
        result: s.submission.handle(),
    }
}

/// The state after the controller is torn down: the result handle is given
/// up, the rest stays.
pub open spec fn torn_down(s: StateModel) -> StateModel {
    if s.submission is Succeeded {
        StateModel { submission: SubmissionModel::Idle, ..s }
    } else {
        s
    }
}

/// The transition: the state after `e` arrives in state `s`, and what the host
/// has to do.
pub open spec fn step(s: StateModel, e: EventModel) -> (StateModel, ReactionModel) {
    match e {
        EventModel::EditTopText(t) => (
            StateModel { form: FormModel { top_text: t, ..s.form }, ..s },
            ReactionModel::applied(),
        ),
        EventModel::EditBottomText(t) => (
            StateModel { form: FormModel { bottom_text: t, ..s.form }, ..s },
            ReactionModel::applied(),
        ),
        EventModel::EditImageUrl(u) => (
            StateModel {
                form: FormModel { image_url: u, selected_template: Seq::empty(), ..s.form },
                ..s
            },
            ReactionModel::applied(),
        ),
        EventModel::SelectTemplate(t) => (
            StateModel {
                form: FormModel { selected_template: t, image_url: Seq::empty(), ..s.form },
                ..s
            },
            ReactionModel::applied(),
        ),
        EventModel::SubmitRequested => if s.can_submit() {
            (
                StateModel { submission: SubmissionModel::Loading, ..s },
                ReactionModel {
                    effect: Some(EffectModel::RenderMeme(s.form.snapshot())),
                    released: s.submission.handle(),
                    dirty: true,
                },
            )
        } else {
            (s, ReactionModel::ignored())
        },
        EventModel::CatalogLoaded(list) => (
            StateModel { catalog: list, ..s },
            ReactionModel::applied(),
        ),
        EventModel::CatalogLoadFailed(m) => (
            StateModel { notice: Some(m), ..s },
            ReactionModel::applied(),
        ),
        EventModel::RenderSucceeded(h) => if s.submission is Loading {
            (StateModel { submission: SubmissionModel::Succeeded(h), ..s }, ReactionModel::applied())
        } else {
            (s, ReactionModel::ignored())
        },
        EventModel::RenderFailed(m) => if s.submission is Loading {
            (StateModel { submission: SubmissionModel::Failed(m), ..s }, ReactionModel::applied())
        } else {
            (s, ReactionModel::ignored())
        },
    }
}

/// The state after the events of `events` have arrived in order in state `s`.
pub open spec fn run(s: StateModel, events: Seq<EventModel>) -> StateModel
    decreases events.len(),
{
    if events.len() == 0 {
        s
    } else {
        step(run(s, events.drop_last()), events.last()).0
    }
}

} // verus!
