use crate::decimal::decimal;
use crate::decimal::to_decimal;
use crate::http::HttpRequest;
use vstd::prelude::*;

verus! {

/// The picture shown while the picture of a cat is being fetched.
pub const CAT_LOADING_URL: &'static str = "https://c.tenor.com/qACzaJ1EBVYAAAAd/tenor.gif";

/// Where facts about cats come from.
pub const FACT_API_URL: &'static str = "https://catfact.ninja/fact";

/// Where pictures of cats come from.
pub const IMAGE_API_URL: &'static str = "https://aws.random.cat/meow";

/// The key under which the shell keeps the state of the application.
pub const STATE_KEY: &'static str = "state";

/// A fact about cats, and how long it is.
#[derive(Clone, Debug, Default, PartialEq, Eq)]
pub struct CatFact {
    pub fact: String,
    pub length: i32,
}

/// What a `CatFact` says.
pub struct CatFactView {
    pub fact: Seq<char>,
    pub length: int,
}

impl View for CatFact {
    type V = CatFactView;

    open spec fn view(&self) -> CatFactView {
        CatFactView { fact: self.fact@, length: self.length as int }
    }
}

impl CatFactView {
    /// The fact as it is shown: its text, then its length in round brackets.
    pub open spec fn format(self) -> Seq<char> {
        self.fact + " ("@ + decimal(self.length) + " bytes)"@
    }
}

impl CatFact {
    /// The fact as it is shown: its text, then its length in round brackets.
    pub fn format(&self) -> (text: String)
        ensures
            text@ == self@.format(),
    {
        let mut text = self.fact.clone();
        text.append(" (");
        text.append(to_decimal(self.length).as_str());
        text.append(" bytes)");
        text
    }

    fn copy(&self) -> (copy: CatFact)
        ensures
            copy@ == self@,
    {
        CatFact { fact: self.fact.clone(), length: self.length }
    }
}

/// Where a picture of a cat is found.
#[derive(Clone, Debug, PartialEq, Eq)]
pub struct CatImage {
    pub file: String,
}

impl View for CatImage {
    type V = Seq<char>;

    open spec fn view(&self) -> Seq<char> {
        self.file@
    }
}

impl Default for CatImage {
    /// The picture shown while another is being fetched.
    fn default() -> (image: CatImage)
        ensures
            image@ == CAT_LOADING_URL@,
    {
        CatImage { file: CAT_LOADING_URL.to_owned() }
    }
}

impl CatImage {
    fn copy(&self) -> (copy: CatImage)
        ensures
            copy@ == self@,
    {
        CatImage { file: self.file.clone() }
    }
}

/// What the application knows of the platform it runs on.
#[derive(Clone, Debug, Default, PartialEq, Eq)]
pub struct PlatformModel {
    pub platform: String,
}

impl View for PlatformModel {
    type V = Seq<char>;

    open spec fn view(&self) -> Seq<char> {
        self.platform@
    }
}

/// The events of the platform part of the application.
#[derive(Clone, Debug, PartialEq, Eq)]
pub enum PlatformMsg {
    /// Ask the shell for the name of the platform.
    Get,
    /// The shell's answer.
    Put(String),
}

/// The state of the application.
#[derive(Clone, Debug, Default, PartialEq, Eq)]
pub struct Model {
    pub cat_fact: Option<CatFact>,
    pub cat_image: Option<CatImage>,
    pub platform: PlatformModel,
    pub time: Option<String>,
}

/// What a `Model` says.
pub struct ModelView {
    pub cat_fact: Option<CatFactView>,
    pub cat_image: Option<Seq<char>>,
    pub platform: Seq<char>,
    pub time: Option<Seq<char>>,
}

impl View for Model {
    type V = ModelView;

    open spec fn view(&self) -> ModelView {
        ModelView {
            cat_fact: match self.cat_fact {
                Some(fact) => Some(fact@),
                None => None,
            },
            cat_image: match self.cat_image {
                Some(image) => Some(image@),
                None => None,
            },
            platform: self.platform@,
            time: match self.time {
                Some(time) => Some(time@),
                None => None,
            },
        }
    }
}

impl Model {
    fn copy(&self) -> (copy: Model)
        ensures
            copy@ == self@,
    {
        Model {
            cat_fact: match &self.cat_fact {
                Some(fact) => Some(fact.copy()),
                None => None,
            },
            cat_image: match &self.cat_image {
                Some(image) => Some(image.copy()),
                None => None,
            },
            platform: PlatformModel { platform: self.platform.platform.clone() },
            time: match &self.time {
                Some(time) => Some(time.clone()),
                None => None,
            },
        }
    }
}

/// What the shell shows.
#[derive(Clone, Debug, Default, PartialEq, Eq)]
pub struct ViewModel {
    pub fact: String,
    pub image: Option<CatImage>,
    pub platform: String,
}

/// What a `ViewModel` says.
pub struct ViewModelView {
    pub fact: Seq<char>,
    pub image: Option<Seq<char>>,
    pub platform: Seq<char>,
}

impl View for ViewModel {
    type V = ViewModelView;

    open spec fn view(&self) -> ViewModelView {
        ViewModelView {
            fact: self.fact@,
            image: match self.image {
                Some(image) => Some(image@),
                None => None,
            },
            platform: self.platform@,
        }
    }
}

/// What is shown of a model: the fact with the time it is from, where both
/// are known; the fact alone, where the time is not; a greeting to the platform.
pub open spec fn shown(model: ModelView) -> ViewModelView {
    ViewModelView {
        fact: match (model.cat_fact, model.time) {
            (Some(fact), Some(time)) => "Fact from "@ + time + ": "@ + fact.format(),
            (Some(fact), None) => fact.format(),
            (None, _) => "No fact"@,
        },
        image: model.cat_image,
        platform: "Hello "@ + model.platform,
    }
}

impl ViewModel {
    /// What is shown of `model`.
    pub fn from(model: &Model) -> (view: ViewModel)
        ensures
            view@ == shown(model@),
    {
        let fact = match (&model.cat_fact, &model.time) {
            (Some(fact), Some(time)) => {
                let mut text = "Fact from ".to_owned();
                text.append(time.as_str());
                text.append(": ");
                text.append(fact.format().as_str());
                text
            },
            (Some(fact), None) => fact.format(),
            (None, _) => "No fact".to_owned(),
        };
        let mut platform = "Hello ".to_owned();
        platform.append(model.platform.platform.as_str());
        ViewModel {
            fact,
            image: match &model.cat_image {
                Some(image) => Some(image.copy()),
                None => None,
            },
            platform,
        }
    }
}

/// The events of the application. Those that carry what the shell fetched or
/// restored carry it decoded.
#[derive(Clone, Debug, PartialEq, Eq)]
pub enum Msg {
    /// Nothing happened that the application cares for.
    Noop,
    /// Ask the shell for the name of the platform.
    GetPlatform,
    /// An event of the platform part.
    Platform(PlatformMsg),
    /// Forget the fact and the picture.
    Clear,
    /// Show a fact: the one that is known, or a new one.
    Get,
    /// Show a new fact.
    Fetch,
    /// Restore the state that the shell keeps.
    Restore,
    /// The state that the shell kept, if it had one that could be read.
    SetState(Option<Model>),
    /// The fact that the shell fetched.
    SetFact(CatFact),
    /// The picture that the shell fetched.
    SetImage(CatImage),
    /// The time at which the fact was fetched.
    CurrentTime(String),
}

/// Which event the response to an HTTP request becomes.
#[derive(Clone, Copy, Debug, PartialEq, Eq, Structural)]
pub enum Reply {
    /// `Msg::SetFact`
    Fact,
    /// `Msg::SetImage`
    Image,
}

/// What the application asks of its shell.
#[derive(Clone, Debug, PartialEq, Eq)]
pub enum Effect {
    /// Show the view again.
    Render,
    /// Tell the name of the platform; the answer comes as `PlatformMsg::Put`.
    Platform,
    /// Make the request; the response comes as the event that `reply` names.
    Http { request: HttpRequest, reply: Reply },
    /// Keep the state under the key; the acknowledgement comes as `Msg::Noop`.
    Write { key: String, state: Model },
    /// Fetch what is kept under the key; it comes as `Msg::SetState`.
    Read { key: String },
    /// Tell the time; it comes as `Msg::CurrentTime`.
    Time,
}

/// What an `Effect` says.
pub enum EffectView {
    Render,
    Platform,
    Http { method: Seq<char>, url: Seq<char>, reply: Reply },
    Write { key: Seq<char>, state: ModelView },
    Read { key: Seq<char> },
    Time,
}

impl View for Effect {
    type V = EffectView;

    open spec fn view(&self) -> EffectView {
        match *self {
            Effect::Render => EffectView::Render,
            Effect::Platform => EffectView::Platform,
            Effect::Http { request, reply } => EffectView::Http {
                method: request.method@,
                url: request.url@,
                reply,
            },
            Effect::Write { key, state } => EffectView::Write { key: key@, state: state@ },
            Effect::Read { key } => EffectView::Read { key: key@ },
            Effect::Time => EffectView::Time,
        }
    }
}

/// What each of the effects says, in their order.
pub open spec fn views(effects: Seq<Effect>) -> Seq<EffectView> {
    effects.map_values(|effect: Effect| effect@)
}

/// The request for a fact and the request for a picture.
pub open spec fn fetches() -> Seq<EffectView> {
    seq![
        EffectView::Http { method: "GET"@, url: FACT_API_URL@, reply: Reply::Fact },
        EffectView::Http { method: "GET"@, url: IMAGE_API_URL@, reply: Reply::Image },
    ]
}

/// The platform's model after an event.
pub open spec fn platform_after(msg: PlatformMsg, model: Seq<char>) -> Seq<char> {
    match msg {
        PlatformMsg::Get => model,
        PlatformMsg::Put(platform) => platform@,
    }
}

/// What the platform asks of the shell on an event.
pub open spec fn platform_asks(msg: PlatformMsg) -> Seq<EffectView> {
    match msg {
        PlatformMsg::Get => seq![EffectView::Platform],
        PlatformMsg::Put(platform) => seq![EffectView::Render],
    }
}

/// The model after an event.
pub open spec fn after(msg: Msg, model: ModelView) -> ModelView {
    match msg {
        Msg::Noop => model,
        Msg::GetPlatform => model,
        Msg::Platform(msg) => ModelView { platform: platform_after(msg, model.platform), ..model },
        Msg::Clear => ModelView { cat_fact: None, cat_image: None, ..model },
        Msg::Get => if model.cat_fact is Some {
            model
        } else {
            ModelView { cat_image: Some(CAT_LOADING_URL@), ..model }
        },
        Msg::Fetch => ModelView { cat_image: Some(CAT_LOADING_URL@), ..model },
        Msg::Restore => model,
        Msg::SetState(Some(state)) => state@,
        Msg::SetState(None) => model,
        Msg::SetFact(fact) => ModelView { cat_fact: Some(fact@), ..model },
        Msg::SetImage(image) => ModelView { cat_image: Some(image@), ..model },
        Msg::CurrentTime(time) => ModelView { time: Some(time@), ..model },
    }
}

/// What the application asks of the shell on an event, in order.
pub open spec fn asks(msg: Msg, model: ModelView) -> Seq<EffectView> {
    let write = EffectView::Write { key: STATE_KEY@, state: after(msg, model) };
    match msg {
        Msg::Noop => seq![],
        Msg::GetPlatform => platform_asks(PlatformMsg::Get),
        Msg::Platform(msg) => platform_asks(msg),
        Msg::Clear => seq![write, EffectView::Render],
        Msg::Get => if model.cat_fact is Some {
            seq![EffectView::Render]
        } else {
            fetches().push(EffectView::Render)
        },
        Msg::Fetch => fetches().push(EffectView::Render),
        Msg::Restore => seq![EffectView::Read { key: STATE_KEY@ }],
        Msg::SetState(state) => seq![EffectView::Render],
        Msg::SetFact(fact) => seq![write, EffectView::Time],
        Msg::SetImage(image) => seq![write, EffectView::Render],
        Msg::CurrentTime(time) => seq![write, EffectView::Render],
    }
}

/// The part of the application that knows the platform.
#[derive(Clone, Copy, Debug, Default)]
pub struct Platform;

impl Platform {
    /// Takes an event: changes the model and returns what to ask of the shell.
    pub fn update(&self, msg: PlatformMsg, model: &mut PlatformModel) -> (effects: Vec<Effect>)
        ensures
            final(model)@ == platform_after(msg, old(model)@),
            views(effects@) == platform_asks(msg),
    {
        match msg {
            PlatformMsg::Get => vec![Effect::Platform],
            PlatformMsg::Put(platform) => {
                model.platform = platform;
                vec![Effect::Render]
            },
        }
    }

    /// What is shown of the platform's model: the model itself.
    pub fn view(&self, model: &PlatformModel) -> (view: PlatformModel)
        ensures
            view@ == model@,
    {
        PlatformModel { platform: model.platform.clone() }
    }
}

/// The application: facts about cats, with pictures.
#[derive(Clone, Copy, Debug, Default)]
pub struct CatFacts {
    pub platform: Platform,
}

fn write(model: &Model) -> (effect: Effect)
    ensures
        effect@ == (EffectView::Write { key: STATE_KEY@, state: model@ }),
{
    Effect::Write { key: STATE_KEY.to_owned(), state: model.copy() }
}

fn fetch(url: &str, reply: Reply) -> (effect: Effect)
    ensures
        effect@ == (EffectView::Http { method: "GET"@, url: url@, reply }),
{
    Effect::Http { request: HttpRequest { method: "GET".to_owned(), url: url.to_owned() }, reply }
}

impl CatFacts {
    /// Takes an event: changes the model and returns what to ask of the shell.
    pub fn update(&self, msg: Msg, model: &mut Model) -> (effects: Vec<Effect>)
        ensures
            final(model)@ == after(msg, old(model)@),
            views(effects@) == asks(msg, old(model)@),
    {
        match msg {
            Msg::Noop => Vec::new(),
            Msg::GetPlatform => self.platform.update(PlatformMsg::Get, &mut model.platform),
            Msg::Platform(msg) => self.platform.update(msg, &mut model.platform),
            Msg::Clear => {
                model.cat_fact = None;
                model.cat_image = None;
                vec![write(model), Effect::Render]
            },
            Msg::Get => {
                if model.cat_fact.is_some() {
                    vec![Effect::Render]
                } else {
                    model.cat_image = Some(CatImage::default());
                    vec![
                        fetch(FACT_API_URL, Reply::Fact),
                        fetch(IMAGE_API_URL, Reply::Image),
                        Effect::Render,
                    ]
                }
            },
            Msg::Fetch => {
                model.cat_image = Some(CatImage::default());
                vec![
                    fetch(FACT_API_URL, Reply::Fact),
                    fetch(IMAGE_API_URL, Reply::Image),
                    Effect::Render,
                ]
            },
            Msg::SetFact(fact) => {
                model.cat_fact = Some(fact);
                vec![write(model), Effect::Time]
            },
            Msg::CurrentTime(time) => {
                model.time = Some(time);
                vec![write(model), Effect::Render]
            },
            Msg::SetImage(image) => {
                model.cat_image = Some(image);
                vec![write(model), Effect::Render]
            },
            Msg::Restore => vec![Effect::Read { key: STATE_KEY.to_owned() }],
            Msg::SetState(state) => {
                if let Some(state) = state {
                    *model = state;
                }
                vec![Effect::Render]
            },
        }
    }

    /// What is shown of `model`.
    pub fn view(&self, model: &Model) -> (view: ViewModel)
        ensures
            view@ == shown(model@),
    {
        ViewModel::from(model)
    }
}

} // verus!
