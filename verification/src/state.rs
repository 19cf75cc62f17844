//! Session state of the chat client and the reducer that reacts to events.
//!
//! The client is a single state record updated by a pure reducer: every
//! user or network event becomes a [`Msg`], one [`Model::update`] step
//! yields the next state together with the request to issue, if any, and
//! the surrounding user interface performs that request and feeds the
//! response back as another event through [`response_event`].

use vstd::prelude::*;

use crate::render::contains_sep;
use crate::render::delim;
use crate::render::lemma_split_on_whole;
use crate::render::split_messages;
use crate::render::split_on;

verus! {

/// An event the client reacts to: a user action, a delivered response, or
/// nothing at all.
pub enum Msg {
    GotMessageInput(String),
    GotUserNameInput(String),
    ConnectClicked,
    SendClicked,
    RefreshClicked,
    CountClicked,
    ReceivedMessages(String),
    Ignore,
}

/// What the client does with a response once it resolves.
#[derive(Clone, Copy, PartialEq, Eq, Structural, Debug)]
pub enum Handler {
    /// The response is dropped, whatever its status or body.
    DiscardResponse,
    /// A successful response body replaces the stored message blob;
    /// anything else is dropped.
    DeliverMessages,
}

/// The outward effect of one reducer step: nothing, or one GET request
/// whose eventual response is fed back through the given handler.
pub enum Effect {
    NoRequest,
    HttpGet { url: String, handler: Handler },
}

/// Fixed configuration of the client: the address of the chat server.
pub struct Config {
    pub server_ip: String,
}

impl Config {
    /// The configuration the client starts with: the hard-coded server
    /// address.
    pub fn create() -> (c: Config)
        ensures
            c.server_ip@ == "http://127.0.0.25:8080"@,
    {
        Config { server_ip: String::from_str("http://127.0.0.25:8080") }
    }
}

/// The whole session state: configuration, click counter, the two input
/// fields, and the last fetched message blob.
pub struct Model {
    pub config: Config,
    pub counter: u32,
    pub user_name: String,
    pub current_message: String,
    pub messages_html: String,
}

/// The state after one reducer step: input events replace their field,
/// a "Count" click raises the counter, a delivered blob replaces the
/// stored one, and every other event leaves the state as it was.
pub open spec fn spec_step(m: Model, msg: Msg) -> Model {
    match msg {
        Msg::GotUserNameInput(name) => Model { user_name: name, ..m },
        Msg::GotMessageInput(text) => Model { current_message: text, ..m },
        Msg::CountClicked => Model { counter: (m.counter + 1) as u32, ..m },
        Msg::ReceivedMessages(blob) => Model { messages_html: blob, ..m },
        Msg::ConnectClicked => m,
        Msg::SendClicked => m,
        Msg::RefreshClicked => m,
        Msg::Ignore => m,
    }
}

/// The address a Connect click requests.
pub open spec fn connect_url_of(m: Model) -> Seq<char> {
    m.config.server_ip@ + "/connect/"@ + m.user_name@
}

/// The address a Send click requests: the draft is embedded in the path,
/// unescaped.
pub open spec fn send_url_of(m: Model) -> Seq<char> {
    m.config.server_ip@ + "/chat/send/"@ + m.user_name@ + "/"@ + m.current_message@
}

/// The address a Refresh click requests.
pub open spec fn refresh_url_of(m: Model) -> Seq<char> {
    m.config.server_ip@ + "/chat.html"@
}

/// The request one reducer step issues: the three click events each issue
/// one GET to their address, every other event issues nothing.
pub open spec fn effect_of(m: Model, msg: Msg, e: Effect) -> bool {
    match msg {
        Msg::ConnectClicked => e matches Effect::HttpGet { url, handler }
            && url@ == connect_url_of(m) && handler == Handler::DiscardResponse,
        Msg::SendClicked => e matches Effect::HttpGet { url, handler }
            && url@ == send_url_of(m) && handler == Handler::DiscardResponse,
        Msg::RefreshClicked => e matches Effect::HttpGet { url, handler }
            && url@ == refresh_url_of(m) && handler == Handler::DeliverMessages,
        _ => e == Effect::NoRequest,
    }
}

/// The event a resolved response turns into: a discarded response is a
/// no-op; a delivery hands the body over exactly when the status was a
/// success and the body could be read, and is a no-op otherwise.
pub open spec fn response_msg(h: Handler, success: bool, body: Option<String>) -> Msg {
    match h {
        Handler::DiscardResponse => Msg::Ignore,
        Handler::DeliverMessages => match body {
            Option::Some(blob) => if success {
                Msg::ReceivedMessages(blob)
            } else {
                Msg::Ignore
            },
            Option::None => Msg::Ignore,
        },
    }
}

/// Turn a resolved response into the event fed back to the reducer.
pub fn response_event(h: Handler, success: bool, body: Option<String>) -> (msg: Msg)
    ensures
        msg == response_msg(h, success, body),
{
    match h {
        Handler::DiscardResponse => Msg::Ignore,
        Handler::DeliverMessages => match body {
            Option::Some(blob) => if success {
                Msg::ReceivedMessages(blob)
            } else {
                Msg::Ignore
            },
            Option::None => Msg::Ignore,
        },
    }
}

/// The rendered message panel: the stored blob split on the separator.
pub open spec fn rendered(m: Model) -> Seq<Seq<char>> {
    split_on(m.messages_html@, delim())
}

impl Model {
    /// The state the client starts in: default configuration, counter at
    /// zero, and every string field empty.
    pub fn create() -> (m: Model)
        ensures
            m.config.server_ip@ == "http://127.0.0.25:8080"@,
            m.counter == 0,
            m.user_name@ == Seq::<char>::empty(),
            m.current_message@ == Seq::<char>::empty(),
            m.messages_html@ == Seq::<char>::empty(),
    {
        Model {
            config: Config::create(),
            counter: 0,
            user_name: String::new(),
            current_message: String::new(),
            messages_html: String::new(),
        }
    }

    /// One reducer step: the next state is [`spec_step`] of the event, the
    /// returned request is [`effect_of`] the event, and the view is always
    /// re-rendered.
    pub fn update(&mut self, msg: Msg) -> (r: (bool, Effect))
        requires
            old(self).counter < u32::MAX || !(msg matches Msg::CountClicked),
        ensures
            *final(self) == spec_step(*old(self), msg),
            effect_of(*old(self), msg, r.1),
            r.0 == true,
    {
        match msg {
            Msg::GotUserNameInput(name) => {
                self.user_name = name;
                (true, Effect::NoRequest)
            },
            Msg::GotMessageInput(text) => {
                self.current_message = text;
                (true, Effect::NoRequest)
            },
            Msg::ConnectClicked => {
                let mut url = self.config.server_ip.clone();
                url.append("/connect/");
                url.append(self.user_name.as_str());
                (true, Effect::HttpGet { url, handler: Handler::DiscardResponse })
            },
            Msg::SendClicked => {
                let mut url = self.config.server_ip.clone();
                url.append("/chat/send/");
                url.append(self.user_name.as_str());
                url.append("/");
                url.append(self.current_message.as_str());
                (true, Effect::HttpGet { url, handler: Handler::DiscardResponse })
            },
            Msg::RefreshClicked => {
                let mut url = self.config.server_ip.clone();
                url.append("/chat.html");
                (true, Effect::HttpGet { url, handler: Handler::DeliverMessages })
            },
            Msg::CountClicked => {
                self.counter = self.counter + 1;
                (true, Effect::NoRequest)
            },
            Msg::ReceivedMessages(blob) => {
                self.messages_html = blob;
                (true, Effect::NoRequest)
            },
            Msg::Ignore => (true, Effect::NoRequest),
        }
    }

    /// The message panel as displayed: the stored blob split on the
    /// literal `"<br/>"` separator, one `String` per element.
    pub fn show_messages(&self) -> (v: Vec<String>)
        ensures
            v.deep_view() == rendered(*self),
            v@.len() >= 1,
    {
        split_messages(self.messages_html.as_str())
    }
}

/// After a refresh delivers a blob in which the separator never occurs,
/// the rendered message list is exactly the one-element sequence holding
/// that blob verbatim.
pub proof fn lemma_refresh_renders_verbatim(m: Model, blob: String)
    requires
        !contains_sep(blob@, delim()),
    ensures
        rendered(spec_step(m, Msg::ReceivedMessages(blob))) == seq![blob@],
{
    reveal_strlit("<br/>");
    lemma_split_on_whole(blob@, delim());
}

/// The state after `n` successive "Count" clicks with no other event in
/// between.
pub open spec fn after_count_clicks(m: Model, n: nat) -> Model
    decreases n,
{
    if n == 0 {
        m
    } else {
        spec_step(after_count_clicks(m, (n - 1) as nat), Msg::CountClicked)
    }
}

/// Clicking "Count" `n` times in sequence raises the counter by exactly
/// `n` and leaves every other field unchanged.
pub proof fn lemma_count_clicks(m: Model, n: nat)
    requires
        m.counter + n <= u32::MAX,
    ensures
        after_count_clicks(m, n).counter == m.counter + n,
        after_count_clicks(m, n).config == m.config,
        after_count_clicks(m, n).user_name == m.user_name,
        after_count_clicks(m, n).current_message == m.current_message,
        after_count_clicks(m, n).messages_html == m.messages_html,
    decreases n,
{
    if n > 0 {
        lemma_count_clicks(m, (n - 1) as nat);
    }
}

/// A Connect click changes no state field, and when its request resolves
/// with a non-success status, the event fed back through the connect
/// handler changes none either: the state is as it was before the click.
pub proof fn lemma_connect_failure_unchanged(m: Model, success: bool, body: Option<String>)
    requires
        !success,
    ensures
        spec_step(
            spec_step(m, Msg::ConnectClicked),
            response_msg(Handler::DiscardResponse, success, body),
        ) == m,
{
}

/// Changing the message input and then the user-name input leaves the
/// draft intact: the two fields mutate independently.
pub proof fn lemma_inputs_independent(m: Model, text: String, name: String)
    ensures
        spec_step(
            spec_step(m, Msg::GotMessageInput(text)),
            Msg::GotUserNameInput(name),
        ).current_message == text,
        spec_step(
            spec_step(m, Msg::GotMessageInput(text)),
            Msg::GotUserNameInput(name),
        ).user_name == name,
{
}

} // verus!
