use chat_client::render::split_messages;
use chat_client::state::response_event;
use chat_client::state::Config;
use chat_client::state::Effect;
use chat_client::state::Handler;
use chat_client::state::Model;
use chat_client::state::Msg;

fn fragments(v: &[String]) -> Vec<&str> {
    v.iter().map(|s| s.as_str()).collect()
}

#[test]
fn render_without_separator_is_verbatim() {
    assert_eq!(fragments(&split_messages("hello world")), vec!["hello world"]);
}

#[test]
fn render_splits_three_fragments() {
    assert_eq!(fragments(&split_messages("a<br/>b<br/>c")), vec!["a", "b", "c"]);
}

#[test]
fn render_empty_blob_is_one_empty_fragment() {
    assert_eq!(fragments(&split_messages("")), vec![""]);
}

#[test]
fn render_separator_alone_yields_two_empty_fragments() {
    assert_eq!(fragments(&split_messages("<br/>")), vec!["", ""]);
}

#[test]
fn render_keeps_empty_fragments_at_the_ends() {
    assert_eq!(fragments(&split_messages("a<br/>")), vec!["a", ""]);
    assert_eq!(fragments(&split_messages("<br/>a")), vec!["", "a"]);
}

#[test]
fn render_leaves_partial_separators_alone() {
    assert_eq!(fragments(&split_messages("a<br")), vec!["a<br"]);
    assert_eq!(fragments(&split_messages("a<b r/>b")), vec!["a<b r/>b"]);
    assert_eq!(fragments(&split_messages("<br/<br/>x")), vec!["<br/", "x"]);
}

#[test]
fn config_create_holds_default_address() {
    let c = Config::create();
    assert_eq!(c.server_ip, "http://127.0.0.25:8080");
}

#[test]
fn model_create_starts_empty() {
    let m = Model::create();
    assert_eq!(m.config.server_ip, "http://127.0.0.25:8080");
    assert_eq!(m.counter, 0);
    assert_eq!(m.user_name, "");
    assert_eq!(m.current_message, "");
    assert_eq!(m.messages_html, "");
}

#[test]
fn count_clicked_n_times_counts_n() {
    let mut m = Model::create();
    for _ in 0..3 {
        let (render, eff) = m.update(Msg::CountClicked);
        assert!(render);
        assert!(matches!(eff, Effect::NoRequest));
    }
    assert_eq!(m.counter, 3);
    assert_eq!(m.user_name, "");
    assert_eq!(m.current_message, "");
    assert_eq!(m.messages_html, "");
}

#[test]
fn connect_click_requests_connect_url() {
    let mut m = Model::create();
    m.update(Msg::GotUserNameInput("alice".to_string()));
    let (_, eff) = m.update(Msg::ConnectClicked);
    match eff {
        Effect::HttpGet { url, handler } => {
            assert_eq!(url, "http://127.0.0.25:8080/connect/alice");
            assert_eq!(handler, Handler::DiscardResponse);
        }
        Effect::NoRequest => panic!("a Connect click must issue a request"),
    }
    assert_eq!(m.user_name, "alice");
    assert_eq!(m.counter, 0);
}

#[test]
fn send_click_requests_send_url_with_draft_unescaped() {
    let mut m = Model::create();
    m.update(Msg::GotUserNameInput("alice".to_string()));
    m.update(Msg::GotMessageInput("hi there".to_string()));
    let (_, eff) = m.update(Msg::SendClicked);
    match eff {
        Effect::HttpGet { url, handler } => {
            assert_eq!(url, "http://127.0.0.25:8080/chat/send/alice/hi there");
            assert_eq!(handler, Handler::DiscardResponse);
        }
        Effect::NoRequest => panic!("a Send click must issue a request"),
    }
    assert_eq!(m.current_message, "hi there");
}

#[test]
fn refresh_click_requests_message_page() {
    let mut m = Model::create();
    let (_, eff) = m.update(Msg::RefreshClicked);
    match eff {
        Effect::HttpGet { url, handler } => {
            assert_eq!(url, "http://127.0.0.25:8080/chat.html");
            assert_eq!(handler, Handler::DeliverMessages);
        }
        Effect::NoRequest => panic!("a Refresh click must issue a request"),
    }
}

#[test]
fn connect_failure_leaves_state_unchanged() {
    let mut m = Model::create();
    m.update(Msg::GotUserNameInput("alice".to_string()));
    m.update(Msg::GotMessageInput("draft".to_string()));
    m.update(Msg::CountClicked);
    let (_, eff) = m.update(Msg::ConnectClicked);
    let handler = match eff {
        Effect::HttpGet { handler, .. } => handler,
        Effect::NoRequest => panic!("a Connect click must issue a request"),
    };
    let msg = response_event(handler, false, Some("connection refused".to_string()));
    assert!(matches!(msg, Msg::Ignore));
    m.update(msg);
    assert_eq!(m.user_name, "alice");
    assert_eq!(m.current_message, "draft");
    assert_eq!(m.counter, 1);
    assert_eq!(m.messages_html, "");
}

#[test]
fn connect_success_is_discarded_too() {
    let msg = response_event(Handler::DiscardResponse, true, Some("7".to_string()));
    assert!(matches!(msg, Msg::Ignore));
}

#[test]
fn inputs_mutate_independently() {
    let mut m = Model::create();
    m.update(Msg::GotMessageInput("a draft".to_string()));
    m.update(Msg::GotUserNameInput("bob".to_string()));
    assert_eq!(m.current_message, "a draft");
    assert_eq!(m.user_name, "bob");
}

#[test]
fn refresh_success_replaces_blob_and_renders() {
    let mut m = Model::create();
    let msg = response_event(Handler::DeliverMessages, true, Some("x<br/>y".to_string()));
    assert!(matches!(&msg, Msg::ReceivedMessages(b) if b == "x<br/>y"));
    m.update(msg);
    assert_eq!(m.messages_html, "x<br/>y");
    assert_eq!(fragments(&m.show_messages()), vec!["x", "y"]);
}

#[test]
fn refresh_failure_changes_nothing() {
    let mut m = Model::create();
    m.update(Msg::ReceivedMessages("old".to_string()));
    let msg = response_event(Handler::DeliverMessages, false, Some("new".to_string()));
    assert!(matches!(msg, Msg::Ignore));
    let unread = response_event(Handler::DeliverMessages, true, None);
    assert!(matches!(unread, Msg::Ignore));
    m.update(msg);
    assert_eq!(m.messages_html, "old");
}

#[test]
fn ignore_changes_nothing() {
    let mut m = Model::create();
    m.update(Msg::GotUserNameInput("carol".to_string()));
    let (render, eff) = m.update(Msg::Ignore);
    assert!(render);
    assert!(matches!(eff, Effect::NoRequest));
    assert_eq!(m.user_name, "carol");
    assert_eq!(m.counter, 0);
}

#[test]
fn show_messages_renders_stored_blob() {
    let mut m = Model::create();
    assert_eq!(fragments(&m.show_messages()), vec![""]);
    m.update(Msg::ReceivedMessages("one<br/>two".to_string()));
    assert_eq!(fragments(&m.show_messages()), vec!["one", "two"]);
}
