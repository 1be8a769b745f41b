use hunter_bot::commands::{CommandHandler, Decision};
use hunter_bot::config::ConfigHandler;
use hunter_bot::signature::sign;
use hunter_bot::webhooks::{Handled, WebhookHandler};

fn config() -> ConfigHandler {
    let mut config = ConfigHandler::new();
    config.set_string("config", "github_bot_name", "bot");
    config.set_string("config", "github_bot_token", "bot-token");
    config.set_string("config", "github_follow_repo", "owner/repo");
    config.set_string("config", "github_owner_name", "owner");
    config.set_array("config", "whitelist", &vec!["alice".to_string()]);
    config.set_string("state", "github_webhook_secret", "s3cret");
    config
}

fn comment(text: &str, login: &str) -> String {
    format!(
        r#"{{"action":"created","comment":{{"body":{},"user":{{"login":"{}"}}}},"issue":{{"number":42,"id":1}}}}"#,
        serde_json::to_string(text).unwrap(),
        login
    )
}

fn deliver(event_name: &str, body: &str) -> Handled {
    let signature = sign(b"s3cret", body.as_bytes()).unwrap();
    WebhookHandler::new().handle(
        &mut config(),
        Some(signature.as_bytes()),
        Some(event_name.as_bytes()),
        body.as_bytes(),
    )
}

fn replies(body: &str) -> Vec<String> {
    let handled = deliver("issue_comment", body);
    let mut posted = Vec::new();
    if let Some(event) = handled.event {
        let mut c = config();
        let dispatched = CommandHandler::new().parse_command(&mut c, &event).unwrap();
        if let Some(reply) = dispatched.reply {
            assert_eq!(reply.endpoint, "repos/owner/repo/issues/42/comments");
            assert_eq!(reply.token, "bot-token");
            let parsed: serde_json::Value = serde_json::from_str(&reply.body).unwrap();
            posted.push(parsed["body"].as_str().unwrap().to_string());
        }
    }
    posted
}

#[test]
fn ping_event_is_answered_with_pong_and_brings_no_event() {
    let handled = deliver("ping", "{}");
    assert_eq!(handled.response.status, 200);
    assert_eq!(handled.response.body, "Pong.");
    assert!(handled.event.is_none());
}

#[test]
fn comment_with_ping_gets_pong() {
    assert_eq!(replies(&comment("@bot ping", "carol")), vec!["@carol Pong"]);
}

#[test]
fn comment_with_please_ping_gets_thanks_and_pong() {
    assert_eq!(
        replies(&comment("@bot please ping", "carol")),
        vec!["@carol You didn't need to say please but thanks anyways :smiley: \r\n\r\nOhh and: \r\nPong"]
    );
}

#[test]
fn request_without_signature_gets_400_and_nothing_else() {
    let body = comment("@bot ping", "carol");
    let handled =
        WebhookHandler::new().handle(&mut config(), None, Some(b"issue_comment"), body.as_bytes());
    assert_eq!(handled.response.status, 400);
    assert!(handled.event.is_none());
}

#[test]
fn unknown_verb_gets_the_not_found_reply_once() {
    assert_eq!(
        replies(&comment("@bot frobnicate", "carol")),
        vec!["@carol Sorry the command was not found. Please visit [https://hunterbot.readthedocs.io](https://hunterbot.readthedocs.io) for available commands."]
    );
}

#[test]
fn reply_of_the_bot_starts_no_loop() {
    let handled = deliver("issue_comment", &comment("@bot ping", "bot"));
    let event = handled.event.unwrap();
    let mut c = config();
    let dispatched = CommandHandler::new().parse_command(&mut c, &event).unwrap();
    assert_eq!(dispatched.decision, Decision::FromBot);
    assert!(dispatched.reply.is_none());
    assert!(replies(&comment("@carol Pong", "bot")).is_empty());
}

#[test]
fn comment_that_is_not_for_the_bot_gets_no_reply() {
    assert!(replies(&comment("just talking", "carol")).is_empty());
}

#[test]
fn events_keep_the_order_of_their_requests() {
    let mut queue = Vec::new();
    for text in ["@bot ping", "@bot help", "@bot frobnicate"] {
        if let Some(event) = deliver("issue_comment", &comment(text, "carol")).event {
            queue.push(event);
        }
    }
    let commands: Vec<&str> = queue.iter().map(|event| event.command.as_str()).collect();
    assert_eq!(commands, vec!["ping", "help", "frobnicate"]);
}
