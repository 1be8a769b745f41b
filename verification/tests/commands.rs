use hunter_bot::commands::{
    arguments, comment_request, compose_reply, decide, help, ping, respond, Command,
    CommandCallback, CommandHandler, Decision, Gate,
};
use hunter_bot::config::ConfigHandler;
use hunter_bot::webhooks::{WebhookEvent, WebhookEventType};

const NOT_FOUND: &str = "Sorry the command was not found. Please visit [https://hunterbot.readthedocs.io](https://hunterbot.readthedocs.io) for available commands.";
const HELP: &str = "Documentation related to the bot including available commands are at [https://hunterbot.readthedocs.io](https://hunterbot.readthedocs.io)";
const COURTESY: &str =
    "You didn't need to say please but thanks anyways :smiley: \r\n\r\nOhh and: \r\n";

fn count(config: &ConfigHandler) -> usize {
    config.toml_data.values().map(|v| v.as_table().map_or(0, |t| t.len())).sum()
}

fn config() -> ConfigHandler {
    let mut config = ConfigHandler::new();
    config.set_string("config", "github_bot_name", "bot");
    config.set_string("config", "github_bot_token", "bot-token");
    config.set_string("config", "github_follow_repo", "owner/repo");
    config.set_string("config", "github_owner_name", "owner");
    config.set_array("config", "whitelist", &vec!["alice".to_string()]);
    config
}

fn event(user: &str, command: &str) -> WebhookEvent {
    WebhookEvent {
        event_type: WebhookEventType::IssueComment,
        number: 7,
        id: 9001,
        user: user.to_string(),
        command: command.to_string(),
    }
}

fn body(user: &str, message: &str) -> String {
    let text = serde_json::to_string(&format!("@{} {}", user, message)).unwrap();
    format!("{{\"body\": {}}}", text)
}

#[test]
fn command_keeps_what_it_is_made_with() {
    let command = Command::new(true, false, CommandCallback::Help);
    assert!(command.requires_please);
    assert!(!command.whitelist_only);
    assert_eq!(command.callback, CommandCallback::Help);
    assert_eq!(
        Command::new(false, true, CommandCallback::Ping),
        Command { requires_please: false, whitelist_only: true, callback: CommandCallback::Ping }
    );
}

#[test]
fn ping_answers_pong() {
    let mut c = config();
    assert_eq!(ping(&mut c, &event("carol", "ping"), &vec![]), Ok("Pong".to_string()));
    assert_eq!(
        CommandCallback::Ping.call(&mut c, &event("carol", "ping"), &vec!["ping".to_string()]),
        Ok("Pong".to_string())
    );
    assert_eq!(count(&c), count(&config()));
}

#[test]
fn help_points_to_the_documentation() {
    let mut c = config();
    assert_eq!(help(&mut c, &event("carol", "help"), &vec![]), Ok(HELP.to_string()));
    assert_eq!(
        CommandCallback::Help.call(&mut c, &event("carol", "help me"), &vec![]),
        Ok(HELP.to_string())
    );
}

#[test]
fn rules_in_every_combination() {
    for requires_please in [false, true] {
        for whitelist_only in [false, true] {
            for please_given in [false, true] {
                for whitelisted in [false, true] {
                    let command = Command::new(requires_please, whitelist_only, CommandCallback::Ping);
                    let expected = if whitelist_only && !whitelisted {
                        Gate::WhitelistOnly
                    } else if requires_please && please_given {
                        Gate::Run { thanked: false }
                    } else if !requires_please && !please_given {
                        Gate::Run { thanked: false }
                    } else if !requires_please && please_given {
                        Gate::Run { thanked: true }
                    } else {
                        Gate::AskPlease
                    };
                    assert_eq!(decide(&command, please_given, whitelisted), expected);
                }
            }
        }
    }
}

#[test]
fn rules_row_by_row() {
    let open = Command::new(false, false, CommandCallback::Ping);
    let polite = Command::new(true, false, CommandCallback::Ping);
    let closed = Command::new(false, true, CommandCallback::Ping);
    let both = Command::new(true, true, CommandCallback::Ping);
    assert_eq!(decide(&open, false, false), Gate::Run { thanked: false });
    assert_eq!(decide(&open, true, false), Gate::Run { thanked: true });
    assert_eq!(decide(&polite, true, false), Gate::Run { thanked: false });
    assert_eq!(decide(&polite, false, true), Gate::AskPlease);
    assert_eq!(decide(&closed, false, false), Gate::WhitelistOnly);
    assert_eq!(decide(&closed, true, false), Gate::WhitelistOnly);
    assert_eq!(decide(&closed, true, true), Gate::Run { thanked: true });
    assert_eq!(decide(&both, false, false), Gate::WhitelistOnly);
    assert_eq!(decide(&both, true, false), Gate::WhitelistOnly);
    assert_eq!(decide(&both, false, true), Gate::AskPlease);
    assert_eq!(decide(&both, true, true), Gate::Run { thanked: false });
}

#[test]
fn reply_after_a_run() {
    assert_eq!(compose_reply(Ok("Pong".to_string()), false), "Pong");
    assert_eq!(compose_reply(Ok("Pong".to_string()), true), format!("{}Pong", COURTESY));
    assert_eq!(
        compose_reply(Err("no such thing".to_string()), false),
        "An error occurred while executing the command: no such thing"
    );
    assert_eq!(
        compose_reply(Err("no such thing".to_string()), true),
        "An error occurred while executing the command: no such thing"
    );
}

#[test]
fn arguments_start_at_the_verb() {
    let words = vec!["please".to_string(), "ping".to_string(), "now".to_string()];
    assert_eq!(arguments(&words, 1), vec!["ping", "now"]);
    assert_eq!(arguments(&words, 0), words);
    assert_eq!(arguments(&words, 3), Vec::<String>::new());
}

#[test]
fn registry_holds_ping_and_help() {
    let handler = CommandHandler::new();
    assert_eq!(
        handler.find_command("ping"),
        Some(Command::new(false, false, CommandCallback::Ping))
    );
    assert_eq!(
        handler.find_command("help"),
        Some(Command::new(false, false, CommandCallback::Help))
    );
    for verb in ["Ping", "PING", "pin", "ping ", "", "frobnicate", "please"] {
        assert_eq!(handler.find_command(verb), None, "{:?}", verb);
    }
}

#[test]
fn reply_goes_to_the_author_on_the_thread() {
    let request = respond(&config(), &event("carol", "ping"), "Pong").unwrap();
    assert_eq!(request.token, "bot-token");
    assert_eq!(request.endpoint, "repos/owner/repo/issues/7/comments");
    assert_eq!(request.body, "{\"body\": \"@carol Pong\"}");
}

#[test]
fn reply_carries_large_numbers_and_empty_messages() {
    let mut e = event("c", "x");
    e.number = u64::MAX;
    let request = respond(&config(), &e, "").unwrap();
    assert_eq!(
        request.endpoint,
        "repos/owner/repo/issues/18446744073709551615/comments"
    );
    assert_eq!(request.body, "{\"body\": \"@c \"}");
}

fn config_failure(outcome: Result<hunter_bot::commands::PostRequest, String>) -> String {
    match outcome {
        Err(message) => message,
        other => panic!("{:?}", other),
    }
}

#[test]
fn reply_needs_repository_and_token() {
    let mut c = config();
    c.set_value("config", "github_bot_token", toml::Value::Integer(1));
    assert_eq!(
        config_failure(respond(&c, &event("carol", "ping"), "Pong")),
        "Error getting the value of \"github_bot_token\" from the config which is required: The \"github_bot_token\" field in \"[config]\" of the config does not represent a string."
    );
    c.set_value("config", "github_follow_repo", toml::Value::Integer(1));
    assert_eq!(
        config_failure(respond(&c, &event("carol", "ping"), "Pong")),
        "Error getting the value of \"github_follow_repo\" from the config which is required: The \"github_follow_repo\" field in \"[config]\" of the config does not represent a string."
    );
}

#[test]
fn reply_is_written_as_json() {
    let request = respond(&config(), &event("carol", "ping"), "say \"hi\"\r\n\\o/ é").unwrap();
    assert_eq!(request.body, "{\"body\": \"@carol say \\\"hi\\\"\\r\\n\\\\o/ é\"}");
    let parsed: serde_json::Value = serde_json::from_str(&request.body).unwrap();
    assert_eq!(parsed["body"].as_str(), Some("@carol say \"hi\"\r\n\\o/ é"));
}

#[test]
fn courtesy_goes_out_with_escaped_line_breaks() {
    let mut c = config();
    let dispatched =
        CommandHandler::new().parse_command(&mut c, &event("carol", "please ping")).unwrap();
    assert_eq!(
        dispatched.reply.unwrap().body,
        "{\"body\": \"@carol You didn't need to say please but thanks anyways :smiley: \\r\\n\\r\\nOhh and: \\r\\nPong\"}"
    );
}

#[test]
fn ping_without_please_answers_pong() {
    let mut c = config();
    let dispatched = CommandHandler::new().parse_command(&mut c, &event("carol", "ping")).unwrap();
    assert_eq!(dispatched.decision, Decision::Run { thanked: false });
    let reply = dispatched.reply.unwrap();
    assert_eq!(reply.endpoint, "repos/owner/repo/issues/7/comments");
    assert_eq!(reply.body, body("carol", "Pong"));
}

#[test]
fn ping_with_please_is_thanked() {
    let mut c = config();
    for command in ["please ping", "PLEASE ping", "  Please\tping  now"] {
        let dispatched =
            CommandHandler::new().parse_command(&mut c, &event("carol", command)).unwrap();
        assert_eq!(dispatched.decision, Decision::Run { thanked: true });
        assert_eq!(dispatched.reply.unwrap().body, body("carol", &format!("{}Pong", COURTESY)));
    }
}

#[test]
fn help_answers_with_the_pointer() {
    let mut c = config();
    let dispatched =
        CommandHandler::new().parse_command(&mut c, &event("alice", "help me out")).unwrap();
    assert_eq!(dispatched.decision, Decision::Run { thanked: false });
    assert_eq!(dispatched.reply.unwrap().body, body("alice", HELP));
}

#[test]
fn unknown_verb_gets_one_reply() {
    let mut c = config();
    let dispatched =
        CommandHandler::new().parse_command(&mut c, &event("carol", "frobnicate")).unwrap();
    assert_eq!(dispatched.decision, Decision::NotFound);
    assert_eq!(dispatched.reply.map(|r| r.body), Some(body("carol", NOT_FOUND)));
}

#[test]
fn verb_is_matched_with_its_case() {
    let mut c = config();
    for command in ["Ping", "please Ping", "pingping", "please please ping"] {
        let dispatched =
            CommandHandler::new().parse_command(&mut c, &event("carol", command)).unwrap();
        assert_eq!(dispatched.decision, Decision::NotFound, "{:?}", command);
        assert_eq!(dispatched.reply.unwrap().body, body("carol", NOT_FOUND));
    }
}

#[test]
fn command_without_a_verb_is_not_found() {
    let mut c = config();
    for command in ["", "   ", "please", " please  "] {
        let dispatched =
            CommandHandler::new().parse_command(&mut c, &event("carol", command)).unwrap();
        assert_eq!(dispatched.decision, Decision::NotFound, "{:?}", command);
        assert_eq!(dispatched.reply.unwrap().body, body("carol", NOT_FOUND));
    }
}

#[test]
fn bot_does_not_answer_itself() {
    let mut c = config();
    for command in ["ping", "please ping", "frobnicate", ""] {
        let dispatched =
            CommandHandler::new().parse_command(&mut c, &event("bot", command)).unwrap();
        assert_eq!(dispatched.decision, Decision::FromBot);
        assert!(dispatched.reply.is_none());
        }
}

#[test]
fn dispatch_needs_the_required_values() {
    let mut c = ConfigHandler::new();
    assert_eq!(
        CommandHandler::new().parse_command(&mut c, &event("carol", "ping")).err(),
        Some("Error getting the value of \"github_owner_name\" from the config which is required: Section \"[config]\" does not exist.".to_string())
    );
    c.set_string("config", "github_owner_name", "carol");
    assert_eq!(
        CommandHandler::new().parse_command(&mut c, &event("carol", "ping")).err(),
        Some("Error getting the value of \"github_bot_name\" from the config which is required: Key \"github_bot_name\" in section \"[config]\" does not exist.".to_string())
    );
    c.set_string("config", "github_bot_name", "bot");
    assert_eq!(
        CommandHandler::new().parse_command(&mut c, &event("carol", "ping")).err(),
        Some("Error getting the value of \"github_follow_repo\" from the config which is required: Key \"github_follow_repo\" in section \"[config]\" does not exist.".to_string())
    );
}

#[test]
fn dispatch_leaves_the_configuration_as_it_is() {
    let mut c = config();
    let before = count(&c);
    CommandHandler::new().parse_command(&mut c, &event("carol", "please help")).unwrap();
    assert_eq!(count(&c), before);
    assert_eq!(c.get_string("config", "github_bot_name"), Ok("bot".to_string()));
}

#[test]
fn comment_request_wraps_the_quoted_text() {
    let request = comment_request("o/r", 3, "t".to_string(), "\"@u hi\"");
    assert_eq!(request.endpoint, "repos/o/r/issues/3/comments");
    assert_eq!(request.token, "t");
    assert_eq!(request.body, "{\"body\": \"@u hi\"}");
}

#[test]
fn restricted_command_answers_whoever_is_not_whitelisted() {
    let command = Command::new(true, true, CommandCallback::Ping);
    assert_eq!(decide(&command, true, false), Gate::WhitelistOnly);
    let request = respond(
        &config(),
        &event("carol", "secret"),
        "Sorry! That command if for whitelisted people only!",
    )
    .unwrap();
    assert_eq!(
        request.body,
        "{\"body\": \"@carol Sorry! That command if for whitelisted people only!\"}"
    );
    let request = respond(&config(), &event("carol", "polite"), "Whats the magic word?").unwrap();
    assert_eq!(request.body, "{\"body\": \"@carol Whats the magic word?\"}");
}

#[test]
fn every_event_of_another_author_gets_a_reply() {
    let mut c = config();
    for command in ["ping", "please ping", "Please Ping", "help", "frobnicate", "", "please"] {
        let dispatched =
            CommandHandler::new().parse_command(&mut c, &event("alice", command)).unwrap();
        let reply = dispatched.reply.unwrap();
        assert_eq!(reply.endpoint, "repos/owner/repo/issues/7/comments");
        assert_eq!(reply.token, "bot-token");
        assert!(reply.body.starts_with("{\"body\": \"@alice "));
    }
}
