//! Webhook ingress: what kind of event a request brings, which command a comment gives the
//! bot, and how a request is answered.

use crate::config::{text_result, ConfigHandler, ConfigView};
use crate::json::{
    extract_json_object_named, extract_json_string, extract_json_u64, json_data, json_error_text,
    json_parse, object_field, parse_json, string_field, u64_field, JsonData,
};
use crate::signature::{hmac_sha1, signature_matches, verify};
use crate::text::{
    contains, cut_out, find, from_chars, is_whitespace, join3, join5, lemma_contains_in_trimmed,
    lemma_first_occurrence, lemma_trimmed_edges, lemma_trimmed_keeps, same_text, to_chars,
    trim_bounds, trimmed, utf8_decoding, utf8_error_text, utf8_text, without_first,
};
use vstd::prelude::*;

verus! {

/// The kinds of event that a request can bring.
#[derive(Clone, Copy, Debug, PartialEq, Eq, Structural)]
pub enum WebhookEventType {
    Ping,
    IssueComment,
    PullRequestComment,
    Invalid,
}

/// The kind of event that an event name stands for; `Invalid` for any name but the three.
pub open spec fn event_type_of(name: Seq<char>) -> WebhookEventType {
    if name == "ping"@ {
        WebhookEventType::Ping
    } else if name == "issue_comment"@ {
        WebhookEventType::IssueComment
    } else if name == "pull_request_review_comment"@ {
        WebhookEventType::PullRequestComment
    } else {
        WebhookEventType::Invalid
    }
}

impl WebhookEventType {
    /// The kind of event that an event name stands for.
    pub fn from_string(event_str: &str) -> (event_type: WebhookEventType)
        ensures
            event_type == event_type_of(event_str@),
    {
        if same_text(event_str, "ping") {
            WebhookEventType::Ping
        } else if same_text(event_str, "issue_comment") {
            WebhookEventType::IssueComment
        } else if same_text(event_str, "pull_request_review_comment") {
            WebhookEventType::PullRequestComment
        } else {
            WebhookEventType::Invalid
        }
    }
}

/// A comment that gives the bot a command.
#[derive(Clone, Debug)]
pub struct WebhookEvent {
    /// The kind of event.
    pub event_type: WebhookEventType,
    /// The number of the issue or pull request, to which replies go.
    pub number: u64,
    /// The identifier of the issue or pull request.
    pub id: u64,
    /// The login of the comment's author.
    pub user: String,
    /// The comment without the mention of the bot and without the white space around it.
    pub command: String,
}

/// The mathematical content of a `WebhookEvent`.
pub struct EventView {
    pub event_type: WebhookEventType,
    pub number: u64,
    pub id: u64,
    pub user: Seq<char>,
    pub command: Seq<char>,
}

impl View for WebhookEvent {
    type V = EventView;

    open spec fn view(&self) -> EventView {
        EventView {
            event_type: self.event_type,
            number: self.number,
            id: self.id,
            user: self.user@,
            command: self.command@,
        }
    }
}

/// The mention that addresses the bot: `@` and the bot's name.
pub open spec fn mention(bot_name: Seq<char>) -> Seq<char> {
    seq!['@'] + bot_name
}

/// The command that a comment gives the bot: where the comment mentions the bot, the comment
/// without the first mention and without the white space around what is left.
pub open spec fn addressed_command(body: Seq<char>, bot_name: Seq<char>) -> Option<Seq<char>> {
    if contains(body, mention(bot_name)) {
        Some(trimmed(without_first(body, mention(bot_name))))
    } else {
        None
    }
}

/// The content of an optional string.
pub open spec fn option_text(s: Option<String>) -> Option<Seq<char>> {
    match s {
        Some(s) => Some(s@),
        None => None,
    }
}

/// The command that a comment gives the bot, if it mentions the bot.
pub fn extract_command(body: &str, bot_name: &str) -> (command: Option<String>)
    ensures
        option_text(command) == addressed_command(body@, bot_name@),
{
    let text = to_chars(body);
    let mut pattern: Vec<char> = Vec::new();
    pattern.push('@');
    let mut name = to_chars(bot_name);
    pattern.append(&mut name);
    assert(pattern@ == mention(bot_name@));
    match find(&text, &pattern) {
        None => None,
        Some(i) => {
            proof {
                lemma_first_occurrence(text@, pattern@, i as int);
            }
            let rest = cut_out(&text, i, pattern.len());
            let (start, end) = trim_bounds(&rest);
            Some(from_chars(&rest, start, end))
        },
    }
}

/// A comment that does not mention the bot gives it no command.
pub proof fn law_unaddressed_gives_none(body: Seq<char>, bot_name: Seq<char>)
    requires
        !contains(body, mention(bot_name)),
    ensures
        addressed_command(body, bot_name) is None,
{
}

/// A command neither begins nor ends with white space.
pub proof fn law_command_trimmed(body: Seq<char>, bot_name: Seq<char>)
    requires
        contains(body, mention(bot_name)),
    ensures
        ({
            let command = addressed_command(body, bot_name)->0;
            command.len() > 0 ==> !is_whitespace(command.first()) && !is_whitespace(
                command.last(),
            )
        }),
{
    lemma_trimmed_edges(without_first(body, mention(bot_name)));
}

/// A command holds no mention where the comment holds none once its first mention is cut out.
///
/// For a bot whose name does not end in white space this is the only case: the command holds
/// a mention exactly where the comment still holds one after the cut, be it a second mention
/// or one that the cut has joined.
pub proof fn law_command_without_mention(body: Seq<char>, bot_name: Seq<char>)
    requires
        contains(body, mention(bot_name)),
    ensures
        ({
            let command = addressed_command(body, bot_name)->0;
            let rest = without_first(body, mention(bot_name));
            &&& !contains(rest, mention(bot_name)) ==> !contains(command, mention(bot_name))
            &&& !is_whitespace(mention(bot_name).last()) ==> (contains(command, mention(bot_name))
                <==> contains(rest, mention(bot_name)))
        }),
{
    let rest = without_first(body, mention(bot_name));
    let command = trimmed(rest);
    if contains(command, mention(bot_name)) {
        lemma_contains_in_trimmed(rest, mention(bot_name));
    }
    if contains(rest, mention(bot_name)) && !is_whitespace(mention(bot_name).last()) {
        assert(mention(bot_name).first() == '@');
        lemma_trimmed_keeps(rest, mention(bot_name));
    }
}

/// Prefixes a complaint with the name of the object that it is about.
pub open spec fn in_object(name: Seq<char>, message: Seq<char>) -> Seq<char> {
    name + ": "@ + message
}

/// The event that a comment payload gives.
///
/// `Ok(None)` where the comment was not created just now, or does not mention the bot. An
/// error where a field that is needed up to that point is missing or of the wrong kind, with
/// the name of the object that should hold it, or where what the configuration holds as the
/// bot's name is no string. The author is read from the object under `user_key` of the comment, number
/// and identifier from the object under `parent_key` of the payload.
pub open spec fn comment_event(
    event_type: WebhookEventType,
    user_key: Seq<char>,
    parent_key: Seq<char>,
    config: ConfigView,
    payload: JsonData,
) -> Result<Option<EventView>, Seq<char>> {
    match string_field(payload, "action"@) {
        Err(e) => Err(in_object("payload"@, e)),
        Ok(action) => if action != "created"@ {
            Ok(None)
        } else {
            match object_field(payload, "comment"@) {
                Err(e) => Err(in_object("payload"@, e)),
                Ok(comment) => match config.string_at("config"@, "github_bot_name"@) {
                    Err(e) => Err(e),
                    Ok(bot_name) => match string_field(comment, "body"@) {
                        Err(e) => Err(in_object("comment"@, e)),
                        Ok(body) => match addressed_command(body, bot_name) {
                            None => Ok(None),
                            Some(command) => comment_origin(
                                event_type,
                                user_key,
                                parent_key,
                                payload,
                                comment,
                                command,
                            ),
                        },
                    },
                },
            }
        },
    }
}

/// The event of a comment that gives the bot `command`: its author, and the number and
/// identifier of what it comments on.
pub open spec fn comment_origin(
    event_type: WebhookEventType,
    user_key: Seq<char>,
    parent_key: Seq<char>,
    payload: JsonData,
    comment: JsonData,
    command: Seq<char>,
) -> Result<Option<EventView>, Seq<char>> {
    match object_field(comment, user_key) {
        Err(e) => Err(in_object("comment"@, e)),
        Ok(user) => match string_field(user, "login"@) {
            Err(e) => Err(in_object(user_key, e)),
            Ok(login) => match object_field(payload, parent_key) {
                Err(e) => Err(in_object("payload"@, e)),
                Ok(parent) => match u64_field(parent, "number"@) {
                    Err(e) => Err(in_object(parent_key, e)),
                    Ok(number) => match u64_field(parent, "id"@) {
                        Err(e) => Err(in_object(parent_key, e)),
                        Ok(id) => Ok(
                            Some(EventView { event_type, number, id, user: login, command }),
                        ),
                    },
                },
            },
        },
    }
}

/// Whether the extraction gets as far as asking the configuration for the bot's name: the
/// comment was created just now, and the payload holds it as an object.
pub open spec fn asks_bot_name(payload: JsonData) -> bool {
    string_field(payload, "action"@) == Ok::<Seq<char>, Seq<char>>("created"@) && object_field(
        payload,
        "comment"@,
    ) is Ok
}

/// The configuration after the extraction: where the bot's name was asked for and there was
/// none, the empty string stands as the name.
pub open spec fn config_after_extraction(config: ConfigView, payload: JsonData) -> ConfigView {
    if asks_bot_name(payload) {
        config.with_default_string("config"@, "github_bot_name"@)
    } else {
        config
    }
}

/// The content of the outcome of an extraction.
pub open spec fn event_result(r: Result<Option<WebhookEvent>, String>) -> Result<
    Option<EventView>,
    Seq<char>,
> {
    match r {
        Ok(Some(event)) => Ok(Some(event@)),
        Ok(None) => Ok(None),
        Err(e) => Err(e@),
    }
}

/// Extracts the event of a comment payload; see `comment_event`.
fn from_comment_json(
    event_type: WebhookEventType,
    user_key: &str,
    parent_key: &str,
    config: &mut ConfigHandler,
    payload: &serde_json::Value,
) -> (event: Result<Option<WebhookEvent>, String>)
    ensures
        event_result(event) == comment_event(
            event_type,
            user_key@,
            parent_key@,
            old(config)@,
            json_data(*payload),
        ),
        final(config)@ == config_after_extraction(old(config)@, json_data(*payload)),
{
    let action = match extract_json_string(payload, "action") {
        Ok(action) => action,
        Err(e) => return Err(join3("payload", ": ", e.as_str())),
    };
    if !same_text(action.as_str(), "created") {
        return Ok(None);
    }
    let comment = match extract_json_object_named(payload, "comment") {
        Ok(comment) => comment,
        Err(e) => return Err(join3("payload", ": ", e.as_str())),
    };
    let bot_name = match config.get_string("config", "github_bot_name") {
        Ok(name) => name,
        Err(e) => return Err(e),
    };
    let body = match extract_json_string(comment, "body") {
        Ok(body) => body,
        Err(e) => return Err(join3("comment", ": ", e.as_str())),
    };
    let command = match extract_command(body.as_str(), bot_name.as_str()) {
        Some(command) => command,
        None => return Ok(None),
    };
    let user_object = match extract_json_object_named(comment, user_key) {
        Ok(user) => user,
        Err(e) => return Err(join3("comment", ": ", e.as_str())),
    };
    let user = match extract_json_string(user_object, "login") {
        Ok(login) => login,
        Err(e) => return Err(join3(user_key, ": ", e.as_str())),
    };
    let parent = match extract_json_object_named(payload, parent_key) {
        Ok(parent) => parent,
        Err(e) => return Err(join3("payload", ": ", e.as_str())),
    };
    let number = match extract_json_u64(parent, "number") {
        Ok(number) => number,
        Err(e) => return Err(join3(parent_key, ": ", e.as_str())),
    };
    let id = match extract_json_u64(parent, "id") {
        Ok(id) => id,
        Err(e) => return Err(join3(parent_key, ": ", e.as_str())),
    };
    Ok(Some(WebhookEvent { event_type, number, id, user, command }))
}

impl WebhookEvent {
    /// An event that stands for nothing yet: of kind `Invalid`, with zeros and empty strings.
    pub fn new() -> (event: WebhookEvent)
        ensures
            event@ == (EventView {
                event_type: WebhookEventType::Invalid,
                number: 0,
                id: 0,
                user: Seq::empty(),
                command: Seq::empty(),
            }),
    {
        WebhookEvent {
            event_type: WebhookEventType::Invalid,
            number: 0,
            id: 0,
            user: String::new(),
            command: String::new(),
        }
    }

    /// The event of the payload of an issue comment.
    ///
    /// The author is the `login` of the comment's `user`; number and identifier are those of
    /// the payload's `issue`.
    pub fn from_issue_json(config: &mut ConfigHandler, json_object: &serde_json::Value) -> (event:
        Result<Option<WebhookEvent>, String>)
        ensures
            event_result(event) == comment_event(
                WebhookEventType::IssueComment,
                "user"@,
                "issue"@,
                old(config)@,
                json_data(*json_object),
            ),
            final(config)@ == config_after_extraction(old(config)@, json_data(*json_object)),
    {
        from_comment_json(WebhookEventType::IssueComment, "user", "issue", config, json_object)
    }

    /// The event of the payload of a comment on a pull request.
    ///
    /// The author is the `login` of the object under `comment` inside the comment, one level
    /// deeper than in an issue comment; number and identifier are those of the payload's
    /// `pull_request`.
    pub fn from_pull_request_json(config: &mut ConfigHandler, json_object: &serde_json::Value) -> (event:
        Result<Option<WebhookEvent>, String>)
        ensures
            event_result(event) == comment_event(
                WebhookEventType::PullRequestComment,
                "comment"@,
                "pull_request"@,
                old(config)@,
                json_data(*json_object),
            ),
            final(config)@ == config_after_extraction(old(config)@, json_data(*json_object)),
    {
        from_comment_json(
            WebhookEventType::PullRequestComment,
            "comment",
            "pull_request",
            config,
            json_object,
        )
    }
}

/// An answer to a request: the HTTP status and the text of the body.
#[derive(Clone, Debug)]
pub struct Response {
    pub status: u16,
    pub body: String,
}

/// The mathematical content of a `Response`.
pub struct ResponseView {
    pub status: u16,
    pub body: Seq<char>,
}

impl View for Response {
    type V = ResponseView;

    open spec fn view(&self) -> ResponseView {
        ResponseView { status: self.status, body: self.body@ }
    }
}

/// What the handler makes of a request: the answer, and the event to put in the queue.
#[derive(Clone, Debug)]
pub struct Handled {
    pub response: Response,
    /// The event that the request brought; at most one, and none unless the status is 200.
    pub event: Option<WebhookEvent>,
}

/// The mathematical content of a `Handled`.
pub struct HandledView {
    pub status: u16,
    pub body: Seq<char>,
    pub event: Option<EventView>,
}

impl View for Handled {
    type V = HandledView;

    open spec fn view(&self) -> HandledView {
        HandledView {
            status: self.response.status,
            body: self.response.body@,
            event: match self.event {
                Some(event) => Some(event@),
                None => None,
            },
        }
    }
}

/// An answer without an event.
pub open spec fn answer(status: u16, body: Seq<char>) -> HandledView {
    HandledView { status, body, event: None }
}

/// `"<field>" field in the header is missng.`
pub open spec fn header_missing_message(field: Seq<char>) -> Seq<char> {
    "\""@ + field + "\" field in the header is missng."@
}

/// `Failed to stringify the "<field>" field in the header: <detail>.`
pub open spec fn header_undecodable_message(field: Seq<char>, detail: Seq<char>) -> Seq<char> {
    "Failed to stringify the \""@ + field + "\" field in the header: "@ + detail + "."@
}

/// The text of a header, from its raw value: a complaint where the header is missing or is
/// not UTF-8.
pub open spec fn header_text(raw: Option<Seq<u8>>, field: Seq<char>) -> Result<
    Seq<char>,
    Seq<char>,
> {
    match raw {
        None => Err(header_missing_message(field)),
        Some(bytes) => match utf8_decoding(bytes) {
            Ok(text) => Ok(text),
            Err(detail) => Err(header_undecodable_message(field, detail)),
        },
    }
}

/// The bytes of an optional raw value.
pub open spec fn raw_bytes(raw: Option<&[u8]>) -> Option<Seq<u8>> {
    match raw {
        Some(bytes) => Some(bytes@),
        None => None,
    }
}

/// The text of the header `field`, given its raw value if the request has the header.
pub fn extract_header_string(raw: Option<&[u8]>, field: &str) -> (text: Result<String, String>)
    ensures
        text_result(text) == header_text(raw_bytes(raw), field@),
{
    match raw {
        None => Err(join3("\"", field, "\" field in the header is missng.")),
        Some(bytes) => match utf8_text(bytes) {
            Ok(s) => Ok(s.to_owned()),
            Err(error) => {
                let detail = utf8_error_text(&error);
                Err(
                    join5(
                        "Failed to stringify the \"",
                        field,
                        "\" field in the header: ",
                        detail.as_str(),
                        ".",
                    ),
                )
            },
        },
    }
}

/// The digest of a payload under the configured secret, where what the configuration holds
/// as the secret is a string, or nothing: the secret is then the empty string.
pub open spec fn configured_digest(config: ConfigView, body: Seq<u8>) -> Option<Seq<u8>> {
    match config.string_at("state"@, "github_webhook_secret"@) {
        Ok(secret) => Some(hmac_sha1(vstd::utf8::encode_utf8(secret), body)),
        Err(_) => None,
    }
}

/// The verdict on a signature header, given the digest of the payload if it could be computed:
/// whether the header is the signature of the digest, or the answer that reports why no
/// verdict can be had.
pub open spec fn validation(config: ConfigView, header: Seq<char>, digest: Option<Seq<u8>>)
    -> Result<bool, ResponseView> {
    match config.string_at("state"@, "github_webhook_secret"@) {
        Err(_) => Err(
            ResponseView {
                status: 500,
                body: "Failed to get \"github_webhook_secret\" from config."@,
            },
        ),
        Ok(_) => match digest {
            None => Err(ResponseView { status: 500, body: "Failed to compute HMAC value."@ }),
            Some(d) => Ok(signature_matches(d, header)),
        },
    }
}

/// The content of a verdict.
pub open spec fn verdict_view(verdict: Result<bool, Response>) -> Result<bool, ResponseView> {
    match verdict {
        Ok(valid) => Ok(valid),
        Err(response) => Err(response@),
    }
}

/// The configuration after the secret was asked for: where there was none, the empty string
/// stands as the secret.
pub open spec fn config_after_validation(config: ConfigView) -> ConfigView {
    config.with_default_string("state"@, "github_webhook_secret"@)
}

/// Verifies the signature header of a request against the raw body and the configured secret.
///
/// The verdict is that of `validation` on the digest of the body under the secret; where the
/// digest cannot be computed, that of `validation` without a digest.
pub fn validate_webhook(config: &mut ConfigHandler, header_string: &str, body: &[u8]) -> (verdict:
    Result<bool, Response>)
    ensures
        verdict_view(verdict) == validation(
            old(config)@,
            header_string@,
            configured_digest(old(config)@, body@),
        ) || verdict_view(verdict) == validation(old(config)@, header_string@, None),
        final(config)@ == config_after_validation(old(config)@),
{
    let secret = match config.get_string("state", "github_webhook_secret") {
        Ok(secret) => secret,
        Err(_) => {
            return Err(
                Response {
                    status: 500,
                    body: "Failed to get \"github_webhook_secret\" from config.".to_owned(),
                },
            );
        },
    };
    match verify(secret.as_str().as_bytes(), body, header_string) {
        Some(valid) => Ok(valid),
        None => Err(Response { status: 500, body: "Failed to compute HMAC value.".to_owned() }),
    }
}

/// The answer to a comment event, by the outcome of its extraction.
pub open spec fn comment_answer(extracted: Result<Option<EventView>, Seq<char>>) -> HandledView {
    match extracted {
        Err(e) => answer(500, "Failed to parse the request body data: "@ + e + "."@),
        Ok(None) => answer(200, "Skipped."@),
        Ok(Some(event)) => HandledView { status: 200, body: "Received."@, event: Some(event) },
    }
}

/// The answer to a request whose signature was found valid.
pub open spec fn event_answer(
    config: ConfigView,
    event_field: Seq<char>,
    event_name: Option<Seq<u8>>,
    body: Seq<u8>,
) -> HandledView {
    match header_text(event_name, event_field) {
        Err(complaint) => answer(500, complaint),
        Ok(name) => match json_parse(body) {
            Err(complaint) => answer(500, "Failed to parse the request body: "@ + complaint + "."@),
            Ok(payload) => match event_type_of(name) {
                WebhookEventType::Ping => answer(200, "Pong."@),
                WebhookEventType::IssueComment => comment_answer(
                    comment_event(
                        WebhookEventType::IssueComment,
                        "user"@,
                        "issue"@,
                        config,
                        payload,
                    ),
                ),
                WebhookEventType::PullRequestComment => comment_answer(
                    comment_event(
                        WebhookEventType::PullRequestComment,
                        "comment"@,
                        "pull_request"@,
                        config,
                        payload,
                    ),
                ),
                WebhookEventType::Invalid => answer(400, "Invalid event."@),
            },
        },
    }
}

/// The configuration after a request whose signature was found valid was answered: that
/// after the extraction, where the request brought a comment that could be read.
pub open spec fn config_after_event(
    config: ConfigView,
    event_field: Seq<char>,
    event_name: Option<Seq<u8>>,
    body: Seq<u8>,
) -> ConfigView {
    match header_text(event_name, event_field) {
        Err(_) => config,
        Ok(name) => match json_parse(body) {
            Err(_) => config,
            Ok(payload) => match event_type_of(name) {
                WebhookEventType::IssueComment => config_after_extraction(config, payload),
                WebhookEventType::PullRequestComment => config_after_extraction(config, payload),
                _ => config,
            },
        },
    }
}

/// The handler of incoming webhook requests. It holds the names of the two headers that it
/// reads.
pub struct WebhookHandler {
    /// The header that carries the signature.
    pub signature_field: String,
    /// The header that names the event.
    pub event_field: String,
}

impl WebhookHandler {
    /// A handler that reads `X-Hub-Signature` and `X-GitHub-Event`.
    pub fn new() -> (handler: WebhookHandler)
        ensures
            handler.signature_field@ == "X-Hub-Signature"@,
            handler.event_field@ == "X-GitHub-Event"@,
    {
        WebhookHandler {
            signature_field: "X-Hub-Signature".to_owned(),
            event_field: "X-GitHub-Event".to_owned(),
        }
    }

    /// What a request comes to, given the digest of its body if it could be computed.
    ///
    /// In this order: a request without the signature header is refused with 400, one whose
    /// signature header is no text with 500; a missing secret or digest gives 500, a signature
    /// that does not match 400; then the request is answered by `event_answer`.
    pub open spec fn handling(
        &self,
        config: ConfigView,
        signature: Option<Seq<u8>>,
        event_name: Option<Seq<u8>>,
        body: Seq<u8>,
        digest: Option<Seq<u8>>,
    ) -> HandledView {
        match signature {
            None => answer(400, header_missing_message(self.signature_field@)),
            Some(_) => match header_text(signature, self.signature_field@) {
                Err(complaint) => answer(500, complaint),
                Ok(header) => match validation(config, header, digest) {
                    Err(response) => answer(response.status, response.body),
                    Ok(false) => answer(400, "Invalid verification hash."@),
                    Ok(true) => event_answer(
                        config_after_validation(config),
                        self.event_field@,
                        event_name,
                        body,
                    ),
                },
            },
        }
    }

    /// The configuration after a request was handled, given the digest of its body if it
    /// could be computed: what was asked of the configuration and was not there stands in it
    /// as the empty string.
    pub open spec fn config_after_handling(
        &self,
        config: ConfigView,
        signature: Option<Seq<u8>>,
        event_name: Option<Seq<u8>>,
        body: Seq<u8>,
        digest: Option<Seq<u8>>,
    ) -> ConfigView {
        match signature {
            None => config,
            Some(_) => match header_text(signature, self.signature_field@) {
                Err(_) => config,
                Ok(header) => match validation(config, header, digest) {
                    Ok(true) => config_after_event(
                        config_after_validation(config),
                        self.event_field@,
                        event_name,
                        body,
                    ),
                    _ => config_after_validation(config),
                },
            },
        }
    }

    /// Answers a request whose signature was found valid: reads the event header, parses the
    /// body and, for a comment, extracts the event.
    pub fn handle_event(&self, config: &mut ConfigHandler, event_name: Option<&[u8]>, body: &[u8]) -> (handled:
        Handled)
        ensures
            handled@ == event_answer(
                old(config)@,
                self.event_field@,
                raw_bytes(event_name),
                body@,
            ),
            final(config)@ == config_after_event(
                old(config)@,
                self.event_field@,
                raw_bytes(event_name),
                body@,
            ),
    {
        let name = match extract_header_string(event_name, self.event_field.as_str()) {
            Ok(name) => name,
            Err(complaint) => return plain(500, complaint),
        };
        let payload = match parse_json(body) {
            Ok(payload) => payload,
            Err(error) => {
                let detail = json_error_text(&error);
                return plain(
                    500,
                    join3("Failed to parse the request body: ", detail.as_str(), "."),
                );
            },
        };
        let extracted = match WebhookEventType::from_string(name.as_str()) {
            WebhookEventType::Ping => return plain(200, "Pong.".to_owned()),
            WebhookEventType::Invalid => return plain(400, "Invalid event.".to_owned()),
            WebhookEventType::IssueComment => WebhookEvent::from_issue_json(config, &payload),
            WebhookEventType::PullRequestComment => WebhookEvent::from_pull_request_json(
                config,
                &payload,
            ),
        };
        match extracted {
            Err(e) => plain(
                500,
                join3("Failed to parse the request body data: ", e.as_str(), "."),
            ),
            Ok(None) => plain(200, "Skipped.".to_owned()),
            Ok(Some(event)) => Handled {
                response: Response { status: 200, body: "Received.".to_owned() },
                event: Some(event),
            },
        }
    }

    /// Answers a request, given the raw values of its two headers, where it has them, and its
    /// raw body.
    ///
    /// The outcome is that of `handling` on the digest of the body under the configured
    /// secret; where the digest cannot be computed, that of `handling` without a digest.
    pub fn handle(
        &self,
        config: &mut ConfigHandler,
        signature: Option<&[u8]>,
        event_name: Option<&[u8]>,
        body: &[u8],
    ) -> (handled: Handled)
        ensures
            ({
                let digest = configured_digest(old(config)@, body@);
                let sig = raw_bytes(signature);
                let name = raw_bytes(event_name);
                ||| (handled@ == self.handling(old(config)@, sig, name, body@, digest)
                    && final(config)@ == self.config_after_handling(
                    old(config)@,
                    sig,
                    name,
                    body@,
                    digest,
                ))
                ||| (handled@ == self.handling(old(config)@, sig, name, body@, None)
                    && final(config)@ == self.config_after_handling(
                    old(config)@,
                    sig,
                    name,
                    body@,
                    None,
                ))
            }),
            signature is None ==> handled@.status == 400 && handled@.event is None
                && *final(config) == *old(config),
    {
        if signature.is_none() {
            return plain(
                400,
                join3("\"", self.signature_field.as_str(), "\" field in the header is missng."),
            );
        }
        let header = match extract_header_string(signature, self.signature_field.as_str()) {
            Ok(header) => header,
            Err(complaint) => return plain(500, complaint),
        };
        match validate_webhook(config, header.as_str(), body) {
            Err(response) => Handled { response, event: None },
            Ok(false) => plain(400, "Invalid verification hash.".to_owned()),
            Ok(true) => self.handle_event(config, event_name, body),
        }
    }
}

/// An answer without an event.
pub fn plain(status: u16, body: String) -> (handled: Handled)
    ensures
        handled@ == answer(status, body@),
{
    Handled { response: Response { status, body }, event: None }
}

/// A comment that was created and does not mention the bot gives no event, whatever else
/// the payload holds.
pub proof fn law_unaddressed_comment_skipped(
    event_type: WebhookEventType,
    user_key: Seq<char>,
    parent_key: Seq<char>,
    config: ConfigView,
    payload: JsonData,
    comment: JsonData,
    bot_name: Seq<char>,
    body: Seq<char>,
)
    requires
        string_field(payload, "action"@) == Ok::<Seq<char>, Seq<char>>("created"@),
        object_field(payload, "comment"@) == Ok::<JsonData, Seq<char>>(comment),
        config.string_at("config"@, "github_bot_name"@) == Ok::<Seq<char>, Seq<char>>(bot_name),
        string_field(comment, "body"@) == Ok::<Seq<char>, Seq<char>>(body),
        !contains(body, mention(bot_name)),
    ensures
        comment_event(event_type, user_key, parent_key, config, payload) == Ok::<
            Option<EventView>,
            Seq<char>,
        >(None),
{
}

/// An event exists only for a comment that was created and that mentions the bot, and its
/// command is what the comment says to the bot.
pub proof fn law_event_origin(
    event_type: WebhookEventType,
    user_key: Seq<char>,
    parent_key: Seq<char>,
    config: ConfigView,
    payload: JsonData,
)
    requires
        comment_event(event_type, user_key, parent_key, config, payload) is Ok,
        comment_event(event_type, user_key, parent_key, config, payload)->Ok_0 is Some,
    ensures
        ({
            let event = comment_event(event_type, user_key, parent_key, config, payload)->Ok_0->0;
            let comment = object_field(payload, "comment"@)->Ok_0;
            let body = string_field(comment, "body"@)->Ok_0;
            let bot_name = config.string_at("config"@, "github_bot_name"@)->Ok_0;
            &&& string_field(payload, "action"@) == Ok::<Seq<char>, Seq<char>>("created"@)
            &&& contains(body, mention(bot_name))
            &&& event.command == trimmed(without_first(body, mention(bot_name)))
            &&& event.event_type == event_type
        }),
{
}

/// A request without the signature header is refused with 400, and brings no event.
pub proof fn law_unsigned_refused(
    handler: WebhookHandler,
    config: ConfigView,
    event_name: Option<Seq<u8>>,
    body: Seq<u8>,
    digest: Option<Seq<u8>>,
)
    ensures
        handler.handling(config, None, event_name, body, digest).status == 400,
        handler.handling(config, None, event_name, body, digest).event is None,
{
}

/// Only a request that is answered with 200 brings an event, and only one whose signature
/// is that of its body.
pub proof fn law_event_needs_valid_signature(
    handler: WebhookHandler,
    config: ConfigView,
    signature: Option<Seq<u8>>,
    event_name: Option<Seq<u8>>,
    body: Seq<u8>,
    digest: Option<Seq<u8>>,
)
    requires
        handler.handling(config, signature, event_name, body, digest).event is Some,
    ensures
        handler.handling(config, signature, event_name, body, digest).status == 200,
        signature is Some,
        digest is Some,
        header_text(signature, handler.signature_field@) is Ok,
        signature_matches(digest->0, header_text(signature, handler.signature_field@)->Ok_0),
{
}

} // verus!
