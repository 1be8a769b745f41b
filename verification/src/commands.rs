//! Command dispatch: the registry of commands, the rules on politeness and on the whitelist,
//! and the reply that goes back to the thread.

use crate::config::{ConfigHandler, ConfigView};
use crate::json::{json_quoted, quote};
use crate::numerals::{decimal, push_decimal};
use crate::text::{
    is_please, join3, same_text, texts, to_chars, tokenize, tokens, word_is_please,
};
use crate::webhooks::{EventView, WebhookEvent};
use vstd::prelude::*;

verus! {

/// The handlers that a command can have.
#[derive(Clone, Copy, Debug, PartialEq, Eq, Structural)]
pub enum CommandCallback {
    /// Answers `Pong`.
    Ping,
    /// Points to the documentation.
    Help,
}

/// The answer of `help`.
pub open spec fn help_text() -> Seq<char> {
    "Documentation related to the bot including available commands are at [https://hunterbot.readthedocs.io](https://hunterbot.readthedocs.io)"@
}

/// What a handler returns for an event and the words from the verb on. Neither of the two
/// handlers looks at them.
pub open spec fn callback_result(
    callback: CommandCallback,
    event: EventView,
    args: Seq<Seq<char>>,
) -> Result<Seq<char>, Seq<char>> {
    match callback {
        CommandCallback::Ping => Ok("Pong"@),
        CommandCallback::Help => Ok(help_text()),
    }
}

/// The content of a result that holds strings on both sides.
pub open spec fn result_text(r: Result<String, String>) -> Result<Seq<char>, Seq<char>> {
    match r {
        Ok(s) => Ok(s@),
        Err(e) => Err(e@),
    }
}

/// Answers `Pong`, and leaves the configuration as it is.
pub fn ping(config: &mut ConfigHandler, raw_event: &WebhookEvent, args: &Vec<String>) -> (answer:
    Result<String, String>)
    ensures
        result_text(answer) == callback_result(CommandCallback::Ping, raw_event@, texts(args@)),
        *final(config) == *old(config),
{
    Ok("Pong".to_owned())
}

/// Points to the documentation, and leaves the configuration as it is.
pub fn help(config: &mut ConfigHandler, raw_event: &WebhookEvent, args: &Vec<String>) -> (answer:
    Result<String, String>)
    ensures
        result_text(answer) == callback_result(CommandCallback::Help, raw_event@, texts(args@)),
        *final(config) == *old(config),
{
    Ok(
        "Documentation related to the bot including available commands are at [https://hunterbot.readthedocs.io](https://hunterbot.readthedocs.io)".to_owned(),
    )
}

impl CommandCallback {
    /// Runs the handler on the configuration, the event and the words from the verb on.
    pub fn call(&self, config: &mut ConfigHandler, raw_event: &WebhookEvent, args: &Vec<String>) -> (answer:
        Result<String, String>)
        ensures
            result_text(answer) == callback_result(*self, raw_event@, texts(args@)),
            *final(config) == *old(config),
    {
        match self {
            CommandCallback::Ping => ping(config, raw_event, args),
            CommandCallback::Help => help(config, raw_event, args),
        }
    }
}

/// A command: what it asks of the one who gives it, and its handler.
#[derive(Clone, Copy, Debug, PartialEq, Eq, Structural)]
pub struct Command {
    /// Whether the command wants to be asked with `please`.
    pub requires_please: bool,
    /// Whether only whitelisted users may give the command.
    pub whitelist_only: bool,
    /// The handler that does the work.
    pub callback: CommandCallback,
}

impl Command {
    pub fn new(requires_please: bool, whitelist_only: bool, callback: CommandCallback) -> (command:
        Command)
        ensures
            command == (Command { requires_please, whitelist_only, callback }),
    {
        Command { requires_please, whitelist_only, callback }
    }
}

/// What the rules make of a command that was found.
#[derive(Clone, Copy, Debug, PartialEq, Eq, Structural)]
pub enum Gate {
    /// The command is for whitelisted users, and the user is none: it does not run.
    WhitelistOnly,
    /// The command wants `please`, and none was said: it does not run.
    AskPlease,
    /// The command runs; `thanked` where `please` was said without need.
    Run { thanked: bool },
}

/// The rules, in the order in which they apply: the whitelist first, then politeness.
pub open spec fn gate(
    requires_please: bool,
    whitelist_only: bool,
    please_given: bool,
    whitelisted: bool,
) -> Gate {
    if whitelist_only && !whitelisted {
        Gate::WhitelistOnly
    } else if requires_please == please_given {
        Gate::Run { thanked: false }
    } else if please_given {
        Gate::Run { thanked: true }
    } else {
        Gate::AskPlease
    }
}

/// Decides `gate` for a command.
pub fn decide(command: &Command, please_given: bool, whitelisted: bool) -> (decision: Gate)
    ensures
        decision == gate(
            command.requires_please,
            command.whitelist_only,
            please_given,
            whitelisted,
        ),
{
    if command.whitelist_only && !whitelisted {
        Gate::WhitelistOnly
    } else if command.requires_please == please_given {
        Gate::Run { thanked: false }
    } else if please_given {
        Gate::Run { thanked: true }
    } else {
        Gate::AskPlease
    }
}

/// The rules as a table: each combination of what the command asks and what the user
/// brings falls under exactly one of five rows, and the row gives the decision.
pub proof fn law_gate_table(
    requires_please: bool,
    whitelist_only: bool,
    please_given: bool,
    whitelisted: bool,
)
    ensures
        ({
            let decision = gate(requires_please, whitelist_only, please_given, whitelisted);
            let barred = whitelist_only && !whitelisted;
            &&& barred ==> decision == Gate::WhitelistOnly
            &&& !barred && requires_please && please_given ==> decision == (Gate::Run {
                thanked: false,
            })
            &&& !barred && !requires_please && !please_given ==> decision == (Gate::Run {
                thanked: false,
            })
            &&& !barred && !requires_please && please_given ==> decision == (Gate::Run {
                thanked: true,
            })
            &&& !barred && requires_please && !please_given ==> decision == Gate::AskPlease
            &&& decision == Gate::WhitelistOnly <==> barred
            &&& decision == Gate::AskPlease <==> !barred && requires_please && !please_given
            &&& decision == (Gate::Run { thanked: true }) <==> !barred && !requires_please
                && please_given
            &&& decision == (Gate::Run { thanked: false }) <==> !barred && requires_please
                == please_given
        }),
{
}

/// A request to post to the platform: the endpoint, the token that authenticates the
/// request as its bearer, and the JSON text to send.
#[derive(Clone, Debug)]
pub struct PostRequest {
    pub endpoint: String,
    pub token: String,
    pub body: String,
}

/// The mathematical content of a `PostRequest`.
pub struct PostView {
    pub endpoint: Seq<char>,
    pub token: Seq<char>,
    pub body: Seq<char>,
}

impl View for PostRequest {
    type V = PostView;

    open spec fn view(&self) -> PostView {
        PostView { endpoint: self.endpoint@, token: self.token@, body: self.body@ }
    }
}

/// `repos/<repo>/issues/<number>/comments`
pub open spec fn comment_endpoint(repo: Seq<char>, number: u64) -> Seq<char> {
    "repos/"@ + repo + "/issues/"@ + decimal(number as nat) + "/comments"@
}

/// What a reply says: `@<user> <message>`.
pub open spec fn comment_text(user: Seq<char>, message: Seq<char>) -> Seq<char> {
    "@"@ + user + " "@ + message
}

/// The JSON object with the one member `body`, which holds `@<user> <message>` as a JSON
/// string.
pub open spec fn comment_body(user: Seq<char>, message: Seq<char>) -> Seq<char> {
    "{\"body\": "@ + json_quoted(comment_text(user, message)) + "}"@
}

/// The request that carries `message` to the author of an event, on the thread of the event:
/// in the repository that the configuration names, with the bot's token. The message of
/// giving up where the configuration lacks either.
pub open spec fn reply_to(config: ConfigView, event: EventView, message: Seq<char>) -> Result<
    PostView,
    Seq<char>,
> {
    match config.required_string_at("config"@, "github_follow_repo"@) {
        Err(e) => Err(e),
        Ok(repo) => match config.required_string_at("config"@, "github_bot_token"@) {
            Err(e) => Err(e),
            Ok(token) => Ok(
                PostView {
                    endpoint: comment_endpoint(repo, event.number),
                    token,
                    body: comment_body(event.user, message),
                },
            ),
        },
    }
}

/// The content of a request or a message.
pub open spec fn post_result(r: Result<PostRequest, String>) -> Result<PostView, Seq<char>> {
    match r {
        Ok(request) => Ok(request@),
        Err(e) => Err(e@),
    }
}

/// Builds the request that carries `msg` to the author of an event; see `reply_to`.
pub fn respond(config: &ConfigHandler, raw_event: &WebhookEvent, msg: &str) -> (request: Result<
    PostRequest,
    String,
>)
    ensures
        post_result(request) == reply_to(config@, raw_event@, msg@),
{
    let repo = match config.get_string_required("config", "github_follow_repo") {
        Ok(repo) => repo,
        Err(e) => return Err(e),
    };
    let token = match config.get_string_required("config", "github_bot_token") {
        Ok(token) => token,
        Err(e) => return Err(e),
    };
    let mut text = join3("@", raw_event.user.as_str(), " ");
    text.append(msg);
    let quoted = quote(text.as_str());
    Ok(comment_request(repo.as_str(), raw_event.number, token, quoted.as_str()))
}

/// The request that posts a comment on the thread `number` of a repository, given the
/// comment's text as a JSON string.
pub fn comment_request(repo: &str, number: u64, token: String, quoted_text: &str) -> (request:
    PostRequest)
    ensures
        request@.endpoint == comment_endpoint(repo@, number),
        request@.token == token@,
        request@.body == "{\"body\": "@ + quoted_text@ + "}"@,
{
    let mut endpoint = join3("repos/", repo, "/issues/");
    push_decimal(&mut endpoint, number);
    endpoint.append("/comments");
    PostRequest { endpoint, token, body: join3("{\"body\": ", quoted_text, "}") }
}

/// A command under the verb that calls it.
#[derive(Clone, Debug)]
pub struct Registration {
    pub verb: String,
    pub command: Command,
}

/// The command that the first registration under `verb` holds.
pub open spec fn lookup_in(entries: Seq<Registration>, verb: Seq<char>) -> Option<Command>
    decreases entries.len(),
{
    if entries.len() == 0 {
        None
    } else if entries[0].verb@ == verb {
        Some(entries[0].command)
    } else {
        lookup_in(entries.drop_first(), verb)
    }
}

/// What becomes of an event.
#[derive(Clone, Copy, Debug, PartialEq, Eq, Structural)]
pub enum Decision {
    /// The bot wrote the comment itself: no reply, and no command runs.
    FromBot,
    /// No command stands under the verb.
    NotFound,
    /// The command is for whitelisted users, and the user is none.
    WhitelistOnly,
    /// The command wants `please`, and none was said.
    AskPlease,
    /// The command ran; `thanked` where `please` was said without need.
    Run { thanked: bool },
}

/// The decision on an event, and the reply to post, if any.
#[derive(Clone, Debug)]
pub struct Dispatched {
    pub decision: Decision,
    pub reply: Option<PostRequest>,
}

/// The mathematical content of a `Dispatched`.
pub struct DispatchedView {
    pub decision: Decision,
    pub reply: Option<PostView>,
}

impl View for Dispatched {
    type V = DispatchedView;

    open spec fn view(&self) -> DispatchedView {
        DispatchedView {
            decision: self.decision,
            reply: match self.reply {
                Some(request) => Some(request@),
                None => None,
            },
        }
    }
}

/// The reply to a verb that no command stands under.
pub open spec fn not_found_text() -> Seq<char> {
    "Sorry the command was not found. Please visit [https://hunterbot.readthedocs.io](https://hunterbot.readthedocs.io) for available commands."@
}

/// The reply to a user who is not whitelisted.
pub open spec fn whitelist_only_text() -> Seq<char> {
    "Sorry! That command if for whitelisted people only!"@
}

/// The reply that asks for `please`.
pub open spec fn ask_please_text() -> Seq<char> {
    "Whats the magic word?"@
}

/// What comes before the answer of a command that was asked with a `please` it did not need.
pub open spec fn courtesy_text() -> Seq<char> {
    "You didn't need to say please but thanks anyways :smiley: \r\n\r\nOhh and: \r\n"@
}

/// The reply after a command ran: its answer, behind the courtesy where the user is thanked;
/// or the report of its error.
pub open spec fn run_text(result: Result<Seq<char>, Seq<char>>, thanked: bool) -> Seq<char> {
    match result {
        Ok(message) => if thanked {
            courtesy_text() + message
        } else {
            message
        },
        Err(message) => "An error occurred while executing the command: "@ + message,
    }
}

/// Decides `run_text`.
pub fn compose_reply(result: Result<String, String>, thanked: bool) -> (reply: String)
    ensures
        reply@ == run_text(result_text(result), thanked),
{
    match result {
        Ok(message) => {
            if thanked {
                let mut reply =
                    "You didn't need to say please but thanks anyways :smiley: \r\n\r\nOhh and: \r\n".to_owned();
                reply.append(message.as_str());
                reply
            } else {
                message
            }
        },
        Err(message) => {
            let mut reply = "An error occurred while executing the command: ".to_owned();
            reply.append(message.as_str());
            reply
        },
    }
}

/// Whether the first word is `please`.
pub open spec fn please_given(words: Seq<Seq<char>>) -> bool {
    words.len() > 0 && is_please(words[0])
}

/// The place of the verb among the words: behind `please` where it was said, else in front.
pub open spec fn verb_index(words: Seq<Seq<char>>) -> int {
    if please_given(words) {
        1
    } else {
        0
    }
}

/// The words from `from` on.
pub fn arguments(words: &Vec<String>, from: usize) -> (args: Vec<String>)
    requires
        from <= words.len(),
    ensures
        texts(args@) == texts(words@).skip(from as int),
{
    let mut args: Vec<String> = Vec::new();
    let mut i: usize = from;
    while i < words.len()
        invariant
            from <= i <= words.len(),
            args@.len() == i - from,
            forall|k: int| 0 <= k < args@.len() ==> args@[k]@ == words@[from + k]@,
        decreases words.len() - i,
    {
        args.push(words[i].clone());
        i += 1;
    }
    assert(texts(args@) =~= texts(words@).skip(from as int));
    args
}

/// The registry of commands, and the dispatch of events to them.
#[derive(Clone, Debug)]
pub struct CommandHandler {
    commands: Vec<Registration>,
}

impl CommandHandler {
    /// The registrations, in the order in which they were made.
    pub closed spec fn registry(&self) -> Seq<Registration> {
        self.commands@
    }

    /// The command under a verb: the verb is matched exactly, letter case included.
    pub open spec fn lookup(&self, verb: Seq<char>) -> Option<Command> {
        lookup_in(self.registry(), verb)
    }

    /// No verb is registered twice.
    pub open spec fn verbs_distinct(&self) -> bool {
        forall|i: int, j: int|
            0 <= i < j < self.registry().len() ==> self.registry()[i].verb@
                != self.registry()[j].verb@
    }

    /// The decision on the words of a command, for a user who did not write as the bot.
    pub open spec fn decision_for(&self, words: Seq<Seq<char>>, whitelisted: bool) -> Decision {
        if verb_index(words) >= words.len() {
            Decision::NotFound
        } else {
            match self.lookup(words[verb_index(words)]) {
                None => Decision::NotFound,
                Some(command) => match gate(
                    command.requires_please,
                    command.whitelist_only,
                    please_given(words),
                    whitelisted,
                ) {
                    Gate::WhitelistOnly => Decision::WhitelistOnly,
                    Gate::AskPlease => Decision::AskPlease,
                    Gate::Run { thanked } => Decision::Run { thanked },
                },
            }
        }
    }

    /// The text of the reply that goes with a decision. A command that runs is the one under
    /// the verb, and its handler gets the event and the words from the verb on.
    pub open spec fn reply_text(
        &self,
        event: EventView,
        words: Seq<Seq<char>>,
        decision: Decision,
    ) -> Seq<char> {
        match decision {
            Decision::FromBot => Seq::empty(),
            Decision::NotFound => not_found_text(),
            Decision::WhitelistOnly => whitelist_only_text(),
            Decision::AskPlease => ask_please_text(),
            Decision::Run { thanked } => run_text(
                callback_result(
                    self.lookup(words[verb_index(words)])->0.callback,
                    event,
                    words.skip(verb_index(words)),
                ),
                thanked,
            ),
        }
    }

    /// What becomes of an event.
    ///
    /// In this order: whether the user is whitelisted and the bot's name are read from the
    /// configuration; an event that the bot wrote itself is dropped; else the words of the
    /// command give the decision, and the reply goes to the author on the thread of the
    /// event. An error is the message with which the program gives up for want of a
    /// required value.
    pub open spec fn dispatch(&self, config: ConfigView, event: EventView) -> Result<
        DispatchedView,
        Seq<char>,
    > {
        match config.whitelisted(event.user) {
            Err(e) => Err(e),
            Ok(whitelisted) => match config.required_string_at("config"@, "github_bot_name"@) {
                Err(e) => Err(e),
                Ok(bot_name) => if bot_name == event.user {
                    Ok(DispatchedView { decision: Decision::FromBot, reply: None })
                } else {
                    let words = tokens(event.command);
                    let decision = self.decision_for(words, whitelisted);
                    match reply_to(config, event, self.reply_text(event, words, decision)) {
                        Err(e) => Err(e),
                        Ok(request) => Ok(DispatchedView { decision, reply: Some(request) }),
                    }
                },
            },
        }
    }

    /// The registry with the two commands `ping` and `help`; neither asks for `please` or for
    /// the whitelist.
    pub fn new() -> (handler: CommandHandler)
        ensures
            handler.verbs_distinct(),
            handler.lookup("ping"@) == Some(
                Command {
                    requires_please: false,
                    whitelist_only: false,
                    callback: CommandCallback::Ping,
                },
            ),
            handler.lookup("help"@) == Some(
                Command {
                    requires_please: false,
                    whitelist_only: false,
                    callback: CommandCallback::Help,
                },
            ),
            forall|verb: Seq<char>|
                verb != "ping"@ && verb != "help"@ ==> handler.lookup(verb) is None,
    {
        let mut commands: Vec<Registration> = Vec::new();
        commands.push(
            Registration {
                verb: "ping".to_owned(),
                command: Command::new(false, false, CommandCallback::Ping),
            },
        );
        commands.push(
            Registration {
                verb: "help".to_owned(),
                command: Command::new(false, false, CommandCallback::Help),
            },
        );
        proof {
            reveal_strlit("ping");
            reveal_strlit("help");
            assert("ping"@[0] != "help"@[0]);
            let entries = commands@;
            assert(entries.drop_first().len() == 1);
            assert(entries.drop_first()[0] == entries[1]);
            assert(entries.drop_first().drop_first().len() == 0);
            assert(entries[0].verb@ == "ping"@);
            assert(entries[1].verb@ == "help"@);
            assert forall|verb: Seq<char>|
                verb != "ping"@ && verb != "help"@ implies lookup_in(entries, verb) is None by {
                assert(lookup_in(entries.drop_first().drop_first(), verb) is None);
                assert(lookup_in(entries.drop_first(), verb) is None);
            }
            assert(lookup_in(entries.drop_first(), "help"@) == Some(entries[1].command));
        }
        CommandHandler { commands }
    }

    /// The command under a verb.
    pub fn find_command(&self, verb: &str) -> (found: Option<Command>)
        ensures
            found == self.lookup(verb@),
    {
        let mut i: usize = 0;
        assert(self.commands@.skip(0) == self.commands@);
        while i < self.commands.len()
            invariant
                i <= self.commands.len(),
                lookup_in(self.commands@.skip(i as int), verb@) == lookup_in(
                    self.commands@,
                    verb@,
                ),
            decreases self.commands.len() - i,
        {
            if same_text(self.commands[i].verb.as_str(), verb) {
                return Some(self.commands[i].command);
            }
            assert(self.commands@.skip(i as int).drop_first() == self.commands@.skip(i + 1));
            i += 1;
        }
        None
    }

    /// Dispatches an event: decides what becomes of it, runs the command where the decision
    /// is to run it, and builds the reply.
    pub fn parse_command(&self, config: &mut ConfigHandler, webhook: &WebhookEvent) -> (outcome:
        Result<Dispatched, String>)
        ensures
            match self.dispatch(old(config)@, webhook@) {
                Err(e) => outcome is Err && outcome->Err_0@ == e,
                Ok(expected) => outcome is Ok && outcome->Ok_0@ == expected,
            },
            *final(config) == *old(config),
    {
        let whitelisted = match config.whitelist_validate_user(webhook.user.as_str()) {
            Ok(whitelisted) => whitelisted,
            Err(e) => return Err(e),
        };
        let bot_name = match config.get_string_required("config", "github_bot_name") {
            Ok(name) => name,
            Err(e) => return Err(e),
        };
        if bot_name == webhook.user {
            return Ok(Dispatched { decision: Decision::FromBot, reply: None });
        }
        let chars = to_chars(webhook.command.as_str());
        let words = tokenize(&chars);
        let please = words.len() > 0 && word_is_please(words[0].as_str());
        let cursor: usize = if please {
            1
        } else {
            0
        };
        assert(words.len() > 0 ==> texts(words@)[0] == words@[0]@);
        assert(please == please_given(texts(words@)));
        let mut decision = Decision::NotFound;
        let mut message =
            "Sorry the command was not found. Please visit [https://hunterbot.readthedocs.io](https://hunterbot.readthedocs.io) for available commands.".to_owned();
        if cursor < words.len() {
            assert(texts(words@)[cursor as int] == words@[cursor as int]@);
            match self.find_command(words[cursor].as_str()) {
                None => {},
                Some(command) => match decide(&command, please, whitelisted) {
                    Gate::WhitelistOnly => {
                        decision = Decision::WhitelistOnly;
                        message = "Sorry! That command if for whitelisted people only!".to_owned();
                    },
                    Gate::AskPlease => {
                        decision = Decision::AskPlease;
                        message = "Whats the magic word?".to_owned();
                    },
                    Gate::Run { thanked } => {
                        let args = arguments(&words, cursor);
                        let result = command.callback.call(config, webhook, &args);
                        decision = Decision::Run { thanked };
                        message = compose_reply(result, thanked);
                    },
                },
            }
        }
        match respond(config, webhook, message.as_str()) {
            Err(e) => Err(e),
            Ok(request) => Ok(Dispatched { decision, reply: Some(request) }),
        }
    }
}

/// The bot does not answer itself: an event whose author is the bot gets no reply, and no
/// command runs for it.
pub proof fn law_own_comments_dropped(
    handler: CommandHandler,
    config: ConfigView,
    event: EventView,
)
    requires
        config.whitelisted(event.user) is Ok,
        config.required_string_at("config"@, "github_bot_name"@) == Ok::<Seq<char>, Seq<char>>(
            event.user,
        ),
    ensures
        handler.dispatch(config, event) == Ok::<DispatchedView, Seq<char>>(
            DispatchedView { decision: Decision::FromBot, reply: None },
        ),
{
}

/// Every event of another author is answered: where the configuration has what a reply
/// needs, the dispatch gives exactly one reply, which carries the text that goes with the
/// decision to the author, on the thread of the event.
pub proof fn law_every_command_answered(
    handler: CommandHandler,
    config: ConfigView,
    event: EventView,
)
    requires
        handler.dispatch(config, event) is Ok,
        handler.dispatch(config, event)->Ok_0.decision != Decision::FromBot,
    ensures
        ({
            let dispatched = handler.dispatch(config, event)->Ok_0;
            let words = tokens(event.command);
            &&& dispatched.reply is Some
            &&& dispatched.reply->0.body == comment_body(
                event.user,
                handler.reply_text(event, words, dispatched.decision),
            )
            &&& dispatched.reply->0.endpoint == comment_endpoint(
                config.required_string_at("config"@, "github_follow_repo"@)->Ok_0,
                event.number,
            )
            &&& dispatched.reply->0.token == config.required_string_at(
                "config"@,
                "github_bot_token"@,
            )->Ok_0
        }),
{
}

/// A command that does not run is answered with the text of its refusal, and a verb that
/// no command stands under with the text that says so.
pub proof fn law_refusals_answered(handler: CommandHandler, event: EventView, whitelisted: bool)
    ensures
        ({
            let words = tokens(event.command);
            let decision = handler.decision_for(words, whitelisted);
            &&& decision == Decision::NotFound ==> handler.reply_text(event, words, decision)
                == not_found_text()
            &&& decision == Decision::WhitelistOnly ==> handler.reply_text(event, words, decision)
                == whitelist_only_text()
            &&& decision == Decision::AskPlease ==> handler.reply_text(event, words, decision)
                == ask_please_text()
            &&& decision != Decision::FromBot
        }),
{
}

} // verus!
