//! What the program settles before it serves: its options, the address it listens on, the
//! webhook secret and the registration of the webhook.

use crate::commands::{post_result, PostRequest, PostView};
use crate::config::{ConfigHandler, ConfigView, ValueView};
use crate::json::{json_quoted, quote};
use crate::logger::LogLevelFilter;
use crate::numerals::{
    decimal, failure_text, parse_number, parse_unsigned, push_decimal, ParseFailure,
};
use crate::text::{
    folds_to, join3, join5, same_text, split, split_on, texts, to_chars, word_folds_to,
};
use vstd::prelude::*;

verus! {

/// Whether a text names a log level, whatever the case of its letters.
pub open spec fn names_log_level(name: Seq<char>) -> bool {
    ||| folds_to(name, "error"@)
    ||| folds_to(name, "warn"@)
    ||| folds_to(name, "info"@)
    ||| folds_to(name, "debug"@)
    ||| folds_to(name, "trace"@)
}

/// Accepts the name of a log level; any other text is refused with `Invalid log level`.
pub fn max_log_level_validator(max_log_level: &str) -> (checked: Result<(), String>)
    ensures
        checked is Ok <==> names_log_level(max_log_level@),
        checked is Err ==> checked->Err_0@ == "Invalid log level"@,
{
    if word_folds_to(max_log_level, "error") || word_folds_to(max_log_level, "warn")
        || word_folds_to(max_log_level, "info") || word_folds_to(max_log_level, "debug")
        || word_folds_to(max_log_level, "trace") {
        Ok(())
    } else {
        Err("Invalid log level".to_owned())
    }
}

/// Accepts a log size: a decimal number that fits 64 bits. Any other text is refused with
/// `Failed to parse the log size: ` and what is wrong with it.
pub fn log_size_validator(log_size: &str) -> (checked: Result<(), String>)
    ensures
        match checked {
            Ok(_) => parse_number(log_size@, u64::MAX as nat) is Ok,
            Err(e) => parse_number(log_size@, u64::MAX as nat) is Err && e@
                == "Failed to parse the log size: "@ + failure_text(
                parse_number(log_size@, u64::MAX as nat)->Err_0,
            ),
        },
{
    match parse_unsigned(log_size, u64::MAX) {
        Ok(_) => Ok(()),
        Err(failure) => {
            let mut message = "Failed to parse the log size: ".to_owned();
            message.append(failure.description().as_str());
            Err(message)
        },
    }
}

/// The filter that an option names, in small letters; `Error` for any other text.
pub open spec fn filter_named(name: Seq<char>) -> LogLevelFilter {
    if name == "error"@ {
        LogLevelFilter::Error
    } else if name == "warn"@ {
        LogLevelFilter::Warn
    } else if name == "info"@ {
        LogLevelFilter::Info
    } else if name == "debug"@ {
        LogLevelFilter::Debug
    } else if name == "trace"@ {
        LogLevelFilter::Trace
    } else {
        LogLevelFilter::Error
    }
}

/// Decides `filter_named`.
pub fn log_level_filter(name: &str) -> (filter: LogLevelFilter)
    ensures
        filter == filter_named(name@),
{
    if same_text(name, "error") {
        LogLevelFilter::Error
    } else if same_text(name, "warn") {
        LogLevelFilter::Warn
    } else if same_text(name, "info") {
        LogLevelFilter::Info
    } else if same_text(name, "debug") {
        LogLevelFilter::Debug
    } else if same_text(name, "trace") {
        LogLevelFilter::Trace
    } else {
        LogLevelFilter::Error
    }
}

/// The address that the server listens on.
#[derive(Clone, Copy, Debug, PartialEq, Eq)]
pub struct ListenAddress {
    pub ip: (u8, u8, u8, u8),
    pub port: u16,
}

/// The first piece, from the left, that is no byte, with what is wrong with it.
pub open spec fn first_byte_failure(pieces: Seq<Seq<char>>) -> Option<ParseFailure>
    decreases pieces.len(),
{
    if pieces.len() == 0 {
        None
    } else {
        match parse_number(pieces[0], 255) {
            Err(failure) => Some(failure),
            Ok(_) => first_byte_failure(pieces.drop_first()),
        }
    }
}

/// The byte that a piece is.
pub open spec fn byte_of(piece: Seq<char>) -> u8 {
    parse_number(piece, 255)->Ok_0 as u8
}

/// The address that the two settings give.
///
/// Every piece of the IP address between its dots has to be a byte, and the port a number
/// of 16 bits; of the bytes the first four count, and there have to be that many.
pub open spec fn listen_address(ip: Seq<char>, port: Seq<char>) -> Result<ListenAddress, Seq<char>> {
    let pieces = split(ip, '.');
    match first_byte_failure(pieces) {
        Some(failure) => Err(
            "Error parsing the ip address byte into a u8: "@ + failure_text(failure) + "."@,
        ),
        None => match parse_number(port, 65535) {
            Err(failure) => Err(
                "Error parsing the port into a u16: "@ + failure_text(failure) + "."@,
            ),
            Ok(number) => if pieces.len() < 4 {
                Err("The ip address has less than four bytes."@)
            } else {
                Ok(
                    ListenAddress {
                        ip: (
                            byte_of(pieces[0]),
                            byte_of(pieces[1]),
                            byte_of(pieces[2]),
                            byte_of(pieces[3]),
                        ),
                        port: number as u16,
                    },
                )
            },
        },
    }
}

/// Decides `listen_address`.
pub fn parse_listen_address(ip: &str, port: &str) -> (address: Result<ListenAddress, String>)
    ensures
        match address {
            Ok(a) => listen_address(ip@, port@) == Ok::<ListenAddress, Seq<char>>(a),
            Err(e) => listen_address(ip@, port@) == Err::<ListenAddress, Seq<char>>(e@),
        },
{
    let chars = to_chars(ip);
    let pieces = split_on(&chars, '.');
    let mut bytes: Vec<u8> = Vec::new();
    let mut i: usize = 0;
    assert(texts(pieces@).skip(0) == texts(pieces@));
    while i < pieces.len()
        invariant
            i <= pieces.len(),
            bytes@.len() == i,
            texts(pieces@) == split(ip@, '.'),
            first_byte_failure(texts(pieces@).skip(i as int)) == first_byte_failure(
                texts(pieces@),
            ),
            forall|k: int| 0 <= k < i ==> bytes@[k] == byte_of(texts(pieces@)[k]),
        decreases pieces.len() - i,
    {
        let ghost rest = texts(pieces@).skip(i as int);
        assert(rest[0] == pieces@[i as int]@);
        assert(rest.drop_first() == texts(pieces@).skip(i + 1));
        match parse_unsigned(pieces[i].as_str(), 255) {
            Err(failure) => {
                return Err(
                    join3(
                        "Error parsing the ip address byte into a u8: ",
                        failure.description().as_str(),
                        ".",
                    ),
                );
            },
            Ok(byte) => {
                bytes.push(byte as u8);
            },
        }
        i += 1;
    }
    assert(first_byte_failure(texts(pieces@).skip(pieces@.len() as int)) is None);
    let number = match parse_unsigned(port, 65535) {
        Err(failure) => {
            return Err(
                join3("Error parsing the port into a u16: ", failure.description().as_str(), "."),
            );
        },
        Ok(number) => number as u16,
    };
    if bytes.len() < 4 {
        return Err("The ip address has less than four bytes.".to_owned());
    }
    Ok(ListenAddress { ip: (bytes[0], bytes[1], bytes[2], bytes[3]), port: number })
}

/// The error of the random number generator, opaque to the verifier.
#[verifier::external_type_specification]
#[verifier::external_body]
pub struct ExRandError(rand::Error);

/// Draws 64 random bits from the operating system.
///
/// Wraps `try_fill_bytes` of `rand::rngs::OsRng` on eight bytes, which are read as a
/// little-endian number. Nothing is promised of the number that is drawn.
#[verifier::external_body]
pub(crate) fn os_random_u64() -> (random: Result<u64, rand::Error>) {
    let mut bytes = [0u8;8];
    rand::RngCore::try_fill_bytes(&mut rand::rngs::OsRng, &mut bytes)?;
    Ok(u64::from_le_bytes(bytes))
}

/// The message of an error of the random number generator.
///
/// Wraps `to_string` on `rand::Error`, which renders the error through its `Display`.
/// Nothing is promised of the text.
#[verifier::external_body]
pub(crate) fn rand_error_text(error: &rand::Error) -> (message: String) {
    error.to_string()
}

/// Makes a random number the webhook secret, written in decimal.
pub fn adopt_secret(config: &mut ConfigHandler, random: u64)
    ensures
        final(config)@ == old(config)@.with_value(
            "state"@,
            "github_webhook_secret"@,
            ValueView::Text(decimal(random as nat)),
        ),
{
    let mut secret = String::new();
    push_decimal(&mut secret, random);
    assert(secret@ =~= decimal(random as nat));
    config.set_string("state", "github_webhook_secret", secret.as_str());
}

/// `Error getting  the "<key>" value from config: <error>`
pub open spec fn setting_message(key: Seq<char>, error: Seq<char>) -> Seq<char> {
    "Error getting  the \""@ + key + "\" value from config: "@ + error
}

/// A setting: the string under a section and key, empty where nothing stands there; or the
/// message with which the registration gives up, where the value is no string.
pub open spec fn setting_at(config: ConfigView, section: Seq<char>, key: Seq<char>) -> Result<
    Seq<char>,
    Seq<char>,
> {
    match config.string_at(section, key) {
        Ok(value) => Ok(value),
        Err(e) => Err(setting_message(key, e)),
    }
}

/// Reads a setting; where nothing stood under its section and key, the empty string now
/// stands there.
pub fn setting(config: &mut ConfigHandler, section: &str, key: &str) -> (value: Result<
    String,
    String,
>)
    ensures
        crate::config::text_result(value) == setting_at(old(config)@, section@, key@),
        final(config)@ == old(config)@.with_default_string(section@, key@),
        old(config)@.values.contains_key((section@, key@)) ==> *final(config) == *old(config),
{
    match config.get_string(section, key) {
        Ok(value) => Ok(value),
        Err(e) => {
            let mut message = join3("Error getting  the \"", key, "\" value from config: ");
            message.append(e.as_str());
            Err(message)
        },
    }
}

/// What holds of `ensure_secret` where the configuration is without a secret: a random
/// number was made the secret; or none could be had, and the empty string stands as the
/// secret.
pub open spec fn secret_made(
    before: ConfigView,
    after: ConfigView,
    generated: Result<bool, String>,
) -> bool {
    match generated {
        Ok(made) => made && exists|random: u64|
            after == before.with_value(
                "state"@,
                "github_webhook_secret"@,
                ValueView::Text(decimal(random as nat)),
            ),
        Err(e) => after == before.with_default_string("state"@, "github_webhook_secret"@)
            && exists|detail: Seq<char>| e@ == "Failed to obtain OS RNG: "@ + detail,
    }
}

/// Sees to it that the configuration has a webhook secret.
///
/// `Ok(false)` where it has one already. Where nothing stands under the key of the secret,
/// or an empty string, a random number is drawn and made the secret: `Ok(true)`, and the
/// configuration is to be saved; or an error, where no random number can be had. An error
/// too where what stands under the key is no string; the configuration then stays as it is,
/// as it does where it has a secret.
pub fn ensure_secret(config: &mut ConfigHandler) -> (generated: Result<bool, String>)
    ensures
        match setting_at(old(config)@, "state"@, "github_webhook_secret"@) {
            Err(e) => generated is Err && generated->Err_0@ == e && *final(config) == *old(
                config,
            ),
            Ok(secret) => if secret.len() > 0 {
                generated == Ok::<bool, String>(false) && *final(config) == *old(config)
            } else {
                secret_made(old(config)@, final(config)@, generated)
            },
        },
{
    match setting(config, "state", "github_webhook_secret") {
        Err(e) => {
            return Err(e);
        },
        Ok(secret) => {
            if secret.as_str().unicode_len() > 0 {
                return Ok(false);
            }
        },
    }
    match os_random_u64() {
        Err(error) => {
            let detail = rand_error_text(&error);
            let mut message = "Failed to obtain OS RNG: ".to_owned();
            message.append(detail.as_str());
            Err(message)
        },
        Ok(random) => {
            let ghost before = config@;
            adopt_secret(config, random);
            proof {
                let value = ValueView::Text(decimal(random as nat));
                let place = ("state"@, "github_webhook_secret"@);
                assert(before.values.insert(place, value) =~= old(config)@.values.insert(
                    place,
                    value,
                ));
                assert(before.sections.insert("state"@) =~= old(config)@.sections.insert(
                    "state"@,
                ));
            }
            Ok(true)
        },
    }
}

/// The address that the platform is to call: `<public address>:<port>/webhook`.
pub open spec fn hook_url(public_ip_address: Seq<char>, listen_port: Seq<char>) -> Seq<char> {
    public_ip_address + ":"@ + listen_port + "/webhook"@
}

/// The JSON text that registers the webhook: an active hook named `web` for the two kinds of
/// comment, which posts JSON to `url`, signed with `secret`.
pub open spec fn hook_body(secret: Seq<char>, url: Seq<char>) -> Seq<char> {
    "{\"active\":true,\"config\":{\"content_type\":\"json\",\"insecure_ssl\":\"1\",\"secret\":"@
        + json_quoted(secret) + ",\"url\":"@ + json_quoted(url)
        + "},\"events\":[\"issue_comment\",\"pull_request_review_comment\"],\"name\":\"web\"}"@
}

/// `repos/<repo>/hooks`
pub open spec fn hook_endpoint(repo: Seq<char>) -> Seq<char> {
    "repos/"@ + repo + "/hooks"@
}

/// The five settings that the registration reads, in the order in which it reads them.
pub open spec fn registration_settings() -> Seq<(Seq<char>, Seq<char>)> {
    seq![
        ("state"@, "github_webhook_secret"@),
        ("config"@, "github_follow_repo"@),
        ("config"@, "github_owner_token"@),
        ("config"@, "public_ip_address"@),
        ("config"@, "listen_port"@),
    ]
}

/// The configuration after the first `n` settings of a list were read: each stands in it,
/// as the empty string where it was missing.
pub open spec fn config_after_settings(
    config: ConfigView,
    settings: Seq<(Seq<char>, Seq<char>)>,
    n: int,
) -> ConfigView
    decreases n,
{
    if n <= 0 || n > settings.len() {
        config
    } else {
        config_after_settings(config, settings, n - 1).with_default_string(
            settings[n - 1].0,
            settings[n - 1].1,
        )
    }
}

/// The `i`-th setting as the registration reads it: from the configuration in which the
/// settings before it stand.
pub open spec fn registration_setting(config: ConfigView, i: int) -> Result<Seq<char>, Seq<char>> {
    setting_at(
        config_after_settings(config, registration_settings(), i),
        registration_settings()[i].0,
        registration_settings()[i].1,
    )
}

/// How many settings the registration reads: all five, or those up to the first whose
/// value is no string.
pub open spec fn settings_read(config: ConfigView) -> int {
    if registration_setting(config, 0) is Err {
        1
    } else if registration_setting(config, 1) is Err {
        2
    } else if registration_setting(config, 2) is Err {
        3
    } else if registration_setting(config, 3) is Err {
        4
    } else {
        5
    }
}

/// The request that registers the webhook, from the settings of the configuration: it goes
/// to the hooks of the repository, with the owner's token. The message of the first setting
/// whose value is no string.
pub open spec fn registration(config: ConfigView) -> Result<PostView, Seq<char>> {
    let n = settings_read(config);
    if registration_setting(config, n - 1) is Err {
        Err(registration_setting(config, n - 1)->Err_0)
    } else {
        Ok(
            PostView {
                endpoint: hook_endpoint(registration_setting(config, 1)->Ok_0),
                token: registration_setting(config, 2)->Ok_0,
                body: hook_body(
                    registration_setting(config, 0)->Ok_0,
                    hook_url(
                        registration_setting(config, 3)->Ok_0,
                        registration_setting(config, 4)->Ok_0,
                    ),
                ),
            },
        )
    }
}

/// The configuration after the registration: the settings that it read stand in it.
pub open spec fn config_after_registration(config: ConfigView) -> ConfigView {
    config_after_settings(config, registration_settings(), settings_read(config))
}

/// The JSON text that registers the webhook, given the two strings as JSON texts.
pub fn compose_hook_body(quoted_secret: &str, quoted_url: &str) -> (body: String)
    ensures
        body@
            == "{\"active\":true,\"config\":{\"content_type\":\"json\",\"insecure_ssl\":\"1\",\"secret\":"@
            + quoted_secret@ + ",\"url\":"@ + quoted_url@
            + "},\"events\":[\"issue_comment\",\"pull_request_review_comment\"],\"name\":\"web\"}"@,
{
    join5(
        "{\"active\":true,\"config\":{\"content_type\":\"json\",\"insecure_ssl\":\"1\",\"secret\":",
        quoted_secret,
        ",\"url\":",
        quoted_url,
        "},\"events\":[\"issue_comment\",\"pull_request_review_comment\"],\"name\":\"web\"}",
    )
}

/// Builds the request that registers the webhook with the platform; see `registration`.
pub fn register(config: &mut ConfigHandler) -> (request: Result<PostRequest, String>)
    ensures
        post_result(request) == registration(old(config)@),
        final(config)@ == config_after_registration(old(config)@),
{
    let ghost c0 = config@;
    let ghost settings = registration_settings();
    assert(config_after_settings(c0, settings, 0) == c0);
    let secret = match setting(config, "state", "github_webhook_secret") {
        Ok(value) => value,
        Err(e) => return Err(e),
    };
    assert(config@ == config_after_settings(c0, settings, 1));
    let repo = match setting(config, "config", "github_follow_repo") {
        Ok(value) => value,
        Err(e) => return Err(e),
    };
    assert(config@ == config_after_settings(c0, settings, 2));
    let token = match setting(config, "config", "github_owner_token") {
        Ok(value) => value,
        Err(e) => return Err(e),
    };
    assert(config@ == config_after_settings(c0, settings, 3));
    let address = match setting(config, "config", "public_ip_address") {
        Ok(value) => value,
        Err(e) => return Err(e),
    };
    assert(config@ == config_after_settings(c0, settings, 4));
    let port = match setting(config, "config", "listen_port") {
        Ok(value) => value,
        Err(e) => return Err(e),
    };
    assert(config@ == config_after_settings(c0, settings, 5));
    let mut url = join3(address.as_str(), ":", port.as_str());
    url.append("/webhook");
    let quoted_secret = quote(secret.as_str());
    let quoted_url = quote(url.as_str());
    let body = compose_hook_body(quoted_secret.as_str(), quoted_url.as_str());
    let endpoint = join3("repos/", repo.as_str(), "/hooks");
    Ok(PostRequest { endpoint, token, body })
}

/// `https://api.github.com/<endpoint>`
pub fn api_url(endpoint: &str) -> (url: String)
    ensures
        url@ == "https://api.github.com/"@ + endpoint@,
{
    let mut url = "https://api.github.com/".to_owned();
    url.append(endpoint);
    url
}

/// What the status of the platform's answer means for a request that was sent.
pub open spec fn status_outcome(status: u16) -> Result<(), Seq<char>> {
    if status == 401 {
        Err("Bad Credentials"@)
    } else if status == 404 {
        Err("Endpoint not found or insufficient privileges."@)
    } else {
        Ok(())
    }
}

/// Decides `status_outcome`.
pub fn check_status(status: u16) -> (outcome: Result<(), String>)
    ensures
        match outcome {
            Ok(_) => status_outcome(status) is Ok,
            Err(e) => status_outcome(status) == Err::<(), Seq<char>>(e@),
        },
{
    if status == 401 {
        Err("Bad Credentials".to_owned())
    } else if status == 404 {
        Err("Endpoint not found or insufficient privileges.".to_owned())
    } else {
        Ok(())
    }
}

} // verus!
