//! The values that a watcher is started with, and the check that all of them
//! are there.

use vstd::prelude::*;
use vstd::string::StringExecFns;

verus! {

/// What stands before the token in the authorization of a fetch.
pub const BEARER_PREFIX: &'static str = "Bearer ";

/// The value of a decimal digit; `None` for any other character.
pub open spec fn digit_value(c: char) -> Option<nat> {
    if 48 <= c as int <= 57 {
        Some((c as int - 48) as nat)
    } else {
        None
    }
}

/// The number that a run of decimal digits writes; `None` when one of the
/// characters is no digit. The empty run writes zero.
pub open spec fn digits_value(digits: Seq<char>) -> Option<nat>
    decreases digits.len(),
{
    if digits.len() == 0 {
        Some(0)
    } else {
        match (digits_value(digits.drop_last()), digit_value(digits.last())) {
            (Some(high), Some(low)) => Some(10 * high + low),
            _ => None,
        }
    }
}

/// The text without the `+` that may stand at its front.
pub open spec fn unsigned_part(text: Seq<char>) -> Seq<char> {
    if text.len() > 0 && text[0] == '+' {
        text.drop_first()
    } else {
        text
    }
}

/// The channel id that `text` writes: decimal digits, at least one, which a
/// single `+` may precede, and a value that fits 64 bits. Anything else writes
/// none.
pub open spec fn channel_id_of(text: Seq<char>) -> Option<u64> {
    let digits = unsigned_part(text);
    if digits.len() == 0 {
        None
    } else {
        match digits_value(digits) {
            Some(value) => if value <= u64::MAX {
                Some(value as u64)
            } else {
                None
            },
            None => None,
        }
    }
}

/// A run writes a number exactly when all of its characters are digits.
pub proof fn lemma_digits_value_some(digits: Seq<char>)
    ensures
        digits_value(digits) is Some <==> forall|i: int|
            0 <= i < digits.len() ==> digit_value(#[trigger] digits[i]) is Some,
    decreases digits.len(),
{
    if digits.len() > 0 {
        let front = digits.drop_last();
        lemma_digits_value_some(front);
        if digits_value(digits) is Some {
            assert forall|i: int| 0 <= i < digits.len() implies digit_value(
                #[trigger] digits[i],
            ) is Some by {
                if i < front.len() {
                    assert(front[i] == digits[i]);
                }
            }
        } else if digit_value(digits.last()) is Some {
            let i = choose|i: int| 0 <= i < front.len() && !(digit_value(front[i]) is Some);
            assert(front[i] == digits[i]);
        }
    }
}

/// Every prefix of a run that writes a number writes one too, and no larger
/// one.
pub proof fn lemma_digits_value_prefix(digits: Seq<char>, k: int)
    requires
        0 <= k <= digits.len(),
        digits_value(digits) is Some,
    ensures
        digits_value(digits.take(k)) is Some,
        digits_value(digits.take(k))->0 <= digits_value(digits)->0,
    decreases digits.len(),
{
    if k == digits.len() {
        assert(digits.take(k) =~= digits);
    } else {
        assert(digits.drop_last().take(k) =~= digits.take(k));
        lemma_digits_value_prefix(digits.drop_last(), k);
    }
}

/// Reads a channel id from its decimal text.
pub fn parse_channel_id(text: &str) -> (id: Option<u64>)
    ensures
        id == channel_id_of(text@),
{
    let ghost whole = text@;
    let ghost digits = unsigned_part(whole);
    if !text.is_ascii() {
        proof {
            let i = choose|i: int| 0 <= i < whole.len() && !('\0' <= #[trigger] whole[i] <= '\u{7f}');
            lemma_digits_value_some(digits);
            if digits.len() < whole.len() {
                assert(digits[i - 1] == whole[i]);
            }
        }
        return None;
    }
    let bytes = text.as_bytes();
    proof {
        vstd::string::is_ascii_spec_bytes(text);
    }
    let n = bytes.len();
    assert forall|k: int| 0 <= k < n implies (#[trigger] bytes@[k]) as int == whole[k] as int by {
        assert('\0' <= whole[k] <= '\u{7f}');
    }
    let start: usize = if n > 0 && bytes[0] == 43 {
        1
    } else {
        0
    };
    assert(digits =~= whole.subrange(start as int, n as int));
    if start == n {
        return None;
    }
    let mut value: u64 = 0;
    let mut i: usize = start;
    assert(digits.take(0) =~= Seq::<char>::empty());
    while i < n
        invariant
            start <= i <= n,
            n == whole.len(),
            n == bytes@.len(),
            forall|k: int| 0 <= k < n ==> (#[trigger] bytes@[k]) as int == whole[k] as int,
            whole == text@,
            digits == unsigned_part(whole),
            digits == whole.subrange(start as int, n as int),
            digits_value(digits.take(i - start)) == Some(value as nat),
        decreases n - i,
    {
        let b = bytes[i];
        let ghost upto = digits.take(i - start + 1);
        proof {
            assert(upto.drop_last() =~= digits.take(i - start));
            assert(upto.last() == whole[i as int]);
            assert(bytes@[i as int] as int == whole[i as int] as int);
        }
        if b < 48 || b > 57 {
            proof {
                lemma_digits_value_some(digits);
                assert(digits[i - start] == whole[i as int]);
            }
            return None;
        }
        let low: u64 = (b - 48) as u64;
        let next = match value.checked_mul(10) {
            Some(tenfold) => tenfold.checked_add(low),
            None => None,
        };
        match next {
            Some(more) => {
                value = more;
            },
            None => {
                proof {
                    assert(digits_value(upto) == Some((10 * value + low) as nat));
                    if digits_value(digits) is Some {
                        lemma_digits_value_prefix(digits, i - start + 1);
                    }
                }
                return None;
            },
        }
        i += 1;
    }
    assert(digits.take(n - start) =~= digits);
    Some(value)
}

/// Whether a header value may hold `c`: a tab, or any character from the space
/// on except the delete character.
pub open spec fn is_header_char(c: char) -> bool {
    c as int == 9 || (c as int >= 32 && c as int != 127)
}

/// Whether `text` can be the value of a header.
pub open spec fn is_header_text(text: Seq<char>) -> bool {
    forall|i: int| 0 <= i < text.len() ==> is_header_char(#[trigger] text[i])
}

/// `reqwest::header::HeaderValue::from_str`, asked only whether it accepts
/// `text`. It goes through the bytes of the text and refuses at the first that
/// is below 32 and no tab, or that is 127. The bytes of a character beyond
/// ASCII are all above 127, so the same holds character by character.
#[verifier::external_body]
fn accepted_as_header(text: &str) -> (accepted: bool)
    ensures
        accepted == is_header_text(text@),
{
    reqwest::header::HeaderValue::from_str(text).is_ok()
}

/// The value of the authorization header that carries `token`.
pub fn authorization_value(token: &str) -> (value: String)
    ensures
        value@ == BEARER_PREFIX@ + token@,
{
    let mut value = BEARER_PREFIX.to_owned();
    value.append(token);
    value
}

/// A header can carry the authorization exactly when it can carry the token.
pub proof fn lemma_authorization_is_header_text(token: Seq<char>)
    ensures
        is_header_text(BEARER_PREFIX@ + token) <==> is_header_text(token),
{
    reveal_strlit("Bearer ");
    let prefix = BEARER_PREFIX@;
    let whole = prefix + token;
    assert(prefix.len() == 7);
    assert(is_header_text(prefix));
    if is_header_text(whole) {
        assert forall|i: int| 0 <= i < token.len() implies is_header_char(#[trigger] token[i]) by {
            assert(whole[i + 7] == token[i]);
        }
    }
    if is_header_text(token) {
        assert forall|i: int| 0 <= i < whole.len() implies is_header_char(#[trigger] whole[i]) by {
            if i < 7 {
                assert(whole[i] == prefix[i]);
            } else {
                assert(whole[i] == token[i - 7]);
            }
        }
    }
}

/// Why a watcher cannot be started.
#[derive(Debug, Clone, Copy, PartialEq, Eq)]
pub enum ConfigError {
    /// The login token of the bot is missing.
    MissingBotToken,
    /// The bearer token for the stream source is missing.
    MissingStreamToken,
    /// No header can carry the bearer token.
    InvalidStreamToken,
    /// The client identifier for the stream source is missing.
    MissingClientId,
    /// No header can carry the client identifier.
    InvalidClientId,
    /// The destination channel is missing.
    MissingChannel,
    /// The destination channel is there but writes no channel id.
    InvalidChannel,
}

/// What a configuration holds.
pub struct ConfigView {
    pub bot_token: Seq<char>,
    pub stream_token: Seq<char>,
    pub client_id: Seq<char>,
    pub channel_id: u64,
}

/// The values that are loaded once, before the loop starts, and stay as they
/// are for its lifetime. Headers can carry the stream token and the client
/// identifier of every configuration.
#[derive(Debug)]
pub struct Config {
    bot_token: String,
    stream_token: String,
    client_id: String,
    channel_id: u64,
}

impl View for Config {
    type V = ConfigView;

    closed spec fn view(&self) -> ConfigView {
        ConfigView {
            bot_token: self.bot_token@,
            stream_token: self.stream_token@,
            client_id: self.client_id@,
            channel_id: self.channel_id,
        }
    }
}

impl Clone for Config {
    fn clone(&self) -> (copy: Config)
        ensures
            copy@ == self@,
    {
        proof {
            use_type_invariant(self);
        }
        Config {
            bot_token: self.bot_token.clone(),
            stream_token: self.stream_token.clone(),
            client_id: self.client_id.clone(),
            channel_id: self.channel_id,
        }
    }
}

/// The first of the required values that is missing or unusable, if any. A
/// value that was not supplied is `None`.
pub open spec fn config_error(
    bot_token: Option<String>,
    stream_token: Option<String>,
    client_id: Option<String>,
    channel: Option<String>,
) -> Option<ConfigError> {
    if bot_token is None {
        Some(ConfigError::MissingBotToken)
    } else if stream_token is None {
        Some(ConfigError::MissingStreamToken)
    } else if !is_header_text(stream_token->0@) {
        Some(ConfigError::InvalidStreamToken)
    } else if client_id is None {
        Some(ConfigError::MissingClientId)
    } else if !is_header_text(client_id->0@) {
        Some(ConfigError::InvalidClientId)
    } else if channel is None {
        Some(ConfigError::MissingChannel)
    } else if channel_id_of(channel->0@) is None {
        Some(ConfigError::InvalidChannel)
    } else {
        None
    }
}

impl Config {
    #[verifier::type_invariant]
    spec fn carried_by_headers(self) -> bool {
        is_header_text(self.stream_token@) && is_header_text(self.client_id@)
    }

    /// Checks the values that the environment supplied. All four are required;
    /// the first that is missing or unusable is the error.
    pub fn load(
        bot_token: Option<String>,
        stream_token: Option<String>,
        client_id: Option<String>,
        channel: Option<String>,
    ) -> (loaded: Result<Config, ConfigError>)
        ensures
            match loaded {
                Ok(config) => {
                    &&& config_error(bot_token, stream_token, client_id, channel) is None
                    &&& config@.bot_token == bot_token->0@
                    &&& config@.stream_token == stream_token->0@
                    &&& config@.client_id == client_id->0@
                    &&& Some(config@.channel_id) == channel_id_of(channel->0@)
                },
                Err(error) => config_error(bot_token, stream_token, client_id, channel) == Some(
                    error,
                ),
            },
    {
        let bot_token = match bot_token {
            Some(value) => value,
            None => return Err(ConfigError::MissingBotToken),
        };
        let stream_token = match stream_token {
            Some(value) => value,
            None => return Err(ConfigError::MissingStreamToken),
        };
        proof {
            lemma_authorization_is_header_text(stream_token@);
        }
        if !accepted_as_header(authorization_value(stream_token.as_str()).as_str()) {
            return Err(ConfigError::InvalidStreamToken);
        }
        let client_id = match client_id {
            Some(value) => value,
            None => return Err(ConfigError::MissingClientId),
        };
        if !accepted_as_header(client_id.as_str()) {
            return Err(ConfigError::InvalidClientId);
        }
        let channel = match channel {
            Some(value) => value,
            None => return Err(ConfigError::MissingChannel),
        };
        match parse_channel_id(channel.as_str()) {
            Some(channel_id) => Ok(Config { bot_token, stream_token, client_id, channel_id }),
            None => Err(ConfigError::InvalidChannel),
        }
    }

    /// The login token of the bot.
    pub fn bot_token(&self) -> (token: &str)
        ensures
            token@ == self@.bot_token,
    {
        self.bot_token.as_str()
    }

    /// The bearer token for the stream source.
    pub fn stream_token(&self) -> (token: &str)
        ensures
            token@ == self@.stream_token,
            is_header_text(token@),
    {
        proof {
            use_type_invariant(self);
        }
        self.stream_token.as_str()
    }

    /// The client identifier for the stream source.
    pub fn client_id(&self) -> (id: &str)
        ensures
            id@ == self@.client_id,
            is_header_text(id@),
    {
        proof {
            use_type_invariant(self);
        }
        self.client_id.as_str()
    }

    /// The channel that announcements go to.
    pub fn channel_id(&self) -> (id: u64)
        ensures
            id == self@.channel_id,
    {
        self.channel_id
    }

    /// The value of the authorization header of a fetch.
    pub fn authorization(&self) -> (value: String)
        ensures
            value@ == BEARER_PREFIX@ + self@.stream_token,
            is_header_text(value@),
    {
        proof {
            use_type_invariant(self);
            lemma_authorization_is_header_text(self.stream_token@);
        }
        authorization_value(self.stream_token.as_str())
    }
}

} // verus!
