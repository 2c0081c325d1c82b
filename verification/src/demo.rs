use vstd::prelude::*;
use vstd::string::StringExecFns;
use vstd::utf8::{decode_utf8, encode_utf8, encode_utf8_decode_utf8, is_char_boundary};

verus! {

pub const WEATHER_REPLY: &'static str =
    "I can't check real weather data in this demo, but a real chat app could integrate with weather APIs to provide current conditions and forecasts for any location you specify.";

pub const COOKING_REPLY: &'static str =
    "Here's a simple recipe demo: For pasta, boil water, add salt, cook pasta 8-12 minutes, drain, and add your favorite sauce. A real app could suggest recipes based on ingredients you have!";

pub const SPACE_REPLY: &'static str =
    "Space is fascinating! Did you know the James Webb Space Telescope can see galaxies from when the universe was just 400 million years old? That's like looking 13+ billion years into the past!";

pub const TECHNOLOGY_REPLY: &'static str =
    "This e-paper display is perfect for reading and text-based AI interactions! E-paper uses very little power and is easy on the eyes, making it ideal for extended conversations.";

pub const GREETING_REPLY: &'static str =
    "Hello! Welcome to this e-paper chat demo. This simulates how ChatGPT would work on an ESP32 with an e-paper display. What would you like to explore?";

pub const HELP_REPLY: &'static str =
    "This is a demo of a chat interface optimized for e-paper displays. Try asking about weather, cooking, space, or technology to see different response examples!";

pub const SHORT_REPLY: &'static str =
    "I see you sent a short message. In a real chat app, I'd be able to understand and respond to any length of message, from quick questions to detailed discussions.";

pub const THANKS_OPENING: &'static str = "Thanks for your message about '";

pub const THANKS_CLOSING: &'static str =
    "'! In a real implementation, I'd use advanced AI to provide helpful, detailed responses about any topic you're interested in discussing.";

/// What follows a message that was cut short.
pub const ELLIPSIS: &'static str = "...";

/// Messages longer than this many bytes are cut short when they are quoted.
pub const PREVIEW_LIMIT: usize = 50;

/// How many bytes of a long message are quoted.
pub const PREVIEW_BYTES: usize = 47;

/// What a message to the demo is about.
#[derive(Clone, Copy, Debug, PartialEq, Eq, Structural)]
pub enum Topic {
    Weather,
    Cooking,
    Space,
    Technology,
    Greeting,
    Help,
    /// None of the topics, and fewer than three bytes.
    Short,
    /// Anything else.
    Other,
}

/// Whether `part` occurs in `text` as a run of consecutive characters.
pub open spec fn has_substring(text: Seq<char>, part: Seq<char>) -> bool {
    exists|i: int|
        0 <= i && i + part.len() <= text.len() && #[trigger] text.subrange(i, i + part.len())
            == part
}

/// The lowercase form of a text, as the standard library computes it.
pub uninterp spec fn lowercase(text: Seq<char>) -> Seq<char>;

/// The topic of a message, given in lowercase: the first of the topics one
/// of whose keywords occurs in it.
pub open spec fn spec_topic(lower: Seq<char>) -> Topic {
    if has_substring(lower, "weather"@) {
        Topic::Weather
    } else if has_substring(lower, "cooking"@) || has_substring(lower, "recipe"@) {
        Topic::Cooking
    } else if has_substring(lower, "space"@) || has_substring(lower, "astronomy"@) {
        Topic::Space
    } else if has_substring(lower, "technology"@) || has_substring(lower, "ai"@) {
        Topic::Technology
    } else if has_substring(lower, "hello"@) || has_substring(lower, "hi"@) {
        Topic::Greeting
    } else if has_substring(lower, "help"@) {
        Topic::Help
    } else if encode_utf8(lower).len() < 3 {
        Topic::Short
    } else {
        Topic::Other
    }
}

/// How a message is quoted: as it is, or, if it has more than 50 bytes, its
/// first 47 bytes and an ellipsis.
pub open spec fn preview_of(message: Seq<char>) -> Seq<char> {
    if encode_utf8(message).len() > PREVIEW_LIMIT {
        decode_utf8(encode_utf8(message).subrange(0, PREVIEW_BYTES as int)) + ELLIPSIS@
    } else {
        message
    }
}

/// The reply to a message on a topic.
pub open spec fn reply_to(message: Seq<char>, topic: Topic) -> Seq<char> {
    match topic {
        Topic::Weather => WEATHER_REPLY@,
        Topic::Cooking => COOKING_REPLY@,
        Topic::Space => SPACE_REPLY@,
        Topic::Technology => TECHNOLOGY_REPLY@,
        Topic::Greeting => GREETING_REPLY@,
        Topic::Help => HELP_REPLY@,
        Topic::Short => SHORT_REPLY@,
        Topic::Other => THANKS_OPENING@ + preview_of(message) + THANKS_CLOSING@,
    }
}

/// Whether a message can be quoted: one that has to be cut short must not
/// be cut inside a character.
pub open spec fn can_cut(message: Seq<char>) -> bool {
    encode_utf8(message).len() > PREVIEW_LIMIT ==> is_char_boundary(
        encode_utf8(message),
        PREVIEW_BYTES as int,
    )
}

/// Whether the message can be answered on the topic: only the reply on no
/// topic quotes the message.
pub open spec fn can_quote(message: Seq<char>, topic: Topic) -> bool {
    topic == Topic::Other ==> can_cut(message)
}

/// `str::to_lowercase`: the result is the lowercase form of the argument.
#[verifier::external_body]
fn to_lowercase(text: &str) -> (lower: String)
    ensures
        lower@ == lowercase(text@),
{
    text.to_lowercase()
}

/// `str::contains` with a string as the pattern: whether the pattern occurs
/// in the text as a substring.
#[verifier::external_body]
fn str_contains(text: &str, part: &str) -> (found: bool)
    ensures
        found == has_substring(text@, part@),
{
    text.contains(part)
}

/// Finds the topic of a message that is given in lowercase.
pub fn topic_of(lower: &str) -> (topic: Topic)
    ensures
        topic == spec_topic(lower@),
{
    if str_contains(lower, "weather") {
        Topic::Weather
    } else if str_contains(lower, "cooking") || str_contains(lower, "recipe") {
        Topic::Cooking
    } else if str_contains(lower, "space") || str_contains(lower, "astronomy") {
        Topic::Space
    } else if str_contains(lower, "technology") || str_contains(lower, "ai") {
        Topic::Technology
    } else if str_contains(lower, "hello") || str_contains(lower, "hi") {
        Topic::Greeting
    } else if str_contains(lower, "help") {
        Topic::Help
    } else if lower.as_bytes().len() < 3 {
        Topic::Short
    } else {
        Topic::Other
    }
}

/// Quotes a message: as it is, or cut short after 47 bytes.
fn preview(message: &str) -> (quoted: String)
    requires
        can_cut(message@),
    ensures
        quoted@ == preview_of(message@),
{
    if message.as_bytes().len() > PREVIEW_LIMIT {
        let (head, _) = message.split_at(PREVIEW_BYTES);
        proof {
            encode_utf8_decode_utf8(head@);
        }
        let mut quoted: String = String::from_str(head);
        quoted.append(ELLIPSIS);
        quoted
    } else {
        String::from_str(message)
    }
}

/// Writes the reply to a message whose topic is known.
pub fn reply_for(message: &str, topic: Topic) -> (reply: String)
    requires
        can_quote(message@, topic),
    ensures
        reply@ == reply_to(message@, topic),
{
    match topic {
        Topic::Weather => String::from_str(WEATHER_REPLY),
        Topic::Cooking => String::from_str(COOKING_REPLY),
        Topic::Space => String::from_str(SPACE_REPLY),
        Topic::Technology => String::from_str(TECHNOLOGY_REPLY),
        Topic::Greeting => String::from_str(GREETING_REPLY),
        Topic::Help => String::from_str(HELP_REPLY),
        Topic::Short => String::from_str(SHORT_REPLY),
        Topic::Other => {
            let quoted: String = preview(message);
            let mut reply: String = String::from_str(THANKS_OPENING);
            reply.append(quoted.as_str());
            reply.append(THANKS_CLOSING);
            reply
        },
    }
}

/// Answers a message of the chat demo by its topic, which is looked for in
/// the lowercase form of the message.
///
/// A message on no topic is quoted in the reply, and cut short if it has
/// more than 50 bytes; such a message must have a character boundary after
/// byte 47.
pub fn generate_demo_response(message: &str) -> (reply: String)
    requires
        can_quote(message@, spec_topic(lowercase(message@))),
    ensures
        reply@ == reply_to(message@, spec_topic(lowercase(message@))),
{
    let message_lower: String = to_lowercase(message);
    let topic: Topic = topic_of(message_lower.as_str());
    reply_for(message, topic)
}

/// Answers a message of the chat demo if it can be answered: a message
/// that would have to be cut inside a character gets no reply.
pub fn try_generate_demo_response(message: &str) -> (reply: Option<String>)
    ensures
        reply is Some <==> can_quote(message@, spec_topic(lowercase(message@))),
        reply matches Some(text) ==> text@ == reply_to(
            message@,
            spec_topic(lowercase(message@)),
        ),
{
    let message_lower: String = to_lowercase(message);
    let topic: Topic = topic_of(message_lower.as_str());
    let quotable: bool = match topic {
        Topic::Other => message.as_bytes().len() <= PREVIEW_LIMIT || message.is_char_boundary(
            PREVIEW_BYTES,
        ),
        _ => true,
    };
    if quotable {
        Some(generate_demo_response(message))
    } else {
        None
    }
}

} // verus!
