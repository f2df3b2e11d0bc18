use vstd::prelude::*;

verus! {

/// The shapes of the platform's messages that the library reads.
#[derive(Debug, Clone)]
pub struct User {
    pub id: String,
    pub username: String,
    pub discriminator: String,
    pub bot: Option<bool>,
}

#[derive(Debug, Clone)]
pub struct Member {
    pub user: User,
}

#[derive(Debug)]
pub struct Message {
    pub id: String,
    pub channel_id: String,
    pub author: User,
    pub content: String,
    pub timestamp: String,
    pub embeds: Vec<Embed>,
    pub components: Option<Vec<Component>>,
}

#[derive(Debug, Clone)]
pub struct Embed {
    pub title: Option<String>,
    pub description: Option<String>,
    pub fields: Option<Vec<EmbedField>>,
    pub footer: Option<EmbedFooter>,
}

#[derive(Debug, Clone)]
pub struct EmbedField {
    pub name: String,
    pub value: String,
    pub inline: Option<bool>,
}

#[derive(Debug, Clone)]
pub struct EmbedFooter {
    pub text: String,
    pub icon_url: Option<String>,
}

/// An interactive component; `kind` is the platform's component type
/// (1 an action row, 3 a select menu).
#[derive(Debug)]
pub struct Component {
    pub kind: u8,
    pub components: Option<Vec<Component>>,
    pub custom_id: Option<String>,
    pub label: Option<String>,
    pub style: Option<u8>,
    pub emoji: Option<Emoji>,
    pub options: Option<Vec<SelectOption>>,
    pub placeholder: Option<String>,
}

#[derive(Debug, Clone)]
pub struct SelectOption {
    pub label: String,
    pub value: String,
    pub description: Option<String>,
    pub emoji: Option<Emoji>,
    pub default: Option<bool>,
}

#[derive(Debug, Clone)]
pub struct Emoji {
    pub name: Option<String>,
    pub id: Option<String>,
}

#[derive(Debug, Clone)]
pub struct IdentifyProperties {
    pub os: String,
    pub browser: String,
    pub device: String,
}

/// Body of an Identify message.
#[derive(Debug, Clone)]
pub struct IdentifyPayload {
    pub token: String,
    pub properties: IdentifyProperties,
    pub compress: Option<bool>,
    pub large_threshold: Option<u32>,
}

/// Body of a Hello message.
#[derive(Debug, Clone, Copy, PartialEq, Eq, Structural)]
pub struct HelloPayload {
    pub heartbeat_interval: u64,
}

impl IdentifyPayload {
    /// The Identify body for `token`, naming this client.
    pub fn for_token(token: String) -> (r: IdentifyPayload)
        ensures
            r.token == token,
            r.properties.os@ == "linux"@,
            r.properties.browser@ == "autofishbot_rs"@,
            r.properties.device@ == "autofishbot_rs"@,
            r.compress is None,
            r.large_threshold is None,
    {
        IdentifyPayload {
            token,
            properties: IdentifyProperties {
                os: String::from_str("linux"),
                browser: String::from_str("autofishbot_rs"),
                device: String::from_str("autofishbot_rs"),
            },
            compress: None,
            large_threshold: None,
        }
    }
}

} // verus!
