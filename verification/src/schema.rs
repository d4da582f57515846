//! The values that cross the boundary to clients: request bodies, response
//! bodies and what they are made of.

use vstd::prelude::*;
use crate::text::same_text;

verus! {

/// A song as a client shows it.
#[derive(Debug, Clone, PartialEq, Eq)]
pub struct Song {
    /// The song title.
    pub title: String,
    /// The artist name.
    pub artist: String,
    /// The album name.
    pub album: String,
    /// The song duration in seconds.
    pub duration: u16,
    /// The album cover URL.
    pub cover: String,
    /// The song URL.
    pub url: String,
}

/// One entry of a selection list.
#[derive(Debug, Clone, PartialEq, Eq)]
pub struct SelectItem {
    pub label: String,
    pub value: String,
}

impl SelectItem {
    pub fn new(label: &str, value: &str) -> (item: SelectItem)
        ensures
            item.label@ == label@,
            item.value@ == value@,
    {
        SelectItem { label: label.to_owned(), value: value.to_owned() }
    }
}

/// The answer that hands a client its access token.
#[derive(Debug, Clone, PartialEq, Eq)]
pub struct AuthResponse {
    pub access_token: String,
    pub token_type: String,
}

impl AuthResponse {
    /// The answer for an access token, which is a bearer token.
    pub fn new(access_token: String) -> (response: AuthResponse)
        ensures
            response.access_token == access_token,
            response.token_type@ == "Bearer"@,
    {
        AuthResponse { access_token, token_type: "Bearer".to_owned() }
    }
}

/// The credentials of a client.
#[derive(Debug, Clone, PartialEq, Eq)]
pub struct AuthPayload {
    pub client_id: String,
    pub client_secret: String,
}

/// What a client sends to sign up.
#[derive(Debug, Clone, PartialEq, Eq)]
pub struct SignupUserSchema {
    pub name: String,
    pub email: String,
    pub password: String,
    pub password_confirm: String,
    pub username: String,
    pub preferred_platform: Option<String>,
    pub photo: Option<String>,
}

/// What a client sends to log in.
#[derive(Debug, Clone, PartialEq, Eq)]
pub struct LoginUserSchema {
    pub email: String,
    pub password: String,
}

/// An identity as a client may see it: without the password.
#[allow(non_snake_case)]
#[derive(Debug, Clone, PartialEq, Eq)]
pub struct FilteredUser {
    pub user_id: u128,
    pub name: String,
    pub username: String,
    pub email: String,
    pub preferred_platform: Platform,
    pub photo: String,
    pub createdAt: i64,
    pub updatedAt: i64,
}

#[derive(Debug, Clone, PartialEq, Eq)]
pub struct UserData {
    pub user: FilteredUser,
}

/// The body that answers a request about one identity.
#[derive(Debug, Clone, PartialEq, Eq)]
pub struct UserResponse {
    pub status: String,
    pub data: UserData,
    pub message: String,
}

/// The body that answers a login or a refresh.
#[derive(Debug, Clone, PartialEq, Eq)]
pub struct UserLoginResponse {
    pub status: String,
    pub access_token: String,
    pub refresh_token: String,
}

/// The streaming platforms that a user may prefer.
#[derive(Debug, Clone, Copy, PartialEq, Eq, Structural)]
pub enum Platform {
    AppleMusic,
    Spotify,
    Soundcloud,
    YoutubeMusic,
    AmazonMusic,
    Tidal,
}

/// What `str::to_uppercase` makes of a text.
pub uninterp spec fn upper_text(text: Seq<char>) -> Seq<char>;

/// A text of ASCII characters only.
pub open spec fn all_ascii(text: Seq<char>) -> bool {
    forall|i: int| 0 <= i < text.len() ==> (#[trigger] text[i]) as u32 <= 127
}

/// A letter of `a` to `z` as its capital letter; any other character as it is.
pub open spec fn ascii_upper(c: char) -> char {
    if 'a' <= c && c <= 'z' {
        ((c as u8) - 32) as char
    } else {
        c
    }
}

/// A text with each letter of `a` to `z` as its capital letter.
pub open spec fn raised(text: Seq<char>) -> Seq<char> {
    text.map_values(|c: char| ascii_upper(c))
}

/// Calls `str::to_uppercase` and names its result. Of a text of ASCII
/// characters it is the text with each letter of `a` to `z` as its capital
/// letter. Not proved.
#[verifier::external_body]
fn to_upper(text: &str) -> (upper: String)
    ensures
        upper@ == upper_text(text@),
        all_ascii(text@) ==> upper@ == raised(text@),
{
    text.to_uppercase()
}

/// A text with an underscore in place of each space.
pub open spec fn underscored(text: Seq<char>) -> Seq<char> {
    text.map_values(
        |c: char|
            if c == ' ' {
                '_'
            } else {
                c
            },
    )
}

/// The platform that a normalised name stands for; an unknown name stands
/// for Spotify.
pub open spec fn platform_named(name: Seq<char>) -> Platform {
    if name == "APPLE_MUSIC"@ {
        Platform::AppleMusic
    } else if name == "SPOTIFY"@ {
        Platform::Spotify
    } else if name == "SOUNDCLOUD"@ {
        Platform::Soundcloud
    } else if name == "YOUTUBE_MUSIC"@ {
        Platform::YoutubeMusic
    } else if name == "AMAZON_MUSIC"@ {
        Platform::AmazonMusic
    } else if name == "TIDAL"@ {
        Platform::Tidal
    } else {
        Platform::Spotify
    }
}

/// Calls `str::replace` with a space and an underscore: the text with an
/// underscore in place of each space. Not proved.
#[verifier::external_body]
fn with_underscores(text: &str) -> (joined: String)
    ensures
        joined@ == underscored(text@),
{
    text.replace(" ", "_")
}

/// The platform that a normalised name stands for: a name in upper case
/// with underscores between its words; an unknown name stands for Spotify.
pub fn platform_of_name(name: &str) -> (platform: Platform)
    ensures
        platform == platform_named(name@),
{
    if same_text(name, "APPLE_MUSIC") {
        Platform::AppleMusic
    } else if same_text(name, "SPOTIFY") {
        Platform::Spotify
    } else if same_text(name, "SOUNDCLOUD") {
        Platform::Soundcloud
    } else if same_text(name, "YOUTUBE_MUSIC") {
        Platform::YoutubeMusic
    } else if same_text(name, "AMAZON_MUSIC") {
        Platform::AmazonMusic
    } else if same_text(name, "TIDAL") {
        Platform::Tidal
    } else {
        Platform::Spotify
    }
}

impl Platform {
    /// The platform that a text names, in any case and with spaces or
    /// underscores between its words; an unknown text names Spotify.
    pub fn from(s: String) -> (platform: Platform)
        ensures
            platform == platform_named(underscored(upper_text(s@))),
            all_ascii(s@) ==> platform == platform_named(underscored(raised(s@))),
    {
        let upper = to_upper(s.as_str());
        let name = with_underscores(upper.as_str());
        platform_of_name(name.as_str())
    }

    /// The name of the platform as it is shown.
    pub fn label(&self) -> (text: String)
        ensures
            text@ == platform_label(*self),
    {
        match self {
            Platform::AppleMusic => "Apple Music".to_owned(),
            Platform::Spotify => "Spotify".to_owned(),
            Platform::Soundcloud => "SoundCloud".to_owned(),
            Platform::YoutubeMusic => "Youtube Music".to_owned(),
            Platform::AmazonMusic => "Amazon Music".to_owned(),
            Platform::Tidal => "Tidal".to_owned(),
        }
    }
}

/// The value that a selection list holds for a platform: its name in upper
/// case with an underscore between its words.
pub open spec fn platform_value(platform: Platform) -> Seq<char> {
    match platform {
        Platform::AppleMusic => "APPLE_MUSIC"@,
        Platform::Spotify => "SPOTIFY"@,
        Platform::Soundcloud => "SOUNDCLOUD"@,
        Platform::YoutubeMusic => "YOUTUBE_MUSIC"@,
        Platform::AmazonMusic => "AMAZON_MUSIC"@,
        Platform::Tidal => "TIDAL"@,
    }
}

/// The label that a selection list shows for a platform: the words of its
/// name, each with a capital first letter.
pub open spec fn platform_title(platform: Platform) -> Seq<char> {
    match platform {
        Platform::AppleMusic => "Apple Music"@,
        Platform::Spotify => "Spotify"@,
        Platform::Soundcloud => "Soundcloud"@,
        Platform::YoutubeMusic => "Youtube Music"@,
        Platform::AmazonMusic => "Amazon Music"@,
        Platform::Tidal => "Tidal"@,
    }
}

/// The platforms in the order in which they are offered.
pub open spec fn platforms() -> Seq<Platform> {
    seq![
        Platform::AppleMusic,
        Platform::Spotify,
        Platform::Soundcloud,
        Platform::YoutubeMusic,
        Platform::AmazonMusic,
        Platform::Tidal,
    ]
}

/// The selection list of the platforms: one entry for each, in order, with
/// its title as label and its upper-case name as value.
pub fn get_platform_select_items() -> (items: Vec<SelectItem>)
    ensures
        items@.len() == platforms().len(),
        forall|i: int|
            0 <= i < items@.len() ==> (#[trigger] items@[i]).label@ == platform_title(
                platforms()[i],
            ) && items@[i].value@ == platform_value(platforms()[i]),
{
    let mut items: Vec<SelectItem> = Vec::new();
    items.push(SelectItem::new("Apple Music", "APPLE_MUSIC"));
    items.push(SelectItem::new("Spotify", "SPOTIFY"));
    items.push(SelectItem::new("Soundcloud", "SOUNDCLOUD"));
    items.push(SelectItem::new("Youtube Music", "YOUTUBE_MUSIC"));
    items.push(SelectItem::new("Amazon Music", "AMAZON_MUSIC"));
    items.push(SelectItem::new("Tidal", "TIDAL"));
    items
}

/// The name of a platform as it is shown.
pub open spec fn platform_label(platform: Platform) -> Seq<char> {
    match platform {
        Platform::AppleMusic => "Apple Music"@,
        Platform::Spotify => "Spotify"@,
        Platform::Soundcloud => "SoundCloud"@,
        Platform::YoutubeMusic => "Youtube Music"@,
        Platform::AmazonMusic => "Amazon Music"@,
        Platform::Tidal => "Tidal"@,
    }
}

} // verus!
