//! The application's configuration: two credentials and two image paths,
//! read from a JSON object.

use vstd::prelude::*;

verus! {

/// What `serde_json` makes of `text` when it is parsed as a JSON value and the
/// member `key` of that value is read as a string: `None` when `text` is not
/// JSON, `Some(None)` when there is no such member or it is not a string.
pub uninterp spec fn json_string_member_of(text: Seq<char>, key: Seq<char>) -> Option<
    Option<Seq<char>>,
>;

/// `serde_json::Error`, carried opaque from the parser until it becomes a
/// `ConfigError`.
#[verifier::external_type_specification]
#[verifier::external_body]
pub struct ExJsonError(serde_json::Error);

/// Relies on `serde_json::from_str` into a `serde_json::Value`, then on
/// `Value::get` and `Value::as_str`: the text is parsed as JSON and the string
/// member `key` is read; parsing depends on the two arguments alone.
#[verifier::external_body]
fn json_string_member(text: &str, key: &str) -> (r: Result<Option<String>, serde_json::Error>)
    ensures
        match r {
            Ok(member) => json_string_member_of(text@, key@) == Some(
                match member {
                    Some(s) => Some(s@),
                    None => None,
                },
            ),
            Err(_) => json_string_member_of(text@, key@) is None,
        },
{
    match serde_json::from_str::<serde_json::Value>(text) {
        Ok(value) => Ok(value.get(key).and_then(serde_json::Value::as_str).map(String::from)),
        Err(e) => Err(e),
    }
}

/// The members of the configuration object.
pub const USERNAME_KEY: &'static str = "username";

pub const PASSWORD_KEY: &'static str = "password";

pub const IMAGE_PATH_KEY: &'static str = "image_path";

pub const IMAGE_LOGIN_SUCCESS_KEY: &'static str = "image_login_success";

/// A field that the configuration must hold.
#[derive(Clone, Copy, Debug, PartialEq, Eq, Structural)]
pub enum ConfigField {
    Username,
    Password,
    ImagePath,
    ImageLoginSuccess,
}

/// Why a configuration text was refused.
#[derive(Clone, Copy, Debug, PartialEq, Eq, Structural)]
pub enum ConfigError {
    /// The text is not JSON.
    Malformed,
    /// A required field is absent, or is not a string.
    MissingField(ConfigField),
}

/// The configuration as values.
pub struct ConfigView {
    pub username: Seq<char>,
    pub password: Seq<char>,
    pub image_path: Seq<char>,
    pub image_login_success: Seq<char>,
}

/// Credentials and image paths, fixed once loaded.
#[derive(Clone, Debug)]
pub struct AppConfig {
    username: String,
    password: String,
    image_path: String,
    image_login_success: String,
}

impl View for AppConfig {
    type V = ConfigView;

    closed spec fn view(&self) -> ConfigView {
        ConfigView {
            username: self.username@,
            password: self.password@,
            image_path: self.image_path@,
            image_login_success: self.image_login_success@,
        }
    }
}

/// What a JSON text says of one member.
#[derive(Clone, Debug, PartialEq, Eq)]
pub enum JsonMember {
    /// The text is not JSON.
    NotJson,
    /// The member is absent, or is not a string.
    Absent,
    /// The member is this string.
    Text(String),
}

pub open spec fn member_view(m: JsonMember) -> Option<Option<Seq<char>>> {
    match m {
        JsonMember::NotJson => None,
        JsonMember::Absent => Some(None),
        JsonMember::Text(s) => Some(Some(s@)),
    }
}

/// The configuration that four members of a JSON text give: any text that
/// is not JSON is refused first, then the first member that is absent, in
/// the order username, password, image path, success image.
pub open spec fn config_from_members(
    username: Option<Option<Seq<char>>>,
    password: Option<Option<Seq<char>>>,
    image_path: Option<Option<Seq<char>>>,
    image_login_success: Option<Option<Seq<char>>>,
) -> Result<ConfigView, ConfigError> {
    match (username, password, image_path, image_login_success) {
        (Some(u), Some(p), Some(i), Some(s)) => match (u, p, i, s) {
            (None, _, _, _) => Err(ConfigError::MissingField(ConfigField::Username)),
            (Some(_), None, _, _) => Err(ConfigError::MissingField(ConfigField::Password)),
            (Some(_), Some(_), None, _) => Err(ConfigError::MissingField(ConfigField::ImagePath)),
            (Some(_), Some(_), Some(_), None) => Err(
                ConfigError::MissingField(ConfigField::ImageLoginSuccess),
            ),
            (Some(username), Some(password), Some(image_path), Some(image_login_success)) => Ok(
                ConfigView { username, password, image_path, image_login_success },
            ),
        },
        _ => Err(ConfigError::Malformed),
    }
}

/// The configuration that a JSON text describes: an object whose string
/// members `username`, `password`, `image_path` and `image_login_success`
/// are all required.
pub open spec fn config_from_json(text: Seq<char>) -> Result<ConfigView, ConfigError> {
    config_from_members(
        json_string_member_of(text, USERNAME_KEY@),
        json_string_member_of(text, PASSWORD_KEY@),
        json_string_member_of(text, IMAGE_PATH_KEY@),
        json_string_member_of(text, IMAGE_LOGIN_SUCCESS_KEY@),
    )
}

fn read_member(text: &str, key: &str) -> (r: JsonMember)
    ensures
        member_view(r) == json_string_member_of(text@, key@),
{
    match json_string_member(text, key) {
        Err(_) => JsonMember::NotJson,
        Ok(None) => JsonMember::Absent,
        Ok(Some(s)) => JsonMember::Text(s),
    }
}

impl AppConfig {
    pub fn new(
        username: String,
        password: String,
        image_path: String,
        image_login_success: String,
    ) -> (r: AppConfig)
        ensures
            r@ == (ConfigView {
                username: username@,
                password: password@,
                image_path: image_path@,
                image_login_success: image_login_success@,
            }),
    {
        AppConfig { username, password, image_path, image_login_success }
    }

    /// Builds the configuration from what a JSON text says of its four
    /// members.
    pub fn from_members(
        username: JsonMember,
        password: JsonMember,
        image_path: JsonMember,
        image_login_success: JsonMember,
    ) -> (r: Result<AppConfig, ConfigError>)
        ensures
            match r {
                Ok(c) => config_from_members(
                    member_view(username),
                    member_view(password),
                    member_view(image_path),
                    member_view(image_login_success),
                ) == Ok::<ConfigView, ConfigError>(c@),
                Err(e) => config_from_members(
                    member_view(username),
                    member_view(password),
                    member_view(image_path),
                    member_view(image_login_success),
                ) == Err::<ConfigView, ConfigError>(e),
            },
    {
        match (username, password, image_path, image_login_success) {
            (JsonMember::NotJson, _, _, _)
            | (_, JsonMember::NotJson, _, _)
            | (_, _, JsonMember::NotJson, _)
            | (_, _, _, JsonMember::NotJson) => Err(ConfigError::Malformed),
            (JsonMember::Absent, _, _, _) => Err(ConfigError::MissingField(ConfigField::Username)),
            (_, JsonMember::Absent, _, _) => Err(ConfigError::MissingField(ConfigField::Password)),
            (_, _, JsonMember::Absent, _) => Err(ConfigError::MissingField(ConfigField::ImagePath)),
            (_, _, _, JsonMember::Absent) => Err(
                ConfigError::MissingField(ConfigField::ImageLoginSuccess),
            ),
            (
                JsonMember::Text(username),
                JsonMember::Text(password),
                JsonMember::Text(image_path),
                JsonMember::Text(image_login_success),
            ) => Ok(AppConfig { username, password, image_path, image_login_success }),
        }
    }

    /// Reads the configuration from the text of a JSON object.
    pub fn from_json(text: &str) -> (r: Result<AppConfig, ConfigError>)
        ensures
            match r {
                Ok(c) => config_from_json(text@) == Ok::<ConfigView, ConfigError>(c@),
                Err(e) => config_from_json(text@) == Err::<ConfigView, ConfigError>(e),
            },
    {
        let username = read_member(text, USERNAME_KEY);
        let password = read_member(text, PASSWORD_KEY);
        let image_path = read_member(text, IMAGE_PATH_KEY);
        let image_login_success = read_member(text, IMAGE_LOGIN_SUCCESS_KEY);
        AppConfig::from_members(username, password, image_path, image_login_success)
    }

    pub fn username(&self) -> (r: &String)
        ensures
            r@ == self@.username,
    {
        &self.username
    }

    pub fn password(&self) -> (r: &String)
        ensures
            r@ == self@.password,
    {
        &self.password
    }

    pub fn image_path(&self) -> (r: &String)
        ensures
            r@ == self@.image_path,
    {
        &self.image_path
    }

    pub fn image_login_success(&self) -> (r: &String)
        ensures
            r@ == self@.image_login_success,
    {
        &self.image_login_success
    }
}

} // verus!
