//! The settings of a deployment, and how they are put together from the
//! values of the environment.

use crate::error::{BotError, ErrorKind};
use crate::utils::text::{parse_i64, parse_u16, value_i64, value_u16};
use vstd::prelude::*;
use vstd::string::*;

verus! {

/// The settings of a deployment.
#[derive(Debug)]
pub struct Config {
    pub database_url: String,
    pub db_host: String,
    pub db_port: u16,
    pub db_name: String,
    pub db_user: String,
    pub db_password: String,
    pub telegram_bot_token: String,
    pub telegram_announcements_channel_id: i64,
    pub telegram_logs_channel_id: i64,
    pub azure_face_api_key: String,
    pub azure_face_endpoint: String,
    pub rust_env: String,
}

impl Clone for Config {
    fn clone(&self) -> (r: Self)
        ensures
            r == *self,
    {
        Config {
            database_url: self.database_url.clone(),
            db_host: self.db_host.clone(),
            db_port: self.db_port,
            db_name: self.db_name.clone(),
            db_user: self.db_user.clone(),
            db_password: self.db_password.clone(),
            telegram_bot_token: self.telegram_bot_token.clone(),
            telegram_announcements_channel_id: self.telegram_announcements_channel_id,
            telegram_logs_channel_id: self.telegram_logs_channel_id,
            azure_face_api_key: self.azure_face_api_key.clone(),
            azure_face_endpoint: self.azure_face_endpoint.clone(),
            rust_env: self.rust_env.clone(),
        }
    }
}

/// The settings of a deployment with their texts as sequences of characters.
pub struct ConfigView {
    pub database_url: Seq<char>,
    pub db_host: Seq<char>,
    pub db_port: u16,
    pub db_name: Seq<char>,
    pub db_user: Seq<char>,
    pub db_password: Seq<char>,
    pub telegram_bot_token: Seq<char>,
    pub telegram_announcements_channel_id: i64,
    pub telegram_logs_channel_id: i64,
    pub azure_face_api_key: Seq<char>,
    pub azure_face_endpoint: Seq<char>,
    pub rust_env: Seq<char>,
}

impl View for Config {
    type V = ConfigView;

    open spec fn view(&self) -> ConfigView {
        ConfigView {
            database_url: self.database_url@,
            db_host: self.db_host@,
            db_port: self.db_port,
            db_name: self.db_name@,
            db_user: self.db_user@,
            db_password: self.db_password@,
            telegram_bot_token: self.telegram_bot_token@,
            telegram_announcements_channel_id: self.telegram_announcements_channel_id,
            telegram_logs_channel_id: self.telegram_logs_channel_id,
            azure_face_api_key: self.azure_face_api_key@,
            azure_face_endpoint: self.azure_face_endpoint@,
            rust_env: self.rust_env@,
        }
    }
}

/// The values of the environment variables that the settings are read
/// from, each under the name of its variable in small letters; `None` for a
/// variable that is not set.
#[derive(Debug)]
pub struct Environment {
    pub database_url: Option<String>,
    pub db_host: Option<String>,
    pub db_port: Option<String>,
    pub db_name: Option<String>,
    pub db_user: Option<String>,
    pub db_password: Option<String>,
    pub telegram_bot_token: Option<String>,
    pub telegram_announcements_channel_id: Option<String>,
    pub telegram_logs_channel_id: Option<String>,
    pub azure_face_api_key: Option<String>,
    pub azure_face_endpoint: Option<String>,
    pub rust_env: Option<String>,
}

/// The characters of `value`, or `default` where there is no value.
pub open spec fn or_default(value: Option<String>, default: Seq<char>) -> Seq<char> {
    match value {
        Some(s) => s@,
        None => default,
    }
}

/// The address of the database that is put together from its parts.
pub open spec fn composed_url(
    user: Seq<char>,
    password: Seq<char>,
    host: Seq<char>,
    port: Seq<char>,
    name: Seq<char>,
) -> Seq<char> {
    "postgres://"@ + user + ":"@ + password + "@"@ + host + ":"@ + port + "/"@ + name
}

/// What is wrong with the environment, if anything is: the first of these.
///
/// Without an address of the database, one of its five parts is not set
/// (user, password, host, port, name, in this order). The port is set and
/// is no 16-bit number. The token of the bot is not set. The channel of the
/// announcements is not set, or is no signed 64-bit number; then the same
/// for the channel of the logs. The key of the face service is not set;
/// then its endpoint.
pub open spec fn complaint(env: Environment) -> Option<Seq<char>> {
    if env.database_url is None && env.db_user is None {
        Some("DB_USER not set"@)
    } else if env.database_url is None && env.db_password is None {
        Some("DB_PASSWORD not set"@)
    } else if env.database_url is None && env.db_host is None {
        Some("DB_HOST not set"@)
    } else if env.database_url is None && env.db_port is None {
        Some("DB_PORT not set"@)
    } else if env.database_url is None && env.db_name is None {
        Some("DB_NAME not set"@)
    } else if env.db_port is Some && value_u16(env.db_port->0@) is None {
        Some("DB_PORT must be a valid u16"@)
    } else if env.telegram_bot_token is None {
        Some("TELEGRAM_BOT_TOKEN environment variable not set"@)
    } else if env.telegram_announcements_channel_id is None {
        Some("TELEGRAM_ANNOUNCEMENTS_CHANNEL_ID not set"@)
    } else if value_i64(env.telegram_announcements_channel_id->0@) is None {
        Some("TELEGRAM_ANNOUNCEMENTS_CHANNEL_ID must be a valid i64"@)
    } else if env.telegram_logs_channel_id is None {
        Some("TELEGRAM_LOGS_CHANNEL_ID not set"@)
    } else if value_i64(env.telegram_logs_channel_id->0@) is None {
        Some("TELEGRAM_LOGS_CHANNEL_ID must be a valid i64"@)
    } else if env.azure_face_api_key is None {
        Some("AZURE_FACE_API_KEY not set"@)
    } else if env.azure_face_endpoint is None {
        Some("AZURE_FACE_ENDPOINT not set"@)
    } else {
        None
    }
}

/// The settings that an environment without a complaint gives.
///
/// The address of the database is the one given, or else the one composed
/// of its parts. The host is `localhost`, the port 5432, the name
/// `telegram_bot`, the user `botuser`, the password `botpass` and the
/// environment name `development` where the variable is not set.
pub open spec fn settings(env: Environment) -> ConfigView {
    ConfigView {
        database_url: match env.database_url {
            Some(url) => url@,
            None => composed_url(
                or_default(env.db_user, Seq::empty()),
                or_default(env.db_password, Seq::empty()),
                or_default(env.db_host, Seq::empty()),
                or_default(env.db_port, Seq::empty()),
                or_default(env.db_name, Seq::empty()),
            ),
        },
        db_host: or_default(env.db_host, "localhost"@),
        db_port: match env.db_port {
            Some(port) => value_u16(port@)->0,
            None => 5432,
        },
        db_name: or_default(env.db_name, "telegram_bot"@),
        db_user: or_default(env.db_user, "botuser"@),
        db_password: or_default(env.db_password, "botpass"@),
        telegram_bot_token: or_default(env.telegram_bot_token, Seq::empty()),
        telegram_announcements_channel_id: value_i64(
            or_default(env.telegram_announcements_channel_id, Seq::empty()),
        )->0,
        telegram_logs_channel_id: value_i64(
            or_default(env.telegram_logs_channel_id, Seq::empty()),
        )->0,
        azure_face_api_key: or_default(env.azure_face_api_key, Seq::empty()),
        azure_face_endpoint: or_default(env.azure_face_endpoint, Seq::empty()),
        rust_env: or_default(env.rust_env, "development"@),
    }
}

fn value_or(value: &Option<String>, default: &str) -> (r: String)
    ensures
        r@ == or_default(*value, default@),
{
    match value {
        Some(s) => s.clone(),
        None => String::from_str(default),
    }
}

fn required(value: &Option<String>, complaint: &str) -> (r: Result<String, BotError>)
    ensures
        match r {
            Ok(s) => *value == Some(s),
            Err(e) => *value is None && e.is(ErrorKind::Config, complaint@),
        },
{
    match value {
        Some(s) => Ok(s.clone()),
        None => Err(BotError::ConfigError(String::from_str(complaint))),
    }
}

fn required_i64(value: &Option<String>, missing: &str, malformed: &str) -> (r: Result<
    i64,
    BotError,
>)
    ensures
        match r {
            Ok(n) => *value is Some && value_i64(value->0@) == Some(n),
            Err(e) => if *value is None {
                e.is(ErrorKind::Config, missing@)
            } else {
                value_i64(value->0@) is None && e.is(ErrorKind::Config, malformed@)
            },
        },
{
    match value {
        Some(s) => match parse_i64(s.as_str()) {
            Some(n) => Ok(n),
            None => Err(BotError::ConfigError(String::from_str(malformed))),
        },
        None => Err(BotError::ConfigError(String::from_str(missing))),
    }
}

fn compose_url(user: &str, password: &str, host: &str, port: &str, name: &str) -> (r: String)
    ensures
        r@ == composed_url(user@, password@, host@, port@, name@),
{
    let mut url = String::from_str("postgres://");
    url.append(user);
    url.append(":");
    url.append(password);
    url.append("@");
    url.append(host);
    url.append(":");
    url.append(port);
    url.append("/");
    url.append(name);
    url
}

impl Config {
    /// Whether the deployment runs in production, that is, whether its
    /// environment name is exactly `production`.
    pub fn is_production(&self) -> (r: bool)
        ensures
            r == (self.rust_env@ == "production"@),
    {
        let production = String::from_str("production");
        self.rust_env == production
    }

    /// Puts the settings together from the values of the environment.
    ///
    /// Fails with a configuration error that holds the `complaint` where
    /// there is one, and gives the `settings` where there is none.
    pub fn from_values(env: &Environment) -> (r: Result<Config, BotError>)
        ensures
            match r {
                Ok(config) => complaint(*env) is None && config@ == settings(*env),
                Err(e) => complaint(*env) matches Some(why) && e.is(ErrorKind::Config, why),
            },
    {
        let database_url = match &env.database_url {
            Some(url) => url.clone(),
            None => {
                let user = required(&env.db_user, "DB_USER not set")?;
                let password = required(&env.db_password, "DB_PASSWORD not set")?;
                let host = required(&env.db_host, "DB_HOST not set")?;
                let port = required(&env.db_port, "DB_PORT not set")?;
                let name = required(&env.db_name, "DB_NAME not set")?;
                compose_url(
                    user.as_str(),
                    password.as_str(),
                    host.as_str(),
                    port.as_str(),
                    name.as_str(),
                )
            },
        };
        let db_port = match &env.db_port {
            Some(port) => match parse_u16(port.as_str()) {
                Some(n) => n,
                None => {
                    return Err(
                        BotError::ConfigError(String::from_str("DB_PORT must be a valid u16")),
                    );
                },
            },
            None => 5432,
        };
        let telegram_bot_token = required(
            &env.telegram_bot_token,
            "TELEGRAM_BOT_TOKEN environment variable not set",
        )?;
        let telegram_announcements_channel_id = required_i64(
            &env.telegram_announcements_channel_id,
            "TELEGRAM_ANNOUNCEMENTS_CHANNEL_ID not set",
            "TELEGRAM_ANNOUNCEMENTS_CHANNEL_ID must be a valid i64",
        )?;
        let telegram_logs_channel_id = required_i64(
            &env.telegram_logs_channel_id,
            "TELEGRAM_LOGS_CHANNEL_ID not set",
            "TELEGRAM_LOGS_CHANNEL_ID must be a valid i64",
        )?;
        let azure_face_api_key = required(&env.azure_face_api_key, "AZURE_FACE_API_KEY not set")?;
        let azure_face_endpoint = required(
            &env.azure_face_endpoint,
            "AZURE_FACE_ENDPOINT not set",
        )?;
        Ok(
            Config {
                database_url,
                db_host: value_or(&env.db_host, "localhost"),
                db_port,
                db_name: value_or(&env.db_name, "telegram_bot"),
                db_user: value_or(&env.db_user, "botuser"),
                db_password: value_or(&env.db_password, "botpass"),
                telegram_bot_token,
                telegram_announcements_channel_id,
                telegram_logs_channel_id,
                azure_face_api_key,
                azure_face_endpoint,
                rust_env: value_or(&env.rust_env, "development"),
            },
        )
    }
}

} // verus!
