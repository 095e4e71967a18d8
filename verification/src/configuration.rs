//! The settings of the service and what follows from them.

use crate::domain::subscriber_email::{email_accepted, invalid_email_reason, SubscriberEmail};
use crate::email_client::EmailClient;
use crate::text::{joined, same_text};
use vstd::prelude::*;

verus! {

/// All settings of the service.
#[derive(Debug, Clone)]
pub struct Settings {
    pub redis_url: String,
    pub database: DatabaseSettings,
    pub application: ApplicationSettings,
    pub email_client: EmailClientSettings,
}

/// How to reach the e-mail transport.
#[derive(Debug, Clone)]
pub struct EmailClientSettings {
    pub base_url: String,
    pub sender_email: String,
    pub timeout_milliseconds: u64,
    pub authorization_token: String,
}

impl EmailClientSettings {
    /// The configured sender, validated.
    pub fn sender(&self) -> (sender: Result<SubscriberEmail, String>)
        ensures
            sender is Ok <==> email_accepted(self.sender_email@),
            sender matches Ok(email) ==> email@ == self.sender_email@,
            sender matches Err(reason) ==> reason@ == invalid_email_reason(self.sender_email@),
    {
        SubscriberEmail::parse(self.sender_email.clone())
    }

    /// The time that one call of the transport may take, in milliseconds.
    pub fn timeout(&self) -> (milliseconds: u64)
        ensures
            milliseconds == self.timeout_milliseconds,
    {
        self.timeout_milliseconds
    }

    /// The client that these settings describe. The configured sender must
    /// be a valid address; `try_client` tests that first.
    pub fn client(self) -> (client: EmailClient)
        requires
            email_accepted(self.sender_email@),
        ensures
            client.base_url()@ == self.base_url@,
            client.sender()@ == self.sender_email@,
            client.authorization_token()@ == self.authorization_token@,
            client.timeout_milliseconds() == self.timeout_milliseconds,
    {
        let timeout = self.timeout();
        match self.sender() {
            Ok(sender_email) => EmailClient::new(
                self.base_url,
                sender_email,
                self.authorization_token,
                timeout,
            ),
            Err(_) => unreached(),
        }
    }

    /// The client that these settings describe, or the reason for which the
    /// configured sender is no valid address.
    pub fn try_client(self) -> (built: Result<EmailClient, String>)
        ensures
            built is Ok <==> email_accepted(self.sender_email@),
            built matches Ok(client) ==> {
                &&& client.base_url()@ == self.base_url@
                &&& client.sender()@ == self.sender_email@
                &&& client.authorization_token()@ == self.authorization_token@
                &&& client.timeout_milliseconds() == self.timeout_milliseconds
            },
            built matches Err(reason) ==> reason@ == invalid_email_reason(self.sender_email@),
    {
        match self.sender() {
            Ok(_) => Ok(self.client()),
            Err(reason) => Err(reason),
        }
    }
}

/// How a connection to the database is secured.
#[derive(Debug, Clone, Copy, PartialEq, Eq, Structural)]
pub enum SslMode {
    /// Only an encrypted connection will do.
    Require,
    /// Try an encrypted connection first, then an unencrypted one.
    Prefer,
}

/// The options of one database connection.
#[derive(Debug, Clone, PartialEq, Eq)]
pub struct ConnectOptions {
    pub host: String,
    pub port: u16,
    pub username: String,
    pub password: String,
    pub ssl_mode: SslMode,
    /// The database to connect to; without one the connection is to the
    /// server itself.
    pub database: Option<String>,
    /// Whether statements are logged at trace level instead of the
    /// driver's default.
    pub log_statements_at_trace: bool,
}

/// How to reach the database.
#[derive(Debug, Clone)]
pub struct DatabaseSettings {
    pub port: u16,
    pub host: String,
    pub username: String,
    pub require_ssl: bool,
    pub database_name: String,
    pub password: String,
}

impl DatabaseSettings {
    /// The options for a connection to the configured database, with
    /// statement logging lowered to trace level.
    pub fn connection_with_db(&self) -> (options: ConnectOptions)
        ensures
            options.host@ == self.host@,
            options.port == self.port,
            options.username@ == self.username@,
            options.password@ == self.password@,
            options.ssl_mode == if self.require_ssl {
                SslMode::Require
            } else {
                SslMode::Prefer
            },
            options.database matches Some(name) && name@ == self.database_name@,
            options.log_statements_at_trace,
    {
        let mut options = self.without_db();
        options.database = Some(self.database_name.clone());
        options.log_statements_at_trace = true;
        options
    }

    /// The options for a connection to the database server, with no
    /// database chosen. Encryption is required where the settings say so
    /// and preferred otherwise.
    pub fn without_db(&self) -> (options: ConnectOptions)
        ensures
            options.host@ == self.host@,
            options.port == self.port,
            options.username@ == self.username@,
            options.password@ == self.password@,
            options.ssl_mode == if self.require_ssl {
                SslMode::Require
            } else {
                SslMode::Prefer
            },
            options.database is None,
            !options.log_statements_at_trace,
    {
        let ssl_mode = if self.require_ssl {
            SslMode::Require
        } else {
            SslMode::Prefer
        };
        ConnectOptions {
            host: self.host.clone(),
            port: self.port,
            username: self.username.clone(),
            password: self.password.clone(),
            ssl_mode,
            database: None,
            log_statements_at_trace: false,
        }
    }
}

/// Where the service listens and how it signs.
#[derive(Debug, Clone)]
pub struct ApplicationSettings {
    pub port: u16,
    pub host: String,
    pub base_url: String,
    pub hmac_secret: String,
}

/// The possible runtime environment for our application.
#[derive(Debug, Clone, Copy, PartialEq, Eq, Structural)]
pub enum Environment {
    Local,
    Production,
}

/// What `str::to_lowercase` returns for `text`.
pub uninterp spec fn lowercase_of(text: Seq<char>) -> Seq<char>;

/// Calls `str::to_lowercase`, whose result depends on the text alone.
#[verifier::external_body]
fn to_lowercase(text: &str) -> (lowered: String)
    ensures
        lowered@ == lowercase_of(text@),
{
    text.to_lowercase()
}

/// The message for a name that is no environment.
pub open spec fn unsupported_environment(name: Seq<char>) -> Seq<char> {
    name + " is not a supported environment. Use either `local` or `production`."@
}

/// The environment that the lower-case name `name` stands for.
pub open spec fn environment_named(name: Seq<char>) -> Result<Environment, Seq<char>> {
    if name == "local"@ {
        Ok(Environment::Local)
    } else if name == "production"@ {
        Ok(Environment::Production)
    } else {
        Err(unsupported_environment(name))
    }
}

/// What a parsed environment is, as plain values.
pub open spec fn parsed_environment_view(parsed: Result<Environment, String>) -> Result<
    Environment,
    Seq<char>,
> {
    match parsed {
        Ok(environment) => Ok(environment),
        Err(message) => Err(message@),
    }
}

impl Environment {
    /// The name of the environment, which is also the stem of its
    /// configuration file.
    pub fn as_str(&self) -> (name: &'static str)
        ensures
            name@ == match *self {
                Environment::Local => "local"@,
                Environment::Production => "production"@,
            },
    {
        match self {
            Environment::Local => "local",
            Environment::Production => "production",
        }
    }

    /// The environment that `name` stands for, where `name` is in lower
    /// case already: `local` or `production`. Any other name is turned down
    /// with a message that repeats it.
    pub fn from_lowercase(name: &str) -> (parsed: Result<Environment, String>)
        ensures
            parsed_environment_view(parsed) == environment_named(name@),
    {
        if same_text(name, "local") {
            Ok(Environment::Local)
        } else if same_text(name, "production") {
            Ok(Environment::Production)
        } else {
            Err(joined(name, " is not a supported environment. Use either `local` or `production`."))
        }
    }

    /// The name of the configuration file of the environment.
    pub fn configuration_file(&self) -> (name: String)
        ensures
            name@ == match *self {
                Environment::Local => "local"@,
                Environment::Production => "production"@,
            } + ".yaml"@,
    {
        joined(self.as_str(), ".yaml")
    }

    /// The environment that the value of the environment variable names;
    /// where the variable is not set, the local one.
    pub fn detect(variable: Option<String>) -> (parsed: Result<Environment, String>)
        ensures
            parsed_environment_view(parsed) == match variable {
                None => Ok(Environment::Local),
                Some(name) => environment_named(lowercase_of(name@)),
            },
    {
        match variable {
            None => Ok(Environment::Local),
            Some(name) => Environment::try_from(name),
        }
    }

    /// The environment that `s` stands for, whatever the case of its
    /// letters.
    pub fn try_from(s: String) -> (parsed: Result<Environment, String>)
        ensures
            parsed_environment_view(parsed) == environment_named(lowercase_of(s@)),
    {
        let lowered = to_lowercase(s.as_str());
        Environment::from_lowercase(lowered.as_str())
    }
}

} // verus!
