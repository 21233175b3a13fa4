//! Process configuration and the constants of the plan rules.

use vstd::prelude::*;

verus! {

/// Forms that a user on the free plan may own.
pub const FREE_PLAN_MAX_FORMS: i64 = 3;

/// The settings that the service is started with. They are handed to the
/// credential service and to the gateway client explicitly; nothing in this
/// library reads the environment.
#[derive(Debug)]
pub struct Config {
    pub database_url: String,
    /// The one symmetric secret that bearer credentials are signed with.
    pub jwt_secret: String,
    pub paystack_secret_key: String,
    pub paystack_public_key: String,
}

/// A setting that the service cannot start without.
#[derive(Clone, Copy, Debug, PartialEq, Eq, Structural)]
pub enum Setting {
    DatabaseUrl,
    JwtSecret,
    PaystackSecretKey,
    PaystackPublicKey,
}

impl Setting {
    /// The environment variable that carries the setting.
    pub open spec fn variable(self) -> Seq<char> {
        match self {
            Setting::DatabaseUrl => "DATABASE_URL"@,
            Setting::JwtSecret => "JWT_SECRET"@,
            Setting::PaystackSecretKey => "PAYSTACK_SECRET_KEY"@,
            Setting::PaystackPublicKey => "PAYSTACK_PUBLIC_KEY"@,
        }
    }

    /// The environment variable that carries the setting.
    pub fn variable_name(&self) -> (name: &'static str)
        ensures
            name@ == self.variable(),
    {
        match self {
            Setting::DatabaseUrl => "DATABASE_URL",
            Setting::JwtSecret => "JWT_SECRET",
            Setting::PaystackSecretKey => "PAYSTACK_SECRET_KEY",
            Setting::PaystackPublicKey => "PAYSTACK_PUBLIC_KEY",
        }
    }
}

impl Config {
    /// The first setting that is absent, in the order database address,
    /// signing secret, gateway secret key, gateway public key.
    pub open spec fn first_missing(
        database_url: Option<String>,
        jwt_secret: Option<String>,
        paystack_secret_key: Option<String>,
        paystack_public_key: Option<String>,
    ) -> Option<Setting> {
        if database_url.is_none() {
            Some(Setting::DatabaseUrl)
        } else if jwt_secret.is_none() {
            Some(Setting::JwtSecret)
        } else if paystack_secret_key.is_none() {
            Some(Setting::PaystackSecretKey)
        } else if paystack_public_key.is_none() {
            Some(Setting::PaystackPublicKey)
        } else {
            None
        }
    }

    /// Builds the configuration from what was found for each setting. All
    /// four must be present; otherwise the first absent one is named.
    pub fn from_values(
        database_url: Option<String>,
        jwt_secret: Option<String>,
        paystack_secret_key: Option<String>,
        paystack_public_key: Option<String>,
    ) -> (built: Result<Config, Setting>)
        ensures
            match built {
                Ok(config) => {
                    &&& database_url == Some(config.database_url)
                    &&& jwt_secret == Some(config.jwt_secret)
                    &&& paystack_secret_key == Some(config.paystack_secret_key)
                    &&& paystack_public_key == Some(config.paystack_public_key)
                },
                Err(missing) => Config::first_missing(
                    database_url,
                    jwt_secret,
                    paystack_secret_key,
                    paystack_public_key,
                ) == Some(missing),
            },
    {
        let database_url = match database_url {
            Some(value) => value,
            None => { return Err(Setting::DatabaseUrl); },
        };
        let jwt_secret = match jwt_secret {
            Some(value) => value,
            None => { return Err(Setting::JwtSecret); },
        };
        let paystack_secret_key = match paystack_secret_key {
            Some(value) => value,
            None => { return Err(Setting::PaystackSecretKey); },
        };
        let paystack_public_key = match paystack_public_key {
            Some(value) => value,
            None => { return Err(Setting::PaystackPublicKey); },
        };
        Ok(Config { database_url, jwt_secret, paystack_secret_key, paystack_public_key })
    }
}

} // verus!
