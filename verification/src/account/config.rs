//! The settings that the service needs before it starts.

use vstd::prelude::*;
use vstd::string::*;

verus! {

/// The settings of the service.
#[derive(Clone, Debug, PartialEq, Eq)]
pub struct Config {
    pub database_url: String,
    pub jwt_secret: String,
    pub admin_secret_code: String,
}

/// The mathematical content of a [`Config`].
pub struct ConfigView {
    pub database_url: Seq<char>,
    pub jwt_secret: Seq<char>,
    pub admin_secret_code: Seq<char>,
}

impl DeepView for Config {
    type V = ConfigView;

    open spec fn deep_view(&self) -> ConfigView {
        ConfigView {
            database_url: self.database_url@,
            jwt_secret: self.jwt_secret@,
            admin_secret_code: self.admin_secret_code@,
        }
    }
}

impl View for Config {
    type V = ConfigView;

    open spec fn view(&self) -> ConfigView {
        self.deep_view()
    }
}

/// The settings made of three values, or the complaint about the first one
/// that is missing: the database's URL, then the secret of the tokens, then
/// the administrators' code.
pub open spec fn config_of(
    database_url: Option<Seq<char>>,
    jwt_secret: Option<Seq<char>>,
    admin_secret_code: Option<Seq<char>>,
) -> Result<ConfigView, Seq<char>> {
    match database_url {
        None => Err("DATABASE_URL n'est pas défini dans .env"@),
        Some(database_url) => match jwt_secret {
            None => Err("JWT_SECRET n'est pas défini dans .env"@),
            Some(jwt_secret) => match admin_secret_code {
                None => Err("ADMIN_SECRET_CODE n'est pas défini dans .env"@),
                Some(admin_secret_code) => Ok(
                    ConfigView { database_url, jwt_secret, admin_secret_code },
                ),
            },
        },
    }
}

/// The view of an outcome of [`Config::from_env`].
pub open spec fn config_outcome_view(outcome: Result<Config, String>) -> Result<
    ConfigView,
    Seq<char>,
> {
    match outcome {
        Ok(config) => Ok(config@),
        Err(complaint) => Err(complaint@),
    }
}

impl Config {
    /// Makes the settings from what the environment holds under
    /// `DATABASE_URL`, `JWT_SECRET` and `ADMIN_SECRET_CODE`.
    pub fn from_env(
        database_url: Option<String>,
        jwt_secret: Option<String>,
        admin_secret_code: Option<String>,
    ) -> (outcome: Result<Config, String>)
        ensures
            config_outcome_view(outcome) == config_of(
                database_url.deep_view(),
                jwt_secret.deep_view(),
                admin_secret_code.deep_view(),
            ),
    {
        let database_url = match database_url {
            Some(value) => value,
            None => {
                return Err(String::from_str("DATABASE_URL n'est pas défini dans .env"));
            },
        };
        let jwt_secret = match jwt_secret {
            Some(value) => value,
            None => {
                return Err(String::from_str("JWT_SECRET n'est pas défini dans .env"));
            },
        };
        let admin_secret_code = match admin_secret_code {
            Some(value) => value,
            None => {
                return Err(String::from_str("ADMIN_SECRET_CODE n'est pas défini dans .env"));
            },
        };
        Ok(Config { database_url, jwt_secret, admin_secret_code })
    }
}

} // verus!
