use vstd::prelude::*;
use crate::encoding::{decimal_digits, number_to_string_bytes};

verus! {

/// The service's settings.
#[derive(Clone, Default)]
pub struct IPFSConfig {
    pub db: ConfigDB,
    pub web: ConfigWeb,
    pub contract: ConfigContract,
    pub arweave: Option<ConfigArwave>,
}

/// Where the database is and how to log in.
#[derive(Clone, Default)]
pub struct ConfigDB {
    pub host: String,
    pub port: u16,
    pub username: String,
    pub password: String,
    pub db: String,
}

/// Where the web server listens.
#[derive(Clone, Default)]
pub struct ConfigWeb {
    pub listen: String,
    pub port: u16,
}

/// The registry the service talks to.
#[derive(Clone, Default)]
pub struct ConfigContract {
    pub contract: String,
}

/// Credentials and endpoint of the archival service.
#[derive(Clone, Default)]
pub struct ConfigArwave {
    pub jwt: String,
    pub url: String,
}

/// Where settings are read from.
#[derive(Clone)]
pub enum ConfigCategory {
    File,
}

impl Default for ConfigCategory {
    fn default() -> (r: Self)
        ensures
            r == ConfigCategory::File,
    {
        ConfigCategory::File
    }
}

/// The decimal digits of `n` as characters.
pub open spec fn decimal_chars(n: nat) -> Seq<char> {
    decimal_digits(n).map_values(|b: u8| b as char)
}

/// Relies on `String::push`: appends one character.
#[verifier::external_body]
fn push_char(s: &mut String, c: char)
    ensures
        final(s)@ == old(s)@.push(c),
{
    s.push(c);
}

impl IPFSConfig {
    /// The connection URL of the database:
    /// `postgres://<username>:<password>@<host>:<port>/<db>`.
    pub fn database_url(&self) -> (r: String)
        ensures
            r@ == "postgres://"@ + self.db.username@ + ":"@ + self.db.password@ + "@"@
                + self.db.host@ + ":"@ + decimal_chars(self.db.port as nat) + "/"@ + self.db.db@,
    {
        let mut url = String::new();
        url.append("postgres://");
        url.append(self.db.username.as_str());
        url.append(":");
        url.append(self.db.password.as_str());
        url.append("@");
        url.append(self.db.host.as_str());
        url.append(":");
        let digits = number_to_string_bytes(self.db.port as u64);
        let ghost head = url@;
        let mut i: usize = 0;
        while i < digits.len()
            invariant
                i <= digits@.len(),
                url@ == head + digits@.subrange(0, i as int).map_values(|b: u8| b as char),
            decreases digits@.len() - i,
        {
            push_char(&mut url, digits[i] as char);
            assert(digits@.subrange(0, i + 1).map_values(|b: u8| b as char) =~= digits@.subrange(
                0,
                i as int,
            ).map_values(|b: u8| b as char).push(digits@[i as int] as char));
            i = i + 1;
        }
        assert(digits@.subrange(0, i as int) =~= digits@);
        url.append("/");
        url.append(self.db.db.as_str());
        url
    }
}

} // verus!
