//! Server configuration: the database connection and the sign-in provider.
use crate::roles::RoleGroup;
use crate::text::{decimal, push_decimal};
use vstd::prelude::*;

verus! {

/// How to reach the Postgres database.
#[derive(Debug, Clone)]
pub struct DatabaseConfig {
    /// A full connection URI; when set, every other field is ignored.
    pub uri: Option<String>,
    pub host: Option<String>,
    pub port: Option<u16>,
    pub dbname: Option<String>,
    pub user: Option<String>,
    pub password: Option<String>,
}

/// `prefix` (a keyword with `='`), the value and a closing `' `; nothing
/// when the value is absent.
pub open spec fn keyword_value(prefix: Seq<char>, value: Option<Seq<char>>) -> Seq<char> {
    match value {
        Some(v) => prefix + v + "' "@,
        None => Seq::empty(),
    }
}

/// The view of an optional text.
pub open spec fn opt_view(o: Option<String>) -> Option<Seq<char>> {
    match o {
        Some(s) => Some(s@),
        None => None,
    }
}

/// The decimal numeral of an optional port.
pub open spec fn opt_decimal(o: Option<u16>) -> Option<Seq<char>> {
    match o {
        Some(p) => Some(decimal(p as nat)),
        None => None,
    }
}

impl DatabaseConfig {
    /// The connection string in keyword/value form, or the URI when set.
    pub open spec fn connection_string(&self) -> Seq<char> {
        match self.uri {
            Some(u) => u@,
            None => keyword_value("host='"@, opt_view(self.host)) + keyword_value(
                "port='"@,
                opt_decimal(self.port),
            ) + keyword_value("dbname='"@, opt_view(self.dbname)) + keyword_value(
                "user='"@,
                opt_view(self.user),
            ) + keyword_value("password='"@, opt_view(self.password)),
        }
    }

    /// The defaults: `localhost`, port 5432, database `pigweb`.
    pub fn new() -> (r: DatabaseConfig)
        ensures
            r.uri is None,
            r.host matches Some(h) && h@ == "localhost"@,
            r.port == Some(5432u16),
            r.dbname matches Some(d) && d@ == "pigweb"@,
            r.user is None,
            r.password is None,
    {
        DatabaseConfig {
            uri: None,
            host: Some(String::from_str("localhost")),
            port: Some(5432),
            dbname: Some(String::from_str("pigweb")),
            user: None,
            password: None,
        }
    }

    /// The string to connect with: the URI when set, else each present
    /// field as `keyword='value' `.
    pub fn to_pg_connection_string(&self) -> (r: String)
        ensures
            r@ == self.connection_string(),
    {
        if let Some(uri) = &self.uri {
            return uri.clone();
        }
        let mut res = String::new();
        append_keyword_value(&mut res, "host='", &self.host);
        let ghost after_host = res@;
        if let Some(port) = self.port {
            res.append("port='");
            push_decimal(&mut res, port);
            res.append("' ");
        }
        assert(res@ =~= after_host + keyword_value("port='"@, opt_decimal(self.port)));
        append_keyword_value(&mut res, "dbname='", &self.dbname);
        append_keyword_value(&mut res, "user='", &self.user);
        append_keyword_value(&mut res, "password='", &self.password);
        assert(res@ =~= self.connection_string());
        res
    }
}

fn append_keyword_value(res: &mut String, prefix: &str, value: &Option<String>)
    ensures
        final(res)@ == old(res)@ + keyword_value(prefix@, opt_view(*value)),
{
    if let Some(v) = value {
        res.append(prefix);
        res.append(v.as_str());
        res.append("' ");
        assert(final(res)@ =~= old(res)@ + keyword_value(prefix@, opt_view(*value)));
    } else {
        assert(res@ =~= old(res)@ + keyword_value(prefix@, opt_view(*value)));
    }
}

/// The sign-in provider (OpenID Connect).
#[derive(Debug, Clone)]
pub struct OpenIDConfig {
    pub auth_uri: String,
    pub token_uri: String,
    pub redirect_uri: Option<String>,
    pub logout_uri: Option<String>,
    pub client_id: String,
    pub client_secret: String,
    pub scopes: Vec<String>,
}

/// The whole server configuration.
#[derive(Debug)]
pub struct Config {
    /// Where the compiled client files are.
    pub client_path: String,
    pub database: DatabaseConfig,
    /// The groups the server recognises, with the roles each grants; each
    /// name occurs once (see [`Config::wf`]).
    pub groups: Vec<RoleGroup>,
    /// The sign-in provider; without one every user has every role.
    pub oidc: Option<OpenIDConfig>,
}

/// The names of a list of groups, in order.
pub open spec fn group_names(groups: Seq<RoleGroup>) -> Seq<Seq<char>> {
    groups.map_values(|g: RoleGroup| g.name@)
}

impl Config {
    /// A configuration names each group once.
    pub open spec fn wf(&self) -> bool {
        group_names(self.groups@).no_duplicates()
    }

    /// Whether each group is named once; a configuration read from outside
    /// is checked with this before use.
    pub fn has_unique_groups(&self) -> (r: bool)
        ensures
            r == self.wf(),
    {
        let ghost names = group_names(self.groups@);
        let mut i: usize = 0;
        while i < self.groups.len()
            invariant
                0 <= i <= self.groups.len(),
                names == group_names(self.groups@),
                forall|a: int, b: int| 0 <= a < b < i ==> names[a] != names[b],
            decreases self.groups.len() - i,
        {
            let mut k: usize = 0;
            while k < i
                invariant
                    0 <= k <= i < self.groups.len(),
                    names == group_names(self.groups@),
                    forall|a: int| 0 <= a < k ==> names[a] != names[i as int],
                decreases i - k,
            {
                if self.groups[k].name.eq(&self.groups[i].name) {
                    assert(names[k as int] == names[i as int]);
                    return false;
                }
                k = k + 1;
            }
            i = i + 1;
        }
        proof {
            assert forall|a: int, b: int| 0 <= a < names.len() && 0 <= b < names.len() && a != b implies names[a] != names[b] by {
                if a > b {
                    assert(names[b] != names[a]);
                }
            }
        }
        true
    }
}

/// The claims of an identity token that the server reads.
#[derive(Debug, Clone)]
pub struct Claims {
    pub iss: String,
    pub sub: String,
    pub aud: String,
    /// Expiry, in seconds since the Unix epoch.
    pub exp: i64,
    /// Issue time, in seconds since the Unix epoch.
    pub iat: i64,
    pub auth_time: Option<i64>,
    pub preferred_username: Option<String>,
    pub groups: Option<Vec<String>>,
}

/// Marks the sign-in provider's token data.
#[derive(Debug)]
pub struct OpenIDAuth;

} // verus!
