use vstd::prelude::*;
use crate::text::{clone_opt, opt_view};

verus! {

/// What the remote-API collaborator is configured with: where the authority is,
/// whose account and product are served, and the key that offline files are
/// checked against.
#[derive(Clone, Debug)]
pub struct KeygenConfig {
    api_url: String,
    api_version: String,
    api_prefix: String,
    account: String,
    product: String,
    package: String,
    environment: Option<String>,
    license_key: Option<String>,
    token: Option<String>,
    public_key: Option<String>,
    platform: Option<String>,
    user_agent: Option<String>,
    max_clock_drift: Option<i64>,
}

/// What a `KeygenConfig` holds, as plain values.
pub struct KeygenConfigView {
    pub api_url: Seq<char>,
    pub api_version: Seq<char>,
    pub api_prefix: Seq<char>,
    pub account: Seq<char>,
    pub product: Seq<char>,
    pub package: Seq<char>,
    pub environment: Option<Seq<char>>,
    pub license_key: Option<Seq<char>>,
    pub token: Option<Seq<char>>,
    pub public_key: Option<Seq<char>>,
    pub platform: Option<Seq<char>>,
    pub user_agent: Option<Seq<char>>,
    pub max_clock_drift: Option<i64>,
}

impl View for KeygenConfig {
    type V = KeygenConfigView;

    closed spec fn view(&self) -> KeygenConfigView {
        KeygenConfigView {
            api_url: self.api_url@,
            api_version: self.api_version@,
            api_prefix: self.api_prefix@,
            account: self.account@,
            product: self.product@,
            package: self.package@,
            environment: opt_view(self.environment),
            license_key: opt_view(self.license_key),
            token: opt_view(self.token),
            public_key: opt_view(self.public_key),
            platform: opt_view(self.platform),
            user_agent: opt_view(self.user_agent),
            max_clock_drift: self.max_clock_drift,
        }
    }
}

impl KeygenConfig {
    pub fn api_url(&self) -> (r: String)
        ensures
            r@ == self@.api_url,
    {
        self.api_url.clone()
    }

    pub fn api_version(&self) -> (r: String)
        ensures
            r@ == self@.api_version,
    {
        self.api_version.clone()
    }

    pub fn api_prefix(&self) -> (r: String)
        ensures
            r@ == self@.api_prefix,
    {
        self.api_prefix.clone()
    }

    pub fn account(&self) -> (r: String)
        ensures
            r@ == self@.account,
    {
        self.account.clone()
    }

    pub fn product(&self) -> (r: String)
        ensures
            r@ == self@.product,
    {
        self.product.clone()
    }

    pub fn package(&self) -> (r: String)
        ensures
            r@ == self@.package,
    {
        self.package.clone()
    }

    pub fn environment(&self) -> (r: Option<String>)
        ensures
            opt_view(r) == self@.environment,
    {
        clone_opt(&self.environment)
    }

    pub fn license_key(&self) -> (r: Option<String>)
        ensures
            opt_view(r) == self@.license_key,
    {
        clone_opt(&self.license_key)
    }

    pub fn token(&self) -> (r: Option<String>)
        ensures
            opt_view(r) == self@.token,
    {
        clone_opt(&self.token)
    }

    /// The hex-encoded public key that signatures are checked against.
    pub fn public_key(&self) -> (r: Option<String>)
        ensures
            opt_view(r) == self@.public_key,
    {
        clone_opt(&self.public_key)
    }

    pub fn platform(&self) -> (r: Option<String>)
        ensures
            opt_view(r) == self@.platform,
    {
        clone_opt(&self.platform)
    }

    pub fn user_agent(&self) -> (r: Option<String>)
        ensures
            opt_view(r) == self@.user_agent,
    {
        clone_opt(&self.user_agent)
    }

    /// The clock drift tolerated, in minutes.
    pub fn max_clock_drift(&self) -> (r: Option<i64>)
        ensures
            r == self@.max_clock_drift,
    {
        self.max_clock_drift
    }
}

impl KeygenConfig {
    /// Builds a configuration; a missing package is the empty name.
    pub fn new(api_url: String, api_version: String, api_prefix: String, account: String, product: String, package: Option<String>, environment: Option<String>, license_key: Option<String>, token: Option<String>, public_key: Option<String>, platform: Option<String>, user_agent: Option<String>, max_clock_drift: Option<i64>) -> (r: KeygenConfig)
        ensures
            r@.api_url == api_url@,
            r@.api_version == api_version@,
            r@.api_prefix == api_prefix@,
            r@.account == account@,
            r@.product == product@,
            r@.environment == opt_view(environment),
            r@.license_key == opt_view(license_key),
            r@.token == opt_view(token),
            r@.public_key == opt_view(public_key),
            r@.platform == opt_view(platform),
            r@.user_agent == opt_view(user_agent),
            r@.max_clock_drift == max_clock_drift,
            r@.package == (match package {
                Some(p) => p@,
                None => Seq::<char>::empty(),
            }),
    {
        let package = match package {
            Some(p) => p,
            None => String::new(),
        };
        KeygenConfig { api_url, api_version, api_prefix, account, product, package, environment, license_key, token, public_key, platform, user_agent, max_clock_drift }
    }
}

} // verus!
