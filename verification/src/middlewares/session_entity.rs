//! The store-resident records a token can resolve to: a session entity or an
//! API-key entity.  Both carry an identity, a brand tag, an expiry and a
//! claim list, and both sit under one fixed partition key, keyed by the
//! token as their row key.

use vstd::prelude::*;

verus! {

/// The fixed partition key all session and API-key records sit under.
pub const SESSION_PARTITION_KEY_VALUE: &'static str = "t";

/// A named grant with its own expiry, in milliseconds since the Unix epoch.
/// Expiry is enforced by the consuming authorization layer, not here.
#[derive(Clone, Debug, PartialEq)]
pub struct AccessClaim {
    pub id: String,
    pub expires: i64,
}

/// What the authentication layer reads off a resolved record: its identity,
/// its brand tag, and its claims.
pub trait SessionEntityTrait {
    /// The identity the record proves.
    spec fn spec_id(&self) -> Seq<char>;

    /// The brand tag the record carries.
    spec fn spec_brand_id(&self) -> Seq<char>;

    /// The claims the record carries.
    spec fn spec_claims(&self) -> Seq<AccessClaim>;

    fn get_id(&self) -> (r: &str)
        ensures
            r@ == self.spec_id(),
    ;

    fn get_brand_id(&self) -> (r: &str)
        ensures
            r@ == self.spec_brand_id(),
    ;

    fn get_claims(&self) -> (r: &Vec<AccessClaim>)
        ensures
            r@ == self.spec_claims(),
    ;
}

/// A session record: a logged-in trader's token.
#[derive(Clone, Debug)]
pub struct SessionEntity {
    /// The token value; the record's row key in the store.
    pub row_key: String,
    pub trader_id: String,
    /// Expiry of the whole session, in milliseconds since the Unix epoch.
    pub expires: i64,
    pub brand_id: String,
    /// The IP the session was opened from; informational only.
    pub ip: String,
    pub claims: Vec<AccessClaim>,
}

/// An API-key record: a standing key issued out of band.
#[derive(Clone, Debug)]
pub struct OpenApiKeyEntity {
    /// The key value; the record's row key in the store.
    pub row_key: String,
    pub api_key_id: String,
    /// Expiry of the key, in milliseconds since the Unix epoch.
    pub expires: i64,
    pub brand_id: String,
    /// The IP the key is pinned to; informational only.
    pub ip: String,
    pub claims: Vec<AccessClaim>,
}

impl SessionEntity {
    /// The fixed partition key session records sit under.
    pub fn get_pk() -> (r: String)
        ensures
            r@ == SESSION_PARTITION_KEY_VALUE@,
    {
        SESSION_PARTITION_KEY_VALUE.to_owned()
    }

    /// The token this record was resolved by.
    pub fn get_session_token(&self) -> (r: &str)
        ensures
            r@ == self.row_key@,
    {
        self.row_key.as_str()
    }
}

impl OpenApiKeyEntity {
    /// The fixed partition key API-key records sit under.
    pub fn get_pk() -> (r: String)
        ensures
            r@ == SESSION_PARTITION_KEY_VALUE@,
    {
        SESSION_PARTITION_KEY_VALUE.to_owned()
    }

    /// The token this record was resolved by.
    pub fn get_session_token(&self) -> (r: &str)
        ensures
            r@ == self.row_key@,
    {
        self.row_key.as_str()
    }
}

impl SessionEntityTrait for SessionEntity {
    open spec fn spec_id(&self) -> Seq<char> {
        self.trader_id@
    }

    open spec fn spec_brand_id(&self) -> Seq<char> {
        self.brand_id@
    }

    open spec fn spec_claims(&self) -> Seq<AccessClaim> {
        self.claims@
    }

    fn get_id(&self) -> (r: &str) {
        self.trader_id.as_str()
    }

    fn get_brand_id(&self) -> (r: &str) {
        self.brand_id.as_str()
    }

    fn get_claims(&self) -> (r: &Vec<AccessClaim>) {
        &self.claims
    }
}

impl SessionEntityTrait for OpenApiKeyEntity {
    open spec fn spec_id(&self) -> Seq<char> {
        self.api_key_id@
    }

    open spec fn spec_brand_id(&self) -> Seq<char> {
        self.brand_id@
    }

    open spec fn spec_claims(&self) -> Seq<AccessClaim> {
        self.claims@
    }

    fn get_id(&self) -> (r: &str) {
        self.api_key_id.as_str()
    }

    fn get_brand_id(&self) -> (r: &str) {
        self.brand_id.as_str()
    }

    fn get_claims(&self) -> (r: &Vec<AccessClaim>) {
        &self.claims
    }
}

/// A resolved record of either kind, as it travels through the pipeline.
#[derive(Clone, Debug)]
pub enum AuthEntity {
    Session(SessionEntity),
    ApiKey(OpenApiKeyEntity),
}

impl SessionEntityTrait for AuthEntity {
    open spec fn spec_id(&self) -> Seq<char> {
        match self {
            AuthEntity::Session(e) => e.spec_id(),
            AuthEntity::ApiKey(e) => e.spec_id(),
        }
    }

    open spec fn spec_brand_id(&self) -> Seq<char> {
        match self {
            AuthEntity::Session(e) => e.spec_brand_id(),
            AuthEntity::ApiKey(e) => e.spec_brand_id(),
        }
    }

    open spec fn spec_claims(&self) -> Seq<AccessClaim> {
        match self {
            AuthEntity::Session(e) => e.spec_claims(),
            AuthEntity::ApiKey(e) => e.spec_claims(),
        }
    }

    fn get_id(&self) -> (r: &str) {
        match self {
            AuthEntity::Session(e) => e.get_id(),
            AuthEntity::ApiKey(e) => e.get_id(),
        }
    }

    fn get_brand_id(&self) -> (r: &str) {
        match self {
            AuthEntity::Session(e) => e.get_brand_id(),
            AuthEntity::ApiKey(e) => e.get_brand_id(),
        }
    }

    fn get_claims(&self) -> (r: &Vec<AccessClaim>) {
        match self {
            AuthEntity::Session(e) => e.get_claims(),
            AuthEntity::ApiKey(e) => e.get_claims(),
        }
    }
}

} // verus!
