//! The credentials object attached to a request once its token resolved:
//! an adapter over a resolved record that exposes the identity and the
//! claim list, with each claim's expiry widened from milliseconds to
//! microseconds.

use vstd::prelude::*;

use crate::date_time::DateTimeAsMicroseconds;
use crate::middlewares::session_entity::{AccessClaim, SessionEntityTrait};

verus! {

/// One claim as handed to downstream authorization: its id, its expiry in
/// microseconds, and an IP restriction this layer never populates.
#[derive(Clone, Debug)]
pub struct RequestClaim {
    pub id: String,
    pub expires: DateTimeAsMicroseconds,
    pub allowed_ips: Option<Vec<String>>,
}

/// True when every claim expiry survives the millisecond-to-microsecond
/// widening within the range of its machine type.
pub open spec fn spec_claims_expiry_in_range(claims: Seq<AccessClaim>) -> bool {
    forall|i: int|
        0 <= i < claims.len() ==> i64::MIN <= #[trigger] claims[i].expires * 1000 <= i64::MAX
}

/// The credentials attached to a request: the resolved record itself,
/// read through its identity-and-claims capability.
#[derive(Clone, Debug)]
pub struct TradingPlatformRequestCredentials<E> {
    pub session_entity: E,
}

impl<E: SessionEntityTrait> TradingPlatformRequestCredentials<E> {
    /// Wraps a resolved record.
    pub fn new(session_entity: E) -> (r: Self)
        ensures
            r.session_entity == session_entity,
    {
        TradingPlatformRequestCredentials { session_entity }
    }

    /// The identity of the resolved record, verbatim.
    pub fn get_id(&self) -> (r: &str)
        ensures
            r@ == self.session_entity.spec_id(),
    {
        self.session_entity.get_id()
    }

    /// The record's claims, mapped one to one with each expiry multiplied
    /// by a thousand (milliseconds to microseconds) and no IP restriction;
    /// an empty claim list normalizes to nothing at all.
    pub fn get_claims(&self) -> (r: Option<Vec<RequestClaim>>)
        requires
            spec_claims_expiry_in_range(self.session_entity.spec_claims()),
        ensures
            (r is None <==> self.session_entity.spec_claims().len() == 0),
            r matches Some(v) ==> {
                let claims = self.session_entity.spec_claims();
                &&& v@.len() == claims.len()
                &&& forall|i: int|
                    0 <= i < claims.len() ==> {
                        &&& (#[trigger] v@[i]).id@ == claims[i].id@
                        &&& v@[i].expires.unix_microseconds == claims[i].expires * 1000
                        &&& v@[i].allowed_ips is None
                    }
            },
    {
        let claims = self.session_entity.get_claims();
        if claims.len() == 0 {
            return None;
        }
        let n = claims.len();
        let mut mapped: Vec<RequestClaim> = Vec::new();
        for i in 0..n
            invariant
                n == claims@.len(),
                claims@ == self.session_entity.spec_claims(),
                spec_claims_expiry_in_range(self.session_entity.spec_claims()),
                mapped@.len() == i,
                forall|j: int|
                    0 <= j < i ==> {
                        &&& (#[trigger] mapped@[j]).id@ == claims@[j].id@
                        &&& mapped@[j].expires.unix_microseconds == claims@[j].expires * 1000
                        &&& mapped@[j].allowed_ips is None
                    },
        {
            let c = &claims[i];
            let expires = DateTimeAsMicroseconds { unix_microseconds: c.expires * 1000 };
            mapped.push(RequestClaim { allowed_ips: None, expires, id: c.id.clone() });
        }
        Some(mapped)
    }
}

} // verus!
