//! The claims set and header of a JSON Web Signature, their compact JSON
//! texts, and the encoding of each into an unpadded base64url segment. The
//! claims encoder also applies the timestamp policy: a defaulted issued-at
//! is the clock reading backdated by a fixed skew, a defaulted expiry lies
//! one default lifetime past the issued-at, and every encoded window must
//! have its expiry strictly later than its issuance.

use crate::b64::b64url_encode;
use crate::b64::b64url_of;
use crate::b64::is_b64url_char;
use crate::clock::now_epoch_secs;
use crate::digits::dec_of;
use crate::digits::i64_to_dec;
use crate::errors::Error;
use crate::errors::ErrorKind;
use crate::jsontext::json_quote;
use crate::jsontext::json_str_of;
use vstd::prelude::*;

verus! {

/// Seconds by which a defaulted issued-at is backdated, compensating for
/// clock drift between this process and the verifying server.
pub const BACKDATE_SKEW_SECS: i64 = 10;

/// Default lifetime, in seconds, of a token whose expiry the caller left
/// absent.
pub const DEFAULT_LIFETIME_SECS: i64 = 3600;

/// The claims set of a token: issuer, audience, optional space-delimited
/// scopes, optional subject and type hint, and the validity window as
/// seconds since the Unix epoch. Encoding resolves an absent issued-at or
/// expiry in place, so both are present once a segment has been produced.
pub struct JwsClaims {
    pub iss: String,
    pub scope: Option<String>,
    pub aud: String,
    pub exp: Option<i64>,
    pub iat: Option<i64>,
    pub typ: Option<String>,
    pub sub: Option<String>,
}

/// The header of a token: the signing algorithm, the type tag, and an
/// optional key identifier. Immutable once constructed; no defaulting.
pub struct JwsHeader {
    pub alg: String,
    pub typ: String,
    pub kid: Option<String>,
}

/// The JSON text of an optional number field value: the number, or `null`
/// where absent. The claims encoder resolves both timestamps before
/// serializing, so `null` never reaches an encoded segment.
pub open spec fn json_opt_num(v: Option<i64>) -> Seq<char> {
    match v {
        Some(i) => dec_of(i as int),
        None => "null"@,
    }
}

/// The compact JSON text of a claims set: keys in declared order — `iss`,
/// `scope`, `aud`, `exp`, `iat`, `typ`, `sub` — with each absent optional
/// string field omitted entirely rather than written as `null`.
pub open spec fn claims_json(c: JwsClaims) -> Seq<char> {
    "{\"iss\":"@ + json_str_of(c.iss@) + (match c.scope {
        Some(s) => ",\"scope\":"@ + json_str_of(s@),
        None => Seq::<char>::empty(),
    }) + ",\"aud\":"@ + json_str_of(c.aud@) + ",\"exp\":"@ + json_opt_num(c.exp) + ",\"iat\":"@
        + json_opt_num(c.iat) + (match c.typ {
        Some(t) => ",\"typ\":"@ + json_str_of(t@),
        None => Seq::<char>::empty(),
    }) + (match c.sub {
        Some(s) => ",\"sub\":"@ + json_str_of(s@),
        None => Seq::<char>::empty(),
    }) + "}"@
}

/// The compact JSON text of a header: keys in declared order — `alg`,
/// `typ`, `kid` — with an absent key identifier omitted entirely.
pub open spec fn header_json(h: JwsHeader) -> Seq<char> {
    "{\"alg\":"@ + json_str_of(h.alg@) + ",\"typ\":"@ + json_str_of(h.typ@) + (match h.kid {
        Some(k) => ",\"kid\":"@ + json_str_of(k@),
        None => Seq::<char>::empty(),
    }) + "}"@
}

/// The issued-at that encoding resolves: the caller's where supplied, else
/// the given clock reading backdated by the skew.
pub open spec fn resolved_iat(iat: Option<i64>, clock_secs: i64) -> int {
    match iat {
        Some(i) => i as int,
        None => clock_secs - BACKDATE_SKEW_SECS,
    }
}

/// The default expiry derived from an issued-at: one default lifetime
/// later, held to the top of the signed range where that sum would not fit.
pub open spec fn default_exp(iat: int) -> int {
    if iat + DEFAULT_LIFETIME_SECS <= i64::MAX {
        iat + DEFAULT_LIFETIME_SECS
    } else {
        i64::MAX as int
    }
}

/// The expiry that encoding resolves: the caller's where supplied, else the
/// default derived from the resolved issued-at.
pub open spec fn resolved_exp(exp: Option<i64>, iat: int) -> int {
    match exp {
        Some(e) => e as int,
        None => default_exp(iat),
    }
}

/// The JSON text of an optional number field value, as an owned string.
fn num_field(v: Option<i64>) -> (r: String)
    ensures
        r@ == json_opt_num(v),
{
    match v {
        Some(i) => i64_to_dec(i),
        None => String::from_str("null"),
    }
}

impl JwsClaims {
    /// The compact JSON text of this claims set, keys in declared order,
    /// absent optional string fields omitted.
    pub fn to_json(&self) -> (r: String)
        ensures
            r@ == claims_json(*self),
    {
        let mut j = String::from_str("{\"iss\":");
        j.append(json_quote(self.iss.as_str()).as_str());
        match &self.scope {
            Some(s) => {
                j.append(",\"scope\":");
                j.append(json_quote(s.as_str()).as_str());
            },
            None => {},
        }
        j.append(",\"aud\":");
        j.append(json_quote(self.aud.as_str()).as_str());
        j.append(",\"exp\":");
        j.append(num_field(self.exp).as_str());
        j.append(",\"iat\":");
        j.append(num_field(self.iat).as_str());
        match &self.typ {
            Some(t) => {
                j.append(",\"typ\":");
                j.append(json_quote(t.as_str()).as_str());
            },
            None => {},
        }
        match &self.sub {
            Some(s) => {
                j.append(",\"sub\":");
                j.append(json_quote(s.as_str()).as_str());
            },
            None => {},
        }
        j.append("}");
        proof {
            assert(j@ =~= claims_json(*self));
        }
        j
    }

    /// Resolve the timestamps against the given clock reading (whole
    /// seconds since the Unix epoch), validate the window, and produce the
    /// unpadded base64url segment of the compact JSON text.
    ///
    /// The resolved issued-at and expiry are written back in place, also
    /// when validation then rejects the window. Encoding succeeds exactly
    /// when the resolved expiry is strictly later than the resolved
    /// issued-at; otherwise it returns a validation error. With both
    /// timestamps left absent the resolved window spans exactly the default
    /// lifetime, and a defaulted issued-at is the clock reading backdated
    /// by the skew, so never later than the clock reading itself.
    pub fn encode_at(&mut self, clock_secs: i64) -> (r: Result<String, Error>)
        requires
            0 <= clock_secs,
        ensures
            final(self).iss == old(self).iss,
            final(self).scope == old(self).scope,
            final(self).aud == old(self).aud,
            final(self).typ == old(self).typ,
            final(self).sub == old(self).sub,
            final(self).iat == Some(resolved_iat(old(self).iat, clock_secs) as i64),
            final(self).exp == Some(
                resolved_exp(old(self).exp, resolved_iat(old(self).iat, clock_secs)) as i64,
            ),
            r is Ok <==> final(self).iat->0 < final(self).exp->0,
            r matches Ok(s) ==> s@ == b64url_of(claims_json(*final(self))),
            r matches Ok(s) ==> forall|i: int|
                0 <= i < s@.len() ==> is_b64url_char(#[trigger] s@[i]),
            r matches Err(e) ==> e.kind == ErrorKind::Validation && e.message@
                == "exp must be later than iat"@,
            old(self).iat is None && old(self).exp is None && clock_secs - BACKDATE_SKEW_SECS
                + DEFAULT_LIFETIME_SECS <= i64::MAX ==> final(self).exp->0 - final(self).iat->0
                == DEFAULT_LIFETIME_SECS,
            old(self).iat is None ==> final(self).iat->0 == clock_secs - BACKDATE_SKEW_SECS
                && final(self).iat->0 < clock_secs,
    {
        let now: i64 = clock_secs - BACKDATE_SKEW_SECS;
        let iat: i64 = match self.iat {
            Some(i) => i,
            None => now,
        };
        self.iat = Some(iat);
        let exp: i64 = match self.exp {
            Some(e) => e,
            None => if iat <= i64::MAX - DEFAULT_LIFETIME_SECS {
                iat + DEFAULT_LIFETIME_SECS
            } else {
                i64::MAX
            },
        };
        self.exp = Some(exp);
        if exp <= iat {
            return Err(Error::new("exp must be later than iat", ErrorKind::Validation));
        }
        let json = self.to_json();
        Ok(b64url_encode(json.as_str()))
    }

    /// Resolve the timestamps against the system clock, validate the
    /// window, and produce the unpadded base64url segment.
    ///
    /// The clock is read once, as whole seconds since the Unix epoch, and
    /// handed to [`JwsClaims::encode_at`]; everything stated here holds
    /// whatever the reading was. A caller-supplied timestamp is kept as it
    /// is; a defaulted expiry lies one default lifetime past the resolved
    /// issued-at, held to the top of the signed range; encoding succeeds
    /// exactly when the resolved window is non-empty.
    pub fn encode(&mut self) -> (r: Result<String, Error>)
        ensures
            final(self).iss == old(self).iss,
            final(self).scope == old(self).scope,
            final(self).aud == old(self).aud,
            final(self).typ == old(self).typ,
            final(self).sub == old(self).sub,
            final(self).iat is Some,
            final(self).exp is Some,
            old(self).iat is Some ==> final(self).iat == old(self).iat,
            old(self).iat is None ==> -BACKDATE_SKEW_SECS <= final(self).iat->0,
            old(self).exp is Some ==> final(self).exp == old(self).exp,
            old(self).exp is None ==> final(self).exp->0 == default_exp(final(self).iat->0 as int),
            r is Ok <==> final(self).iat->0 < final(self).exp->0,
            r matches Ok(s) ==> s@ == b64url_of(claims_json(*final(self))),
            r matches Ok(s) ==> forall|i: int|
                0 <= i < s@.len() ==> is_b64url_char(#[trigger] s@[i]),
            r matches Err(e) ==> e.kind == ErrorKind::Validation && e.message@
                == "exp must be later than iat"@,
            old(self).iat is None && old(self).exp is None && final(self).iat->0
                + DEFAULT_LIFETIME_SECS <= i64::MAX ==> final(self).exp->0 - final(self).iat->0
                == DEFAULT_LIFETIME_SECS,
    {
        let clock_secs: i64 = now_epoch_secs();
        self.encode_at(clock_secs)
    }
}

impl JwsHeader {
    /// The compact JSON text of this header, keys in declared order, an
    /// absent key identifier omitted.
    pub fn to_json(&self) -> (r: String)
        ensures
            r@ == header_json(*self),
    {
        let mut j = String::from_str("{\"alg\":");
        j.append(json_quote(self.alg.as_str()).as_str());
        j.append(",\"typ\":");
        j.append(json_quote(self.typ.as_str()).as_str());
        match &self.kid {
            Some(k) => {
                j.append(",\"kid\":");
                j.append(json_quote(k.as_str()).as_str());
            },
            None => {},
        }
        j.append("}");
        proof {
            assert(j@ =~= header_json(*self));
        }
        j
    }

    /// Produce the unpadded base64url segment of the compact JSON text of
    /// this header. There is nothing to validate, so encoding always
    /// succeeds.
    pub fn encode(&self) -> (r: Result<String, Error>)
        ensures
            r is Ok,
            r matches Ok(s) ==> s@ == b64url_of(header_json(*self)),
            r matches Ok(s) ==> forall|i: int|
                0 <= i < s@.len() ==> is_b64url_char(#[trigger] s@[i]),
    {
        let json = self.to_json();
        Ok(b64url_encode(json.as_str()))
    }
}

/// Encoding is deterministic: the JSON text, and with it the base64url
/// segment, is fixed by the claim field values alone. Two claims sets
/// whose fields agree — timestamps supplied explicitly — have the same
/// encoded form, so repeated encoding yields byte-identical output.
pub proof fn lemma_encode_deterministic(a: JwsClaims, b: JwsClaims)
    requires
        a.iss@ == b.iss@,
        a.aud@ == b.aud@,
        a.exp == b.exp,
        a.iat == b.iat,
        a.iat is Some,
        a.exp is Some,
        a.scope is Some <==> b.scope is Some,
        a.scope is Some ==> a.scope->0@ == b.scope->0@,
        a.typ is Some <==> b.typ is Some,
        a.typ is Some ==> a.typ->0@ == b.typ->0@,
        a.sub is Some <==> b.sub is Some,
        a.sub is Some ==> a.sub->0@ == b.sub->0@,
    ensures
        claims_json(a) == claims_json(b),
        b64url_of(claims_json(a)) == b64url_of(claims_json(b)),
{
}

} // verus!
