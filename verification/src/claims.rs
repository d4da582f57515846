//! The two claim shapes, access and refresh, and what they share.

use vstd::prelude::*;
use crate::error::AuthError;
use crate::payload::{
    field_number, field_text, has_field, new_object, no_fields, number_field, object_fields,
    plain_fields, put_number, put_text, text_field, ClaimValue,
};

verus! {

/// A short-lived grant for one identity.
#[derive(Debug, Clone, PartialEq, Eq)]
pub struct AccessClaims {
    /// The time from which the token is no longer accepted.
    pub exp: usize,
    /// The time at which the token was issued.
    pub iat: usize,
    /// The identity that the token speaks for.
    pub sub: String,
    /// The identifier of this token.
    pub jti: String,
}

/// The grant that lets a client ask for a new pair of tokens.
#[derive(Debug, Clone, PartialEq, Eq)]
pub struct RefreshClaims {
    /// The time from which the token is no longer accepted.
    pub exp: usize,
    /// The time at which the token was issued.
    pub iat: usize,
    /// The identity that the token speaks for.
    pub sub: String,
    /// The identifier of this token.
    pub jti: String,
    /// The identifier of the access token issued together with this one.
    pub prf: String,
    /// The expiry of the access token issued together with this one.
    pub pex: usize,
}

/// An access grant as plain values.
pub struct AccessClaimsView {
    pub exp: usize,
    pub iat: usize,
    pub sub: Seq<char>,
    pub jti: Seq<char>,
}

/// A refresh grant as plain values.
pub struct RefreshClaimsView {
    pub exp: usize,
    pub iat: usize,
    pub sub: Seq<char>,
    pub jti: Seq<char>,
    pub prf: Seq<char>,
    pub pex: usize,
}

impl View for AccessClaims {
    type V = AccessClaimsView;

    open spec fn view(&self) -> AccessClaimsView {
        AccessClaimsView { exp: self.exp, iat: self.iat, sub: self.sub@, jti: self.jti@ }
    }
}

impl View for RefreshClaims {
    type V = RefreshClaimsView;

    open spec fn view(&self) -> RefreshClaimsView {
        RefreshClaimsView {
            exp: self.exp,
            iat: self.iat,
            sub: self.sub@,
            jti: self.jti@,
            prf: self.prf@,
            pex: self.pex,
        }
    }
}

/// The names of the six claims are pairwise different.
pub proof fn claim_names_differ()
    ensures
        "exp"@ != "iat"@,
        "exp"@ != "sub"@,
        "exp"@ != "jti"@,
        "exp"@ != "prf"@,
        "exp"@ != "pex"@,
        "exp"@ != "aud"@,
        "iat"@ != "sub"@,
        "iat"@ != "jti"@,
        "iat"@ != "prf"@,
        "iat"@ != "pex"@,
        "iat"@ != "aud"@,
        "sub"@ != "jti"@,
        "sub"@ != "prf"@,
        "sub"@ != "pex"@,
        "sub"@ != "aud"@,
        "jti"@ != "prf"@,
        "jti"@ != "pex"@,
        "jti"@ != "aud"@,
        "prf"@ != "pex"@,
        "prf"@ != "aud"@,
        "pex"@ != "aud"@,
{
    reveal_strlit("exp");
    reveal_strlit("iat");
    reveal_strlit("sub");
    reveal_strlit("jti");
    reveal_strlit("prf");
    reveal_strlit("pex");
    reveal_strlit("aud");
    assert("exp"@[0] == 'e' && "exp"@[2] == 'p');
    assert("iat"@[0] == 'i');
    assert("sub"@[0] == 's');
    assert("jti"@[0] == 'j');
    assert("prf"@[0] == 'p' && "prf"@[1] == 'r');
    assert("pex"@[0] == 'p' && "pex"@[1] == 'e' && "pex"@[2] == 'x');
    assert("aud"@[0] == 'a');
}

/// A number of a claim set as a time, where the machine can hold it.
pub open spec fn field_time(fields: Map<Seq<char>, ClaimValue>, name: Seq<char>) -> Option<usize> {
    match field_number(fields, name) {
        Some(n) => if n <= usize::MAX {
            Some(n as usize)
        } else {
            None
        },
        None => None,
    }
}

/// The claim set that an access grant is signed as.
pub open spec fn access_fields(claims: AccessClaimsView) -> Map<Seq<char>, ClaimValue> {
    no_fields().insert("exp"@, ClaimValue::Number(claims.exp as u64)).insert(
        "iat"@,
        ClaimValue::Number(claims.iat as u64),
    ).insert("sub"@, ClaimValue::Text(claims.sub)).insert("jti"@, ClaimValue::Text(claims.jti))
}

/// The claim set that a refresh grant is signed as.
pub open spec fn refresh_fields(claims: RefreshClaimsView) -> Map<Seq<char>, ClaimValue> {
    no_fields().insert("exp"@, ClaimValue::Number(claims.exp as u64)).insert(
        "iat"@,
        ClaimValue::Number(claims.iat as u64),
    ).insert("sub"@, ClaimValue::Text(claims.sub)).insert(
        "jti"@,
        ClaimValue::Text(claims.jti),
    ).insert("prf"@, ClaimValue::Text(claims.prf)).insert(
        "pex"@,
        ClaimValue::Number(claims.pex as u64),
    )
}

/// A claim set is that of a refresh grant, whatever else it holds, when it
/// names an access token or repeats the expiry of one.
pub open spec fn refers_to_access(fields: Map<Seq<char>, ClaimValue>) -> bool {
    fields.contains_key("prf"@) || fields.contains_key("pex"@)
}

/// The access grant that a claim set holds: its four claims, each of the
/// right kind. A claim set that refers to an access token holds none: a
/// refresh token never reads as an access token. Other claims beyond the
/// four are passed over.
pub open spec fn access_of(fields: Map<Seq<char>, ClaimValue>) -> Option<AccessClaimsView> {
    if refers_to_access(fields) {
        None
    } else {
        match (
            field_time(fields, "exp"@),
            field_time(fields, "iat"@),
            field_text(fields, "sub"@),
            field_text(fields, "jti"@),
        ) {
            (Some(exp), Some(iat), Some(sub), Some(jti)) => Some(
                AccessClaimsView { exp, iat, sub, jti },
            ),
            _ => None,
        }
    }
}

/// The refresh grant that a claim set holds: its six claims, each of the
/// right kind. Claims beyond these six are passed over.
pub open spec fn refresh_of(fields: Map<Seq<char>, ClaimValue>) -> Option<RefreshClaimsView> {
    match (
        field_time(fields, "exp"@),
        field_time(fields, "iat"@),
        field_text(fields, "sub"@),
        field_text(fields, "jti"@),
        field_text(fields, "prf"@),
        field_time(fields, "pex"@),
    ) {
        (Some(exp), Some(iat), Some(sub), Some(jti), Some(prf), Some(pex)) => Some(
            RefreshClaimsView { exp, iat, sub, jti, prf, pex },
        ),
        _ => None,
    }
}

/// A claim set that the decoder accepts once it is signed: it has a numeric
/// expiry and names no audience.
pub open spec fn verifiable(fields: Map<Seq<char>, ClaimValue>) -> bool {
    field_number(fields, "exp"@) is Some && !fields.contains_key("aud"@)
}

/// What both claim shapes offer: their common claims, and the way to and
/// from a claim set.
pub trait ClaimsMethod: Sized {
    /// The claim set that these claims are signed as.
    spec fn fields(&self) -> Map<Seq<char>, ClaimValue>;

    /// Whether a claim set holds claims of this shape.
    spec fn shaped(fields: Map<Seq<char>, ClaimValue>) -> bool;

    /// Whether these are the claims that a claim set holds.
    spec fn read_from(&self, fields: Map<Seq<char>, ClaimValue>) -> bool;

    /// The expiry that these claims carry.
    spec fn expiry(&self) -> usize;

    /// The expiry that a claim set of this shape carries.
    spec fn expiry_of(fields: Map<Seq<char>, ClaimValue>) -> usize;

    /// Claims of either shape can be signed, and the decoder accepts them.
    proof fn fields_are_signable(&self)
        ensures
            plain_fields(self.fields()),
            verifiable(self.fields()),
    ;

    /// The subject, as the claim set holds it.
    fn get_sub(&self) -> (sub: &str)
        ensures
            field_text(self.fields(), "sub"@) == Some(sub@),
    ;

    /// The identifier of the token, as the claim set holds it.
    fn get_jti(&self) -> (jti: &str)
        ensures
            field_text(self.fields(), "jti"@) == Some(jti@),
    ;

    /// The expiry, as the claim set holds it.
    fn get_exp(&self) -> (exp: usize)
        ensures
            exp == self.expiry(),
            field_time(self.fields(), "exp"@) == Some(exp),
    ;

    /// The time of issue, as the claim set holds it.
    fn get_iat(&self) -> (iat: usize)
        ensures
            field_time(self.fields(), "iat"@) == Some(iat),
    ;

    /// Writes the claims as a JSON object.
    fn to_object(&self) -> (object: serde_json::Map<String, serde_json::Value>)
        ensures
            object_fields(object) == self.fields(),
    ;

    /// Reads claims of this shape from a JSON object, if it holds them.
    fn from_object(object: &serde_json::Map<String, serde_json::Value>) -> (claims: Option<Self>)
        ensures
            claims is Some <==> Self::shaped(object_fields(*object)),
            claims matches Some(c) ==> c.read_from(object_fields(*object)) && c.expiry()
                == Self::expiry_of(object_fields(*object)),
    ;
}

fn time_field(object: &serde_json::Map<String, serde_json::Value>, name: &str) -> (time: Option<
    usize,
>)
    ensures
        time == field_time(object_fields(*object), name@),
{
    match number_field(object, name) {
        Some(n) => if n <= usize::MAX as u64 {
            Some(n as usize)
        } else {
            None
        },
        None => None,
    }
}

impl ClaimsMethod for AccessClaims {
    open spec fn fields(&self) -> Map<Seq<char>, ClaimValue> {
        access_fields(self@)
    }

    open spec fn shaped(fields: Map<Seq<char>, ClaimValue>) -> bool {
        access_of(fields) is Some
    }

    open spec fn read_from(&self, fields: Map<Seq<char>, ClaimValue>) -> bool {
        access_of(fields) == Some(self@)
    }

    open spec fn expiry(&self) -> usize {
        self.exp
    }

    open spec fn expiry_of(fields: Map<Seq<char>, ClaimValue>) -> usize {
        field_time(fields, "exp"@).unwrap()
    }

    proof fn fields_are_signable(&self) {
        claim_names_differ();
    }

    fn get_sub(&self) -> (sub: &str)
        ensures
            sub@ == self.sub@,
    {
        proof {
            claim_names_differ();
        }
        self.sub.as_str()
    }

    fn get_jti(&self) -> (jti: &str)
        ensures
            jti@ == self.jti@,
    {
        proof {
            claim_names_differ();
        }
        self.jti.as_str()
    }

    fn get_exp(&self) -> (exp: usize) {
        proof {
            claim_names_differ();
        }
        self.exp
    }

    fn get_iat(&self) -> (iat: usize)
        ensures
            iat == self.iat,
    {
        proof {
            claim_names_differ();
        }
        self.iat
    }

    fn to_object(&self) -> (object: serde_json::Map<String, serde_json::Value>) {
        let mut object = new_object();
        put_number(&mut object, "exp", self.exp as u64);
        put_number(&mut object, "iat", self.iat as u64);
        put_text(&mut object, "sub", self.sub.as_str());
        put_text(&mut object, "jti", self.jti.as_str());
        object
    }

    fn from_object(object: &serde_json::Map<String, serde_json::Value>) -> (claims: Option<Self>) {
        if has_field(object, "prf") || has_field(object, "pex") {
            return None;
        }
        let exp = time_field(object, "exp");
        let iat = time_field(object, "iat");
        let sub = text_field(object, "sub");
        let jti = text_field(object, "jti");
        match (exp, iat, sub, jti) {
            (Some(exp), Some(iat), Some(sub), Some(jti)) => Some(
                AccessClaims { exp, iat, sub, jti },
            ),
            _ => None,
        }
    }
}

impl ClaimsMethod for RefreshClaims {
    open spec fn fields(&self) -> Map<Seq<char>, ClaimValue> {
        refresh_fields(self@)
    }

    open spec fn shaped(fields: Map<Seq<char>, ClaimValue>) -> bool {
        refresh_of(fields) is Some
    }

    open spec fn read_from(&self, fields: Map<Seq<char>, ClaimValue>) -> bool {
        refresh_of(fields) == Some(self@)
    }

    open spec fn expiry(&self) -> usize {
        self.exp
    }

    open spec fn expiry_of(fields: Map<Seq<char>, ClaimValue>) -> usize {
        field_time(fields, "exp"@).unwrap()
    }

    proof fn fields_are_signable(&self) {
        claim_names_differ();
    }

    fn get_sub(&self) -> (sub: &str)
        ensures
            sub@ == self.sub@,
    {
        proof {
            claim_names_differ();
        }
        self.sub.as_str()
    }

    fn get_jti(&self) -> (jti: &str)
        ensures
            jti@ == self.jti@,
    {
        proof {
            claim_names_differ();
        }
        self.jti.as_str()
    }

    fn get_exp(&self) -> (exp: usize) {
        proof {
            claim_names_differ();
        }
        self.exp
    }

    fn get_iat(&self) -> (iat: usize)
        ensures
            iat == self.iat,
    {
        proof {
            claim_names_differ();
        }
        self.iat
    }

    fn to_object(&self) -> (object: serde_json::Map<String, serde_json::Value>) {
        let mut object = new_object();
        put_number(&mut object, "exp", self.exp as u64);
        put_number(&mut object, "iat", self.iat as u64);
        put_text(&mut object, "sub", self.sub.as_str());
        put_text(&mut object, "jti", self.jti.as_str());
        put_text(&mut object, "prf", self.prf.as_str());
        put_number(&mut object, "pex", self.pex as u64);
        object
    }

    fn from_object(object: &serde_json::Map<String, serde_json::Value>) -> (claims: Option<Self>) {
        let exp = time_field(object, "exp");
        let iat = time_field(object, "iat");
        let sub = text_field(object, "sub");
        let jti = text_field(object, "jti");
        let prf = text_field(object, "prf");
        let pex = time_field(object, "pex");
        match (exp, iat, sub, jti, prf, pex) {
            (Some(exp), Some(iat), Some(sub), Some(jti), Some(prf), Some(pex)) => Some(
                RefreshClaims { exp, iat, sub, jti, prf, pex },
            ),
            _ => None,
        }
    }
}

/// An access grant is read back from its own claim set.
pub proof fn access_fields_read_back(claims: AccessClaimsView)
    ensures
        access_of(access_fields(claims)) == Some(claims),
{
    claim_names_differ();
}

/// A refresh grant is read back from its own claim set, and that claim set
/// holds no access grant.
pub proof fn refresh_fields_read_back(claims: RefreshClaimsView)
    ensures
        refresh_of(refresh_fields(claims)) == Some(claims),
        access_of(refresh_fields(claims)) is None,
{
    claim_names_differ();
}

/// The claim set of an access grant holds no refresh grant.
pub proof fn access_fields_hold_no_refresh(claims: AccessClaimsView)
    ensures
        refresh_of(access_fields(claims)) is None,
{
    claim_names_differ();
}

/// Whether a role is the administrator's.
pub fn is_role_admin(role: &str) -> (r: Result<(), AuthError>)
    ensures
        role@ == "admin"@ ==> r is Ok,
        role@ != "admin"@ ==> r == Err::<(), AuthError>(AuthError::WrongCredentials),
{
    if role.to_owned() == "admin".to_owned() {
        Ok(())
    } else {
        Err(AuthError::WrongCredentials)
    }
}

} // verus!
