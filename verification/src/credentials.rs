//! Credential resolution: turning the optional static token and the optional
//! OAuth2 descriptor of the configuration into exactly one authentication
//! strategy.
//!
//! Precedence, highest first: an OAuth2 descriptor wins over a static token,
//! a static token wins over no authentication. When neither is present, a
//! strict run fails with a configuration error before anything is connected;
//! a permissive run proceeds unauthenticated.

use vstd::prelude::*;
use vstd::string::StringExecFns;
use crate::config::OAuth;
use crate::errors::PublishError;
use crate::json::push_json_string;
use crate::json::spec_json_string;

verus! {

/// The one authentication strategy a run uses.
#[derive(Clone, Debug, PartialEq)]
pub enum Credential {
    /// Proceed without authentication (permissive runs only).
    NoAuth,
    /// A bearer token sent under the fixed scheme name `"token"`; the broker
    /// client consumes the token as its UTF-8 bytes.
    StaticToken { scheme: String, token: String },
    /// OAuth2 client credentials: the descriptor serialized as a JSON object
    /// and inlined into a data URL, referenced by issuer and audience.
    OAuth2ClientCredentials {
        issuer_url: String,
        credentials_url: String,
        audience: String,
        scope: Option<String>,
    },
}

/// The JSON object serializing an OAuth2 descriptor, fields in declaration
/// order, string values quoted with the JSON escaping rules.
pub open spec fn spec_oauth_json(o: OAuth) -> Seq<char> {
    "{\"client_id\":"@ + spec_json_string(o.client_id@) + ",\"client_secret\":"@
        + spec_json_string(o.client_secret@) + ",\"client_email\":"@
        + spec_json_string(o.client_email@) + ",\"issuer_url\":"@
        + spec_json_string(o.issuer_url@) + ",\"audience\":"@
        + spec_json_string(o.audience@) + "}"@
}

/// The self-contained credentials artifact: the JSON object inlined into a
/// `data:` URL.
pub open spec fn spec_credentials_url(o: OAuth) -> Seq<char> {
    "data:application/json;,"@ + spec_oauth_json(o)
}

/// The JSON object serializing an OAuth2 descriptor.
pub fn oauth_credentials_json(o: &OAuth) -> (r: String)
    ensures
        r@ == spec_oauth_json(*o),
{
    let mut s = "{\"client_id\":".to_owned();
    push_json_string(&mut s, o.client_id.as_str());
    s.append(",\"client_secret\":");
    push_json_string(&mut s, o.client_secret.as_str());
    s.append(",\"client_email\":");
    push_json_string(&mut s, o.client_email.as_str());
    s.append(",\"issuer_url\":");
    push_json_string(&mut s, o.issuer_url.as_str());
    s.append(",\"audience\":");
    push_json_string(&mut s, o.audience.as_str());
    s.append("}");
    proof {
        assert(s@ =~= spec_oauth_json(*o));
    }
    s
}

/// The data URL holding the serialized OAuth2 descriptor.
pub fn oauth_credentials_url(o: &OAuth) -> (r: String)
    ensures
        r@ == spec_credentials_url(*o),
{
    let mut s = "data:application/json;,".to_owned();
    let j = oauth_credentials_json(o);
    s.append(j.as_str());
    proof {
        assert(s@ =~= spec_credentials_url(*o));
    }
    s
}

/// Selects the one authentication strategy of a run.
///
/// An OAuth2 descriptor always wins, whether or not a token is also present;
/// otherwise a present token is used as a static bearer credential; with
/// neither, a strict run (`require_credential`) is refused with
/// `ConfigurationError` and a permissive run proceeds unauthenticated.
/// Pure selection: nothing is connected here.
pub fn resolve_credential(
    token: &Option<String>,
    oauth: &Option<OAuth>,
    require_credential: bool,
) -> (r: Result<Credential, PublishError>)
    ensures
        oauth is Some ==> (r matches Ok(c) && (c matches Credential::OAuth2ClientCredentials {
            issuer_url,
            credentials_url,
            audience,
            scope,
        } && issuer_url@ == oauth->0.issuer_url@ && credentials_url@ == spec_credentials_url(
            oauth->0,
        ) && audience@ == oauth->0.audience@ && scope is None)),
        (oauth is None && token is Some) ==> (r matches Ok(c) && (c
            matches Credential::StaticToken { scheme, token: t } && scheme@ == "token"@ && t@
            == token->0@)),
        (oauth is None && token is None && require_credential) ==> r == Err::<
            Credential,
            PublishError,
        >(PublishError::ConfigurationError),
        (oauth is None && token is None && !require_credential) ==> (r matches Ok(c) && c
            is NoAuth),
{
    match oauth {
        Option::Some(o) => {
            let credentials_url = oauth_credentials_url(o);
            Ok(
                Credential::OAuth2ClientCredentials {
                    issuer_url: o.issuer_url.clone(),
                    credentials_url,
                    audience: o.audience.clone(),
                    scope: Option::None,
                },
            )
        },
        Option::None => match token {
            Option::Some(t) => Ok(
                Credential::StaticToken { scheme: "token".to_owned(), token: t.clone() },
            ),
            Option::None => {
                if require_credential {
                    Err(PublishError::ConfigurationError)
                } else {
                    Ok(Credential::NoAuth)
                }
            },
        },
    }
}

} // verus!
