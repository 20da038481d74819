//! The data model of the sign-in flow and its pure pieces.  The flow
//! itself — a chain of token exchanges over the network — lives outside
//! the library; here are the typed requests and responses it moves, the
//! authorization parameters in their fixed order, and the PKCE material:
//! a random verifier, its digest, and the digest's url-safe encoding.

use vstd::prelude::*;
use crate::errors::ProvisionError;
use crate::json::{JsonValue, parse_json, spec_get, spec_parsed_json, spec_str_field, spec_u64_field};
use vstd::string::StringExecFns;

verus! {

/// An optional string field: absent or null is nothing, a string is its
/// text, and any other shape is a mismatch (the outer `None`).
pub open spec fn spec_opt_str_field(v: JsonValue, key: Seq<char>) -> Option<Option<Seq<char>>> {
    match spec_get(v, key) {
        Option::None => Some(None),
        Some(JsonValue::Null) => Some(None),
        Some(JsonValue::Str(s)) => Some(Some(s@)),
        Some(_) => None,
    }
}

/// An optional unsigned integer field, read as `spec_opt_str_field` is.
pub open spec fn spec_opt_u64_field(v: JsonValue, key: Seq<char>) -> Option<Option<u64>> {
    match spec_get(v, key) {
        Option::None => Some(None),
        Some(JsonValue::Null) => Some(None),
        Some(JsonValue::UInt(u)) => Some(Some(u)),
        Some(_) => None,
    }
}

/// One skin or cape of a profile.  The document's `state` field arrives
/// either as a string (`"ACTIVE"` or not) or as a boolean; it is kept as
/// the boolean it denotes.
#[derive(Debug)]
pub struct MinecraftProfileInfo {
    pub id: String,
    pub state: bool,
    pub url: String,
    pub alias: Option<String>,
    pub variant: Option<String>,
}

/// A signed-in account: its tokens, identity, and cosmetics.
#[derive(Debug)]
pub struct User {
    pub access_token: String,
    pub refresh_token: String,
    pub id: String,
    pub name: String,
    pub skins: Vec<MinecraftProfileInfo>,
    pub capes: Vec<MinecraftProfileInfo>,
}

/// The query parameters of the authorization request, in the order the
/// request carries them.
#[derive(Debug)]
pub struct AuthParams {
    pub client_id: String,
    pub response_type: String,
    pub redirect_uri: String,
    pub response_mode: String,
    pub scope: String,
    pub state: Option<String>,
    pub code_challenge: String,
    pub code_challenge_method: String,
}

/// Walks an `AuthParams` pair by pair, in the fixed parameter order.
#[derive(Debug)]
pub struct AuthParamsIter<'a> {
    pub params: &'a AuthParams,
    pub index: usize,
}

/// The mathematical content of the authorization parameters.
pub ghost struct AuthParamsModel {
    pub client_id: Seq<char>,
    pub response_type: Seq<char>,
    pub redirect_uri: Seq<char>,
    pub response_mode: Seq<char>,
    pub scope: Seq<char>,
    pub state: Option<Seq<char>>,
    pub code_challenge: Seq<char>,
    pub code_challenge_method: Seq<char>,
}

impl View for AuthParams {
    type V = AuthParamsModel;

    open spec fn view(&self) -> AuthParamsModel {
        AuthParamsModel {
            client_id: self.client_id@,
            response_type: self.response_type@,
            redirect_uri: self.redirect_uri@,
            response_mode: self.response_mode@,
            scope: self.scope@,
            state: match self.state {
                Some(s) => Some(s@),
                None => None,
            },
            code_challenge: self.code_challenge@,
            code_challenge_method: self.code_challenge_method@,
        }
    }
}

/// The pair the parameter walk yields at position `i`: the eight
/// parameters in their fixed order, with nothing at position five when
/// no state was set, and nothing from position eight on.
pub open spec fn spec_auth_param(p: AuthParamsModel, i: int) -> Option<(Seq<char>, Seq<char>)> {
    if i == 0 {
        Some(("client_id"@, p.client_id))
    } else if i == 1 {
        Some(("response_type"@, p.response_type))
    } else if i == 2 {
        Some(("redirect_uri"@, p.redirect_uri))
    } else if i == 3 {
        Some(("response_mode"@, p.response_mode))
    } else if i == 4 {
        Some(("scope"@, p.scope))
    } else if i == 5 {
        match p.state {
            Some(s) => Some(("state"@, s)),
            None => None,
        }
    } else if i == 6 {
        Some(("code_challenge"@, p.code_challenge))
    } else if i == 7 {
        Some(("code_challenge_method"@, p.code_challenge_method))
    } else {
        None
    }
}

impl AuthParams {
    /// Starts a walk over the parameters.
    pub fn into_iter<'a>(&'a self) -> (it: AuthParamsIter<'a>)
        ensures
            it.params == self,
            it.index == 0,
    {
        AuthParamsIter { params: self, index: 0 }
    }
}

impl<'a> AuthParamsIter<'a> {
    /// Yields the pair at the current position, exactly as
    /// `spec_auth_param` describes, and steps forward; the position no
    /// longer moves once the walk is past its last pair.
    pub fn next(&mut self) -> (r: Option<(String, String)>)
        ensures
            final(self).params == old(self).params,
            final(self).index == if old(self).index < 8 {
                old(self).index + 1
            } else {
                old(self).index as int
            },
            match r {
                Some(pair) => spec_auth_param(old(self).params@, old(self).index as int) == Some(
                    (pair.0@, pair.1@),
                ),
                None => spec_auth_param(old(self).params@, old(self).index as int) is None,
            },
    {
        let p = self.params;
        let r: Option<(String, String)> = if self.index == 0 {
            Some((String::from_str("client_id"), p.client_id.clone()))
        } else if self.index == 1 {
            Some((String::from_str("response_type"), p.response_type.clone()))
        } else if self.index == 2 {
            Some((String::from_str("redirect_uri"), p.redirect_uri.clone()))
        } else if self.index == 3 {
            Some((String::from_str("response_mode"), p.response_mode.clone()))
        } else if self.index == 4 {
            Some((String::from_str("scope"), p.scope.clone()))
        } else if self.index == 5 {
            match &p.state {
                Some(s) => Some((String::from_str("state"), s.clone())),
                None => None,
            }
        } else if self.index == 6 {
            Some((String::from_str("code_challenge"), p.code_challenge.clone()))
        } else if self.index == 7 {
            Some((String::from_str("code_challenge_method"), p.code_challenge_method.clone()))
        } else {
            None
        };
        if self.index < 8 {
            self.index = self.index + 1;
        }
        r
    }
}

/// The authentication response of the game services.
#[derive(Debug)]
pub struct McAuthResponse {
    pub username: String,
    pub roles: Vec<String>,
    pub access_token: String,
    pub token_type: String,
    pub expires_in: i64,
}

/// The properties of a token request against the sandboxed service.
#[derive(Debug)]
#[allow(non_snake_case)]
pub struct XSTSTokProperties {
    pub SandboxId: String,
    pub UserTokens: Vec<String>,
}

/// A token request against the sandboxed service.
#[derive(Debug)]
#[allow(non_snake_case)]
pub struct XSTSTokRequest {
    pub Properties: XSTSTokProperties,
    pub RelyingParty: String,
    pub TokenType: String,
}

/// The response to a sandboxed token request.
#[derive(Debug)]
#[allow(non_snake_case)]
pub struct XSTSResponse {
    pub IssueInstant: String,
    pub NotAfter: String,
    pub Token: String,
    pub DisplayClaims: DisplayClaims,
}

/// The response to a console-network sign-in.
#[derive(Debug)]
#[allow(non_snake_case)]
pub struct XblAuthResponse {
    pub IssueInstant: String,
    pub NotAfter: String,
    pub Token: String,
    pub DisplayClaims: DisplayClaims,
}

/// The claims a token response displays.
#[derive(Debug)]
pub struct DisplayClaims {
    pub xui: Vec<XuiClaim>,
}

/// One user-hash claim.
#[derive(Debug)]
pub struct XuiClaim {
    pub uhs: String,
}

/// A console-network sign-in request.
#[derive(Debug)]
#[allow(non_snake_case)]
pub struct XblAuthRequest {
    pub Properties: XblProperties,
    pub RelyingParty: String,
    pub TokenType: String,
}

/// The properties of a console-network sign-in request.
#[derive(Debug)]
#[allow(non_snake_case)]
pub struct XblProperties {
    pub AuthMethod: String,
    pub SiteName: String,
    pub RpsTicket: String,
}

/// The form parameters of the token request.
#[derive(Debug)]
pub struct AuthTokenParameters {
    pub client_id: String,
    pub scope: String,
    pub code: String,
    pub redirect_uri: String,
    pub grant_type: String,
    pub code_verifier: String,
}

/// The token endpoint's response.
#[derive(Debug)]
pub struct TokenResponse {
    pub access_token: String,
    pub expires_in: Option<u64>,
    pub refresh_token: Option<String>,
    pub token_type: Option<String>,
}

/// The profile endpoint's response.
#[derive(Debug)]
pub struct MinecraftProfileResponse {
    pub id: String,
    pub name: String,
    pub skins: Vec<MinecraftProfileInfo>,
    pub capes: Vec<MinecraftProfileInfo>,
}

/// Whether `c` is an ASCII letter or digit: the alphabet the sign-in
/// verifier is drawn from.
pub open spec fn is_alnum_char(c: char) -> bool {
    ('0' <= c && c <= '9') || ('a' <= c && c <= 'z') || ('A' <= c && c <= 'Z')
}

/// The boolean a textual profile state denotes: true exactly for
/// `"ACTIVE"`; any other text, `"INACTIVE"` included, means inactive.
pub fn state_to_bool(state: &str) -> (r: bool)
    ensures
        r == (state@ == "ACTIVE"@),
{
    let target: String = state.to_owned();
    let active: String = String::from_str("ACTIVE");
    target == active
}

/// What the digest of a verifier's text is.  The digest function is the
/// outside crate's; only its determinism and its 32-byte width are relied
/// on here.
pub uninterp spec fn sha256_of(s: Seq<char>) -> Seq<u8>;

/// What the url-safe, unpadded encoding of a byte string is.  The
/// encoding is the outside crate's; only its determinism is relied on
/// here.
pub uninterp spec fn base64_url_of(b: Seq<u8>) -> Seq<char>;

/// Relies on `sha2::Sha256::digest`: the digest of the text's bytes,
/// always 32 bytes wide, depending on the text alone.
#[verifier::external_body]
fn sha256_str(s: &str) -> (r: Vec<u8>)
    ensures
        r@ == sha256_of(s@),
        r@.len() == 32,
{
    <sha2::Sha256 as sha2::Digest>::digest(s.as_bytes()).to_vec()
}

/// Relies on `base64::Engine::encode` with the url-safe, no-padding
/// alphabet: the encoding depends on the bytes alone.
#[verifier::external_body]
fn base64_url_nopad(b: &Vec<u8>) -> (r: String)
    ensures
        r@ == base64_url_of(b@),
{
    base64::Engine::encode(&base64::engine::general_purpose::URL_SAFE_NO_PAD, b)
}

/// Relies on `rand::rng` and `rand::distr::Alphanumeric`, whose
/// `sample_string` draws the requested number of characters from the
/// ASCII letters and digits; which ones is not known, only that every
/// one is a letter or a digit.
#[verifier::external_body]
fn random_alphanumeric_128() -> (r: String)
    ensures
        r@.len() == 128,
        forall|i: int| 0 <= i < r@.len() ==> is_alnum_char(#[trigger] r@[i]),
{
    rand::distr::SampleString::sample_string(&rand::distr::Alphanumeric, &mut rand::rng(), 128)
}

/// Relies on `uuid::Uuid::new_v4` and its simple form: 32 hexadecimal
/// digits without hyphens; nothing is known of which.
#[verifier::external_body]
fn random_uuid_simple() -> (r: String)
    ensures
        r@.len() == 32,
{
    uuid::Uuid::new_v4().simple().to_string()
}

/// The views of a list of text pairs.
pub open spec fn spec_pairs_view(pairs: Seq<(String, String)>) -> Seq<(Seq<char>, Seq<char>)> {
    Seq::new(pairs.len(), |i: int| (pairs[i].0@, pairs[i].1@))
}

/// What the url crate yields for a base url and query pairs: the base
/// with the pairs appended percent-encoded as its query, or nothing
/// when the base does not parse.  The result depends on the base and
/// the pairs alone.
pub uninterp spec fn spec_url_with_params(
    base: Seq<char>,
    pairs: Seq<(Seq<char>, Seq<char>)>,
) -> Option<Seq<char>>;

/// Relies on `url::Url::parse_with_params`: deterministic in the base
/// and the pairs, so what it yields is the named result
/// `spec_url_with_params`; nothing is returned when the base does not
/// parse.
#[verifier::external_body]
fn url_with_params(base: &str, pairs: &Vec<(String, String)>) -> (r: Option<String>)
    ensures
        match r {
            Some(u) => spec_url_with_params(base@, spec_pairs_view(pairs@)) == Some(u@),
            None => spec_url_with_params(base@, spec_pairs_view(pairs@)) is None,
        },
{
    match url::Url::parse_with_params(base, pairs) {
        Ok(u) => Some(u.as_str().to_owned()),
        Err(_) => None,
    }
}

/// The challenge a verifier yields: the url-safe, unpadded encoding of
/// the verifier's digest.
pub fn code_challenge_of(verifier: &str) -> (r: String)
    ensures
        r@ == base64_url_of(sha256_of(verifier@)),
{
    let digest = sha256_str(verifier);
    base64_url_nopad(&digest)
}

/// Generates the PKCE material: a random 128-character alphanumeric
/// verifier, the challenge it yields, and the challenge method name.
pub fn generate_pkce_data() -> (r: (String, String, String))
    ensures
        r.0@.len() == 128,
        forall|i: int| 0 <= i < r.0@.len() ==> is_alnum_char(#[trigger] r.0@[i]),
        r.1@ == base64_url_of(sha256_of(r.0@)),
        r.2@ == "S256"@,
{
    let code_verifier = random_alphanumeric_128();
    let code_challenge = code_challenge_of(code_verifier.as_str());
    (code_verifier, code_challenge, String::from_str("S256"))
}

/// Generates a fresh state token: 32 hexadecimal digits.
pub fn generate_state() -> (r: String)
    ensures
        r@.len() == 32,
{
    random_uuid_simple()
}

/// The eight authorization parameters, in their fixed order, as
/// name/value pairs: the caller's identity and redirect, the code flow
/// constants, the state, and the PKCE challenge.
pub open spec fn spec_authorize_pairs(
    client_id: Seq<char>,
    redirect_uri: Seq<char>,
    state: Seq<char>,
    challenge: Seq<char>,
) -> Seq<(Seq<char>, Seq<char>)> {
    seq![
        ("client_id"@, client_id),
        ("response_type"@, "code"@),
        ("redirect_uri"@, redirect_uri),
        ("response_mode"@, "query"@),
        ("scope"@, "XboxLive.signin offline_access"@),
        ("state"@, state),
        ("code_challenge"@, challenge),
        ("code_challenge_method"@, "S256"@),
    ]
}

/// Builds the secure sign-in data: the authorization url carrying
/// exactly the eight authorization parameters, the state (the given
/// one, or a fresh 32-digit one when none was given), and the PKCE
/// verifier, whose digest's encoding is the challenge the url carries.
/// Nothing is returned only when the url construction fails.
pub fn get_secure_login_data(client_id: &str, redirect_url: &str, state: Option<String>) -> (r:
    Option<(String, Option<String>, String)>)
    ensures
        match r {
            Some(out) => {
                &&& out.2@.len() == 128
                &&& forall|i: int| 0 <= i < out.2@.len() ==> is_alnum_char(#[trigger] out.2@[i])
                &&& match out.1 {
                    Some(st) => {
                        &&& match state {
                            Some(s) => st@ == s@,
                            None => st@.len() == 32,
                        }
                        &&& spec_url_with_params(
                            "https://login.microsoftonline.com/consumers/oauth2/v2.0/authorize"@,
                            spec_authorize_pairs(
                                client_id@,
                                redirect_url@,
                                st@,
                                base64_url_of(sha256_of(out.2@)),
                            ),
                        ) == Some(out.0@)
                    },
                    None => false,
                }
            },
            None => exists|st: Seq<char>, verifier: Seq<char>|
                spec_url_with_params(
                    "https://login.microsoftonline.com/consumers/oauth2/v2.0/authorize"@,
                    #[trigger] spec_authorize_pairs(
                        client_id@,
                        redirect_url@,
                        st,
                        base64_url_of(sha256_of(verifier)),
                    ),
                ) is None,
        },
{
    let pkce = generate_pkce_data();
    let code_verifier = pkce.0;
    let code_challenge = pkce.1;
    let code_challenge_method = pkce.2;
    let st: String = match &state {
        Some(s) => s.clone(),
        None => generate_state(),
    };
    let parameters = AuthParams {
        client_id: client_id.to_owned(),
        response_type: String::from_str("code"),
        redirect_uri: redirect_url.to_owned(),
        response_mode: String::from_str("query"),
        scope: String::from_str("XboxLive.signin offline_access"),
        state: Some(st.clone()),
        code_challenge,
        code_challenge_method,
    };
    let mut pairs: Vec<(String, String)> = Vec::new();
    let mut it = parameters.into_iter();
    let mut steps: usize = 0;
    while steps < 9
        invariant
            steps <= 9,
            it.params@ == parameters@,
            parameters@.state matches Some(_),
            it.index == if steps <= 8 {
                steps as int
            } else {
                8
            },
            pairs@.len() == if steps <= 8 {
                steps as int
            } else {
                8
            },
            forall|k: int|
                0 <= k < pairs@.len() ==> spec_auth_param(parameters@, k) == Some(
                    ((#[trigger] pairs@[k]).0@, pairs@[k].1@),
                ),
        decreases 9 - steps,
    {
        match it.next() {
            Some(pair) => pairs.push(pair),
            None => {},
        }
        steps = steps + 1;
    }
    proof {
        assert(spec_pairs_view(pairs@) =~= spec_authorize_pairs(
            client_id@,
            redirect_url@,
            st@,
            base64_url_of(sha256_of(code_verifier@)),
        ));
    }
    match url_with_params("https://login.microsoftonline.com/consumers/oauth2/v2.0/authorize", &pairs) {
        Some(url) => Some((url, Some(st), code_verifier)),
        None => None,
    }
}

/// The mathematical content of one skin or cape.
pub ghost struct ProfileInfoModel {
    pub id: Seq<char>,
    pub state: bool,
    pub url: Seq<char>,
    pub alias: Option<Seq<char>>,
    pub variant: Option<Seq<char>>,
}

/// The mathematical content of a token response.
pub ghost struct TokenModel {
    pub access_token: Seq<char>,
    pub expires_in: Option<u64>,
    pub refresh_token: Option<Seq<char>>,
    pub token_type: Option<Seq<char>>,
}

/// The mathematical content of a console-network or sandboxed token
/// response: the times, the token, and the user-hash claims.
pub ghost struct XblModel {
    pub issue_instant: Seq<char>,
    pub not_after: Seq<char>,
    pub token: Seq<char>,
    pub claims: Seq<Seq<char>>,
}

/// The mathematical content of a game-services authentication response.
pub ghost struct McAuthModel {
    pub username: Seq<char>,
    pub roles: Seq<Seq<char>>,
    pub access_token: Seq<char>,
    pub token_type: Seq<char>,
    pub expires_in: int,
}

/// The mathematical content of a profile response.
pub ghost struct ProfileRespModel {
    pub id: Seq<char>,
    pub name: Seq<char>,
    pub skins: Seq<ProfileInfoModel>,
    pub capes: Seq<ProfileInfoModel>,
}

impl View for MinecraftProfileInfo {
    type V = ProfileInfoModel;

    open spec fn view(&self) -> ProfileInfoModel {
        ProfileInfoModel {
            id: self.id@,
            state: self.state,
            url: self.url@,
            alias: match self.alias {
                Some(s) => Some(s@),
                None => None,
            },
            variant: match self.variant {
                Some(s) => Some(s@),
                None => None,
            },
        }
    }
}

impl View for TokenResponse {
    type V = TokenModel;

    open spec fn view(&self) -> TokenModel {
        TokenModel {
            access_token: self.access_token@,
            expires_in: self.expires_in,
            refresh_token: match self.refresh_token {
                Some(s) => Some(s@),
                None => None,
            },
            token_type: match self.token_type {
                Some(s) => Some(s@),
                None => None,
            },
        }
    }
}

impl View for XblAuthResponse {
    type V = XblModel;

    open spec fn view(&self) -> XblModel {
        XblModel {
            issue_instant: self.IssueInstant@,
            not_after: self.NotAfter@,
            token: self.Token@,
            claims: Seq::new(self.DisplayClaims.xui@.len(), |i: int| self.DisplayClaims.xui@[i].uhs@),
        }
    }
}

impl View for XSTSResponse {
    type V = XblModel;

    open spec fn view(&self) -> XblModel {
        XblModel {
            issue_instant: self.IssueInstant@,
            not_after: self.NotAfter@,
            token: self.Token@,
            claims: Seq::new(self.DisplayClaims.xui@.len(), |i: int| self.DisplayClaims.xui@[i].uhs@),
        }
    }
}

impl View for McAuthResponse {
    type V = McAuthModel;

    open spec fn view(&self) -> McAuthModel {
        McAuthModel {
            username: self.username@,
            roles: Seq::new(self.roles@.len(), |i: int| self.roles@[i]@),
            access_token: self.access_token@,
            token_type: self.token_type@,
            expires_in: self.expires_in as int,
        }
    }
}

impl View for MinecraftProfileResponse {
    type V = ProfileRespModel;

    open spec fn view(&self) -> ProfileRespModel {
        ProfileRespModel {
            id: self.id@,
            name: self.name@,
            skins: Seq::new(self.skins@.len(), |i: int| self.skins@[i]@),
            capes: Seq::new(self.capes@.len(), |i: int| self.capes@[i]@),
        }
    }
}

/// What a profile's `state` field denotes: a string denotes whether it
/// is exactly `"ACTIVE"`, a boolean denotes itself, anything else is a
/// shape mismatch.
pub open spec fn spec_profile_state(j: JsonValue) -> Option<bool> {
    match spec_get(j, "state"@) {
        Some(JsonValue::Str(s)) => Some(s@ == "ACTIVE"@),
        Some(JsonValue::Bool(b)) => Some(b),
        _ => None,
    }
}

/// What one skin or cape record decodes to.
pub open spec fn spec_profile_info(j: JsonValue) -> Option<ProfileInfoModel> {
    match (
        spec_str_field(j, "id"@),
        spec_profile_state(j),
        spec_str_field(j, "url"@),
        spec_opt_str_field(j, "alias"@),
        spec_opt_str_field(j, "variant"@),
    ) {
        (Some(id), Some(state), Some(url), Some(alias), Some(variant)) => Some(
            ProfileInfoModel { id, state, url, alias, variant },
        ),
        _ => None,
    }
}

/// What an array of skin or cape records decodes to: every record must
/// decode.
pub open spec fn spec_profile_infos(js: Seq<JsonValue>) -> Option<Seq<ProfileInfoModel>> {
    if forall|i: int| 0 <= i < js.len() ==> spec_profile_info(#[trigger] js[i]) is Some {
        Some(Seq::new(js.len(), |i: int| spec_profile_info(js[i]).unwrap()))
    } else {
        None
    }
}

/// What a token response decodes to: a required access token and three
/// optional fields.
pub open spec fn spec_token_response(j: JsonValue) -> Option<TokenModel> {
    match (
        spec_str_field(j, "access_token"@),
        spec_opt_u64_field(j, "expires_in"@),
        spec_opt_str_field(j, "refresh_token"@),
        spec_opt_str_field(j, "token_type"@),
    ) {
        (Some(access_token), Some(expires_in), Some(refresh_token), Some(token_type)) => Some(
            TokenModel { access_token, expires_in, refresh_token, token_type },
        ),
        _ => None,
    }
}

/// What an array of user-hash claims decodes to: each an object with a
/// `uhs` string.
pub open spec fn spec_xui_claims(js: Seq<JsonValue>) -> Option<Seq<Seq<char>>> {
    if forall|i: int| 0 <= i < js.len() ==> spec_str_field(#[trigger] js[i], "uhs"@) is Some {
        Some(Seq::new(js.len(), |i: int| spec_str_field(js[i], "uhs"@).unwrap()))
    } else {
        None
    }
}

/// What a console-network or sandboxed token response decodes to.
pub open spec fn spec_xbl_response(j: JsonValue) -> Option<XblModel> {
    match (
        spec_str_field(j, "IssueInstant"@),
        spec_str_field(j, "NotAfter"@),
        spec_str_field(j, "Token"@),
        spec_get(j, "DisplayClaims"@),
    ) {
        (Some(issue_instant), Some(not_after), Some(token), Some(dc)) => match spec_get(
            dc,
            "xui"@,
        ) {
            Some(JsonValue::Arr(xui)) => match spec_xui_claims(xui@) {
                Some(claims) => Some(XblModel { issue_instant, not_after, token, claims }),
                None => None,
            },
            _ => None,
        },
        _ => None,
    }
}

/// What an array of role names decodes to: every element a string.
pub open spec fn spec_roles(js: Seq<JsonValue>) -> Option<Seq<Seq<char>>> {
    if forall|i: int| 0 <= i < js.len() ==> #[trigger] js[i] matches JsonValue::Str(_) {
        Some(Seq::new(js.len(), |i: int| js[i]->Str_0@))
    } else {
        None
    }
}

/// What a game-services authentication response decodes to; its expiry
/// is a signed count of seconds.
pub open spec fn spec_mc_auth(j: JsonValue) -> Option<McAuthModel> {
    match (
        spec_str_field(j, "username"@),
        spec_get(j, "roles"@),
        spec_str_field(j, "access_token"@),
        spec_str_field(j, "token_type"@),
        spec_get(j, "expires_in"@),
    ) {
        (Some(username), Some(JsonValue::Arr(rs)), Some(access_token), Some(token_type), Some(
            exp,
        )) => {
            let expires_in: Option<int> = match exp {
                JsonValue::UInt(u) => if u <= i64::MAX {
                    Some(u as int)
                } else {
                    None
                },
                JsonValue::Int(i) => Some(i as int),
                _ => None,
            };
            match (spec_roles(rs@), expires_in) {
                (Some(roles), Some(e)) => Some(
                    McAuthModel { username, roles, access_token, token_type, expires_in: e },
                ),
                _ => None,
            }
        },
        _ => None,
    }
}

/// What a profile response decodes to.
pub open spec fn spec_profile_response(j: JsonValue) -> Option<ProfileRespModel> {
    match (
        spec_str_field(j, "id"@),
        spec_str_field(j, "name"@),
        spec_get(j, "skins"@),
        spec_get(j, "capes"@),
    ) {
        (Some(id), Some(name), Some(JsonValue::Arr(sk)), Some(JsonValue::Arr(cp))) => match (
            spec_profile_infos(sk@),
            spec_profile_infos(cp@),
        ) {
            (Some(skins), Some(capes)) => Some(ProfileRespModel { id, name, skins, capes }),
            _ => None,
        },
        _ => None,
    }
}

/// Reads an optional string field: absent or null is nothing, a string
/// is kept, any other shape is a mismatch.
fn get_opt_str(j: &JsonValue, key: &str) -> (r: Result<Option<String>, ProvisionError>)
    ensures
        match r {
            Ok(o) => spec_opt_str_field(*j, key@) == Some(
                match o {
                    Some(s) => Some(s@),
                    None => None::<Seq<char>>,
                },
            ),
            Err(e) => e is DecodeError && spec_opt_str_field(*j, key@) is None,
        },
{
    match j.get(key) {
        Option::None => Ok(None),
        Some(JsonValue::Null) => Ok(None),
        Some(JsonValue::Str(s)) => Ok(Some(s.clone())),
        Some(_) => Err(ProvisionError::DecodeError),
    }
}

/// Reads an optional unsigned integer field, as `get_opt_str` does.
fn get_opt_u64(j: &JsonValue, key: &str) -> (r: Result<Option<u64>, ProvisionError>)
    ensures
        match r {
            Ok(o) => spec_opt_u64_field(*j, key@) == Some(o),
            Err(e) => e is DecodeError && spec_opt_u64_field(*j, key@) is None,
        },
{
    match j.get(key) {
        Option::None => Ok(None),
        Some(JsonValue::Null) => Ok(None),
        Some(JsonValue::UInt(u)) => Ok(Some(*u)),
        Some(_) => Err(ProvisionError::DecodeError),
    }
}

/// Decodes one skin or cape record, exactly as `spec_profile_info`
/// describes.
pub fn decode_profile_info(j: &JsonValue) -> (r: Result<MinecraftProfileInfo, ProvisionError>)
    ensures
        match r {
            Ok(p) => spec_profile_info(*j) == Some(p@),
            Err(e) => e is DecodeError && spec_profile_info(*j) is None,
        },
{
    let id = match j.get_str("id") {
        Some(s) => s.clone(),
        None => {
            return Err(ProvisionError::DecodeError);
        },
    };
    let state = match j.get("state") {
        Some(JsonValue::Str(s)) => state_to_bool(s.as_str()),
        Some(JsonValue::Bool(b)) => *b,
        _ => {
            return Err(ProvisionError::DecodeError);
        },
    };
    let url = match j.get_str("url") {
        Some(s) => s.clone(),
        None => {
            return Err(ProvisionError::DecodeError);
        },
    };
    let alias = match get_opt_str(j, "alias") {
        Ok(o) => o,
        Err(e) => {
            return Err(e);
        },
    };
    let variant = match get_opt_str(j, "variant") {
        Ok(o) => o,
        Err(e) => {
            return Err(e);
        },
    };
    Ok(MinecraftProfileInfo { id, state, url, alias, variant })
}

/// Decodes an array of skin or cape records, exactly as
/// `spec_profile_infos` describes.
fn decode_profile_list(js: &Vec<JsonValue>) -> (r: Result<Vec<MinecraftProfileInfo>, ProvisionError>)
    ensures
        match r {
            Ok(ps) => spec_profile_infos(js@) == Some(
                Seq::new(ps@.len(), |i: int| ps@[i]@),
            ),
            Err(e) => e is DecodeError && spec_profile_infos(js@) is None,
        },
{
    let n = js.len();
    let mut ps: Vec<MinecraftProfileInfo> = Vec::new();
    let mut i: usize = 0;
    while i < n
        invariant
            n == js@.len(),
            i <= n,
            ps@.len() == i,
            forall|k: int|
                0 <= k < i ==> spec_profile_info(#[trigger] js@[k]) == Some(ps@[k]@),
        decreases n - i,
    {
        match decode_profile_info(&js[i]) {
            Ok(p) => ps.push(p),
            Err(e) => {
                return Err(e);
            },
        }
        i = i + 1;
    }
    proof {
        assert(Seq::new(js@.len(), |k: int| spec_profile_info(js@[k]).unwrap()) =~= Seq::new(
            ps@.len(),
            |i: int| ps@[i]@,
        ));
    }
    Ok(ps)
}

/// Decodes a token response, exactly as `spec_token_response` describes.
pub fn decode_token_response(j: &JsonValue) -> (r: Result<TokenResponse, ProvisionError>)
    ensures
        match r {
            Ok(t) => spec_token_response(*j) == Some(t@),
            Err(e) => e is DecodeError && spec_token_response(*j) is None,
        },
{
    let access_token = match j.get_str("access_token") {
        Some(s) => s.clone(),
        None => {
            return Err(ProvisionError::DecodeError);
        },
    };
    let expires_in = match get_opt_u64(j, "expires_in") {
        Ok(o) => o,
        Err(e) => {
            return Err(e);
        },
    };
    let refresh_token = match get_opt_str(j, "refresh_token") {
        Ok(o) => o,
        Err(e) => {
            return Err(e);
        },
    };
    let token_type = match get_opt_str(j, "token_type") {
        Ok(o) => o,
        Err(e) => {
            return Err(e);
        },
    };
    Ok(TokenResponse { access_token, expires_in, refresh_token, token_type })
}

/// Decodes an array of user-hash claims, exactly as `spec_xui_claims`
/// describes.
fn decode_xui_claims(js: &Vec<JsonValue>) -> (r: Result<Vec<XuiClaim>, ProvisionError>)
    ensures
        match r {
            Ok(cs) => spec_xui_claims(js@) == Some(Seq::new(cs@.len(), |i: int| cs@[i].uhs@)),
            Err(e) => e is DecodeError && spec_xui_claims(js@) is None,
        },
{
    let n = js.len();
    let mut cs: Vec<XuiClaim> = Vec::new();
    let mut i: usize = 0;
    while i < n
        invariant
            n == js@.len(),
            i <= n,
            cs@.len() == i,
            forall|k: int|
                0 <= k < i ==> spec_str_field(#[trigger] js@[k], "uhs"@) == Some(cs@[k].uhs@),
        decreases n - i,
    {
        match js[i].get_str("uhs") {
            Some(s) => cs.push(XuiClaim { uhs: s.clone() }),
            None => {
                return Err(ProvisionError::DecodeError);
            },
        }
        i = i + 1;
    }
    proof {
        assert(Seq::new(js@.len(), |k: int| spec_str_field(js@[k], "uhs"@).unwrap()) =~= Seq::new(
            cs@.len(),
            |i: int| cs@[i].uhs@,
        ));
    }
    Ok(cs)
}

/// Decodes the shared shape of the console-network and sandboxed token
/// responses into its parts.
fn decode_xbl_parts(j: &JsonValue) -> (r: Result<
    (String, String, String, Vec<XuiClaim>),
    ProvisionError,
>)
    ensures
        match r {
            Ok(parts) => spec_xbl_response(*j) == Some(
                XblModel {
                    issue_instant: parts.0@,
                    not_after: parts.1@,
                    token: parts.2@,
                    claims: Seq::new(parts.3@.len(), |i: int| parts.3@[i].uhs@),
                },
            ),
            Err(e) => e is DecodeError && spec_xbl_response(*j) is None,
        },
{
    let issue_instant = match j.get_str("IssueInstant") {
        Some(s) => s.clone(),
        None => {
            return Err(ProvisionError::DecodeError);
        },
    };
    let not_after = match j.get_str("NotAfter") {
        Some(s) => s.clone(),
        None => {
            return Err(ProvisionError::DecodeError);
        },
    };
    let token = match j.get_str("Token") {
        Some(s) => s.clone(),
        None => {
            return Err(ProvisionError::DecodeError);
        },
    };
    let dc = match j.get("DisplayClaims") {
        Some(d) => d,
        None => {
            return Err(ProvisionError::DecodeError);
        },
    };
    let xui = match dc.get("xui") {
        Some(JsonValue::Arr(xs)) => xs,
        _ => {
            return Err(ProvisionError::DecodeError);
        },
    };
    let claims = match decode_xui_claims(xui) {
        Ok(cs) => cs,
        Err(e) => {
            return Err(e);
        },
    };
    Ok((issue_instant, not_after, token, claims))
}

/// Decodes a console-network sign-in response, exactly as
/// `spec_xbl_response` describes.
pub fn decode_xbl_response(j: &JsonValue) -> (r: Result<XblAuthResponse, ProvisionError>)
    ensures
        match r {
            Ok(x) => spec_xbl_response(*j) == Some(x@),
            Err(e) => e is DecodeError && spec_xbl_response(*j) is None,
        },
{
    match decode_xbl_parts(j) {
        Ok((issue_instant, not_after, token, claims)) => Ok(
            XblAuthResponse {
                IssueInstant: issue_instant,
                NotAfter: not_after,
                Token: token,
                DisplayClaims: DisplayClaims { xui: claims },
            },
        ),
        Err(e) => Err(e),
    }
}

/// Decodes a sandboxed token response, exactly as `spec_xbl_response`
/// describes; the two responses share their shape.
pub fn decode_xsts_response(j: &JsonValue) -> (r: Result<XSTSResponse, ProvisionError>)
    ensures
        match r {
            Ok(x) => spec_xbl_response(*j) == Some(x@),
            Err(e) => e is DecodeError && spec_xbl_response(*j) is None,
        },
{
    match decode_xbl_parts(j) {
        Ok((issue_instant, not_after, token, claims)) => Ok(
            XSTSResponse {
                IssueInstant: issue_instant,
                NotAfter: not_after,
                Token: token,
                DisplayClaims: DisplayClaims { xui: claims },
            },
        ),
        Err(e) => Err(e),
    }
}

/// Decodes an array of role names.
fn decode_roles(js: &Vec<JsonValue>) -> (r: Result<Vec<String>, ProvisionError>)
    ensures
        match r {
            Ok(rs) => spec_roles(js@) == Some(Seq::new(rs@.len(), |i: int| rs@[i]@)),
            Err(e) => e is DecodeError && spec_roles(js@) is None,
        },
{
    let n = js.len();
    let mut rs: Vec<String> = Vec::new();
    let mut i: usize = 0;
    while i < n
        invariant
            n == js@.len(),
            i <= n,
            rs@.len() == i,
            forall|k: int|
                0 <= k < i ==> ((#[trigger] js@[k]) matches JsonValue::Str(_)) && js@[k]->Str_0@
                    == rs@[k]@,
        decreases n - i,
    {
        match &js[i] {
            JsonValue::Str(s) => rs.push(s.clone()),
            _ => {
                return Err(ProvisionError::DecodeError);
            },
        }
        i = i + 1;
    }
    proof {
        assert(Seq::new(js@.len(), |k: int| js@[k]->Str_0@) =~= Seq::new(
            rs@.len(),
            |i: int| rs@[i]@,
        ));
    }
    Ok(rs)
}

/// Decodes a game-services authentication response, exactly as
/// `spec_mc_auth` describes.
pub fn decode_mc_auth_response(j: &JsonValue) -> (r: Result<McAuthResponse, ProvisionError>)
    ensures
        match r {
            Ok(m) => spec_mc_auth(*j) == Some(m@),
            Err(e) => e is DecodeError && spec_mc_auth(*j) is None,
        },
{
    let username = match j.get_str("username") {
        Some(s) => s.clone(),
        None => {
            return Err(ProvisionError::DecodeError);
        },
    };
    let roles_json = match j.get("roles") {
        Some(JsonValue::Arr(rs)) => rs,
        _ => {
            return Err(ProvisionError::DecodeError);
        },
    };
    let roles = match decode_roles(roles_json) {
        Ok(rs) => rs,
        Err(e) => {
            return Err(e);
        },
    };
    let access_token = match j.get_str("access_token") {
        Some(s) => s.clone(),
        None => {
            return Err(ProvisionError::DecodeError);
        },
    };
    let token_type = match j.get_str("token_type") {
        Some(s) => s.clone(),
        None => {
            return Err(ProvisionError::DecodeError);
        },
    };
    let expires_in: i64 = match j.get("expires_in") {
        Some(JsonValue::UInt(u)) => if *u <= 0x7fff_ffff_ffff_ffff {
            *u as i64
        } else {
            return Err(ProvisionError::DecodeError);
        },
        Some(JsonValue::Int(v)) => *v,
        _ => {
            return Err(ProvisionError::DecodeError);
        },
    };
    Ok(McAuthResponse { username, roles, access_token, token_type, expires_in })
}

/// Decodes a profile response, exactly as `spec_profile_response`
/// describes.
pub fn decode_profile_response(j: &JsonValue) -> (r: Result<
    MinecraftProfileResponse,
    ProvisionError,
>)
    ensures
        match r {
            Ok(p) => spec_profile_response(*j) == Some(p@),
            Err(e) => e is DecodeError && spec_profile_response(*j) is None,
        },
{
    let id = match j.get_str("id") {
        Some(s) => s.clone(),
        None => {
            return Err(ProvisionError::DecodeError);
        },
    };
    let name = match j.get_str("name") {
        Some(s) => s.clone(),
        None => {
            return Err(ProvisionError::DecodeError);
        },
    };
    let skins_json = match j.get("skins") {
        Some(JsonValue::Arr(sk)) => sk,
        _ => {
            return Err(ProvisionError::DecodeError);
        },
    };
    let capes_json = match j.get("capes") {
        Some(JsonValue::Arr(cp)) => cp,
        _ => {
            return Err(ProvisionError::DecodeError);
        },
    };
    let skins = match decode_profile_list(skins_json) {
        Ok(ps) => ps,
        Err(e) => {
            return Err(e);
        },
    };
    let capes = match decode_profile_list(capes_json) {
        Ok(ps) => ps,
        Err(e) => {
            return Err(e);
        },
    };
    Ok(MinecraftProfileResponse { id, name, skins, capes })
}

/// The signed-in account a profile response and the token pair yield.
pub fn user_from_profile(profile: MinecraftProfileResponse, access_token: String, refresh_token: String) -> (u: User)
    ensures
        u.id@ == profile.id@,
        u.name@ == profile.name@,
        u.skins == profile.skins,
        u.capes == profile.capes,
        u.access_token@ == access_token@,
        u.refresh_token@ == refresh_token@,
{
    User {
        id: profile.id,
        name: profile.name,
        skins: profile.skins,
        capes: profile.capes,
        access_token,
        refresh_token,
    }
}

impl AuthTokenParameters {
    /// Builds the token request's form content: the caller's identity
    /// and code, the fixed scope, and the authorization-code grant.
    pub fn new(client_id: &str, redirect_url: &str, auth_code: String, code_verifier: String) -> (p:
        AuthTokenParameters)
        ensures
            p.client_id@ == client_id@,
            p.scope@ == "XboxLive.signin offline_access"@,
            p.code@ == auth_code@,
            p.redirect_uri@ == redirect_url@,
            p.grant_type@ == "authorization_code"@,
            p.code_verifier@ == code_verifier@,
    {
        AuthTokenParameters {
            client_id: client_id.to_owned(),
            scope: String::from_str("XboxLive.signin offline_access"),
            code: auth_code,
            redirect_uri: redirect_url.to_owned(),
            grant_type: String::from_str("authorization_code"),
            code_verifier,
        }
    }

    /// The six form pairs of the token request, in field order.
    pub fn form_pairs(&self) -> (r: Vec<(String, String)>)
        ensures
            r@.len() == 6,
            r@[0].0@ == "client_id"@ && r@[0].1@ == self.client_id@,
            r@[1].0@ == "scope"@ && r@[1].1@ == self.scope@,
            r@[2].0@ == "code"@ && r@[2].1@ == self.code@,
            r@[3].0@ == "redirect_uri"@ && r@[3].1@ == self.redirect_uri@,
            r@[4].0@ == "grant_type"@ && r@[4].1@ == self.grant_type@,
            r@[5].0@ == "code_verifier"@ && r@[5].1@ == self.code_verifier@,
    {
        let mut r: Vec<(String, String)> = Vec::new();
        r.push((String::from_str("client_id"), self.client_id.clone()));
        r.push((String::from_str("scope"), self.scope.clone()));
        r.push((String::from_str("code"), self.code.clone()));
        r.push((String::from_str("redirect_uri"), self.redirect_uri.clone()));
        r.push((String::from_str("grant_type"), self.grant_type.clone()));
        r.push((String::from_str("code_verifier"), self.code_verifier.clone()));
        r
    }
}

/// The ticket the console-network sign-in carries: the access token
/// behind a `d=` prefix.
pub fn rps_ticket_of(ms_access_token: &str) -> (r: String)
    ensures
        r@ == "d="@ + ms_access_token@,
{
    let mut r = String::from_str("d=");
    r.append(ms_access_token);
    r
}

impl XblAuthRequest {
    /// Builds a console-network sign-in request around a ticket: the
    /// fixed method, site and relying party, and a JSON web token.
    pub fn new(rps_ticket: String) -> (r: XblAuthRequest)
        ensures
            r.Properties.AuthMethod@ == "RPS"@,
            r.Properties.SiteName@ == "user.auth.xboxlive.com"@,
            r.Properties.RpsTicket@ == rps_ticket@,
            r.RelyingParty@ == "http://auth.xboxlive.com"@,
            r.TokenType@ == "JWT"@,
    {
        XblAuthRequest {
            Properties: XblProperties {
                AuthMethod: String::from_str("RPS"),
                SiteName: String::from_str("user.auth.xboxlive.com"),
                RpsTicket: rps_ticket,
            },
            RelyingParty: String::from_str("http://auth.xboxlive.com"),
            TokenType: String::from_str("JWT"),
        }
    }
}

impl XSTSTokRequest {
    /// Builds a sandboxed token request around one user token: the
    /// retail sandbox and the game services as relying party.
    pub fn new(xbl_token: String) -> (r: XSTSTokRequest)
        ensures
            r.Properties.SandboxId@ == "RETAIL"@,
            r.Properties.UserTokens@.len() == 1,
            r.Properties.UserTokens@[0]@ == xbl_token@,
            r.RelyingParty@ == "rp://api.minecraftservices.com/"@,
            r.TokenType@ == "JWT"@,
    {
        let mut tokens: Vec<String> = Vec::new();
        tokens.push(xbl_token);
        XSTSTokRequest {
            Properties: XSTSTokProperties {
                SandboxId: String::from_str("RETAIL"),
                UserTokens: tokens,
            },
            RelyingParty: String::from_str("rp://api.minecraftservices.com/"),
            TokenType: String::from_str("JWT"),
        }
    }
}

/// The body of the game-services sign-in: the user hash and the
/// sandboxed token, joined into the fixed identity-token document.
pub fn mc_auth_body(xbl_userhash: &str, xsts_token: &str) -> (r: String)
    ensures
        r@ == "{\"identityToken\": \"x="@ + xbl_userhash@ + ";"@ + xsts_token@ + "\"}"@,
{
    let mut r = String::from_str("{\"identityToken\": \"x=");
    r.append(xbl_userhash);
    r.append(";");
    r.append(xsts_token);
    r.append("\"}");
    proof {
        assert(r@ =~= "{\"identityToken\": \"x="@ + xbl_userhash@ + ";"@ + xsts_token@ + "\"}"@);
    }
    r
}

/// Parses token-response text and decodes it: exactly what
/// `spec_token_response` says of the document the text holds, and a
/// shape mismatch when and only when it holds none or a mismatched one.
pub fn parse_token_response(s: &str) -> (r: Result<TokenResponse, ProvisionError>)
    ensures
        match spec_parsed_json(s@) {
            Some(j) => match spec_token_response(j) {
                Some(model) => r matches Ok(t) && t@ == model,
                None => r matches Err(e) && e is DecodeError,
            },
            None => r matches Err(e) && e is DecodeError,
        },
{
    match parse_json(s) {
        Some(j) => decode_token_response(&j),
        None => Err(ProvisionError::DecodeError),
    }
}

/// Parses console-network sign-in response text and decodes it.
pub fn parse_xbl_response(s: &str) -> (r: Result<XblAuthResponse, ProvisionError>)
    ensures
        match spec_parsed_json(s@) {
            Some(j) => match spec_xbl_response(j) {
                Some(model) => r matches Ok(x) && x@ == model,
                None => r matches Err(e) && e is DecodeError,
            },
            None => r matches Err(e) && e is DecodeError,
        },
{
    match parse_json(s) {
        Some(j) => decode_xbl_response(&j),
        None => Err(ProvisionError::DecodeError),
    }
}

/// Parses sandboxed token response text and decodes it.
pub fn parse_xsts_response(s: &str) -> (r: Result<XSTSResponse, ProvisionError>)
    ensures
        match spec_parsed_json(s@) {
            Some(j) => match spec_xbl_response(j) {
                Some(model) => r matches Ok(x) && x@ == model,
                None => r matches Err(e) && e is DecodeError,
            },
            None => r matches Err(e) && e is DecodeError,
        },
{
    match parse_json(s) {
        Some(j) => decode_xsts_response(&j),
        None => Err(ProvisionError::DecodeError),
    }
}

/// Parses game-services authentication response text and decodes it.
pub fn parse_mc_auth_response(s: &str) -> (r: Result<McAuthResponse, ProvisionError>)
    ensures
        match spec_parsed_json(s@) {
            Some(j) => match spec_mc_auth(j) {
                Some(model) => r matches Ok(m) && m@ == model,
                None => r matches Err(e) && e is DecodeError,
            },
            None => r matches Err(e) && e is DecodeError,
        },
{
    match parse_json(s) {
        Some(j) => decode_mc_auth_response(&j),
        None => Err(ProvisionError::DecodeError),
    }
}

/// Parses profile response text and decodes it.
pub fn parse_profile_response(s: &str) -> (r: Result<MinecraftProfileResponse, ProvisionError>)
    ensures
        match spec_parsed_json(s@) {
            Some(j) => match spec_profile_response(j) {
                Some(model) => r matches Ok(p) && p@ == model,
                None => r matches Err(e) && e is DecodeError,
            },
            None => r matches Err(e) && e is DecodeError,
        },
{
    match parse_json(s) {
        Some(j) => decode_profile_response(&j),
        None => Err(ProvisionError::DecodeError),
    }
}

} // verus!
