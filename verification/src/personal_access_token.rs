//! Personal access tokens: telling them apart, and asking the auth service whose they are.
use vstd::prelude::*;
use vstd::string::*;

use crate::authapi::{authapi_base_url, chosen_base_url, law_base_url_is_bare};
use crate::text::{
    law_trim_end_char, law_trim_end_char_keeps_the_rest, starts_with, trim_end_char,
    trim_end_matches,
};

verus! {

/// What a personal access token begins with.
pub const PERSONAL_ACCESS_TOKEN_PREFIX: &'static str = "at-";

/// Where, below its base URL, the auth service tells whose a token is.
pub const WHOAMI_PATH: &'static str = "/v1/user-auth-credential/whoami";

/// What the auth service tells about a token.
#[derive(Debug, PartialEq, Eq)]
pub struct PersonalAccessTokenMetadata {
    pub email: Option<String>,
    pub chatgpt_user_id: String,
    pub chatgpt_account_id: String,
    pub chatgpt_plan_type: String,
    pub chatgpt_account_is_fedramp: bool,
}

/// What a [`PersonalAccessTokenMetadata`] holds.
#[verifier::ext_equal]
pub struct MetadataView {
    pub email: Option<Seq<char>>,
    pub chatgpt_user_id: Seq<char>,
    pub chatgpt_account_id: Seq<char>,
    pub chatgpt_plan_type: Seq<char>,
    pub chatgpt_account_is_fedramp: bool,
}

impl View for PersonalAccessTokenMetadata {
    type V = MetadataView;

    open spec fn view(&self) -> MetadataView {
        MetadataView {
            email: self.email.deep_view(),
            chatgpt_user_id: self.chatgpt_user_id@,
            chatgpt_account_id: self.chatgpt_account_id@,
            chatgpt_plan_type: self.chatgpt_plan_type@,
            chatgpt_account_is_fedramp: self.chatgpt_account_is_fedramp,
        }
    }
}

impl Clone for PersonalAccessTokenMetadata {
    fn clone(&self) -> (copy: Self)
        ensures
            copy@ == self@,
    {
        PersonalAccessTokenMetadata {
            email: match &self.email {
                Some(email) => Some(email.clone()),
                None => None,
            },
            chatgpt_user_id: self.chatgpt_user_id.clone(),
            chatgpt_account_id: self.chatgpt_account_id.clone(),
            chatgpt_plan_type: self.chatgpt_plan_type.clone(),
            chatgpt_account_is_fedramp: self.chatgpt_account_is_fedramp,
        }
    }
}

/// A personal access token together with what the auth service tells about it.
#[derive(PartialEq, Eq)]
pub struct PersonalAccessTokenAuth {
    access_token: String,
    metadata: PersonalAccessTokenMetadata,
}

/// What a [`PersonalAccessTokenAuth`] holds.
#[verifier::ext_equal]
pub struct AuthView {
    pub access_token: Seq<char>,
    pub metadata: MetadataView,
}

impl View for PersonalAccessTokenAuth {
    type V = AuthView;

    closed spec fn view(&self) -> AuthView {
        AuthView { access_token: self.access_token@, metadata: self.metadata@ }
    }
}

impl Clone for PersonalAccessTokenAuth {
    fn clone(&self) -> (copy: Self)
        ensures
            copy@ == self@,
    {
        PersonalAccessTokenAuth {
            access_token: self.access_token.clone(),
            metadata: self.metadata.clone(),
        }
    }
}

/// What `{:?}` prints of a string.
pub uninterp spec fn debug_text(s: Seq<char>) -> Seq<char>;

/// `<str as std::fmt::Debug>::fmt`, through `format!`: prints the string quoted and escaped, as
/// [`debug_text`] names it.
#[verifier::external_body]
fn debug_str(s: &str) -> (printed: String)
    ensures
        printed@ == debug_text(s@),
{
    format!("{s:?}")
}

/// What is printed of a token and its metadata, given the strings of the metadata as they are
/// printed: the token itself is left out.
pub open spec fn printed_auth(
    email: Option<Seq<char>>,
    chatgpt_user_id: Seq<char>,
    chatgpt_account_id: Seq<char>,
    chatgpt_plan_type: Seq<char>,
    chatgpt_account_is_fedramp: bool,
) -> Seq<char> {
    "PersonalAccessTokenAuth { access_token: \"<redacted>\", metadata: "@
        + "PersonalAccessTokenMetadata { email: "@ + (match email {
        Some(email) => "Some("@ + email + ")"@,
        None => "None"@,
    }) + ", chatgpt_user_id: "@ + chatgpt_user_id + ", chatgpt_account_id: "@ + chatgpt_account_id
        + ", chatgpt_plan_type: "@ + chatgpt_plan_type + ", chatgpt_account_is_fedramp: "@ + (
    if chatgpt_account_is_fedramp {
        "true"@
    } else {
        "false"@
    }) + " }"@ + " }"@
}

/// Puts together what is printed of a token and its metadata, from the strings of the metadata as
/// they are printed.
pub fn print_auth(
    email: Option<&str>,
    chatgpt_user_id: &str,
    chatgpt_account_id: &str,
    chatgpt_plan_type: &str,
    chatgpt_account_is_fedramp: bool,
) -> (printed: String)
    ensures
        printed@ == printed_auth(
            email.deep_view(),
            chatgpt_user_id@,
            chatgpt_account_id@,
            chatgpt_plan_type@,
            chatgpt_account_is_fedramp,
        ),
{
    let email = match email {
        Some(email) => "Some(".to_owned().concat(email).concat(")"),
        None => "None".to_owned(),
    };
    let is_fedramp = if chatgpt_account_is_fedramp {
        "true"
    } else {
        "false"
    };
    "PersonalAccessTokenAuth { access_token: \"<redacted>\", metadata: ".to_owned().concat(
        "PersonalAccessTokenMetadata { email: ",
    ).concat(email.as_str()).concat(", chatgpt_user_id: ").concat(chatgpt_user_id).concat(
        ", chatgpt_account_id: ",
    ).concat(chatgpt_account_id).concat(", chatgpt_plan_type: ").concat(chatgpt_plan_type).concat(
        ", chatgpt_account_is_fedramp: ",
    ).concat(is_fedramp).concat(" }").concat(" }")
}

impl AuthView {
    /// What `{:?}` prints: the token itself is left out.
    pub open spec fn debug(self) -> Seq<char> {
        printed_auth(
            match self.metadata.email {
                Some(email) => Some(debug_text(email)),
                None => None,
            },
            debug_text(self.metadata.chatgpt_user_id),
            debug_text(self.metadata.chatgpt_account_id),
            debug_text(self.metadata.chatgpt_plan_type),
            self.metadata.chatgpt_account_is_fedramp,
        )
    }
}

impl PersonalAccessTokenAuth {
    /// Begins to load the metadata of `access_token` from the auth service that the values of the
    /// two environment variables name (see [`authapi_base_url`]).
    pub fn load(
        access_token: &str,
        current: Option<String>,
        legacy: Option<String>,
    ) -> (hydration: Hydration)
        ensures
            hydration@ == hydration_start(
                chosen_base_url(current.deep_view(), legacy.deep_view()),
                access_token@,
            ),
    {
        let base_url = authapi_base_url(current, legacy);
        hydrate_personal_access_token(base_url.as_str(), access_token)
    }

    /// The token.
    pub fn access_token(&self) -> (access_token: &str)
        ensures
            access_token@ == self@.access_token,
    {
        self.access_token.as_str()
    }

    /// The account that the token is for.
    pub fn account_id(&self) -> (account_id: &str)
        ensures
            account_id@ == self@.metadata.chatgpt_account_id,
    {
        self.metadata.chatgpt_account_id.as_str()
    }

    /// The user that the token is for.
    pub fn chatgpt_user_id(&self) -> (user_id: &str)
        ensures
            user_id@ == self@.metadata.chatgpt_user_id,
    {
        self.metadata.chatgpt_user_id.as_str()
    }

    /// The user's email address, where the auth service gave one.
    pub fn email(&self) -> (email: Option<&str>)
        ensures
            email.deep_view() == self@.metadata.email,
    {
        match &self.metadata.email {
            Some(email) => Some(email.as_str()),
            None => None,
        }
    }

    /// The account's plan, as the auth service wrote it.
    pub fn raw_plan_type(&self) -> (plan_type: &str)
        ensures
            plan_type@ == self@.metadata.chatgpt_plan_type,
    {
        self.metadata.chatgpt_plan_type.as_str()
    }

    /// Tells whether the account is a FedRAMP account.
    pub fn is_fedramp_account(&self) -> (b: bool)
        ensures
            b == self@.metadata.chatgpt_account_is_fedramp,
    {
        self.metadata.chatgpt_account_is_fedramp
    }

    /// The token and its metadata for a log: the token itself is left out.
    pub fn debug_string(&self) -> (printed: String)
        ensures
            printed@ == self@.debug(),
    {
        let email = match &self.metadata.email {
            Some(email) => Some(debug_str(email.as_str())),
            None => None,
        };
        print_auth(
            match &email {
                Some(email) => Some(email.as_str()),
                None => None,
            },
            debug_str(self.metadata.chatgpt_user_id.as_str()).as_str(),
            debug_str(self.metadata.chatgpt_account_id.as_str()).as_str(),
            debug_str(self.metadata.chatgpt_plan_type.as_str()).as_str(),
            self.metadata.chatgpt_account_is_fedramp,
        )
    }
}

/// The kinds of access token, each with the token.
#[derive(Clone, Copy, Debug, PartialEq, Eq)]
pub enum CodexAccessToken<'a> {
    PersonalAccessToken(&'a str),
    AgentIdentityJwt(&'a str),
}

/// Tells the kind of an access token by what it begins with.
pub fn classify_codex_access_token(access_token: &str) -> (kind: CodexAccessToken<'_>)
    ensures
        match kind {
            CodexAccessToken::PersonalAccessToken(token) => token@ == access_token@
                && "at-"@.is_prefix_of(access_token@),
            CodexAccessToken::AgentIdentityJwt(token) => token@ == access_token@
                && !"at-"@.is_prefix_of(access_token@),
        },
{
    if starts_with(access_token, PERSONAL_ACCESS_TOKEN_PREFIX) {
        CodexAccessToken::PersonalAccessToken(access_token)
    } else {
        CodexAccessToken::AgentIdentityJwt(access_token)
    }
}

/// The status of a response: its code, and the code as it is shown to people.
#[derive(Debug, PartialEq, Eq)]
pub struct HttpStatus {
    pub code: u16,
    pub display: String,
}

/// What an [`HttpStatus`] holds.
#[verifier::ext_equal]
pub struct HttpStatusView {
    pub code: u16,
    pub display: Seq<char>,
}

impl View for HttpStatus {
    type V = HttpStatusView;

    open spec fn view(&self) -> HttpStatusView {
        HttpStatusView { code: self.code, display: self.display@ }
    }
}

impl HttpStatusView {
    /// The request succeeded.
    pub open spec fn is_success(self) -> bool {
        200 <= self.code < 300
    }
}

/// How far the loading of a token's metadata has come, and what it waits for.
#[derive(PartialEq, Eq)]
pub enum Hydration {
    /// `endpoint` is to be fetched, with `access_token` as the bearer token.
    Request { endpoint: String, access_token: String },
    /// The body of the response is to be decoded.
    Decode { access_token: String },
    /// The token and its metadata, or why they could not be loaded.
    Finished { outcome: Result<PersonalAccessTokenAuth, String> },
}

/// What comes back for what a [`Hydration`] waits for; errors come as their message.
#[derive(Debug, PartialEq, Eq)]
pub enum HydrationReply {
    Responded(Result<HttpStatus, String>),
    Decoded(Result<PersonalAccessTokenMetadata, String>),
}

/// What a [`Hydration`] holds.
pub enum HydrationView {
    Request { endpoint: Seq<char>, access_token: Seq<char> },
    Decode { access_token: Seq<char> },
    Finished { outcome: Result<AuthView, Seq<char>> },
}

/// What a [`HydrationReply`] holds.
pub enum HydrationReplyView {
    Responded(Result<HttpStatusView, Seq<char>>),
    Decoded(Result<MetadataView, Seq<char>>),
}

impl View for Hydration {
    type V = HydrationView;

    open spec fn view(&self) -> HydrationView {
        match self {
            Hydration::Request { endpoint, access_token } => HydrationView::Request {
                endpoint: endpoint@,
                access_token: access_token@,
            },
            Hydration::Decode { access_token } => HydrationView::Decode {
                access_token: access_token@,
            },
            Hydration::Finished { outcome: Ok(auth) } => HydrationView::Finished {
                outcome: Ok(auth@),
            },
            Hydration::Finished { outcome: Err(message) } => HydrationView::Finished {
                outcome: Err(message@),
            },
        }
    }
}

impl View for HydrationReply {
    type V = HydrationReplyView;

    open spec fn view(&self) -> HydrationReplyView {
        match self {
            HydrationReply::Responded(Ok(status)) => HydrationReplyView::Responded(Ok(status@)),
            HydrationReply::Responded(Err(message)) => HydrationReplyView::Responded(Err(message@)),
            HydrationReply::Decoded(Ok(metadata)) => HydrationReplyView::Decoded(Ok(metadata@)),
            HydrationReply::Decoded(Err(message)) => HydrationReplyView::Decoded(Err(message@)),
        }
    }
}

/// The URL at which the auth service tells whose a token is.
pub open spec fn whoami_endpoint(authapi_base_url: Seq<char>) -> Seq<char> {
    trim_end_char(authapi_base_url, '/') + WHOAMI_PATH@
}

/// The loading of a token's metadata begins with the request.
pub open spec fn hydration_start(
    authapi_base_url: Seq<char>,
    access_token: Seq<char>,
) -> HydrationView {
    HydrationView::Request { endpoint: whoami_endpoint(authapi_base_url), access_token }
}

impl HydrationView {
    /// Where the loading goes from here on `reply`. A reply that nothing waits for changes nothing.
    pub open spec fn after(self, reply: HydrationReplyView) -> HydrationView {
        match (self, reply) {
            (HydrationView::Request { access_token, .. }, HydrationReplyView::Responded(responded))
            => match responded {
                Err(message) => HydrationView::Finished {
                    outcome: Err("failed to request personal access token metadata: "@ + message),
                },
                Ok(status) => if status.is_success() {
                    HydrationView::Decode { access_token }
                } else {
                    HydrationView::Finished {
                        outcome: Err(
                            "personal access token metadata request failed with status "@
                                + status.display,
                        ),
                    }
                },
            },
            (HydrationView::Decode { access_token }, HydrationReplyView::Decoded(decoded)) => {
                HydrationView::Finished {
                    outcome: match decoded {
                        Err(message) => Err(
                            "failed to decode personal access token metadata: "@ + message,
                        ),
                        Ok(metadata) => Ok(AuthView { access_token, metadata }),
                    },
                }
            },
            _ => self,
        }
    }
}

/// Begins to load the metadata of `access_token` from the auth service at `authapi_base_url`.
pub fn hydrate_personal_access_token(authapi_base_url: &str, access_token: &str) -> (hydration:
    Hydration)
    ensures
        hydration@ == hydration_start(authapi_base_url@, access_token@),
{
    Hydration::Request {
        endpoint: trim_end_matches(authapi_base_url, '/').to_owned().concat(WHOAMI_PATH),
        access_token: access_token.to_owned(),
    }
}

impl Hydration {
    /// Goes on with what came back.
    pub fn step(self, reply: HydrationReply) -> (next: Hydration)
        ensures
            next@ == self@.after(reply@),
    {
        match (self, reply) {
            (Hydration::Request { access_token, .. }, HydrationReply::Responded(responded)) => {
                match responded {
                    Err(message) => Hydration::Finished {
                        outcome: Err(
                            "failed to request personal access token metadata: ".to_owned().concat(
                                message.as_str(),
                            ),
                        ),
                    },
                    Ok(status) => if 200 <= status.code && status.code < 300 {
                        Hydration::Decode { access_token }
                    } else {
                        Hydration::Finished {
                            outcome: Err(
                                "personal access token metadata request failed with status "
                                .to_owned().concat(status.display.as_str()),
                            ),
                        }
                    },
                }
            },
            (Hydration::Decode { access_token }, HydrationReply::Decoded(decoded)) => {
                match decoded {
                    Err(message) => Hydration::Finished {
                        outcome: Err(
                            "failed to decode personal access token metadata: ".to_owned().concat(
                                message.as_str(),
                            ),
                        ),
                    },
                    Ok(metadata) => Hydration::Finished {
                        outcome: Ok(PersonalAccessTokenAuth { access_token, metadata }),
                    },
                }
            },
            (this, _) => this,
        }
    }
}

/// The token and its metadata, or the message of the first thing that failed.
pub open spec fn hydration_outcome(
    access_token: Seq<char>,
    responded: Result<HttpStatusView, Seq<char>>,
    decoded: Result<MetadataView, Seq<char>>,
) -> Result<AuthView, Seq<char>> {
    if responded is Err {
        Err("failed to request personal access token metadata: "@ + responded->Err_0)
    } else if !responded->Ok_0.is_success() {
        Err(
            "personal access token metadata request failed with status "@
                + responded->Ok_0.display,
        )
    } else if decoded is Err {
        Err("failed to decode personal access token metadata: "@ + decoded->Err_0)
    } else {
        Ok(AuthView { access_token, metadata: decoded->Ok_0 })
    }
}

/// Once the auth service has responded and the body was decoded, the loading is over. It succeeds
/// exactly where the request did and the metadata was understood, and then holds the token that
/// was asked about and the metadata as it came, a missing email address included.
pub proof fn law_hydration(
    authapi_base_url: Seq<char>,
    access_token: Seq<char>,
    responded: Result<HttpStatusView, Seq<char>>,
    decoded: Result<MetadataView, Seq<char>>,
)
    ensures
        hydration_start(authapi_base_url, access_token).after(
            HydrationReplyView::Responded(responded),
        ).after(HydrationReplyView::Decoded(decoded)) == (HydrationView::Finished {
            outcome: hydration_outcome(access_token, responded, decoded),
        }),
{
}

/// A response that does not tell of success ends the loading; its body is not decoded.
pub proof fn law_a_failed_request_is_final(
    authapi_base_url: Seq<char>,
    access_token: Seq<char>,
    responded: Result<HttpStatusView, Seq<char>>,
    reply: HydrationReplyView,
)
    requires
        responded is Ok ==> !responded->Ok_0.is_success(),
    ensures
        ({
            let failed = hydration_start(authapi_base_url, access_token).after(
                HydrationReplyView::Responded(responded),
            );
            failed is Finished && failed->outcome is Err && failed.after(reply) == failed
        }),
{
}

/// Slashes at the end of the base URL make no difference to where the auth service is asked.
pub proof fn law_endpoint_ignores_trailing_slashes(authapi_base_url: Seq<char>)
    ensures
        whoami_endpoint(authapi_base_url.push('/')) == whoami_endpoint(authapi_base_url),
        whoami_endpoint(trim_end_char(authapi_base_url, '/')) == whoami_endpoint(authapi_base_url),
{
    assert(authapi_base_url.push('/').drop_last() =~= authapi_base_url);
    law_trim_end_char(authapi_base_url, '/');
}

/// The auth service is asked right below the base URL that the environment names.
pub proof fn law_endpoint_below_chosen_base_url(
    current: Option<Seq<char>>,
    legacy: Option<Seq<char>>,
)
    ensures
        whoami_endpoint(chosen_base_url(current, legacy)) == chosen_base_url(current, legacy)
            + WHOAMI_PATH@,
{
    law_base_url_is_bare(current, legacy);
}

/// What is printed of a token and its metadata does not depend on the token.
pub proof fn law_the_token_is_not_printed(auth: AuthView, other: AuthView)
    requires
        auth.metadata == other.metadata,
    ensures
        auth.debug() == other.debug(),
{
}

/// The auth service is asked about the very token that was given, at the whoami path right below
/// the base URL, whatever slashes the base URL ends with.
pub proof fn law_the_request_is_for_the_token(
    base_url: Seq<char>,
    slashes: Seq<char>,
    access_token: Seq<char>,
)
    requires
        base_url.len() > 0 ==> base_url.last() != '/',
        forall|i: int| 0 <= i < slashes.len() ==> #[trigger] slashes[i] == '/',
    ensures
        hydration_start(base_url + slashes, access_token) == (HydrationView::Request {
            endpoint: base_url + "/v1/user-auth-credential/whoami"@,
            access_token,
        }),
{
    law_trim_end_char_keeps_the_rest(base_url, slashes, '/');
}

/// The body of a response is decoded exactly where the status is one of the 200s; what comes out is
/// the token that was asked about with the metadata that was decoded, all of it and nothing else.
pub proof fn law_the_decoded_metadata_is_kept(
    endpoint: Seq<char>,
    access_token: Seq<char>,
    status: HttpStatusView,
    metadata: MetadataView,
)
    ensures
        ({
            let responded = (HydrationView::Request { endpoint, access_token }).after(
                HydrationReplyView::Responded(Ok(status)),
            );
            let decoded = responded.after(HydrationReplyView::Decoded(Ok(metadata)));
            &&& responded is Decode <==> 200 <= status.code && status.code <= 299
            &&& responded is Decode ==> decoded is Finished && decoded->outcome is Ok
            &&& decoded is Finished && decoded->outcome is Ok ==> responded is Decode && {
                let auth = decoded->outcome->Ok_0;
                &&& auth.access_token == access_token
                &&& auth.metadata == metadata
            }
        }),
{
}

/// Each failure is told by its own sentence, which ends with the whole message of what failed.
pub proof fn law_failures_are_told(
    endpoint: Seq<char>,
    access_token: Seq<char>,
    status: HttpStatusView,
    message: Seq<char>,
)
    requires
        !(200 <= status.code && status.code <= 299),
    ensures
        ({
            let request = HydrationView::Request { endpoint, access_token };
            let decode = HydrationView::Decode { access_token };
            &&& request.after(HydrationReplyView::Responded(Err(message))) == (
            HydrationView::Finished {
                outcome: Err("failed to request personal access token metadata: "@ + message),
            })
            &&& request.after(HydrationReplyView::Responded(Ok(status))) == (
            HydrationView::Finished {
                outcome: Err(
                    "personal access token metadata request failed with status "@ + status.display,
                ),
            })
            &&& decode.after(HydrationReplyView::Decoded(Err(message))) == (
            HydrationView::Finished {
                outcome: Err("failed to decode personal access token metadata: "@ + message),
            })
        }),
{
}

/// A reply out of turn changes nothing, and neither does any reply once the loading is over.
pub proof fn law_replies_out_of_turn_change_nothing(
    hydration: HydrationView,
    reply: HydrationReplyView,
)
    ensures
        hydration is Request && reply is Decoded ==> hydration.after(reply) == hydration,
        hydration is Decode && reply is Responded ==> hydration.after(reply) == hydration,
        hydration is Finished ==> hydration.after(reply) == hydration,
{
}

/// What is printed shows every part of the metadata whole, each behind its name, and nothing in the
/// place of the token.
pub proof fn law_all_metadata_is_printed(
    email: Seq<char>,
    user_id: Seq<char>,
    account_id: Seq<char>,
    plan_type: Seq<char>,
)
    ensures
        ({
            let head = "PersonalAccessTokenAuth { access_token: \"<redacted>\", metadata: "@
                + "PersonalAccessTokenMetadata { email: "@;
            let rest = ", chatgpt_user_id: "@ + user_id + ", chatgpt_account_id: "@ + account_id
                + ", chatgpt_plan_type: "@ + plan_type + ", chatgpt_account_is_fedramp: "@;
            &&& printed_auth(Some(email), user_id, account_id, plan_type, true) == head + (
            "Some("@ + email + ")"@) + rest + "true"@ + " }"@ + " }"@
            &&& printed_auth(Some(email), user_id, account_id, plan_type, false) == head + (
            "Some("@ + email + ")"@) + rest + "false"@ + " }"@ + " }"@
            &&& printed_auth(None, user_id, account_id, plan_type, true) == head + "None"@ + rest
                + "true"@ + " }"@ + " }"@
            &&& printed_auth(None, user_id, account_id, plan_type, false) == head + "None"@ + rest
                + "false"@ + " }"@ + " }"@
        }),
{
    let rest = ", chatgpt_user_id: "@ + user_id + ", chatgpt_account_id: "@ + account_id
        + ", chatgpt_plan_type: "@ + plan_type + ", chatgpt_account_is_fedramp: "@;
    assert forall|x: Seq<char>| #[trigger]
        (x + rest) == x + ", chatgpt_user_id: "@ + user_id + ", chatgpt_account_id: "@ + account_id
            + ", chatgpt_plan_type: "@ + plan_type + ", chatgpt_account_is_fedramp: "@ by {
        assert(x + rest =~= x + ", chatgpt_user_id: "@ + user_id + ", chatgpt_account_id: "@
            + account_id + ", chatgpt_plan_type: "@ + plan_type
            + ", chatgpt_account_is_fedramp: "@);
    }
}

/// Each part is printed as `{:?}` prints it, in its own place.
pub proof fn law_debug_prints_the_metadata(auth: AuthView)
    ensures
        auth.metadata.email matches Some(email) ==> auth.debug() == printed_auth(
            Some(debug_text(email)),
            debug_text(auth.metadata.chatgpt_user_id),
            debug_text(auth.metadata.chatgpt_account_id),
            debug_text(auth.metadata.chatgpt_plan_type),
            auth.metadata.chatgpt_account_is_fedramp,
        ),
        auth.metadata.email is None ==> auth.debug() == printed_auth(
            None,
            debug_text(auth.metadata.chatgpt_user_id),
            debug_text(auth.metadata.chatgpt_account_id),
            debug_text(auth.metadata.chatgpt_plan_type),
            auth.metadata.chatgpt_account_is_fedramp,
        ),
{
}

} // verus!
