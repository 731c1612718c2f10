//! Verified core of a DRACOON client: the OAuth2 session, the chunked
//! (optionally end-to-end encrypted) upload protocol and its completion poller.
//!
//! The library decides and the caller performs: it builds every request,
//! checks every answer and keeps the session's and the upload's state, while
//! the caller sends the requests, reads the file and sleeps between polls.
use vstd::prelude::*;

pub mod auth;
pub mod crypto;
pub mod errors;
pub mod retry;
pub mod upload;
pub mod urls;

pub use auth::{
    Connected, Connection, Disconnected, DracoonClient, DracoonClientBuilder, OAuth2Flow,
    OAuth2TokenResponse, RetryConfig, TokenAnswer, TokenRequest,
};
pub use errors::DracoonClientError;

use auth::{built_client, build_error, empty_builder, BuilderView, ClientView, SessionState};
use crypto::decrypt_user_keypair;
use dco3_crypto::{PlainUserKeyPairContainer, UserKeyPairContainer};

verus! {

/// What a [Dracoon] holds, as values.
pub struct DracoonView {
    pub client: ClientView,
    pub has_keypair: bool,
    pub encryption_secret: Option<Seq<char>>,
}

/// A DRACOON session together with the user's key pair, once unlocked.
pub struct Dracoon<State = Disconnected> {
    client: DracoonClient<State>,
    keypair: Option<PlainUserKeyPairContainer>,
    encryption_secret: Option<String>,
}

impl<State> View for Dracoon<State> {
    type V = DracoonView;

    closed spec fn view(&self) -> DracoonView {
        DracoonView {
            client: self.client@,
            has_keypair: self.keypair is Some,
            encryption_secret: urls::opt_text(self.encryption_secret),
        }
    }
}

impl<State: SessionState> Dracoon<State> {
    pub closed spec fn wf(&self) -> bool {
        self.client.wf()
    }

    /// Whether a passphrase waits to unlock the key pair.
    pub fn has_encryption_secret(&self) -> (r: bool)
        ensures
            r == self@.encryption_secret is Some,
    {
        self.encryption_secret.is_some()
    }

    /// The session underneath.
    pub fn client(&self) -> (r: &DracoonClient<State>)
        ensures
            r@ == self@.client,
            self.wf() ==> r.wf(),
    {
        &self.client
    }

    /// The URL of an API path, resolved against the base URL.
    pub fn build_api_url(&self, url_part: &str) -> (r: Result<String, DracoonClientError>)
        ensures
            r is Ok <==> urls::joined_url(self@.client.base_url, url_part@) is Some,
            r is Ok ==> r->Ok_0@ == urls::joined_url(self@.client.base_url, url_part@).unwrap(),
            r is Err ==> r->Err_0 == DracoonClientError::InvalidUrl,
    {
        self.client.build_api_url(url_part)
    }

    /// The base URL of the DRACOON instance.
    pub fn get_base_url(&self) -> (r: &str)
        ensures
            r@ == self@.client.base_url,
    {
        self.client.get_base_url()
    }
}

/// What a [DracoonBuilder] holds, as values.
pub struct DracoonBuilderView {
    pub client: BuilderView,
    pub encryption_secret: Option<Seq<char>>,
}

/// Builder for [Dracoon]: a base URL, client id and client secret are
/// required; the rest is optional.
pub struct DracoonBuilder {
    client_builder: DracoonClientBuilder,
    encryption_secret: Option<String>,
}

impl View for DracoonBuilder {
    type V = DracoonBuilderView;

    closed spec fn view(&self) -> DracoonBuilderView {
        DracoonBuilderView {
            client: self.client_builder@,
            encryption_secret: urls::opt_text(self.encryption_secret),
        }
    }
}

impl DracoonBuilder {
    /// A builder with nothing set.
    pub fn new() -> (r: Self)
        ensures
            r@.client == empty_builder(),
            r@.encryption_secret is None,
    {
        DracoonBuilder { client_builder: DracoonClientBuilder::new(), encryption_secret: None }
    }

    /// Sets the passphrase that unlocks the user's key pair on connect.
    pub fn with_encryption_password(self, encryption_secret: &str) -> (r: Self)
        ensures
            r@ == (DracoonBuilderView { encryption_secret: Some(encryption_secret@), ..self@ }),
    {
        DracoonBuilder { encryption_secret: Some(encryption_secret.to_string()), ..self }
    }

    /// Sets the base URL of the DRACOON instance.
    pub fn with_base_url(self, base_url: &str) -> (r: Self)
        ensures
            r@ == (DracoonBuilderView {
                client: BuilderView { base_url: Some(base_url@), ..self@.client },
                ..self@
            }),
    {
        DracoonBuilder {
            client_builder: self.client_builder.with_base_url(base_url),
            encryption_secret: self.encryption_secret,
        }
    }

    /// Sets the OAuth2 client id.
    pub fn with_client_id(self, client_id: &str) -> (r: Self)
        ensures
            r@ == (DracoonBuilderView {
                client: BuilderView { client_id: Some(client_id@), ..self@.client },
                ..self@
            }),
    {
        DracoonBuilder {
            client_builder: self.client_builder.with_client_id(client_id),
            encryption_secret: self.encryption_secret,
        }
    }

    /// Sets the OAuth2 client secret.
    pub fn with_client_secret(self, client_secret: &str) -> (r: Self)
        ensures
            r@ == (DracoonBuilderView {
                client: BuilderView { client_secret: Some(client_secret@), ..self@.client },
                ..self@
            }),
    {
        DracoonBuilder {
            client_builder: self.client_builder.with_client_secret(client_secret),
            encryption_secret: self.encryption_secret,
        }
    }

    /// Sets the redirect URI of the authorization code flow.
    pub fn with_redirect_uri(self, redirect_uri: &str) -> (r: Self)
        ensures
            r@ == (DracoonBuilderView {
                client: BuilderView { redirect_uri: Some(redirect_uri@), ..self@.client },
                ..self@
            }),
    {
        DracoonBuilder {
            client_builder: self.client_builder.with_redirect_uri(redirect_uri),
            encryption_secret: self.encryption_secret,
        }
    }

    /// Sets the user agent sent with every request.
    pub fn with_user_agent(self, user_agent: &str) -> (r: Self)
        ensures
            r@ == (DracoonBuilderView {
                client: BuilderView { user_agent: Some(user_agent@), ..self@.client },
                ..self@
            }),
    {
        DracoonBuilder {
            client_builder: self.client_builder.with_user_agent(user_agent),
            encryption_secret: self.encryption_secret,
        }
    }

    /// Sets how often a request is retried.
    pub fn with_max_retries(self, max_retries: u32) -> (r: Self)
        ensures
            r@ == (DracoonBuilderView {
                client: BuilderView { max_retries: Some(max_retries), ..self@.client },
                ..self@
            }),
    {
        DracoonBuilder {
            client_builder: self.client_builder.with_max_retries(max_retries),
            encryption_secret: self.encryption_secret,
        }
    }

    /// Sets the shortest delay between retries, in milliseconds.
    pub fn with_min_retry_delay(self, min_retry_delay: u64) -> (r: Self)
        ensures
            r@ == (DracoonBuilderView {
                client: BuilderView { min_retry_delay: Some(min_retry_delay), ..self@.client },
                ..self@
            }),
    {
        DracoonBuilder {
            client_builder: self.client_builder.with_min_retry_delay(min_retry_delay),
            encryption_secret: self.encryption_secret,
        }
    }

    /// Sets the longest delay between retries, in milliseconds.
    pub fn with_max_retry_delay(self, max_retry_delay: u64) -> (r: Self)
        ensures
            r@ == (DracoonBuilderView {
                client: BuilderView { max_retry_delay: Some(max_retry_delay), ..self@.client },
                ..self@
            }),
    {
        DracoonBuilder {
            client_builder: self.client_builder.with_max_retry_delay(max_retry_delay),
            encryption_secret: self.encryption_secret,
        }
    }

    /// Checks the configuration (see [DracoonClientBuilder::build]) and gives
    /// a disconnected session that keeps the passphrase for the connect.
    pub fn build(self) -> (r: Result<Dracoon<Disconnected>, DracoonClientError>)
        ensures
            r is Err <==> build_error(self@.client) is Some,
            r is Err ==> r->Err_0 == build_error(self@.client).unwrap(),
            r is Ok ==> r->Ok_0@ == (DracoonView {
                client: built_client(self@.client),
                has_keypair: false,
                encryption_secret: self@.encryption_secret,
            }),
            r is Ok ==> r->Ok_0.wf(),
    {
        match self.client_builder.build() {
            Ok(client) => Ok(Dracoon { client, keypair: None, encryption_secret: self.encryption_secret }),
            Err(e) => Err(e),
        }
    }
}

impl Dracoon<Disconnected> {
    /// A builder for a session.
    pub fn builder() -> (r: DracoonBuilder)
        ensures
            r@.client == empty_builder(),
            r@.encryption_secret is None,
    {
        DracoonBuilder::new()
    }

    /// The URL that starts the authorization code flow in a browser.
    pub fn get_authorize_url(&mut self) -> (r: Result<String, DracoonClientError>)
        ensures
            final(self)@ == old(self)@,
            r is Ok <==> auth::authorize_url_of(old(self)@.client) is Some,
            r is Ok ==> r->Ok_0@ == auth::authorize_url_of(old(self)@.client).unwrap(),
            r is Err ==> r->Err_0 == DracoonClientError::InvalidUrl,
    {
        self.client.get_authorize_url()
    }

    /// Connects with what the token endpoint answered: its tokens, or the
    /// `Auth` error of its refusal. The passphrase is kept: the key pair is
    /// unlocked with it by [Dracoon::unlock_keypair] once it is fetched.
    pub fn connect(self, answer: auth::TokenAnswer) -> (r: Result<
        Dracoon<Connected>,
        DracoonClientError,
    >)
        ensures
            answer is Granted <==> r is Ok,
            r is Ok ==> r->Ok_0@.client.connection is Some && r->Ok_0@.client
                == self@.client.with_connection(
                auth::connection_of(answer->Granted_0, r->Ok_0@.client.connection.unwrap().connected_at),
            ) && r->Ok_0@.encryption_secret == self@.encryption_secret && r->Ok_0.wf(),
            answer matches auth::TokenAnswer::Refused { status, error, error_description }
                ==> auth::is_refusal_error(r->Err_0, status, error, error_description),
    {
        match answer {
            auth::TokenAnswer::Granted(response) => Ok(self.connect_granted(response)),
            auth::TokenAnswer::Refused { status, error, error_description } => Err(
                auth::auth_refusal_error(status, error, error_description),
            ),
        }
    }

    /// Connects with the tokens of a grant; the passphrase is kept to unlock
    /// the key pair.
    pub fn connect_granted(self, response: OAuth2TokenResponse) -> (r: Dracoon<Connected>)
        ensures
            r@.client.connection is Some,
            r@.client == self@.client.with_connection(
                auth::connection_of(response, r@.client.connection.unwrap().connected_at),
            ),
            r@.has_keypair == self@.has_keypair,
            r@.encryption_secret == self@.encryption_secret,
            r.wf(),
    {
        Dracoon {
            client: self.client.connect_granted(response),
            keypair: self.keypair,
            encryption_secret: self.encryption_secret,
        }
    }
}

impl Dracoon<Connected> {
    /// The `Authorization` header now; `None` when the access token has
    /// expired and must be refreshed first.
    pub fn get_auth_header(&self) -> (r: Option<String>)
        requires
            self.wf(),
        ensures
            r is Some ==> r->Some_0@ == "Bearer "@ + self@.client.connection.unwrap().access_token,
    {
        self.client.get_auth_header()
    }

    /// The refresh token of the session.
    pub fn get_refresh_token(&self) -> (r: String)
        requires
            self.wf(),
        ensures
            r@ == self@.client.connection.unwrap().refresh_token,
    {
        self.client.get_refresh_token().to_string()
    }

    /// The unlocked key pair; `MissingEncryptionSecret` when none was unlocked.
    pub fn get_keypair(&self) -> (r: Result<&PlainUserKeyPairContainer, DracoonClientError>)
        ensures
            r is Ok <==> self@.has_keypair,
            r is Err ==> r->Err_0 == DracoonClientError::MissingEncryptionSecret,
    {
        match &self.keypair {
            Some(keypair) => Ok(keypair),
            None => Err(DracoonClientError::MissingEncryptionSecret),
        }
    }

    /// Opens the user's encrypted key pair with the passphrase given to the
    /// builder, keeps it, and forgets the passphrase. Without a passphrase
    /// this is `MissingEncryptionSecret`; a passphrase holding a NUL character,
    /// which no key pair can be encrypted under, or a failed decryption is
    /// `CryptoError`. Either failure leaves the session as it was.
    pub fn unlock_keypair(&mut self, keypair: UserKeyPairContainer) -> (r: Result<(), DracoonClientError>)
        ensures
            old(self)@.encryption_secret is None ==> r == Err::<(), DracoonClientError>(
                DracoonClientError::MissingEncryptionSecret,
            ),
            old(self)@.encryption_secret is Some && !crypto::no_nul(
                old(self)@.encryption_secret.unwrap(),
            ) ==> r == Err::<(), DracoonClientError>(DracoonClientError::CryptoError),
            old(self)@.encryption_secret is Some ==> (r is Ok || r == Err::<(), DracoonClientError>(
                DracoonClientError::CryptoError,
            )),
            r is Err ==> final(self)@ == old(self)@,
            r is Ok ==> final(self)@ == (DracoonView {
                has_keypair: true,
                encryption_secret: None,
                ..old(self)@
            }),
            final(self).wf() == old(self).wf(),
    {
        let opened = match &self.encryption_secret {
            Some(secret) => {
                if !crypto::has_no_nul(secret.as_str()) {
                    return Err(DracoonClientError::CryptoError);
                }
                decrypt_user_keypair(secret.as_str(), keypair)
            },
            None => return Err(DracoonClientError::MissingEncryptionSecret),
        };
        match opened {
            Ok(plain) => {
                self.keypair = Some(plain);
                self.encryption_secret = None;
                Ok(())
            },
            Err(_) => Err(DracoonClientError::CryptoError),
        }
    }

    /// Replaces the tokens by those of a refresh.
    pub fn refresh(&mut self, response: OAuth2TokenResponse)
        requires
            old(self).wf(),
        ensures
            final(self)@.client.connection is Some,
            final(self)@.client == old(self)@.client.with_connection(
                auth::connection_of(response, final(self)@.client.connection.unwrap().connected_at),
            ),
            final(self)@.has_keypair == old(self)@.has_keypair,
            final(self)@.encryption_secret == old(self)@.encryption_secret,
            final(self).wf(),
    {
        self.client.refresh(response)
    }

    /// Drops the tokens and the unlocked key pair; the configuration stays.
    /// Beside the disconnected session come the revocations to send (see
    /// [DracoonClient::revoke_requests]; by default the access token only).
    pub fn disconnect(
        self,
        revoke_access_token: Option<bool>,
        revoke_refresh_token: Option<bool>,
    ) -> (r: (Dracoon<Disconnected>, Result<Vec<TokenRequest>, DracoonClientError>))
        requires
            self.wf(),
        ensures
            r.0@ == (DracoonView {
                client: self@.client.without_connection(),
                has_keypair: false,
                encryption_secret: self@.encryption_secret,
            }),
            r.0.wf(),
            auth::revocations_of(self@.client, revoke_access_token, revoke_refresh_token, r.1),
    {
        let (client, revocations) = self.client.disconnect(revoke_access_token, revoke_refresh_token);
        (Dracoon { client, keypair: None, encryption_secret: self.encryption_secret }, revocations)
    }
}

} // verus!
