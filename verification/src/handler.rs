//! The message handlers: login, registration, the JWT authentication
//! middleware, the profile/poem/image lookups, and the three ntor stages
//! (handshake, response encryption, request decryption). Each handler's
//! whole behaviour is one relation between the store, the context and the
//! response, stated as a spec function and proved of the method.
use crate::context::Context;
use crate::crypto::{aead_open_of, new_nTor_session_id, now_unix};
use crate::db::{UserMetadata, WGPDatabase};
use crate::http::{Response, Status};
use crate::jwt::{create_jwt_token, jwt_claims_of, verify_jwt_token};
use crate::ntor::{
    spec_auth_tag, spec_derived_key, spec_shared_secret, InitSessionMessage, Server,
};
use crate::types::{
    spec_credentials_of, spec_encrypt_message_body, spec_encrypt_message_of, spec_error_body,
    spec_image_obj, spec_images_response, spec_init_request_of, spec_init_response_body,
    spec_login_body, spec_poem_obj, spec_poems_response, spec_profile_body, spec_register_body,
    ErrorResponseBody, GetImageResponse, GetImagesResponse, GetPoemResponse, GetPoemsResponse,
    GetProfileResponse, LoginRequestBody, LoginResponseBody, NTorEncryptMessage,
    NTorInitRequestBody, NTorInitResponse, RegisterRequestBody, RegisterResponseBody,
};
use crate::config::HandlerConfig;
use crate::string_to_array32;
use vstd::prelude::*;
use vstd::utf8::encode_utf8;

verus! {

/// A handler failure, for callers that embed this core.
pub enum MessageHandlerError {
    InternalError(String),
    ParseBodyError(String),
    InvalidData(String),
}

/// The response has this status, and this body (compared byte for byte).
pub open spec fn resp_is(r: Response, status: Status, body: Option<Seq<u8>>) -> bool {
    &&& r.status == status
    &&& match (r.body, body) {
        (Option::Some(b), Option::Some(s)) => b@ == s,
        (Option::None, Option::None) => true,
        _ => false,
    }
}

/// The handler state: the server identity and the two 32-byte secrets read
/// from configuration.
#[allow(non_camel_case_types)]
#[derive(Clone)]
pub struct WGPMessageHandler {
    config: HandlerConfig,
    ntor_static_secret: [u8; 32],
    jwt_secret: [u8; 32],
}

impl WGPMessageHandler {
    /// The ntor static secret.
    pub closed spec fn spec_ntor_secret(self) -> Seq<u8> {
        self.ntor_static_secret@
    }

    /// The JWT signing secret.
    pub closed spec fn spec_jwt_secret(self) -> Seq<u8> {
        self.jwt_secret@
    }

    /// The ntor server identity.
    pub closed spec fn spec_server_id(self) -> Seq<char> {
        self.config.ntor_server_id@
    }

    /// Builds the handler from configuration; both secrets must be exactly
    /// 32 bytes.
    pub fn new(config: HandlerConfig) -> (r: WGPMessageHandler)
        requires
            encode_utf8(config.ntor_static_secret@).len() == 32,
            encode_utf8(config.jwt_secret@).len() == 32,
        ensures
            r.spec_ntor_secret() == encode_utf8(config.ntor_static_secret@),
            r.spec_jwt_secret() == encode_utf8(config.jwt_secret@),
            r.spec_server_id() == config.ntor_server_id@,
    {
        let ntor_static_secret = string_to_array32(config.ntor_static_secret.clone()).unwrap();
        let jwt_secret = string_to_array32(config.jwt_secret.clone()).unwrap();
        WGPMessageHandler { config, ntor_static_secret, jwt_secret }
    }

    /// Builds the handler if the configured secrets have the right length.
    pub fn try_new(config: HandlerConfig) -> (r: Option<WGPMessageHandler>)
        ensures
            match r {
                Some(h) => {
                    &&& h.spec_ntor_secret() == encode_utf8(config.ntor_static_secret@)
                    &&& h.spec_jwt_secret() == encode_utf8(config.jwt_secret@)
                    &&& h.spec_server_id() == config.ntor_server_id@
                },
                None => encode_utf8(config.ntor_static_secret@).len() != 32 || encode_utf8(
                    config.jwt_secret@,
                ).len() != 32,
            },
    {
        let ntor_len_ok = string_to_array32(config.ntor_static_secret.clone()).is_some();
        let jwt_len_ok = string_to_array32(config.jwt_secret.clone()).is_some();
        if ntor_len_ok && jwt_len_ok {
            Some(Self::new(config))
        } else {
            None
        }
    }
}

/// Builds the uniform JSON error response for a status.
fn error_response(status: Status, msg: &str) -> (r: Response)
    ensures
        resp_is(r, status, Some(spec_error_body(msg@))),
{
    Response::new(status, Some(ErrorResponseBody { error: msg.to_owned() }.to_bytes()))
}

/// Copies a profile record field by field.
fn clone_metadata(m: &UserMetadata) -> (r: UserMetadata)
    ensures
        r == *m,
{
    UserMetadata {
        username: m.username.clone(),
        title: m.title.clone(),
        avatar: m.avatar.clone(),
        bio: m.bio.clone(),
        email: m.email.clone(),
        location: m.location.clone(),
        website: m.website.clone(),
    }
}

/// What `handle_login` does: nothing changes; a body that does not parse as
/// credentials is a bad request; a username whose stored password equals the
/// given one earns a token bound to it; anything else is rejected without
/// saying which part was wrong.
pub open spec fn login_effect(
    h: WGPMessageHandler,
    db0: WGPDatabase,
    ctx0: Context,
    db1: WGPDatabase,
    ctx1: Context,
    r: Response,
) -> bool {
    &&& db1 == db0
    &&& ctx1 == ctx0
    &&& match spec_credentials_of(ctx0.request_body@) {
        Option::None => resp_is(
            r,
            Status::BadRequest,
            Some(spec_error_body("Failed to parse request body"@)),
        ),
        Option::Some(cred) => {
            if db0.passwords().contains_key(cred.0) && db0.passwords()[cred.0]@ == cred.1 {
                &&& r.status == Status::Okay
                &&& (r.body matches Some(b) && exists|tok: Seq<char>|
                    {
                        &&& b@ == spec_login_body(tok)
                        &&& (#[trigger] jwt_claims_of(tok, h.spec_jwt_secret()) matches Some(c)
                            && c.0 == cred.0)
                    })
            } else {
                resp_is(
                    r,
                    Status::BadRequest,
                    Some(spec_error_body("Invalid username or password"@)),
                )
            }
        },
    }
}

/// What `handle_register` does: a body that does not parse is a bad
/// request; a taken username is refused; otherwise the user is stored with
/// an empty profile and the call succeeds.
pub open spec fn register_effect(
    h: WGPMessageHandler,
    db0: WGPDatabase,
    ctx0: Context,
    db1: WGPDatabase,
    ctx1: Context,
    r: Response,
) -> bool {
    &&& ctx1 == ctx0
    &&& match spec_credentials_of(ctx0.request_body@) {
        Option::None => db1 == db0 && resp_is(
            r,
            Status::BadRequest,
            Some(spec_error_body("Failed to parse request body"@)),
        ),
        Option::Some(cred) => {
            if db0.passwords().contains_key(cred.0) {
                &&& db1 == db0
                &&& resp_is(
                    r,
                    Status::BadRequest,
                    Some(spec_error_body("Username already exists"@)),
                )
            } else {
                &&& (exists|p: String|
                    {
                        &&& p@ == cred.1
                        &&& #[trigger] db1.passwords() == db0.passwords().insert(cred.0, p)
                    })
                &&& (exists|m: UserMetadata|
                    {
                        &&& #[trigger] db1.metadata() == db0.metadata().insert(cred.0, m)
                        &&& m.username@ == cred.0
                        &&& m.title@ == Seq::<char>::empty() && m.avatar@ == Seq::<char>::empty()
                        &&& m.bio@ == Seq::<char>::empty() && m.email@ == Seq::<char>::empty()
                        &&& m.location@ == Seq::<char>::empty() && m.website@
                            == Seq::<char>::empty()
                    })
                &&& db1.spec_poems() == db0.spec_poems()
                &&& db1.spec_images() == db0.spec_images()
                &&& db1.sessions() == db0.sessions()
                &&& db1.wf() == db0.wf()
                &&& resp_is(
                    r,
                    Status::Okay,
                    Some(spec_register_body(true, "User registered successfully"@)),
                )
            }
        },
    }
}

/// The outcome of the authentication middleware once the clock value it
/// read is fixed: an unknown or expired token is unauthorized, a token for
/// an unknown user is unauthorized, and otherwise the username lands in the
/// scratchpad and the chain may continue.
pub open spec fn auth_outcome(
    h: WGPMessageHandler,
    db0: WGPDatabase,
    ctx0: Context,
    ctx1: Context,
    r: Response,
    token: Seq<char>,
    now: u64,
) -> bool {
    match jwt_claims_of(token, h.spec_jwt_secret()) {
        Option::None => ctx1 == ctx0 && resp_is(
            r,
            Status::Unauthorized,
            Some(spec_error_body("Invalid token"@)),
        ),
        Option::Some(claims) => {
            if now >= claims.1 || claims.0.len() == 0 {
                ctx1 == ctx0 && resp_is(
                    r,
                    Status::Unauthorized,
                    Some(spec_error_body("Invalid token"@)),
                )
            } else if !db0.passwords().contains_key(claims.0) {
                ctx1 == ctx0 && resp_is(
                    r,
                    Status::Unauthorized,
                    Some(spec_error_body("User does not exist"@)),
                )
            } else {
                &&& (exists|u: String|
                    u@ == claims.0 && ctx1 == (Context {
                        memory: ctx1.memory,
                        ..ctx0
                    }) && #[trigger] ctx1.memory@ == ctx0.memory@.insert("username"@, u))
                &&& resp_is(r, Status::Okay, None)
            }
        },
    }
}

/// What `authentication_middleware` does: nothing without an
/// `Authorization` header carrying a `Bearer ` prefix; otherwise the
/// outcome of verifying the carried token at the moment the clock was read.
pub open spec fn auth_effect(
    h: WGPMessageHandler,
    db0: WGPDatabase,
    ctx0: Context,
    db1: WGPDatabase,
    ctx1: Context,
    r: Response,
) -> bool {
    &&& db1 == db0
    &&& if !ctx0.headers@.contains_key("Authorization"@) {
        ctx1 == ctx0 && resp_is(r, Status::Unauthorized, Some(spec_error_body("Unauthorized"@)))
    } else {
        let hv = ctx0.headers@["Authorization"@]@;
        if hv.len() >= 7 && hv.subrange(0, 7) == "Bearer "@ {
            exists|now: u64|
                #[trigger] auth_outcome(h, db0, ctx0, ctx1, r, hv.skip(7), now) && now
                    <= 0x8000_0000_0000_0000
        } else {
            ctx1 == ctx0 && resp_is(
                r,
                Status::Unauthorized,
                Some(spec_error_body("Unauthorized"@)),
            )
        }
    }
}

/// What `get_profile` does: nothing changes; with an authenticated username
/// whose profile exists, the profile is returned; otherwise the failure is
/// internal, not the client's.
pub open spec fn profile_effect(
    h: WGPMessageHandler,
    db0: WGPDatabase,
    ctx0: Context,
    db1: WGPDatabase,
    ctx1: Context,
    r: Response,
) -> bool {
    &&& db1 == db0
    &&& ctx1 == ctx0
    &&& if ctx0.memory@.contains_key("username"@) {
        let u = ctx0.memory@["username"@]@;
        if db0.metadata().contains_key(u) {
            resp_is(r, Status::Okay, Some(spec_profile_body(db0.metadata()[u])))
        } else {
            resp_is(r, Status::InternalServerError, None)
        }
    } else {
        resp_is(r, Status::InternalServerError, None)
    }
}

/// The first poem record whose id reads as `id`, if any.
pub open spec fn first_poem_match(db: WGPDatabase, id: Seq<char>) -> Option<int> {
    if exists|i: int|
        0 <= i < db.spec_poems().len() && crate::db::id_matches(
            #[trigger] db.spec_poems()[i].id as int,
            id,
        ) {
        Some(
            choose|i: int|
                {
                    &&& 0 <= i < db.spec_poems().len()
                    &&& crate::db::id_matches(#[trigger] db.spec_poems()[i].id as int, id)
                    &&& forall|j: int|
                        0 <= j < i ==> !crate::db::id_matches(
                            #[trigger] db.spec_poems()[j].id as int,
                            id,
                        )
                },
        )
    } else {
        None
    }
}

/// What `get_poems` does: nothing changes; with an `id` parameter the first
/// matching poem or "not found", without one the whole list.
pub open spec fn poems_effect(
    h: WGPMessageHandler,
    db0: WGPDatabase,
    ctx0: Context,
    db1: WGPDatabase,
    ctx1: Context,
    r: Response,
) -> bool {
    &&& db1 == db0
    &&& ctx1 == ctx0
    &&& if ctx0.params@.contains_key("id"@) {
        let id = ctx0.params@["id"@]@;
        if exists|i: int|
            0 <= i < db0.spec_poems().len() && crate::db::id_matches(
                #[trigger] db0.spec_poems()[i].id as int,
                id,
            ) {
            exists|i: int|
                {
                    &&& 0 <= i < db0.spec_poems().len()
                    &&& crate::db::id_matches(#[trigger] db0.spec_poems()[i].id as int, id)
                    &&& resp_is(
                        r,
                        Status::Okay,
                        Some(
                            spec_poem_obj(
                                db0.spec_poems()[i].id as int,
                                db0.spec_poems()[i].title@,
                                db0.spec_poems()[i].author@,
                                db0.spec_poems()[i].content@,
                            ),
                        ),
                    )
                }
        } else {
            resp_is(r, Status::NotFound, Some(spec_error_body("Id not found"@)))
        }
    } else {
        resp_is(r, Status::Okay, Some(spec_poems_response(db0.spec_poems())))
    }
}

/// The image records as wire responses.
pub open spec fn spec_images_as_responses(db: WGPDatabase) -> Seq<GetImageResponse> {
    Seq::new(
        db.spec_images().len(),
        |i: int|
            GetImageResponse {
                id: db.spec_images()[i].id,
                title: db.spec_images()[i].name,
                file_name: db.spec_images()[i].file_name,
                content: db.spec_images()[i].content,
            },
    )
}

/// Two wire image records that serialize identically.
pub open spec fn images_view_match(x: GetImageResponse, y: GetImageResponse) -> bool {
    x.id == y.id && x.title@ == y.title@ && x.file_name@ == y.file_name@ && x.content@
        == y.content@
}

/// Image lists that match view for view serialize to the same bytes.
pub proof fn lemma_images_body_congruent(xs: Seq<GetImageResponse>, ys: Seq<GetImageResponse>)
    requires
        xs.len() == ys.len(),
        forall|i: int| 0 <= i < xs.len() ==> images_view_match(#[trigger] xs[i], ys[i]),
    ensures
        crate::types::spec_images_body(xs) == crate::types::spec_images_body(ys),
    decreases xs.len(),
{
    if xs.len() > 0 {
        assert(images_view_match(xs[xs.len() - 1], ys[ys.len() - 1]));
        assert forall|i: int| 0 <= i < xs.drop_last().len() implies images_view_match(
            #[trigger] xs.drop_last()[i],
            ys.drop_last()[i],
        ) by {
            assert(images_view_match(xs[i], ys[i]));
        }
        lemma_images_body_congruent(xs.drop_last(), ys.drop_last());
    }
}

/// What `get_images` does: nothing changes; with an `id` parameter the
/// first matching image or "not found", without one the whole list.
pub open spec fn images_effect(
    h: WGPMessageHandler,
    db0: WGPDatabase,
    ctx0: Context,
    db1: WGPDatabase,
    ctx1: Context,
    r: Response,
) -> bool {
    &&& db1 == db0
    &&& ctx1 == ctx0
    &&& if ctx0.params@.contains_key("id"@) {
        let id = ctx0.params@["id"@]@;
        if exists|i: int|
            0 <= i < db0.spec_images().len() && crate::db::id_matches(
                #[trigger] db0.spec_images()[i].id as int,
                id,
            ) {
            exists|i: int|
                {
                    &&& 0 <= i < db0.spec_images().len()
                    &&& crate::db::id_matches(#[trigger] db0.spec_images()[i].id as int, id)
                    &&& resp_is(
                        r,
                        Status::Okay,
                        Some(
                            spec_image_obj(
                                db0.spec_images()[i].id as int,
                                db0.spec_images()[i].name@,
                                db0.spec_images()[i].file_name@,
                                db0.spec_images()[i].content@,
                            ),
                        ),
                    )
                }
        } else {
            resp_is(
                r,
                Status::NotFound,
                Some(spec_error_body("Image with id "@ + id + " not found"@)),
            )
        }
    } else {
        resp_is(r, Status::Okay, Some(spec_images_response(spec_images_as_responses(db0))))
    }
}

/// What `ntor_init` does: a body that does not parse is a bad request, as
/// is a client key that is not exactly 32 bytes (rejected before any
/// cryptographic work); otherwise a fresh engine completes the handshake,
/// is stored under a fresh 36-character session id, and the response
/// carries the ephemeral public key, the tag, the id, the static public key
/// and the server identity.
pub open spec fn ntor_init_effect(
    h: WGPMessageHandler,
    db0: WGPDatabase,
    ctx0: Context,
    db1: WGPDatabase,
    ctx1: Context,
    r: Response,
) -> bool {
    &&& ctx1 == ctx0
    &&& match spec_init_request_of(ctx0.request_body@) {
        Option::None => db1 == db0 && resp_is(
            r,
            Status::BadRequest,
            Some(spec_error_body("Failed to parse request body"@)),
        ),
        Option::Some(pk) => {
            if pk.len() != 32 {
                db1 == db0 && resp_is(r, Status::BadRequest, None)
            } else {
                exists|sid: Seq<char>, srv: Server|
                    {
                        &&& #[trigger] db1.sessions() == db0.sessions().insert(sid, srv)
                        &&& db1.passwords() == db0.passwords()
                        &&& db1.metadata() == db0.metadata()
                        &&& db1.spec_poems() == db0.spec_poems()
                        &&& db1.spec_images() == db0.spec_images()
                        &&& db1.wf() == db0.wf()
                        &&& sid.len() == 36
                        &&& srv.server_id@ == h.spec_server_id()
                        &&& (srv.static_key_pair.private_key matches Some(sk) && sk@
                            == h.spec_ntor_secret())
                        &&& (srv.ephemeral_key_pair.private_key matches Some(esk) && {
                            let shared = spec_shared_secret(
                                h.spec_ntor_secret(),
                                esk@,
                                h.spec_server_id(),
                                pk,
                            );
                            &&& (srv.shared_secret matches Some(ss) && ss@ == shared)
                            &&& resp_is(
                                r,
                                Status::Okay,
                                Some(
                                    spec_init_response_body(
                                        crate::crypto::x25519_public_of(esk@),
                                        spec_auth_tag(
                                            h.spec_ntor_secret(),
                                            esk@,
                                            h.spec_server_id(),
                                            pk,
                                        ),
                                        sid,
                                        crate::crypto::x25519_public_of(h.spec_ntor_secret()),
                                        h.spec_server_id(),
                                    ),
                                ),
                            )
                        })
                    }
            }
        },
    }
}

/// What `ntor_encrypt` does: nothing changes; without a session named by
/// the `nTor_session_id` header it is a bad request; with one, the pending
/// response body (empty if none) is sealed under the session key and
/// replaces the outgoing response, or the failure is internal.
pub open spec fn ntor_encrypt_effect(
    h: WGPMessageHandler,
    db0: WGPDatabase,
    ctx0: Context,
    db1: WGPDatabase,
    ctx1: Context,
    r: Response,
) -> bool {
    &&& db1 == db0
    &&& ctx1 == ctx0
    &&& if ctx0.headers@.contains_key("nTor_session_id"@) && db0.sessions().contains_key(
        ctx0.headers@["nTor_session_id"@]@,
    ) {
        let srv = db0.sessions()[ctx0.headers@["nTor_session_id"@]@];
        let payload = match ctx0.response_body {
            Option::Some(b) => b@,
            Option::None => Seq::<u8>::empty(),
        };
        match srv.shared_secret {
            Option::Some(ss) => {
                ||| (r.status == Status::Okay && (r.body matches Some(b) && exists|
                    nonce: Seq<u8>,
                    sealed: Seq<u8>,
                |
                    {
                        &&& nonce.len() == 12
                        &&& #[trigger] aead_open_of(spec_derived_key(ss@), nonce, sealed) == Some(
                            payload,
                        )
                        &&& sealed.len() == payload.len() + 16
                        &&& b@ == spec_encrypt_message_body(nonce, sealed)
                    }))
                ||| (resp_is(r, Status::InternalServerError, None) && (ss@.len() != 16
                    || payload.len() >= 0x1_0000_0000))
            },
            Option::None => resp_is(r, Status::InternalServerError, None),
        }
    } else {
        resp_is(r, Status::BadRequest, Some(spec_error_body("no nTor session found"@)))
    }
}

/// What `ntor_decrypt` does: a body that does not parse as a sealed payload
/// is a bad request; without a session named by the header it is a bad
/// request; opening under the session key either recovers the plaintext --
/// which replaces the request body for the handlers after this one -- or
/// fails closed as an internal error.
pub open spec fn ntor_decrypt_effect(
    h: WGPMessageHandler,
    db0: WGPDatabase,
    ctx0: Context,
    db1: WGPDatabase,
    ctx1: Context,
    r: Response,
) -> bool {
    &&& db1 == db0
    &&& match spec_encrypt_message_of(ctx0.request_body@) {
        Option::None => ctx1 == ctx0 && resp_is(
            r,
            Status::BadRequest,
            Some(spec_error_body("Failed to parse request body"@)),
        ),
        Option::Some(msg) => {
            if ctx0.headers@.contains_key("nTor_session_id"@) && db0.sessions().contains_key(
                ctx0.headers@["nTor_session_id"@]@,
            ) {
                let srv = db0.sessions()[ctx0.headers@["nTor_session_id"@]@];
                match srv.shared_secret {
                    Option::Some(ss) => {
                        if ss@.len() == 16 {
                            match aead_open_of(spec_derived_key(ss@), msg.0, msg.1) {
                                Option::Some(pt) => {
                                    &&& (exists|ptv: Vec<u8>|
                                        ptv@ == pt && ctx1 == (Context {
                                            request_body: ptv,
                                            ..ctx0
                                        }))
                                    &&& resp_is(r, Status::Okay, None)
                                },
                                Option::None => ctx1 == ctx0 && resp_is(
                                    r,
                                    Status::InternalServerError,
                                    None,
                                ),
                            }
                        } else {
                            ctx1 == ctx0 && resp_is(r, Status::InternalServerError, None)
                        }
                    },
                    Option::None => ctx1 == ctx0 && resp_is(r, Status::InternalServerError, None),
                }
            } else {
                ctx1 == ctx0 && resp_is(
                    r,
                    Status::BadRequest,
                    Some(spec_error_body("no nTor session found"@)),
                )
            }
        },
    }
}

impl WGPMessageHandler {
    /// Checks the credentials in the request body and issues a bearer token
    /// on success.
    pub fn handle_login(&self, db: &mut WGPDatabase, ctx: &mut Context) -> (r: Response)
        requires
            old(db).wf(),
            old(ctx).wf(),
        ensures
            final(db).wf(),
            final(ctx).wf(),
            login_effect(*self, *old(db), *old(ctx), *final(db), *final(ctx), r),
    {
        let body = match LoginRequestBody::from_bytes(ctx.get_request_body()) {
            Some(b) => b,
            None => {
                return error_response(Status::BadRequest, "Failed to parse request body");
            },
        };
        let password_ok = match db.get_password(&body.username) {
            Some(stored) => stored.eq(&body.password),
            None => false,
        };
        if password_ok {
            let now = now_unix();
            let token = create_jwt_token(body.username, self.jwt_secret, now);
            let ghost tok_view = token@;
            let bytes = LoginResponseBody { token }.to_bytes();
            proof {
                assert(jwt_claims_of(tok_view, self.spec_jwt_secret()) matches Some(c));
            }
            Response::new(Status::Okay, Some(bytes))
        } else {
            error_response(Status::BadRequest, "Invalid username or password")
        }
    }

    /// Registers a new user with an empty profile; a taken username is
    /// refused.
    pub fn handle_register(&self, db: &mut WGPDatabase, ctx: &mut Context) -> (r: Response)
        requires
            old(db).wf(),
            old(ctx).wf(),
        ensures
            final(db).wf(),
            final(ctx).wf(),
            register_effect(*self, *old(db), *old(ctx), *final(db), *final(ctx), r),
    {
        let body = match RegisterRequestBody::from_bytes(ctx.get_request_body()) {
            Some(b) => b,
            None => {
                return error_response(Status::BadRequest, "Failed to parse request body");
            },
        };
        if db.user_exists(&body.username) {
            return error_response(Status::BadRequest, "Username already exists");
        }
        let metadata = UserMetadata {
            username: body.username.clone(),
            title: String::new(),
            avatar: String::new(),
            bio: String::new(),
            email: String::new(),
            location: String::new(),
            website: String::new(),
        };
        let ghost pw_g = body.password;
        let ghost meta_g = metadata;
        db.add_user(body.username, body.password, metadata);
        proof {
            let cred = spec_credentials_of(old(ctx).request_body@).unwrap();
            assert(db.passwords() == old(db).passwords().insert(cred.0, pw_g));
            assert(db.metadata() == old(db).metadata().insert(cred.0, meta_g));
        }
        Response::new(
            Status::Okay,
            Some(
                RegisterResponseBody {
                    success: true,
                    message: String::from_str("User registered successfully"),
                }.to_bytes(),
            ),
        )
    }

    /// Requires a `Bearer ` token in the `Authorization` header, verifies
    /// it, checks the user still exists, and records the username in the
    /// scratchpad for the handlers after this one.
    pub fn authentication_middleware(&self, db: &mut WGPDatabase, ctx: &mut Context) -> (r:
        Response)
        requires
            old(db).wf(),
            old(ctx).wf(),
        ensures
            final(db).wf(),
            final(ctx).wf(),
            auth_effect(*self, *old(db), *old(ctx), *final(db), *final(ctx), r),
    {
        let header = match ctx.header(&String::from_str("Authorization")) {
            Some(v) => v.clone(),
            None => {
                return error_response(Status::Unauthorized, "Unauthorized");
            },
        };
        let hs = header.as_str();
        let hlen = hs.unicode_len();
        if hlen < 7 {
            return error_response(Status::Unauthorized, "Unauthorized");
        }
        let prefix = hs.substring_char(0, 7);
        if !crate::context::str_eq(prefix, "Bearer ") {
            proof {
                assert(header@.subrange(0, 7) != "Bearer "@);
            }
            return error_response(Status::Unauthorized, "Unauthorized");
        }
        let token = hs.substring_char(7, hlen).to_owned();
        proof {
            assert(token@ =~= header@.skip(7));
        }
        let now = now_unix();
        let r = match verify_jwt_token(&token, self.jwt_secret, now) {
            Err(_) => error_response(Status::Unauthorized, "Invalid token"),
            Ok(claims) => {
                let username = claims.get_username();
                if username.as_str().unicode_len() == 0 {
                    error_response(Status::Unauthorized, "Invalid token")
                } else if !db.user_exists(&username) {
                    error_response(Status::Unauthorized, "User does not exist")
                } else {
                    let ghost user_g = username;
                    ctx.set(String::from_str("username"), username);
                    proof {
                        assert(ctx.memory@ == old(ctx).memory@.insert("username"@, user_g));
                    }
                    Response::new(Status::Okay, None)
                }
            },
        };
        proof {
            assert(auth_outcome(
                *self,
                *old(db),
                *old(ctx),
                *ctx,
                r,
                old(ctx).headers@["Authorization"@]@.skip(7),
                now,
            ));
        }
        r
    }

    /// Returns the authenticated user's profile; a missing scratchpad entry
    /// or profile is an internal failure, not the client's.
    pub fn get_profile(&self, db: &mut WGPDatabase, ctx: &mut Context) -> (r: Response)
        requires
            old(db).wf(),
            old(ctx).wf(),
        ensures
            final(db).wf(),
            final(ctx).wf(),
            profile_effect(*self, *old(db), *old(ctx), *final(db), *final(ctx), r),
    {
        let username = match ctx.get(&String::from_str("username")) {
            Some(u) => u.clone(),
            None => {
                return Response::new(Status::InternalServerError, None);
            },
        };
        match db.get_metadata(&username) {
            Some(m) => {
                let metadata = clone_metadata(m);
                Response::new(Status::Okay, Some(GetProfileResponse { metadata }.to_bytes()))
            },
            None => Response::new(Status::InternalServerError, None),
        }
    }

    /// Returns the poem named by the `id` parameter, or the whole list
    /// without one.
    pub fn get_poems(&self, db: &mut WGPDatabase, ctx: &mut Context) -> (r: Response)
        requires
            old(db).wf(),
            old(ctx).wf(),
        ensures
            final(db).wf(),
            final(ctx).wf(),
            poems_effect(*self, *old(db), *old(ctx), *final(db), *final(ctx), r),
    {
        let id = match ctx.param(&String::from_str("id")) {
            Some(v) => Some(v.clone()),
            None => None,
        };
        match id {
            Some(id) => {
                match db.get_poem(&id) {
                    Some(p) => {
                        let response = GetPoemResponse {
                            id: p.id,
                            title: p.title.clone(),
                            author: p.author.clone(),
                            content: p.content.clone(),
                        };
                        let bytes = response.to_bytes();
                        proof {
                            let i = choose|i: int|
                                {
                                    &&& 0 <= i < db.spec_poems().len()
                                    &&& #[trigger] db.spec_poems()[i] == *p
                                    &&& crate::db::id_matches(db.spec_poems()[i].id as int, id@)
                                    &&& forall|j: int|
                                        0 <= j < i ==> !crate::db::id_matches(
                                            #[trigger] db.spec_poems()[j].id as int,
                                            id@,
                                        )
                                };
                            assert(crate::db::id_matches(db.spec_poems()[i].id as int, id@));
                        }
                        Response::new(Status::Okay, Some(bytes))
                    },
                    None => error_response(Status::NotFound, "Id not found"),
                }
            },
            None => {
                let poems = db.get_poems();
                let mut copy: Vec<crate::db::Poem> = Vec::new();
                let mut i: usize = 0;
                while i < poems.len()
                    invariant
                        i <= poems@.len(),
                        copy@ =~= poems@.take(i as int),
                    decreases poems@.len() - i,
                {
                    let p = &poems[i];
                    copy.push(
                        crate::db::Poem {
                            id: p.id,
                            title: p.title.clone(),
                            author: p.author.clone(),
                            content: p.content.clone(),
                        },
                    );
                    proof {
                        assert(copy@ =~= poems@.take(i + 1));
                    }
                    i += 1;
                }
                proof {
                    assert(copy@ =~= db.spec_poems());
                }
                Response::new(Status::Okay, Some(GetPoemsResponse { poems: copy }.to_bytes()))
            },
        }
    }

    /// Returns the image named by the `id` parameter, or the whole list
    /// without one; records are served as stored.
    pub fn get_images(&self, db: &mut WGPDatabase, ctx: &mut Context) -> (r: Response)
        requires
            old(db).wf(),
            old(ctx).wf(),
        ensures
            final(db).wf(),
            final(ctx).wf(),
            images_effect(*self, *old(db), *old(ctx), *final(db), *final(ctx), r),
    {
        let id = match ctx.param(&String::from_str("id")) {
            Some(v) => Some(v.clone()),
            None => None,
        };
        match id {
            Some(id) => {
                match db.get_image(&id) {
                    Ok(img) => {
                        let response = GetImageResponse {
                            id: img.id,
                            title: img.name.clone(),
                            file_name: img.file_name.clone(),
                            content: img.content.clone(),
                        };
                        let bytes = response.to_bytes();
                        proof {
                            let i = choose|i: int|
                                {
                                    &&& 0 <= i < db.spec_images().len()
                                    &&& #[trigger] db.spec_images()[i] == *img
                                    &&& crate::db::id_matches(db.spec_images()[i].id as int, id@)
                                    &&& forall|j: int|
                                        0 <= j < i ==> !crate::db::id_matches(
                                            #[trigger] db.spec_images()[j].id as int,
                                            id@,
                                        )
                                };
                            assert(crate::db::id_matches(db.spec_images()[i].id as int, id@));
                        }
                        Response::new(Status::Okay, Some(bytes))
                    },
                    Err(e) => Response::new(
                        Status::NotFound,
                        Some(ErrorResponseBody { error: e }.to_bytes()),
                    ),
                }
            },
            None => {
                let images = db.get_images();
                let mut responses: Vec<GetImageResponse> = Vec::new();
                let mut i: usize = 0;
                while i < images.len()
                    invariant
                        i <= images@.len(),
                        images@ == old(db).spec_images(),
                        responses@.len() == i,
                        forall|j: int|
                            0 <= j < i ==> images_view_match(
                                #[trigger] responses@[j],
                                spec_images_as_responses(*old(db))[j],
                            ),
                    decreases images@.len() - i,
                {
                    let img = &images[i];
                    responses.push(
                        GetImageResponse {
                            id: img.id,
                            title: img.name.clone(),
                            file_name: img.file_name.clone(),
                            content: img.content.clone(),
                        },
                    );
                    i += 1;
                }
                let bytes = GetImagesResponse { images: responses }.to_bytes();
                proof {
                    lemma_images_body_congruent(
                        GetImagesResponse { images: responses }.images@,
                        spec_images_as_responses(*old(db)),
                    );
                }
                Response::new(Status::Okay, Some(bytes))
            },
        }
    }

    /// Accepts a handshake opening: rejects a malformed client key before
    /// any cryptographic work, otherwise completes the responder step,
    /// stores the engine under a fresh session id and answers with the
    /// ephemeral public key, the tag and the id.
    pub fn ntor_init(&self, db: &mut WGPDatabase, ctx: &mut Context) -> (r: Response)
        requires
            old(db).wf(),
            old(ctx).wf(),
        ensures
            final(db).wf(),
            final(ctx).wf(),
            ntor_init_effect(*self, *old(db), *old(ctx), *final(db), *final(ctx), r),
    {
        let body = match NTorInitRequestBody::from_bytes(ctx.get_request_body()) {
            Some(b) => b,
            None => {
                return error_response(Status::BadRequest, "Failed to parse request body");
            },
        };
        if body.public_key.len() != 32 {
            return Response::new(Status::BadRequest, None);
        }
        let mut ntor_server = Server::new_with_secret(
            self.config.ntor_server_id.clone(),
            self.ntor_static_secret,
        );
        let init_msg = InitSessionMessage::from(body.public_key);
        let init_response = ntor_server.accept_init_session_request(&init_msg);

        let ntor_session_id = new_nTor_session_id();

        let mut public_key: Vec<u8> = Vec::new();
        public_key.extend_from_slice(init_response.server_ephemeral_public_key.as_slice());
        let cert = ntor_server.get_certificate();
        let mut static_public_key: Vec<u8> = Vec::new();
        static_public_key.extend_from_slice(cert.public_key.as_slice());

        let response = NTorInitResponse {
            public_key,
            t_hash: init_response.t_hash,
            session_id: ntor_session_id.clone(),
            static_public_key,
            server_id: self.config.ntor_server_id.clone(),
        };
        let bytes = response.to_bytes();

        let ghost srv_g = ntor_server;
        db.save_ntor_session(&ntor_session_id, ntor_server);
        proof {
            assert(db.sessions() == old(db).sessions().insert(ntor_session_id@, srv_g));
            assert(response.public_key@ =~= srv_g.ephemeral_key_pair.public_key@);
            assert(response.static_public_key@ =~= srv_g.static_key_pair.public_key@);
        }
        Response::new(Status::Okay, Some(bytes))
    }

    /// Seals the pending response body under the session named by the
    /// `nTor_session_id` header and replaces the outgoing response with the
    /// serialized nonce/ciphertext pair.
    pub fn ntor_encrypt(&self, db: &mut WGPDatabase, ctx: &mut Context) -> (r: Response)
        requires
            old(db).wf(),
            old(ctx).wf(),
        ensures
            final(db).wf(),
            final(ctx).wf(),
            ntor_encrypt_effect(*self, *old(db), *old(ctx), *final(db), *final(ctx), r),
    {
        let session_id = match ctx.header(&String::from_str("nTor_session_id")) {
            Some(v) => v.clone(),
            None => {
                return error_response(Status::BadRequest, "no nTor session found");
            },
        };
        let server = match db.get_ntor_session(&session_id) {
            Some(s) => s,
            None => {
                return error_response(Status::BadRequest, "no nTor session found");
            },
        };
        let payload: Vec<u8> = match ctx.get_response_body() {
            Some(b) => b.clone(),
            None => Vec::new(),
        };
        match server.encrypt(payload) {
            Ok((nonce, encrypted)) => {
                let ghost nonce_g = nonce@;
                let ghost sealed_g = encrypted@;
                let bytes = NTorEncryptMessage { nonce, encrypted }.to_bytes();
                Response::new(Status::Okay, Some(bytes))
            },
            Err(_) => Response::new(Status::InternalServerError, None),
        }
    }

    /// Opens the sealed request body under the session named by the
    /// `nTor_session_id` header; on success the recovered plaintext
    /// replaces the request body for the handlers after this one.
    pub fn ntor_decrypt(&self, db: &mut WGPDatabase, ctx: &mut Context) -> (r: Response)
        requires
            old(db).wf(),
            old(ctx).wf(),
        ensures
            final(db).wf(),
            final(ctx).wf(),
            ntor_decrypt_effect(*self, *old(db), *old(ctx), *final(db), *final(ctx), r),
    {
        let msg = match NTorEncryptMessage::from_bytes(ctx.get_request_body()) {
            Some(m) => m,
            None => {
                return error_response(Status::BadRequest, "Failed to parse request body");
            },
        };
        let session_id = match ctx.header(&String::from_str("nTor_session_id")) {
            Some(v) => v.clone(),
            None => {
                return error_response(Status::BadRequest, "no nTor session found");
            },
        };
        let decrypted = match db.get_ntor_session(&session_id) {
            Some(server) => server.decrypt(msg.nonce, msg.encrypted),
            None => {
                return error_response(Status::BadRequest, "no nTor session found");
            },
        };
        match decrypted {
            Ok(plaintext) => {
                let ghost pt_g = plaintext;
                ctx.set_request_body(plaintext);
                proof {
                    let msg_spec = spec_encrypt_message_of(old(ctx).request_body@).unwrap();
                    let srv = old(db).sessions()[old(ctx).headers@["nTor_session_id"@]@];
                    let key = spec_derived_key(srv.shared_secret.unwrap()@);
                    assert(aead_open_of(key, msg_spec.0, msg_spec.1) == Some(pt_g@));
                    assert(*ctx == (Context { request_body: pt_g, ..*old(ctx) }));
                }
                Response::new(Status::Okay, None)
            },
            Err(_) => Response::new(Status::InternalServerError, None),
        }
    }
}


/// Which handler a chain entry runs.
#[derive(Clone, Copy, PartialEq, Eq, Structural, Debug)]
pub enum WgpRoute {
    Login,
    Register,
    Auth,
    Profile,
    Poems,
    Images,
    NtorInit,
    NtorEncrypt,
    NtorDecrypt,
}

/// One chain entry: a handler choice bound to the handler state.
#[derive(Clone)]
pub struct WgpEntry {
    pub route: WgpRoute,
    pub handler: WGPMessageHandler,
}

impl crate::router::Handler for WgpEntry {
    open spec fn effect(
        &self,
        db0: WGPDatabase,
        ctx0: Context,
        db1: WGPDatabase,
        ctx1: Context,
        r: Response,
    ) -> bool {
        match self.route {
            WgpRoute::Login => login_effect(self.handler, db0, ctx0, db1, ctx1, r),
            WgpRoute::Register => register_effect(self.handler, db0, ctx0, db1, ctx1, r),
            WgpRoute::Auth => auth_effect(self.handler, db0, ctx0, db1, ctx1, r),
            WgpRoute::Profile => profile_effect(self.handler, db0, ctx0, db1, ctx1, r),
            WgpRoute::Poems => poems_effect(self.handler, db0, ctx0, db1, ctx1, r),
            WgpRoute::Images => images_effect(self.handler, db0, ctx0, db1, ctx1, r),
            WgpRoute::NtorInit => ntor_init_effect(self.handler, db0, ctx0, db1, ctx1, r),
            WgpRoute::NtorEncrypt => ntor_encrypt_effect(self.handler, db0, ctx0, db1, ctx1, r),
            WgpRoute::NtorDecrypt => ntor_decrypt_effect(self.handler, db0, ctx0, db1, ctx1, r),
        }
    }

    fn invoke(&self, db: &mut WGPDatabase, ctx: &mut Context) -> (r: Response) {
        match self.route {
            WgpRoute::Login => self.handler.handle_login(db, ctx),
            WgpRoute::Register => self.handler.handle_register(db, ctx),
            WgpRoute::Auth => self.handler.authentication_middleware(db, ctx),
            WgpRoute::Profile => self.handler.get_profile(db, ctx),
            WgpRoute::Poems => self.handler.get_poems(db, ctx),
            WgpRoute::Images => self.handler.get_images(db, ctx),
            WgpRoute::NtorInit => self.handler.ntor_init(db, ctx),
            WgpRoute::NtorEncrypt => self.handler.ntor_encrypt(db, ctx),
            WgpRoute::NtorDecrypt => self.handler.ntor_decrypt(db, ctx),
        }
    }
}

} // verus!
