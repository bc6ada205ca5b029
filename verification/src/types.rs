//! The wire bodies: the JSON records read from requests and written into
//! responses. Emission is verified against byte-exact specifications;
//! request parsing goes through the named serde results and verified field
//! lookup.
use crate::db::{Poem, UserMetadata};
use crate::json::{
    field_of, find_field, json_bytes_map_of, json_string_map_of, pairs_view, parse_bytes_map,
    parse_string_map, push_dec_i64, push_json_bytes, push_json_string, push_lit, spec_dec_i64,
    spec_json_bytes, spec_json_string,
};
use vstd::prelude::*;
use vstd::utf8::encode_utf8;

verus! {

/// Every failure yields this body: one `error` message field.
pub struct ErrorResponseBody {
    pub error: String,
}

/// `{"error":<message>}`.
pub open spec fn spec_error_body(msg: Seq<char>) -> Seq<u8> {
    encode_utf8("{\"error\":"@) + spec_json_string(msg) + encode_utf8("}"@)
}

impl ErrorResponseBody {
    /// Serializes the error record.
    pub fn to_bytes(&self) -> (r: Vec<u8>)
        ensures
            r@ == spec_error_body(self.error@),
    {
        let mut out: Vec<u8> = Vec::new();
        push_lit(&mut out, "{\"error\":");
        push_json_string(&mut out, self.error.as_str());
        push_lit(&mut out, "}");
        out
    }
}

/// A login attempt: a username and the password to check.
pub struct LoginRequestBody {
    pub username: String,
    pub password: String,
}

/// The credentials a request body parses to: present exactly when the body
/// is a JSON object of string fields holding both `username` and
/// `password`.
pub open spec fn spec_credentials_of(data: Seq<u8>) -> Option<(Seq<char>, Seq<char>)> {
    match json_string_map_of(data) {
        Option::None => None,
        Option::Some(fields) => match (field_of(fields, "username"@), field_of(
            fields,
            "password"@,
        )) {
            (Option::Some(u), Option::Some(p)) => Some((u, p)),
            _ => None,
        },
    }
}

/// Parses a body as credentials; shared by login and registration.
fn parse_credentials(data: &Vec<u8>) -> (r: Option<(String, String)>)
    ensures
        match r {
            Some(c) => spec_credentials_of(data@) == Some((c.0@, c.1@)),
            None => (spec_credentials_of(data@) is None),
        },
{
    let fields = match parse_string_map(data) {
        Some(f) => f,
        None => {
            return None;
        },
    };
    proof {
        let s = json_string_map_of(data@).unwrap();
        assert(pairs_view(fields@) =~= s);
    }
    let username = match find_field(&fields, &String::from_str("username")) {
        Some(u) => u.clone(),
        None => {
            return None;
        },
    };
    let password = match find_field(&fields, &String::from_str("password")) {
        Some(p) => p.clone(),
        None => {
            return None;
        },
    };
    Some((username, password))
}

impl LoginRequestBody {
    /// Reads a login request from a JSON body.
    pub fn from_bytes(data: &Vec<u8>) -> (r: Option<LoginRequestBody>)
        ensures
            match r {
                Some(b) => spec_credentials_of(data@) == Some((b.username@, b.password@)),
                None => (spec_credentials_of(data@) is None),
            },
    {
        let (username, password) = parse_credentials(data)?;
        Some(LoginRequestBody { username, password })
    }
}

/// A registration request: the same two fields as a login.
pub struct RegisterRequestBody {
    pub username: String,
    pub password: String,
}

impl RegisterRequestBody {
    /// Reads a registration request from a JSON body.
    pub fn from_bytes(data: &Vec<u8>) -> (r: Option<RegisterRequestBody>)
        ensures
            match r {
                Some(b) => spec_credentials_of(data@) == Some((b.username@, b.password@)),
                None => (spec_credentials_of(data@) is None),
            },
    {
        let (username, password) = parse_credentials(data)?;
        Some(RegisterRequestBody { username, password })
    }
}

/// A handshake opening: the client's ephemeral public key bytes.
#[allow(non_camel_case_types)]
pub struct NTorInitRequestBody {
    pub public_key: Vec<u8>,
}

/// The public key a handshake body parses to: present exactly when the body
/// is a JSON object of byte arrays holding `public_key`.
pub open spec fn spec_init_request_of(data: Seq<u8>) -> Option<Seq<u8>> {
    match json_bytes_map_of(data) {
        Option::None => None,
        Option::Some(fields) => field_of(fields, "public_key"@),
    }
}

impl NTorInitRequestBody {
    /// Reads a handshake opening from a JSON body.
    pub fn from_bytes(data: &Vec<u8>) -> (r: Option<NTorInitRequestBody>)
        ensures
            match r {
                Some(b) => spec_init_request_of(data@) == Some(b.public_key@),
                None => (spec_init_request_of(data@) is None),
            },
    {
        let fields = match parse_bytes_map(data) {
            Some(f) => f,
            None => {
                return None;
            },
        };
        proof {
            let s = json_bytes_map_of(data@).unwrap();
            assert(pairs_view(fields@) =~= s);
        }
        let public_key = match find_field(&fields, &String::from_str("public_key")) {
            Some(k) => k.clone(),
            None => {
                return None;
            },
        };
        Some(NTorInitRequestBody { public_key })
    }
}

/// One sealed payload on the wire: the nonce and the ciphertext with its
/// tag.
#[allow(non_camel_case_types)]
pub struct NTorEncryptMessage {
    pub nonce: [u8; 12],
    pub encrypted: Vec<u8>,
}

/// `{"nonce":<12 bytes>,"encrypted":<bytes>}`.
pub open spec fn spec_encrypt_message_body(nonce: Seq<u8>, encrypted: Seq<u8>) -> Seq<u8> {
    encode_utf8("{\"nonce\":"@) + spec_json_bytes(nonce) + encode_utf8(",\"encrypted\":"@)
        + spec_json_bytes(encrypted) + encode_utf8("}"@)
}

/// The nonce and ciphertext a body parses to: present exactly when the body
/// is a JSON object of byte arrays holding `encrypted` and a 12-byte
/// `nonce`.
pub open spec fn spec_encrypt_message_of(data: Seq<u8>) -> Option<(Seq<u8>, Seq<u8>)> {
    match json_bytes_map_of(data) {
        Option::None => None,
        Option::Some(fields) => match (field_of(fields, "nonce"@), field_of(
            fields,
            "encrypted"@,
        )) {
            (Option::Some(n), Option::Some(e)) => if n.len() == 12 {
                Some((n, e))
            } else {
                None
            },
            _ => None,
        },
    }
}

impl NTorEncryptMessage {
    /// Serializes a sealed payload.
    pub fn to_bytes(&self) -> (r: Vec<u8>)
        ensures
            r@ == spec_encrypt_message_body(self.nonce@, self.encrypted@),
    {
        let mut out: Vec<u8> = Vec::new();
        push_lit(&mut out, "{\"nonce\":");
        let mut nonce_vec: Vec<u8> = Vec::new();
        nonce_vec.extend_from_slice(self.nonce.as_slice());
        proof {
            assert(nonce_vec@ =~= self.nonce@);
        }
        push_json_bytes(&mut out, &nonce_vec);
        push_lit(&mut out, ",\"encrypted\":");
        push_json_bytes(&mut out, &self.encrypted);
        push_lit(&mut out, "}");
        out
    }

    /// Reads a sealed payload from a JSON body.
    pub fn from_bytes(data: &Vec<u8>) -> (r: Option<NTorEncryptMessage>)
        ensures
            match r {
                Some(b) => spec_encrypt_message_of(data@) == Some((b.nonce@, b.encrypted@)),
                None => (spec_encrypt_message_of(data@) is None),
            },
    {
        let fields = match parse_bytes_map(data) {
            Some(f) => f,
            None => {
                return None;
            },
        };
        proof {
            let s = json_bytes_map_of(data@).unwrap();
            assert(pairs_view(fields@) =~= s);
        }
        let nonce_vec = match find_field(&fields, &String::from_str("nonce")) {
            Some(n) => n,
            None => {
                return None;
            },
        };
        let encrypted = match find_field(&fields, &String::from_str("encrypted")) {
            Some(e) => e.clone(),
            None => {
                return None;
            },
        };
        if nonce_vec.len() != 12 {
            return None;
        }
        let mut nonce: [u8; 12] = [0u8; 12];
        let mut i: usize = 0;
        while i < 12
            invariant
                i <= 12,
                nonce_vec@.len() == 12,
                nonce@.len() == 12,
                forall|j: int| 0 <= j < i ==> nonce@[j] == nonce_vec@[j],
            decreases 12 - i,
        {
            nonce[i] = nonce_vec[i];
            i += 1;
        }
        proof {
            assert(nonce@ =~= nonce_vec@);
        }
        Some(NTorEncryptMessage { nonce, encrypted })
    }
}

/// A successful login: the issued bearer token.
pub struct LoginResponseBody {
    pub token: String,
}

/// `{"token":<token>}`.
pub open spec fn spec_login_body(token: Seq<char>) -> Seq<u8> {
    encode_utf8("{\"token\":"@) + spec_json_string(token) + encode_utf8("}"@)
}

impl LoginResponseBody {
    /// Serializes the login response.
    pub fn to_bytes(&self) -> (r: Vec<u8>)
        ensures
            r@ == spec_login_body(self.token@),
    {
        let mut out: Vec<u8> = Vec::new();
        push_lit(&mut out, "{\"token\":");
        push_json_string(&mut out, self.token.as_str());
        push_lit(&mut out, "}");
        out
    }
}

/// The registration outcome.
pub struct RegisterResponseBody {
    pub success: bool,
    pub message: String,
}

/// `{"success":<bool>,"message":<message>}`.
pub open spec fn spec_register_body(success: bool, message: Seq<char>) -> Seq<u8> {
    encode_utf8("{\"success\":"@) + (if success {
        encode_utf8("true"@)
    } else {
        encode_utf8("false"@)
    }) + encode_utf8(",\"message\":"@) + spec_json_string(message) + encode_utf8("}"@)
}

impl RegisterResponseBody {
    /// Serializes the registration response.
    pub fn to_bytes(&self) -> (r: Vec<u8>)
        ensures
            r@ == spec_register_body(self.success, self.message@),
    {
        let mut out: Vec<u8> = Vec::new();
        push_lit(&mut out, "{\"success\":");
        if self.success {
            push_lit(&mut out, "true");
        } else {
            push_lit(&mut out, "false");
        }
        push_lit(&mut out, ",\"message\":");
        push_json_string(&mut out, self.message.as_str());
        push_lit(&mut out, "}");
        out
    }
}

/// `{"username":..,"title":..,"avatar":..,"bio":..,"email":..,
/// "location":..,"website":..}`.
pub open spec fn spec_metadata_obj(m: UserMetadata) -> Seq<u8> {
    encode_utf8("{\"username\":"@) + spec_json_string(m.username@) + encode_utf8(",\"title\":"@)
        + spec_json_string(m.title@) + encode_utf8(",\"avatar\":"@) + spec_json_string(m.avatar@)
        + encode_utf8(",\"bio\":"@) + spec_json_string(m.bio@) + encode_utf8(",\"email\":"@)
        + spec_json_string(m.email@) + encode_utf8(",\"location\":"@) + spec_json_string(
        m.location@,
    ) + encode_utf8(",\"website\":"@) + spec_json_string(m.website@) + encode_utf8("}"@)
}

/// Appends a profile record object.
fn push_metadata_obj(out: &mut Vec<u8>, m: &UserMetadata)
    ensures
        final(out)@ == old(out)@ + spec_metadata_obj(*m),
{
    push_lit(out, "{\"username\":");
    push_json_string(out, m.username.as_str());
    push_lit(out, ",\"title\":");
    push_json_string(out, m.title.as_str());
    push_lit(out, ",\"avatar\":");
    push_json_string(out, m.avatar.as_str());
    push_lit(out, ",\"bio\":");
    push_json_string(out, m.bio.as_str());
    push_lit(out, ",\"email\":");
    push_json_string(out, m.email.as_str());
    push_lit(out, ",\"location\":");
    push_json_string(out, m.location.as_str());
    push_lit(out, ",\"website\":");
    push_json_string(out, m.website.as_str());
    push_lit(out, "}");
    proof {
        assert(out@ =~= old(out)@ + spec_metadata_obj(*m));
    }
}

/// The authenticated user's profile.
pub struct GetProfileResponse {
    pub metadata: UserMetadata,
}

/// `{"metadata":<profile object>}`.
pub open spec fn spec_profile_body(m: UserMetadata) -> Seq<u8> {
    encode_utf8("{\"metadata\":"@) + spec_metadata_obj(m) + encode_utf8("}"@)
}

impl GetProfileResponse {
    /// Serializes the profile response.
    pub fn to_bytes(&self) -> (r: Vec<u8>)
        ensures
            r@ == spec_profile_body(self.metadata),
    {
        let mut out: Vec<u8> = Vec::new();
        push_lit(&mut out, "{\"metadata\":");
        push_metadata_obj(&mut out, &self.metadata);
        push_lit(&mut out, "}");
        proof {
            assert(out@ =~= spec_profile_body(self.metadata));
        }
        out
    }
}

/// One poem, looked up by id.
pub struct GetPoemResponse {
    pub id: i32,
    pub title: String,
    pub author: String,
    pub content: String,
}

/// `{"id":..,"title":..,"author":..,"content":..}`.
pub open spec fn spec_poem_obj(id: int, title: Seq<char>, author: Seq<char>, content: Seq<char>) -> Seq<
    u8,
> {
    encode_utf8("{\"id\":"@) + spec_dec_i64(id) + encode_utf8(",\"title\":"@) + spec_json_string(
        title,
    ) + encode_utf8(",\"author\":"@) + spec_json_string(author) + encode_utf8(",\"content\":"@)
        + spec_json_string(content) + encode_utf8("}"@)
}

/// Appends a poem object.
fn push_poem_obj(out: &mut Vec<u8>, id: i32, title: &String, author: &String, content: &String)
    ensures
        final(out)@ == old(out)@ + spec_poem_obj(id as int, title@, author@, content@),
{
    push_lit(out, "{\"id\":");
    push_dec_i64(out, id as i64);
    push_lit(out, ",\"title\":");
    push_json_string(out, title.as_str());
    push_lit(out, ",\"author\":");
    push_json_string(out, author.as_str());
    push_lit(out, ",\"content\":");
    push_json_string(out, content.as_str());
    push_lit(out, "}");
    proof {
        assert(out@ =~= old(out)@ + spec_poem_obj(id as int, title@, author@, content@));
    }
}

impl GetPoemResponse {
    /// Serializes one poem response.
    pub fn to_bytes(&self) -> (r: Vec<u8>)
        ensures
            r@ == spec_poem_obj(self.id as int, self.title@, self.author@, self.content@),
    {
        let mut out: Vec<u8> = Vec::new();
        push_poem_obj(&mut out, self.id, &self.title, &self.author, &self.content);
        proof {
            assert(out@ =~= spec_poem_obj(self.id as int, self.title@, self.author@, self.content@));
        }
        out
    }
}

/// The whole poem list.
pub struct GetPoemsResponse {
    pub poems: Vec<Poem>,
}

/// The comma-separated poem objects.
pub open spec fn spec_poems_body(ps: Seq<Poem>) -> Seq<u8>
    decreases ps.len(),
{
    if ps.len() == 0 {
        Seq::empty()
    } else if ps.len() == 1 {
        spec_poem_obj(ps[0].id as int, ps[0].title@, ps[0].author@, ps[0].content@)
    } else {
        spec_poems_body(ps.drop_last()) + encode_utf8(","@) + spec_poem_obj(
            ps.last().id as int,
            ps.last().title@,
            ps.last().author@,
            ps.last().content@,
        )
    }
}

/// `{"poems":[..]}`.
pub open spec fn spec_poems_response(ps: Seq<Poem>) -> Seq<u8> {
    encode_utf8("{\"poems\":["@) + spec_poems_body(ps) + encode_utf8("]}"@)
}

proof fn lemma_poems_body_push(ps: Seq<Poem>, p: Poem)
    ensures
        spec_poems_body(ps.push(p)) == if ps.len() == 0 {
            spec_poem_obj(p.id as int, p.title@, p.author@, p.content@)
        } else {
            spec_poems_body(ps) + encode_utf8(","@) + spec_poem_obj(
                p.id as int,
                p.title@,
                p.author@,
                p.content@,
            )
        },
{
    assert(ps.push(p).drop_last() =~= ps);
    assert(ps.push(p).last() == p);
}

impl GetPoemsResponse {
    /// Serializes the poem list.
    pub fn to_bytes(&self) -> (r: Vec<u8>)
        ensures
            r@ == spec_poems_response(self.poems@),
    {
        let mut out: Vec<u8> = Vec::new();
        push_lit(&mut out, "{\"poems\":[");
        let ghost base = out@;
        let mut i: usize = 0;
        proof {
            assert(self.poems@.take(0) =~= Seq::<Poem>::empty());
        }
        while i < self.poems.len()
            invariant
                i <= self.poems@.len(),
                out@ == base + spec_poems_body(self.poems@.take(i as int)),
            decreases self.poems@.len() - i,
        {
            if i > 0 {
                push_lit(&mut out, ",");
            }
            let p = &self.poems[i];
            push_poem_obj(&mut out, p.id, &p.title, &p.author, &p.content);
            proof {
                assert(self.poems@.take(i + 1) =~= self.poems@.take(i as int).push(
                    self.poems@[i as int],
                ));
                lemma_poems_body_push(self.poems@.take(i as int), self.poems@[i as int]);
                assert(out@ =~= base + spec_poems_body(self.poems@.take(i + 1)));
            }
            i += 1;
        }
        push_lit(&mut out, "]}");
        proof {
            assert(self.poems@.take(self.poems@.len() as int) =~= self.poems@);
            assert(out@ =~= spec_poems_response(self.poems@));
        }
        out
    }
}

/// One image record on the wire.
pub struct GetImageResponse {
    pub id: i32,
    pub title: String,
    pub file_name: String,
    pub content: Vec<u8>,
}

/// `{"id":..,"title":..,"file_name":..,"content":[..]}`.
pub open spec fn spec_image_obj(
    id: int,
    title: Seq<char>,
    file_name: Seq<char>,
    content: Seq<u8>,
) -> Seq<u8> {
    encode_utf8("{\"id\":"@) + spec_dec_i64(id) + encode_utf8(",\"title\":"@) + spec_json_string(
        title,
    ) + encode_utf8(",\"file_name\":"@) + spec_json_string(file_name) + encode_utf8(
        ",\"content\":"@,
    ) + spec_json_bytes(content) + encode_utf8("}"@)
}

/// Appends an image object.
fn push_image_obj(out: &mut Vec<u8>, img: &GetImageResponse)
    ensures
        final(out)@ == old(out)@ + spec_image_obj(
            img.id as int,
            img.title@,
            img.file_name@,
            img.content@,
        ),
{
    push_lit(out, "{\"id\":");
    push_dec_i64(out, img.id as i64);
    push_lit(out, ",\"title\":");
    push_json_string(out, img.title.as_str());
    push_lit(out, ",\"file_name\":");
    push_json_string(out, img.file_name.as_str());
    push_lit(out, ",\"content\":");
    push_json_bytes(out, &img.content);
    push_lit(out, "}");
    proof {
        assert(out@ =~= old(out)@ + spec_image_obj(
            img.id as int,
            img.title@,
            img.file_name@,
            img.content@,
        ));
    }
}

impl GetImageResponse {
    /// Serializes one image response.
    pub fn to_bytes(&self) -> (r: Vec<u8>)
        ensures
            r@ == spec_image_obj(self.id as int, self.title@, self.file_name@, self.content@),
    {
        let mut out: Vec<u8> = Vec::new();
        push_image_obj(&mut out, self);
        proof {
            assert(out@ =~= spec_image_obj(
                self.id as int,
                self.title@,
                self.file_name@,
                self.content@,
            ));
        }
        out
    }
}

/// The whole image list.
pub struct GetImagesResponse {
    pub images: Vec<GetImageResponse>,
}

/// The comma-separated image objects.
pub open spec fn spec_images_body(xs: Seq<GetImageResponse>) -> Seq<u8>
    decreases xs.len(),
{
    if xs.len() == 0 {
        Seq::empty()
    } else if xs.len() == 1 {
        spec_image_obj(xs[0].id as int, xs[0].title@, xs[0].file_name@, xs[0].content@)
    } else {
        spec_images_body(xs.drop_last()) + encode_utf8(","@) + spec_image_obj(
            xs.last().id as int,
            xs.last().title@,
            xs.last().file_name@,
            xs.last().content@,
        )
    }
}

/// `{"images":[..]}`.
pub open spec fn spec_images_response(xs: Seq<GetImageResponse>) -> Seq<u8> {
    encode_utf8("{\"images\":["@) + spec_images_body(xs) + encode_utf8("]}"@)
}

proof fn lemma_images_body_push(xs: Seq<GetImageResponse>, x: GetImageResponse)
    ensures
        spec_images_body(xs.push(x)) == if xs.len() == 0 {
            spec_image_obj(x.id as int, x.title@, x.file_name@, x.content@)
        } else {
            spec_images_body(xs) + encode_utf8(","@) + spec_image_obj(
                x.id as int,
                x.title@,
                x.file_name@,
                x.content@,
            )
        },
{
    assert(xs.push(x).drop_last() =~= xs);
    assert(xs.push(x).last() == x);
}

impl GetImagesResponse {
    /// Serializes the image list.
    #[verifier::rlimit(100)]
    #[verifier::spinoff_prover]
    pub fn to_bytes(&self) -> (r: Vec<u8>)
        ensures
            r@ == spec_images_response(self.images@),
    {
        let mut out: Vec<u8> = Vec::new();
        push_lit(&mut out, "{\"images\":[");
        let ghost base = out@;
        let mut i: usize = 0;
        proof {
            assert(self.images@.take(0) =~= Seq::<GetImageResponse>::empty());
        }
        while i < self.images.len()
            invariant
                i <= self.images@.len(),
                out@ == base + spec_images_body(self.images@.take(i as int)),
            decreases self.images@.len() - i,
        {
            if i > 0 {
                push_lit(&mut out, ",");
            }
            push_image_obj(&mut out, &self.images[i]);
            proof {
                assert(self.images@.take(i + 1) =~= self.images@.take(i as int).push(
                    self.images@[i as int],
                ));
                lemma_images_body_push(self.images@.take(i as int), self.images@[i as int]);
                assert(out@ =~= base + spec_images_body(self.images@.take(i + 1)));
            }
            i += 1;
        }
        push_lit(&mut out, "]}");
        proof {
            assert(self.images@.take(self.images@.len() as int) =~= self.images@);
            assert(out@ =~= spec_images_response(self.images@));
        }
        out
    }
}

/// The handshake answer on the wire: the server's ephemeral public key, the
/// authentication tag, the fresh session id, the server's static public key
/// and its identity.
#[allow(non_camel_case_types)]
pub struct NTorInitResponse {
    pub public_key: Vec<u8>,
    pub t_hash: Vec<u8>,
    pub session_id: String,
    pub static_public_key: Vec<u8>,
    pub server_id: String,
}

/// `{"public_key":..,"t_hash":..,"session_id":..,"static_public_key":..,
/// "server_id":..}`.
pub open spec fn spec_init_response_body(
    public_key: Seq<u8>,
    t_hash: Seq<u8>,
    session_id: Seq<char>,
    static_public_key: Seq<u8>,
    server_id: Seq<char>,
) -> Seq<u8> {
    encode_utf8("{\"public_key\":"@) + spec_json_bytes(public_key) + encode_utf8(",\"t_hash\":"@)
        + spec_json_bytes(t_hash) + encode_utf8(",\"session_id\":"@) + spec_json_string(session_id)
        + encode_utf8(",\"static_public_key\":"@) + spec_json_bytes(static_public_key)
        + encode_utf8(",\"server_id\":"@) + spec_json_string(server_id) + encode_utf8("}"@)
}

impl NTorInitResponse {
    /// Serializes the handshake answer.
    pub fn to_bytes(&self) -> (r: Vec<u8>)
        ensures
            r@ == spec_init_response_body(
                self.public_key@,
                self.t_hash@,
                self.session_id@,
                self.static_public_key@,
                self.server_id@,
            ),
    {
        let mut out: Vec<u8> = Vec::new();
        push_lit(&mut out, "{\"public_key\":");
        push_json_bytes(&mut out, &self.public_key);
        push_lit(&mut out, ",\"t_hash\":");
        push_json_bytes(&mut out, &self.t_hash);
        push_lit(&mut out, ",\"session_id\":");
        push_json_string(&mut out, self.session_id.as_str());
        push_lit(&mut out, ",\"static_public_key\":");
        push_json_bytes(&mut out, &self.static_public_key);
        push_lit(&mut out, ",\"server_id\":");
        push_json_string(&mut out, self.server_id.as_str());
        push_lit(&mut out, "}");
        proof {
            assert(out@ =~= spec_init_response_body(
                self.public_key@,
                self.t_hash@,
                self.session_id@,
                self.static_public_key@,
                self.server_id@,
            ));
        }
        out
    }
}

} // verus!
