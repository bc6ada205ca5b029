//! The in-memory directory: user passwords and profiles, the poem and image
//! records, and the store of completed handshake sessions. Every lookup is
//! exact; a missing key is always reported, never defaulted.
use crate::json::spec_dec_i64;
use crate::kv::KvList;
use crate::ntor::Server;
use vstd::prelude::*;
use vstd::utf8::encode_utf8;

verus! {

/// A user's profile record.
#[derive(Clone, Debug)]
pub struct UserMetadata {
    pub username: String,
    pub title: String,
    pub avatar: String,
    pub bio: String,
    pub email: String,
    pub location: String,
    pub website: String,
}

/// One poem record.
#[derive(Clone, Debug)]
pub struct Poem {
    pub id: i32,
    pub title: String,
    pub author: String,
    pub content: String,
}

/// One image record; its content may still be unloaded (empty).
#[derive(Clone, Debug)]
pub struct Image {
    pub id: i32,
    pub name: String,
    pub file_path: String,
    pub file_name: String,
    pub content: Vec<u8>,
}

/// A record id matches a query parameter when the parameter reads as
/// exactly the record id's decimal digits.
pub open spec fn id_matches(record_id: int, id: Seq<char>) -> bool {
    encode_utf8(id) == spec_dec_i64(record_id)
}

/// Renders an id and compares it with a query parameter.
fn render_id_eq(record_id: i32, id: &String) -> (r: bool)
    ensures
        r == id_matches(record_id as int, id@),
{
    let mut digits: Vec<u8> = Vec::new();
    crate::json::push_dec_i64(&mut digits, record_id as i64);
    let param = id.as_str().as_bytes_vec();
    proof {
        assert(digits@ =~= spec_dec_i64(record_id as int));
    }
    crate::bytes_eq(&param, &digits)
}

#[allow(non_camel_case_types)]
pub struct WGPDatabase {
    user_password: KvList<String>,
    user_metadata: KvList<UserMetadata>,
    poems: Vec<Poem>,
    images: Vec<Image>,
    ntor_sessions: KvList<Server>,
}

impl WGPDatabase {
    /// The stores keep their keys unique.
    pub closed spec fn wf(self) -> bool {
        self.user_password.wf() && self.user_metadata.wf() && self.ntor_sessions.wf()
    }

    /// The password directory, by username.
    pub closed spec fn passwords(self) -> Map<Seq<char>, String> {
        self.user_password@
    }

    /// The profile directory, by username.
    pub closed spec fn metadata(self) -> Map<Seq<char>, UserMetadata> {
        self.user_metadata@
    }

    /// The poem records.
    pub closed spec fn spec_poems(self) -> Seq<Poem> {
        self.poems@
    }

    /// The image records.
    pub closed spec fn spec_images(self) -> Seq<Image> {
        self.images@
    }

    /// The session store, by session id.
    pub closed spec fn sessions(self) -> Map<Seq<char>, Server> {
        self.ntor_sessions@
    }

    /// The directory as shipped: one test user, five poems, five images with
    /// unloaded content, no sessions.
    pub fn new() -> (r: WGPDatabase)
        ensures
            r.wf(),
            r.passwords() == Map::<Seq<char>, String>::empty().insert(
                "tester"@,
                r.passwords()["tester"@],
            ),
            r.passwords()["tester"@]@ == "1234"@,
            r.metadata().dom() == Set::<Seq<char>>::empty().insert("tester"@),
            r.spec_poems().len() == 5,
            forall|i: int| 0 <= i < 5 ==> #[trigger] r.spec_poems()[i].id == i + 1,
            r.spec_poems()[0].title@ == "The Road Not Taken"@,
            r.spec_poems()[1].title@ == "Still I Rise"@,
            r.spec_poems()[2].title@ == "Ozymandias"@,
            r.spec_poems()[3].title@ == "If"@,
            r.spec_poems()[4].title@ == "Annabel Lee"@,
            r.spec_images().len() == 5,
            forall|i: int| 0 <= i < 5 ==> #[trigger] r.spec_images()[i].id == i + 1,
            r.spec_images()[0].content@ == Seq::<u8>::empty(),
            r.sessions() == Map::<Seq<char>, Server>::empty(),
    {
        let mut user_password: KvList<String> = KvList::new();
        user_password.set(String::from_str("tester"), String::from_str("1234"));

        let mut user_metadata: KvList<UserMetadata> = KvList::new();
        user_metadata.set(
            String::from_str("tester"),
            UserMetadata {
                username: String::from_str("tester"),
                title: String::from_str("AI Assistant by OpenAI"),
                avatar: String::from_str(
                    "https://upload.wikimedia.org/wikipedia/commons/0/04/ChatGPT_logo.svg",
                ),
                bio: String::from_str(
                    "ChatGPT is a language model designed to assist with writing, coding, learning, and more. Trained on a wide range of data, it aims to provide accurate, clear, and human-like responses to support users in diverse tasks.",
                ),
                email: String::from_str("Not applicable"),
                location: String::from_str("The Cloud"),
                website: String::from_str("https://openai.com/chatgpt"),
            },
        );

        let mut poems: Vec<Poem> = Vec::new();
        poems.push(
            Poem {
                id: 1,
                title: String::from_str("The Road Not Taken"),
                author: String::from_str("Robert Frost"),
                content: String::from_str(
                    "Two roads diverged in a yellow wood,\nAnd sorry I could not travel both...",
                ),
            },
        );
        poems.push(
            Poem {
                id: 2,
                title: String::from_str("Still I Rise"),
                author: String::from_str("Maya Angelou"),
                content: String::from_str(
                    "You may write me down in history\nWith your bitter, twisted lies...",
                ),
            },
        );
        poems.push(
            Poem {
                id: 3,
                title: String::from_str("Ozymandias"),
                author: String::from_str("Percy Bysshe Shelley"),
                content: String::from_str(
                    "I met a traveller from an antique land\nWho said: Two vast and trunkless legs of stone...",
                ),
            },
        );
        poems.push(
            Poem {
                id: 4,
                title: String::from_str("If"),
                author: String::from_str("Rudyard Kipling"),
                content: String::from_str(
                    "If you can keep your head when all about you\nAre losing theirs and blaming it on you...",
                ),
            },
        );
        poems.push(
            Poem {
                id: 5,
                title: String::from_str("Annabel Lee"),
                author: String::from_str("Edgar Allan Poe"),
                content: String::from_str(
                    "It was many and many a year ago,\nIn a kingdom by the sea...",
                ),
            },
        );

        let mut images: Vec<Image> = Vec::new();
        images.push(
            Image {
                id: 1,
                name: String::from_str("Sample Image 1"),
                file_path: String::from_str("src/message/images"),
                file_name: String::from_str("sample1.jpeg"),
                content: Vec::new(),
            },
        );
        images.push(
            Image {
                id: 2,
                name: String::from_str("Sample Image 2"),
                file_path: String::from_str("src/message/images"),
                file_name: String::from_str("sample2.jpeg"),
                content: Vec::new(),
            },
        );
        images.push(
            Image {
                id: 3,
                name: String::from_str("Sample Image 3"),
                file_path: String::from_str("src/message/images"),
                file_name: String::from_str("sample3.jpeg"),
                content: Vec::new(),
            },
        );
        images.push(
            Image {
                id: 4,
                name: String::from_str("Sample Image 4"),
                file_path: String::from_str("src/message/images"),
                file_name: String::from_str("sample4.jpeg"),
                content: Vec::new(),
            },
        );
        images.push(
            Image {
                id: 5,
                name: String::from_str("Sample Image 5"),
                file_path: String::from_str("src/message/images"),
                file_name: String::from_str("sample5.jpeg"),
                content: Vec::new(),
            },
        );

        WGPDatabase {
            user_password,
            user_metadata,
            poems,
            images,
            ntor_sessions: KvList::new(),
        }
    }

    /// Registers a user: stores the password and the profile under the
    /// username, overwriting earlier entries.
    pub fn add_user(&mut self, username: String, password: String, metadata: UserMetadata)
        requires
            old(self).wf(),
        ensures
            final(self).wf(),
            final(self).passwords() == old(self).passwords().insert(username@, password),
            final(self).metadata() == old(self).metadata().insert(username@, metadata),
            final(self).spec_poems() == old(self).spec_poems(),
            final(self).spec_images() == old(self).spec_images(),
            final(self).sessions() == old(self).sessions(),
    {
        let meta_key = username.clone();
        self.user_password.set(username, password);
        self.user_metadata.set(meta_key, metadata);
    }

    /// The password stored for a username, if any.
    pub fn get_password(&self, username: &String) -> (r: Option<&String>)
        requires
            self.wf(),
        ensures
            match r {
                Some(p) => self.passwords().contains_key(username@) && *p
                    == self.passwords()[username@],
                None => !self.passwords().contains_key(username@),
            },
    {
        self.user_password.get(username)
    }

    /// The profile stored for a username, if any.
    pub fn get_metadata(&self, username: &String) -> (r: Option<&UserMetadata>)
        requires
            self.wf(),
        ensures
            match r {
                Some(m) => self.metadata().contains_key(username@) && *m
                    == self.metadata()[username@],
                None => !self.metadata().contains_key(username@),
            },
    {
        self.user_metadata.get(username)
    }

    /// Whether a username is taken.
    pub fn user_exists(&self, username: &String) -> (r: bool)
        requires
            self.wf(),
        ensures
            r == self.passwords().contains_key(username@),
    {
        self.user_password.contains_key(username)
    }

    /// All poem records.
    pub fn get_poems(&self) -> (r: &Vec<Poem>)
        ensures
            r@ == self.spec_poems(),
    {
        &self.poems
    }

    /// The first poem whose id reads as the given parameter.
    pub fn get_poem(&self, id: &String) -> (r: Option<&Poem>)
        ensures
            match r {
                Some(p) => exists|i: int|
                    {
                        &&& 0 <= i < self.spec_poems().len()
                        &&& #[trigger] self.spec_poems()[i] == *p
                        &&& id_matches(self.spec_poems()[i].id as int, id@)
                        &&& forall|j: int|
                            0 <= j < i ==> !id_matches(
                                #[trigger] self.spec_poems()[j].id as int,
                                id@,
                            )
                    },
                None => forall|i: int|
                    0 <= i < self.spec_poems().len() ==> !id_matches(
                        #[trigger] self.spec_poems()[i].id as int,
                        id@,
                    ),
            },
    {
        let mut i: usize = 0;
        while i < self.poems.len()
            invariant
                i <= self.poems@.len(),
                forall|j: int| 0 <= j < i ==> !id_matches(#[trigger] self.poems@[j].id as int, id@),
            decreases self.poems@.len() - i,
        {
            if render_id_eq(self.poems[i].id, id) {
                proof {
                    assert(self.spec_poems()[i as int] == self.poems@[i as int]);
                }
                return Some(&self.poems[i]);
            }
            i += 1;
        }
        None
    }

    /// The first image whose id reads as the given parameter; the record is
    /// returned as stored, its content possibly still unloaded.
    pub fn get_image(&self, id: &String) -> (r: Result<&Image, String>)
        ensures
            match r {
                Ok(img) => exists|i: int|
                    {
                        &&& 0 <= i < self.spec_images().len()
                        &&& #[trigger] self.spec_images()[i] == *img
                        &&& id_matches(self.spec_images()[i].id as int, id@)
                        &&& forall|j: int|
                            0 <= j < i ==> !id_matches(
                                #[trigger] self.spec_images()[j].id as int,
                                id@,
                            )
                    },
                Err(e) => {
                    &&& forall|i: int|
                        0 <= i < self.spec_images().len() ==> !id_matches(
                            #[trigger] self.spec_images()[i].id as int,
                            id@,
                        )
                    &&& e@ == "Image with id "@ + id@ + " not found"@
                },
            },
    {
        let mut i: usize = 0;
        while i < self.images.len()
            invariant
                i <= self.images@.len(),
                forall|j: int|
                    0 <= j < i ==> !id_matches(#[trigger] self.images@[j].id as int, id@),
            decreases self.images@.len() - i,
        {
            if render_id_eq(self.images[i].id, id) {
                proof {
                    assert(self.spec_images()[i as int] == self.images@[i as int]);
                }
                return Ok(&self.images[i]);
            }
            i += 1;
        }
        let msg = String::from_str("Image with id ").concat(id.as_str()).concat(" not found");
        Err(msg)
    }

    /// Stores loaded content into the first image record with this id;
    /// returns whether such a record exists. The disk read itself belongs
    /// to the caller.
    pub fn set_image_content(&mut self, id: i32, content: Vec<u8>) -> (r: bool)
        requires
            old(self).wf(),
        ensures
            final(self).wf(),
            final(self).passwords() == old(self).passwords(),
            final(self).metadata() == old(self).metadata(),
            final(self).spec_poems() == old(self).spec_poems(),
            final(self).sessions() == old(self).sessions(),
            r == (exists|i: int|
                0 <= i < old(self).spec_images().len() && #[trigger] old(self).spec_images()[i].id
                    == id),
            r ==> exists|i: int|
                {
                    &&& 0 <= i < old(self).spec_images().len()
                    &&& #[trigger] old(self).spec_images()[i].id == id
                    &&& (forall|j: int| 0 <= j < i ==> old(self).spec_images()[j].id != id)
                    &&& final(self).spec_images() == old(self).spec_images().update(
                        i,
                        Image { content: content, ..old(self).spec_images()[i] },
                    )
                },
            !r ==> final(self).spec_images() == old(self).spec_images(),
    {
        let mut i: usize = 0;
        while i < self.images.len()
            invariant
                i <= self.images@.len(),
                self.wf(),
                self.images@ == old(self).spec_images(),
                self.user_password == old(self).user_password,
                self.user_metadata == old(self).user_metadata,
                self.poems == old(self).poems,
                self.ntor_sessions == old(self).ntor_sessions,
                forall|j: int| 0 <= j < i ==> #[trigger] self.images@[j].id != id,
            decreases self.images@.len() - i,
        {
            if self.images[i].id == id {
                let updated = Image {
                    id: self.images[i].id,
                    name: self.images[i].name.clone(),
                    file_path: self.images[i].file_path.clone(),
                    file_name: self.images[i].file_name.clone(),
                    content,
                };
                proof {
                    assert(updated == (Image {
                        content: updated.content,
                        ..old(self).spec_images()[i as int]
                    }));
                }
                self.images[i] = updated;
                proof {
                    assert(old(self).spec_images()[i as int].id == id);
                }
                return true;
            }
            i += 1;
        }
        false
    }

    /// All image records.
    pub fn get_images(&self) -> (r: &Vec<Image>)
        ensures
            r@ == self.spec_images(),
    {
        &self.images
    }

    /// Stores a completed handshake engine under its session id,
    /// overwriting any engine stored under the same id.
    pub fn save_ntor_session(&mut self, session_id: &String, server: Server)
        requires
            old(self).wf(),
        ensures
            final(self).wf(),
            final(self).sessions() == old(self).sessions().insert(session_id@, server),
            final(self).passwords() == old(self).passwords(),
            final(self).metadata() == old(self).metadata(),
            final(self).spec_poems() == old(self).spec_poems(),
            final(self).spec_images() == old(self).spec_images(),
    {
        self.ntor_sessions.set(session_id.clone(), server);
    }

    /// The engine stored under a session id, if any; a missing id is never
    /// defaulted.
    pub fn get_ntor_session(&self, session_id: &String) -> (r: Option<&Server>)
        requires
            self.wf(),
        ensures
            match r {
                Some(s) => self.sessions().contains_key(session_id@) && *s
                    == self.sessions()[session_id@],
                None => !self.sessions().contains_key(session_id@),
            },
    {
        self.ntor_sessions.get(session_id)
    }
}

} // verus!
