//! The file-sharing ledger: which share tokens are live, whose file each
//! one points at, and the texts the sharing flow sends.  Directory and
//! file I/O, and the random token itself, are the caller's side; the
//! ledger only decides.
use crate::numeric::{render_i64, spec_render_i64};
use vstd::prelude::*;
use vstd::string::*;

verus! {

/// Ghost model of a [`SharedFile`].
#[verifier::ext_equal]
pub struct SharedFileModel {
    pub owner_id: int,
    pub file_path: Seq<char>,
    pub file_name: Seq<char>,
}

/// One shared file: its owner and where it is stored.
#[derive(Debug)]
pub struct SharedFile {
    pub owner_id: i64,
    pub file_path: String,
    pub file_name: String,
}

impl View for SharedFile {
    type V = SharedFileModel;

    open spec fn view(&self) -> SharedFileModel {
        SharedFileModel {
            owner_id: self.owner_id as int,
            file_path: self.file_path@,
            file_name: self.file_name@,
        }
    }
}

/// First-match token lookup in the ledger.
pub open spec fn token_lookup(
    s: Seq<(Seq<char>, SharedFileModel)>,
    token: Seq<char>,
) -> Option<SharedFileModel>
    decreases s.len(),
{
    if s.len() == 0 {
        None
    } else if s[0].0 == token {
        Some(s[0].1)
    } else {
        token_lookup(s.drop_first(), token)
    }
}

/// The share-link ledger of the file manager.
pub struct FileManager {
    share_links: Vec<(String, SharedFile)>,
}

pub open spec fn link_models(s: Seq<(String, SharedFile)>) -> Seq<(Seq<char>, SharedFileModel)> {
    s.map_values(|e: (String, SharedFile)| (e.0@, e.1@))
}

/// The public link a token is served under.
pub open spec fn spec_share_link(token: Seq<char>) -> Seq<char> {
    "https://yourdomain.com/share/ "@ + token
}

/// The caption a shared file is delivered with.
pub open spec fn spec_share_caption(owner_id: int) -> Seq<char> {
    "Файл от пользователя "@ + spec_render_i64(owner_id)
}

impl FileManager {
    /// The live share entry of a token, if any.
    pub closed spec fn spec_link(&self, token: Seq<char>) -> Option<SharedFileModel> {
        token_lookup(link_models(self.share_links@), token)
    }

    /// A fresh ledger with no live links.
    pub fn new() -> (r: Self)
        ensures
            forall|t: Seq<char>| r.spec_link(t) is None,
    {
        let share_links: Vec<(String, SharedFile)> = Vec::new();
        proof {
            assert(link_models(share_links@) =~= Seq::<(Seq<char>, SharedFileModel)>::empty());
        }
        FileManager { share_links }
    }

    /// Register a share under a freshly generated token, provided the file
    /// is there: the caller reports whether it found it on disk.  Yields
    /// the public link, or the not-found error.
    pub fn generate_share_link(
        &mut self,
        owner_id: i64,
        file_path: String,
        file_name: String,
        token: String,
        file_exists: bool,
    ) -> (r: Result<String, String>)
        ensures
            !file_exists ==> {
                &&& r matches Err(e) && e@ == "File not found"@
                &&& forall|t: Seq<char>| final(self).spec_link(t) == old(self).spec_link(t)
            },
            file_exists ==> {
                &&& r matches Ok(link) && link@ == spec_share_link(token@)
                &&& final(self).spec_link(token@) matches Some(s) && s == (SharedFileModel {
                    owner_id: owner_id as int,
                    file_path: file_path@,
                    file_name: file_name@,
                })
            },
    {
        if !file_exists {
            return Err(String::from_str("File not found"));
        }
        let ghost tm = token@;
        let ghost old_models = link_models(self.share_links@);
        let mut link = String::from_str("https://yourdomain.com/share/ ");
        link.append(token.as_str());
        let entry = SharedFile { owner_id, file_path, file_name };
        let ghost em = entry@;
        self.share_links.insert(0, (token, entry));
        proof {
            assert(link_models(self.share_links@) =~= seq![(tm, em)] + old_models);
            assert(link_models(self.share_links@)[0] == (tm, em));
        }
        Ok(link)
    }

    /// Serve a share link: the delivery caption for a live token, the
    /// invalid-link error otherwise.
    pub fn handle_shared_link(&self, token: &str) -> (r: Result<String, String>)
        ensures
            match self.spec_link(token@) {
                Some(s) => r matches Ok(c) && c@ == spec_share_caption(s.owner_id),
                None => r matches Err(e) && e@
                    == "Ссылка недействительна или истекло время действия"@,
            },
    {
        let ghost ms = link_models(self.share_links@);
        let mut i: usize = 0;
        while i < self.share_links.len()
            invariant
                i <= self.share_links@.len(),
                ms == link_models(self.share_links@),
                forall|j: int| 0 <= j < i ==> ms[j].0 != token@,
            decreases self.share_links@.len() - i,
        {
            if crate::text::str_eq(self.share_links[i].0.as_str(), token) {
                proof {
                    lemma_token_lookup_skip(ms, token@, i as int);
                    assert(ms.skip(i as int)[0] == ms[i as int]);
                }
                let mut caption = String::from_str("Файл от пользователя ");
                caption.append(render_i64(self.share_links[i].1.owner_id).as_str());
                return Ok(caption);
            }
            i += 1;
        }
        proof {
            lemma_token_lookup_skip(ms, token@, i as int);
            assert(ms.skip(i as int) =~= Seq::<(Seq<char>, SharedFileModel)>::empty());
        }
        Err(String::from_str("Ссылка недействительна или истекло время действия"))
    }

    /// Drop expired links.  No lifetime policy is set yet, so every link
    /// is kept.
    pub fn cleanup_expired_links(&mut self)
        ensures
            forall|t: Seq<char>| final(self).spec_link(t) == old(self).spec_link(t),
    {
    }
}

proof fn lemma_token_lookup_skip(s: Seq<(Seq<char>, SharedFileModel)>, token: Seq<char>, i: int)
    requires
        0 <= i <= s.len(),
        forall|j: int| 0 <= j < i ==> s[j].0 != token,
    ensures
        token_lookup(s, token) == token_lookup(s.skip(i), token),
    decreases i,
{
    if i > 0 {
        lemma_token_lookup_skip(s.drop_first(), token, i - 1);
        assert(s.drop_first().skip(i - 1) =~= s.skip(i));
    } else {
        assert(s.skip(0) =~= s);
    }
}

} // verus!
