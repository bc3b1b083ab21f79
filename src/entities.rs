use std::collections::HashMap;

use vstd::prelude::*;
use vstd::string::StringExecFns;

verus! {

/// User
#[derive(Debug)]
pub struct User {
    /// Primary key
    pub id: i32,
    /// Username
    pub username: String,
    /// Encrypted password
    pub encrypted_password: String,
    /// When the user was created, in seconds since the Unix epoch
    pub created_at: i64,
}

/// New user
#[derive(Debug)]
pub struct NewUser<'a> {
    /// Username
    pub username: &'a str,
    /// Raw password, encrypted before it is saved
    pub password: &'a str,
}

/// New user with encrypted password
#[derive(Debug)]
pub struct NewUserWithEncryptedPassword<'a> {
    /// Username
    pub username: &'a str,
    /// Encrypted password
    pub encrypted_password: &'a str,
}

/// User authentication
#[derive(Debug)]
pub struct Authentication<'a> {
    /// Username
    pub username: &'a str,
    /// Password
    pub password: &'a str,
}

/// Scrape
#[derive(Debug)]
pub struct Scrape {
    /// Primary key
    pub id: i32,
    /// User ID
    pub user_id: Option<i32>,
    /// URL that was scraped
    pub url: String,
    /// Scraped with headless Chromium
    pub headless: bool,
    /// Optional title
    pub title: Option<String>,
    /// Actual content from URL
    pub content: Vec<u8>,
    /// Optional searchable content, must be a string
    pub searchable_content: Option<String>,
    /// When the URL was scraped, in seconds since the Unix epoch
    pub created_at: i64,
}

/// Search parameters on scrapes
#[derive(Debug, Default)]
pub struct SearchScrape<'a> {
    /// Search URL
    pub url: Option<&'a str>,
    /// Search title
    pub title: Option<&'a str>,
    /// Search content
    pub content: Option<&'a str>,
    /// Users to be loaded
    pub users: Option<HashMap<i32, User>>,
}

/// Does `password` hash to the bcrypt hash `hash`? `None` when `hash` is no
/// well-formed bcrypt hash or `password` holds a NUL character.
pub uninterp spec fn bcrypt_verdict(password: Seq<char>, hash: Seq<char>) -> Option<bool>;

/// Relies on `bcrypt::verify`: hashes `password` with the cost and salt of
/// `hash` and compares; an error of the crate becomes `None`. The answer
/// depends on the two strings alone.
#[verifier::external_body]
fn verify_password(password: &str, hash: &str) -> (r: Option<bool>)
    ensures
        r == bcrypt_verdict(password@, hash@),
{
    bcrypt::verify(password, hash).ok()
}

impl<'a> Authentication<'a> {
    /// Validate `user`, the user stored under this username if there is one:
    /// it is handed back only when the password matches its encrypted password.
    pub fn authenticate(&self, user: Option<User>) -> (r: Option<User>)
        ensures
            r is Some <==> (user matches Some(u) && bcrypt_verdict(
                self.password@,
                u.encrypted_password@,
            ) == Some(true)),
            r is Some ==> r == user,
    {
        match user {
            None => None,
            Some(user) => match verify_password(self.password, user.encrypted_password.as_str()) {
                Some(true) => Some(user),
                _ => None,
            },
        }
    }
}

/// Traits of a scrape, e.g. headless? searchable?
#[derive(Clone, Copy, Debug)]
pub struct ScrapeTraits {
    /// Scraped with headless Chromium?
    pub headless: bool,
    /// Searchable with SQL syntax?
    pub searchable: bool,
}

/// The traits that are set, by name, in the order headless, searchable,
/// separated by commas.
pub open spec fn spec_traits_text(headless: bool, searchable: bool) -> Seq<char> {
    if headless && searchable {
        "headless,searchable"@
    } else if headless {
        "headless"@
    } else if searchable {
        "searchable"@
    } else {
        ""@
    }
}

impl ScrapeTraits {
    /// The traits that are set, e.g. `headless,searchable`.
    pub fn to_string(&self) -> (r: String)
        ensures
            r@ == spec_traits_text(self.headless, self.searchable),
    {
        let text: &str = if self.headless && self.searchable {
            "headless,searchable"
        } else if self.headless {
            "headless"
        } else if self.searchable {
            "searchable"
        } else {
            ""
        };
        text.to_owned()
    }
}

/// The user IDs of `scrapes` that have one, in order.
pub open spec fn spec_user_ids(scrapes: Seq<Scrape>) -> Seq<i32>
    decreases scrapes.len(),
{
    if scrapes.len() == 0 {
        Seq::empty()
    } else {
        let before = spec_user_ids(scrapes.subrange(0, scrapes.len() - 1));
        match scrapes.last().user_id {
            Some(id) => before.push(id),
            None => before,
        }
    }
}

/// `users` once each of `loaded` is recorded under its ID, in order, so that
/// of two with one ID the later stays.
pub open spec fn spec_record_users(users: Map<i32, User>, loaded: Seq<User>) -> Map<i32, User>
    decreases loaded.len(),
{
    if loaded.len() == 0 {
        users
    } else {
        spec_record_users(users, loaded.subrange(0, loaded.len() - 1)).insert(
            loaded.last().id,
            loaded.last(),
        )
    }
}

/// `s` in lower case, as Unicode defines it.
pub uninterp spec fn lower_of(s: Seq<char>) -> Seq<char>;

/// Relies on `str::to_lowercase`: the lower-case mapping of each character,
/// which depends on the characters alone.
#[verifier::external_body]
fn lowercase(s: &str) -> (r: String)
    ensures
        r@ == lower_of(s@),
{
    s.to_lowercase()
}

/// A SQL `LIKE` pattern that matches any text holding `term`, in lower case.
pub open spec fn spec_search_pattern(term: Seq<char>) -> Seq<char> {
    "%"@ + lower_of(term) + "%"@
}

impl Scrape {
    /// The pattern a search term is matched with, against lower-cased columns.
    pub fn search_pattern(term: &str) -> (r: String)
        ensures
            r@ == spec_search_pattern(term@),
    {
        let lower = lowercase(term);
        let mut pattern = "%".to_owned();
        pattern.append(lower.as_str());
        pattern.append("%");
        pattern
    }

    /// Record each of `loaded` in `users` under its ID, replacing what was there.
    pub fn record_users(users: &mut HashMap<i32, User>, loaded: Vec<User>)
        ensures
            final(users)@ == spec_record_users(old(users)@, loaded@),
    {
        broadcast use vstd::std_specs::hash::group_hash_axioms;

        let ghost start = users@;
        let ghost all = loaded@;
        for user in it: loaded.into_iter()
            invariant
                it.seq() == all,
                users@ == spec_record_users(start, all.subrange(0, it.index() as int)),
        {
            proof {
                let done = all.subrange(0, it.index() as int + 1);
                assert(done.subrange(0, done.len() - 1) =~= all.subrange(
                    0,
                    it.index() as int,
                ));
            }
            users.insert(user.id, user);
        }
        assert(all.subrange(0, all.len() as int) =~= all);
    }

    /// The IDs of the users that own `scrapes`, in the order of the scrapes;
    /// a scrape without a user adds none.
    pub fn user_ids(scrapes: &[Scrape]) -> (r: Vec<i32>)
        ensures
            r@ == spec_user_ids(scrapes@),
    {
        let mut ids: Vec<i32> = Vec::new();
        let mut i: usize = 0;
        while i < scrapes.len()
            invariant
                i <= scrapes@.len(),
                ids@ == spec_user_ids(scrapes@.subrange(0, i as int)),
            decreases scrapes@.len() - i,
        {
            assert(scrapes@.subrange(0, i as int + 1).subrange(0, i as int) =~= scrapes@.subrange(
                0,
                i as int,
            ));
            if let Some(id) = scrapes[i].user_id {
                ids.push(id);
            }
            i += 1;
        }
        assert(scrapes@.subrange(0, scrapes@.len() as int) =~= scrapes@);
        ids
    }

    /// Show properties
    pub fn traits(&self) -> (r: ScrapeTraits)
        ensures
            r.headless == self.headless,
            r.searchable == self.searchable_content is Some,
    {
        ScrapeTraits { headless: self.headless, searchable: self.searchable_content.is_some() }
    }
}

/// New scrape
#[derive(Debug)]
pub struct NewScrape<'a> {
    /// Overwrite if entry exists?
    pub force: bool,
    /// URL scraped
    pub url: &'a str,
    /// Optional user ID
    pub user_id: Option<i32>,
    /// Scrape with headless Chromium
    pub headless: bool,
    /// Optional title
    pub title: Option<String>,
    /// Actual content from URL
    pub content: Vec<u8>,
    /// Searchable content
    pub searchable_content: Option<String>,
}

/// New scrape to database
#[derive(Debug)]
pub struct StrictNewScrape<'a> {
    /// URL scraped
    pub url: &'a str,
    /// User ID
    pub user_id: Option<i32>,
    /// Scrape with headless Chromium
    pub headless: bool,
    /// Optional title
    pub title: Option<&'a str>,
    /// Actual content from URL
    pub content: Vec<u8>,
    /// Optional searchable content
    pub searchable_content: Option<&'a str>,
}

} // verus!
