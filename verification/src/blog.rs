//! Blog posts: the records of the static site builder and its errors.
use vstd::prelude::*;
use crate::text::{chars_eq, chars_of, utf8_len};

verus! {

/// A static site organized into blocks which compile to HTML
#[derive(Debug)]
pub struct Post {
    /// The ID of the site
    pub id: String,
    /// The **unique** slug of the site
    pub slug: String,
    /// The owner of the site (also the only one who can edit it)
    pub owner: String,
    /// The time in which the site was created
    pub published: u128,
    /// The time in which the site was edited
    pub edited: u128,
    /// The content of the site
    pub content: String,
    /// Additional context for the site
    pub context: PostContext,
}

/// Additional information about a [`Post`]
#[derive(Debug)]
pub struct PostContext {}

#[derive(Debug)]
pub struct PostCreate {
    pub slug: String,
    pub content: String,
}

#[derive(Debug)]
pub struct PostEdit {
    pub content: String,
}

/// Query of a paginated listing.
#[derive(Debug)]
pub struct PaginatedQuery {
    pub page: i32,
}

/// Query of the post editor.
#[derive(Debug)]
pub struct EditorQuery {
    pub slug: String,
}

/// General API errors
#[derive(Clone, Copy, Debug, PartialEq, Eq, Structural)]
pub enum DatabaseError {
    InvalidNameUnique,
    ContentTooShort,
    ContentTooLong,
    InvalidName,
    NotAllowed,
    ValueError,
    NotFound,
    Other,
}

/// The message shown for an error.
pub open spec fn error_message(e: DatabaseError) -> Seq<char> {
    match e {
        DatabaseError::ContentTooShort => "Content too short!"@,
        DatabaseError::ContentTooLong => "Content too long!"@,
        DatabaseError::InvalidName => "This name cannot be used!"@,
        DatabaseError::NotAllowed => "You are not allowed to do this!"@,
        DatabaseError::ValueError => "One of the field values given is invalid!"@,
        DatabaseError::NotFound => "Nothing with this path exists or you do not have access to it!"@,
        _ => "An unspecified error has occured"@,
    }
}

impl DatabaseError {
    /// The message shown for this error.
    pub fn to_string(&self) -> (r: String)
        ensures
            r@ == error_message(*self),
    {
        match self {
            DatabaseError::ContentTooShort => "Content too short!".to_owned(),
            DatabaseError::ContentTooLong => "Content too long!".to_owned(),
            DatabaseError::InvalidName => "This name cannot be used!".to_owned(),
            DatabaseError::NotAllowed => "You are not allowed to do this!".to_owned(),
            DatabaseError::ValueError => "One of the field values given is invalid!".to_owned(),
            DatabaseError::NotFound => "Nothing with this path exists or you do not have access to it!".to_owned(),
            _ => "An unspecified error has occured".to_owned(),
        }
    }
}

/// The group that marks a user as banned.
pub const BANNED_GROUP: i32 = -1;

/// Check a new post: the slug must be free, the author not banned, and the
/// slug 2 to 32 bytes long (a slug of the wrong length is refused with
/// `ContentTooLong`, as the service answers).
pub fn validate_new_post(slug_taken: bool, author_group: i32, slug: &str) -> (r: Result<(), DatabaseError>)
    ensures
        slug_taken ==> r == Err::<(), DatabaseError>(DatabaseError::InvalidNameUnique),
        !slug_taken && author_group == BANNED_GROUP ==> r == Err::<(), DatabaseError>(DatabaseError::NotAllowed),
        !slug_taken && author_group != BANNED_GROUP ==> (r is Ok <==> 2 <= utf8_len(slug@) <= 32),
        !slug_taken && author_group != BANNED_GROUP && r is Err ==> r == Err::<(), DatabaseError>(DatabaseError::ContentTooLong),
{
    if slug_taken {
        return Err(DatabaseError::InvalidNameUnique);
    }
    if author_group == BANNED_GROUP {
        return Err(DatabaseError::NotAllowed);
    }
    let len = crate::text::byte_len(slug);
    if len < 2 {
        return Err(DatabaseError::ContentTooLong);
    }
    if len > 32 {
        return Err(DatabaseError::ContentTooLong);
    }
    Ok(())
}

/// Which language file a language id selects.
#[derive(Clone, Copy, Debug, PartialEq, Eq, Structural)]
pub enum LangChoice {
    /// The default file, `net.rainbeam.langs:en-US`.
    Default,
    /// The empty file used for testing.
    Testing,
    /// The file stored under the id itself.
    Requested,
}

/// The choice that [`lang_choice`] makes.
pub open spec fn lang_choice_for(id: Seq<char>, known: bool) -> LangChoice {
    if id.len() == 0 {
        LangChoice::Default
    } else if id == "aa-BB"@ || id == "net.rainbeam.langs.testing:aa-BB"@ {
        LangChoice::Testing
    } else if known {
        LangChoice::Requested
    } else {
        LangChoice::Default
    }
}

/// Which language file the id `id` selects, where `known` tells whether a
/// file is stored under `id`: the default file for an empty id, the testing
/// file for `aa-BB` (in either of its spellings), the stored file where
/// there is one, and the default file otherwise.
pub fn lang_choice(id: &str, known: bool) -> (r: LangChoice)
    ensures
        r == lang_choice_for(id@, known),
{
    let v = chars_of(id);
    if v.len() == 0 {
        return LangChoice::Default;
    }
    let short = chars_of("aa-BB");
    let long = chars_of("net.rainbeam.langs.testing:aa-BB");
    if chars_eq(v.as_slice(), short.as_slice()) || chars_eq(v.as_slice(), long.as_slice()) {
        LangChoice::Testing
    } else if known {
        LangChoice::Requested
    } else {
        LangChoice::Default
    }
}

/// Whether `user` (in group `user_group`) may edit or delete a post owned
/// by `owner`: only the owner may, and not while banned.
pub fn may_change_post(user: &str, user_group: i32, owner: &str) -> (r: Result<(), DatabaseError>)
    ensures
        r is Ok <==> (user_group != BANNED_GROUP && user@ == owner@),
        r matches Err(e) ==> e == DatabaseError::NotAllowed,
{
    if user_group == BANNED_GROUP {
        return Err(DatabaseError::NotAllowed);
    }
    let u = chars_of(user);
    let o = chars_of(owner);
    if !chars_eq(u.as_slice(), o.as_slice()) {
        return Err(DatabaseError::NotAllowed);
    }
    Ok(())
}

} // verus!
