//! What is stored about channels and usernames, before it reaches the
//! database.

use vstd::prelude::*;
use vstd::utf8::is_ascii_chars;
use crate::text::{
    chars_of, is_white_space, lemma_trim_cuts_white_space_only, lemma_trim_idempotent,
    lemma_trim_is_trimmed, string_from_chars, trim, trim_chars,
};

verus! {

/// Loads the stored channels (nothing is stored yet).
pub fn load_all_channels() {
}

/// Stores a message (messages are not stored yet).
pub fn save_message() {
}

/// Stores a file (files are not stored yet).
pub fn save_file() {
}

/// Loads the cached usernames (nothing is loaded yet).
pub fn load_all_cached_usernames() {
}

/// Storage of the crawler's data (first design).
#[allow(non_camel_case_types)]
pub trait DBI_old {
    fn load_channels() -> Vec<crate::types::ChannelInfo>;

    fn load_seed_usernames() -> Vec<String>;

    fn save_channel();

    fn save_channel_msg();

    fn load_sessions();

    fn save_session();
}

/// Storage of the crawler's data.
pub trait DB {
    fn load_channels() -> Vec<crate::types::ChannelInfo>;

    fn load_seed_usernames() -> Vec<String>;

    fn save_channel();

    fn save_channel_msg();

    fn load_sessions();

    fn save_session();
}

/// The username to queue for `username`: trimmed of white space, and only
/// when what is left is non-empty ASCII text.
pub open spec fn queue_entry(username: Seq<char>) -> Option<Seq<char>> {
    let t = trim(username);
    if t.len() > 0 && is_ascii_chars(t) {
        Some(t)
    } else {
        None
    }
}

/// The username to put in the crawling queue, or `None` when nothing is to
/// be queued.
pub fn queue_username_entry(username: &str) -> (r: Option<String>)
    ensures
        match r {
            Some(t) => queue_entry(username@) == Some(t@),
            None => queue_entry(username@) is None,
        },
{
    let chars = chars_of(username);
    let t = trim_chars(&chars);
    if t.len() == 0 {
        return None;
    }
    let mut ascii = true;
    for i in 0..t.len()
        invariant
            ascii == (forall|j: int| 0 <= j < i ==> '\0' <= #[trigger] t@[j] <= '\u{7f}'),
    {
        let c = t[i];
        assert(c == t@[i as int]);
        ascii = ascii && '\0' <= c && c <= '\u{7f}';
    }
    if !ascii {
        return None;
    }
    Some(string_from_chars(&t))
}

/// A queued username is queued as it is: its entry is itself.
pub proof fn lemma_queue_entry_stable(username: Seq<char>)
    ensures
        queue_entry(username) matches Some(t) ==> queue_entry(t) == Some(t),
{
    lemma_trim_idempotent(username);
}

/// What is queued of a username: its text without the white space around
/// it, when that is non-empty and ASCII only; nothing otherwise.
pub proof fn lemma_queue_entry_shape(username: Seq<char>)
    ensures
        queue_entry(username) is None <==> (trim(username).len() == 0 || !is_ascii_chars(
            trim(username),
        )),
        queue_entry(username) matches Some(t) ==> {
            &&& t.len() > 0
            &&& is_ascii_chars(t)
            &&& !is_white_space(t[0])
            &&& !is_white_space(t.last())
            &&& exists|i: int, j: int|
                0 <= i <= j <= username.len() && t == username.subrange(i, j) && (forall|
                    k: int,
                |
                    0 <= k < i ==> is_white_space(#[trigger] username[k])) && (forall|k: int|
                    j <= k < username.len() ==> is_white_space(#[trigger] username[k]))
        },
{
    lemma_trim_is_trimmed(username);
    lemma_trim_cuts_white_space_only(username);
}

} // verus!
