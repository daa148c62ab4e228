//! The decisions of username crawling: what to do once a username was
//! looked up, and what is cached about it.

use vstd::prelude::*;
use crate::errors::{spec_is_tg_username_free, GenErr};
use crate::types::{CachedUsernameData, CachedUsernameView, ChannelByUsernameResult, ChannelInfo};

verus! {

/// What to do after a username was looked up.
#[derive(Debug)]
pub enum UsernameLookupAction {
    /// The username is a channel's: fetch the channel's full information.
    FetchChannelInfo { channel_id: i32, access_hash: i64 },
    /// Cache this about the username.
    Save(CachedUsernameData),
    /// Cache nothing.
    Nothing,
}

/// What is cached about a username no channel holds: `taken` tells whether
/// someone else (a person, a group) holds it.
pub open spec fn free_username_view(username: Seq<char>, taken: bool, now: u32) -> CachedUsernameView {
    CachedUsernameView { username, channel_id: 0, channel_info: None, taken, last_checked: now }
}

/// What is cached about a username that `info`'s channel holds.
pub open spec fn channel_username_view(info: crate::types::ChannelInfoView, now: u32) -> CachedUsernameView {
    CachedUsernameView {
        username: info.username,
        channel_id: info.id,
        channel_info: Some(info),
        taken: true,
        last_checked: now,
    }
}

/// The cache record of a username no channel holds.
pub fn free_username_record(username: &str, taken: bool, now: u32) -> (r: CachedUsernameData)
    ensures
        r@ == free_username_view(username@, taken, now),
{
    CachedUsernameData {
        username: username.to_owned(),
        channel_id: 0,
        channel_info: None,
        taken,
        last_checked: now,
    }
}

/// The cache record of a username held by the channel `info`.
pub fn channel_username_record(info: ChannelInfo, now: u32) -> (r: CachedUsernameData)
    ensures
        r@ == channel_username_view(info@, now),
{
    let username = info.username.clone();
    let channel_id = info.id;
    CachedUsernameData {
        username,
        channel_id,
        channel_info: Some(info),
        taken: true,
        last_checked: now,
    }
}

/// What to do once `username` was looked up and gave `res`, at time `now`:
/// a channel's username leads to fetching the channel; a username nobody
/// holds is cached as free; one held by someone other than a channel is
/// cached as taken; any other error caches nothing.
pub fn after_username_lookup(
    username: &str,
    res: &Result<ChannelByUsernameResult, GenErr>,
    now: u32,
) -> (r: UsernameLookupAction)
    ensures
        match res {
            Ok(c) => r == (UsernameLookupAction::FetchChannelInfo {
                channel_id: c.id,
                access_hash: c.access_hash,
            }),
            Err(e) => if spec_is_tg_username_free(*e) {
                r matches UsernameLookupAction::Save(d) && d@ == free_username_view(
                    username@,
                    false,
                    now,
                )
            } else if e is TGConverter {
                r matches UsernameLookupAction::Save(d) && d@ == free_username_view(
                    username@,
                    true,
                    now,
                )
            } else {
                r is Nothing
            },
        },
{
    match res {
        Ok(c) => UsernameLookupAction::FetchChannelInfo {
            channel_id: c.id,
            access_hash: c.access_hash,
        },
        Err(e) => {
            if e.is_tg_username_free() {
                UsernameLookupAction::Save(free_username_record(username, false, now))
            } else {
                match e {
                    GenErr::TGConverter => UsernameLookupAction::Save(
                        free_username_record(username, true, now),
                    ),
                    _ => UsernameLookupAction::Nothing,
                }
            }
        },
    }
}

/// What is cached about a username: a username no channel holds is cached
/// under its own text with channel id 0, no channel information and the
/// time of the check; one a channel holds is cached under the channel's
/// username, with the channel's id and information, as taken.
pub proof fn lemma_cached_username_fields(
    username: Seq<char>,
    taken: bool,
    info: crate::types::ChannelInfoView,
    now: u32,
)
    ensures
        free_username_view(username, taken, now).username == username,
        free_username_view(username, taken, now).channel_id == 0,
        free_username_view(username, taken, now).channel_info is None,
        free_username_view(username, taken, now).taken == taken,
        free_username_view(username, taken, now).last_checked == now,
        channel_username_view(info, now).username == info.username,
        channel_username_view(info, now).channel_id == info.id,
        channel_username_view(info, now).channel_info == Some(info),
        channel_username_view(info, now).taken,
        channel_username_view(info, now).last_checked == now,
{
}

} // verus!
