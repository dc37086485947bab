//! Creation of a stream's consumer group, safe to repeat.

use super::command::{start_at_end, GroupCreate};
use super::errors::RedisFailure;
use vstd::prelude::*;

verus! {

/// Code with which the server refuses to create a group that exists.
pub open spec fn busy_group() -> Seq<char> {
    "BUSYGROUP"@
}

/// Whether the failure says that the group exists already.
pub open spec fn group_exists(failure: RedisFailure) -> bool {
    failure.code matches Some(code) && code@ == busy_group()
}

/// The outcome of a group creation that the server answered with `reply`:
/// a group that exists already counts as made.
pub open spec fn group_made(reply: Result<(), RedisFailure>) -> Result<(), RedisFailure> {
    match reply {
        Ok(()) => Ok(()),
        Err(failure) => if group_exists(failure) {
            Ok(())
        } else {
            Err(failure)
        },
    }
}

/// The command that creates `group_name` on `stream_name`, and the stream
/// with it when the stream is missing. The group starts at the end of the
/// stream.
pub fn group_create(stream_name: String, group_name: String) -> (cmd: GroupCreate)
    ensures
        cmd.stream == stream_name,
        cmd.group == group_name,
        cmd.start_id@ == start_at_end(),
{
    GroupCreate { stream: stream_name, group: group_name, start_id: String::from_str("$") }
}

/// Whether the failure says that the group exists already.
pub fn is_group_exists(failure: &RedisFailure) -> (exists: bool)
    ensures
        exists == group_exists(*failure),
{
    match &failure.code {
        Some(code) => *code == String::from_str("BUSYGROUP"),
        None => false,
    }
}

/// What a group creation comes to, given the server's reply to the command
/// of [`group_create`]. The server's refusal to create a group that exists
/// is taken for success, so that the creation can be repeated; any other
/// failure is handed on.
pub fn make_stream_group(reply: Result<(), RedisFailure>) -> (made: Result<(), RedisFailure>)
    ensures
        made == group_made(reply),
{
    match reply {
        Ok(()) => Ok(()),
        Err(failure) => {
            if is_group_exists(&failure) {
                Ok(())
            } else {
                Err(failure)
            }
        },
    }
}

/// How a server answers the creation of the group `group` on `stream`, when
/// the groups in `groups` exist: it creates a missing group, and refuses
/// with the code `BUSYGROUP` to create one that exists.
pub open spec fn answers_creation(
    groups: Set<(Seq<char>, Seq<char>)>,
    stream: Seq<char>,
    group: Seq<char>,
    reply: Result<(), RedisFailure>,
) -> bool {
    if groups.contains((stream, group)) {
        reply matches Err(failure) && group_exists(failure)
    } else {
        reply is Ok
    }
}

/// Provisioning is idempotent: against a server that answers as
/// [`answers_creation`] says, the creation of a group succeeds, and it
/// succeeds again when it is repeated with the same names, whatever groups
/// existed before.
pub proof fn lemma_group_creation_repeats(
    groups: Set<(Seq<char>, Seq<char>)>,
    stream: Seq<char>,
    group: Seq<char>,
    first: Result<(), RedisFailure>,
    second: Result<(), RedisFailure>,
)
    requires
        answers_creation(groups, stream, group, first),
        answers_creation(groups.insert((stream, group)), stream, group, second),
    ensures
        group_made(first) is Ok,
        group_made(second) is Ok,
{
}

} // verus!
