//! Names and commands of the cancellation broadcast channel.
//!
//! A cancellation for task `<id>` is published on the channel
//! `task:cancel:<id>` with the literal payload `cancel`; every worker
//! pattern-subscribes to `task:cancel:*` and recovers the id from the
//! channel name.

use crate::strutil::str_eq;
use vstd::prelude::*;
use vstd::string::StrSliceExecFns;
use vstd::string::StringExecFns;

verus! {

/// The channel on which a cancellation for `task_id` is published.
pub fn cancel_channel_name(task_id: &str) -> (r: String)
    ensures
        r@ == "task:cancel:"@ + task_id@,
{
    let mut s: String = "task:cancel:".to_owned();
    s.append(task_id);
    s
}

/// The task id named by a cancellation channel, if the channel follows the
/// `task:cancel:<id>` scheme.
pub fn cancel_task_id_from_channel(channel: &str) -> (r: Option<String>)
    ensures
        match r {
            Some(s) => channel@.len() >= 12 && channel@.subrange(0, 12) == "task:cancel:"@
                && s@ == channel@.skip(12),
            None => !(channel@.len() >= 12 && channel@.subrange(0, 12) == "task:cancel:"@),
        },
{
    proof {
        reveal_strlit("task:cancel:");
    }
    let n = channel.unicode_len();
    if n < 12 {
        return None;
    }
    let prefix = channel.substring_char(0, 12);
    if str_eq(prefix, "task:cancel:") {
        let suffix: String = channel.substring_char(12, n).to_owned();
        Some(suffix)
    } else {
        None
    }
}

/// The channel built for a task id parses back to exactly that id: the
/// worker's listener recovers from `task:cancel:<id>` the id the submitter
/// cancelled, whatever the id's characters.
pub proof fn lemma_cancel_channel_roundtrip(id: Seq<char>)
    ensures
        ("task:cancel:"@ + id).len() >= 12,
        ("task:cancel:"@ + id).subrange(0, 12) == "task:cancel:"@,
        ("task:cancel:"@ + id).skip(12) == id,
{
    reveal_strlit("task:cancel:");
    assert(("task:cancel:"@ + id).subrange(0, 12) =~= "task:cancel:"@);
    assert(("task:cancel:"@ + id).skip(12) =~= id);
}

/// A command addressed to a task over the broadcast channel. Only `Cancel`
/// is acted on today.
#[derive(Debug)]
pub enum TaskCommand {
    Cancel { task_id: String },
    Pause { task_id: String },
    Resume { task_id: String },
}

impl TaskCommand {
    /// The id of the task the command addresses.
    pub open spec fn spec_task_id(self) -> Seq<char> {
        match self {
            TaskCommand::Cancel { task_id } => task_id@,
            TaskCommand::Pause { task_id } => task_id@,
            TaskCommand::Resume { task_id } => task_id@,
        }
    }

    pub fn task_id(&self) -> (r: &str)
        ensures
            r@ == self.spec_task_id(),
    {
        match self {
            TaskCommand::Cancel { task_id } => task_id.as_str(),
            TaskCommand::Pause { task_id } => task_id.as_str(),
            TaskCommand::Resume { task_id } => task_id.as_str(),
        }
    }
}

} // verus!
