//! The command surface over a session.
//!
//! Each operation that targets the bot's playback is honored only
//! when the requesting user is connected to the same voice channel
//! the session occupies; violations produce a user-visible rejection
//! and no queue mutation. Every command decides its exact reply text
//! here; the surrounding binary only delivers it.

use vstd::prelude::*;
use vstd::string::StringExecFns;

use crate::errors::PlaybackError;
use crate::session::QueueEntry;
use crate::session::SessionState;
use crate::source::SourceState;
use crate::text::dec_str;
use crate::text::u64_to_string;

verus! {

/// The reply to `ping`.
pub fn ping_reply() -> (s: String)
    ensures
        s@ == "I'm alive :)"@,
{
    String::from_str("I'm alive :)")
}

/// The outcome of a `skip` request.
#[derive(Clone, Copy, Debug, PartialEq, Eq, Structural)]
pub enum SkipReply {
    /// The current track was ended and the queue advanced.
    Skipped,
    /// The session is idle (or not connected): nothing to skip.
    NothingToSkip,
    /// The requesting user is in no voice channel.
    UserNotInVoice,
    /// The requesting user is in a different channel than the bot.
    NotWithBot,
}

/// The reply text for each `skip` outcome.
pub open spec fn skip_reply_text(r: SkipReply) -> Seq<char> {
    match r {
        SkipReply::Skipped => "Song skipped"@,
        SkipReply::NothingToSkip => "Nothing to skip"@,
        SkipReply::UserNotInVoice => "Not in voice channel"@,
        SkipReply::NotWithBot => "Not in bot voice channel"@,
    }
}

/// Renders the reply to a `skip` request.
pub fn skip_reply_message(r: &SkipReply) -> (s: String)
    ensures
        s@ == skip_reply_text(*r),
{
    match r {
        SkipReply::Skipped => String::from_str("Song skipped"),
        SkipReply::NothingToSkip => String::from_str("Nothing to skip"),
        SkipReply::UserNotInVoice => String::from_str("Not in voice channel"),
        SkipReply::NotWithBot => String::from_str("Not in bot voice channel"),
    }
}

impl SkipReply {
    /// Where each rejected `skip` falls in the error taxonomy; a
    /// granted skip is no error.
    pub open spec fn spec_taxonomy(&self) -> Option<PlaybackError> {
        match self {
            SkipReply::Skipped => None,
            SkipReply::NothingToSkip => Some(PlaybackError::InvalidState),
            SkipReply::UserNotInVoice => Some(PlaybackError::PermissionDenied),
            SkipReply::NotWithBot => Some(PlaybackError::PermissionDenied),
        }
    }

    /// Classifies this outcome in the error taxonomy.
    pub fn taxonomy(&self) -> (e: Option<PlaybackError>)
        ensures
            e == self.spec_taxonomy(),
    {
        match self {
            SkipReply::Skipped => None,
            SkipReply::NothingToSkip => Some(PlaybackError::InvalidState),
            SkipReply::UserNotInVoice => Some(PlaybackError::PermissionDenied),
            SkipReply::NotWithBot => Some(PlaybackError::PermissionDenied),
        }
    }
}

/// How a `skip` request is decided: the user must be in a voice
/// channel, the session must be connected, both must be the same
/// channel, and there must be a current track.
pub open spec fn skip_decision(
    user_channel: Option<u64>,
    bot_channel: Option<u64>,
    has_current: bool,
) -> SkipReply {
    if user_channel is None {
        SkipReply::UserNotInVoice
    } else if bot_channel is None {
        SkipReply::NothingToSkip
    } else if user_channel != bot_channel {
        SkipReply::NotWithBot
    } else if has_current {
        SkipReply::Skipped
    } else {
        SkipReply::NothingToSkip
    }
}

/// Handles a `skip` request from a user in `user_channel`. Only a
/// granted skip mutates the session; the ended head is handed back
/// so the caller can reap its pipeline.
pub fn skip_command(s: &mut SessionState, user_channel: Option<u64>) -> (r: (
    SkipReply,
    Option<QueueEntry>,
))
    requires
        old(s).wf(),
    ensures
        final(s).wf(),
        final(s).channel == old(s).channel,
        r.0 == skip_decision(user_channel, old(s).channel, old(s).queue@.len() > 0),
        r.0 != SkipReply::Skipped ==> r.1 is None && *final(s) == *old(s),
        r.0 == SkipReply::Skipped ==> {
            &&& r.1 matches Some(e) && e.source.state == SourceState::Ended
                && e.source.descriptor == old(s).queue@[0].source.descriptor
            &&& final(s).queue@ == old(s).queue@.subrange(1, old(s).queue@.len() as int)
        },
{
    let user = match user_channel {
        Some(u) => u,
        None => {
            return (SkipReply::UserNotInVoice, None);
        },
    };
    let bot = match s.channel {
        Some(b) => b,
        None => {
            return (SkipReply::NothingToSkip, None);
        },
    };
    if user != bot {
        return (SkipReply::NotWithBot, None);
    }
    match s.skip_current() {
        Some(e) => (SkipReply::Skipped, Some(e)),
        None => (SkipReply::NothingToSkip, None),
    }
}

/// The outcome of a `stop` request.
#[derive(Clone, Copy, Debug, PartialEq, Eq, Structural)]
pub enum StopReply {
    /// The current track was ended and the queue discarded.
    Cleared,
    /// The requesting user is in no voice channel.
    UserNotInVoice,
    /// The session is not connected to a voice channel.
    BotNotInVoice,
    /// The requesting user is in a different channel than the bot.
    NotWithBot,
}

/// The reply text for each `stop` outcome.
pub open spec fn stop_reply_text(r: StopReply) -> Seq<char> {
    match r {
        StopReply::Cleared => "Cleared queue"@,
        StopReply::UserNotInVoice => "You are not connected to voice channel"@,
        StopReply::BotNotInVoice => "Bot is not connected to voice channel"@,
        StopReply::NotWithBot => "You are not connected to voice channel with bot"@,
    }
}

/// Renders the reply to a `stop` request.
pub fn stop_reply_message(r: &StopReply) -> (s: String)
    ensures
        s@ == stop_reply_text(*r),
{
    match r {
        StopReply::Cleared => String::from_str("Cleared queue"),
        StopReply::UserNotInVoice => String::from_str("You are not connected to voice channel"),
        StopReply::BotNotInVoice => String::from_str("Bot is not connected to voice channel"),
        StopReply::NotWithBot => String::from_str(
            "You are not connected to voice channel with bot",
        ),
    }
}

impl StopReply {
    /// Where each rejected `stop` falls in the error taxonomy.
    pub open spec fn spec_taxonomy(&self) -> Option<PlaybackError> {
        match self {
            StopReply::Cleared => None,
            StopReply::UserNotInVoice => Some(PlaybackError::PermissionDenied),
            StopReply::BotNotInVoice => Some(PlaybackError::SessionAbsent),
            StopReply::NotWithBot => Some(PlaybackError::PermissionDenied),
        }
    }

    /// Classifies this outcome in the error taxonomy.
    pub fn taxonomy(&self) -> (e: Option<PlaybackError>)
        ensures
            e == self.spec_taxonomy(),
    {
        match self {
            StopReply::Cleared => None,
            StopReply::UserNotInVoice => Some(PlaybackError::PermissionDenied),
            StopReply::BotNotInVoice => Some(PlaybackError::SessionAbsent),
            StopReply::NotWithBot => Some(PlaybackError::PermissionDenied),
        }
    }
}

/// How a `stop` request is decided.
pub open spec fn stop_decision(user_channel: Option<u64>, bot_channel: Option<u64>) -> StopReply {
    if user_channel is None {
        StopReply::UserNotInVoice
    } else if bot_channel is None {
        StopReply::BotNotInVoice
    } else if user_channel != bot_channel {
        StopReply::NotWithBot
    } else {
        StopReply::Cleared
    }
}

/// Handles a `stop` request: ends the current track and discards the
/// whole queue; the session stays connected. All ended entries are
/// handed back for pipeline teardown.
pub fn stop_command(s: &mut SessionState, user_channel: Option<u64>) -> (r: (
    StopReply,
    Vec<QueueEntry>,
))
    requires
        old(s).wf(),
    ensures
        final(s).wf(),
        final(s).channel == old(s).channel,
        r.0 == stop_decision(user_channel, old(s).channel),
        r.0 != StopReply::Cleared ==> r.1@.len() == 0 && *final(s) == *old(s),
        r.0 == StopReply::Cleared ==> {
            &&& final(s).queue@.len() == 0
            &&& r.1@.len() == old(s).queue@.len()
            &&& forall|i: int|
                0 <= i < r.1@.len() ==> {
                    &&& (#[trigger] r.1@[i]).source.state == SourceState::Ended
                    &&& r.1@[i].source.descriptor == old(s).queue@[i].source.descriptor
                }
        },
{
    let user = match user_channel {
        Some(u) => u,
        None => {
            return (StopReply::UserNotInVoice, Vec::new());
        },
    };
    let bot = match s.channel {
        Some(b) => b,
        None => {
            return (StopReply::BotNotInVoice, Vec::new());
        },
    };
    if user != bot {
        return (StopReply::NotWithBot, Vec::new());
    }
    let ended = s.stop_and_clear();
    (StopReply::Cleared, ended)
}

/// The outcome of a `pause` or `resume` request.
#[derive(Clone, Copy, Debug, PartialEq, Eq, Structural)]
pub enum PauseReply {
    /// The playback state of the current track was toggled.
    Done,
    /// There is no current track to act on.
    NothingPlaying,
    /// The requesting user is in no voice channel.
    UserNotInVoice,
    /// The session is not connected to a voice channel.
    BotNotInVoice,
    /// The requesting user is in a different channel than the bot.
    NotWithBot,
}

/// The reply text for each `pause` outcome.
pub open spec fn pause_reply_text(r: PauseReply) -> Seq<char> {
    match r {
        PauseReply::Done => "Song paused"@,
        PauseReply::NothingPlaying => "Cannot pause song"@,
        PauseReply::UserNotInVoice => "You are not connected to voice channel"@,
        PauseReply::BotNotInVoice => "Bot is not connected to voice channel"@,
        PauseReply::NotWithBot => "You are not connected to voice channel with bot"@,
    }
}

/// Renders the reply to a `pause` request.
pub fn pause_reply_message(r: &PauseReply) -> (s: String)
    ensures
        s@ == pause_reply_text(*r),
{
    match r {
        PauseReply::Done => String::from_str("Song paused"),
        PauseReply::NothingPlaying => String::from_str("Cannot pause song"),
        PauseReply::UserNotInVoice => String::from_str("You are not connected to voice channel"),
        PauseReply::BotNotInVoice => String::from_str("Bot is not connected to voice channel"),
        PauseReply::NotWithBot => String::from_str(
            "You are not connected to voice channel with bot",
        ),
    }
}

/// The reply text for each `resume` outcome.
pub open spec fn resume_reply_text(r: PauseReply) -> Seq<char> {
    match r {
        PauseReply::Done => "Song resumed"@,
        PauseReply::NothingPlaying => "Cannot resume song"@,
        PauseReply::UserNotInVoice => "You are not connected to voice channel"@,
        PauseReply::BotNotInVoice => "Bot is not connected to voice channel"@,
        PauseReply::NotWithBot => "You are not connected to voice channel with bot"@,
    }
}

/// Renders the reply to a `resume` request.
pub fn resume_reply_message(r: &PauseReply) -> (s: String)
    ensures
        s@ == resume_reply_text(*r),
{
    match r {
        PauseReply::Done => String::from_str("Song resumed"),
        PauseReply::NothingPlaying => String::from_str("Cannot resume song"),
        PauseReply::UserNotInVoice => String::from_str("You are not connected to voice channel"),
        PauseReply::BotNotInVoice => String::from_str("Bot is not connected to voice channel"),
        PauseReply::NotWithBot => String::from_str(
            "You are not connected to voice channel with bot",
        ),
    }
}

impl PauseReply {
    /// Where each rejected `pause` or `resume` falls in the error
    /// taxonomy.
    pub open spec fn spec_taxonomy(&self) -> Option<PlaybackError> {
        match self {
            PauseReply::Done => None,
            PauseReply::NothingPlaying => Some(PlaybackError::InvalidState),
            PauseReply::UserNotInVoice => Some(PlaybackError::PermissionDenied),
            PauseReply::BotNotInVoice => Some(PlaybackError::SessionAbsent),
            PauseReply::NotWithBot => Some(PlaybackError::PermissionDenied),
        }
    }

    /// Classifies this outcome in the error taxonomy.
    pub fn taxonomy(&self) -> (e: Option<PlaybackError>)
        ensures
            e == self.spec_taxonomy(),
    {
        match self {
            PauseReply::Done => None,
            PauseReply::NothingPlaying => Some(PlaybackError::InvalidState),
            PauseReply::UserNotInVoice => Some(PlaybackError::PermissionDenied),
            PauseReply::BotNotInVoice => Some(PlaybackError::SessionAbsent),
            PauseReply::NotWithBot => Some(PlaybackError::PermissionDenied),
        }
    }
}

/// How a `pause` or `resume` request is decided.
pub open spec fn pause_decision(
    user_channel: Option<u64>,
    bot_channel: Option<u64>,
    has_current: bool,
) -> PauseReply {
    if user_channel is None {
        PauseReply::UserNotInVoice
    } else if bot_channel is None {
        PauseReply::BotNotInVoice
    } else if user_channel != bot_channel {
        PauseReply::NotWithBot
    } else if has_current {
        PauseReply::Done
    } else {
        PauseReply::NothingPlaying
    }
}

/// Handles a `pause` request: marks the current track paused without
/// restarting or touching its pipeline.
pub fn pause_command(s: &mut SessionState, user_channel: Option<u64>) -> (r: PauseReply)
    requires
        old(s).wf(),
    ensures
        final(s).wf(),
        final(s).channel == old(s).channel,
        r == pause_decision(user_channel, old(s).channel, old(s).queue@.len() > 0),
        r != PauseReply::Done ==> *final(s) == *old(s),
        r == PauseReply::Done ==> {
            &&& final(s).queue@.len() == old(s).queue@.len()
            &&& final(s).queue@[0].source == old(s).queue@[0].source
            &&& final(s).queue@[0].looped == old(s).queue@[0].looped
            &&& final(s).queue@[0].paused
            &&& forall|i: int|
                1 <= i < old(s).queue@.len() ==> final(s).queue@[i] == old(s).queue@[i]
        },
{
    let user = match user_channel {
        Some(u) => u,
        None => {
            return PauseReply::UserNotInVoice;
        },
    };
    let bot = match s.channel {
        Some(b) => b,
        None => {
            return PauseReply::BotNotInVoice;
        },
    };
    if user != bot {
        return PauseReply::NotWithBot;
    }
    if s.pause_current() {
        PauseReply::Done
    } else {
        PauseReply::NothingPlaying
    }
}

/// Handles a `resume` request: marks the current track playing again
/// without restarting or touching its pipeline.
pub fn resume_command(s: &mut SessionState, user_channel: Option<u64>) -> (r: PauseReply)
    requires
        old(s).wf(),
    ensures
        final(s).wf(),
        final(s).channel == old(s).channel,
        r == pause_decision(user_channel, old(s).channel, old(s).queue@.len() > 0),
        r != PauseReply::Done ==> *final(s) == *old(s),
        r == PauseReply::Done ==> {
            &&& final(s).queue@.len() == old(s).queue@.len()
            &&& final(s).queue@[0].source == old(s).queue@[0].source
            &&& final(s).queue@[0].looped == old(s).queue@[0].looped
            &&& !final(s).queue@[0].paused
            &&& forall|i: int|
                1 <= i < old(s).queue@.len() ==> final(s).queue@[i] == old(s).queue@[i]
        },
{
    let user = match user_channel {
        Some(u) => u,
        None => {
            return PauseReply::UserNotInVoice;
        },
    };
    let bot = match s.channel {
        Some(b) => b,
        None => {
            return PauseReply::BotNotInVoice;
        },
    };
    if user != bot {
        return PauseReply::NotWithBot;
    }
    if s.resume_current() {
        PauseReply::Done
    } else {
        PauseReply::NothingPlaying
    }
}

/// The outcome of a `repeat` request.
#[derive(Clone, Copy, Debug, PartialEq, Eq, Structural)]
pub enum RepeatReply {
    /// The current track will now loop.
    Enabled,
    /// The current track no longer loops.
    Disabled,
    /// There is no current track to loop.
    NothingToLoop,
    /// The requesting user is in no voice channel.
    UserNotInVoice,
    /// The session is not connected to a voice channel.
    BotNotInVoice,
    /// The requesting user is in a different channel than the bot.
    NotWithBot,
}

/// The reply text for each `repeat` outcome.
pub open spec fn repeat_reply_text(r: RepeatReply) -> Seq<char> {
    match r {
        RepeatReply::Enabled => "Repeat enabled"@,
        RepeatReply::Disabled => "Repeat disabled"@,
        RepeatReply::NothingToLoop => "Nothing to loop"@,
        RepeatReply::UserNotInVoice => "You are not connected to voice channel"@,
        RepeatReply::BotNotInVoice => "Bot is not connected to voice channel"@,
        RepeatReply::NotWithBot => "You are not connected to voice channel with bot"@,
    }
}

/// Renders the reply to a `repeat` request.
pub fn repeat_reply_message(r: &RepeatReply) -> (s: String)
    ensures
        s@ == repeat_reply_text(*r),
{
    match r {
        RepeatReply::Enabled => String::from_str("Repeat enabled"),
        RepeatReply::Disabled => String::from_str("Repeat disabled"),
        RepeatReply::NothingToLoop => String::from_str("Nothing to loop"),
        RepeatReply::UserNotInVoice => String::from_str("You are not connected to voice channel"),
        RepeatReply::BotNotInVoice => String::from_str("Bot is not connected to voice channel"),
        RepeatReply::NotWithBot => String::from_str(
            "You are not connected to voice channel with bot",
        ),
    }
}

impl RepeatReply {
    /// Where each rejected `repeat` falls in the error taxonomy.
    pub open spec fn spec_taxonomy(&self) -> Option<PlaybackError> {
        match self {
            RepeatReply::Enabled => None,
            RepeatReply::Disabled => None,
            RepeatReply::NothingToLoop => Some(PlaybackError::InvalidState),
            RepeatReply::UserNotInVoice => Some(PlaybackError::PermissionDenied),
            RepeatReply::BotNotInVoice => Some(PlaybackError::SessionAbsent),
            RepeatReply::NotWithBot => Some(PlaybackError::PermissionDenied),
        }
    }

    /// Classifies this outcome in the error taxonomy.
    pub fn taxonomy(&self) -> (e: Option<PlaybackError>)
        ensures
            e == self.spec_taxonomy(),
    {
        match self {
            RepeatReply::Enabled => None,
            RepeatReply::Disabled => None,
            RepeatReply::NothingToLoop => Some(PlaybackError::InvalidState),
            RepeatReply::UserNotInVoice => Some(PlaybackError::PermissionDenied),
            RepeatReply::BotNotInVoice => Some(PlaybackError::SessionAbsent),
            RepeatReply::NotWithBot => Some(PlaybackError::PermissionDenied),
        }
    }
}

/// How a `repeat` request is decided: flipping the loop flag of the
/// current track reports the flag's new state.
pub open spec fn repeat_decision(
    user_channel: Option<u64>,
    bot_channel: Option<u64>,
    current_looped: Option<bool>,
) -> RepeatReply {
    if user_channel is None {
        RepeatReply::UserNotInVoice
    } else if bot_channel is None {
        RepeatReply::BotNotInVoice
    } else if user_channel != bot_channel {
        RepeatReply::NotWithBot
    } else {
        match current_looped {
            Some(l) => if l {
                RepeatReply::Disabled
            } else {
                RepeatReply::Enabled
            },
            None => RepeatReply::NothingToLoop,
        }
    }
}

/// The loop flag of the current track, if there is one.
pub open spec fn current_looped_of(s: SessionState) -> Option<bool> {
    if s.queue@.len() > 0 {
        Some(s.queue@[0].looped)
    } else {
        None
    }
}

/// Handles a `repeat` request: flips the loop flag of the current
/// track. When set, track completion re-enqueues the same track at
/// the queue head instead of advancing.
pub fn repeat_command(s: &mut SessionState, user_channel: Option<u64>) -> (r: RepeatReply)
    requires
        old(s).wf(),
    ensures
        final(s).wf(),
        final(s).channel == old(s).channel,
        r == repeat_decision(user_channel, old(s).channel, current_looped_of(*old(s))),
        r != RepeatReply::Enabled && r != RepeatReply::Disabled ==> *final(s) == *old(s),
        r == RepeatReply::Enabled || r == RepeatReply::Disabled ==> {
            &&& final(s).queue@.len() == old(s).queue@.len()
            &&& final(s).queue@[0].source == old(s).queue@[0].source
            &&& final(s).queue@[0].paused == old(s).queue@[0].paused
            &&& final(s).queue@[0].looped == (r == RepeatReply::Enabled)
            &&& forall|i: int|
                1 <= i < old(s).queue@.len() ==> final(s).queue@[i] == old(s).queue@[i]
        },
{
    let user = match user_channel {
        Some(u) => u,
        None => {
            return RepeatReply::UserNotInVoice;
        },
    };
    let bot = match s.channel {
        Some(b) => b,
        None => {
            return RepeatReply::BotNotInVoice;
        },
    };
    if user != bot {
        return RepeatReply::NotWithBot;
    }
    match s.toggle_loop_current() {
        Some(now) => if now {
            RepeatReply::Enabled
        } else {
            RepeatReply::Disabled
        },
        None => RepeatReply::NothingToLoop,
    }
}

/// The immediate replies of the `play` command, before and instead
/// of a resolved track.
#[derive(Clone, Copy, Debug, PartialEq, Eq, Structural)]
pub enum PlayReply {
    /// Work has started; the reply is edited once it finishes.
    Processing,
    /// The requesting user is in no voice channel.
    UserNotInVoice,
    /// A playlist link that the playlist provider cannot read.
    InvalidUrl,
    /// The query resolved to nothing.
    NothingFound,
    /// A playlist was read and holds this many items.
    FoundSongs { count: u64 },
}

impl PlayReply {
    /// Where each immediate `play` reply falls in the error taxonomy:
    /// an unreadable playlist link and an unresolvable query are both
    /// reported as nothing found.
    pub open spec fn spec_taxonomy(&self) -> Option<PlaybackError> {
        match self {
            PlayReply::Processing => None,
            PlayReply::UserNotInVoice => Some(PlaybackError::PermissionDenied),
            PlayReply::InvalidUrl => Some(PlaybackError::NotFound),
            PlayReply::NothingFound => Some(PlaybackError::NotFound),
            PlayReply::FoundSongs { .. } => None,
        }
    }

    /// Classifies this reply in the error taxonomy.
    pub fn taxonomy(&self) -> (e: Option<PlaybackError>)
        ensures
            e == self.spec_taxonomy(),
    {
        match self {
            PlayReply::Processing => None,
            PlayReply::UserNotInVoice => Some(PlaybackError::PermissionDenied),
            PlayReply::InvalidUrl => Some(PlaybackError::NotFound),
            PlayReply::NothingFound => Some(PlaybackError::NotFound),
            PlayReply::FoundSongs { .. } => None,
        }
    }
}

/// The reply text for each immediate `play` outcome.
pub open spec fn play_reply_text(r: PlayReply) -> Seq<char> {
    match r {
        PlayReply::Processing => "Processing please wait"@,
        PlayReply::UserNotInVoice => "Not in voice channel"@,
        PlayReply::InvalidUrl => "Invalid url"@,
        PlayReply::NothingFound => "Nothing found"@,
        PlayReply::FoundSongs { count } => "Found "@ + dec_str(count as nat) + " songs"@,
    }
}

/// Renders an immediate `play` reply.
pub fn play_reply_message(r: &PlayReply) -> (s: String)
    ensures
        s@ == play_reply_text(*r),
{
    match r {
        PlayReply::Processing => String::from_str("Processing please wait"),
        PlayReply::UserNotInVoice => String::from_str("Not in voice channel"),
        PlayReply::InvalidUrl => String::from_str("Invalid url"),
        PlayReply::NothingFound => String::from_str("Nothing found"),
        PlayReply::FoundSongs { count } => {
            let s = String::from_str("Found ").concat(u64_to_string(*count).as_str()).concat(
                " songs",
            );
            proof {
                assert(s@ =~= play_reply_text(*r));
            }
            s
        },
    }
}

} // verus!
