//! The voice commands: `lofi` joins the caller's voice channel and streams
//! music, `leave` disconnects. Joining, streaming and leaving are done
//! outside; each step here takes what the last outside step gave and says
//! what to do next.
use crate::bot_core::reply::{Reply, ReplyView};
use crate::plugins::wallet::actions::GREEN;
use crate::text::{decimal, owned, push_decimal};
use vstd::prelude::*;

verus! {

/// Where the lofi stream is read from.
pub open spec fn lofi_stream_url() -> Seq<char> {
    "https://lofi4u.com/api/stream/live"@
}

/// What a voice command does next.
pub enum VoiceAction {
    /// Answer and stop.
    Answer(Reply),
    /// Join this voice channel of the caller's server.
    Join(u64),
    /// Open the audio stream at this address, for this channel.
    OpenStream(String, u64),
    /// Disconnect from the server's voice channel, then answer and stop.
    LeaveThenAnswer(Reply),
    /// Play the opened stream and answer.
    PlayThenAnswer(Reply),
    /// Disconnect from the server's voice channel.
    Leave,
    /// Stop: the command failed with this error.
    Fail(String),
}

/// A voice action as plain values.
pub enum VoiceActionView {
    Answer(ReplyView),
    Join(u64),
    OpenStream(Seq<char>, u64),
    LeaveThenAnswer(ReplyView),
    PlayThenAnswer(ReplyView),
    Leave,
    Fail(Seq<char>),
}

impl View for VoiceAction {
    type V = VoiceActionView;

    open spec fn view(&self) -> VoiceActionView {
        match self {
            VoiceAction::Answer(r) => VoiceActionView::Answer(r@),
            VoiceAction::Join(c) => VoiceActionView::Join(*c),
            VoiceAction::OpenStream(u, c) => VoiceActionView::OpenStream(u@, *c),
            VoiceAction::LeaveThenAnswer(r) => VoiceActionView::LeaveThenAnswer(r@),
            VoiceAction::PlayThenAnswer(r) => VoiceActionView::PlayThenAnswer(r@),
            VoiceAction::Leave => VoiceActionView::Leave,
            VoiceAction::Fail(e) => VoiceActionView::Fail(e@),
        }
    }
}

/// What happened last, as `lofi` sees it.
pub enum LofiEvent {
    /// The command was used: whether in a server, whether the bot knows the
    /// server, and the voice channel the caller is in, if any.
    Requested(bool, bool, Option<u64>),
    /// The bot has no voice client.
    NoVoiceClient,
    /// Joining this channel succeeded, or failed with this error.
    Joined(u64, Result<(), String>),
    /// Opening the stream for this channel succeeded, or failed with this
    /// error.
    StreamOpened(u64, Result<(), String>),
}

/// A lofi event as plain values.
pub enum LofiEventView {
    Requested(bool, bool, Option<u64>),
    NoVoiceClient,
    Joined(u64, Result<(), Seq<char>>),
    StreamOpened(u64, Result<(), Seq<char>>),
}

/// The plain value of an outcome with a text error.
pub open spec fn result_view(r: Result<(), String>) -> Result<(), Seq<char>> {
    match r {
        Ok(()) => Ok(()),
        Err(e) => Err(e@),
    }
}

impl View for LofiEvent {
    type V = LofiEventView;

    open spec fn view(&self) -> LofiEventView {
        match self {
            LofiEvent::Requested(g, k, c) => LofiEventView::Requested(*g, *k, *c),
            LofiEvent::NoVoiceClient => LofiEventView::NoVoiceClient,
            LofiEvent::Joined(c, r) => LofiEventView::Joined(*c, result_view(*r)),
            LofiEvent::StreamOpened(c, r) => LofiEventView::StreamOpened(*c, result_view(*r)),
        }
    }
}

/// The error when the bot has no voice client.
pub open spec fn no_voice_client_text() -> Seq<char> {
    "Songbird voice client not initialized"@
}

/// The announcement of a stream in `channel`.
pub open spec fn streaming_text(channel: u64) -> Seq<char> {
    "Now streaming lofi music in <#"@ + decimal(channel as nat)
        + ">!\n\nThe bot will stay connected 24/7 until you use `/leave` or kick it."@
}

/// What `lofi` does after `e`.
pub open spec fn lofi_step_spec(e: LofiEventView) -> VoiceActionView {
    match e {
        LofiEventView::Requested(in_guild, known, channel) => {
            if !in_guild {
                VoiceActionView::Answer(ReplyView::Notice("This command can only be used in a server!"@))
            } else if !known {
                VoiceActionView::Answer(ReplyView::Notice("Could not find guild information."@))
            } else {
                match channel {
                    Some(c) => VoiceActionView::Join(c),
                    None => VoiceActionView::Answer(
                        ReplyView::Notice("You need to be in a voice channel!"@),
                    ),
                }
            }
        },
        LofiEventView::NoVoiceClient => VoiceActionView::Fail(no_voice_client_text()),
        LofiEventView::Joined(c, r) => match r {
            Ok(()) => VoiceActionView::OpenStream(lofi_stream_url(), c),
            Err(m) => VoiceActionView::Answer(
                ReplyView::Notice("Failed to join voice channel: "@ + m),
            ),
        },
        LofiEventView::StreamOpened(c, r) => match r {
            Ok(()) => VoiceActionView::PlayThenAnswer(
                ReplyView::Embed("🎵 Lofi Stream Started"@, streaming_text(c), GREEN),
            ),
            Err(m) => VoiceActionView::LeaveThenAnswer(
                ReplyView::Notice(
                    "Failed to create audio source: "@ + m
                        + ". Make sure FFmpeg is installed and accessible."@,
                ),
            ),
        },
    }
}

fn notice(text: &str) -> (r: Reply)
    ensures
        r@ == ReplyView::Notice(text@),
{
    Reply::Notice(owned(text))
}

/// The next step of `lofi`.
pub fn lofi_step(e: LofiEvent) -> (r: VoiceAction)
    ensures
        r@ == lofi_step_spec(e@),
{
    match e {
        LofiEvent::Requested(in_guild, known, channel) => {
            if !in_guild {
                VoiceAction::Answer(notice("This command can only be used in a server!"))
            } else if !known {
                VoiceAction::Answer(notice("Could not find guild information."))
            } else {
                match channel {
                    Some(c) => VoiceAction::Join(c),
                    None => VoiceAction::Answer(notice("You need to be in a voice channel!")),
                }
            }
        },
        LofiEvent::NoVoiceClient => VoiceAction::Fail(owned("Songbird voice client not initialized")),
        LofiEvent::Joined(c, r) => match r {
            Ok(()) => VoiceAction::OpenStream(owned("https://lofi4u.com/api/stream/live"), c),
            Err(m) => {
                let mut s = owned("Failed to join voice channel: ");
                s.append(m.as_str());
                VoiceAction::Answer(Reply::Notice(s))
            },
        },
        LofiEvent::StreamOpened(c, r) => match r {
            Ok(()) => {
                let mut s = owned("Now streaming lofi music in <#");
                push_decimal(&mut s, c);
                s.append(">!\n\nThe bot will stay connected 24/7 until you use `/leave` or kick it.");
                VoiceAction::PlayThenAnswer(Reply::Embed(owned("🎵 Lofi Stream Started"), s, GREEN))
            },
            Err(m) => {
                let mut s = owned("Failed to create audio source: ");
                s.append(m.as_str());
                s.append(". Make sure FFmpeg is installed and accessible.");
                VoiceAction::LeaveThenAnswer(Reply::Notice(s))
            },
        },
    }
}

/// What happened last, as `leave` sees it.
pub enum LeaveEvent {
    /// The command was used; whether in a server.
    Requested(bool),
    /// The bot has no voice client.
    NoVoiceClient,
    /// Whether the bot is connected to a voice channel of the server.
    Connected(bool),
    /// Leaving succeeded, or failed with this error.
    Left(Result<(), String>),
}

/// A leave event as plain values.
pub enum LeaveEventView {
    Requested(bool),
    NoVoiceClient,
    Connected(bool),
    Left(Result<(), Seq<char>>),
}

impl View for LeaveEvent {
    type V = LeaveEventView;

    open spec fn view(&self) -> LeaveEventView {
        match self {
            LeaveEvent::Requested(g) => LeaveEventView::Requested(*g),
            LeaveEvent::NoVoiceClient => LeaveEventView::NoVoiceClient,
            LeaveEvent::Connected(c) => LeaveEventView::Connected(*c),
            LeaveEvent::Left(r) => LeaveEventView::Left(result_view(*r)),
        }
    }
}

/// What `leave` does after `e`. After a request in a server the app asks the
/// voice client whether the bot is connected.
pub open spec fn leave_step_spec(e: LeaveEventView) -> Option<VoiceActionView> {
    match e {
        LeaveEventView::Requested(in_guild) => if in_guild {
            None
        } else {
            Some(VoiceActionView::Answer(ReplyView::Notice("This command can only be used in a server!"@)))
        },
        LeaveEventView::NoVoiceClient => Some(VoiceActionView::Fail(no_voice_client_text())),
        LeaveEventView::Connected(c) => if c {
            Some(VoiceActionView::Leave)
        } else {
            Some(VoiceActionView::Answer(ReplyView::Notice("I'm not connected to any voice channel!"@)))
        },
        LeaveEventView::Left(r) => match r {
            Ok(()) => Some(
                VoiceActionView::Answer(
                    ReplyView::Embed(
                        "👋 Left Voice Channel"@,
                        "Successfully disconnected from the voice channel."@,
                        GREEN,
                    ),
                ),
            ),
            Err(m) => Some(
                VoiceActionView::Answer(ReplyView::Notice("Failed to leave voice channel: "@ + m)),
            ),
        },
    }
}

/// The next step of `leave`; `None` means: look up the connection.
pub fn leave_step(e: LeaveEvent) -> (r: Option<VoiceAction>)
    ensures
        match r {
            Some(a) => leave_step_spec(e@) == Some(a@),
            None => leave_step_spec(e@) is None,
        },
{
    match e {
        LeaveEvent::Requested(in_guild) => if in_guild {
            None
        } else {
            Some(VoiceAction::Answer(notice("This command can only be used in a server!")))
        },
        LeaveEvent::NoVoiceClient => Some(VoiceAction::Fail(owned("Songbird voice client not initialized"))),
        LeaveEvent::Connected(c) => if c {
            Some(VoiceAction::Leave)
        } else {
            Some(VoiceAction::Answer(notice("I'm not connected to any voice channel!")))
        },
        LeaveEvent::Left(r) => match r {
            Ok(()) => Some(
                VoiceAction::Answer(
                    Reply::Embed(
                        owned("👋 Left Voice Channel"),
                        owned("Successfully disconnected from the voice channel."),
                        GREEN,
                    ),
                ),
            ),
            Err(m) => {
                let mut s = owned("Failed to leave voice channel: ");
                s.append(m.as_str());
                Some(VoiceAction::Answer(Reply::Notice(s)))
            },
        },
    }
}

/// A failed stream never leaves the bot connected, and playing is only ever
/// decided after a stream opened.
pub proof fn law_lofi_cleans_up(e: LofiEventView)
    ensures
        e matches LofiEventView::StreamOpened(_, Err(_)) ==> lofi_step_spec(e) is LeaveThenAnswer,
        lofi_step_spec(e) is PlayThenAnswer ==> e matches LofiEventView::StreamOpened(_, Ok(())),
        lofi_step_spec(e) is Join ==> e matches LofiEventView::Requested(true, true, Some(_)),
{
}

/// The lofi command.
pub struct Lofi;

impl Lofi {
    /// The command's name.
    pub fn name(&self) -> (r: &'static str)
        ensures
            r@ == "lofi"@,
    {
        "lofi"
    }

    /// What the command does.
    pub fn description(&self) -> (r: &'static str)
        ensures
            r@ == "Join your voice channel and stream lofi music 24/7"@,
    {
        "Join your voice channel and stream lofi music 24/7"
    }

    /// The word that starts the prefix form.
    pub fn prefix(&self) -> (r: Option<&'static str>)
        ensures
            r matches Some(p) && p@ == "lofi"@,
    {
        Some("lofi")
    }

    /// The time a user waits between two uses, in seconds.
    pub fn cooldown_secs(&self) -> (r: u64)
        ensures
            r == 3,
    {
        3
    }
}

/// The leave command.
pub struct Leave;

impl Leave {
    /// The command's name.
    pub fn name(&self) -> (r: &'static str)
        ensures
            r@ == "leave"@,
    {
        "leave"
    }

    /// What the command does.
    pub fn description(&self) -> (r: &'static str)
        ensures
            r@ == "Disconnect the bot from the voice channel"@,
    {
        "Disconnect the bot from the voice channel"
    }

    /// The word that starts the prefix form.
    pub fn prefix(&self) -> (r: Option<&'static str>)
        ensures
            r matches Some(p) && p@ == "leave"@,
    {
        Some("leave")
    }

    /// The time a user waits between two uses, in seconds.
    pub fn cooldown_secs(&self) -> (r: u64)
        ensures
            r == 3,
    {
        3
    }
}

} // verus!
