//! The session engine: how one session's commands become an ordered stream
//! of audio.
//!
//! Two state machines live here. [`SessionActor`] routes what arrives in the
//! inbox to one of two lanes and decides when the session ends. [`Worker`]
//! serves the lanes: it keeps the token count that throttles the user lane,
//! groups consecutive messages of one speaker, synthesises, and hands the
//! audio to the driver. The caller owns the channels and the waiting; every
//! decision is taken here.

use crate::session::driver::AudioDriver;
use crate::session::driver::DriverError;
use crate::session::Priority;
use crate::session::SessionCommand;
use crate::session::Speaker;
use crate::session::UserId;
use crate::text::texts;
use crate::tts::voice_answers;
use crate::tts::SharedVoice;
use crate::tts::Voice;
use crate::tts::VoiceError;
use std::sync::Arc;
use vstd::prelude::*;

verus! {

/// Tokens a worker starts with; also the most it ever holds.
pub const INITIAL_TOKEN: usize = 3;

/// Capacity of a session's inbox and of each of its two lanes.
pub const LANE_CAPACITY: usize = 100;

/// Capacity of the channel on which the driver reports finished segments.
pub const END_EVENT_CAPACITY: usize = INITIAL_TOKEN * 2;

/// A request to synthesise a text and play it.
#[derive(Clone)]
pub struct GenerateAndPlay {
    pub text: String,
    pub speaker: Option<Speaker>,
    pub voice: SharedVoice,
}

/// What travels in a lane.
#[derive(Clone)]
pub enum WorkerCommand {
    GenerateAndPlay(GenerateAndPlay),
}

/// Why a session ended.
#[derive(Clone, Copy, Debug, PartialEq, Eq, Structural)]
pub enum ExitReason {
    /// A user asked for it.
    Leave,
    /// The voice connection was lost.
    Disconnect,
    /// Every handle to the inbox was dropped.
    InboxClosed,
}

/// Where the actor is in its life.
#[derive(Clone, Copy, Debug, PartialEq, Eq, Structural)]
pub enum ActorPhase {
    /// Commands are routed.
    Running,
    /// The session has ended; the driver has not been told yet.
    Stopping(ExitReason),
    /// The driver has been told to leave.
    Stopped,
}

/// What the actor decided about one command.
pub enum Routed {
    /// Goes to the system lane, which delivers in order and loses nothing.
    System(WorkerCommand),
    /// Goes to the user lane, which may drop under overload.
    User(WorkerCommand),
    /// Nothing to do.
    Ignored,
    /// The session ends here.
    Exit(ExitReason),
}

/// The decision that `SessionActor::route` takes for `command` in `phase`.
pub open spec fn route_spec(phase: ActorPhase, command: SessionCommand) -> Routed {
    if phase != ActorPhase::Running {
        Routed::Ignored
    } else {
        match command {
            SessionCommand::Speak { text, voice, speaker, priority } => {
                let request = WorkerCommand::GenerateAndPlay(GenerateAndPlay { text, speaker, voice });
                match priority {
                    Priority::System => Routed::System(request),
                    Priority::User => Routed::User(request),
                }
            },
            SessionCommand::Stop => Routed::Ignored,
            SessionCommand::Leave => Routed::Exit(ExitReason::Leave),
            SessionCommand::Disconnect => Routed::Exit(ExitReason::Disconnect),
        }
    }
}

/// The phase that follows `phase` once `command` has been routed.
pub open spec fn phase_after(phase: ActorPhase, command: SessionCommand) -> ActorPhase {
    match route_spec(phase, command) {
        Routed::Exit(reason) => ActorPhase::Stopping(reason),
        _ => phase,
    }
}

/// The phase reached from `phase` by routing `commands` in order.
pub open spec fn phase_after_all(phase: ActorPhase, commands: Seq<SessionCommand>) -> ActorPhase
    decreases commands.len(),
{
    if commands.len() == 0 {
        phase
    } else {
        phase_after(phase_after_all(phase, commands.drop_last()), commands.last())
    }
}

/// Whether the driver is still to be told to leave: the session has ended,
/// and the driver has not been told.
pub open spec fn leave_is_due(phase: ActorPhase) -> bool {
    phase is Stopping
}

/// Whether `answer` is what `driver` may answer when it is told to leave.
pub open spec fn told_to_leave<D: AudioDriver + ?Sized>(driver: &D, answer: Result<(), DriverError>) -> bool {
    call_ensures(D::leave, (driver,), answer)
}

/// The phase that `shutdown` leaves behind.
pub open spec fn phase_after_shutdown(phase: ActorPhase) -> ActorPhase {
    if phase is Stopping {
        ActorPhase::Stopped
    } else {
        phase
    }
}

/// The owner of one session's inbox.
///
/// The caller feeds it every command that arrives, forwards what it routes,
/// stops feeding once it is no longer running, and then calls
/// [`SessionActor::shutdown`].
pub struct SessionActor<D: AudioDriver + ?Sized = dyn AudioDriver> {
    phase: ActorPhase,
    driver: Arc<D>,
}

impl<D: AudioDriver + ?Sized> SessionActor<D> {
    /// A running actor for the session that plays through `driver`.
    pub fn new(driver: Arc<D>) -> (actor: Self)
        ensures
            actor.phase() == ActorPhase::Running,
            actor.driver() == driver,
    {
        Self { phase: ActorPhase::Running, driver }
    }

    pub closed spec fn phase(self) -> ActorPhase {
        self.phase
    }

    pub closed spec fn driver(self) -> Arc<D> {
        self.driver
    }

    /// The phase the actor is in.
    pub fn current_phase(&self) -> (phase: ActorPhase)
        ensures
            phase == self.phase(),
    {
        self.phase
    }

    /// Whether the actor still takes commands.
    pub fn is_running(&self) -> (running: bool)
        ensures
            running == (self.phase() == ActorPhase::Running),
    {
        match self.phase {
            ActorPhase::Running => true,
            _ => false,
        }
    }

    /// Decides what becomes of `command`.
    ///
    /// While running: a speak request goes to the lane of its priority,
    /// `Stop` does nothing, `Leave` and `Disconnect` end the session. Once
    /// the session has ended every command is ignored.
    pub fn route(&mut self, command: SessionCommand) -> (routed: Routed)
        ensures
            routed == route_spec(old(self).phase(), command),
            final(self).phase() == phase_after(old(self).phase(), command),
            final(self).driver() == old(self).driver(),
    {
        match self.phase {
            ActorPhase::Running => {},
            _ => {
                return Routed::Ignored;
            },
        }
        match command {
            SessionCommand::Speak { text, voice, speaker, priority } => {
                let request = WorkerCommand::GenerateAndPlay(GenerateAndPlay { text, speaker, voice });
                match priority {
                    Priority::System => Routed::System(request),
                    Priority::User => Routed::User(request),
                }
            },
            SessionCommand::Stop => Routed::Ignored,
            SessionCommand::Leave => {
                self.phase = ActorPhase::Stopping(ExitReason::Leave);
                Routed::Exit(ExitReason::Leave)
            },
            SessionCommand::Disconnect => {
                self.phase = ActorPhase::Stopping(ExitReason::Disconnect);
                Routed::Exit(ExitReason::Disconnect)
            },
        }
    }

    /// Records that the inbox was closed: a running session ends.
    pub fn inbox_closed(&mut self)
        ensures
            final(self).phase() == (if old(self).phase() == ActorPhase::Running {
                ActorPhase::Stopping(ExitReason::InboxClosed)
            } else {
                old(self).phase()
            }),
            final(self).driver() == old(self).driver(),
    {
        match self.phase {
            ActorPhase::Running => {
                self.phase = ActorPhase::Stopping(ExitReason::InboxClosed);
            },
            _ => {},
        }
    }

    /// Tells the driver to leave, if the session has ended and the driver
    /// has not been told before.
    ///
    /// Returns what the driver answered to that, or `None` where the driver
    /// was not called. A failure of the driver is reported and changes nothing: the
    /// actor is stopped either way.
    pub fn shutdown(&mut self) -> (left: Option<Result<(), DriverError>>)
        ensures
            left is Some <==> leave_is_due(old(self).phase()),
            left matches Some(answer) ==> told_to_leave(&*old(self).driver(), answer),
            final(self).phase() == phase_after_shutdown(old(self).phase()),
            final(self).driver() == old(self).driver(),
    {
        match self.phase {
            ActorPhase::Stopping(_) => {
                self.phase = ActorPhase::Stopped;
                Some(self.driver.leave())
            },
            _ => None,
        }
    }
}

/// Once a session has ended, no command is routed to a lane any more,
/// whatever was sent before and whatever is sent after.
pub proof fn lemma_nothing_routed_after_exit(
    phase: ActorPhase,
    later: Seq<SessionCommand>,
    command: SessionCommand,
)
    requires
        phase != ActorPhase::Running,
    ensures
        phase_after_all(phase, later) == phase,
        route_spec(phase_after_all(phase, later), command) == Routed::Ignored,
    decreases later.len(),
{
    if later.len() > 0 {
        lemma_nothing_routed_after_exit(phase, later.drop_last(), later.last());
    }
}

/// `Leave` and `Disconnect` end a running session.
pub proof fn lemma_terminal_command_stops(command: SessionCommand)
    requires
        command.is_terminal(),
    ensures
        phase_after(ActorPhase::Running, command) is Stopping,
        route_spec(ActorPhase::Running, command) is Exit,
{
}

/// The driver is told to leave once. Whichever way a running session ends
/// (`Leave`, `Disconnect`, the inbox closed), leaving is due; the `shutdown`
/// that finds it due tells the driver, and after it leaving is never due
/// again, whatever commands arrive.
pub proof fn lemma_driver_leaves_once(phase: ActorPhase, later: Seq<SessionCommand>)
    requires
        leave_is_due(phase),
    ensures
        !leave_is_due(phase_after_all(phase_after_shutdown(phase), later)),
        phase_after_shutdown(phase_after_all(phase_after_shutdown(phase), later)) == ActorPhase::Stopped,
{
    if later.len() > 0 {
        lemma_nothing_routed_after_exit(phase_after_shutdown(phase), later.drop_last(), later.last());
    }
}

/// The three inputs of a worker, in the order in which they are served.
#[derive(Clone, Copy, Debug, PartialEq, Eq, Structural)]
pub enum Source {
    /// Reports of the driver that a segment has finished playing.
    Playback,
    /// The system lane.
    System,
    /// The user lane.
    User,
}

/// What a worker is handed in one turn.
pub enum WorkerEvent {
    /// A segment has finished playing.
    PlaybackEnded,
    /// A request from the system lane.
    System(WorkerCommand),
    /// A request from the user lane.
    User(WorkerCommand),
    /// The user lane dropped this many requests because the worker fell
    /// behind.
    UserLagged(u64),
    /// The user lane is closed.
    UserClosed,
    /// No input can deliver anything any more.
    Exhausted,
}

/// Whether the worker goes on after a turn.
#[derive(Clone, Copy, Debug, PartialEq, Eq, Structural)]
pub enum WorkerStep {
    Continue,
    Stop,
}

/// The token count after one finished segment: one more, but never more
/// than the initial grant.
pub open spec fn released(tokens: int) -> int {
    if tokens < INITIAL_TOKEN as int {
        tokens + 1
    } else {
        tokens
    }
}

/// The token count after `segments` segments were queued. The count may go
/// below zero: audio that is already queued is paid back by later
/// completions. It stops at the least value the counter can hold.
pub open spec fn spent(tokens: int, segments: int) -> int {
    if tokens - segments < i64::MIN as int {
        i64::MIN as int
    } else {
        tokens - segments
    }
}

/// Whether the name of `speaker` is read out before the text, given whose
/// the segment before was: only for a speaker, and only where the segment
/// before was not that speaker's. After a request without a speaker everyone
/// is named again.
pub open spec fn names_speaker(last: Option<UserId>, speaker: Option<Speaker>) -> bool {
    speaker matches Some(who) && last != Some(who.user_id)
}

/// The segments that a request becomes: the speaker's name where
/// [`names_speaker`] says so, then the text.
pub open spec fn segments_spec(last: Option<UserId>, speaker: Option<Speaker>, text: Seq<char>) -> Seq<
    Seq<char>,
> {
    if names_speaker(last, speaker) {
        seq![speaker->0.name@, text]
    } else {
        seq![text]
    }
}

/// Whose the last segment is, after a request of `speaker`: the speaker's,
/// or nobody's where the request has no speaker.
pub open spec fn last_speaker_after(last: Option<UserId>, speaker: Option<Speaker>) -> Option<UserId> {
    match speaker {
        Some(who) => Some(who.user_id),
        None => None,
    }
}

/// The input that is served next, given which inputs have something ready:
/// finished segments first, so that tokens are won back before they are
/// spent; then the system lane; then the user lane, and that only while
/// tokens are left.
pub open spec fn select_spec(tokens: int, playback_ready: bool, system_ready: bool, user_ready: bool) -> Option<
    Source,
> {
    if playback_ready {
        Some(Source::Playback)
    } else if system_ready {
        Some(Source::System)
    } else if user_ready && tokens > 0 {
        Some(Source::User)
    } else {
        None
    }
}

/// The token count reached from `tokens` after requests of `lengths`
/// segments each were queued, with no segment finishing in between.
pub open spec fn spent_all(tokens: int, lengths: Seq<nat>) -> int
    decreases lengths.len(),
{
    if lengths.len() == 0 {
        tokens
    } else {
        spent(spent_all(tokens, lengths.drop_last()), lengths.last() as int)
    }
}

/// The sum of `lengths`.
pub open spec fn total(lengths: Seq<nat>) -> int
    decreases lengths.len(),
{
    if lengths.len() == 0 {
        0
    } else {
        total(lengths.drop_last()) + lengths.last()
    }
}

/// The serving half of a session: token count and last named speaker.
pub struct Worker {
    tokens: i64,
    last_speaker_id: Option<UserId>,
}

impl Worker {
    #[verifier::type_invariant]
    spec fn bounded(self) -> bool {
        self.tokens <= INITIAL_TOKEN as int
    }

    /// The tokens left. Negative when more was queued than was granted.
    pub closed spec fn tokens(self) -> int {
        self.tokens as int
    }

    /// The speaker of the request served last, if it had one.
    pub closed spec fn last_speaker(self) -> Option<UserId> {
        self.last_speaker_id
    }

    /// A worker with the full grant, that has named nobody yet.
    pub fn new() -> (worker: Self)
        ensures
            worker.tokens() == INITIAL_TOKEN,
            worker.last_speaker() == None::<UserId>,
    {
        Self { tokens: 3, last_speaker_id: None }
    }

    /// The tokens left.
    pub fn tokens_left(&self) -> (tokens: i64)
        ensures
            tokens == self.tokens(),
            tokens <= INITIAL_TOKEN,
    {
        proof {
            use_type_invariant(self);
        }
        self.tokens
    }

    /// The speaker of the request served last, if it had one.
    pub fn last_speaker_id(&self) -> (last: Option<UserId>)
        ensures
            last == self.last_speaker(),
    {
        self.last_speaker_id
    }

    /// Whether the user lane may be served: only while tokens are left.
    pub fn user_can_consume(&self) -> (eligible: bool)
        ensures
            eligible == (self.tokens() > 0),
    {
        self.tokens > 0
    }

    /// Picks the input to serve next; see [`select_spec`].
    pub fn select(&self, playback_ready: bool, system_ready: bool, user_ready: bool) -> (source: Option<
        Source,
    >)
        ensures
            source == select_spec(self.tokens(), playback_ready, system_ready, user_ready),
    {
        if playback_ready {
            Some(Source::Playback)
        } else if system_ready {
            Some(Source::System)
        } else if user_ready && self.tokens > 0 {
            Some(Source::User)
        } else {
            None
        }
    }

    /// Takes note that a segment has finished playing.
    pub fn release_token(&mut self)
        ensures
            final(self).tokens() == released(old(self).tokens()),
            final(self).last_speaker() == old(self).last_speaker(),
    {
        proof {
            use_type_invariant(&*self);
        }
        if self.tokens < 3 {
            self.tokens = self.tokens + 1;
        }
    }

    /// Takes note that `segments` segments were queued.
    pub fn spend(&mut self, segments: usize)
        ensures
            final(self).tokens() == spent(old(self).tokens(), segments as int),
            final(self).last_speaker() == old(self).last_speaker(),
    {
        proof {
            use_type_invariant(&*self);
        }
        let left: i128 = self.tokens as i128 - segments as i128;
        if left < i64::MIN as i128 {
            self.tokens = i64::MIN;
        } else {
            self.tokens = left as i64;
        }
    }

    /// Turns one request into the texts to synthesise, and remembers whose
    /// they are.
    pub fn segments_for(&mut self, speaker: Option<Speaker>, text: String) -> (segments: Vec<String>)
        ensures
            texts(segments@) == segments_spec(old(self).last_speaker(), speaker, text@),
            final(self).last_speaker() == last_speaker_after(old(self).last_speaker(), speaker),
            final(self).tokens() == old(self).tokens(),
    {
        proof {
            use_type_invariant(&*self);
        }
        let mut segments: Vec<String> = Vec::new();
        let ghost before = self.last_speaker_id;
        match speaker {
            Some(who) => {
                let named_last = match self.last_speaker_id {
                    Some(last) => last == who.user_id,
                    None => false,
                };
                self.last_speaker_id = Some(who.user_id);
                if !named_last {
                    segments.push(who.name);
                }
            },
            None => {
                self.last_speaker_id = None;
            },
        }
        segments.push(text);
        assert(texts(segments@) =~= segments_spec(before, speaker, text@));
        segments
    }

    /// Serves one request: builds its segments, synthesises them with the
    /// request's voice, queues the audio on `driver` and pays for it.
    ///
    /// The request counts as the last one whether or not synthesis succeeds.
    /// Tokens are paid only for audio that was queued: a request that fails
    /// is dropped whole and costs nothing.
    pub fn play<D: AudioDriver + ?Sized>(&mut self, command: WorkerCommand, driver: &D) -> (played: Result<
        usize,
        VoiceError,
    >)
        ensures
            final(self).last_speaker() == last_speaker_after(
                old(self).last_speaker(),
                command->GenerateAndPlay_0.speaker,
            ),
            played_as(
                command->GenerateAndPlay_0.voice,
                driver,
                segments_spec(
                    old(self).last_speaker(),
                    command->GenerateAndPlay_0.speaker,
                    command->GenerateAndPlay_0.text@,
                ),
                played,
            ),
            final(self).tokens() == paid(old(self).tokens(), played),
    {
        let WorkerCommand::GenerateAndPlay(request) = command;
        let segments = self.segments_for(request.speaker, request.text);
        match generate_and_play(segments, &request.voice, driver) {
            Ok(count) => {
                self.spend(count);
                Ok(count)
            },
            Err(error) => Err(error),
        }
    }

    /// One turn of the worker.
    ///
    /// A finished segment wins a token back. A request, from either lane, is
    /// served with [`Worker::play`]; if it fails it is dropped and the worker
    /// goes on. Requests that the user lane lost are skipped. The worker
    /// stops when the user lane is closed or when nothing can arrive any
    /// more.
    pub fn step<D: AudioDriver + ?Sized>(&mut self, event: WorkerEvent, driver: &D) -> (next: WorkerStep)
        ensures
            next == (if event is UserClosed || event is Exhausted {
                WorkerStep::Stop
            } else {
                WorkerStep::Continue
            }),
            event is PlaybackEnded ==> final(self).tokens() == released(old(self).tokens()),
            event is UserLagged || event is UserClosed || event is Exhausted ==> final(self).tokens()
                == old(self).tokens(),
            event is PlaybackEnded || event is UserLagged || event is UserClosed || event is Exhausted
                ==> final(self).last_speaker() == old(self).last_speaker(),
            event matches WorkerEvent::System(command) ==> served(*old(self), command, driver, *final(self)),
            event matches WorkerEvent::User(command) ==> served(*old(self), command, driver, *final(self)),
    {
        match event {
            WorkerEvent::PlaybackEnded => {
                self.release_token();
                WorkerStep::Continue
            },
            WorkerEvent::System(command) => {
                let played = self.play(command, driver);
                assert(outcome_of(*old(self), command, driver, played, *self));
                WorkerStep::Continue
            },
            WorkerEvent::User(command) => {
                let played = self.play(command, driver);
                assert(outcome_of(*old(self), command, driver, played, *self));
                WorkerStep::Continue
            },
            WorkerEvent::UserLagged(_) => WorkerStep::Continue,
            WorkerEvent::UserClosed => WorkerStep::Stop,
            WorkerEvent::Exhausted => WorkerStep::Stop,
        }
    }
}

/// The tokens left after a request was served: paid for every segment
/// where it was queued, untouched where it failed.
pub open spec fn paid(tokens: int, played: Result<usize, VoiceError>) -> int {
    match played {
        Ok(count) => spent(tokens, count as int),
        Err(_) => tokens,
    }
}

/// Whether serving `command` with the outcome `played` leads from `before`
/// to `after`: the request is remembered as the last one, its segments were
/// handed to its voice and to `driver` as `played` says, and the tokens
/// were paid accordingly.
pub open spec fn outcome_of<D: AudioDriver + ?Sized>(
    before: Worker,
    command: WorkerCommand,
    driver: &D,
    played: Result<usize, VoiceError>,
    after: Worker,
) -> bool {
    let request = command->GenerateAndPlay_0;
    &&& after.last_speaker() == last_speaker_after(before.last_speaker(), request.speaker)
    &&& played_as(
        request.voice,
        driver,
        segments_spec(before.last_speaker(), request.speaker, request.text@),
        played,
    )
    &&& after.tokens() == paid(before.tokens(), played)
}

/// What serving `command` does to a worker, whatever the outcome was; see
/// [`outcome_of`].
pub open spec fn served<D: AudioDriver + ?Sized>(
    before: Worker,
    command: WorkerCommand,
    driver: &D,
    after: Worker,
) -> bool {
    exists|played: Result<usize, VoiceError>| #[trigger] outcome_of(before, command, driver, played, after)
}

/// Whether `audios` is what `voice` may answer for the first of `segments`:
/// one answer a segment, in order.
pub open spec fn synthesised(voice: SharedVoice, segments: Seq<Seq<char>>, audios: Seq<Vec<u8>>) -> bool {
    &&& audios.len() <= segments.len()
    &&& forall|i: int|
        0 <= i < audios.len() ==> voice_answers(&*voice.voice(), segments[i], Ok(#[trigger] audios[i]))
}

/// Whether `driver` may have been handed `audios` as one batch.
pub open spec fn queued<D: AudioDriver + ?Sized>(driver: &D, audios: Vec<Vec<u8>>) -> bool {
    call_ensures(D::enqueue, (driver, audios), ())
}

/// Whether `played` is a possible outcome of synthesising `segments` with
/// `voice` and queueing the audio on `driver`. `Ok` carries the number of
/// segments, every segment was answered with audio, in order, and the
/// driver was handed that audio as one batch. `Err` carries the error that
/// the voice answered for the first segment it did not answer with audio.
pub open spec fn played_as<D: AudioDriver + ?Sized>(
    voice: SharedVoice,
    driver: &D,
    segments: Seq<Seq<char>>,
    played: Result<usize, VoiceError>,
) -> bool {
    match played {
        Ok(count) => {
            &&& count == segments.len()
            &&& exists|audios: Vec<Vec<u8>>|
                {
                    &&& #[trigger] queued(driver, audios)
                    &&& audios@.len() == count
                    &&& synthesised(voice, segments, audios@)
                }
        },
        Err(error) => exists|audios: Seq<Vec<u8>>|
            {
                &&& #[trigger] synthesised(voice, segments, audios)
                &&& audios.len() < segments.len()
                &&& voice_answers(&*voice.voice(), segments[audios.len() as int], Err(error))
            },
    }
}

/// Synthesises every segment with `voice`, in order, and queues the audio on
/// `driver` as one batch.
///
/// Nothing is queued unless every segment was synthesised: the first failure
/// ends the request and is returned as it came. On success the number of
/// segments queued is returned, which is the number given.
pub fn generate_and_play<D: AudioDriver + ?Sized>(segments: Vec<String>, voice: &SharedVoice, driver: &D) -> (played:
    Result<usize, VoiceError>)
    ensures
        played_as(*voice, driver, texts(segments@), played),
{
    let mut audios: Vec<Vec<u8>> = Vec::new();
    let mut index: usize = 0;
    while index < segments.len()
        invariant
            index <= segments@.len(),
            audios@.len() == index,
            synthesised(*voice, texts(segments@), audios@),
        decreases segments@.len() - index,
    {
        match voice.generate(segments[index].as_str()) {
            Ok(audio) => {
                audios.push(audio);
            },
            Err(error) => {
                assert(synthesised(*voice, texts(segments@), audios@));
                return Err(error);
            },
        }
        index = index + 1;
    }
    let count = audios.len();
    let ghost batch = audios;
    driver.enqueue(audios);
    assert(queued(driver, batch));
    Ok(count)
}

/// The least value the token counter holds, or `tokens` where that is more.
pub open spec fn floored(tokens: int) -> int {
    if tokens < i64::MIN as int {
        i64::MIN as int
    } else {
        tokens
    }
}

/// While no segment finishes, the tokens left are the initial grant less
/// the segments queued; the user lane is served exactly as long as fewer
/// segments were queued than tokens were granted; the system lane is served
/// whatever the count.
pub proof fn lemma_user_lane_budget(lengths: Seq<nat>, user_ready: bool)
    ensures
        spent_all(INITIAL_TOKEN as int, lengths) == floored(INITIAL_TOKEN - total(lengths)),
        select_spec(spent_all(INITIAL_TOKEN as int, lengths), false, false, true) == (if total(lengths)
            < INITIAL_TOKEN {
            Some(Source::User)
        } else {
            None
        }),
        select_spec(spent_all(INITIAL_TOKEN as int, lengths), false, true, user_ready) == Some(
            Source::System,
        ),
    decreases lengths.len(),
{
    if lengths.len() > 0 {
        lemma_total_nonnegative(lengths.drop_last());
        lemma_user_lane_budget(lengths.drop_last(), user_ready);
    }
}

/// A sum of lengths is never negative.
pub proof fn lemma_total_nonnegative(lengths: Seq<nat>)
    ensures
        total(lengths) >= 0,
    decreases lengths.len(),
{
    if lengths.len() > 0 {
        lemma_total_nonnegative(lengths.drop_last());
    }
}

/// Each finished segment wins back one token, and the count never passes the
/// initial grant.
pub proof fn lemma_release_is_bounded(tokens: int)
    requires
        tokens <= INITIAL_TOKEN,
    ensures
        released(tokens) <= INITIAL_TOKEN,
        tokens < INITIAL_TOKEN ==> released(tokens) == tokens + 1,
        tokens == INITIAL_TOKEN ==> released(tokens) == tokens,
{
}

/// Two requests in a row from one speaker, who was not the one named last:
/// the name is read once, then both texts.
pub proof fn lemma_same_speaker_named_once(
    last: Option<UserId>,
    speaker: Speaker,
    first: Seq<char>,
    second: Seq<char>,
)
    requires
        last != Some(speaker.user_id),
    ensures
        segments_spec(last, Some(speaker), first) + segments_spec(
            last_speaker_after(last, Some(speaker)),
            Some(speaker),
            second,
        ) == seq![speaker.name@, first, second],
{
    let after = last_speaker_after(last, Some(speaker));
    assert(segments_spec(last, Some(speaker), first) + segments_spec(after, Some(speaker), second)
        =~= seq![speaker.name@, first, second]);
}

/// A request from another speaker in between gets that speaker's name, and
/// the first speaker is named again afterwards.
pub proof fn lemma_other_speaker_named_again(
    last: Option<UserId>,
    speaker: Speaker,
    other: Speaker,
    text: Seq<char>,
    again: Seq<char>,
)
    requires
        speaker.user_id != other.user_id,
    ensures
        ({
            let after_first = last_speaker_after(last, Some(speaker));
            let after_other = last_speaker_after(after_first, Some(other));
            &&& after_first == Some(speaker.user_id)
            &&& segments_spec(after_first, Some(other), text) == seq![other.name@, text]
            &&& after_other == Some(other.user_id)
            &&& segments_spec(after_other, Some(speaker), again) == seq![speaker.name@, again]
        }),
{
}

/// A request without a speaker is one segment, and after it the next
/// request of any speaker carries the name again, even of the speaker who
/// spoke just before it.
pub proof fn lemma_announcement_names_nobody(
    last: Option<UserId>,
    notice: Seq<char>,
    speaker: Speaker,
    text: Seq<char>,
)
    ensures
        segments_spec(last, None, notice) == seq![notice],
        last_speaker_after(last, None) == None::<UserId>,
        segments_spec(last_speaker_after(last, None), Some(speaker), text) == seq![speaker.name@, text],
{
}

} // verus!
