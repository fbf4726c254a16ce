//! Answering a slash command.

use vstd::prelude::*;

use crate::callback::{
    apology, apology_text, blocks_user, is_blocked, outcome_of, CallbackRequest, ChannelResponse,
    RequestModel, ResponseModel,
};
use crate::chunks::texts;
use crate::ids::{ChannelId, UserId};
use crate::text::{decimal, law_decimal_reads_back, number_read};

verus! {

/// Who a user is within a guild.
#[derive(Debug)]
pub struct Member {
    pub nick: Option<String>,
}

/// A slash command that a user gave.
#[derive(Debug)]
pub struct SlashCommand {
    /// The name of the command, without the slash.
    pub name: String,
    pub channel_id: ChannelId,
    pub user_id: UserId,
    pub user_name: String,
    /// The user within the guild; a command given in a direct message has none.
    pub member: Option<Member>,
}

/// The name to address the user by: the nickname, or else the account name.
pub open spec fn caller_name(command: SlashCommand) -> Seq<char> {
    if command.member matches Some(member) && member.nick is Some {
        command.member->0.nick->0@
    } else {
        command.user_name@
    }
}

/// What the callback is told. Commands are addressed to the bot, so that group rules do not
/// apply to them; they carry no file, and their answer is taken as a whole.
pub open spec fn command_request(command: SlashCommand) -> RequestModel {
    RequestModel {
        channel_id: decimal(command.channel_id@ as nat),
        user_id: decimal(command.user_id@ as nat),
        user_name: caller_name(command),
        text: "/"@ + command.name@,
        is_group: false,
        file: None,
        streamed: false,
    }
}

/// What the user is told.
pub open spec fn command_answer(outcome: Result<ResponseModel, Seq<char>>) -> Seq<char> {
    match outcome {
        Ok(response) => response.text(),
        Err(error) => if is_blocked(error) {
            "You are not authorized to use this bot."@
        } else {
            apology(error)
        },
    }
}

/// The texts that the user gets: the chunks of the answer or, where it has none, a text of zero
/// width, as Discord takes no empty message.
pub open spec fn visible_chunks(chunks: Seq<Seq<char>>) -> Seq<Seq<char>> {
    if chunks.len() == 0 {
        seq!["\u{200B}"@]
    } else {
        chunks
    }
}

/// Where the answering of a command stands.
pub enum SlashModel {
    /// Waiting for Discord to take note that the answer will come later.
    Deferring { request: RequestModel },
    /// Waiting for the callback to return.
    Calling,
    /// Waiting for the chunks of the answer.
    Formatting,
    /// Waiting for a chunk to be delivered; `rest` is to follow.
    Delivering { rest: Seq<Seq<char>> },
    /// Nothing more to do.
    Finished,
}

/// What the answering of a command is told.
pub enum SlashEventModel {
    Deferred { accepted: bool },
    Returned(Result<ResponseModel, Seq<char>>),
    Formatted { chunks: Seq<Seq<char>> },
    Delivered { accepted: bool },
}

/// What the answering of a command asks for.
pub enum SlashActionModel {
    Defer,
    Invoke(RequestModel),
    Format { text: Seq<char> },
    EditResponse { content: Seq<char> },
    CreateFollowup { content: Seq<char> },
    Finished,
}

impl SlashModel {
    /// Whether the event can come in this state.
    pub open spec fn awaits(self, event: SlashEventModel) -> bool {
        match event {
            SlashEventModel::Deferred { .. } => self is Deferring,
            SlashEventModel::Returned(_) => self is Calling,
            SlashEventModel::Formatted { .. } => self is Formatting,
            SlashEventModel::Delivered { .. } => self is Delivering,
        }
    }

    /// The state and action after an event that is awaited. Anything that Discord does not
    /// accept ends the answering.
    pub open spec fn step(self, event: SlashEventModel) -> (SlashModel, SlashActionModel) {
        match (self, event) {
            (
                SlashModel::Deferring { request },
                SlashEventModel::Deferred { accepted: true },
            ) => (SlashModel::Calling, SlashActionModel::Invoke(request)),
            (SlashModel::Calling, SlashEventModel::Returned(outcome)) => (
                SlashModel::Formatting,
                SlashActionModel::Format { text: command_answer(outcome) },
            ),
            (SlashModel::Formatting, SlashEventModel::Formatted { chunks }) => (
                SlashModel::Delivering { rest: visible_chunks(chunks).drop_first() },
                SlashActionModel::EditResponse { content: visible_chunks(chunks).first() },
            ),
            (
                SlashModel::Delivering { rest },
                SlashEventModel::Delivered { accepted: true },
            ) if rest.len() > 0 => (
                SlashModel::Delivering { rest: rest.drop_first() },
                SlashActionModel::CreateFollowup { content: rest.first() },
            ),
            _ => (SlashModel::Finished, SlashActionModel::Finished),
        }
    }
}

/// What the answering of a command is told.
#[derive(Debug)]
pub enum SlashEvent {
    /// Discord took note that the answer will come later, or did not.
    Deferred { accepted: bool },
    /// The callback returned.
    Returned(Result<ChannelResponse, String>),
    /// The text asked for, formatted and cut into chunks.
    Formatted { chunks: Vec<String> },
    /// The text was delivered, or was not.
    Delivered { accepted: bool },
}

impl View for SlashEvent {
    type V = SlashEventModel;

    open spec fn view(&self) -> SlashEventModel {
        match self {
            SlashEvent::Deferred { accepted } => SlashEventModel::Deferred { accepted: *accepted },
            SlashEvent::Returned(outcome) => SlashEventModel::Returned(outcome_of(*outcome)),
            SlashEvent::Formatted { chunks } => SlashEventModel::Formatted {
                chunks: texts(chunks@),
            },
            SlashEvent::Delivered { accepted } => SlashEventModel::Delivered {
                accepted: *accepted,
            },
        }
    }
}

/// What the answering of a command asks for.
#[derive(Debug)]
pub enum SlashAction {
    /// Tell Discord that the answer will come later.
    Defer,
    /// Call the callback.
    Invoke(CallbackRequest),
    /// Format the text and cut it into chunks.
    Format { text: String },
    /// Put the text where the answer was announced.
    EditResponse { content: String },
    /// Post the text after what was posted before.
    CreateFollowup { content: String },
    /// Nothing more.
    Finished,
}

impl View for SlashAction {
    type V = SlashActionModel;

    open spec fn view(&self) -> SlashActionModel {
        match self {
            SlashAction::Defer => SlashActionModel::Defer,
            SlashAction::Invoke(request) => SlashActionModel::Invoke(request@),
            SlashAction::Format { text } => SlashActionModel::Format { text: text@ },
            SlashAction::EditResponse { content } => SlashActionModel::EditResponse {
                content: content@,
            },
            SlashAction::CreateFollowup { content } => SlashActionModel::CreateFollowup {
                content: content@,
            },
            SlashAction::Finished => SlashActionModel::Finished,
        }
    }
}

#[derive(Debug)]
enum Stage {
    Deferring { request: CallbackRequest },
    Calling,
    Formatting,
    Delivering { chunks: Vec<String>, next: usize },
    Finished,
}

/// The answering of one slash command.
#[derive(Debug)]
pub struct SlashTurn {
    stage: Stage,
}

impl View for SlashTurn {
    type V = SlashModel;

    closed spec fn view(&self) -> SlashModel {
        match self.stage {
            Stage::Deferring { request } => SlashModel::Deferring { request: request@ },
            Stage::Calling => SlashModel::Calling,
            Stage::Formatting => SlashModel::Formatting,
            Stage::Delivering { chunks, next } => SlashModel::Delivering {
                rest: texts(chunks@).skip(next as int),
            },
            Stage::Finished => SlashModel::Finished,
        }
    }
}

impl SlashTurn {
    #[verifier::type_invariant]
    spec fn is_valid(self) -> bool {
        self.stage matches Stage::Delivering { chunks, next } ==> next <= chunks@.len()
    }

    /// Begins to answer the command.
    pub fn begin(command: SlashCommand) -> (turn: (Self, SlashAction))
        ensures
            turn.0@ == (SlashModel::Deferring { request: command_request(command) }),
            turn.1@ == SlashActionModel::Defer,
            turn.0@ matches SlashModel::Deferring { request } && {
                &&& request.text.len() == command.name@.len() + 1
                &&& request.text[0] == '/'
                &&& request.text.skip(1) == command.name@
            },
    {
        let user_name = match command.member {
            Some(member) => match member.nick {
                Some(nick) => nick,
                None => command.user_name,
            },
            None => command.user_name,
        };
        let request = CallbackRequest {
            channel_id: command.channel_id.text(),
            user_id: command.user_id.text(),
            user_name,
            text: "/".to_string().concat(command.name.as_str()),
            is_group: false,
            file: None,
            streamed: false,
        };
        proof {
            law_command_text_is_slash_and_name(command);
        }
        (SlashTurn { stage: Stage::Deferring { request } }, SlashAction::Defer)
    }

    /// Takes in an event, and says what to do next.
    pub fn step(self, event: SlashEvent) -> (next: (Self, SlashAction))
        requires
            self@.awaits(event@),
        ensures
            (next.0@, next.1@) == self@.step(event@),
            next.1 matches SlashAction::Invoke(request) ==> self@ == (SlashModel::Deferring {
                request: request@,
            }),
    {
        proof {
            use_type_invariant(&self);
        }
        match (self.stage, event) {
            (Stage::Deferring { request }, SlashEvent::Deferred { accepted: true }) => (
                SlashTurn { stage: Stage::Calling },
                SlashAction::Invoke(request),
            ),
            (Stage::Calling, SlashEvent::Returned(outcome)) => (
                SlashTurn { stage: Stage::Formatting },
                SlashAction::Format { text: answer_text(outcome) },
            ),
            (Stage::Formatting, SlashEvent::Formatted { chunks }) => {
                let ghost all = texts(chunks@);
                if chunks.len() == 0 {
                    assert(visible_chunks(all).drop_first() =~= texts(chunks@).skip(0));
                    (
                        SlashTurn { stage: Stage::Delivering { chunks, next: 0 } },
                        SlashAction::EditResponse { content: "\u{200B}".to_string() },
                    )
                } else {
                    let content = chunks[0].clone();
                    assert(visible_chunks(all).drop_first() =~= texts(chunks@).skip(1));
                    (
                        SlashTurn { stage: Stage::Delivering { chunks, next: 1 } },
                        SlashAction::EditResponse { content },
                    )
                }
            },
            (Stage::Delivering { chunks, next }, SlashEvent::Delivered { accepted: true }) => {
                if next < chunks.len() {
                    let content = chunks[next].clone();
                    assert(texts(chunks@).skip(next as int).drop_first() =~= texts(chunks@).skip(
                        next + 1,
                    ));
                    (
                        SlashTurn { stage: Stage::Delivering { chunks, next: next + 1 } },
                        SlashAction::CreateFollowup { content },
                    )
                } else {
                    (SlashTurn { stage: Stage::Finished }, SlashAction::Finished)
                }
            },
            _ => (SlashTurn { stage: Stage::Finished }, SlashAction::Finished),
        }
    }
}

/// What the user is told.
pub fn answer_text(outcome: Result<ChannelResponse, String>) -> (text: String)
    ensures
        text@ == command_answer(outcome_of(outcome)),
{
    match outcome {
        Ok(response) => response.text().to_string(),
        Err(error) => if blocks_user(&error) {
            "You are not authorized to use this bot.".to_string()
        } else {
            apology_text(error.as_str())
        },
    }
}

/// The texts that are handed out, one for each event at most, while the events come.
pub open spec fn handed_out(m: SlashModel, events: Seq<SlashEventModel>) -> Seq<Seq<char>>
    decreases events.len(),
{
    if events.len() == 0 {
        Seq::empty()
    } else {
        let (next, action) = m.step(events.first());
        let rest = handed_out(next, events.drop_first());
        match action {
            SlashActionModel::EditResponse { content } => seq![content] + rest,
            SlashActionModel::CreateFollowup { content } => seq![content] + rest,
            _ => rest,
        }
    }
}

/// Whether each of the events can come in the state that it finds.
pub open spec fn slash_accepts(m: SlashModel, events: Seq<SlashEventModel>) -> bool
    decreases events.len(),
{
    events.len() > 0 ==> m.awaits(events.first()) && slash_accepts(
        m.step(events.first()).0,
        events.drop_first(),
    )
}

/// The state after all the events.
pub open spec fn slash_run(m: SlashModel, events: Seq<SlashEventModel>) -> SlashModel
    decreases events.len(),
{
    if events.len() == 0 {
        m
    } else {
        slash_run(m.step(events.first()).0, events.drop_first())
    }
}

/// Nothing comes after the end.
proof fn lemma_finished(events: Seq<SlashEventModel>)
    requires
        slash_accepts(SlashModel::Finished, events),
    ensures
        events.len() == 0,
{
    if events.len() > 0 {
        assert(SlashModel::Finished.awaits(events.first()));
    }
}

/// The rest is handed out in order, and ends early only where a delivery failed.
proof fn lemma_rest_is_handed_out(rest: Seq<Seq<char>>, events: Seq<SlashEventModel>)
    requires
        slash_accepts(SlashModel::Delivering { rest }, events),
    ensures
        events.len() <= rest.len() + 1,
        handed_out(SlashModel::Delivering { rest }, events).is_prefix_of(rest),
        slash_run(SlashModel::Delivering { rest }, events) is Finished && (forall|i: int|
            0 <= i < events.len() ==> #[trigger] events[i] == (SlashEventModel::Delivered {
                accepted: true,
            })) ==> handed_out(SlashModel::Delivering { rest }, events) == rest,
    decreases events.len(),
{
    let m = SlashModel::Delivering { rest };
    if events.len() > 0 {
        let (next, action) = m.step(events.first());
        let later = events.drop_first();
        assert(forall|i: int| 0 <= i < later.len() ==> later[i] == #[trigger] events[i + 1]);
        if next is Finished {
            lemma_finished(later);
            assert(events[0] == events.first());
            assert(handed_out(next, later) =~= Seq::empty());
            if events.first() == (SlashEventModel::Delivered { accepted: true }) {
                assert(rest =~= Seq::empty());
            }
        } else {
            lemma_rest_is_handed_out(rest.drop_first(), later);
            assert(handed_out(m, events) =~= seq![rest.first()] + handed_out(next, later));
            assert(rest =~= seq![rest.first()] + rest.drop_first());
            if forall|i: int|
                0 <= i < events.len() ==> #[trigger] events[i] == (SlashEventModel::Delivered {
                    accepted: true,
                }) {
                assert forall|i: int| 0 <= i < later.len() implies #[trigger] later[i] == (
                SlashEventModel::Delivered { accepted: true }) by {
                    assert(later[i] == events[i + 1]);
                }
            }
        }
    }
}

/// The chunks of an answer are handed out one by one and in order, none twice, and there are no
/// more deliveries than chunks. Where every delivery is accepted, all of the chunks are handed
/// out.
pub proof fn law_command_answer_is_delivered(
    chunks: Seq<Seq<char>>,
    deliveries: Seq<SlashEventModel>,
)
    requires
        slash_accepts(
            SlashModel::Formatting,
            seq![SlashEventModel::Formatted { chunks }] + deliveries,
        ),
    ensures
        ({
            let events = seq![SlashEventModel::Formatted { chunks }] + deliveries;
            let out = handed_out(SlashModel::Formatting, events);
            &&& out.is_prefix_of(visible_chunks(chunks))
            &&& deliveries.len() <= visible_chunks(chunks).len()
            &&& slash_run(SlashModel::Formatting, events) is Finished && (forall|i: int|
                0 <= i < deliveries.len() ==> #[trigger] deliveries[i] == (
                SlashEventModel::Delivered { accepted: true })) ==> out == visible_chunks(chunks)
        }),
{
    let events = seq![SlashEventModel::Formatted { chunks }] + deliveries;
    let all = visible_chunks(chunks);
    assert(events.drop_first() =~= deliveries);
    lemma_rest_is_handed_out(all.drop_first(), deliveries);
    assert(all =~= seq![all.first()] + all.drop_first());
    assert(handed_out(SlashModel::Formatting, events) =~= seq![all.first()] + handed_out(
        SlashModel::Delivering { rest: all.drop_first() },
        deliveries,
    ));
}

/// A delivery that is not accepted is the last.
pub proof fn law_failed_delivery_ends_the_answer(rest: Seq<Seq<char>>)
    ensures
        (SlashModel::Delivering { rest }).step(SlashEventModel::Delivered { accepted: false }) == (
            SlashModel::Finished,
            SlashActionModel::Finished,
        ),
{
}

/// Where Discord does not take note of the command, the callback is not called.
pub proof fn law_unannounced_command_is_dropped(request: RequestModel)
    ensures
        (SlashModel::Deferring { request }).step(SlashEventModel::Deferred { accepted: false }) == (
            SlashModel::Finished,
            SlashActionModel::Finished,
        ),
{
}

/// The text handed to the callback is a slash and then the name of the command, letter by letter.
pub proof fn law_command_text_is_slash_and_name(command: SlashCommand)
    ensures
        command_request(command).text.len() == command.name@.len() + 1,
        command_request(command).text[0] == '/',
        command_request(command).text.skip(1) == command.name@,
{
    reveal_strlit("/");
    assert("/"@ =~= seq!['/']);
    assert(command_request(command).text.skip(1) =~= command.name@);
}

/// Commands with different names are told apart by the text handed to the callback.
pub proof fn law_commands_are_told_apart(one: SlashCommand, other: SlashCommand)
    requires
        command_request(one).text == command_request(other).text,
    ensures
        one.name@ == other.name@,
{
    law_command_text_is_slash_and_name(one);
    law_command_text_is_slash_and_name(other);
}

/// The callback is told the channel and the user by their numbers, and the user by nickname or
/// else by account name. No group rules apply, there is no file, and the answer is taken as a
/// whole.
pub proof fn law_command_request_is_about_the_command(command: SlashCommand)
    ensures
        number_read(command_request(command).channel_id) == command.channel_id@,
        number_read(command_request(command).user_id) == command.user_id@,
        command.member matches Some(member) ==> (member.nick matches Some(nick)
            ==> command_request(command).user_name == nick@),
        command.member matches Some(member) ==> (member.nick is None ==> command_request(
            command,
        ).user_name == command.user_name@),
        command.member is None ==> command_request(command).user_name == command.user_name@,
        !command_request(command).is_group,
        command_request(command).file is None,
        !command_request(command).streamed,
{
    law_decimal_reads_back(command.channel_id@ as nat);
    law_decimal_reads_back(command.user_id@ as nat);
}

/// A command that Discord took note of is handed to the callback as it was given, and what the
/// callback returns is what the user is told: its text, written or spoken, word for word; or that
/// the bot may not be used; or words that end with the error.
pub proof fn law_command_is_answered_with_what_was_returned(
    request: RequestModel,
    text: Seq<char>,
    audio: Seq<u8>,
    error: Seq<char>,
)
    ensures
        (SlashModel::Deferring { request }).step(SlashEventModel::Deferred { accepted: true }) == (
            SlashModel::Calling,
            SlashActionModel::Invoke(request),
        ),
        SlashModel::Calling.step(SlashEventModel::Returned(Ok(ResponseModel::Text(text)))) == (
            SlashModel::Formatting,
            SlashActionModel::Format { text },
        ),
        SlashModel::Calling.step(
            SlashEventModel::Returned(Ok(ResponseModel::Voice { text, audio })),
        ) == (SlashModel::Formatting, SlashActionModel::Format { text }),
        error == "__blocked__"@ ==> SlashModel::Calling.step(
            SlashEventModel::Returned(Err(error)),
        ) == (
            SlashModel::Formatting,
            SlashActionModel::Format { text: "You are not authorized to use this bot."@ },
        ),
        error != "__blocked__"@ ==> SlashModel::Calling.step(
            SlashEventModel::Returned(Err(error)),
        ) == (
            SlashModel::Formatting,
            SlashActionModel::Format { text: "Sorry, an error occurred: "@ + error },
        ),
{
}

/// The first chunk goes where the answer was announced, or a text of zero width where there is
/// none, and the others, in their order, after it.
pub proof fn law_chunks_go_to_their_places(chunks: Seq<Seq<char>>, rest: Seq<Seq<char>>)
    ensures
        chunks.len() > 0 ==> SlashModel::Formatting.step(SlashEventModel::Formatted { chunks }) == (
            SlashModel::Delivering { rest: chunks.skip(1) },
            SlashActionModel::EditResponse { content: chunks[0] },
        ),
        chunks.len() == 0 ==> SlashModel::Formatting.step(SlashEventModel::Formatted { chunks })
            == (
            SlashModel::Delivering { rest: Seq::empty() },
            SlashActionModel::EditResponse { content: "\u{200B}"@ },
        ),
        rest.len() > 0 ==> (SlashModel::Delivering { rest }).step(
            SlashEventModel::Delivered { accepted: true },
        ) == (
            SlashModel::Delivering { rest: rest.skip(1) },
            SlashActionModel::CreateFollowup { content: rest[0] },
        ),
        rest.len() == 0 ==> (SlashModel::Delivering { rest }).step(
            SlashEventModel::Delivered { accepted: true },
        ) == (SlashModel::Finished, SlashActionModel::Finished),
{
    if chunks.len() > 0 {
        assert(chunks.drop_first() =~= chunks.skip(1));
    } else {
        assert(visible_chunks(chunks).drop_first() =~= Seq::empty());
    }
    if rest.len() > 0 {
        assert(rest.drop_first() =~= rest.skip(1));
    }
}

/// Where every delivery is accepted, the texts handed out are the chunks, all of them and in
/// order, or one text of zero width where there are none.
pub proof fn law_all_chunks_are_handed_out(chunks: Seq<Seq<char>>, deliveries: Seq<SlashEventModel>)
    requires
        slash_accepts(
            SlashModel::Formatting,
            seq![SlashEventModel::Formatted { chunks }] + deliveries,
        ),
        slash_run(
            SlashModel::Formatting,
            seq![SlashEventModel::Formatted { chunks }] + deliveries,
        ) is Finished,
        forall|i: int|
            0 <= i < deliveries.len() ==> #[trigger] deliveries[i] == (
            SlashEventModel::Delivered { accepted: true }),
    ensures
        chunks.len() > 0 ==> handed_out(
            SlashModel::Formatting,
            seq![SlashEventModel::Formatted { chunks }] + deliveries,
        ) == chunks,
        chunks.len() == 0 ==> handed_out(
            SlashModel::Formatting,
            seq![SlashEventModel::Formatted { chunks }] + deliveries,
        ) == seq!["\u{200B}"@],
{
    law_command_answer_is_delivered(chunks, deliveries);
}

/// The answering of a command can be told, at each stage, whatever can come of what it asked for,
/// and nothing else.
pub proof fn law_each_stage_awaits_its_events(
    m: SlashModel,
    accepted: bool,
    outcome: Result<ResponseModel, Seq<char>>,
    chunks: Seq<Seq<char>>,
)
    ensures
        m.awaits(SlashEventModel::Deferred { accepted }) <==> m is Deferring,
        m.awaits(SlashEventModel::Returned(outcome)) <==> m is Calling,
        m.awaits(SlashEventModel::Formatted { chunks }) <==> m is Formatting,
        m.awaits(SlashEventModel::Delivered { accepted }) <==> m is Delivering,
{
}

/// Events and actions are read as they are.
pub proof fn law_events_and_actions_are_read_as_they_are(
    accepted: bool,
    text: String,
    audio: Vec<u8>,
    chunks: Vec<String>,
    request: CallbackRequest,
)
    ensures
        (SlashEvent::Deferred { accepted })@ == (SlashEventModel::Deferred { accepted }),
        SlashEvent::Returned(Ok(ChannelResponse::Text(text)))@ == SlashEventModel::Returned(
            Ok(ResponseModel::Text(text@)),
        ),
        SlashEvent::Returned(Ok(ChannelResponse::Voice { text, audio }))@
            == SlashEventModel::Returned(Ok(ResponseModel::Voice { text: text@, audio: audio@ })),
        SlashEvent::Returned(Err(text))@ == SlashEventModel::Returned(Err(text@)),
        (SlashEvent::Formatted { chunks })@ == (SlashEventModel::Formatted {
            chunks: texts(chunks@),
        }),
        (SlashEvent::Delivered { accepted })@ == (SlashEventModel::Delivered { accepted }),
        SlashAction::Defer@ == SlashActionModel::Defer,
        SlashAction::Invoke(request)@ == SlashActionModel::Invoke(request@),
        (SlashAction::Format { text })@ == (SlashActionModel::Format { text: text@ }),
        (SlashAction::EditResponse { content: text })@ == (SlashActionModel::EditResponse {
            content: text@,
        }),
        (SlashAction::CreateFollowup { content: text })@ == (SlashActionModel::CreateFollowup {
            content: text@,
        }),
        SlashAction::Finished@ == SlashActionModel::Finished,
{
}

} // verus!
