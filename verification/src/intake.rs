//! From a message that was let through to what the callback is told about it: the attached file
//! is downloaded and, where the bot is called into a thread, the thread's starter text is found.

use vstd::prelude::*;

use crate::callback::{file_of, CallbackRequest, DiscordFile, FileModel, RequestModel};
use crate::handler::Admission;
use crate::ids::UserId;
use crate::message::{text_of, DiscordMessage};
use crate::prompt::{
    build_thread_starter_prompt, law_prompt_with_starter_is_not_blank, thread_starter_prompt,
};
use crate::starter::{
    law_starter_text_is_not_blank, starter_text, ChannelInfo, LookupAction, LookupActionModel,
    LookupEvent, LookupModel, ThreadStarterLookup,
};
use crate::text::{decimal, law_decimal_reads_back, number_read};
use crate::turn::calls_for_answer;

verus! {

/// What is to be done about the files attached to a message.
#[derive(Clone, Copy, Debug, PartialEq, Eq, Structural)]
pub enum AttachmentPlan {
    /// There are none.
    Nothing,
    /// The first is larger than allowed, and is passed over.
    TooLarge,
    /// The first is to be downloaded.
    Download,
}

/// What is to be done about the files attached to a message. Only the first counts.
pub open spec fn plan_for(message: DiscordMessage, max_bytes: usize) -> AttachmentPlan {
    if message.attachments@.len() == 0 {
        AttachmentPlan::Nothing
    } else if message.attachments@[0].size > max_bytes {
        AttachmentPlan::TooLarge
    } else {
        AttachmentPlan::Download
    }
}

/// What is to be done about the files attached to a message.
pub fn attachment_plan(message: &DiscordMessage, max_bytes: usize) -> (plan: AttachmentPlan)
    ensures
        plan == plan_for(*message, max_bytes),
{
    if message.attachments.len() == 0 {
        AttachmentPlan::Nothing
    } else if message.attachments[0].size as usize > max_bytes {
        AttachmentPlan::TooLarge
    } else {
        AttachmentPlan::Download
    }
}

/// The first file of a message, with the bytes that were downloaded.
pub open spec fn first_file(message: DiscordMessage, data: Seq<u8>) -> FileModel {
    FileModel {
        filename: message.attachments@[0].filename@,
        data,
        content_type: text_of(message.attachments@[0].content_type),
    }
}

/// The name to address the author by: the display name, or else the account name.
pub open spec fn author_name(message: DiscordMessage) -> Seq<char> {
    match message.author.global_name {
        Some(name) => name@,
        None => message.author.name@,
    }
}

/// What the callback is told about a message, given the file that came with it and the starter
/// text that was found for it.
pub open spec fn message_request(
    message: DiscordMessage,
    bot: u64,
    is_group: bool,
    file: Option<FileModel>,
    starter: Option<Seq<char>>,
) -> RequestModel {
    RequestModel {
        channel_id: decimal(message.channel_id@ as nat),
        user_id: decimal(message.author.id@ as nat),
        user_name: author_name(message),
        text: if starter is Some {
            thread_starter_prompt(message.content@, starter, bot)
        } else {
            message.content@
        },
        is_group,
        file,
        streamed: true,
    }
}

/// Where the intake of a message stands.
pub enum IntakeStage {
    /// Waiting for the first file.
    Downloading,
    /// Looking for the starter text.
    Searching { lookup: LookupModel },
    /// Nothing more to do.
    Dispatched,
}

/// The intake of a message.
pub struct IntakeModel {
    pub message: DiscordMessage,
    pub bot: u64,
    pub admission: Admission,
    pub stage: IntakeStage,
}

/// What an intake asks for.
pub enum IntakeActionModel {
    Download,
    Search(LookupActionModel),
    Dispatch(RequestModel),
}

impl IntakeModel {
    /// The state and action when all is known.
    pub open spec fn dispatch(self, file: Option<FileModel>, starter: Option<Seq<char>>) -> (
        IntakeModel,
        IntakeActionModel,
    ) {
        (
            IntakeModel { stage: IntakeStage::Dispatched, ..self },
            IntakeActionModel::Dispatch(
                message_request(self.message, self.bot, self.admission.is_group, file, starter),
            ),
        )
    }

    /// The state and action while the starter text is being looked for.
    pub open spec fn search(self, at: (LookupModel, LookupActionModel)) -> (
        IntakeModel,
        IntakeActionModel,
    ) {
        match at.1 {
            LookupActionModel::Finished { text } => self.dispatch(None, text),
            action => (
                IntakeModel { stage: IntakeStage::Searching { lookup: at.0 }, ..self },
                IntakeActionModel::Search(action),
            ),
        }
    }

    /// The state and action when it is known whether there is a file. A starter text is looked
    /// for only where there is none and the bot is mentioned.
    pub open spec fn with_file(self, file: Option<FileModel>) -> (IntakeModel, IntakeActionModel) {
        if file is None && self.admission.is_mentioned {
            self.search(LookupModel::start(self.message, self.bot))
        } else {
            self.dispatch(file, None)
        }
    }

    /// The state and action at the beginning.
    pub open spec fn start(
        message: DiscordMessage,
        bot: u64,
        admission: Admission,
        max_bytes: usize,
    ) -> (IntakeModel, IntakeActionModel) {
        let m = IntakeModel { message, bot, admission, stage: IntakeStage::Downloading };
        if plan_for(message, max_bytes) == AttachmentPlan::Download {
            (m, IntakeActionModel::Download)
        } else {
            m.with_file(None)
        }
    }

    /// Whether the event can come in this state.
    pub open spec fn awaits(self, event: IntakeEvent) -> bool {
        match event {
            IntakeEvent::Downloaded(_) => {
                &&& self.stage is Downloading
                &&& self.message.attachments@.len() > 0
            },
            IntakeEvent::Search(event) => {
                self.stage matches IntakeStage::Searching { lookup } && lookup.awaits(event)
            },
        }
    }

    /// The state and action after an event that is awaited.
    pub open spec fn step(self, event: IntakeEvent) -> (IntakeModel, IntakeActionModel) {
        match event {
            IntakeEvent::Downloaded(Some(data)) => self.with_file(
                Some(first_file(self.message, data@)),
            ),
            IntakeEvent::Downloaded(None) => self.with_file(None),
            IntakeEvent::Search(event) => self.search(
                self.stage->Searching_lookup.step(event),
            ),
        }
    }
}

/// What an intake is told.
#[derive(Debug)]
pub enum IntakeEvent {
    /// The bytes of the first file; `None` where they could not be had.
    Downloaded(Option<Vec<u8>>),
    /// What came of a step of the search.
    Search(LookupEvent),
}

/// What an intake asks for.
#[derive(Debug)]
pub enum IntakeAction {
    /// Download the first file.
    Download,
    /// Take a step of the search for the starter text.
    Search(LookupAction),
    /// Nothing more; call the callback.
    Dispatch(CallbackRequest),
}

impl View for IntakeAction {
    type V = IntakeActionModel;

    open spec fn view(&self) -> IntakeActionModel {
        match self {
            IntakeAction::Download => IntakeActionModel::Download,
            IntakeAction::Search(action) => IntakeActionModel::Search(action@),
            IntakeAction::Dispatch(request) => IntakeActionModel::Dispatch(request@),
        }
    }
}

#[derive(Debug)]
enum Stage {
    Downloading,
    Searching { lookup: ThreadStarterLookup },
    Dispatched,
}

/// The intake of one message.
#[derive(Debug)]
pub struct MessageIntake {
    message: DiscordMessage,
    bot_id: UserId,
    admission: Admission,
    stage: Stage,
}

impl View for MessageIntake {
    type V = IntakeModel;

    closed spec fn view(&self) -> IntakeModel {
        IntakeModel {
            message: self.message,
            bot: self.bot_id@,
            admission: self.admission,
            stage: match self.stage {
                Stage::Downloading => IntakeStage::Downloading,
                Stage::Searching { lookup } => IntakeStage::Searching { lookup: lookup@ },
                Stage::Dispatched => IntakeStage::Dispatched,
            },
        }
    }
}

impl MessageIntake {
    /// Begins to take in a message that was let through. Files of more than `max_bytes` are
    /// passed over.
    pub fn begin(
        message: DiscordMessage,
        bot_id: UserId,
        admission: Admission,
        max_bytes: usize,
    ) -> (intake: (Self, IntakeAction))
        ensures
            (intake.0@, intake.1@) == IntakeModel::start(message, bot_id@, admission, max_bytes),
    {
        let plan = attachment_plan(&message, max_bytes);
        let intake = MessageIntake { message, bot_id, admission, stage: Stage::Downloading };
        match plan {
            AttachmentPlan::Download => (intake, IntakeAction::Download),
            _ => intake.with_file(None),
        }
    }

    /// Takes in an event, and says what to do next.
    pub fn step(self, event: IntakeEvent) -> (next: (Self, IntakeAction))
        requires
            self@.awaits(event),
        ensures
            (next.0@, next.1@) == self@.step(event),
    {
        match event {
            IntakeEvent::Downloaded(Some(data)) => {
                let attachment = &self.message.attachments[0];
                let file = DiscordFile {
                    filename: attachment.filename.clone(),
                    data,
                    content_type: attachment.content_type.clone(),
                };
                assert(file@ == first_file(self.message, data@));
                self.with_file(Some(file))
            },
            IntakeEvent::Downloaded(None) => self.with_file(None),
            IntakeEvent::Search(event) => {
                let MessageIntake { message, bot_id, admission, stage } = self;
                match stage {
                    Stage::Searching { lookup } => {
                        let intake = MessageIntake {
                            message,
                            bot_id,
                            admission,
                            stage: Stage::Dispatched,
                        };
                        intake.search(lookup.step(event))
                    },
                    _ => vstd::pervasive::unreached(),
                }
            },
        }
    }

    fn with_file(self, file: Option<DiscordFile>) -> (next: (Self, IntakeAction))
        ensures
            (next.0@, next.1@) == self@.with_file(file_of(file)),
    {
        if file.is_none() && self.admission.is_mentioned {
            let lookup = ThreadStarterLookup::begin(&self.message, self.bot_id);
            self.search(lookup)
        } else {
            self.dispatch(file, None)
        }
    }

    fn search(self, at: (ThreadStarterLookup, LookupAction)) -> (next: (Self, IntakeAction))
        ensures
            (next.0@, next.1@) == self@.search((at.0@, at.1@)),
    {
        let (lookup, action) = at;
        match action {
            LookupAction::Finished { text } => self.dispatch(None, text),
            action => (
                MessageIntake {
                    message: self.message,
                    bot_id: self.bot_id,
                    admission: self.admission,
                    stage: Stage::Searching { lookup },
                },
                IntakeAction::Search(action),
            ),
        }
    }

    fn dispatch(self, file: Option<DiscordFile>, starter: Option<String>) -> (next: (
        Self,
        IntakeAction,
    ))
        ensures
            (next.0@, next.1@) == self@.dispatch(file_of(file), text_of(starter)),
    {
        let text = match &starter {
            Some(starter) => build_thread_starter_prompt(
                self.message.content.as_str(),
                Some(starter.as_str()),
                self.bot_id,
            ),
            None => self.message.content.clone(),
        };
        let user_name = match &self.message.author.global_name {
            Some(name) => name.clone(),
            None => self.message.author.name.clone(),
        };
        let request = CallbackRequest {
            channel_id: self.message.channel_id.text(),
            user_id: self.message.author.id.text(),
            user_name,
            text,
            is_group: self.admission.is_group,
            file,
            streamed: true,
        };
        (
            MessageIntake {
                message: self.message,
                bot_id: self.bot_id,
                admission: self.admission,
                stage: Stage::Dispatched,
            },
            IntakeAction::Dispatch(request),
        )
    }
}

/// All that can be found out while a message is taken in: the bytes of its first file, what
/// channel it is in, the latest messages there, and the message that the thread was started
/// from.
pub struct Findings {
    pub data: Option<Vec<u8>>,
    pub channel: Option<ChannelInfo>,
    pub history: Option<Vec<DiscordMessage>>,
    pub source: Option<DiscordMessage>,
}

/// The file that comes with a message.
pub open spec fn file_found(
    message: DiscordMessage,
    max_bytes: usize,
    findings: Findings,
) -> Option<FileModel> {
    if plan_for(message, max_bytes) == AttachmentPlan::Download && findings.data is Some {
        Some(first_file(message, findings.data->0@))
    } else {
        None
    }
}

/// The starter text that goes with a message.
pub open spec fn starter_found(
    message: DiscordMessage,
    bot: u64,
    admission: Admission,
    max_bytes: usize,
    findings: Findings,
) -> Option<Seq<char>> {
    if file_found(message, max_bytes, findings) is None && admission.is_mentioned {
        starter_text(message, bot, findings.channel, findings.history, findings.source)
    } else {
        None
    }
}

/// What an intake dispatches when it is told the findings as it asks for them, if it does so
/// within the given number of steps.
pub open spec fn intake_result(
    at: (IntakeModel, IntakeActionModel),
    findings: Findings,
    steps: nat,
) -> Option<RequestModel>
    decreases steps,
{
    match at.1 {
        IntakeActionModel::Dispatch(request) => Some(request),
        _ => {
            let event = match at.1 {
                IntakeActionModel::Download => IntakeEvent::Downloaded(findings.data),
                IntakeActionModel::Search(LookupActionModel::ResolveChannel { .. }) => {
                    IntakeEvent::Search(LookupEvent::Resolved(findings.channel))
                },
                IntakeActionModel::Search(LookupActionModel::ReadHistory { .. }) => {
                    IntakeEvent::Search(LookupEvent::HistoryRead(findings.history))
                },
                _ => IntakeEvent::Search(LookupEvent::Fetched(findings.source)),
            };
            if steps > 0 && at.0.awaits(event) {
                intake_result(at.0.step(event), findings, (steps - 1) as nat)
            } else {
                None
            }
        },
    }
}

/// Every message that was let through is dispatched, within four steps, with its file and the
/// starter text of its thread.
pub proof fn law_intake_dispatches(
    message: DiscordMessage,
    bot: u64,
    admission: Admission,
    max_bytes: usize,
    findings: Findings,
)
    ensures
        intake_result(
            IntakeModel::start(message, bot, admission, max_bytes),
            findings,
            4,
        ) == Some(
            message_request(
                message,
                bot,
                admission.is_group,
                file_found(message, max_bytes, findings),
                starter_found(message, bot, admission, max_bytes, findings),
            ),
        ),
{
    reveal_with_fuel(intake_result, 5);
}

/// A message with a file, and one that does not mention the bot, is passed on as it was written.
pub proof fn law_text_is_passed_on(
    message: DiscordMessage,
    bot: u64,
    admission: Admission,
    max_bytes: usize,
    findings: Findings,
)
    requires
        file_found(message, max_bytes, findings) is Some || !admission.is_mentioned,
    ensures
        message_request(
            message,
            bot,
            admission.is_group,
            file_found(message, max_bytes, findings),
            starter_found(message, bot, admission, max_bytes, findings),
        ).text == message.content@,
{
}

/// A message that calls the bot into a thread with a starter text is answered, even where it
/// says nothing itself.
pub proof fn law_call_into_thread_is_answered(
    message: DiscordMessage,
    bot: u64,
    admission: Admission,
    max_bytes: usize,
    findings: Findings,
)
    requires
        starter_found(message, bot, admission, max_bytes, findings) is Some,
    ensures
        ({
            let file = file_found(message, max_bytes, findings);
            let starter = starter_found(message, bot, admission, max_bytes, findings);
            let request = message_request(message, bot, admission.is_group, file, starter);
            calls_for_answer(request.text, request.file is Some)
        }),
{
    let starter = starter_found(message, bot, admission, max_bytes, findings)->0;
    law_starter_text_is_not_blank(
        message,
        bot,
        findings.channel,
        findings.history,
        findings.source,
    );
    law_prompt_with_starter_is_not_blank(message.content@, starter, bot);
}

/// What the callback is told of a message is about that message: the numbers of its channel and
/// author, the author's display name or else account name, and whether it was written in a guild.
/// The answer is taken piece by piece.
pub proof fn law_request_is_about_the_message(
    message: DiscordMessage,
    bot: u64,
    admission: Admission,
    max_bytes: usize,
    findings: Findings,
)
    ensures
        ({
            let at = IntakeModel::start(message, bot, admission, max_bytes);
            intake_result(at, findings, 4) matches Some(request) && {
                &&& number_read(request.channel_id) == message.channel_id@
                &&& number_read(request.user_id) == message.author.id@
                &&& message.author.global_name matches Some(name) ==> request.user_name == name@
                &&& message.author.global_name is None ==> request.user_name
                    == message.author.name@
                &&& request.is_group == admission.is_group
                &&& request.streamed
            }
        }),
{
    law_intake_dispatches(message, bot, admission, max_bytes, findings);
    law_decimal_reads_back(message.channel_id@ as nat);
    law_decimal_reads_back(message.author.id@ as nat);
}

/// The file that the callback gets is the first one attached, whole and under its name and type.
/// It gets one exactly where the first is no larger than allowed and could be downloaded.
pub proof fn law_first_file_comes_along(
    message: DiscordMessage,
    bot: u64,
    admission: Admission,
    max_bytes: usize,
    findings: Findings,
)
    ensures
        ({
            let at = IntakeModel::start(message, bot, admission, max_bytes);
            intake_result(at, findings, 4) matches Some(request) && {
                &&& request.file is Some <==> message.attachments@.len() > 0
                    && message.attachments@[0].size <= max_bytes && findings.data is Some
                &&& request.file matches Some(file) ==> {
                    &&& file.filename == message.attachments@[0].filename@
                    &&& file.data == findings.data->0@
                    &&& file.content_type is Some <==> message.attachments@[0].content_type is Some
                    &&& file.content_type is Some ==> file.content_type->0
                        == message.attachments@[0].content_type->0@
                }
            }
        }),
{
    law_intake_dispatches(message, bot, admission, max_bytes, findings);
}

/// The text that the callback gets is the message as it was written, unless there is no file, the
/// bot is mentioned and a starter text is found; then it is the prompt of the two.
pub proof fn law_text_is_the_message_or_the_prompt(
    message: DiscordMessage,
    bot: u64,
    admission: Admission,
    max_bytes: usize,
    findings: Findings,
)
    ensures
        ({
            let at = IntakeModel::start(message, bot, admission, max_bytes);
            let starter = starter_text(
                message,
                bot,
                findings.channel,
                findings.history,
                findings.source,
            );
            intake_result(at, findings, 4) matches Some(request) && {
                &&& request.file is None && admission.is_mentioned && starter is Some
                    ==> request.text == thread_starter_prompt(message.content@, starter, bot)
                &&& request.file is Some || !admission.is_mentioned || starter is None
                    ==> request.text == message.content@
            }
        }),
{
    law_intake_dispatches(message, bot, admission, max_bytes, findings);
}

/// An intake asks to download only a file that is there and no larger than allowed, and to search
/// only where there is no file and the bot is mentioned.
pub proof fn law_intake_asks_only_for_what_it_needs(
    message: DiscordMessage,
    bot: u64,
    admission: Admission,
    max_bytes: usize,
    data: Vec<u8>,
)
    ensures
        ({
            let (m, action) = IntakeModel::start(message, bot, admission, max_bytes);
            let fits = message.attachments@.len() > 0 && message.attachments@[0].size <= max_bytes;
            &&& action is Download <==> fits
            &&& action is Search ==> admission.is_mentioned
            &&& !fits && !admission.is_mentioned ==> action is Dispatch
            &&& fits ==> m.awaits(IntakeEvent::Downloaded(None)) && m.awaits(
                IntakeEvent::Downloaded(Some(data)),
            )
            &&& fits ==> m.step(IntakeEvent::Downloaded(Some(data))).1 is Dispatch
            &&& fits && !admission.is_mentioned ==> m.step(IntakeEvent::Downloaded(None)).1
                is Dispatch
            &&& fits && admission.is_mentioned && message.guild_id is Some ==> m.step(
                IntakeEvent::Downloaded(None),
            ).1 == IntakeActionModel::Search(
                LookupActionModel::ResolveChannel { channel: message.channel_id@ },
            )
        }),
{
}

/// A file is measured against the limit: only the first counts, and one that is just as large as
/// allowed is downloaded.
pub proof fn law_first_file_is_measured(message: DiscordMessage, max_bytes: usize)
    ensures
        plan_for(message, max_bytes) == AttachmentPlan::Nothing <==> message.attachments@.len()
            == 0,
        plan_for(message, max_bytes) == AttachmentPlan::Download <==> message.attachments@.len() > 0
            && message.attachments@[0].size <= max_bytes,
        plan_for(message, max_bytes) == AttachmentPlan::TooLarge <==> message.attachments@.len() > 0
            && message.attachments@[0].size > max_bytes,
{
}

/// Actions are read as they are.
pub proof fn law_actions_are_read_as_they_are(step: LookupAction, request: CallbackRequest)
    ensures
        IntakeAction::Download@ == IntakeActionModel::Download,
        IntakeAction::Search(step)@ == IntakeActionModel::Search(step@),
        IntakeAction::Dispatch(request)@ == IntakeActionModel::Dispatch(request@),
{
}

} // verus!
