//! What the bot says and when: the reply to each command, the announcement of
//! a birthday, and the decisions that lead from a callback or from the rows
//! of the day to the messages that go out.

use crate::command::{
    command_of, directive_of, has_command_prefix, is_command_token,
    lemma_command_begins_with_prefix, parse_command, Intent,
};
use crate::dates::{
    day_num_to_ordinal, is_day, is_month, month_name, month_name_text, ordinal_text,
};
use crate::event::{
    auth_valid_agent, check_user_sender, decode_envelope, is_human_sender, is_trusted_source,
    text_or_empty, CallbackEnvelope, EventError, EventField, InboundCommandEvent,
    InboundCommandEventView,
};
use crate::fault::FieldFault;
use crate::messaging::{lemma_highlights, OutboundMessage, OutboundMessageView};
use crate::records::{
    decode_birthday, decode_rows, decoded_rows, item_view, number_field, on_date, record_views,
    row_faults, row_views, Attribute, AttributeView, Birthday, BirthdayRecord,
    BirthdayRecordView, BirthdayView, BirthdaysDBClient, RecordError,
};
use crate::text::{parse_u64, parse_unsigned, trimmed};
use vstd::prelude::*;
use vstd::string::*;
use vstd::utf8::{encode_utf8, is_ascii_chars, is_ascii_chars_encode_utf8};

verus! {

/// The greeting of the sender `sender`, who is mentioned by display name.
pub open spec fn greeting_message(name: Seq<char>, sender: nat) -> OutboundMessageView {
    OutboundMessageView {
        text: "Hello, "@ + name + "!"@,
        mention_start: 7,
        mention_len: encode_utf8(name).len(),
        mention_id: sender,
    }
}

/// The reply to a command that was not understood; the mention lies on the
/// word "you".
pub open spec fn unknown_command_message(sender: nat) -> OutboundMessageView {
    OutboundMessageView {
        text: "Uh-oh, looks like you were trying to ask me something, but I'm not sure what! Check your spelling and try again."@,
        mention_start: 18,
        mention_len: 3,
        mention_id: sender,
    }
}

/// The reply to a sender of whom no birthday is stored; the mention lies on
/// the word "you".
pub open spec fn unregistered_message(sender: nat) -> OutboundMessageView {
    OutboundMessageView {
        text: "Uh-oh, you don't have a registered birthday! Contact your local birthday-bot mechanic to have them register one for you!"@,
        mention_start: 7,
        mention_len: 3,
        mention_id: sender,
    }
}

/// The reply that tells a sender the birthday stored for them; the mention
/// lies on the word "Your".
pub open spec fn registered_message(month_num: int, day_num: nat, sender: nat)
    -> OutboundMessageView {
    OutboundMessageView {
        text: "Your birthday is registered as "@ + month_name(month_num) + " "@ + ordinal_text(
            day_num,
        )
            + "!\nIf that isn't right, contact your local birthday-bot mechanic to have it corrected!"@,
        mention_start: 0,
        mention_len: 4,
        mention_id: sender,
    }
}

/// The announcement of the birthday of the person `identity`, who is
/// mentioned by full name.
pub open spec fn announcement_message(full_name: Seq<char>, identity: nat) -> OutboundMessageView {
    OutboundMessageView {
        text: "It's "@ + full_name
            + "'s birthday today! Don't forget to wish them a happy birthday!"@,
        mention_start: 5,
        mention_len: encode_utf8(full_name).len(),
        mention_id: identity,
    }
}

/// The reply to a self-lookup: the birthday stored for the sender, if any.
pub open spec fn lookup_message(birthday: Option<BirthdayView>, sender: nat)
    -> OutboundMessageView {
    match birthday {
        Some(b) => registered_message(b.month_num as int, b.day_num as nat, sender),
        None => unregistered_message(sender),
    }
}

/// The identity of the sender: the field `sender_id`, read as a number of at
/// most 64 bits.
pub open spec fn sender_of(event: InboundCommandEventView) -> Result<nat, EventError> {
    match event.sender_identity {
        Err(fault) => Err(EventError::Field { field: EventField::SenderId, fault }),
        Ok(text) => match parse_unsigned(text, u64::MAX as nat) {
            Some(n) => Ok(n),
            None => Err(
                EventError::Field { field: EventField::SenderId, fault: FieldFault::Unparsable },
            ),
        },
    }
}

/// The reply to a greeting. The display name is read before the identity.
pub open spec fn hello_reply(event: InboundCommandEventView) -> Result<
    OutboundMessageView,
    EventError,
> {
    match event.sender_display_name {
        Err(fault) => Err(EventError::Field { field: EventField::Name, fault }),
        Ok(name) => match sender_of(event) {
            Err(e) => Err(e),
            Ok(sender) => Ok(greeting_message(name, sender)),
        },
    }
}

/// The reply to an unknown command.
pub open spec fn error_reply(event: InboundCommandEventView) -> Result<
    OutboundMessageView,
    EventError,
> {
    match sender_of(event) {
        Err(e) => Err(e),
        Ok(sender) => Ok(unknown_command_message(sender)),
    }
}

/// Why an event is passed over without a reply and without an error.
#[derive(Clone, Copy, Debug, PartialEq, Eq, Structural)]
pub enum Dropped {
    /// The callback does not come from the trusted source.
    UntrustedSource,
    /// The message was not sent by a human.
    NonHumanSender,
    /// The message is not addressed to the bot.
    NotACommand,
}

/// What is to be done about an event.
#[derive(Debug, PartialEq, Eq)]
pub enum Dispatch {
    /// Nothing.
    Dropped(Dropped),
    /// The message is to be sent.
    Reply(OutboundMessage),
    /// The birthday of `sender` is to be looked up, and the reply made of
    /// what is found.
    Lookup { sender: u64 },
}

pub enum DispatchView {
    Dropped(Dropped),
    Reply(OutboundMessageView),
    Lookup { sender: nat },
}

impl View for Dispatch {
    type V = DispatchView;

    open spec fn view(&self) -> DispatchView {
        match self {
            Dispatch::Dropped(why) => DispatchView::Dropped(*why),
            Dispatch::Reply(message) => DispatchView::Reply(message@),
            Dispatch::Lookup { sender } => DispatchView::Lookup { sender: *sender as nat },
        }
    }
}

/// The text of the command field, empty where the field cannot be read.
pub open spec fn command_text_of(event: InboundCommandEventView) -> Seq<char> {
    match event.command_text {
        Ok(text) => text,
        Err(_) => Seq::empty(),
    }
}

/// What is to be done about the event of a human sender: text that is no
/// command is dropped; a command is routed by its intent.
pub open spec fn dispatch_of(event: InboundCommandEventView) -> Result<DispatchView, EventError> {
    match command_of(command_text_of(event)) {
        None => Ok(DispatchView::Dropped(Dropped::NotACommand)),
        Some(Intent::Greet) => match hello_reply(event) {
            Ok(message) => Ok(DispatchView::Reply(message)),
            Err(e) => Err(e),
        },
        Some(Intent::SelfLookup) => match sender_of(event) {
            Ok(sender) => Ok(DispatchView::Lookup { sender }),
            Err(e) => Err(e),
        },
        Some(Intent::Unknown) => match error_reply(event) {
            Ok(message) => Ok(DispatchView::Reply(message)),
            Err(e) => Err(e),
        },
    }
}

/// What is to be done about a callback. The source is checked first, on the
/// envelope alone; then the body is decoded and the sender checked; then the
/// text is read as a command.
pub open spec fn response_to(user_agent: Seq<char>, body: Seq<char>) -> Result<
    DispatchView,
    EventError,
> {
    if !is_trusted_source(user_agent) {
        Ok(DispatchView::Dropped(Dropped::UntrustedSource))
    } else {
        match decode_envelope(user_agent, body) {
            Err(e) => Err(e),
            Ok(event) => if !is_human_sender(event) {
                Ok(DispatchView::Dropped(Dropped::NonHumanSender))
            } else {
                dispatch_of(event)
            },
        }
    }
}

/// Every reply to a command mentions the sender of that command, and a
/// lookup is made for that sender.
pub proof fn lemma_reply_names_sender(event: InboundCommandEventView)
    ensures
        dispatch_of(event) matches Ok(DispatchView::Reply(message)) ==> sender_of(event) == Ok::<
            nat,
            EventError,
        >(message.mention_id),
        dispatch_of(event) matches Ok(DispatchView::Lookup { sender }) ==> sender_of(event) == Ok::<
            nat,
            EventError,
        >(sender),
{
}

/// Only a human sender who comes through the trusted source and whose
/// directive is the command token is answered: for any other callback no
/// message is made and no lookup is asked for.
pub proof fn lemma_only_trusted_humans_are_answered(user_agent: Seq<char>, body: Seq<char>)
    ensures
        response_to(user_agent, body) matches Ok(dispatch) && !(dispatch is Dropped) ==> {
            &&& is_trusted_source(user_agent)
            &&& decode_envelope(user_agent, body) matches Ok(event) && is_human_sender(event)
                && is_command_token(directive_of(command_text_of(event)))
        },
{
}

/// A message whose directive is not the command token gets no reply and no
/// lookup, whoever sent it: the event is dropped as not a command.
pub proof fn lemma_other_directives_are_dropped(event: InboundCommandEventView)
    requires
        !is_command_token(directive_of(command_text_of(event))),
    ensures
        dispatch_of(event) == Ok::<DispatchView, EventError>(
            DispatchView::Dropped(Dropped::NotACommand),
        ),
{
}

/// The reply to a self-lookup mentions the sender for whom it was made.
pub proof fn lemma_lookup_reply_names_sender(rows: Seq<Seq<AttributeView>>, sender: nat)
    ensures
        lookup_reply(rows, sender) matches Ok(message) ==> message.mention_id == sender,
{
}

/// Text that, once trimmed, does not begin with `!bd` gets no reply, whoever
/// sent it: the event is dropped as not a command, without an error.
pub proof fn lemma_not_a_command_is_dropped(event: InboundCommandEventView)
    requires
        !has_command_prefix(trimmed(command_text_of(event))),
    ensures
        dispatch_of(event) == Ok::<DispatchView, EventError>(
            DispatchView::Dropped(Dropped::NotACommand),
        ),
{
    lemma_command_begins_with_prefix(command_text_of(event));
}

/// A scan sends one announcement for each record of the day: none where the
/// day has no record, and each with a mention of that record's identity.
pub proof fn lemma_one_announcement_each(records: Seq<BirthdayRecordView>)
    ensures
        announcements(records).len() == records.len(),
        forall|i: int|
            0 <= i < records.len() ==> {
                &&& (#[trigger] announcements(records)[i]).mention_id == records[i].identity
                &&& announcements(records)[i].highlights(records[i].full_name)
            },
{
    assert forall|i: int| 0 <= i < records.len() implies {
        &&& (#[trigger] announcements(records)[i]).mention_id == records[i].identity
        &&& announcements(records)[i].highlights(records[i].full_name)
    } by {
        lemma_announcement_highlights(records[i].full_name, records[i].identity as nat);
    }
}

/// The greeting highlights the display name.
pub proof fn lemma_greeting_highlights(name: Seq<char>, sender: nat)
    ensures
        greeting_message(name, sender).highlights(name),
{
    reveal_strlit("Hello, ");
    assert(is_ascii_chars("Hello, "@));
    is_ascii_chars_encode_utf8("Hello, "@);
    lemma_highlights(greeting_message(name, sender), "Hello, "@, name, "!"@);
}

/// The announcement highlights the full name.
pub proof fn lemma_announcement_highlights(full_name: Seq<char>, identity: nat)
    ensures
        announcement_message(full_name, identity).highlights(full_name),
{
    reveal_strlit("It's ");
    assert(is_ascii_chars("It's "@));
    is_ascii_chars_encode_utf8("It's "@);
    lemma_highlights(
        announcement_message(full_name, identity),
        "It's "@,
        full_name,
        "'s birthday today! Don't forget to wish them a happy birthday!"@,
    );
}

/// The reply to an unknown command highlights the word "you".
pub proof fn lemma_unknown_command_highlights(sender: nat)
    ensures
        unknown_command_message(sender).highlights("you"@),
{
    reveal_strlit(
        "Uh-oh, looks like you were trying to ask me something, but I'm not sure what! Check your spelling and try again.",
    );
    reveal_strlit("Uh-oh, looks like ");
    reveal_strlit("you");
    reveal_strlit(
        " were trying to ask me something, but I'm not sure what! Check your spelling and try again.",
    );
    assert(unknown_command_message(sender).text =~= "Uh-oh, looks like "@ + "you"@
        + " were trying to ask me something, but I'm not sure what! Check your spelling and try again."@);
    assert(is_ascii_chars("Uh-oh, looks like "@));
    is_ascii_chars_encode_utf8("Uh-oh, looks like "@);
    assert(is_ascii_chars("you"@));
    is_ascii_chars_encode_utf8("you"@);
    lemma_highlights(
        unknown_command_message(sender),
        "Uh-oh, looks like "@,
        "you"@,
        " were trying to ask me something, but I'm not sure what! Check your spelling and try again."@,
    );
}

/// The reply to a sender without a stored birthday highlights the word "you".
pub proof fn lemma_unregistered_highlights(sender: nat)
    ensures
        unregistered_message(sender).highlights("you"@),
{
    reveal_strlit(
        "Uh-oh, you don't have a registered birthday! Contact your local birthday-bot mechanic to have them register one for you!",
    );
    reveal_strlit("Uh-oh, ");
    reveal_strlit("you");
    reveal_strlit(
        " don't have a registered birthday! Contact your local birthday-bot mechanic to have them register one for you!",
    );
    assert(unregistered_message(sender).text =~= "Uh-oh, "@ + "you"@
        + " don't have a registered birthday! Contact your local birthday-bot mechanic to have them register one for you!"@);
    assert(is_ascii_chars("Uh-oh, "@));
    is_ascii_chars_encode_utf8("Uh-oh, "@);
    assert(is_ascii_chars("you"@));
    is_ascii_chars_encode_utf8("you"@);
    lemma_highlights(
        unregistered_message(sender),
        "Uh-oh, "@,
        "you"@,
        " don't have a registered birthday! Contact your local birthday-bot mechanic to have them register one for you!"@,
    );
}

/// The reply that tells the stored birthday highlights the word "Your".
pub proof fn lemma_registered_highlights(month_num: int, day_num: nat, sender: nat)
    ensures
        registered_message(month_num, day_num, sender).highlights("Your"@),
{
    reveal_strlit("Your birthday is registered as ");
    reveal_strlit("Your");
    reveal_strlit(" birthday is registered as ");
    let rest = " birthday is registered as "@ + month_name(month_num) + " "@ + ordinal_text(day_num)
        + "!\nIf that isn't right, contact your local birthday-bot mechanic to have it corrected!"@;
    assert("Your birthday is registered as "@ =~= "Your"@ + " birthday is registered as "@);
    assert(registered_message(month_num, day_num, sender).text =~= Seq::<char>::empty() + "Your"@
        + rest);
    assert(is_ascii_chars("Your"@));
    is_ascii_chars_encode_utf8("Your"@);
    assert(encode_utf8(Seq::<char>::empty()).len() == 0);
    lemma_highlights(
        registered_message(month_num, day_num, sender),
        Seq::<char>::empty(),
        "Your"@,
        rest,
    );
}

/// A message with the given text and mention.
fn message(text: String, start: usize, len: usize, id: u64) -> (m: OutboundMessage)
    ensures
        m@ == (OutboundMessageView {
            text: text@,
            mention_start: start as nat,
            mention_len: len as nat,
            mention_id: id as nat,
        }),
{
    OutboundMessage { text, mention_start: start, mention_len: len, mention_id: id }
}

/// The number of bytes of `s` in UTF-8.
fn byte_len(s: &str) -> (n: usize)
    ensures
        n == encode_utf8(s@).len(),
{
    s.as_bytes().len()
}

/// Reads the identity of the sender of an event.
pub fn sender_identity(event: &InboundCommandEvent) -> (r: Result<u64, EventError>)
    ensures
        r matches Ok(n) ==> sender_of(event@) == Ok::<nat, EventError>(n as nat),
        r matches Err(e) ==> sender_of(event@) == Err::<nat, EventError>(e),
{
    match &event.sender_identity {
        Err(fault) => Err(EventError::Field { field: EventField::SenderId, fault: *fault }),
        Ok(text) => match parse_u64(text.as_str()) {
            Some(n) => Ok(n),
            None => Err(
                EventError::Field { field: EventField::SenderId, fault: FieldFault::Unparsable },
            ),
        },
    }
}

/// Greets the sender of an event by display name. The mention highlights the
/// name and names the sender.
pub fn cmd_hello_handler(event: &InboundCommandEvent) -> (r: Result<OutboundMessage, EventError>)
    ensures
        r matches Ok(m) ==> hello_reply(event@) == Ok::<OutboundMessageView, EventError>(m@)
            && m@.highlights(event@.sender_display_name->Ok_0),
        r matches Err(e) ==> hello_reply(event@) == Err::<OutboundMessageView, EventError>(e),
{
    let name = match &event.sender_display_name {
        Err(fault) => {
            return Err(EventError::Field { field: EventField::Name, fault: *fault });
        },
        Ok(name) => name,
    };
    let user_id = match sender_identity(event) {
        Err(e) => { return Err(e); },
        Ok(n) => n,
    };
    let mut text = String::from_str("Hello, ");
    text.append(name.as_str());
    text.append("!");
    proof {
        lemma_greeting_highlights(name@, user_id as nat);
    }
    Ok(message(text, 7, byte_len(name.as_str()), user_id))
}

/// Tells the sender of an event that the command was not understood. The
/// mention highlights "you" and names the sender.
pub fn cmd_error_handler(event: &InboundCommandEvent) -> (r: Result<OutboundMessage, EventError>)
    ensures
        r matches Ok(m) ==> error_reply(event@) == Ok::<OutboundMessageView, EventError>(m@)
            && m@.highlights("you"@),
        r matches Err(e) ==> error_reply(event@) == Err::<OutboundMessageView, EventError>(e),
{
    let user_id = match sender_identity(event) {
        Err(e) => { return Err(e); },
        Ok(n) => n,
    };
    proof {
        lemma_unknown_command_highlights(user_id as nat);
    }
    Ok(
        message(
            String::from_str(
                "Uh-oh, looks like you were trying to ask me something, but I'm not sure what! Check your spelling and try again.",
            ),
            18,
            3,
            user_id,
        ),
    )
}

/// Tells the sender `user_id` the birthday stored for them, or that none is.
/// The mention names the sender; it highlights "Your" where a birthday is
/// stored and "you" where none is.
pub fn birthday_reply(user_id: u64, birthday: Option<&Birthday>) -> (m: OutboundMessage)
    ensures
        m@ == lookup_message(
            match birthday {
                Some(b) => Some(b@),
                None => None,
            },
            user_id as nat,
        ),
        birthday is Some ==> m@.highlights("Your"@),
        birthday is None ==> m@.highlights("you"@),
{
    match birthday {
        None => {
            proof {
                lemma_unregistered_highlights(user_id as nat);
            }
            message(
                String::from_str(
                    "Uh-oh, you don't have a registered birthday! Contact your local birthday-bot mechanic to have them register one for you!",
                ),
                7,
                3,
                user_id,
            )
        },
        Some(b) => {
            let month_num = b.month_num();
            let day_num = b.day_num();
            let mut text = String::from_str("Your birthday is registered as ");
            text.append(month_name_text(month_num));
            text.append(" ");
            text.append(day_num_to_ordinal(day_num).as_str());
            text.append(
                "!\nIf that isn't right, contact your local birthday-bot mechanic to have it corrected!",
            );
            proof {
                lemma_registered_highlights(month_num as int, day_num as nat, user_id as nat);
            }
            message(text, 0, 4, user_id)
        },
    }
}

/// The reply to a self-lookup, from the rows that the store returned for the
/// sender: of several rows the first counts. Of that row the reply reads
/// `month_num` and `day_num` and nothing else; a fault of either fails the
/// reply, and whatever else the row holds or lacks does not.
pub open spec fn lookup_reply(rows: Seq<Seq<AttributeView>>, sender: nat) -> Result<
    OutboundMessageView,
    RecordError,
> {
    if rows.len() == 0 {
        Ok(unregistered_message(sender))
    } else {
        match decode_birthday(rows[0]) {
            Ok(birthday) => Ok(lookup_message(Some(birthday), sender)),
            Err(e) => Err(e),
        }
    }
}

/// A self-lookup on a first row whose month and day are numbers in range is
/// answered, whatever else the row holds or lacks: the reply tells the name
/// of the month and the ordinal of the day, mentions the sender and
/// highlights "Your".
pub proof fn lemma_lookup_reply_on_a_stored_birthday(
    rows: Seq<Seq<AttributeView>>,
    sender: nat,
    month_num: nat,
    day_num: nat,
)
    requires
        rows.len() > 0,
        number_field(rows[0], "month_num"@, u8::MAX as nat) == Ok::<nat, FieldFault>(month_num),
        number_field(rows[0], "day_num"@, u8::MAX as nat) == Ok::<nat, FieldFault>(day_num),
        is_month(month_num as int),
        is_day(day_num as int),
    ensures
        lookup_reply(rows, sender) == Ok::<OutboundMessageView, RecordError>(
            registered_message(month_num as int, day_num, sender),
        ),
        registered_message(month_num as int, day_num, sender).text == "Your birthday is registered as "@
            + month_name(month_num as int) + " "@ + ordinal_text(day_num)
            + "!\nIf that isn't right, contact your local birthday-bot mechanic to have it corrected!"@,
        registered_message(month_num as int, day_num, sender).mention_id == sender,
        registered_message(month_num as int, day_num, sender).highlights("Your"@),
{
    lemma_registered_highlights(month_num as int, day_num, sender);
}

/// Makes the reply to the self-lookup of the sender `user_id` from the rows
/// that the store returned for that identity.
pub fn cmd_me_handler(user_id: u64, rows: &Vec<Vec<Attribute>>) -> (r: Result<
    OutboundMessage,
    RecordError,
>)
    ensures
        r matches Ok(m) ==> lookup_reply(row_views(rows@), user_id as nat) == Ok::<
            OutboundMessageView,
            RecordError,
        >(m@),
        r matches Err(e) ==> lookup_reply(row_views(rows@), user_id as nat) == Err::<
            OutboundMessageView,
            RecordError,
        >(e),
{
    if rows.len() == 0 {
        Ok(birthday_reply(user_id, None))
    } else {
        assert(row_views(rows@)[0] == item_view(rows@[0]@));
        match Birthday::from_item(&rows[0]) {
            Ok(birthday) => Ok(birthday_reply(user_id, Some(&birthday))),
            Err(e) => Err(e),
        }
    }
}

/// Decides what is to be done about the event of a human sender.
pub fn message_handler(event: &InboundCommandEvent) -> (r: Result<Dispatch, EventError>)
    ensures
        r matches Ok(d) ==> dispatch_of(event@) == Ok::<DispatchView, EventError>(d@),
        r matches Err(e) ==> dispatch_of(event@) == Err::<DispatchView, EventError>(e),
{
    let intent = match &event.command_text {
        Ok(text) => parse_command(text.as_str()),
        Err(_) => {
            proof {
                reveal_strlit("");
                assert(""@ =~= Seq::<char>::empty());
            }
            parse_command("")
        },
    };
    match intent {
        None => Ok(Dispatch::Dropped(Dropped::NotACommand)),
        Some(Intent::Greet) => match cmd_hello_handler(event) {
            Ok(m) => Ok(Dispatch::Reply(m)),
            Err(e) => Err(e),
        },
        Some(Intent::SelfLookup) => match sender_identity(event) {
            Ok(sender) => Ok(Dispatch::Lookup { sender }),
            Err(e) => Err(e),
        },
        Some(Intent::Unknown) => match cmd_error_handler(event) {
            Ok(m) => Ok(Dispatch::Reply(m)),
            Err(e) => Err(e),
        },
    }
}

/// Decides what is to be done about a callback.
pub fn responder(envelope: &CallbackEnvelope) -> (r: Result<Dispatch, EventError>)
    ensures
        r matches Ok(d) ==> response_to(
            text_or_empty(envelope.user_agent),
            text_or_empty(envelope.body),
        ) == Ok::<DispatchView, EventError>(d@),
        r matches Err(e) ==> response_to(
            text_or_empty(envelope.user_agent),
            text_or_empty(envelope.body),
        ) == Err::<DispatchView, EventError>(e),
{
    if !auth_valid_agent(envelope) {
        return Ok(Dispatch::Dropped(Dropped::UntrustedSource));
    }
    let event = match InboundCommandEvent::decode(envelope) {
        Ok(event) => event,
        Err(e) => { return Err(e); },
    };
    if !check_user_sender(&event) {
        return Ok(Dispatch::Dropped(Dropped::NonHumanSender));
    }
    message_handler(&event)
}

/// The views of the messages, in order.
pub open spec fn message_views(messages: Seq<OutboundMessage>) -> Seq<OutboundMessageView> {
    messages.map_values(|m: OutboundMessage| m@)
}

/// One announcement for each record, in the order of the records.
pub open spec fn announcements(records: Seq<BirthdayRecordView>) -> Seq<OutboundMessageView> {
    records.map_values(
        |r: BirthdayRecordView| announcement_message(r.full_name, r.identity as nat),
    )
}

/// What a scan of the day is to send, and which rows it had to pass over.
#[derive(Debug, PartialEq, Eq)]
pub struct ScanPlan {
    /// The announcements, to be sent one after the other; a send that fails
    /// does not stop those that follow.
    pub announcements: Vec<OutboundMessage>,
    /// The faults of the rows that could not be read.
    pub malformed: Vec<RecordError>,
}

/// Announces the birthday of one person. The mention highlights the full
/// name and names the person.
pub fn announce(record: &BirthdayRecord) -> (m: OutboundMessage)
    ensures
        m@ == announcement_message(record@.full_name, record@.identity as nat),
        m@.highlights(record@.full_name),
{
    let full_name = record.full_name();
    let mut text = String::from_str("It's ");
    text.append(full_name.as_str());
    text.append("'s birthday today! Don't forget to wish them a happy birthday!");
    proof {
        lemma_announcement_highlights(full_name@, record@.identity as nat);
    }
    message(text, 5, byte_len(full_name.as_str()), record.identity())
}

/// Plans the scan of one day from the rows that the store returned for it:
/// one announcement for each well-formed row whose birthday falls on the
/// given month and day, in the order of the rows, and none for any other.
/// The scan reads all four fields of a row: name and identity to make the
/// announcement, month and day to hold the row to the day, which the rows of
/// the date index always carry.
pub fn checker(rows: &Vec<Vec<Attribute>>, month: u32, day: u32) -> (plan: ScanPlan)
    ensures
        message_views(plan.announcements@) == announcements(
            on_date(decoded_rows(row_views(rows@)), month, day),
        ),
        plan.malformed@ == row_faults(row_views(rows@)),
{
    let (records, malformed) = decode_rows(rows);
    let table = BirthdaysDBClient::new(records);
    let today = table.get_todays_birthdays(month, day);
    let ghost expected = announcements(record_views(today@));
    let mut out: Vec<OutboundMessage> = Vec::new();
    let mut i: usize = 0;
    while i < today.len()
        invariant
            i <= today@.len(),
            expected == announcements(record_views(today@)),
            message_views(out@) == expected.take(i as int),
        decreases today@.len() - i,
    {
        let ghost before = message_views(out@);
        let m = announce(&today[i]);
        let ghost view = m@;
        out.push(m);
        proof {
            assert(record_views(today@)[i as int] == today@[i as int]@);
            assert(message_views(out@) =~= before.push(view));
            assert(expected.take(i as int + 1) =~= expected.take(i as int).push(view));
        }
        i += 1;
    }
    assert(expected.take(i as int) =~= expected);
    ScanPlan { announcements: out, malformed }
}

} // verus!
