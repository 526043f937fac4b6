use vstd::prelude::*;
use vstd::string::StringExecFns;
use crate::channel::{channel_code_of, dac_channel_code};
use crate::command::{command_parameters, compose_command, is_disable_chain, Command};
use crate::error::{
    invalid_channel_text, message_of, missing_argument_text, storage_read_text,
    unexpected_event_text, UpdateError,
};
use crate::params::{ParamMap, ParamValue};
use crate::value::{value_source, value_source_of, ValueSource, VoltageInput};

verus! {

/// An update request: its arguments, the parameters that the command is
/// built from, and the actor it is for.
pub struct UpdateRequest {
    pub arguments: ParamMap,
    pub parameters: ParamMap,
    pub actor_name: String,
}

/// What an update returns to its caller.
pub enum Reply {
    /// A message for the user; no command is sent.
    Message(String),
    /// The composed write command.
    Command(Command),
}

/// What the caller of an update has to do next.
pub enum UpdateAction {
    /// Read the storage topic of this name and hand back `TopicRead`.
    ReadTopic(String),
    /// Parse this calibration record and hand back `CalibrationParsed`.
    ParseCalibration(String),
    /// Scale this voltage by the calibration's bounds and hand back `VoltageScaled`.
    ScaleVoltage(VoltageInput),
    /// Send `notice` to the user where there is one, and return `reply`:
    /// the update is over.
    Finish { notice: Option<String>, reply: Reply },
}

/// The outcome of an action, handed back to the update.
pub enum UpdateEvent {
    /// The topic's content, or `None` where the read failed.
    TopicRead(Option<String>),
    /// The calibration's channel label, or why the record did not parse.
    CalibrationParsed(Result<String, String>),
    /// The output code that the voltage scaled to.
    VoltageScaled(u32),
}

/// Where an update stands.
pub enum Stage {
    AwaitingRead,
    /// Waiting for the parse of this calibration record.
    AwaitingParse(String),
    /// Waiting for the scaled voltage; the channel code is known.
    AwaitingScale(u32),
    Done,
}

/// An update in progress.
pub struct UpdateSession {
    pub request: UpdateRequest,
    pub stage: Stage,
}

pub open spec fn channel_argument_key() -> Seq<char> {
    "actor_channel_selected"@
}

/// The channel label selected by the arguments `args`, where it is given as text.
pub open spec fn selected_channel(args: Map<Seq<char>, ParamValue>) -> Option<Seq<char>> {
    if args.contains_key(channel_argument_key()) && args[channel_argument_key()] is Text {
        Some(args[channel_argument_key()]->Text_0@)
    } else {
        None
    }
}

/// The storage topic that holds the calibration of channel `label`.
pub open spec fn calibration_topic_of(label: Seq<char>) -> Seq<char> {
    label + ".json"@
}

/// `a` ends the update with the message `text` and no notice.
pub open spec fn finishes_with_message(a: UpdateAction, text: Seq<char>) -> bool {
    match a {
        UpdateAction::Finish { notice: None, reply: Reply::Message(m) } => m@ == text,
        _ => false,
    }
}

/// `a` ends the update with the write command of `value` on `channel_code`,
/// built from `parameters`, with the transmit disable on `actor` chained.
pub open spec fn finishes_with_command(
    a: UpdateAction,
    parameters: Map<Seq<char>, ParamValue>,
    actor: Seq<char>,
    value: u32,
    channel_code: u32,
) -> bool {
    match a {
        UpdateAction::Finish { notice: None, reply: Reply::Command(c) } => {
            &&& c.spec_parameters() == command_parameters(parameters, value, channel_code)
            &&& is_disable_chain(c.spec_followups(), actor)
        },
        _ => false,
    }
}

/// One step of an update: from the session `s` and the event `e`, the session
/// `t` and the action `a`.
pub open spec fn update_step(s: UpdateSession, e: UpdateEvent, t: UpdateSession, a: UpdateAction) -> bool {
    let args = s.request.arguments@;
    let params = s.request.parameters@;
    let actor = s.request.actor_name@;
    match (s.stage, e) {
        (Stage::AwaitingRead, UpdateEvent::TopicRead(None)) => {
            &&& finishes_with_message(a, storage_read_text())
            &&& t.stage is Done
        },
        (Stage::AwaitingRead, UpdateEvent::TopicRead(Some(content))) => {
            &&& a is ParseCalibration
            &&& a->ParseCalibration_0@ == content@
            &&& t.stage == Stage::AwaitingParse(content)
            &&& t.request == s.request
        },
        (Stage::AwaitingParse(content), UpdateEvent::CalibrationParsed(Err(detail))) => {
            &&& match a {
                UpdateAction::Finish { notice: Some(n), reply: Reply::Message(m) } => {
                    &&& n@ == content@
                    &&& m@ == message_of(UpdateError::CalibrationParse { content, detail })
                },
                _ => false,
            }
            &&& t.stage is Done
        },
        (Stage::AwaitingParse(_), UpdateEvent::CalibrationParsed(Ok(label))) => {
            match (value_source_of(args), channel_code_of(label@)) {
                (Err(err), _) => {
                    &&& finishes_with_message(a, message_of(err))
                    &&& t.stage is Done
                },
                (Ok(_), None) => {
                    &&& finishes_with_message(a, invalid_channel_text())
                    &&& t.stage is Done
                },
                (Ok(ValueSource::Raw(v)), Some(code)) => {
                    &&& finishes_with_command(a, params, actor, v, code)
                    &&& t.stage is Done
                },
                (Ok(ValueSource::Voltage(volts)), Some(code)) => {
                    &&& a == UpdateAction::ScaleVoltage(volts)
                    &&& t.stage == Stage::AwaitingScale(code)
                    &&& t.request == s.request
                },
            }
        },
        (Stage::AwaitingScale(code), UpdateEvent::VoltageScaled(v)) => {
            &&& finishes_with_command(a, params, actor, v, code)
            &&& t.stage is Done
        },
        _ => {
            &&& finishes_with_message(a, unexpected_event_text())
            &&& t.stage is Done
        },
    }
}

/// Whenever a step of an update ends it with a command, that command carries
/// exactly one chained invocation: the transmit disable on the request's
/// actor, with an empty parameter map.
pub proof fn lemma_update_command_chains_disable(
    s: UpdateSession,
    e: UpdateEvent,
    t: UpdateSession,
    a: UpdateAction,
)
    requires
        update_step(s, e, t, a),
        a is Finish,
        a->Finish_reply is Command,
    ensures
        is_disable_chain(a->Finish_reply->Command_0.spec_followups(), s.request.actor_name@),
{
}

/// Ends an update with `message`.
fn finish_with(request: UpdateRequest, message: String) -> (r: (UpdateSession, UpdateAction))
    ensures
        r.0.stage is Done,
        finishes_with_message(r.1, message@),
{
    (
        UpdateSession { request, stage: Stage::Done },
        UpdateAction::Finish { notice: None, reply: Reply::Message(message) },
    )
}

/// Ends an update with the write command of `value` on `channel_code`.
fn finish_with_command(request: UpdateRequest, value: u32, channel_code: u32) -> (r: (
    UpdateSession,
    UpdateAction,
))
    ensures
        r.0.stage is Done,
        finishes_with_command(
            r.1,
            request.parameters@,
            request.actor_name@,
            value,
            channel_code,
        ),
{
    let UpdateRequest { arguments, parameters, actor_name } = request;
    let command = compose_command(parameters, actor_name, value, channel_code);
    let rest = UpdateRequest {
        arguments,
        parameters: ParamMap::new(),
        actor_name: String::new(),
    };
    (
        UpdateSession { request: rest, stage: Stage::Done },
        UpdateAction::Finish { notice: None, reply: Reply::Command(command) },
    )
}

/// The name of the calibration topic of the channel selected in `arguments`.
pub fn calibration_topic(arguments: &ParamMap) -> (r: Result<String, UpdateError>)
    ensures
        match selected_channel(arguments@) {
            Some(label) => r is Ok && r->Ok_0@ == calibration_topic_of(label),
            None => r == Err::<String, UpdateError>(UpdateError::MissingArgument),
        },
{
    match arguments.get("actor_channel_selected") {
        Some(ParamValue::Text(label)) => Ok(String::from_str(label.as_str()).concat(".json")),
        _ => Err(UpdateError::MissingArgument),
    }
}

impl UpdateSession {
    /// Starts an update: reads the selected channel's calibration, or ends at
    /// once, reading nothing, where no channel is selected.
    pub fn start(request: UpdateRequest) -> (r: (UpdateSession, UpdateAction))
        ensures
            match selected_channel(request.arguments@) {
                Some(label) => {
                    &&& r.1 is ReadTopic
                    &&& r.1->ReadTopic_0@ == calibration_topic_of(label)
                    &&& r.0.stage is AwaitingRead
                    &&& r.0.request == request
                },
                None => {
                    &&& finishes_with_message(r.1, missing_argument_text())
                    &&& r.0.stage is Done
                },
            },
    {
        match calibration_topic(&request.arguments) {
            Ok(topic) => (
                UpdateSession { request, stage: Stage::AwaitingRead },
                UpdateAction::ReadTopic(topic),
            ),
            Err(err) => {
                let message = err.message();
                finish_with(request, message)
            },
        }
    }

    /// Takes the update one step on from the outcome `event` of its last action.
    pub fn step(self, event: UpdateEvent) -> (r: (UpdateSession, UpdateAction))
        ensures
            update_step(self, event, r.0, r.1),
    {
        let UpdateSession { request, stage } = self;
        match (stage, event) {
            (Stage::AwaitingRead, UpdateEvent::TopicRead(None)) => {
                let message = UpdateError::StorageRead.message();
                finish_with(request, message)
            },
            (Stage::AwaitingRead, UpdateEvent::TopicRead(Some(content))) => {
                let record = content.clone();
                (
                    UpdateSession { request, stage: Stage::AwaitingParse(content) },
                    UpdateAction::ParseCalibration(record),
                )
            },
            (Stage::AwaitingParse(content), UpdateEvent::CalibrationParsed(Err(detail))) => {
                let notice = content.clone();
                let message = UpdateError::CalibrationParse { content, detail }.message();
                (
                    UpdateSession { request, stage: Stage::Done },
                    UpdateAction::Finish { notice: Some(notice), reply: Reply::Message(message) },
                )
            },
            (Stage::AwaitingParse(_), UpdateEvent::CalibrationParsed(Ok(label))) => {
                match value_source(&request.arguments) {
                    Err(err) => {
                        let message = err.message();
                        finish_with(request, message)
                    },
                    Ok(source) => match dac_channel_code(label.as_str()) {
                        Err(err) => {
                            let message = err.message();
                            finish_with(request, message)
                        },
                        Ok(code) => match source {
                            ValueSource::Raw(v) => finish_with_command(request, v, code),
                            ValueSource::Voltage(volts) => (
                                UpdateSession { request, stage: Stage::AwaitingScale(code) },
                                UpdateAction::ScaleVoltage(volts),
                            ),
                        },
                    },
                }
            },
            (Stage::AwaitingScale(code), UpdateEvent::VoltageScaled(v)) => {
                finish_with_command(request, v, code)
            },
            _ => {
                let message = UpdateError::UnexpectedEvent.message();
                finish_with(request, message)
            },
        }
    }
}

} // verus!
