use vstd::prelude::*;
use vstd::string::StringExecFns;
use crate::params::{ParamMap, ParamValue};

verus! {

/// A function to run on an actor after the command that carries it.
pub struct FollowUp {
    pub actor_name: String,
    pub function_name: String,
    pub parameters: ParamMap,
}

/// A write command for the board, with the invocations chained after it.
///
/// Every command carries exactly one chained invocation: the transmit
/// disable, with no parameters.
pub struct Command {
    parameters: ParamMap,
    followups: Vec<FollowUp>,
}

/// The command code of a value write.
pub const WRITE_VALUE_COMMAND: u32 = 3;

pub open spec fn tx_enable_key() -> Seq<char> {
    "tx_enable"@
}

pub open spec fn tx_disable_name() -> Seq<char> {
    "tx_disable"@
}

/// `parameters` with the output code, the channel code, the write command
/// code and the transmit enable set.
pub open spec fn command_parameters(
    parameters: Map<Seq<char>, ParamValue>,
    value: u32,
    channel_code: u32,
) -> Map<Seq<char>, ParamValue> {
    parameters.insert("value"@, ParamValue::U32(value)).insert(
        "dac_channel_code"@,
        ParamValue::U32(channel_code),
    ).insert("command"@, ParamValue::U32(WRITE_VALUE_COMMAND)).insert(
        tx_enable_key(),
        ParamValue::Bool(true),
    )
}

/// `parameters` with the transmit enable cleared.
pub open spec fn disabled(parameters: Map<Seq<char>, ParamValue>) -> Map<Seq<char>, ParamValue> {
    parameters.insert(tx_enable_key(), ParamValue::Bool(false))
}

/// `followups` is one transmit disable on `actor`, with no parameters.
pub open spec fn is_disable_chain(followups: Seq<FollowUp>, actor: Seq<char>) -> bool {
    &&& followups.len() == 1
    &&& followups[0].actor_name@ == actor
    &&& followups[0].function_name@ == tx_disable_name()
    &&& followups[0].parameters@ == Map::<Seq<char>, ParamValue>::empty()
}

impl Command {
    #[verifier::type_invariant]
    spec fn chains_one_disable(self) -> bool {
        is_disable_chain(self.followups@, self.followups@[0].actor_name@)
    }

    pub closed spec fn spec_parameters(&self) -> Map<Seq<char>, ParamValue> {
        self.parameters@
    }

    pub closed spec fn spec_followups(&self) -> Seq<FollowUp> {
        self.followups@
    }

    /// The command's own parameters.
    pub fn parameters(&self) -> (r: &ParamMap)
        ensures
            r@ == self.spec_parameters(),
    {
        &self.parameters
    }

    /// The invocations to run after the command, in order.
    pub fn followups(&self) -> (r: &Vec<FollowUp>)
        ensures
            r@ == self.spec_followups(),
            is_disable_chain(r@, r@[0].actor_name@),
    {
        proof { use_type_invariant(self); }
        &self.followups
    }

    /// Splits the command into its parameters and its chained invocations.
    pub fn into_parts(self) -> (r: (ParamMap, Vec<FollowUp>))
        ensures
            r.0@ == self.spec_parameters(),
            r.1@ == self.spec_followups(),
            is_disable_chain(r.1@, r.1@[0].actor_name@),
    {
        proof { use_type_invariant(&self); }
        (self.parameters, self.followups)
    }
}

/// Builds the write command for `value` on channel `channel_code` from the
/// request's `parameters`, with a transmit disable on `actor_name` chained
/// after it.
pub fn compose_command(parameters: ParamMap, actor_name: String, value: u32, channel_code: u32) -> (r:
    Command)
    ensures
        r.spec_parameters() == command_parameters(parameters@, value, channel_code),
        is_disable_chain(r.spec_followups(), actor_name@),
{
    let mut parameters = parameters;
    parameters.insert(String::from_str("value"), ParamValue::U32(value));
    parameters.insert(String::from_str("dac_channel_code"), ParamValue::U32(channel_code));
    parameters.insert(String::from_str("command"), ParamValue::U32(WRITE_VALUE_COMMAND));
    parameters.insert(String::from_str("tx_enable"), ParamValue::Bool(true));
    let disable = FollowUp {
        actor_name,
        function_name: String::from_str("tx_disable"),
        parameters: ParamMap::new(),
    };
    let mut followups: Vec<FollowUp> = Vec::new();
    followups.push(disable);
    Command { parameters, followups }
}

/// Clears the transmit enable of `parameters`, adding it where it is absent.
pub fn tx_disable(parameters: ParamMap) -> (r: ParamMap)
    ensures
        r@ == disabled(parameters@),
{
    let mut parameters = parameters;
    parameters.insert(String::from_str("tx_enable"), ParamValue::Bool(false));
    parameters
}

/// Clearing the transmit enable sets it to false, leaves every other name as
/// it was, and changes nothing when done again.
pub proof fn lemma_tx_disable_laws(m: Map<Seq<char>, ParamValue>)
    ensures
        disabled(m).contains_key(tx_enable_key()),
        disabled(m)[tx_enable_key()] == ParamValue::Bool(false),
        disabled(m).dom() == m.dom().insert(tx_enable_key()),
        forall|k: Seq<char>|
            k != tx_enable_key() && #[trigger] m.contains_key(k) ==> disabled(m)[k] == m[k],
        disabled(disabled(m)) == disabled(m),
{
    assert(disabled(disabled(m)) =~= disabled(m));
}

} // verus!
