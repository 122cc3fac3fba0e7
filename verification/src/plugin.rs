//! The shift-cipher plugin: what it records, what it answers, and a run of it
//! inside the host's own process.

use crate::capability::{decimal_text, push_decimal, AuditRecord};
use crate::cipher::{
    get_shift, inverse, inverse_shift, lemma_shift_round_trip, shift_setting, shift_string, shifted,
};
use crate::context::{lookup, ExecutionContext};
use crate::invoker::{Event, Invocation, Operation, State};
use vstd::prelude::*;
use vstd::string::StringSliceAdditionalSpecFns;
use vstd::utf8::encode_utf8;

verus! {

/// The variable of the environment that sets the plugin's shift.
pub const SHIFT_AMOUNT: &'static str = "SHIFT_AMOUNT";

/// The length of a text in bytes of UTF-8, as a string reports it.
pub open spec fn byte_length(text: Seq<char>) -> usize {
    encode_utf8(text).len() as usize
}

/// The detail that the plugin records of a call: the length of the input in
/// bytes.
pub open spec fn audit_detail(input: Seq<char>) -> Seq<char> {
    "Length: "@ + decimal_text(byte_length(input) as nat)
}

/// The callout that the plugin makes before it works on `input`: the name of
/// the operation, and the length of the input.
pub fn audit_record(operation: Operation, input: &str) -> (record: AuditRecord)
    ensures
        record.action@ == operation.label(),
        record.detail@ == audit_detail(input@),
{
    let mut detail = "Length: ".to_owned();
    push_decimal(&mut detail, input.len());
    AuditRecord { action: operation.name().to_owned(), detail }
}

/// What the plugin answers to `operation` on `input` when its environment
/// holds `setting` for the shift amount: the input shifted by the amount that
/// is set to encrypt, and by the inverse of that amount to decrypt.
pub open spec fn answer(operation: Operation, input: Seq<char>, setting: Option<Seq<char>>) -> Seq<
    char,
> {
    match operation {
        Operation::Encrypt => shifted(input, shift_setting(setting) as nat),
        Operation::Decrypt => shifted(input, inverse(shift_setting(setting) as nat)),
    }
}

/// Encrypts `input` under the shift that `setting` sets.
pub fn encr(input: &str, setting: Option<&str>) -> (output: String)
    ensures
        output@ == answer(
            Operation::Encrypt,
            input@,
            match setting {
                Some(text) => Some(text@),
                None => None,
            },
        ),
{
    let shift = get_shift(setting);
    shift_string(input, shift)
}

/// Decrypts `input` under the shift that `setting` sets.
pub fn decr(input: &str, setting: Option<&str>) -> (output: String)
    ensures
        output@ == answer(
            Operation::Decrypt,
            input@,
            match setting {
                Some(text) => Some(text@),
                None => None,
            },
        ),
{
    let shift = get_shift(setting);
    shift_string(input, inverse_shift(shift))
}

/// Decrypting undoes encrypting: under any setting of the shift, and for any
/// text, the plugin decrypts what it encrypted to the text that it was given.
pub proof fn lemma_decr_undoes_encr(input: Seq<char>, setting: Option<Seq<char>>)
    ensures
        answer(Operation::Decrypt, answer(Operation::Encrypt, input, setting), setting) == input,
{
    lemma_shift_round_trip(input, shift_setting(setting) as nat);
}

/// Runs the plugin for an invocation inside the host's process, in the
/// context that was built for the call, which ends with the call.
///
/// An invocation that stands at `ContextBuilt` is instantiated and runs to
/// completion: the plugin calls the audit recorder exactly once, with the
/// name of the operation and the length of the input, and then returns the
/// answer for the shift that the context's environment sets. Any other
/// invocation is left as it is.
pub fn serve(invocation: &mut Invocation, context: ExecutionContext)
    ensures
        final(invocation)@.operation == old(invocation)@.operation,
        final(invocation)@.input == old(invocation)@.input,
        old(invocation)@.state == State::ContextBuilt ==> {
            &&& final(invocation)@.state matches State::Completed(output)
            &&& output@ == answer(
                old(invocation)@.operation,
                old(invocation)@.input,
                lookup(context@.env, SHIFT_AMOUNT@),
            )
            &&& final(invocation)@.callouts.len() == old(invocation)@.callouts.len() + 1
            &&& final(invocation)@.callouts.drop_last() == old(invocation)@.callouts
            &&& final(invocation)@.callouts.last().action@ == old(invocation)@.operation.label()
            &&& final(invocation)@.callouts.last().detail@ == audit_detail(old(invocation)@.input)
        },
        old(invocation)@.state != State::ContextBuilt ==> final(invocation)@ == old(invocation)@,
{
    let ready = match invocation.state() {
        State::ContextBuilt => true,
        _ => false,
    };
    if ready {
        invocation.step(Event::Instantiated);
        let operation = invocation.operation();
        let input = invocation.input().to_owned();
        invocation.step(Event::Callout(audit_record(operation, input.as_str())));
        let setting = context.var(SHIFT_AMOUNT);
        let output = match operation {
            Operation::Encrypt => encr(input.as_str(), setting),
            Operation::Decrypt => decr(input.as_str(), setting),
        };
        invocation.conclude(Ok(output));
        assert(invocation@.callouts.drop_last() =~= old(invocation)@.callouts);
    }
}

} // verus!
