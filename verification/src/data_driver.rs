//! The data driver of the Dario contract: which payload each call and each
//! event carries, and the conversion between JSON text and archived bytes.
//!
//! The contract has two calls. `read_state` takes nothing and returns a
//! 32-bit word; `handle_event` takes a 32-bit word and returns nothing. Its
//! one event, `state`, carries a 32-bit word. Parsing JSON and laying out
//! archives is the work of `dusk_data_driver`; choosing the payload for a
//! name is the work of this module.
//!
//! An archived word is four bytes in the byte order of the target. This
//! module is written for little-endian targets, as the Dusk VM is one:
//! every statement here about the bytes of a word holds on such a target
//! and on no other.

use vstd::prelude::*;
use crate::contract::{Notification, STATE_TOPIC};
use crate::wire::{le_bytes, le_word, lemma_le_word_of_le_bytes};

verus! {

/// Why the driver could not convert.
#[derive(Debug, PartialEq, Eq)]
pub enum DriverError {
    /// The bytes are no archive of the expected payload.
    Rkyv(String),
    /// The text is no JSON of the expected payload.
    Json(String),
    /// The driver knows no call or event of that name.
    Unsupported(String),
    /// Any other failure.
    Other(String),
}

/// The shape of what a call or an event carries.
#[derive(Clone, Copy, Debug, PartialEq, Eq, Structural)]
pub enum PayloadKind {
    /// Nothing.
    Unit,
    /// A 32-bit unsigned integer.
    Word,
}

/// What a call or an event carries.
#[derive(Clone, Copy, Debug, PartialEq, Eq, Structural)]
pub enum Payload {
    /// Nothing.
    Unit,
    /// A 32-bit unsigned integer.
    Word(u32),
}

impl Payload {
    /// The shape of the payload.
    pub open spec fn kind(self) -> PayloadKind {
        match self {
            Payload::Unit => PayloadKind::Unit,
            Payload::Word(_) => PayloadKind::Word,
        }
    }

    /// The archive of the payload: nothing for `Unit`, the four bytes of a
    /// word, least significant first. That is the archive on a little-endian
    /// target; on a big-endian one the bytes of a word come in the other
    /// order, and this is not its archive.
    pub open spec fn archive(self) -> Seq<u8> {
        match self {
            Payload::Unit => Seq::<u8>::empty(),
            Payload::Word(word) => le_bytes(word),
        }
    }
}

/// Whether a character is JSON white space: a space, a line feed, a tab or
/// a carriage return.
pub open spec fn is_json_space(c: char) -> bool {
    c == ' ' || c == '\n' || c == '\t' || c == '\r'
}

/// The word `null`.
pub open spec fn null_text() -> Seq<char> {
    seq!['n', 'u', 'l', 'l']
}

/// The word `null` between two texts.
pub open spec fn spaced_null(before: Seq<char>, after: Seq<char>) -> Seq<char> {
    before + null_text() + after
}

/// Whether the text is JSON for the unit value: the word `null`, with
/// nothing but white space before it and after it.
pub open spec fn json_unit(json: Seq<char>) -> bool {
    exists|start: int|
        {
            &&& 0 <= start
            &&& start + 4 <= json.len()
            &&& #[trigger] json.subrange(start, start + 4) == null_text()
            &&& forall|i: int|
                0 <= i < json.len() && !(start <= i < start + 4) ==> is_json_space(
                    #[trigger] json[i],
                )
        }
}

/// The 32-bit unsigned integer that `serde_json` reads the text as, if it
/// reads it as one.
pub uninterp spec fn json_word(json: Seq<char>) -> Option<u32>;

/// The payload of shape `kind` that the JSON text denotes, if it denotes one.
pub open spec fn parsed(kind: PayloadKind, json: Seq<char>) -> Option<Payload> {
    match kind {
        PayloadKind::Unit => if json_unit(json) {
            Some(Payload::Unit)
        } else {
            None
        },
        PayloadKind::Word => match json_word(json) {
            Some(word) => Some(Payload::Word(word)),
            None => None,
        },
    }
}

/// Whether `payload` is what an archive of shape `kind` holds: for a word,
/// the number that the last four bytes spell.
pub open spec fn reads_as(kind: PayloadKind, bytes: Seq<u8>, payload: Payload) -> bool {
    match kind {
        PayloadKind::Unit => payload == Payload::Unit,
        PayloadKind::Word => {
            &&& bytes.len() >= 4
            &&& payload matches Payload::Word(word)
            &&& word == le_word(bytes.subrange(bytes.len() - 4, bytes.len() as int))
        },
    }
}

/// The payload that the call `fn_name` takes, if there is such a call.
pub open spec fn input_kind(fn_name: Seq<char>) -> Option<PayloadKind> {
    if fn_name == "read_state"@ {
        Some(PayloadKind::Unit)
    } else if fn_name == "handle_event"@ {
        Some(PayloadKind::Word)
    } else {
        None
    }
}

/// The payload that the call `fn_name` returns, if there is such a call.
pub open spec fn output_kind(fn_name: Seq<char>) -> Option<PayloadKind> {
    if fn_name == "read_state"@ {
        Some(PayloadKind::Word)
    } else if fn_name == "handle_event"@ {
        Some(PayloadKind::Unit)
    } else {
        None
    }
}

/// The payload that the event `event_name` carries, if there is such an
/// event.
pub open spec fn event_kind(event_name: Seq<char>) -> Option<PayloadKind> {
    if event_name == "state"@ {
        Some(PayloadKind::Word)
    } else {
        None
    }
}

/// What encoding `json` as a payload of shape `kind` has to return.
pub open spec fn encodes(
    kind: PayloadKind,
    json: Seq<char>,
    result: Result<Vec<u8>, DriverError>,
) -> bool {
    match parsed(kind, json) {
        Some(payload) => result matches Ok(bytes) && bytes@ == payload.archive(),
        None => result matches Err(error) && error is Json,
    }
}

/// What decoding `bytes` as a payload of shape `kind` has to return.
///
/// Nothing is read from any buffer without fail. A word is read from the
/// end of the buffer and only if the buffer is made of whole words; where it
/// is, the read may still fail with an archive error, since the archive has
/// to lie aligned in memory.
pub open spec fn decodes(
    kind: PayloadKind,
    bytes: Seq<u8>,
    result: Result<Payload, DriverError>,
) -> bool {
    match kind {
        PayloadKind::Unit => result == Ok::<Payload, DriverError>(Payload::Unit),
        PayloadKind::Word => match result {
            Ok(payload) => bytes.len() % 4 == 0 && reads_as(kind, bytes, payload),
            Err(error) => error is Rkyv,
        },
    }
}

/// Calls `dusk_data_driver::json_to_rkyv::<()>`.
///
/// Trusted: `serde_json` reads the unit value from `null` between runs of
/// white space and from no other text, the archive of the unit value is
/// empty and archiving it cannot fail, so that a failure is a JSON error.
#[verifier::external_body]
fn archive_unit_json(json: &str) -> (result: Result<Vec<u8>, DriverError>)
    ensures
        result is Ok <==> json_unit(json@),
        result matches Ok(bytes) ==> bytes@.len() == 0,
        result matches Err(error) ==> error is Json,
{
    match dusk_data_driver::json_to_rkyv::<()>(json) {
        Ok(bytes) => Ok(bytes),
        Err(dusk_data_driver::Error::Rkyv(text)) => Err(DriverError::Rkyv(text)),
        Err(dusk_data_driver::Error::Json(text)) => Err(DriverError::Json(text)),
        Err(dusk_data_driver::Error::Unsupported(text)) => Err(DriverError::Unsupported(text)),
        Err(dusk_data_driver::Error::Other(text)) => Err(DriverError::Other(text)),
    }
}

/// Calls `dusk_data_driver::json_to_rkyv::<u32>`.
///
/// Trusted: the call succeeds exactly on the texts that `serde_json` reads
/// as a 32-bit unsigned integer, the archive of such an integer is its four
/// bytes in the byte order of the target, which is taken to be little-endian,
/// and archiving it cannot fail, so that a failure is a JSON error.
#[verifier::external_body]
fn archive_word_json(json: &str) -> (result: Result<Vec<u8>, DriverError>)
    ensures
        result is Ok <==> json_word(json@) is Some,
        result matches Ok(bytes) ==> json_word(json@) matches Some(word) && bytes@ == le_bytes(
            word,
        ),
        result matches Err(error) ==> error is Json,
{
    match dusk_data_driver::json_to_rkyv::<u32>(json) {
        Ok(bytes) => Ok(bytes),
        Err(dusk_data_driver::Error::Rkyv(text)) => Err(DriverError::Rkyv(text)),
        Err(dusk_data_driver::Error::Json(text)) => Err(DriverError::Json(text)),
        Err(dusk_data_driver::Error::Unsupported(text)) => Err(DriverError::Unsupported(text)),
        Err(dusk_data_driver::Error::Other(text)) => Err(DriverError::Other(text)),
    }
}

/// Calls `dusk_data_driver::from_rkyv::<()>`.
///
/// Trusted: the call succeeds on every buffer. The unit value takes no room
/// and needs no alignment, so that its place at the end of the buffer passes
/// every test of the archive, and there is nothing in it to read wrongly.
#[verifier::external_body]
fn read_unit_archive(bytes: &[u8]) -> (result: Result<(), DriverError>)
    ensures
        result is Ok,
{
    match dusk_data_driver::from_rkyv::<()>(bytes) {
        Ok(unit) => Ok(unit),
        Err(dusk_data_driver::Error::Rkyv(text)) => Err(DriverError::Rkyv(text)),
        Err(dusk_data_driver::Error::Json(text)) => Err(DriverError::Json(text)),
        Err(dusk_data_driver::Error::Unsupported(text)) => Err(DriverError::Unsupported(text)),
        Err(dusk_data_driver::Error::Other(text)) => Err(DriverError::Other(text)),
    }
}

/// Calls `dusk_data_driver::from_rkyv::<u32>`.
///
/// Trusted: a word is read only from a buffer of at least four bytes, it is
/// the number that the last four bytes spell in the byte order of the target,
/// which is taken to be little-endian, and a failure is an archive error.
/// The word has to lie at an address that is a multiple of four, in a buffer
/// that starts at one: so no word is read from a buffer whose length is not a
/// multiple of four, and whether one is read from another buffer depends on
/// where the buffer lies in memory.
#[verifier::external_body]
fn read_word_archive(bytes: &[u8]) -> (result: Result<u32, DriverError>)
    ensures
        result matches Ok(word) ==> bytes@.len() >= 4 && word == le_word(
            bytes@.subrange(bytes@.len() - 4, bytes@.len() as int),
        ),
        bytes@.len() % 4 != 0 ==> result is Err,
        result matches Err(error) ==> error is Rkyv,
{
    match dusk_data_driver::from_rkyv::<u32>(bytes) {
        Ok(word) => Ok(word),
        Err(dusk_data_driver::Error::Rkyv(text)) => Err(DriverError::Rkyv(text)),
        Err(dusk_data_driver::Error::Json(text)) => Err(DriverError::Json(text)),
        Err(dusk_data_driver::Error::Unsupported(text)) => Err(DriverError::Unsupported(text)),
        Err(dusk_data_driver::Error::Other(text)) => Err(DriverError::Other(text)),
    }
}

/// Whether two texts are the same.
fn same_text(left: &str, right: &str) -> (same: bool)
    ensures
        same == (left@ == right@),
{
    left.to_owned() == right.to_owned()
}

/// Finds the payload that the call `fn_name` takes.
pub fn input_kind_of(fn_name: &str) -> (kind: Option<PayloadKind>)
    ensures
        kind == input_kind(fn_name@),
{
    if same_text(fn_name, "read_state") {
        Some(PayloadKind::Unit)
    } else if same_text(fn_name, "handle_event") {
        Some(PayloadKind::Word)
    } else {
        None
    }
}

/// Finds the payload that the call `fn_name` returns.
pub fn output_kind_of(fn_name: &str) -> (kind: Option<PayloadKind>)
    ensures
        kind == output_kind(fn_name@),
{
    if same_text(fn_name, "read_state") {
        Some(PayloadKind::Word)
    } else if same_text(fn_name, "handle_event") {
        Some(PayloadKind::Unit)
    } else {
        None
    }
}

/// Finds the payload that the event `event_name` carries.
pub fn event_kind_of(event_name: &str) -> (kind: Option<PayloadKind>)
    ensures
        kind == event_kind(event_name@),
{
    if same_text(event_name, "state") {
        Some(PayloadKind::Word)
    } else {
        None
    }
}

/// The error for a name the driver does not know: `Unsupported`, with
/// `prefix` and the name as its text.
pub fn unsupported(prefix: &str, name: &str) -> (error: DriverError)
    ensures
        error matches DriverError::Unsupported(text) && text@ == prefix@ + name@,
{
    let text = String::from_str(prefix).concat(name);
    DriverError::Unsupported(text)
}

/// Encodes JSON text as the archive of a payload of shape `kind`.
pub fn encode(kind: PayloadKind, json: &str) -> (result: Result<Vec<u8>, DriverError>)
    ensures
        encodes(kind, json@, result),
{
    match kind {
        PayloadKind::Unit => {
            let result = archive_unit_json(json);
            assert(result matches Ok(bytes) ==> bytes@ =~= Payload::Unit.archive());
            result
        },
        PayloadKind::Word => archive_word_json(json),
    }
}

/// Decodes an archive as a payload of shape `kind`.
///
/// `Unit` is decoded from every buffer. A word is decoded from the last
/// four bytes, if the archive is well-formed and aligned.
pub fn decode(kind: PayloadKind, bytes: &[u8]) -> (result: Result<Payload, DriverError>)
    ensures
        decodes(kind, bytes@, result),
        kind is Unit ==> result == Ok::<Payload, DriverError>(Payload::Unit),
        kind is Word && bytes@.len() % 4 != 0 ==> result matches Err(DriverError::Rkyv(_)),
{
    match kind {
        PayloadKind::Unit => match read_unit_archive(bytes) {
            Ok(_) => Ok(Payload::Unit),
            Err(error) => Err(error),
        },
        PayloadKind::Word => match read_word_archive(bytes) {
            Ok(word) => Ok(Payload::Word(word)),
            Err(error) => Err(error),
        },
    }
}

/// The driver that converts the contract's calls and events between JSON
/// and archived bytes.
#[derive(Clone, Copy, Debug, Default)]
pub struct ContractDriver;

impl ContractDriver {
    /// Encodes the JSON input of the call `fn_name` as an archive.
    ///
    /// An unknown name gives `Unsupported` with the text `fn_name ` and the
    /// name. For a known name the text is parsed as the payload the call
    /// takes and archived.
    pub fn encode_input_fn(&self, fn_name: &str, json: &str) -> (result: Result<
        Vec<u8>,
        DriverError,
    >)
        ensures
            match input_kind(fn_name@) {
                Some(kind) => encodes(kind, json@, result),
                None => result matches Err(DriverError::Unsupported(text)) && text@ == "fn_name "@
                    + fn_name@,
            },
    {
        match input_kind_of(fn_name) {
            Some(kind) => encode(kind, json),
            None => Err(unsupported("fn_name ", fn_name)),
        }
    }

    /// Decodes the archived input of the call `fn_name`.
    ///
    /// An unknown name gives `Unsupported` with the text `fn_name ` and the
    /// name. For a known name the bytes are read as the payload the call
    /// takes: the input of a call that takes nothing is `Unit`, whatever the
    /// bytes are.
    pub fn decode_input_fn(&self, fn_name: &str, rkyv: &[u8]) -> (result: Result<
        Payload,
        DriverError,
    >)
        ensures
            match input_kind(fn_name@) {
                Some(kind) => decodes(kind, rkyv@, result),
                None => result matches Err(DriverError::Unsupported(text)) && text@ == "fn_name "@
                    + fn_name@,
            },
            input_kind(fn_name@) == Some(PayloadKind::Unit) ==> result == Ok::<
                Payload,
                DriverError,
            >(Payload::Unit),
    {
        match input_kind_of(fn_name) {
            Some(kind) => decode(kind, rkyv),
            None => Err(unsupported("fn_name ", fn_name)),
        }
    }

    /// Decodes the archived output of the call `fn_name`.
    ///
    /// An unknown name gives `Unsupported` with the text `fn_name ` and the
    /// name. For a known name the bytes are read as the payload the call
    /// returns: the output of a call that returns nothing is `Unit`,
    /// whatever the bytes are.
    pub fn decode_output_fn(&self, fn_name: &str, rkyv: &[u8]) -> (result: Result<
        Payload,
        DriverError,
    >)
        ensures
            match output_kind(fn_name@) {
                Some(kind) => decodes(kind, rkyv@, result),
                None => result matches Err(DriverError::Unsupported(text)) && text@ == "fn_name "@
                    + fn_name@,
            },
            output_kind(fn_name@) == Some(PayloadKind::Unit) ==> result == Ok::<
                Payload,
                DriverError,
            >(Payload::Unit),
    {
        match output_kind_of(fn_name) {
            Some(kind) => decode(kind, rkyv),
            None => Err(unsupported("fn_name ", fn_name)),
        }
    }

    /// Decodes the archived data of the event `event_name`.
    ///
    /// An unknown name gives `Unsupported` with the text `event ` and the
    /// name. For a known name the bytes are read as the payload the event
    /// carries.
    pub fn decode_event(&self, event_name: &str, rkyv: &[u8]) -> (result: Result<
        Payload,
        DriverError,
    >)
        ensures
            match event_kind(event_name@) {
                Some(kind) => decodes(kind, rkyv@, result),
                None => result matches Err(DriverError::Unsupported(text)) && text@ == "event "@
                    + event_name@,
            },
    {
        match event_kind_of(event_name) {
            Some(kind) => decode(kind, rkyv),
            None => Err(unsupported("event ", event_name)),
        }
    }
}

/// An archive that the driver wrote reads back as the payload it was
/// written for, and as no other.
pub proof fn lemma_archive_reads_back(kind: PayloadKind, payload: Payload, read: Payload)
    requires
        payload.kind() == kind,
        reads_as(kind, payload.archive(), read),
    ensures
        read == payload,
{
    if let Payload::Word(word) = payload {
        lemma_le_word_of_le_bytes(word);
        assert(le_bytes(word).subrange(0, 4) =~= le_bytes(word));
    }
}

/// The archive of a payload has the length that reading its shape asks for,
/// and the payload itself is among what it reads as.
pub proof fn lemma_archive_is_readable(payload: Payload)
    ensures
        payload.archive().len() % 4 == 0,
        reads_as(payload.kind(), payload.archive(), payload),
{
    if let Payload::Word(word) = payload {
        lemma_le_word_of_le_bytes(word);
        assert(le_bytes(word).subrange(0, 4) =~= le_bytes(word));
    }
}

/// Decoding what was encoded gives the payload that the text denotes, or
/// fails with an archive error; for `Unit` it does not fail.
pub proof fn lemma_decoding_what_was_encoded(
    kind: PayloadKind,
    json: Seq<char>,
    encoded: Result<Vec<u8>, DriverError>,
    decoded: Result<Payload, DriverError>,
)
    requires
        encodes(kind, json, encoded),
        encoded matches Ok(bytes) && decodes(kind, bytes@, decoded),
    ensures
        parsed(kind, json) matches Some(payload) && (decoded == Ok::<Payload, DriverError>(payload)
            || (kind is Word && decoded matches Err(DriverError::Rkyv(_)))),
{
    let payload = parsed(kind, json)->0;
    if let Ok(read) = decoded {
        lemma_archive_reads_back(kind, payload, read);
    }
}

/// The data of a holder's notification is decoded, under the notification's
/// topic, as a word: it gives the state that the notification carries, or
/// fails with an archive error.
pub proof fn lemma_notification_decodes_to_its_state(
    notification: Notification,
    decoded: Result<Payload, DriverError>,
)
    requires
        decodes(PayloadKind::Word, le_bytes(notification.payload), decoded),
    ensures
        event_kind(STATE_TOPIC@) == Some(PayloadKind::Word),
        decoded == Ok::<Payload, DriverError>(Payload::Word(notification.payload))
            || decoded matches Err(DriverError::Rkyv(_)),
{
    if let Ok(read) = decoded {
        lemma_archive_reads_back(PayloadKind::Word, Payload::Word(notification.payload), read);
    }
}

/// `null` with nothing but white space before it and after it is JSON for
/// the unit value.
pub proof fn lemma_spaced_null_is_json_unit(before: Seq<char>, after: Seq<char>)
    requires
        forall|i: int| 0 <= i < before.len() ==> is_json_space(#[trigger] before[i]),
        forall|i: int| 0 <= i < after.len() ==> is_json_space(#[trigger] after[i]),
    ensures
        json_unit(spaced_null(before, after)),
{
    let text = spaced_null(before, after);
    let start = before.len() as int;
    assert(text.subrange(start, start + 4) =~= null_text());
    assert forall|i: int| 0 <= i < text.len() && !(start <= i < start + 4) implies is_json_space(
        #[trigger] text[i],
    ) by {
        if i < start {
            assert(text[i] == before[i]);
        } else {
            assert(text[i] == after[i - start - 4]);
        }
    }
}

/// JSON for the unit value is `null` with nothing but white space before it
/// and after it, and nothing else.
pub proof fn lemma_json_unit_is_spaced_null(json: Seq<char>)
    requires
        json_unit(json),
    ensures
        exists|before: Seq<char>, after: Seq<char>|
            {
                &&& #[trigger] spaced_null(before, after) == json
                &&& forall|i: int| 0 <= i < before.len() ==> is_json_space(#[trigger] before[i])
                &&& forall|i: int| 0 <= i < after.len() ==> is_json_space(#[trigger] after[i])
            },
{
    let start = choose|start: int|
        {
            &&& 0 <= start
            &&& start + 4 <= json.len()
            &&& #[trigger] json.subrange(start, start + 4) == null_text()
            &&& forall|i: int|
                0 <= i < json.len() && !(start <= i < start + 4) ==> is_json_space(
                    #[trigger] json[i],
                )
        };
    let before = json.subrange(0, start);
    let after = json.subrange(start + 4, json.len() as int);
    assert(spaced_null(before, after) =~= json);
    assert forall|i: int| 0 <= i < before.len() implies is_json_space(#[trigger] before[i]) by {
        assert(before[i] == json[i]);
    }
    assert forall|i: int| 0 <= i < after.len() implies is_json_space(#[trigger] after[i]) by {
        assert(after[i] == json[i + start + 4]);
    }
}

} // verus!
