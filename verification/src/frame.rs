//! The frame codec: the three kinds of OCPP-J frame, and their mapping to
//! and from the JSON array that carries them on the wire.

use vstd::prelude::*;
use crate::json::{
    items_view, json_parse, json_text, printed_value, valid_document, Json, JsonValue,
};
use crate::text::{decimal, decimal_string, is_json_number, number_part, str_eq};

verus! {

/// The message type id that opens a Call.
pub const CALL: usize = 2;

/// The message type id that opens a CallResult.
pub const CALL_RESULT: usize = 3;

/// The message type id that opens a CallError.
pub const CALL_ERROR: usize = 4;

/// A frame as a mathematical value.
pub enum Frame {
    Call { message_type_id: int, message_id: Seq<char>, action: Seq<char>, payload: JsonValue },
    CallResult { message_type_id: int, message_id: Seq<char>, payload: JsonValue },
    CallError {
        message_type_id: int,
        message_id: Seq<char>,
        error_code: Seq<char>,
        error_description: Seq<char>,
        error_details: JsonValue,
    },
}

impl Frame {
    /// The message id of the frame.
    pub open spec fn message_id(self) -> Seq<char> {
        match self {
            Frame::Call { message_id, .. } => message_id,
            Frame::CallResult { message_id, .. } => message_id,
            Frame::CallError { message_id, .. } => message_id,
        }
    }

    /// The message type id that the frame carries.
    pub open spec fn message_type_id(self) -> int {
        match self {
            Frame::Call { message_type_id, .. } => message_type_id,
            Frame::CallResult { message_type_id, .. } => message_type_id,
            Frame::CallError { message_type_id, .. } => message_type_id,
        }
    }

    /// The message type id that belongs to the frame's kind.
    pub open spec fn kind_id(self) -> int {
        match self {
            Frame::Call { .. } => CALL as int,
            Frame::CallResult { .. } => CALL_RESULT as int,
            Frame::CallError { .. } => CALL_ERROR as int,
        }
    }

    /// A valid frame carries the message type id of its kind and a message
    /// id that is not empty.
    pub open spec fn valid(self) -> bool {
        self.message_type_id() == self.kind_id() && self.message_id().len() > 0
    }

    /// The document that the frame carries: the payload of a Call or a
    /// CallResult, the details of a CallError.
    pub open spec fn document(self) -> JsonValue {
        match self {
            Frame::Call { payload, .. } => payload,
            Frame::CallResult { payload, .. } => payload,
            Frame::CallError { error_details, .. } => error_details,
        }
    }

    /// A frame can be written as it stands where it is valid and the
    /// document that it carries is one that JSON can write.
    pub open spec fn writable(self) -> bool {
        self.valid() && valid_document(self.document())
    }
}

/// A frame of one of the three kinds:
/// Call `[2, "<message id>", "<action>", {<payload>}]`,
/// CallResult `[3, "<message id>", {<payload>}]`,
/// CallError `[4, "<message id>", "<error code>", "<error description>", {<error details>}]`.
#[derive(Clone, Debug, PartialEq)]
pub enum OcppMessageType {
    /// OCPP Call
    Call(usize, String, String, Json),
    /// OCPP Result
    CallResult(usize, String, Json),
    /// OCPP Error
    CallError(usize, String, String, String, Json),
}

impl View for OcppMessageType {
    type V = Frame;

    open spec fn view(&self) -> Frame {
        match self {
            OcppMessageType::Call(message_type_id, message_id, action, payload) => Frame::Call {
                message_type_id: *message_type_id as int,
                message_id: message_id@,
                action: action@,
                payload: payload@,
            },
            OcppMessageType::CallResult(message_type_id, message_id, payload) => Frame::CallResult {
                message_type_id: *message_type_id as int,
                message_id: message_id@,
                payload: payload@,
            },
            OcppMessageType::CallError(
                message_type_id,
                message_id,
                error_code,
                error_description,
                error_details,
            ) => Frame::CallError {
                message_type_id: *message_type_id as int,
                message_id: message_id@,
                error_code: error_code@,
                error_description: error_description@,
                error_details: error_details@,
            },
        }
    }
}

/// Why a text or a document is no frame.
#[derive(Clone, Copy, Debug, PartialEq, Eq, Structural)]
pub enum DecodeError {
    /// Not JSON, not an array, a first element that is not 2, 3 or 4, the
    /// wrong number of elements for the kind, an element of the wrong type,
    /// or an empty message id.
    MalformedFrame,
}

/// The JSON array that carries a frame: its fields in their fixed order,
/// the message type id as a number.
pub open spec fn frame_to_json(frame: Frame) -> JsonValue {
    match frame {
        Frame::Call { message_type_id, message_id, action, payload } => JsonValue::Array(
            seq![
                JsonValue::Number(decimal(message_type_id as nat)),
                JsonValue::Str(message_id),
                JsonValue::Str(action),
                payload,
            ],
        ),
        Frame::CallResult { message_type_id, message_id, payload } => JsonValue::Array(
            seq![
                JsonValue::Number(decimal(message_type_id as nat)),
                JsonValue::Str(message_id),
                payload,
            ],
        ),
        Frame::CallError {
            message_type_id,
            message_id,
            error_code,
            error_description,
            error_details,
        } => JsonValue::Array(
            seq![
                JsonValue::Number(decimal(message_type_id as nat)),
                JsonValue::Str(message_id),
                JsonValue::Str(error_code),
                JsonValue::Str(error_description),
                error_details,
            ],
        ),
    }
}

/// Tells whether a document is the number `n`, written as an integer.
pub open spec fn is_number(value: JsonValue, n: nat) -> bool {
    value == JsonValue::Number(decimal(n))
}

/// Tells whether a document is a string that is not empty.
pub open spec fn is_message_id(value: JsonValue) -> bool {
    value matches JsonValue::Str(text) && text.len() > 0
}

/// The frame that a document carries. The document must be an array whose
/// first element is 2, 3 or 4, with exactly the elements of that kind, each
/// of its type; the payload and the error details may be any document.
pub open spec fn json_to_frame(value: JsonValue) -> Result<Frame, DecodeError> {
    match value {
        JsonValue::Array(items) => {
            if items.len() == 4 && is_number(items[0], 2) && is_message_id(items[1])
                && items[2] is Str {
                Ok(
                    Frame::Call {
                        message_type_id: 2,
                        message_id: items[1]->Str_0,
                        action: items[2]->Str_0,
                        payload: items[3],
                    },
                )
            } else if items.len() == 3 && is_number(items[0], 3) && is_message_id(items[1]) {
                Ok(
                    Frame::CallResult {
                        message_type_id: 3,
                        message_id: items[1]->Str_0,
                        payload: items[2],
                    },
                )
            } else if items.len() == 5 && is_number(items[0], 4) && is_message_id(items[1])
                && items[2] is Str && items[3] is Str {
                Ok(
                    Frame::CallError {
                        message_type_id: 4,
                        message_id: items[1]->Str_0,
                        error_code: items[2]->Str_0,
                        error_description: items[3]->Str_0,
                        error_details: items[4],
                    },
                )
            } else {
                Err(DecodeError::MalformedFrame)
            }
        },
        _ => Err(DecodeError::MalformedFrame),
    }
}

/// The frame that a text carries: the frame of the document that the
/// parser reads from it.
pub open spec fn decode_spec(text: Seq<char>) -> Result<Frame, DecodeError> {
    match json_parse(text) {
        Some(value) => json_to_frame(value),
        None => Err(DecodeError::MalformedFrame),
    }
}

/// The text that carries a frame: the printer's text for its array.
pub open spec fn encode_spec(frame: Frame) -> Seq<char> {
    json_text(printed_value(frame_to_json(frame)))
}

/// The view of the outcome of decoding.
pub open spec fn decoded_view(decoded: Result<OcppMessageType, DecodeError>) -> Result<
    Frame,
    DecodeError,
> {
    match decoded {
        Ok(frame) => Ok(frame@),
        Err(error) => Err(error),
    }
}

/// The numerals of the three message type ids.
pub proof fn lemma_type_id_numerals()
    ensures
        decimal(2) == "2"@,
        decimal(3) == "3"@,
        decimal(4) == "4"@,
        decimal(2) != decimal(3),
        decimal(2) != decimal(4),
        decimal(3) != decimal(4),
{
    reveal_strlit("2");
    reveal_strlit("3");
    reveal_strlit("4");
    assert(decimal(2) =~= "2"@);
    assert(decimal(3) =~= "3"@);
    assert(decimal(4) =~= "4"@);
    assert(decimal(2)[0] == '2');
    assert(decimal(3)[0] == '3');
    assert(decimal(4)[0] == '4');
}

/// Decoding what encoding wrote gives the frame back, for every valid
/// frame: the array of a frame carries that frame.
pub proof fn lemma_decode_encode_round_trip(frame: Frame)
    requires
        frame.valid(),
    ensures
        json_to_frame(frame_to_json(frame)) == Ok::<Frame, DecodeError>(frame),
{
    lemma_type_id_numerals();
}

/// Decoding the text that encoding wrote gives the frame back, for every
/// valid frame, wherever the parser reads the printer's text for the
/// frame's array back as that array.
pub proof fn lemma_decode_encode_text_round_trip(frame: Frame)
    requires
        frame.valid(),
    ensures
        json_parse(encode_spec(frame)) == Some(frame_to_json(frame)) ==> decode_spec(
            encode_spec(frame),
        ) == Ok::<Frame, DecodeError>(frame),
{
    lemma_decode_encode_round_trip(frame);
}

/// An array whose first element is not 2, 3 or 4 is a malformed frame, and
/// so is the empty array.
pub proof fn lemma_unknown_type_id_is_malformed(items: Seq<JsonValue>)
    requires
        items.len() > 0 ==> !is_number(items[0], 2) && !is_number(items[0], 3) && !is_number(
            items[0],
            4,
        ),
    ensures
        json_to_frame(JsonValue::Array(items)) == Err::<Frame, DecodeError>(
            DecodeError::MalformedFrame,
        ),
{
}

/// A text that the parser reads as an array whose first element is not 2,
/// 3 or 4 is a malformed frame; so is a text that the parser rejects.
pub proof fn lemma_unknown_type_id_text_is_malformed(text: Seq<char>)
    ensures
        json_parse(text) is None ==> decode_spec(text) == Err::<Frame, DecodeError>(
            DecodeError::MalformedFrame,
        ),
        (json_parse(text) matches Some(JsonValue::Array(items)) && (items.len() > 0 ==> !is_number(
            items[0],
            2,
        ) && !is_number(items[0], 3) && !is_number(items[0], 4))) ==> decode_spec(text) == Err::<
            Frame,
            DecodeError,
        >(DecodeError::MalformedFrame),
{
}

/// A frame that decoding accepts is valid; and where the document that
/// it was decoded from is one that JSON can write, so is the document
/// that the frame carries.
pub proof fn lemma_decoded_frame_is_valid(value: JsonValue)
    ensures
        json_to_frame(value) matches Ok(frame) ==> frame.valid(),
        json_to_frame(value) matches Ok(frame) ==> (valid_document(value) ==> frame.writable()),
{
    if json_to_frame(value) is Ok && valid_document(value) {
        let items = value->Array_0;
        assert(valid_document(items[items.len() - 1]));
    }
}

/// The numerals of the three message type ids are numbers as JSON writes
/// them.
pub proof fn lemma_type_ids_are_json_numbers()
    ensures
        is_json_number(decimal(2)),
        is_json_number(decimal(3)),
        is_json_number(decimal(4)),
{
    reveal_with_fuel(number_part, 3);
    assert(decimal(2) =~= seq!['2']);
    assert(decimal(3) =~= seq!['3']);
    assert(decimal(4) =~= seq!['4']);
    assert(seq!['2'].drop_last() =~= Seq::<char>::empty());
    assert(seq!['3'].drop_last() =~= Seq::<char>::empty());
    assert(seq!['4'].drop_last() =~= Seq::<char>::empty());
    assert(crate::text::is_digit('2')) by {
        assert('2' == crate::text::digit_char(2));
    }
    assert(crate::text::is_digit('3')) by {
        assert('3' == crate::text::digit_char(3));
    }
    assert(crate::text::is_digit('4')) by {
        assert('4' == crate::text::digit_char(4));
    }
}

/// The array of a frame that can be written as it stands is a document
/// that JSON can write, and decoding it gives the frame back.
pub proof fn lemma_writable_frame_round_trip(frame: Frame)
    requires
        frame.writable(),
    ensures
        valid_document(frame_to_json(frame)),
        json_to_frame(frame_to_json(frame)) == Ok::<Frame, DecodeError>(frame),
{
    lemma_type_ids_are_json_numbers();
    lemma_decode_encode_round_trip(frame);
    let items = frame_to_json(frame)->Array_0;
    assert forall|i: int| 0 <= i < items.len() implies valid_document(#[trigger] items[i]) by {}
}

impl OcppMessageType {
    /// The message id of the frame.
    pub fn message_id(&self) -> (id: &String)
        ensures
            id@ == self@.message_id(),
    {
        match self {
            OcppMessageType::Call(_, message_id, _, _) => message_id,
            OcppMessageType::CallResult(_, message_id, _) => message_id,
            OcppMessageType::CallError(_, message_id, _, _, _) => message_id,
        }
    }

    /// The message type id that the frame carries.
    pub fn message_type_id(&self) -> (id: usize)
        ensures
            id == self@.message_type_id(),
    {
        match self {
            OcppMessageType::Call(message_type_id, _, _, _) => *message_type_id,
            OcppMessageType::CallResult(message_type_id, _, _) => *message_type_id,
            OcppMessageType::CallError(message_type_id, _, _, _, _) => *message_type_id,
        }
    }

    /// The document that the frame carries.
    pub fn document(&self) -> (document: &Json)
        ensures
            document@ == self@.document(),
    {
        match self {
            OcppMessageType::Call(_, _, _, payload) => payload,
            OcppMessageType::CallResult(_, _, payload) => payload,
            OcppMessageType::CallError(_, _, _, _, error_details) => error_details,
        }
    }

    /// Tells whether the frame can be written as it stands.
    pub fn is_writable(&self) -> (writable: bool)
        ensures
            writable == self@.writable(),
    {
        self.is_valid() && self.document().is_valid()
    }

    /// Tells whether the frame is valid.
    pub fn is_valid(&self) -> (valid: bool)
        ensures
            valid == self@.valid(),
    {
        let kind_id = match self {
            OcppMessageType::Call(..) => CALL,
            OcppMessageType::CallResult(..) => CALL_RESULT,
            OcppMessageType::CallError(..) => CALL_ERROR,
        };
        self.message_type_id() == kind_id && !self.message_id().as_str().is_empty()
    }
}

/// Reads the message type id at the head of a frame's array.
fn type_id_of(head: &Json) -> (id: Option<usize>)
    ensures
        id matches Some(n) ==> (n == 2 || n == 3 || n == 4) && is_number(head@, n as nat),
        id is None ==> !is_number(head@, 2) && !is_number(head@, 3) && !is_number(head@, 4),
{
    proof {
        lemma_type_id_numerals();
    }
    match head {
        Json::Number(text) => {
            if str_eq(text.as_str(), "2") {
                Some(2)
            } else if str_eq(text.as_str(), "3") {
                Some(3)
            } else if str_eq(text.as_str(), "4") {
                Some(4)
            } else {
                None
            }
        },
        _ => None,
    }
}

/// Takes the last element off a frame's array where it is a string.
fn pop_text(items: &mut Vec<Json>) -> (text: Option<String>)
    requires
        old(items).len() > 0,
    ensures
        final(items)@ == old(items)@.drop_last(),
        text is Some == old(items)@.last()@ is Str,
        text matches Some(s) ==> old(items)@.last()@ == JsonValue::Str(s@),
{
    match items.pop() {
        Some(Json::Str(text)) => Some(text),
        _ => None,
    }
}

/// Decodes a document into the frame it carries.
pub fn decode_value(value: Json) -> (decoded: Result<OcppMessageType, DecodeError>)
    ensures
        decoded_view(decoded) == json_to_frame(value@),
{
    let mut items = match value {
        Json::Array(items) => items,
        _ => { return Err(DecodeError::MalformedFrame); },
    };
    let ghost all = items_view(items@);
    assert(value@ == JsonValue::Array(all));
    proof {
        lemma_type_id_numerals();
    }
    if items.len() == 0 {
        return Err(DecodeError::MalformedFrame);
    }
    assert(all[0] == items[0]@);
    let id = match type_id_of(&items[0]) {
        Some(id) => id,
        None => { return Err(DecodeError::MalformedFrame); },
    };
    let expected: usize = if id == 2 {
        4
    } else if id == 3 {
        3
    } else {
        5
    };
    if items.len() != expected {
        return Err(DecodeError::MalformedFrame);
    }
    assert forall|k: int| 0 <= k < items.len() implies all[k] == items[k]@ by {}
    let ghost before = items@;
    let last = match items.pop() {
        Some(last) => last,
        None => { return Err(DecodeError::MalformedFrame); },
    };
    assert(last@ == all[expected - 1]);
    if id == 3 {
        let message_id = match pop_text(&mut items) {
            Some(text) => text,
            None => { return Err(DecodeError::MalformedFrame); },
        };
        if message_id.as_str().is_empty() {
            return Err(DecodeError::MalformedFrame);
        }
        return Ok(OcppMessageType::CallResult(CALL_RESULT, message_id, last));
    }
    let third = pop_text(&mut items);
    if id == 2 {
        let second = pop_text(&mut items);
        match (second, third) {
            (Some(message_id), Some(action)) => {
                if message_id.as_str().is_empty() {
                    return Err(DecodeError::MalformedFrame);
                }
                Ok(OcppMessageType::Call(CALL, message_id, action, last))
            },
            _ => Err(DecodeError::MalformedFrame),
        }
    } else {
        let second = pop_text(&mut items);
        let first = pop_text(&mut items);
        match (first, second, third) {
            (Some(message_id), Some(error_code), Some(error_description)) => {
                if message_id.as_str().is_empty() {
                    return Err(DecodeError::MalformedFrame);
                }
                Ok(
                    OcppMessageType::CallError(
                        CALL_ERROR,
                        message_id,
                        error_code,
                        error_description,
                        last,
                    ),
                )
            },
            _ => Err(DecodeError::MalformedFrame),
        }
    }
}

/// Encodes a frame as the document that carries it.
pub fn encode_value(frame: OcppMessageType) -> (value: Json)
    ensures
        value@ == frame_to_json(frame@),
{
    let ghost expected = frame_to_json(frame@)->Array_0;
    let mut items: Vec<Json> = Vec::new();
    match frame {
        OcppMessageType::Call(message_type_id, message_id, action, payload) => {
            items.push(Json::Number(decimal_string(message_type_id as u64)));
            items.push(Json::Str(message_id));
            items.push(Json::Str(action));
            items.push(payload);
            assert(items_view(items@) =~= expected);
        },
        OcppMessageType::CallResult(message_type_id, message_id, payload) => {
            items.push(Json::Number(decimal_string(message_type_id as u64)));
            items.push(Json::Str(message_id));
            items.push(payload);
            assert(items_view(items@) =~= expected);
        },
        OcppMessageType::CallError(
            message_type_id,
            message_id,
            error_code,
            error_description,
            error_details,
        ) => {
            items.push(Json::Number(decimal_string(message_type_id as u64)));
            items.push(Json::Str(message_id));
            items.push(Json::Str(error_code));
            items.push(Json::Str(error_description));
            items.push(error_details);
            assert(items_view(items@) =~= expected);
        },
    }
    Json::Array(items)
}

/// Decodes a text frame. The text must be JSON, and the document that the
/// parser reads from it must carry a frame; anything else is a malformed
/// frame.
pub fn decode(text: &str) -> (decoded: Result<OcppMessageType, DecodeError>)
    ensures
        decoded_view(decoded) == decode_spec(text@),
{
    match Json::parse(text) {
        Some(value) => decode_value(value),
        None => Err(DecodeError::MalformedFrame),
    }
}

/// Encodes a frame as text: the JSON array of its fields in their fixed
/// order.
pub fn encode(frame: OcppMessageType) -> (text: String)
    ensures
        text@ == encode_spec(frame@),
{
    encode_value(frame).to_text()
}

} // verus!
