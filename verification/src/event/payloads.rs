//! Event payloads and their wire form.
//!
//! A payload travels as bincode's fixed-width little-endian layout of its
//! fields: user id, app id, file name, file id, file reference, issuer and
//! kind, in this order, which is the one the file services write. The layout
//! is written down here as [`wire_fields`]; the bytes themselves are
//! produced and read by bincode.

use crate::metadata::domain::{optional_text, text_of};
use crate::result::Error;
use vstd::bytes::{
    lemma_auto_spec_u32_to_from_le_bytes, lemma_auto_spec_u64_to_from_le_bytes,
    spec_u32_from_le_bytes, spec_u32_to_le_bytes, spec_u64_from_le_bytes, spec_u64_to_le_bytes,
};
use vstd::prelude::*;
use vstd::utf8::{encode_utf8, encode_utf8_decode_utf8};

verus! {

/// The kinds of events that may be handled or emitted.
#[derive(Clone, Copy, Debug, PartialEq, Eq, Structural)]
pub enum EventKind {
    Created,
    Deleted,
}

impl EventKind {
    /// The number that stands for this kind on the wire.
    pub open spec fn wire_index(self) -> u32 {
        match self {
            EventKind::Created => 0,
            EventKind::Deleted => 1,
        }
    }

    /// The kind's name in snake case.
    pub open spec fn label(self) -> Seq<char> {
        match self {
            EventKind::Created => "created"@,
            EventKind::Deleted => "deleted"@,
        }
    }

    pub fn index(&self) -> (index: u32)
        ensures
            index == self.wire_index(),
    {
        match self {
            EventKind::Created => 0,
            EventKind::Deleted => 1,
        }
    }

    /// The kind that `index` stands for on the wire, if any.
    pub open spec fn of_index(index: u32) -> Option<EventKind> {
        if index == 0 {
            Some(EventKind::Created)
        } else if index == 1 {
            Some(EventKind::Deleted)
        } else {
            None
        }
    }

    /// The kind that `index` stands for, if any.
    pub fn from_index(index: u32) -> (kind: Option<EventKind>)
        ensures
            kind == Self::of_index(index),
    {
        if index == 0 {
            Some(EventKind::Created)
        } else if index == 1 {
            Some(EventKind::Deleted)
        } else {
            None
        }
    }

    pub fn as_str(&self) -> (name: &'static str)
        ensures
            name@ == self.label(),
    {
        match self {
            EventKind::Created => "created",
            EventKind::Deleted => "deleted",
        }
    }
}

/// What a [`FileEventPayload`] holds, as plain values.
pub struct FileEventPayloadView {
    pub user_id: Seq<char>,
    pub app_id: Seq<char>,
    pub file_name: Seq<char>,
    pub file_id: Seq<char>,
    pub file_reference: Option<Seq<char>>,
    pub issuer: Seq<char>,
    pub kind: EventKind,
}

/// A text on the wire: the byte length of its UTF-8 form as eight
/// little-endian bytes, then the UTF-8 form itself.
pub open spec fn wire_text(text: Seq<char>) -> Seq<u8> {
    spec_u64_to_le_bytes(encode_utf8(text).len() as u64) + encode_utf8(text)
}

/// An optional text on the wire: a zero byte when absent, a one byte and the
/// text when present.
pub open spec fn wire_optional_text(text: Option<Seq<char>>) -> Seq<u8> {
    match text {
        None => seq![0u8],
        Some(present) => seq![1u8] + wire_text(present),
    }
}

/// The wire form of a payload's fields: each field in turn, the kind last as
/// four little-endian bytes.
pub open spec fn wire_fields(
    user_id: Seq<char>,
    app_id: Seq<char>,
    file_name: Seq<char>,
    file_id: Seq<char>,
    file_reference: Option<Seq<char>>,
    issuer: Seq<char>,
    kind: u32,
) -> Seq<u8> {
    wire_text(user_id) + (wire_text(app_id) + (wire_text(file_name) + (wire_text(file_id) + (
    wire_optional_text(file_reference) + (wire_text(issuer) + spec_u32_to_le_bytes(kind))))))
}

impl FileEventPayloadView {
    /// The bytes that carry this payload.
    pub open spec fn encoding(self) -> Seq<u8> {
        wire_fields(
            self.user_id,
            self.app_id,
            self.file_name,
            self.file_id,
            self.file_reference,
            self.issuer,
            self.kind.wire_index(),
        )
    }

    /// Whether `body` starts with this payload's bytes.
    pub open spec fn leads(self, body: Seq<u8>) -> bool {
        self.encoding().is_prefix_of(body)
    }
}

/// The payload that `body` carries: the one whose bytes `body` starts with.
/// Bytes after the payload are ignored.
pub open spec fn decoding(body: Seq<u8>) -> Option<FileEventPayloadView> {
    if exists|payload: FileEventPayloadView| payload.leads(body) {
        Some(choose|payload: FileEventPayloadView| payload.leads(body))
    } else {
        None
    }
}

/// The reason bincode gives when it cannot write or read a value. Nothing
/// here looks inside.
#[verifier::external_type_specification]
#[verifier::external_body]
pub struct ExBincodeErrorKind(bincode::ErrorKind);

/// Writes the seven fields with `bincode::serialize`, as one tuple. Bincode
/// writes a tuple field by field; a string as its byte length in a `u64` and
/// its UTF-8 bytes, an option as a tag byte and the value, a `u32` as it is,
/// all integers little-endian. It writes into a vector and sets no size
/// limit, and none of these writers can fail. The contract claims both: the
/// call succeeds, and the bytes have that layout.
#[verifier::external_body]
fn to_wire(
    user_id: &str,
    app_id: &str,
    file_name: &str,
    file_id: &str,
    file_reference: Option<&str>,
    issuer: &str,
    kind: u32,
) -> (wire: Result<Vec<u8>, bincode::Error>)
    ensures
        wire is Ok,
        wire matches Ok(bytes) ==> bytes@ == wire_fields(
            user_id@,
            app_id@,
            file_name@,
            file_id@,
            optional_text(file_reference),
            issuer@,
            kind,
        ),
{
    bincode::serialize(&(user_id, app_id, file_name, file_id, file_reference, issuer, kind))
}

/// Reads seven fields with `bincode::deserialize`, as one tuple. Bincode reads
/// the layout that [`to_wire`] writes, from the start of `bytes`, and leaves
/// what follows unread. It fails when the bytes end early, a length runs past
/// the end, a string is not UTF-8 or the option's tag is neither zero nor one.
/// The contract claims both directions: fields handed back are fields whose
/// layout `bytes` starts with, and an error means no fields have such a layout.
#[verifier::external_body]
fn from_wire(bytes: &[u8]) -> (fields: Result<
    (String, String, String, String, Option<String>, String, u32),
    bincode::Error,
>)
    ensures
        fields matches Ok(found) ==> wire_fields(
            found.0@,
            found.1@,
            found.2@,
            found.3@,
            text_of(found.4),
            found.5@,
            found.6,
        ).is_prefix_of(bytes@),
        fields is Err ==> forall|
            user_id: Seq<char>,
            app_id: Seq<char>,
            file_name: Seq<char>,
            file_id: Seq<char>,
            file_reference: Option<Seq<char>>,
            issuer: Seq<char>,
            kind: u32,
        |
            !(#[trigger] wire_fields(
                user_id,
                app_id,
                file_name,
                file_id,
                file_reference,
                issuer,
                kind,
            )).is_prefix_of(bytes@),
{
    bincode::deserialize(bytes)
}

/// Two texts that both lead `body`, each followed by anything, are one text,
/// and what follows each leads the rest of `body`.
proof fn lemma_text_leads_once(
    first: Seq<char>,
    after_first: Seq<u8>,
    second: Seq<char>,
    after_second: Seq<u8>,
    body: Seq<u8>,
)
    requires
        (wire_text(first) + after_first).is_prefix_of(body),
        (wire_text(second) + after_second).is_prefix_of(body),
        body.len() <= u64::MAX,
    ensures
        first == second,
        after_first.is_prefix_of(body.skip(wire_text(first).len() as int)),
        after_second.is_prefix_of(body.skip(wire_text(first).len() as int)),
        body.skip(wire_text(first).len() as int).len() <= u64::MAX,
{
    lemma_auto_spec_u64_to_from_le_bytes();
    let first_utf8 = encode_utf8(first);
    let second_utf8 = encode_utf8(second);
    let first_head = spec_u64_to_le_bytes(first_utf8.len() as u64);
    let second_head = spec_u64_to_le_bytes(second_utf8.len() as u64);
    let first_whole = wire_text(first) + after_first;
    let second_whole = wire_text(second) + after_second;
    assert(first_head.len() == 8 && second_head.len() == 8);
    assert forall|i: int| 0 <= i < 8 implies first_head[i] == second_head[i] by {
        assert(first_whole[i] == body.subrange(0, first_whole.len() as int)[i]);
        assert(second_whole[i] == body.subrange(0, second_whole.len() as int)[i]);
    }
    assert(first_head =~= second_head);
    assert(spec_u64_from_le_bytes(first_head) == first_utf8.len() as u64);
    assert(spec_u64_from_le_bytes(second_head) == second_utf8.len() as u64);
    assert(first_utf8.len() == second_utf8.len());
    let length = first_utf8.len() as int;
    assert forall|i: int| 0 <= i < length implies first_utf8[i] == second_utf8[i] by {
        assert(first_whole[8 + i] == body.subrange(0, first_whole.len() as int)[8 + i]);
        assert(second_whole[8 + i] == body.subrange(0, second_whole.len() as int)[8 + i]);
    }
    assert(first_utf8 =~= second_utf8);
    encode_utf8_decode_utf8(first);
    encode_utf8_decode_utf8(second);
    let rest = body.skip(8 + length);
    assert forall|i: int| 0 <= i < after_first.len() implies after_first[i] == rest[i] by {
        assert(first_whole[8 + length + i] == body.subrange(0, first_whole.len() as int)[8
            + length + i]);
    }
    assert(after_first =~= rest.subrange(0, after_first.len() as int));
    assert forall|i: int| 0 <= i < after_second.len() implies after_second[i] == rest[i] by {
        assert(second_whole[8 + length + i] == body.subrange(0, second_whole.len() as int)[8
            + length + i]);
    }
    assert(after_second =~= rest.subrange(0, after_second.len() as int));
}

/// Two optional texts that both lead `body`, each followed by anything, are
/// one optional text, and what follows each leads the rest of `body`.
proof fn lemma_optional_text_leads_once(
    first: Option<Seq<char>>,
    after_first: Seq<u8>,
    second: Option<Seq<char>>,
    after_second: Seq<u8>,
    body: Seq<u8>,
)
    requires
        (wire_optional_text(first) + after_first).is_prefix_of(body),
        (wire_optional_text(second) + after_second).is_prefix_of(body),
        body.len() <= u64::MAX,
    ensures
        first == second,
        after_first.is_prefix_of(body.skip(wire_optional_text(first).len() as int)),
        after_second.is_prefix_of(body.skip(wire_optional_text(first).len() as int)),
        body.skip(wire_optional_text(first).len() as int).len() <= u64::MAX,
{
    let first_whole = wire_optional_text(first) + after_first;
    let second_whole = wire_optional_text(second) + after_second;
    assert(first_whole[0] == body.subrange(0, first_whole.len() as int)[0]);
    assert(second_whole[0] == body.subrange(0, second_whole.len() as int)[0]);
    assert(first is Some <==> second is Some);
    let rest = body.skip(1);
    match (first, second) {
        (Some(first_text), Some(second_text)) => {
            assert forall|i: int| 0 <= i < first_whole.len() - 1 implies (wire_text(first_text)
                + after_first)[i] == rest[i] by {
                assert(first_whole[1 + i] == body.subrange(0, first_whole.len() as int)[1 + i]);
            }
            assert((wire_text(first_text) + after_first) =~= rest.subrange(
                0,
                first_whole.len() - 1,
            ));
            assert forall|i: int| 0 <= i < second_whole.len() - 1 implies (wire_text(
                second_text,
            ) + after_second)[i] == rest[i] by {
                assert(second_whole[1 + i] == body.subrange(0, second_whole.len() as int)[1
                    + i]);
            }
            assert((wire_text(second_text) + after_second) =~= rest.subrange(
                0,
                second_whole.len() - 1,
            ));
            lemma_text_leads_once(first_text, after_first, second_text, after_second, rest);
            assert(rest.skip(wire_text(first_text).len() as int) =~= body.skip(
                wire_optional_text(first).len() as int,
            ));
        },
        _ => {
            assert forall|i: int| 0 <= i < after_first.len() implies after_first[i]
                == rest[i] by {
                assert(first_whole[1 + i] == body.subrange(0, first_whole.len() as int)[1 + i]);
            }
            assert(after_first =~= rest.subrange(0, after_first.len() as int));
            assert forall|i: int| 0 <= i < after_second.len() implies after_second[i]
                == rest[i] by {
                assert(second_whole[1 + i] == body.subrange(0, second_whole.len() as int)[1
                    + i]);
            }
            assert(after_second =~= rest.subrange(0, after_second.len() as int));
        },
    }
}

/// Two kinds that both lead `body` are one kind.
proof fn lemma_kind_leads_once(first: u32, second: u32, body: Seq<u8>)
    requires
        spec_u32_to_le_bytes(first).is_prefix_of(body),
        spec_u32_to_le_bytes(second).is_prefix_of(body),
    ensures
        first == second,
{
    lemma_auto_spec_u32_to_from_le_bytes();
    let first_bytes = spec_u32_to_le_bytes(first);
    let second_bytes = spec_u32_to_le_bytes(second);
    assert forall|i: int| 0 <= i < 4 implies first_bytes[i] == second_bytes[i] by {
        assert(first_bytes[i] == body.subrange(0, 4)[i]);
        assert(second_bytes[i] == body.subrange(0, 4)[i]);
    }
    assert(first_bytes =~= second_bytes);
    assert(spec_u32_from_le_bytes(first_bytes) == first);
    assert(spec_u32_from_le_bytes(second_bytes) == second);
}

/// Two field lists whose wire forms both lead `body` are one field list.
proof fn lemma_fields_lead_once(
    first: (Seq<char>, Seq<char>, Seq<char>, Seq<char>, Option<Seq<char>>, Seq<char>, u32),
    second: (Seq<char>, Seq<char>, Seq<char>, Seq<char>, Option<Seq<char>>, Seq<char>, u32),
    body: Seq<u8>,
)
    requires
        wire_fields(first.0, first.1, first.2, first.3, first.4, first.5, first.6).is_prefix_of(
            body,
        ),
        wire_fields(
            second.0,
            second.1,
            second.2,
            second.3,
            second.4,
            second.5,
            second.6,
        ).is_prefix_of(body),
        body.len() <= u64::MAX,
    ensures
        first == second,
{
    let first_kind = spec_u32_to_le_bytes(first.6);
    let second_kind = spec_u32_to_le_bytes(second.6);
    let first_from_5 = wire_text(first.5) + first_kind;
    let second_from_5 = wire_text(second.5) + second_kind;
    let first_from_4 = wire_optional_text(first.4) + first_from_5;
    let second_from_4 = wire_optional_text(second.4) + second_from_5;
    let first_from_3 = wire_text(first.3) + first_from_4;
    let second_from_3 = wire_text(second.3) + second_from_4;
    let first_from_2 = wire_text(first.2) + first_from_3;
    let second_from_2 = wire_text(second.2) + second_from_3;
    let first_from_1 = wire_text(first.1) + first_from_2;
    let second_from_1 = wire_text(second.1) + second_from_2;
    lemma_text_leads_once(first.0, first_from_1, second.0, second_from_1, body);
    let body_1 = body.skip(wire_text(first.0).len() as int);
    lemma_text_leads_once(first.1, first_from_2, second.1, second_from_2, body_1);
    let body_2 = body_1.skip(wire_text(first.1).len() as int);
    lemma_text_leads_once(first.2, first_from_3, second.2, second_from_3, body_2);
    let body_3 = body_2.skip(wire_text(first.2).len() as int);
    lemma_text_leads_once(first.3, first_from_4, second.3, second_from_4, body_3);
    let body_4 = body_3.skip(wire_text(first.3).len() as int);
    lemma_optional_text_leads_once(first.4, first_from_5, second.4, second_from_5, body_4);
    let body_5 = body_4.skip(wire_optional_text(first.4).len() as int);
    lemma_text_leads_once(first.5, first_kind, second.5, second_kind, body_5);
    let body_6 = body_5.skip(wire_text(first.5).len() as int);
    lemma_kind_leads_once(first.6, second.6, body_6);
}

/// No payload's bytes are the start of another payload's bytes: of the
/// payloads that fit in `u64::MAX` bytes, at most one leads a given body.
pub proof fn lemma_one_payload_leads(
    first: FileEventPayloadView,
    second: FileEventPayloadView,
    body: Seq<u8>,
)
    requires
        first.leads(body),
        second.leads(body),
        body.len() <= u64::MAX,
    ensures
        first == second,
{
    lemma_fields_lead_once(
        (
            first.user_id,
            first.app_id,
            first.file_name,
            first.file_id,
            first.file_reference,
            first.issuer,
            first.kind.wire_index(),
        ),
        (
            second.user_id,
            second.app_id,
            second.file_name,
            second.file_id,
            second.file_reference,
            second.issuer,
            second.kind.wire_index(),
        ),
        body,
    );
}

/// A body of at most `u64::MAX` bytes that a payload leads carries that
/// payload.
pub proof fn lemma_leading_payload_is_decoded(payload: FileEventPayloadView, body: Seq<u8>)
    requires
        payload.leads(body),
        body.len() <= u64::MAX,
    ensures
        decoding(body) == Some(payload),
{
    let chosen = choose|any: FileEventPayloadView| any.leads(body);
    lemma_one_payload_leads(chosen, payload, body);
}

/// Round trip: decoding the bytes of a payload gives the payload back, field
/// for field, the absent reference included, whatever follows the bytes. It
/// is stated for bodies of at most `u64::MAX` bytes, beyond which a length no
/// longer fits its eight bytes on the wire.
pub proof fn lemma_decoding_inverts_encoding(payload: FileEventPayloadView, trailing: Seq<u8>)
    requires
        payload.encoding().len() + trailing.len() <= u64::MAX,
    ensures
        decoding(payload.encoding()) == Some(payload),
        decoding(payload.encoding() + trailing) == Some(payload),
{
    let bytes = payload.encoding();
    assert(bytes =~= bytes.subrange(0, bytes.len() as int));
    assert(bytes =~= (bytes + trailing).subrange(0, bytes.len() as int));
    lemma_leading_payload_is_decoded(payload, bytes);
    lemma_leading_payload_is_decoded(payload, bytes + trailing);
}

/// Fields whose kind number stands for no kind are no payload, and since they
/// lead `body`, no payload does.
proof fn lemma_unknown_kind_carries_nothing(
    fields: (Seq<char>, Seq<char>, Seq<char>, Seq<char>, Option<Seq<char>>, Seq<char>, u32),
    body: Seq<u8>,
)
    requires
        wire_fields(
            fields.0,
            fields.1,
            fields.2,
            fields.3,
            fields.4,
            fields.5,
            fields.6,
        ).is_prefix_of(body),
        body.len() <= u64::MAX,
        forall|kind: EventKind| kind.wire_index() != fields.6,
    ensures
        decoding(body) is None,
{
    assert forall|any: FileEventPayloadView| !any.leads(body) by {
        if any.leads(body) {
            lemma_fields_lead_once(
                (
                    any.user_id,
                    any.app_id,
                    any.file_name,
                    any.file_id,
                    any.file_reference,
                    any.issuer,
                    any.kind.wire_index(),
                ),
                fields,
                body,
            );
        }
    }
}

/// The data of a file related event, as it is emitted and handled.
#[derive(Debug)]
pub struct FileEventPayload {
    user_id: String,
    app_id: String,
    file_name: String,
    file_id: String,
    file_reference: Option<String>,
    issuer: String,
    kind: EventKind,
}

impl View for FileEventPayload {
    type V = FileEventPayloadView;

    closed spec fn view(&self) -> FileEventPayloadView {
        FileEventPayloadView {
            issuer: self.issuer@,
            user_id: self.user_id@,
            app_id: self.app_id@,
            file_name: self.file_name@,
            file_id: self.file_id@,
            file_reference: text_of(self.file_reference),
            kind: self.kind,
        }
    }
}

impl FileEventPayload {
    pub fn new(
        issuer: String,
        user_id: String,
        app_id: String,
        file_name: String,
        file_id: String,
        file_reference: Option<String>,
        kind: EventKind,
    ) -> (payload: Self)
        ensures
            payload@ == (FileEventPayloadView {
                issuer: issuer@,
                user_id: user_id@,
                app_id: app_id@,
                file_name: file_name@,
                file_id: file_id@,
                file_reference: text_of(file_reference),
                kind,
            }),
    {
        FileEventPayload { issuer, user_id, app_id, file_name, file_id, file_reference, kind }
    }

    pub fn issuer(&self) -> (issuer: &str)
        ensures
            issuer@ == self@.issuer,
    {
        self.issuer.as_str()
    }

    pub fn user_id(&self) -> (user_id: &str)
        ensures
            user_id@ == self@.user_id,
    {
        self.user_id.as_str()
    }

    pub fn app_id(&self) -> (app_id: &str)
        ensures
            app_id@ == self@.app_id,
    {
        self.app_id.as_str()
    }

    pub fn file_name(&self) -> (file_name: &str)
        ensures
            file_name@ == self@.file_name,
    {
        self.file_name.as_str()
    }

    pub fn file_id(&self) -> (file_id: &str)
        ensures
            file_id@ == self@.file_id,
    {
        self.file_id.as_str()
    }

    pub fn file_reference(&self) -> (file_reference: Option<&str>)
        ensures
            optional_text(file_reference) == self@.file_reference,
    {
        match &self.file_reference {
            Some(key) => Some(key.as_str()),
            None => None,
        }
    }

    pub fn kind(&self) -> (kind: EventKind)
        ensures
            kind == self@.kind,
    {
        self.kind
    }

    /// What becomes of bincode's answer to writing a payload: its bytes, or
    /// `Unknown` for whatever bincode reported.
    pub fn encoded(wire: Result<Vec<u8>, bincode::Error>) -> (bytes: Result<Vec<u8>, Error>)
        ensures
            match wire {
                Ok(written) => bytes == Ok::<Vec<u8>, Error>(written),
                Err(_) => bytes == Err::<Vec<u8>, Error>(Error::Unknown),
            },
    {
        match wire {
            Ok(written) => Ok(written),
            Err(_) => Err(Error::Unknown),
        }
    }

    /// The bytes that carry this payload. Bincode writes them, and it
    /// always can: every payload has its bytes.
    pub fn encode(&self) -> (bytes: Result<Vec<u8>, Error>)
        ensures
            bytes matches Ok(written) && written@ == self@.encoding() && decoding(written@)
                == Some(self@),
    {
        let wire = to_wire(
            self.user_id.as_str(),
            self.app_id.as_str(),
            self.file_name.as_str(),
            self.file_id.as_str(),
            self.file_reference(),
            self.issuer.as_str(),
            self.kind.index(),
        );
        proof {
            if wire is Ok {
                assert(wire->Ok_0.len() == wire->Ok_0@.len());
                lemma_decoding_inverts_encoding(self@, Seq::empty());
            }
        }
        Self::encoded(wire)
    }

    /// The payload that `body` carries. Bincode reads the fields; the kind is
    /// then told from its number. A body that carries no payload is answered
    /// with `Unknown`.
    pub fn decode(body: &[u8]) -> (payload: Result<Self, Error>)
        ensures
            match payload {
                Ok(found) => decoding(body@) == Some(found@),
                Err(error) => error == Error::Unknown && decoding(body@) is None,
            },
    {
        match from_wire(body) {
            Ok(fields) => {
                let ghost raw = (
                    fields.0@,
                    fields.1@,
                    fields.2@,
                    fields.3@,
                    text_of(fields.4),
                    fields.5@,
                    fields.6,
                );
                match EventKind::from_index(fields.6) {
                    Some(kind) => {
                        let found = FileEventPayload {
                            user_id: fields.0,
                            app_id: fields.1,
                            file_name: fields.2,
                            file_id: fields.3,
                            file_reference: fields.4,
                            issuer: fields.5,
                            kind,
                        };
                        proof {
                            assert(body.len() == body@.len());
                            lemma_leading_payload_is_decoded(found@, body@);
                        }
                        Ok(found)
                    },
                    None => {
                        proof {
                            assert(body.len() == body@.len());
                            lemma_unknown_kind_carries_nothing(raw, body@);
                        }
                        Err(Error::Unknown)
                    },
                }
            },
            Err(_) => Err(Error::Unknown),
        }
    }
}

} // verus!
