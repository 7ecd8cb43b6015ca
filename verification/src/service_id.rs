//! Identities: uuids, account and phone-number identities, and service ids.
//!
//! The view of a uuid, and of an identity, is its sixteen bytes.
use vstd::prelude::*;

use crate::text;

verus! {

/// The device id of an account's first device.
pub const DEFAULT_DEVICE_ID: u32 = 1;

/// A uuid, as its sixteen bytes.
#[derive(Debug, Clone, Copy, Eq, Hash)]
pub struct Uuid {
    pub bytes: [u8; 16],
}

impl PartialEq for Uuid {
    fn eq(&self, other: &Self) -> (r: bool) {
        text::bytes_equal(&self.bytes, &other.bytes)
    }
}

impl vstd::std_specs::cmp::PartialEqSpecImpl for Uuid {
    open spec fn obeys_eq_spec() -> bool {
        true
    }

    open spec fn eq_spec(&self, other: &Self) -> bool {
        self.deep_view() == other.deep_view()
    }
}

impl DeepView for Uuid {
    type V = Seq<u8>;

    open spec fn deep_view(&self) -> Seq<u8> {
        self.bytes@
    }
}

/// The bytes of a uuid: sixteen of them, or it is none.
pub open spec fn uuid_bytes(bytes: Seq<u8>) -> Option<Seq<u8>> {
    if bytes.len() == 16 {
        Some(bytes)
    } else {
        None
    }
}

impl Uuid {
    pub fn from_bytes(bytes: [u8; 16]) -> (uuid: Uuid)
        ensures
            uuid.deep_view() == bytes@,
    {
        Uuid { bytes }
    }

    pub fn into_bytes(self) -> (bytes: [u8; 16])
        ensures
            bytes@ == self.deep_view(),
    {
        self.bytes
    }

    /// The uuid with these sixteen bytes; `None` for any other number of bytes.
    pub fn from_slice(bytes: &[u8]) -> (uuid: Option<Uuid>)
        ensures
            uuid.deep_view() == uuid_bytes(bytes@),
    {
        match sixteen(bytes) {
            Some(bytes) => Some(Uuid { bytes }),
            None => None,
        }
    }

    pub fn to_vec(&self) -> (bytes: Vec<u8>)
        ensures
            bytes@ == self.deep_view(),
    {
        let bytes = vstd::slice::slice_to_vec(&self.bytes);
        assert(bytes@ =~= self.bytes@);
        bytes
    }

    /// The hyphenated lower-case text.
    pub fn to_string(&self) -> (text: String)
        ensures
            text@ == text::uuid_text(self.deep_view()),
    {
        text::uuid_to_string(self.bytes)
    }

    /// Reads a uuid's text, in any of the usual forms.
    pub fn parse_str(text: &str) -> (uuid: Option<Uuid>)
        ensures
            uuid.deep_view() == text::parsed_uuid(text@),
            forall|bytes: Seq<u8>|
                bytes.len() == 16 && text@ == #[trigger] text::uuid_text(bytes)
                    ==> text::parsed_uuid(text@) == Some(bytes),
    {
        match text::uuid_parse(text) {
            Some(bytes) => Some(Uuid { bytes }),
            None => None,
        }
    }
}

/// Exactly sixteen bytes, as an array.
pub fn sixteen(bytes: &[u8]) -> (r: Option<[u8; 16]>)
    ensures
        match r {
            Some(array) => array@ == bytes@,
            None => bytes@.len() != 16,
        },
{
    if bytes.len() != 16 {
        return None;
    }
    let mut array: [u8; 16] = [0u8; 16];
    let mut i: usize = 0;
    while i < 16
        invariant
            i <= 16,
            bytes@.len() == 16,
            forall|j: int| 0 <= j < i ==> array@[j] == bytes@[j],
        decreases 16 - i,
    {
        array[i] = bytes[i];
        i = i + 1;
    }
    assert(array@ =~= bytes@);
    Some(array)
}

/// Exactly thirty-two bytes, as an array.
pub fn thirty_two(bytes: &[u8]) -> (r: Option<[u8; 32]>)
    ensures
        match r {
            Some(array) => array@ == bytes@,
            None => bytes@.len() != 32,
        },
{
    if bytes.len() != 32 {
        return None;
    }
    let mut array: [u8; 32] = [0u8; 32];
    let mut i: usize = 0;
    while i < 32
        invariant
            i <= 32,
            bytes@.len() == 32,
            forall|j: int| 0 <= j < i ==> array@[j] == bytes@[j],
        decreases 32 - i,
    {
        array[i] = bytes[i];
        i = i + 1;
    }
    assert(array@ =~= bytes@);
    Some(array)
}

/// An account identity.
#[derive(Debug, Clone, Copy, Eq, Hash)]
pub struct Aci {
    pub uuid: Uuid,
}

impl PartialEq for Aci {
    fn eq(&self, other: &Self) -> (r: bool) {
        self.uuid == other.uuid
    }
}

impl vstd::std_specs::cmp::PartialEqSpecImpl for Aci {
    open spec fn obeys_eq_spec() -> bool {
        true
    }

    open spec fn eq_spec(&self, other: &Self) -> bool {
        self.deep_view() == other.deep_view()
    }
}

impl DeepView for Aci {
    type V = Seq<u8>;

    open spec fn deep_view(&self) -> Seq<u8> {
        self.uuid.bytes@
    }
}

impl Aci {
    pub fn from_uuid_bytes(bytes: [u8; 16]) -> (id: Aci)
        ensures
            id.deep_view() == bytes@,
    {
        Aci { uuid: Uuid { bytes } }
    }

    pub fn service_id_string(&self) -> (text: String)
        ensures
            text@ == service_id_text(ServiceIdView::Aci(self.deep_view())),
    {
        ServiceId::Aci(*self).service_id_string()
    }
}

impl From<Uuid> for Aci {
    fn from(uuid: Uuid) -> (id: Aci) {
        Aci { uuid }
    }
}

impl vstd::std_specs::convert::FromSpecImpl<Uuid> for Aci {
    open spec fn obeys_from_spec() -> bool {
        true
    }

    open spec fn from_spec(uuid: Uuid) -> Aci {
        Aci { uuid }
    }
}

impl From<Aci> for Uuid {
    fn from(id: Aci) -> (uuid: Uuid) {
        id.uuid
    }
}

impl vstd::std_specs::convert::FromSpecImpl<Aci> for Uuid {
    open spec fn obeys_from_spec() -> bool {
        true
    }

    open spec fn from_spec(id: Aci) -> Uuid {
        id.uuid
    }
}

impl From<Aci> for ServiceId {
    fn from(id: Aci) -> (service_id: ServiceId) {
        ServiceId::Aci(id)
    }
}

impl vstd::std_specs::convert::FromSpecImpl<Aci> for ServiceId {
    open spec fn obeys_from_spec() -> bool {
        true
    }

    open spec fn from_spec(id: Aci) -> ServiceId {
        ServiceId::Aci(id)
    }
}

/// A phone-number identity.
#[derive(Debug, Clone, Copy, Eq, Hash)]
pub struct Pni {
    pub uuid: Uuid,
}

impl PartialEq for Pni {
    fn eq(&self, other: &Self) -> (r: bool) {
        self.uuid == other.uuid
    }
}

impl vstd::std_specs::cmp::PartialEqSpecImpl for Pni {
    open spec fn obeys_eq_spec() -> bool {
        true
    }

    open spec fn eq_spec(&self, other: &Self) -> bool {
        self.deep_view() == other.deep_view()
    }
}

impl DeepView for Pni {
    type V = Seq<u8>;

    open spec fn deep_view(&self) -> Seq<u8> {
        self.uuid.bytes@
    }
}

impl Pni {
    pub fn from_uuid_bytes(bytes: [u8; 16]) -> (id: Pni)
        ensures
            id.deep_view() == bytes@,
    {
        Pni { uuid: Uuid { bytes } }
    }

    pub fn service_id_string(&self) -> (text: String)
        ensures
            text@ == service_id_text(ServiceIdView::Pni(self.deep_view())),
    {
        ServiceId::Pni(*self).service_id_string()
    }
}

impl From<Uuid> for Pni {
    fn from(uuid: Uuid) -> (id: Pni) {
        Pni { uuid }
    }
}

impl vstd::std_specs::convert::FromSpecImpl<Uuid> for Pni {
    open spec fn obeys_from_spec() -> bool {
        true
    }

    open spec fn from_spec(uuid: Uuid) -> Pni {
        Pni { uuid }
    }
}

impl From<Pni> for Uuid {
    fn from(id: Pni) -> (uuid: Uuid) {
        id.uuid
    }
}

impl vstd::std_specs::convert::FromSpecImpl<Pni> for Uuid {
    open spec fn obeys_from_spec() -> bool {
        true
    }

    open spec fn from_spec(id: Pni) -> Uuid {
        id.uuid
    }
}

impl From<Pni> for ServiceId {
    fn from(id: Pni) -> (service_id: ServiceId) {
        ServiceId::Pni(id)
    }
}

impl vstd::std_specs::convert::FromSpecImpl<Pni> for ServiceId {
    open spec fn obeys_from_spec() -> bool {
        true
    }

    open spec fn from_spec(id: Pni) -> ServiceId {
        ServiceId::Pni(id)
    }
}

/// Which identity of an account a service id names.
#[derive(Debug, Clone, Copy, PartialEq, Eq, Hash, Structural)]
pub enum ServiceIdKind {
    Aci,
    Pni,
}

/// An account, by one of its two identities.
#[derive(Debug, Clone, Copy, Eq, Hash)]
pub enum ServiceId {
    Aci(Aci),
    Pni(Pni),
}

/// What a [`ServiceId`] holds.
#[verifier::ext_equal]
pub enum ServiceIdView {
    Aci(Seq<u8>),
    Pni(Seq<u8>),
}

impl PartialEq for ServiceId {
    fn eq(&self, other: &Self) -> (r: bool) {
        match (self, other) {
            (ServiceId::Aci(a), ServiceId::Aci(b)) => *a == *b,
            (ServiceId::Pni(a), ServiceId::Pni(b)) => *a == *b,
            _ => false,
        }
    }
}

impl vstd::std_specs::cmp::PartialEqSpecImpl for ServiceId {
    open spec fn obeys_eq_spec() -> bool {
        true
    }

    open spec fn eq_spec(&self, other: &Self) -> bool {
        self.deep_view() == other.deep_view()
    }
}

impl DeepView for ServiceId {
    type V = ServiceIdView;

    open spec fn deep_view(&self) -> ServiceIdView {
        match self {
            ServiceId::Aci(id) => ServiceIdView::Aci(id.deep_view()),
            ServiceId::Pni(id) => ServiceIdView::Pni(id.deep_view()),
        }
    }
}

impl ServiceIdView {
    /// The uuid, whichever identity it is of.
    pub open spec fn raw(self) -> Seq<u8> {
        match self {
            ServiceIdView::Aci(bytes) => bytes,
            ServiceIdView::Pni(bytes) => bytes,
        }
    }

    /// The account identity, where this is one.
    pub open spec fn aci(self) -> Option<Seq<u8>> {
        match self {
            ServiceIdView::Aci(bytes) => Some(bytes),
            ServiceIdView::Pni(_) => None,
        }
    }

    pub open spec fn well_formed(self) -> bool {
        self.raw().len() == 16
    }
}

/// What stands before the uuid of a phone-number identity.
pub open spec fn pni_prefix() -> Seq<char> {
    seq!['P', 'N', 'I', ':']
}

/// The text of a service id: the uuid alone for an account identity, `PNI:` and the
/// uuid for a phone-number identity.
pub open spec fn service_id_text(id: ServiceIdView) -> Seq<char> {
    match id {
        ServiceIdView::Aci(bytes) => text::uuid_text(bytes),
        ServiceIdView::Pni(bytes) => pni_prefix() + text::uuid_text(bytes),
    }
}

/// A uuid in the one form that a service id's text uses: 36 bytes long.
pub open spec fn hyphenated_uuid(text: Seq<char>) -> Option<Seq<u8>> {
    if vstd::utf8::encode_utf8(text).len() == 36 {
        text::parsed_uuid(text)
    } else {
        None
    }
}

/// What [`ServiceId::parse_from_service_id_string`] reads.
pub open spec fn service_id_of_text(text: Seq<char>) -> Option<ServiceIdView> {
    if text.len() >= 4 && text.take(4) == pni_prefix() {
        match hyphenated_uuid(text.skip(4)) {
            Some(bytes) => Some(ServiceIdView::Pni(bytes)),
            None => None,
        }
    } else {
        match hyphenated_uuid(text) {
            Some(bytes) => Some(ServiceIdView::Aci(bytes)),
            None => None,
        }
    }
}

/// The binary form of a service id: the bare uuid for an account identity, a `1` byte
/// and the uuid for a phone-number identity.
pub open spec fn service_id_bytes(id: ServiceIdView) -> Seq<u8> {
    match id {
        ServiceIdView::Aci(bytes) => bytes,
        ServiceIdView::Pni(bytes) => seq![1u8] + bytes,
    }
}

/// What [`ServiceId::parse_from_service_id_binary`] reads.
pub open spec fn service_id_of_bytes(bytes: Seq<u8>) -> Option<ServiceIdView> {
    if bytes.len() == 16 {
        Some(ServiceIdView::Aci(bytes))
    } else if bytes.len() == 17 && bytes[0] == 1 {
        Some(ServiceIdView::Pni(bytes.skip(1)))
    } else {
        None
    }
}

fn parse_hyphenated(text: &str) -> (uuid: Option<Uuid>)
    ensures
        uuid.deep_view() == hyphenated_uuid(text@),
        forall|bytes: Seq<u8>|
            bytes.len() == 16 && text@ == #[trigger] text::uuid_text(bytes) ==> uuid.deep_view()
                == Some(bytes),
{
    proof {
        assert forall|bytes: Seq<u8>|
            bytes.len() == 16 && text@ == #[trigger] text::uuid_text(
                bytes,
            ) implies vstd::utf8::encode_utf8(text@).len() == 36 by {
            lemma_uuid_text(bytes);
        }
    }
    if text.as_bytes().len() != 36 {
        return None;
    }
    Uuid::parse_str(text)
}

impl ServiceId {
    pub fn kind(&self) -> (kind: ServiceIdKind)
        ensures
            kind == (match self.deep_view() {
                ServiceIdView::Aci(_) => ServiceIdKind::Aci,
                ServiceIdView::Pni(_) => ServiceIdKind::Pni,
            }),
    {
        match self {
            ServiceId::Aci(_) => ServiceIdKind::Aci,
            ServiceId::Pni(_) => ServiceIdKind::Pni,
        }
    }

    /// The uuid, whichever identity it is of.
    pub fn raw_uuid(&self) -> (uuid: Uuid)
        ensures
            uuid.deep_view() == self.deep_view().raw(),
    {
        match self {
            ServiceId::Aci(id) => id.uuid,
            ServiceId::Pni(id) => id.uuid,
        }
    }

    /// The account identity, where this is one.
    pub fn aci(&self) -> (aci: Option<Aci>)
        ensures
            aci.deep_view() == self.deep_view().aci(),
    {
        match self {
            ServiceId::Aci(id) => Some(*id),
            ServiceId::Pni(_) => None,
        }
    }

    pub fn service_id_string(&self) -> (text: String)
        ensures
            text@ == service_id_text(self.deep_view()),
    {
        match self {
            ServiceId::Aci(id) => id.uuid.to_string(),
            ServiceId::Pni(id) => {
                let uuid = id.uuid.to_string();
                proof {
                    reveal_strlit("PNI:");
                    assert("PNI:"@ =~= pni_prefix());
                }
                "PNI:".to_owned().concat(uuid.as_str())
            },
        }
    }

    /// Reads the text form. Only the hyphenated form of a uuid is taken. What
    /// [`Self::service_id_string`] wrote reads back as the id it was written for.
    pub fn parse_from_service_id_string(text: &str) -> (id: Option<ServiceId>)
        ensures
            id.deep_view() == service_id_of_text(text@),
            forall|written: ServiceIdView|
                written.well_formed() && text@ == #[trigger] service_id_text(written)
                    ==> id.deep_view() == Some(written),
    {
        proof {
            assert forall|written: ServiceIdView|
                written.well_formed() && text@ == #[trigger] service_id_text(
                    written,
                ) implies text@.len() >= 4 && (text@.take(4) == pni_prefix() <==> written is Pni)
                && (written is Pni ==> text@.skip(4) == text::uuid_text(written.raw())) by {
                lemma_uuid_text(written.raw());
                if written is Pni {
                    assert(text@.take(4) =~= pni_prefix());
                    assert(text@.skip(4) =~= text::uuid_text(written.raw()));
                }
            }
        }
        let len: usize = text.unicode_len();
        if len >= 4 {
            let prefix = text.substring_char(0, 4);
            proof {
                reveal_strlit("PNI:");
                assert("PNI:"@ =~= pni_prefix());
                assert(prefix@ =~= text@.take(4));
            }
            if text::str_equal(prefix, "PNI:") {
                let rest = text.substring_char(4, len);
                proof {
                    assert(rest@ =~= text@.skip(4));
                }
                return match parse_hyphenated(rest) {
                    Some(uuid) => Some(ServiceId::Pni(Pni { uuid })),
                    None => None,
                };
            }
        }
        match parse_hyphenated(text) {
            Some(uuid) => Some(ServiceId::Aci(Aci { uuid })),
            None => None,
        }
    }

    pub fn service_id_binary(&self) -> (bytes: Vec<u8>)
        ensures
            bytes@ == service_id_bytes(self.deep_view()),
    {
        match self {
            ServiceId::Aci(id) => id.uuid.to_vec(),
            ServiceId::Pni(id) => {
                let mut bytes: Vec<u8> = Vec::new();
                bytes.push(1u8);
                let mut uuid = id.uuid.to_vec();
                bytes.append(&mut uuid);
                assert(bytes@ =~= seq![1u8] + id.deep_view());
                bytes
            },
        }
    }

    /// Reads the binary form.
    pub fn parse_from_service_id_binary(bytes: &[u8]) -> (id: Option<ServiceId>)
        ensures
            id.deep_view() == service_id_of_bytes(bytes@),
    {
        match sixteen(bytes) {
            Some(array) => Some(ServiceId::Aci(Aci::from_uuid_bytes(array))),
            None => {
                if bytes.len() == 17 && bytes[0] == 1 {
                    let rest = vstd::slice::slice_subrange(bytes, 1, 17);
                    assert(rest@ =~= bytes@.skip(1));
                    match sixteen(rest) {
                        Some(array) => Some(ServiceId::Pni(Pni::from_uuid_bytes(array))),
                        None => None,
                    }
                } else {
                    None
                }
            },
        }
    }
}

/// A service id's binary form reads back as that service id.
pub proof fn law_binary_round_trip(id: ServiceIdView)
    requires
        id.well_formed(),
    ensures
        service_id_of_bytes(service_id_bytes(id)) == Some(id),
{
    if let ServiceIdView::Pni(bytes) = id {
        assert((seq![1u8] + bytes).skip(1) =~= bytes);
    }
}

/// The text of a uuid is 36 ASCII characters, and does not start as that of a
/// phone-number identity does.
pub proof fn lemma_uuid_text(bytes: Seq<u8>)
    requires
        bytes.len() == 16,
    ensures
        text::uuid_text(bytes).len() == 36,
        vstd::utf8::encode_utf8(text::uuid_text(bytes)).len() == 36,
        text::uuid_text(bytes).take(4) != pni_prefix(),
{
    let t = text::uuid_text(bytes);
    assert(t[0] == text::hex_text(bytes.subrange(0, 4))[0]);
    assert(t.take(4)[0] == t[0]);
    assert(pni_prefix()[0] == 'P');
    assert forall|i: int| 0 <= i < t.len() implies (#[trigger] t[i] as u32) < 128 by {
        lemma_hex_text_ascii(bytes.subrange(0, 4));
        lemma_hex_text_ascii(bytes.subrange(4, 6));
        lemma_hex_text_ascii(bytes.subrange(6, 8));
        lemma_hex_text_ascii(bytes.subrange(8, 10));
        lemma_hex_text_ascii(bytes.subrange(10, 16));
    }
    assert(vstd::utf8::is_ascii_chars(t));
    vstd::utf8::is_ascii_chars_encode_utf8(t);
}

proof fn lemma_hex_text_ascii(bytes: Seq<u8>)
    ensures
        forall|i: int|
            0 <= i < 2 * bytes.len() ==> (#[trigger] text::hex_text(bytes)[i] as u32) < 128,
{
    assert forall|i: int| 0 <= i < 2 * bytes.len() implies (#[trigger] text::hex_text(
        bytes,
    )[i] as u32) < 128 by {
        let byte = bytes[i / 2];
        assert(0 <= byte as int / 16 < 16);
        assert(0 <= byte as int % 16 < 16);
    }
}

/// The binary form of an account identity is its uuid; that of a phone number identity has a one
/// before it.
pub proof fn law_the_binary_form_tells_the_kind(id: ServiceId, bytes: Vec<u8>)
    requires
        call_ensures(ServiceId::service_id_binary, (&id,), bytes),
    ensures
        id matches ServiceId::Aci(aci) ==> bytes@ == aci.uuid.bytes@,
        id matches ServiceId::Pni(pni) ==> bytes@.len() == 17 && bytes@[0] == 1 && bytes@.skip(1)
            == pni.uuid.bytes@,
{
    if let ServiceId::Pni(pni) = id {
        let uuid = pni.uuid.bytes;
        assert(uuid@.len() == 16);
        assert((seq![1u8] + uuid@).skip(1) =~= uuid@);
    }
}

/// The written form of an account identity is its uuid; that of a phone number identity says so
/// before it.
pub proof fn law_the_written_form_tells_the_kind(id: ServiceId, text: String)
    requires
        call_ensures(ServiceId::service_id_string, (&id,), text),
    ensures
        id matches ServiceId::Aci(aci) ==> text@ == text::uuid_text(aci.uuid.bytes@),
        id matches ServiceId::Pni(pni) ==> text@.take(4) == "PNI:"@ && text@.skip(4)
            == text::uuid_text(pni.uuid.bytes@),
{
    reveal_strlit("PNI:");
    if let ServiceId::Pni(pni) = id {
        let uuid = text::uuid_text(pni.uuid.bytes@);
        assert((pni_prefix() + uuid).take(4) =~= "PNI:"@);
        assert((pni_prefix() + uuid).skip(4) =~= uuid);
    }
}

/// An identity that is written reads back, in writing and in bytes.
pub proof fn law_a_written_identity_reads_back(
    id: ServiceId,
    text: String,
    written: &str,
    bytes: &[u8],
    binary: Vec<u8>,
    of_text: Option<ServiceId>,
    of_bytes: Option<ServiceId>,
)
    requires
        call_ensures(ServiceId::service_id_string, (&id,), text),
        written@ == text@,
        call_ensures(ServiceId::parse_from_service_id_string, (written,), of_text),
        call_ensures(ServiceId::service_id_binary, (&id,), binary),
        bytes@ == binary@,
        call_ensures(ServiceId::parse_from_service_id_binary, (bytes,), of_bytes),
    ensures
        of_text is Some && of_text->0.deep_view() == id.deep_view(),
        of_bytes is Some && of_bytes->0.deep_view() == id.deep_view(),
{
    let uuid = match id {
        ServiceId::Aci(aci) => aci.uuid.bytes,
        ServiceId::Pni(pni) => pni.uuid.bytes,
    };
    assert(uuid@.len() == 16);
    assert(id.deep_view().well_formed());
    law_binary_round_trip(id.deep_view());
    if of_text is Some {
        assert(of_text.deep_view() == Some(of_text->0.deep_view()));
    }
    if of_bytes is Some {
        assert(of_bytes.deep_view() == Some(of_bytes->0.deep_view()));
    }
}

/// Bytes are an identity where they are sixteen, or seventeen of which the first is a one.
pub proof fn law_other_bytes_are_no_identity(bytes: &[u8], id: Option<ServiceId>)
    requires
        call_ensures(ServiceId::parse_from_service_id_binary, (bytes,), id),
    ensures
        id is Some <==> bytes@.len() == 16 || (bytes@.len() == 17 && bytes@[0] == 1),
        bytes@.len() == 16 ==> id->0 is Aci && id->0->Aci_0.uuid.bytes@ == bytes@,
        bytes@.len() == 17 && bytes@[0] == 1 ==> id->0 is Pni && id->0->Pni_0.uuid.bytes@
            == bytes@.skip(1),
{
    if id is Some {
        assert(id.deep_view() == Some(id->0.deep_view()));
    }
}

/// An identity is of one kind, and only one of the account has an account identity; both have
/// their uuid.
pub proof fn law_an_identity_is_of_one_kind(
    id: ServiceId,
    kind: ServiceIdKind,
    uuid: Uuid,
    aci: Option<Aci>,
)
    requires
        call_ensures(ServiceId::kind, (&id,), kind),
        call_ensures(ServiceId::raw_uuid, (&id,), uuid),
        call_ensures(ServiceId::aci, (&id,), aci),
    ensures
        kind is Aci <==> id is Aci,
        kind is Pni <==> id is Pni,
        id matches ServiceId::Aci(of) ==> uuid.bytes@ == of.uuid.bytes@ && aci is Some
            && aci->0.uuid.bytes@ == of.uuid.bytes@,
        id matches ServiceId::Pni(of) ==> uuid.bytes@ == of.uuid.bytes@ && aci is None,
{
}

/// A uuid is its sixteen bytes, and any sixteen bytes are one.
pub proof fn law_a_uuid_is_its_bytes(bytes: &[u8], uuid: Option<Uuid>, back: Vec<u8>)
    requires
        call_ensures(Uuid::from_slice, (bytes,), uuid),
        uuid is Some ==> call_ensures(Uuid::to_vec, (&uuid->0,), back),
    ensures
        uuid is Some <==> bytes@.len() == 16,
        uuid is Some ==> uuid->0.bytes@ == bytes@ && back@ == bytes@,
{
}

} // verus!
