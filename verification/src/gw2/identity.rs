//! The identity document of the Mumble link.
use vstd::prelude::*;
use vstd::utf8::encode_utf8;
use crate::float_bits::{compare_equal, equal};
use crate::text::{decode_utf16, owned, utf16_text};

verus! {

/// Bytes of the fixed-size name, its terminating NUL included.
pub const IDENTITY_NAME_CAPACITY: usize = 20;

/// Redaction-safe failure categories for Mumble identity parsing.
#[derive(Clone, Copy, Debug, PartialEq, Eq, Structural)]
pub enum IdentityParseError {
    /// No identity document was present.
    Empty,
    /// The shared UTF-16 buffer contains an invalid sequence.
    InvalidUtf16,
    /// The decoded document is not the expected JSON object.
    InvalidJson,
    /// The UTF-8 name would not fit the fixed-size array.
    NameTooLong,
    /// A name contained an interior nul byte.
    EmbeddedNul,
}

impl IdentityParseError {
    /// The message of the failure.
    pub open spec fn text(self) -> Seq<char> {
        match self {
            Self::Empty => "the Mumble identity document is empty"@,
            Self::InvalidUtf16 => "the Mumble identity document is not valid UTF-16"@,
            Self::InvalidJson => "the Mumble identity document is not valid identity JSON"@,
            Self::NameTooLong => "the Mumble identity name exceeds the legacy ABI capacity"@,
            Self::EmbeddedNul => "the Mumble identity name contains an embedded nul"@,
        }
    }

    /// Formats the failure for diagnostics.
    pub fn to_string(&self) -> (text: String)
        ensures
            text@ == self.text(),
    {
        match self {
            Self::Empty => owned("the Mumble identity document is empty"),
            Self::InvalidUtf16 => owned("the Mumble identity document is not valid UTF-16"),
            Self::InvalidJson => owned("the Mumble identity document is not valid identity JSON"),
            Self::NameTooLong => owned("the Mumble identity name exceeds the legacy ABI capacity"),
            Self::EmbeddedNul => owned("the Mumble identity name contains an embedded nul"),
        }
    }
}

/// The fields of an identity document.
#[derive(Clone, Debug)]
pub struct IdentityDocument {
    /// Character name.
    pub name: String,
    /// Profession.
    pub profession: u8,
    /// Specialization.
    pub spec: u32,
    /// Race.
    pub race: u8,
    /// Map.
    pub map_id: u32,
    /// World.
    pub world_id: u32,
    /// Team color.
    pub team_color_id: u32,
    /// Whether the character is a commander.
    pub commander: bool,
    /// Vertical field of view, as the bit pattern of a single-precision number.
    pub fov: u32,
    /// Interface size.
    pub uisz: u8,
}

/// A validated identity with a fixed-size name.
#[derive(Clone, Copy, Debug)]
pub struct MumbleIdentity {
    /// Character name in UTF-8, filled up with NULs.
    pub name: [u8; 20],
    /// Profession.
    pub profession: u8,
    /// Specialization.
    pub specialization: u32,
    /// Race.
    pub race: u8,
    /// Map.
    pub map_id: u32,
    /// World.
    pub world_id: u32,
    /// Team color.
    pub team_color_id: u32,
    /// One for a commander, zero otherwise.
    pub is_commander: u8,
    /// Vertical field of view, as the bit pattern of a single-precision number.
    pub fov: u32,
    /// Interface size.
    pub ui_size: u8,
}

impl Default for MumbleIdentity {
    fn default() -> (identity: Self)
        ensures
            identity@ == blank_identity(),
    {
        let identity = Self {
            name: [0; 20],
            profession: 0,
            specialization: 0,
            race: 0,
            map_id: 0,
            world_id: 0,
            team_color_id: 0,
            is_commander: 0,
            fov: 0,
            ui_size: 0,
        };
        proof {
            assert(identity.name@ =~= blank_identity().name);
        }
        identity
    }
}

/// An identity in terms of sequences.
#[verifier::ext_equal]
pub struct IdentityView {
    /// Character name, filled up with NULs.
    pub name: Seq<u8>,
    /// Profession.
    pub profession: u8,
    /// Specialization.
    pub specialization: u32,
    /// Race.
    pub race: u8,
    /// Map.
    pub map_id: u32,
    /// World.
    pub world_id: u32,
    /// Team color.
    pub team_color_id: u32,
    /// One for a commander, zero otherwise.
    pub is_commander: u8,
    /// Vertical field of view.
    pub fov: u32,
    /// Interface size.
    pub ui_size: u8,
}

/// The identity of nobody.
pub open spec fn blank_identity() -> IdentityView {
    IdentityView {
        name: Seq::new(IDENTITY_NAME_CAPACITY as nat, |i: int| 0u8),
        profession: 0,
        specialization: 0,
        race: 0,
        map_id: 0,
        world_id: 0,
        team_color_id: 0,
        is_commander: 0,
        fov: 0,
        ui_size: 0,
    }
}

impl View for MumbleIdentity {
    type V = IdentityView;

    open spec fn view(&self) -> IdentityView {
        IdentityView {
            name: self.name@,
            profession: self.profession,
            specialization: self.specialization,
            race: self.race,
            map_id: self.map_id,
            world_id: self.world_id,
            team_color_id: self.team_color_id,
            is_commander: self.is_commander,
            fov: self.fov,
            ui_size: self.ui_size,
        }
    }
}

/// Whether two identities are the same. The field of view is compared as a
/// number.
pub open spec fn same_identity(left: IdentityView, right: IdentityView) -> bool {
    &&& left == (IdentityView { fov: left.fov, ..right })
    &&& compare_equal(left.fov, right.fov)
}

impl vstd::std_specs::cmp::PartialEqSpecImpl for MumbleIdentity {
    open spec fn obeys_eq_spec() -> bool {
        true
    }

    open spec fn eq_spec(&self, other: &Self) -> bool {
        same_identity(self@, other@)
    }
}

impl PartialEq for MumbleIdentity {
    fn eq(&self, other: &Self) -> (same: bool) {
        let mut i: usize = 0;
        while i < IDENTITY_NAME_CAPACITY
            invariant
                i <= IDENTITY_NAME_CAPACITY,
                forall|j: int| 0 <= j < i ==> #[trigger] self.name@[j] == other.name@[j],
            decreases IDENTITY_NAME_CAPACITY - i,
        {
            if self.name[i] != other.name[i] {
                proof {
                    assert(self.name@[i as int] != other.name@[i as int]);
                }
                return false;
            }
            i = i + 1;
        }
        proof {
            assert(self.name@ =~= other.name@);
        }
        self.profession == other.profession && self.specialization == other.specialization
            && self.race == other.race && self.map_id == other.map_id && self.world_id
            == other.world_id && self.team_color_id == other.team_color_id && self.is_commander
            == other.is_commander && self.ui_size == other.ui_size && equal(self.fov, other.fov)
    }
}

/// Where the document ends: at its first NUL, or at the end of the buffer.
pub open spec fn document_length(units: Seq<u16>) -> int
    decreases units.len(),
{
    if units.len() == 0 || units[0] == 0 {
        0
    } else {
        1 + document_length(units.skip(1))
    }
}

proof fn lemma_document_length(units: Seq<u16>, end: int)
    requires
        0 <= end <= units.len(),
        forall|i: int| 0 <= i < end ==> #[trigger] units[i] != 0,
        end < units.len() ==> units[end] == 0,
    ensures
        document_length(units) == end,
    decreases units.len(),
{
    if end > 0 {
        assert(units[0] != 0);
        let rest = units.skip(1);
        assert forall|i: int| 0 <= i < end - 1 implies #[trigger] rest[i] != 0 by {
            assert(rest[i] == units[i + 1]);
        }
        lemma_document_length(rest, end - 1);
    }
}

/// The text of the document, or why there is none.
pub open spec fn document_text(units: Seq<u16>) -> Result<Seq<char>, IdentityParseError> {
    let end = document_length(units);
    if end == 0 {
        Err(IdentityParseError::Empty)
    } else {
        match decode_utf16(units.take(end)) {
            Some(text) => Ok(text),
            None => Err(IdentityParseError::InvalidUtf16),
        }
    }
}

/// Returns the text of the identity document up to its terminating NUL.
pub fn identity_text(units: &[u16]) -> (text: Result<String, IdentityParseError>)
    ensures
        match text {
            Ok(text) => document_text(units@) == Ok::<Seq<char>, IdentityParseError>(text@),
            Err(error) => document_text(units@) == Err::<Seq<char>, IdentityParseError>(error),
        },
{
    let mut end: usize = 0;
    while end < units.len() && units[end] != 0
        invariant
            end <= units@.len(),
            forall|i: int| 0 <= i < end ==> #[trigger] units@[i] != 0,
        decreases units@.len() - end,
    {
        end = end + 1;
    }
    proof {
        lemma_document_length(units@, end as int);
        assert(units@.subrange(0, end as int) =~= units@.take(end as int));
    }
    if end == 0 {
        return Err(IdentityParseError::Empty);
    }
    match utf16_text(vstd::slice::slice_subrange(units, 0, end)) {
        Some(text) => Ok(text),
        None => Err(IdentityParseError::InvalidUtf16),
    }
}

/// A name in UTF-8, filled up with NULs.
pub open spec fn fixed_name(name: Seq<u8>) -> Seq<u8> {
    Seq::new(
        IDENTITY_NAME_CAPACITY as nat,
        |i: int|
            if i < name.len() {
                name[i]
            } else {
                0
            },
    )
}

/// The identity that a document describes, or why it describes none.
pub open spec fn described_identity(document: IdentityDocument) -> Result<
    IdentityView,
    IdentityParseError,
> {
    let name = encode_utf8(document.name@);
    if name.contains(0) {
        Err(IdentityParseError::EmbeddedNul)
    } else if name.len() >= IDENTITY_NAME_CAPACITY {
        Err(IdentityParseError::NameTooLong)
    } else {
        Ok(
            IdentityView {
                name: fixed_name(name),
                profession: document.profession,
                specialization: document.spec,
                race: document.race,
                map_id: document.map_id,
                world_id: document.world_id,
                team_color_id: document.team_color_id,
                is_commander: if document.commander {
                    1
                } else {
                    0
                },
                fov: document.fov,
                ui_size: document.uisz,
            },
        )
    }
}

/// Validates a document. Every field is validated before any identity exists,
/// and an oversized name cannot overflow the fixed-size array.
pub fn identity_of(document: &IdentityDocument) -> (identity: Result<
    MumbleIdentity,
    IdentityParseError,
>)
    ensures
        match identity {
            Ok(identity) => described_identity(*document) == Ok::<IdentityView, IdentityParseError>(
                identity@,
            ),
            Err(error) => described_identity(*document) == Err::<IdentityView, IdentityParseError>(
                error,
            ),
        },
{
    let bytes = document.name.as_str().as_bytes();
    let mut i: usize = 0;
    while i < bytes.len()
        invariant
            i <= bytes@.len(),
            bytes@ == encode_utf8(document.name@),
            forall|j: int| 0 <= j < i ==> #[trigger] bytes@[j] != 0,
        decreases bytes@.len() - i,
    {
        if bytes[i] == 0 {
            proof {
                assert(bytes@.contains(0)) by {
                    assert(bytes@[i as int] == 0);
                }
            }
            return Err(IdentityParseError::EmbeddedNul);
        }
        i = i + 1;
    }
    if bytes.len() >= IDENTITY_NAME_CAPACITY {
        return Err(IdentityParseError::NameTooLong);
    }
    let mut name: [u8; 20] = [0; 20];
    let mut next: usize = 0;
    while next < bytes.len()
        invariant
            next <= bytes@.len() < IDENTITY_NAME_CAPACITY,
            name@ == fixed_name(bytes@.take(next as int)),
        decreases bytes@.len() - next,
    {
        name[next] = bytes[next];
        next = next + 1;
        proof {
            assert(name@ =~= fixed_name(bytes@.take(next as int)));
        }
    }
    proof {
        assert(bytes@.take(bytes@.len() as int) =~= bytes@);
    }
    Ok(
        MumbleIdentity {
            name,
            profession: document.profession,
            specialization: document.spec,
            race: document.race,
            map_id: document.map_id,
            world_id: document.world_id,
            team_color_id: document.team_color_id,
            is_commander: if document.commander {
                1
            } else {
                0
            },
            fov: document.fov,
            ui_size: document.uisz,
        },
    )
}

/// What parsing can result in: `parse_document` reads the text of the document
/// as identity JSON, and its reply decides between the two last stages.
pub open spec fn is_parsed<F: FnOnce(String) -> Option<IdentityDocument>>(
    units: Seq<u16>,
    parse_document: F,
    identity: Result<MumbleIdentity, IdentityParseError>,
) -> bool {
    match document_text(units) {
        Err(error) => identity == Err::<MumbleIdentity, IdentityParseError>(error),
        Ok(text) => exists|json: String, document: Option<IdentityDocument>|
            {
                &&& #[trigger] call_ensures(parse_document, (json,), document)
                &&& json@ == text
                &&& match document {
                    None => identity == Err::<MumbleIdentity, IdentityParseError>(
                        IdentityParseError::InvalidJson,
                    ),
                    Some(document) => match described_identity(document) {
                        Ok(described) => identity matches Ok(parsed) && parsed@ == described,
                        Err(error) => identity == Err::<MumbleIdentity, IdentityParseError>(error),
                    },
                }
            },
    }
}

/// Parses one nul-terminated UTF-16 identity document. `parse_document` reads
/// the text as identity JSON.
pub fn parse_identity<F: FnOnce(String) -> Option<IdentityDocument>>(
    units: &[u16],
    parse_document: F,
) -> (identity: Result<MumbleIdentity, IdentityParseError>)
    requires
        forall|json: String| call_requires(parse_document, (json,)),
    ensures
        is_parsed(units@, parse_document, identity),
{
    let json = match identity_text(units) {
        Ok(json) => json,
        Err(error) => return Err(error),
    };
    let ghost text = json;
    let document = parse_document(json);
    let ghost read = document;
    proof {
        assert(call_ensures(parse_document, (text,), read));
    }
    match document {
        None => Err(IdentityParseError::InvalidJson),
        Some(document) => identity_of(&document),
    }
}

/// A name that is accepted is terminated within its array, and up to there it
/// is the document's.
pub proof fn law_accepted_names_are_terminated(document: IdentityDocument)
    requires
        described_identity(document) is Ok,
    ensures
        ({
            let name = described_identity(document)->Ok_0.name;
            let written = encode_utf8(document.name@);
            &&& name.len() == IDENTITY_NAME_CAPACITY
            &&& name.take(written.len() as int) == written
            &&& name[written.len() as int] == 0
            &&& name[IDENTITY_NAME_CAPACITY - 1] == 0
        }),
{
    let name = described_identity(document)->Ok_0.name;
    let written = encode_utf8(document.name@);
    assert(name.take(written.len() as int) =~= written);
}

/// An identity takes every field from the field of the document that it is
/// named after, and a commander counts as one.
pub proof fn law_an_identity_is_its_document(document: IdentityDocument)
    ensures
        described_identity(document) matches Ok(identity) ==> {
            &&& identity.profession == document.profession
            &&& identity.specialization == document.spec
            &&& identity.race == document.race
            &&& identity.map_id == document.map_id
            &&& identity.world_id == document.world_id
            &&& identity.team_color_id == document.team_color_id
            &&& identity.is_commander == 1 <==> document.commander
            &&& identity.is_commander == 0 <==> !document.commander
            &&& identity.fov == document.fov
            &&& identity.ui_size == document.uisz
        },
{
}

/// A name is refused for an embedded nul first and for its length next, and
/// taken otherwise: nineteen bytes fit, and twenty do not.
pub proof fn law_names_are_refused_in_order(document: IdentityDocument)
    ensures
        ({
            let name = encode_utf8(document.name@);
            let described = described_identity(document);
            &&& name.contains(0) <==> described == Err::<IdentityView, _>(
                IdentityParseError::EmbeddedNul,
            )
            &&& !name.contains(0) && name.len() > 19 <==> described == Err::<IdentityView, _>(
                IdentityParseError::NameTooLong,
            )
            &&& !name.contains(0) && name.len() <= 19 <==> described is Ok
        }),
{
}

/// Two identities are the same exactly where each of their fields is, and the
/// fields of view compare as numbers.
pub proof fn law_identities_are_compared_in_every_field(left: IdentityView, right: IdentityView)
    ensures
        same_identity(left, right) <==> {
            &&& left.name == right.name
            &&& left.profession == right.profession
            &&& left.specialization == right.specialization
            &&& left.race == right.race
            &&& left.map_id == right.map_id
            &&& left.world_id == right.world_id
            &&& left.team_color_id == right.team_color_id
            &&& left.is_commander == right.is_commander
            &&& left.ui_size == right.ui_size
            &&& compare_equal(left.fov, right.fov)
        },
{
}

/// A document ends at its first nul, or with the units it was given.
pub proof fn law_a_document_ends_at_its_first_nul(units: Seq<u16>, i: int)
    ensures
        0 <= document_length(units) <= units.len(),
        0 <= i < document_length(units) ==> units[i] != 0,
        document_length(units) < units.len() ==> units[document_length(units)] == 0,
        document_length(units) == 0 <==> document_text(units) == Err::<Seq<char>, _>(
            IdentityParseError::Empty,
        ),
    decreases units.len(),
{
    if units.len() > 0 && units[0] != 0 {
        law_a_document_ends_at_its_first_nul(units.skip(1), i - 1);
    }
}

/// A blank identity has no name and no number.
pub proof fn law_a_blank_identity_is_empty(i: int)
    ensures
        blank_identity().name.len() == 20,
        0 <= i < 20 ==> blank_identity().name[i] == 0,
        blank_identity().profession == 0 && blank_identity().specialization == 0,
        blank_identity().race == 0 && blank_identity().map_id == 0,
        blank_identity().world_id == 0 && blank_identity().team_color_id == 0,
        blank_identity().is_commander == 0 && blank_identity().fov == 0,
        blank_identity().ui_size == 0,
{
}

} // verus!
