//! Validating native add-on definitions and owning their metadata.
use vstd::prelude::*;
use vstd::utf8::{encode_utf8, valid_utf8};
use crate::host::api_table::{requested_revision, ApiRevision, ApiTableError};
use crate::text::{decimal, owned, utf8_text, Message};

verus! {

/// Largest limit that may be configured for a metadata field.
pub const MAX_CONFIGURED_FIELD_BYTES: usize = 1048576;

/// A string field borrowed from a native add-on definition.
#[derive(Clone, Copy, Debug, PartialEq, Eq, Structural)]
pub enum MetadataField {
    /// Add-on display name.
    Name,
    /// Add-on author.
    Author,
    /// Add-on description.
    Description,
    /// Optional update URL.
    UpdateLink,
}

/// The name of a field in diagnostics.
pub open spec fn field_name(field: MetadataField) -> Seq<char> {
    match field {
        MetadataField::Name => "Name"@,
        MetadataField::Author => "Author"@,
        MetadataField::Description => "Description"@,
        MetadataField::UpdateLink => "UpdateLink"@,
    }
}

impl MetadataField {
    /// Returns the name of the field.
    pub fn label(self) -> (label: &'static str)
        ensures
            label@ == field_name(self),
    {
        match self {
            Self::Name => "Name",
            Self::Author => "Author",
            Self::Description => "Description",
            Self::UpdateLink => "UpdateLink",
        }
    }
}

/// Maximum UTF-8 payload length accepted for each metadata field.
///
/// Limits exclude the terminating NUL. Validation reads at most one additional
/// byte so an exact-limit string can still be told apart from an unbounded one.
#[derive(Clone, Copy, Debug, PartialEq, Eq)]
pub struct MetadataLimits {
    name: usize,
    author: usize,
    description: usize,
    update_link: usize,
}

/// The first field whose limit is over the maximum, with that limit.
pub open spec fn excessive_limit(
    name: usize,
    author: usize,
    description: usize,
    update_link: usize,
) -> Option<(MetadataField, usize)> {
    if name > MAX_CONFIGURED_FIELD_BYTES {
        Some((MetadataField::Name, name))
    } else if author > MAX_CONFIGURED_FIELD_BYTES {
        Some((MetadataField::Author, author))
    } else if description > MAX_CONFIGURED_FIELD_BYTES {
        Some((MetadataField::Description, description))
    } else if update_link > MAX_CONFIGURED_FIELD_BYTES {
        Some((MetadataField::UpdateLink, update_link))
    } else {
        None
    }
}

impl MetadataLimits {
    /// No limit is over the maximum.
    #[verifier::type_invariant]
    spec fn bounded(self) -> bool {
        &&& self.name <= MAX_CONFIGURED_FIELD_BYTES
        &&& self.author <= MAX_CONFIGURED_FIELD_BYTES
        &&& self.description <= MAX_CONFIGURED_FIELD_BYTES
        &&& self.update_link <= MAX_CONFIGURED_FIELD_BYTES
    }

    /// The limit of one field.
    pub closed spec fn limit(self, field: MetadataField) -> usize {
        match field {
            MetadataField::Name => self.name,
            MetadataField::Author => self.author,
            MetadataField::Description => self.description,
            MetadataField::UpdateLink => self.update_link,
        }
    }

    /// Builds validated per-field limits.
    pub fn new(name: usize, author: usize, description: usize, update_link: usize) -> (limits:
        Result<Self, MetadataLimitError>)
        ensures
            match excessive_limit(name, author, description, update_link) {
                Some((field, requested)) => limits matches Err(error) && error.names(
                    field,
                    requested,
                    MAX_CONFIGURED_FIELD_BYTES,
                ),
                None => limits matches Ok(limits) && limits.limit(MetadataField::Name) == name
                    && limits.limit(MetadataField::Author) == author && limits.limit(
                    MetadataField::Description,
                ) == description && limits.limit(MetadataField::UpdateLink) == update_link,
            },
    {
        if name > MAX_CONFIGURED_FIELD_BYTES {
            return Err(MetadataLimitError::exceeding(MetadataField::Name, name));
        }
        if author > MAX_CONFIGURED_FIELD_BYTES {
            return Err(MetadataLimitError::exceeding(MetadataField::Author, author));
        }
        if description > MAX_CONFIGURED_FIELD_BYTES {
            return Err(MetadataLimitError::exceeding(MetadataField::Description, description));
        }
        if update_link > MAX_CONFIGURED_FIELD_BYTES {
            return Err(MetadataLimitError::exceeding(MetadataField::UpdateLink, update_link));
        }
        Ok(Self { name, author, description, update_link })
    }

    /// Returns the limit of one field.
    pub fn for_field(self, field: MetadataField) -> (limit: usize)
        ensures
            limit == self.limit(field),
            limit <= MAX_CONFIGURED_FIELD_BYTES,
    {
        proof {
            use_type_invariant(self);
        }
        match field {
            MetadataField::Name => self.name,
            MetadataField::Author => self.author,
            MetadataField::Description => self.description,
            MetadataField::UpdateLink => self.update_link,
        }
    }
}

impl Default for MetadataLimits {
    fn default() -> (limits: Self)
        ensures
            limits.limit(MetadataField::Name) == 255,
            limits.limit(MetadataField::Author) == 255,
            limits.limit(MetadataField::Description) == 4096,
            limits.limit(MetadataField::UpdateLink) == 2048,
    {
        Self { name: 255, author: 255, description: 4096, update_link: 2048 }
    }
}

/// An invalid metadata-limit configuration.
#[derive(Clone, Copy, Debug, PartialEq, Eq)]
pub struct MetadataLimitError {
    field: MetadataField,
    requested: usize,
    maximum: usize,
}

impl MetadataLimitError {
    /// Which field asked for which limit, and the maximum it exceeds.
    pub closed spec fn names(self, field: MetadataField, requested: usize, maximum: usize) -> bool {
        self.field == field && self.requested == requested && self.maximum == maximum
    }

    /// The message of the failure.
    pub closed spec fn text(self) -> Seq<char> {
        limit_text(self.field, self.requested, self.maximum)
    }

    fn exceeding(field: MetadataField, requested: usize) -> (error: Self)
        ensures
            error.names(field, requested, MAX_CONFIGURED_FIELD_BYTES),
    {
        Self { field, requested, maximum: MAX_CONFIGURED_FIELD_BYTES }
    }

    /// Formats the failure for diagnostics.
    pub fn to_string(&self) -> (text: String)
        ensures
            text@ == self.text(),
            forall|field: MetadataField, requested: usize, maximum: usize| #[trigger]
                self.names(field, requested, maximum) ==> text@ == limit_text(
                    field,
                    requested,
                    maximum,
                ),
    {
        let mut message = Message::new();
        message.text(self.field.label());
        message.text(" metadata limit ");
        message.number(self.requested as u64);
        message.text(" exceeds the hard safety maximum of ");
        message.number(self.maximum as u64);
        message.text(" bytes");
        proof {
            assert(message@ =~= self.text());
        }
        message.finish()
    }
}

/// The message about a limit over the maximum.
pub open spec fn limit_text(field: MetadataField, requested: usize, maximum: usize) -> Seq<char> {
    field_name(field) + " metadata limit "@ + decimal(requested as nat)
        + " exceeds the hard safety maximum of "@ + decimal(maximum as nat) + " bytes"@
}

/// A bounded native-memory read failure reported by a platform adapter.
#[derive(Clone, Debug, PartialEq, Eq)]
pub struct ModuleReadError {
    message: String,
}

impl ModuleReadError {
    /// The message of the failure.
    pub closed spec fn text(self) -> Seq<char> {
        self.message@
    }

    /// Creates a platform-neutral memory-read error without exposing memory.
    pub fn new(message: &str) -> (error: Self)
        ensures
            error.text() == message@,
    {
        Self { message: owned(message) }
    }

    /// Formats the failure for diagnostics.
    pub fn to_string(&self) -> (text: String)
        ensures
            text@ == self.text(),
    {
        owned(self.message.as_str())
    }
}

/// Failure to acquire an add-on definition while its module is live.
#[derive(Clone, Debug, PartialEq, Eq)]
pub struct ModuleAccessError {
    message: String,
}

impl ModuleAccessError {
    /// The message of the failure.
    pub closed spec fn text(self) -> Seq<char> {
        self.message@
    }

    /// Creates a platform-neutral module-access error.
    pub fn new(message: &str) -> (error: Self)
        ensures
            error.text() == message@,
    {
        Self { message: owned(message) }
    }

    /// Formats the failure for diagnostics.
    pub fn to_string(&self) -> (text: String)
        ensures
            text@ == self.text(),
    {
        owned(self.message.as_str())
    }
}

/// The four numbers of an add-on version.
#[derive(Clone, Copy, Debug, PartialEq, Eq, Structural)]
pub struct Version {
    /// Major version.
    pub major: u16,
    /// Minor version.
    pub minor: u16,
    /// Build number.
    pub build: u16,
    /// Revision number.
    pub revision: u16,
}

/// The flags of an add-on definition.
#[derive(Clone, Copy, Debug, PartialEq, Eq, Structural)]
pub struct AddonDefinitionFlags {
    /// The add-on may neither be loaded nor unloaded while the process runs.
    pub disable_hot_loading: bool,
    /// The add-on may be loaded at process start only.
    pub launch_only: bool,
    /// Every other bit, retained as it was.
    pub other_bits: u32,
}

/// How an add-on is updated, including unknown retained values.
#[derive(Clone, Copy, Debug, PartialEq, Eq, Structural)]
pub struct UpdateProvider {
    /// The raw value.
    pub value: u32,
}

/// A definition as a native module exports it. Addresses are zero where the
/// module supplied none.
#[derive(Clone, Copy, Debug, PartialEq, Eq, Structural)]
pub struct AddonDefinition {
    /// Stable add-on signature.
    pub signature: u32,
    /// Requested API revision.
    pub api_version: u32,
    /// Address of the display name.
    pub name: usize,
    /// Version of the add-on.
    pub version: Version,
    /// Address of the author.
    pub author: usize,
    /// Address of the description.
    pub description: usize,
    /// Address of the load callback.
    pub load: usize,
    /// Address of the unload callback.
    pub unload: usize,
    /// Definition flags.
    pub flags: AddonDefinitionFlags,
    /// Update provider.
    pub provider: UpdateProvider,
    /// Address of the update URL.
    pub update_link: usize,
}

/// Bounded access to addresses owned by one currently live native module.
///
/// Implementations must never read more than `maximum_bytes`. The host also
/// checks the returned slice length, so a faulty adapter is rejected before any
/// metadata is accepted.
pub trait ModuleMemory {
    /// Borrows up to `maximum_bytes` starting at `address`.
    fn read_bounded(&self, address: usize, maximum_bytes: usize) -> Result<&[u8], ModuleReadError>;
}

/// A raw definition and memory reader tied to one live module borrow.
///
/// The lease contains no ownership of the module. Its lifetime prevents the
/// host from retaining borrowed metadata after the module adapter is released.
pub struct DefinitionLease<'module, M: ModuleMemory> {
    definition: &'module AddonDefinition,
    memory: &'module M,
}

impl<'module, M: ModuleMemory> DefinitionLease<'module, M> {
    /// The definition of the lease.
    pub closed spec fn raw(self) -> AddonDefinition {
        *self.definition
    }

    /// The reader of the lease.
    pub closed spec fn reader(self) -> M {
        *self.memory
    }

    /// Couples a raw definition with the reader for its live module.
    pub fn new(definition: &'module AddonDefinition, memory: &'module M) -> (lease: Self)
        ensures
            lease.raw() == *definition,
            lease.reader() == *memory,
    {
        Self { definition, memory }
    }
}

/// Injected provider that keeps a native module live for a definition lease.
pub trait LiveAddonModule {
    /// Reads the memory of the module.
    type Memory: ModuleMemory;

    /// Borrows the exported definition and its bounded memory reader.
    fn definition(&self) -> Result<DefinitionLease<'_, Self::Memory>, ModuleAccessError>;
}

/// A validated add-on definition containing no pointers into native memory.
#[derive(Clone, Debug, PartialEq, Eq)]
pub struct OwnedAddonDefinition {
    signature: u32,
    api_revision: ApiRevision,
    name: String,
    version: Version,
    author: String,
    description: String,
    flags: AddonDefinitionFlags,
    provider: UpdateProvider,
    update_link: Option<String>,
    has_unload_callback: bool,
}

/// What an owned definition holds.
pub struct DefinitionView {
    /// Stable add-on signature.
    pub signature: u32,
    /// Requested host API revision.
    pub api_revision: ApiRevision,
    /// Display name.
    pub name: Seq<char>,
    /// Version of the add-on.
    pub version: Version,
    /// Author.
    pub author: Seq<char>,
    /// Description.
    pub description: Seq<char>,
    /// Definition flags.
    pub flags: AddonDefinitionFlags,
    /// Update provider.
    pub provider: UpdateProvider,
    /// Update URL.
    pub update_link: Option<Seq<char>>,
    /// Whether there is an unload callback.
    pub has_unload_callback: bool,
}

impl View for OwnedAddonDefinition {
    type V = DefinitionView;

    closed spec fn view(&self) -> DefinitionView {
        DefinitionView {
            signature: self.signature,
            api_revision: self.api_revision,
            name: self.name@,
            version: self.version,
            author: self.author@,
            description: self.description@,
            flags: self.flags,
            provider: self.provider,
            update_link: link_view(self.update_link),
            has_unload_callback: self.has_unload_callback,
        }
    }
}

/// The characters of an optional text.
pub open spec fn link_view(link: Option<String>) -> Option<Seq<char>> {
    match link {
        Some(link) => Some(link@),
        None => None,
    }
}

impl OwnedAddonDefinition {
    /// Returns the stable add-on signature.
    pub fn signature(&self) -> (signature: u32)
        ensures
            signature == self@.signature,
    {
        self.signature
    }

    /// Returns the requested host API revision.
    pub fn api_revision(&self) -> (revision: ApiRevision)
        ensures
            revision == self@.api_revision,
    {
        self.api_revision
    }

    /// Returns the owned add-on display name.
    pub fn name(&self) -> (name: &str)
        ensures
            name@ == self@.name,
    {
        self.name.as_str()
    }

    /// Returns the add-on version.
    pub fn version(&self) -> (version: Version)
        ensures
            version == self@.version,
    {
        self.version
    }

    /// Returns the owned author name.
    pub fn author(&self) -> (author: &str)
        ensures
            author@ == self@.author,
    {
        self.author.as_str()
    }

    /// Returns the owned description.
    pub fn description(&self) -> (description: &str)
        ensures
            description@ == self@.description,
    {
        self.description.as_str()
    }

    /// Returns the definition flags, including unknown retained bits.
    pub fn flags(&self) -> (flags: AddonDefinitionFlags)
        ensures
            flags == self@.flags,
    {
        self.flags
    }

    /// Returns the update provider, including unknown retained values.
    pub fn provider(&self) -> (provider: UpdateProvider)
        ensures
            provider == self@.provider,
    {
        self.provider
    }

    /// Returns the owned optional update URL.
    pub fn update_link(&self) -> (link: Option<&str>)
        ensures
            match link {
                Some(link) => self@.update_link == Some(link@),
                None => self@.update_link is None,
            },
    {
        match &self.update_link {
            Some(link) => Some(link.as_str()),
            None => None,
        }
    }

    /// Returns whether the raw definition supplied an unload callback.
    pub fn has_unload_callback(&self) -> (present: bool)
        ensures
            present == self@.has_unload_callback,
    {
        self.has_unload_callback
    }
}

/// Failure to validate and own a native definition.
#[derive(Clone, Debug, PartialEq, Eq)]
pub enum DefinitionError {
    /// The module could not provide a live definition lease.
    ModuleAccess(ModuleAccessError),
    /// The signature must be non-zero.
    ZeroSignature,
    /// A load callback is required by every API revision.
    MissingLoadCallback,
    /// An unload callback is required unless hot loading is disabled.
    MissingUnloadCallback,
    /// The requested API revision is unsupported.
    ApiRevision(ApiTableError),
    /// A required metadata pointer was null.
    NullMetadata {
        /// Field whose pointer was null.
        field: MetadataField,
    },
    /// A platform reader could not safely access metadata.
    MemoryRead {
        /// Field being copied.
        field: MetadataField,
        /// Reader failure.
        source: ModuleReadError,
    },
    /// A platform reader returned more bytes than requested.
    ReaderExceededBound {
        /// Field being copied.
        field: MetadataField,
        /// Requested maximum, including room for a NUL.
        requested: usize,
        /// Bytes returned by the reader.
        returned: usize,
    },
    /// No NUL terminator appeared within the configured bound.
    UnterminatedMetadata {
        /// Unterminated field.
        field: MetadataField,
        /// Maximum accepted payload size.
        maximum: usize,
    },
    /// Metadata before the NUL terminator was not valid UTF-8.
    InvalidUtf8 {
        /// Invalid field.
        field: MetadataField,
    },
}

impl DefinitionError {
    /// The message of the failure.
    pub open spec fn text(self) -> Seq<char> {
        match self {
            Self::ModuleAccess(error) => "could not inspect the live add-on module: "@
                + error.text(),
            Self::ZeroSignature => "add-on signature must be non-zero"@,
            Self::MissingLoadCallback => "add-on definition is missing its required load callback"@,
            Self::MissingUnloadCallback => {
                "add-on definition has no unload callback and does not disable hot loading"@
            },
            Self::ApiRevision(error) => error.text(),
            Self::NullMetadata { field } => "required add-on "@ + field_name(field)
                + " metadata pointer is null"@,
            Self::MemoryRead { field, source } => "could not read add-on "@ + field_name(field)
                + " metadata: "@ + source.text(),
            Self::ReaderExceededBound { field, requested, returned } => "add-on "@ + field_name(
                field,
            ) + " reader returned "@ + decimal(returned as nat) + " bytes after a "@ + decimal(
                requested as nat,
            ) + "-byte request"@,
            Self::UnterminatedMetadata { field, maximum } => "add-on "@ + field_name(field)
                + " metadata has no NUL terminator within "@ + decimal(maximum as nat) + " bytes"@,
            Self::InvalidUtf8 { field } => "add-on "@ + field_name(field)
                + " metadata is not valid UTF-8"@,
        }
    }

    /// Formats the failure for diagnostics.
    pub fn to_string(&self) -> (text: String)
        ensures
            text@ == self.text(),
    {
        let mut message = Message::new();
        match self {
            Self::ModuleAccess(error) => {
                message.text("could not inspect the live add-on module: ");
                message.text(error.message.as_str());
            },
            Self::ZeroSignature => message.text("add-on signature must be non-zero"),
            Self::MissingLoadCallback => {
                message.text("add-on definition is missing its required load callback")
            },
            Self::MissingUnloadCallback => {
                message.text(
                    "add-on definition has no unload callback and does not disable hot loading",
                )
            },
            Self::ApiRevision(error) => return error.to_string(),
            Self::NullMetadata { field } => {
                message.text("required add-on ");
                message.text(field.label());
                message.text(" metadata pointer is null");
            },
            Self::MemoryRead { field, source } => {
                message.text("could not read add-on ");
                message.text(field.label());
                message.text(" metadata: ");
                message.text(source.message.as_str());
            },
            Self::ReaderExceededBound { field, requested, returned } => {
                message.text("add-on ");
                message.text(field.label());
                message.text(" reader returned ");
                message.number(*returned as u64);
                message.text(" bytes after a ");
                message.number(*requested as u64);
                message.text("-byte request");
            },
            Self::UnterminatedMetadata { field, maximum } => {
                message.text("add-on ");
                message.text(field.label());
                message.text(" metadata has no NUL terminator within ");
                message.number(*maximum as u64);
                message.text(" bytes");
            },
            Self::InvalidUtf8 { field } => {
                message.text("add-on ");
                message.text(field.label());
                message.text(" metadata is not valid UTF-8");
            },
        }
        proof {
            assert(message@ =~= self.text());
        }
        message.finish()
    }
}

/// What is wrong with a definition before any of its metadata is read.
pub open spec fn header_failure(definition: AddonDefinition) -> Option<DefinitionError> {
    if definition.signature == 0 {
        Some(DefinitionError::ZeroSignature)
    } else if requested_revision(definition.api_version) is Err {
        Some(
            DefinitionError::ApiRevision(
                ApiTableError::UnsupportedRevision { requested: definition.api_version },
            ),
        )
    } else if definition.load == 0 {
        Some(DefinitionError::MissingLoadCallback)
    } else if definition.unload == 0 && !definition.flags.disable_hot_loading {
        Some(DefinitionError::MissingUnloadCallback)
    } else {
        None
    }
}

/// Checks everything about a definition but its metadata, and names the API
/// revision it asks for.
pub fn validate_header(definition: &AddonDefinition) -> (revision: Result<
    ApiRevision,
    DefinitionError,
>)
    ensures
        match revision {
            Ok(revision) => header_failure(*definition) is None && requested_revision(
                definition.api_version,
            ) == Ok::<ApiRevision, ApiTableError>(revision),
            Err(error) => header_failure(*definition) == Some(error),
        },
{
    if definition.signature == 0 {
        return Err(DefinitionError::ZeroSignature);
    }
    let api_revision = match ApiRevision::try_from(definition.api_version) {
        Ok(revision) => revision,
        Err(error) => return Err(DefinitionError::ApiRevision(error)),
    };
    if definition.load == 0 {
        return Err(DefinitionError::MissingLoadCallback);
    }
    if definition.unload == 0 && !definition.flags.disable_hot_loading {
        return Err(DefinitionError::MissingUnloadCallback);
    }
    Ok(api_revision)
}

/// The first NUL of the bytes stands at a position.
pub open spec fn terminated_at(bytes: Seq<u8>, at: int) -> bool {
    &&& 0 <= at < bytes.len()
    &&& bytes[at] == 0
    &&& forall|i: int| 0 <= i < at ==> bytes[i] != 0
}

/// The text before the first NUL of what a reader returned, or why there is
/// none.
pub open spec fn is_copied_text(
    field: MetadataField,
    maximum: usize,
    reply: Result<&[u8], ModuleReadError>,
    result: Result<String, DefinitionError>,
) -> bool {
    match reply {
        Err(source) => result == Err::<String, DefinitionError>(
            DefinitionError::MemoryRead { field, source },
        ),
        Ok(bytes) => {
            if bytes@.len() > maximum + 1 {
                result == Err::<String, DefinitionError>(
                    DefinitionError::ReaderExceededBound {
                        field,
                        requested: (maximum + 1) as usize,
                        returned: bytes@.len() as usize,
                    },
                )
            } else if forall|i: int| 0 <= i < bytes@.len() ==> bytes@[i] != 0 {
                result == Err::<String, DefinitionError>(
                    DefinitionError::UnterminatedMetadata { field, maximum },
                )
            } else {
                exists|at: int| #[trigger]
                    terminated_at(bytes@, at) && match result {
                        Ok(text) => {
                            &&& valid_utf8(bytes@.subrange(0, at))
                            &&& encode_utf8(text@) == bytes@.subrange(0, at)
                        },
                        Err(error) => {
                            &&& !valid_utf8(bytes@.subrange(0, at))
                            &&& error == DefinitionError::InvalidUtf8 { field }
                        },
                    }
            }
        },
    }
}

/// Copies the text that a reader returned for a field.
pub fn copied_text(
    field: MetadataField,
    maximum: usize,
    reply: Result<&[u8], ModuleReadError>,
) -> (result: Result<String, DefinitionError>)
    requires
        maximum < usize::MAX,
    ensures
        is_copied_text(field, maximum, reply, result),
{
    let requested: usize = maximum + 1;
    let bytes = match reply {
        Ok(bytes) => bytes,
        Err(source) => return Err(DefinitionError::MemoryRead { field, source }),
    };
    if bytes.len() > requested {
        return Err(
            DefinitionError::ReaderExceededBound { field, requested, returned: bytes.len() },
        );
    }
    let mut at: usize = 0;
    while at < bytes.len() && bytes[at] != 0
        invariant
            at <= bytes@.len(),
            forall|i: int| 0 <= i < at ==> bytes@[i] != 0,
        decreases bytes@.len() - at,
    {
        at = at + 1;
    }
    if at == bytes.len() {
        return Err(DefinitionError::UnterminatedMetadata { field, maximum });
    }
    proof {
        assert(terminated_at(bytes@, at as int));
        assert(bytes@[at as int] == 0);
    }
    match utf8_text(vstd::slice::slice_subrange(bytes, 0, at)) {
        Some(text) => Ok(text),
        None => Err(DefinitionError::InvalidUtf8 { field }),
    }
}

/// What copying the metadata at an address can result in.
pub open spec fn read_outcome<M: ModuleMemory>(
    memory: M,
    address: usize,
    field: MetadataField,
    limits: MetadataLimits,
    result: Result<String, DefinitionError>,
) -> bool {
    exists|reply: Result<&[u8], ModuleReadError>| #[trigger]
        is_copied_text(field, limits.limit(field), reply, result) && call_ensures(
            M::read_bounded,
            (&memory, address, (limits.limit(field) + 1) as usize),
            reply,
        )
}

fn copy_at<M: ModuleMemory>(
    memory: &M,
    address: usize,
    field: MetadataField,
    limits: MetadataLimits,
) -> (result: Result<String, DefinitionError>)
    ensures
        read_outcome(*memory, address, field, limits, result),
{
    let maximum = limits.for_field(field);
    let reply = memory.read_bounded(address, maximum + 1);
    let ghost reading = reply;
    let result = copied_text(field, maximum, reply);
    proof {
        assert(is_copied_text(field, limits.limit(field), reading, result));
    }
    result
}

/// What copying a required field can result in.
pub open spec fn required_outcome<M: ModuleMemory>(
    memory: M,
    pointer: usize,
    field: MetadataField,
    limits: MetadataLimits,
    result: Result<String, DefinitionError>,
) -> bool {
    if pointer == 0 {
        result == Err::<String, DefinitionError>(DefinitionError::NullMetadata { field })
    } else {
        read_outcome(memory, pointer, field, limits, result)
    }
}

fn copy_required<M: ModuleMemory>(
    memory: &M,
    pointer: usize,
    field: MetadataField,
    limits: MetadataLimits,
) -> (result: Result<String, DefinitionError>)
    ensures
        required_outcome(*memory, pointer, field, limits, result),
{
    if pointer == 0 {
        return Err(DefinitionError::NullMetadata { field });
    }
    copy_at(memory, pointer, field, limits)
}

/// An optional text that was copied: an empty one counts as none.
pub open spec fn optional_text(text: String) -> Option<Seq<char>> {
    if text@.len() == 0 {
        None
    } else {
        Some(text@)
    }
}

/// What copying an optional field can result in.
pub open spec fn optional_outcome<M: ModuleMemory>(
    memory: M,
    pointer: usize,
    field: MetadataField,
    limits: MetadataLimits,
    result: Result<Option<String>, DefinitionError>,
) -> bool {
    if pointer == 0 {
        result == Ok::<Option<String>, DefinitionError>(None)
    } else {
        exists|text: Result<String, DefinitionError>| #[trigger]
            read_outcome(memory, pointer, field, limits, text) && match text {
                Ok(text) => result matches Ok(link) && link_view(link) == optional_text(text),
                Err(error) => result == Err::<Option<String>, DefinitionError>(error),
            }
    }
}

fn copy_optional<M: ModuleMemory>(
    memory: &M,
    pointer: usize,
    field: MetadataField,
    limits: MetadataLimits,
) -> (result: Result<Option<String>, DefinitionError>)
    ensures
        optional_outcome(*memory, pointer, field, limits, result),
{
    if pointer == 0 {
        return Ok(None);
    }
    let text = copy_at(memory, pointer, field, limits);
    let ghost copied = text;
    proof {
        assert(read_outcome(*memory, pointer, field, limits, copied));
    }
    match text {
        Ok(text) => {
            if text.as_str().unicode_len() == 0 {
                Ok(None)
            } else {
                Ok(Some(text))
            }
        },
        Err(error) => Err(error),
    }
}

/// What a definition amounts to once its metadata has been copied.
pub open spec fn assembled(
    definition: AddonDefinition,
    name: Seq<char>,
    author: Seq<char>,
    description: Seq<char>,
    update_link: Option<Seq<char>>,
) -> DefinitionView {
    DefinitionView {
        signature: definition.signature,
        api_revision: requested_revision(definition.api_version)->Ok_0,
        name,
        version: definition.version,
        author,
        description,
        flags: definition.flags,
        provider: definition.provider,
        update_link,
        has_unload_callback: definition.unload != 0,
    }
}

/// What owning a leased definition can result in: its header is judged first,
/// then the fields are copied in order, and the first failure decides.
pub open spec fn lease_outcome<M: ModuleMemory>(
    definition: AddonDefinition,
    memory: M,
    limits: MetadataLimits,
    result: Result<OwnedAddonDefinition, DefinitionError>,
) -> bool {
    match header_failure(definition) {
        Some(error) => result == Err::<OwnedAddonDefinition, DefinitionError>(error),
        None => exists|name: Result<String, DefinitionError>| #[trigger]
            required_outcome(memory, definition.name, MetadataField::Name, limits, name)
                && match name {
                Err(error) => result == Err::<OwnedAddonDefinition, DefinitionError>(error),
                Ok(name) => authored_outcome(definition, memory, limits, name@, result),
            },
    }
}

/// The part of the outcome from the author on.
pub open spec fn authored_outcome<M: ModuleMemory>(
    definition: AddonDefinition,
    memory: M,
    limits: MetadataLimits,
    name: Seq<char>,
    result: Result<OwnedAddonDefinition, DefinitionError>,
) -> bool {
    exists|author: Result<String, DefinitionError>| #[trigger]
        required_outcome(memory, definition.author, MetadataField::Author, limits, author)
            && match author {
            Err(error) => result == Err::<OwnedAddonDefinition, DefinitionError>(error),
            Ok(author) => described_outcome(definition, memory, limits, name, author@, result),
        }
}

/// The part of the outcome from the description on.
pub open spec fn described_outcome<M: ModuleMemory>(
    definition: AddonDefinition,
    memory: M,
    limits: MetadataLimits,
    name: Seq<char>,
    author: Seq<char>,
    result: Result<OwnedAddonDefinition, DefinitionError>,
) -> bool {
    exists|description: Result<String, DefinitionError>| #[trigger]
        required_outcome(
            memory,
            definition.description,
            MetadataField::Description,
            limits,
            description,
        ) && match description {
            Err(error) => result == Err::<OwnedAddonDefinition, DefinitionError>(error),
            Ok(description) => linked_outcome(
                definition,
                memory,
                limits,
                name,
                author,
                description@,
                result,
            ),
        }
}

/// The part of the outcome from the update link on.
pub open spec fn linked_outcome<M: ModuleMemory>(
    definition: AddonDefinition,
    memory: M,
    limits: MetadataLimits,
    name: Seq<char>,
    author: Seq<char>,
    description: Seq<char>,
    result: Result<OwnedAddonDefinition, DefinitionError>,
) -> bool {
    exists|link: Result<Option<String>, DefinitionError>| #[trigger]
        optional_outcome(memory, definition.update_link, MetadataField::UpdateLink, limits, link)
            && match link {
            Err(error) => result == Err::<OwnedAddonDefinition, DefinitionError>(error),
            Ok(link) => result matches Ok(owned) && owned@ == assembled(
                definition,
                name,
                author,
                description,
                link_view(link),
            ),
        }
}

/// What owning the definition of a module can result in.
pub open spec fn definition_outcome<M: LiveAddonModule>(
    module: M,
    limits: MetadataLimits,
    result: Result<OwnedAddonDefinition, DefinitionError>,
) -> bool {
    exists|access: Result<DefinitionLease<'_, M::Memory>, ModuleAccessError>|
        {
            &&& #[trigger] call_ensures(M::definition, (&module,), access)
            &&& match access {
                Err(error) => result == Err::<OwnedAddonDefinition, DefinitionError>(
                    DefinitionError::ModuleAccess(error),
                ),
                Ok(lease) => lease_outcome(lease.raw(), lease.reader(), limits, result),
            }
        }
}

/// Validates an exported definition and deep-copies all of its metadata while
/// the supplied module lease is alive.
pub fn validate_and_copy_definition<M: LiveAddonModule>(module: &M, limits: MetadataLimits) -> (result:
    Result<OwnedAddonDefinition, DefinitionError>)
    ensures
        definition_outcome(*module, limits, result),
{
    let access = module.definition();
    let ghost leased = access;
    proof {
        assert(call_ensures(M::definition, (module,), leased));
    }
    match access {
        Err(error) => Err(DefinitionError::ModuleAccess(error)),
        Ok(lease) => copy_leased(lease.definition, lease.memory, limits),
    }
}

fn copy_leased<M: ModuleMemory>(
    definition: &AddonDefinition,
    memory: &M,
    limits: MetadataLimits,
) -> (result: Result<OwnedAddonDefinition, DefinitionError>)
    ensures
        lease_outcome(*definition, *memory, limits, result),
{
    let api_revision = match validate_header(definition) {
        Ok(revision) => revision,
        Err(error) => return Err(error),
    };
    let name = copy_required(memory, definition.name, MetadataField::Name, limits);
    let ghost copied_name = name;
    let name = match name {
        Ok(name) => name,
        Err(error) => return Err(error),
    };
    let author = copy_required(memory, definition.author, MetadataField::Author, limits);
    let ghost copied_author = author;
    let author = match author {
        Ok(author) => author,
        Err(error) => {
            proof {
                assert(authored_outcome(*definition, *memory, limits, name@, Err(error)));
            }
            return Err(error);
        },
    };
    let description = copy_required(
        memory,
        definition.description,
        MetadataField::Description,
        limits,
    );
    let ghost copied_description = description;
    let description = match description {
        Ok(description) => description,
        Err(error) => {
            proof {
                assert(described_outcome(*definition, *memory, limits, name@, author@, Err(error)));
                assert(authored_outcome(*definition, *memory, limits, name@, Err(error)));
            }
            return Err(error);
        },
    };
    let link = copy_optional(memory, definition.update_link, MetadataField::UpdateLink, limits);
    let ghost copied_link = link;
    let result = match link {
        Ok(update_link) => Ok(
            OwnedAddonDefinition {
                signature: definition.signature,
                api_revision,
                name,
                version: definition.version,
                author,
                description,
                flags: definition.flags,
                provider: definition.provider,
                update_link,
                has_unload_callback: definition.unload != 0,
            },
        ),
        Err(error) => Err(error),
    };
    proof {
        assert(linked_outcome(
            *definition,
            *memory,
            limits,
            name@,
            author@,
            description@,
            result,
        ));
        assert(described_outcome(*definition, *memory, limits, name@, author@, result));
        assert(authored_outcome(*definition, *memory, limits, name@, result));
    }
    result
}

/// A payload that fills its limit exactly is accepted: any valid text of at
/// most the limit's bytes and without a NUL comes back as it was written.
pub proof fn law_exact_limit_text_is_accepted(
    field: MetadataField,
    maximum: usize,
    payload: Seq<char>,
    bytes: &[u8],
    result: Result<String, DefinitionError>,
)
    requires
        encode_utf8(payload).len() <= maximum,
        forall|i: int| 0 <= i < encode_utf8(payload).len() ==> encode_utf8(payload)[i] != 0,
        bytes@ == encode_utf8(payload).push(0),
        is_copied_text(field, maximum, Ok(bytes), result),
    ensures
        result matches Ok(text) && text@ == payload,
{
    let encoded = encode_utf8(payload);
    let at = encoded.len() as int;
    assert(bytes@[at] == 0);
    assert(terminated_at(bytes@, at));
    let found = choose|found: int| #[trigger]
        terminated_at(bytes@, found) && match result {
            Ok(text) => {
                &&& valid_utf8(bytes@.subrange(0, found))
                &&& encode_utf8(text@) == bytes@.subrange(0, found)
            },
            Err(error) => {
                &&& !valid_utf8(bytes@.subrange(0, found))
                &&& error == DefinitionError::InvalidUtf8 { field }
            },
        };
    assert(found == at) by {
        if found < at {
            assert(bytes@[found] == encoded[found]);
        }
        if at < found {
            assert(bytes@[at] != 0);
        }
    }
    assert(bytes@.subrange(0, at) =~= encoded);
    vstd::utf8::encode_utf8_valid_utf8(payload);
    vstd::utf8::encode_utf8_decode_utf8(payload);
    if let Ok(text) = result {
        vstd::utf8::encode_utf8_decode_utf8(text@);
    }
}

/// A reader that returns more than it was asked for is refused whatever the
/// bytes are.
pub proof fn law_oversized_reads_are_refused(
    field: MetadataField,
    maximum: usize,
    bytes: &[u8],
    result: Result<String, DefinitionError>,
)
    requires
        bytes@.len() > maximum + 1,
        is_copied_text(field, maximum, Ok(bytes), result),
    ensures
        result matches Err(DefinitionError::ReaderExceededBound { .. }),
{
}

/// Owned metadata keeps every field of the native definition under its name,
/// and an unload callback counts as present exactly where it has an address.
pub proof fn law_owned_metadata_is_the_definition(
    definition: AddonDefinition,
    name: Seq<char>,
    author: Seq<char>,
    description: Seq<char>,
    update_link: Option<Seq<char>>,
)
    ensures
        ({
            let owned = assembled(definition, name, author, description, update_link);
            &&& owned.signature == definition.signature
            &&& requested_revision(definition.api_version) matches Ok(revision)
                ==> owned.api_revision == revision
            &&& owned.version.major == definition.version.major
            &&& owned.version.minor == definition.version.minor
            &&& owned.version.build == definition.version.build
            &&& owned.version.revision == definition.version.revision
            &&& owned.flags.disable_hot_loading == definition.flags.disable_hot_loading
            &&& owned.flags.launch_only == definition.flags.launch_only
            &&& owned.flags.other_bits == definition.flags.other_bits
            &&& owned.provider.value == definition.provider.value
            &&& owned.name == name
            &&& owned.author == author
            &&& owned.description == description
            &&& owned.update_link == update_link
            &&& owned.has_unload_callback <==> definition.unload != 0
        }),
{
}

/// Each text of owned metadata was read at the definition's own pointer for it
/// and within the limit of that field. A link is read only where it has a
/// pointer, and counts only where it is not empty.
pub proof fn law_each_text_is_read_at_its_own_pointer<M: ModuleMemory>(
    definition: AddonDefinition,
    memory: M,
    limits: MetadataLimits,
    result: Result<OwnedAddonDefinition, DefinitionError>,
)
    requires
        lease_outcome(definition, memory, limits, result),
        result is Ok,
    ensures
        header_failure(definition) is None,
        definition.name != 0 && definition.author != 0 && definition.description != 0,
        exists|name: String|
            name@ == result->Ok_0@.name && #[trigger] read_outcome(
                memory,
                definition.name,
                MetadataField::Name,
                limits,
                Ok(name),
            ),
        exists|author: String|
            author@ == result->Ok_0@.author && #[trigger] read_outcome(
                memory,
                definition.author,
                MetadataField::Author,
                limits,
                Ok(author),
            ),
        exists|description: String|
            description@ == result->Ok_0@.description && #[trigger] read_outcome(
                memory,
                definition.description,
                MetadataField::Description,
                limits,
                Ok(description),
            ),
        definition.update_link == 0 ==> result->Ok_0@.update_link is None,
        definition.update_link != 0 ==> exists|link: String|
            #[trigger] read_outcome(
                memory,
                definition.update_link,
                MetadataField::UpdateLink,
                limits,
                Ok(link),
            ) && (link@.len() == 0 ==> result->Ok_0@.update_link is None) && (link@.len() > 0
                ==> result->Ok_0@.update_link == Some(link@)),
        result->Ok_0@.signature == definition.signature,
        result->Ok_0@.has_unload_callback <==> definition.unload != 0,
{
    let name = choose|name: Result<String, DefinitionError>| #[trigger]
        required_outcome(memory, definition.name, MetadataField::Name, limits, name) && match name {
            Err(error) => result == Err::<OwnedAddonDefinition, DefinitionError>(error),
            Ok(name) => authored_outcome(definition, memory, limits, name@, result),
        };
    let name = name->Ok_0;
    let author = choose|author: Result<String, DefinitionError>| #[trigger]
        required_outcome(memory, definition.author, MetadataField::Author, limits, author)
            && match author {
            Err(error) => result == Err::<OwnedAddonDefinition, DefinitionError>(error),
            Ok(author) => described_outcome(definition, memory, limits, name@, author@, result),
        };
    let author = author->Ok_0;
    let description = choose|description: Result<String, DefinitionError>| #[trigger]
        required_outcome(
            memory,
            definition.description,
            MetadataField::Description,
            limits,
            description,
        ) && match description {
            Err(error) => result == Err::<OwnedAddonDefinition, DefinitionError>(error),
            Ok(description) => linked_outcome(
                definition,
                memory,
                limits,
                name@,
                author@,
                description@,
                result,
            ),
        };
    let description = description->Ok_0;
    let link = choose|link: Result<Option<String>, DefinitionError>| #[trigger]
        optional_outcome(memory, definition.update_link, MetadataField::UpdateLink, limits, link)
            && match link {
            Err(error) => result == Err::<OwnedAddonDefinition, DefinitionError>(error),
            Ok(link) => result matches Ok(owned) && owned@ == assembled(
                definition,
                name@,
                author@,
                description@,
                link_view(link),
            ),
        };
    assert(read_outcome(memory, definition.name, MetadataField::Name, limits, Ok(name)));
    assert(read_outcome(memory, definition.author, MetadataField::Author, limits, Ok(author)));
    assert(read_outcome(
        memory,
        definition.description,
        MetadataField::Description,
        limits,
        Ok(description),
    ));
    if definition.update_link != 0 {
        let text = choose|text: Result<String, DefinitionError>| #[trigger]
            read_outcome(memory, definition.update_link, MetadataField::UpdateLink, limits, text)
                && match text {
                Ok(text) => link matches Ok(found) && link_view(found) == optional_text(text),
                Err(error) => link == Err::<Option<String>, DefinitionError>(error),
            };
        assert(read_outcome(
            memory,
            definition.update_link,
            MetadataField::UpdateLink,
            limits,
            Ok(text->Ok_0),
        ));
    }
}

/// A definition is refused for its signature first, for its revision next, for
/// its load callback after that, and for its unload callback last, which it may
/// lack where it disables hot loading.
pub proof fn law_headers_are_refused_in_order(definition: AddonDefinition)
    ensures
        ({
            let failure = header_failure(definition);
            let known = 1 <= definition.api_version <= 6;
            &&& failure == Some(DefinitionError::ZeroSignature) <==> definition.signature == 0
            &&& definition.signature != 0 && !known <==> (failure matches Some(
                DefinitionError::ApiRevision(ApiTableError::UnsupportedRevision { requested }),
            ) && requested == definition.api_version)
            &&& failure == Some(DefinitionError::MissingLoadCallback) <==> definition.signature != 0
                && known && definition.load == 0
            &&& failure == Some(DefinitionError::MissingUnloadCallback) <==> definition.signature
                != 0 && known && definition.load != 0 && definition.unload == 0
                && !definition.flags.disable_hot_loading
            &&& failure is None <==> definition.signature != 0 && known && definition.load != 0 && (
            definition.unload != 0 || definition.flags.disable_hot_loading)
        }),
{
}

/// Of limits that exceed the maximum of one mebibyte, the first is named with
/// what was asked for.
pub proof fn law_the_first_excessive_limit_is_named(
    name: usize,
    author: usize,
    description: usize,
    update_link: usize,
)
    ensures
        ({
            let named = excessive_limit(name, author, description, update_link);
            &&& named is None <==> name <= 0x10_0000 && author <= 0x10_0000 && description
                <= 0x10_0000 && update_link <= 0x10_0000
            &&& named matches Some((field, requested)) ==> {
                &&& requested > 0x10_0000
                &&& field is Name ==> requested == name
                &&& field is Author ==> requested == author && name <= 0x10_0000
                &&& field is Description ==> requested == description && name <= 0x10_0000 && author
                    <= 0x10_0000
                &&& field is UpdateLink ==> requested == update_link && name <= 0x10_0000 && author
                    <= 0x10_0000 && description <= 0x10_0000
            }
        }),
{
}

/// Text without a terminator is refused with its limit, and a failed read with
/// its cause, each for its own field.
pub proof fn law_unreadable_text_says_why(
    field: MetadataField,
    maximum: usize,
    reply: Result<&[u8], ModuleReadError>,
    result: Result<String, DefinitionError>,
)
    requires
        maximum < usize::MAX,
        is_copied_text(field, maximum, reply, result),
    ensures
        reply matches Err(cause) ==> (result matches Err(DefinitionError::MemoryRead {
            field: named,
            source,
        }) && named == field && source == cause),
        reply matches Ok(bytes) ==> (bytes@.len() > maximum + 1 ==> (result matches Err(
            DefinitionError::ReaderExceededBound { field: named, requested, returned },
        ) && named == field && requested == maximum + 1 && returned == bytes@.len())),
        reply matches Ok(bytes) ==> (bytes@.len() <= maximum + 1 && !bytes@.contains(0) ==> (result
            matches Err(DefinitionError::UnterminatedMetadata { field: named, maximum: limit })
            && named == field && limit == maximum)),
        result matches Err(DefinitionError::InvalidUtf8 { field: named }) ==> named == field,
{
    if let Ok(bytes) = reply {
        assert(bytes@.len() == bytes.len());
        if bytes@.len() <= maximum + 1 && !bytes@.contains(0) {
            assert forall|i: int| 0 <= i < bytes@.len() implies bytes@[i] != 0 by {
                if bytes@[i] == 0 {
                    assert(bytes@.contains(0));
                }
            }
        }
    }
}

/// Each field is known by its own name, and no two share one.
pub proof fn law_each_field_has_its_name(field: MetadataField)
    ensures
        field_name(field) == "Name"@ <==> field is Name,
        field_name(field) == "Author"@ <==> field is Author,
        field_name(field) == "Description"@ <==> field is Description,
        field_name(field) == "UpdateLink"@ <==> field is UpdateLink,
{
    reveal_strlit("Name");
    assert("Name"@.len() == 4);
    reveal_strlit("Author");
    assert("Author"@.len() == 6);
    reveal_strlit("Description");
    assert("Description"@.len() == 11);
    reveal_strlit("UpdateLink");
    assert("UpdateLink"@.len() == 10);
}

} // verus!
