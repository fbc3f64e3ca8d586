//! The API tables handed to add-ons, one for each supported revision.
use vstd::prelude::*;
use vstd::std_specs::convert::TryFromSpecImpl;
use crate::text::{decimal, Message};

verus! {

/// Bytes in one native word of a table.
pub const WORD_BYTES: usize = 8;

/// Alignment of the word storage in bytes.
pub const WORD_ALIGNMENT: usize = 8;

/// A supported add-on API revision.
#[derive(Clone, Copy, Debug, PartialEq, Eq, Hash, Structural)]
pub enum ApiRevision {
    /// Flat API revision 1.
    V1,
    /// Flat API revision 2.
    V2,
    /// Flat API revision 3.
    V3,
    /// Flat API revision 4.
    V4,
    /// Flat API revision 5.
    V5,
    /// Grouped API revision 6.
    V6,
}

/// The number by which an add-on names a revision.
pub open spec fn revision_number(revision: ApiRevision) -> int {
    match revision {
        ApiRevision::V1 => 1,
        ApiRevision::V2 => 2,
        ApiRevision::V3 => 3,
        ApiRevision::V4 => 4,
        ApiRevision::V5 => 5,
        ApiRevision::V6 => 6,
    }
}

/// The words in the table of a revision.
pub open spec fn table_words(revision: ApiRevision) -> nat {
    match revision {
        ApiRevision::V1 => 32,
        ApiRevision::V2 => 42,
        ApiRevision::V3 => 45,
        ApiRevision::V4 => 51,
        ApiRevision::V5 => 53,
        ApiRevision::V6 => 62,
    }
}

/// The name of a revision in diagnostics.
pub open spec fn revision_name(revision: ApiRevision) -> Seq<char> {
    match revision {
        ApiRevision::V1 => "V1"@,
        ApiRevision::V2 => "V2"@,
        ApiRevision::V3 => "V3"@,
        ApiRevision::V4 => "V4"@,
        ApiRevision::V5 => "V5"@,
        ApiRevision::V6 => "V6"@,
    }
}

/// The revision that an add-on asks for by number.
pub open spec fn requested_revision(requested: u32) -> Result<ApiRevision, ApiTableError> {
    if requested == 1 {
        Ok(ApiRevision::V1)
    } else if requested == 2 {
        Ok(ApiRevision::V2)
    } else if requested == 3 {
        Ok(ApiRevision::V3)
    } else if requested == 4 {
        Ok(ApiRevision::V4)
    } else if requested == 5 {
        Ok(ApiRevision::V5)
    } else if requested == 6 {
        Ok(ApiRevision::V6)
    } else {
        Err(ApiTableError::UnsupportedRevision { requested })
    }
}

impl ApiRevision {
    /// Every supported API revision, in order.
    pub const ALL: [Self; 6] = [Self::V1, Self::V2, Self::V3, Self::V4, Self::V5, Self::V6];

    /// Returns the ABI layout for this revision.
    pub fn layout(self) -> (layout: ApiTableLayout)
        ensures
            layout.size_of() == table_words(self) * WORD_BYTES,
            layout.align_of() == 8,
    {
        match self {
            Self::V1 => ApiTableLayout::of(32),
            Self::V2 => ApiTableLayout::of(42),
            Self::V3 => ApiTableLayout::of(45),
            Self::V4 => ApiTableLayout::of(51),
            Self::V5 => ApiTableLayout::of(53),
            Self::V6 => ApiTableLayout::of(62),
        }
    }

    /// Returns the position of the revision among all of them.
    fn index(self) -> (index: usize)
        ensures
            index == revision_number(self) - 1,
    {
        match self {
            Self::V1 => 0,
            Self::V2 => 1,
            Self::V3 => 2,
            Self::V4 => 3,
            Self::V5 => 4,
            Self::V6 => 5,
        }
    }

    /// Returns the name of the revision.
    pub fn name(self) -> (name: &'static str)
        ensures
            name@ == revision_name(self),
    {
        match self {
            Self::V1 => "V1",
            Self::V2 => "V2",
            Self::V3 => "V3",
            Self::V4 => "V4",
            Self::V5 => "V5",
            Self::V6 => "V6",
        }
    }
}

impl TryFrom<u32> for ApiRevision {
    type Error = ApiTableError;

    fn try_from(value: u32) -> (revision: Result<Self, ApiTableError>) {
        match value {
            1 => Ok(Self::V1),
            2 => Ok(Self::V2),
            3 => Ok(Self::V3),
            4 => Ok(Self::V4),
            5 => Ok(Self::V5),
            6 => Ok(Self::V6),
            requested => Err(ApiTableError::UnsupportedRevision { requested }),
        }
    }
}

impl TryFromSpecImpl<u32> for ApiRevision {
    open spec fn obeys_try_from_spec() -> bool {
        true
    }

    open spec fn try_from_spec(value: u32) -> Result<Self, ApiTableError> {
        requested_revision(value)
    }
}

/// Size and alignment of one ABI table.
#[derive(Clone, Copy, Debug, PartialEq, Eq, Structural)]
pub struct ApiTableLayout {
    size: usize,
    align: usize,
}

impl ApiTableLayout {
    /// The size in bytes.
    pub closed spec fn size_of(self) -> usize {
        self.size
    }

    /// The alignment in bytes.
    pub closed spec fn align_of(self) -> usize {
        self.align
    }

    /// The layout of a table of native words.
    fn of(words: usize) -> (layout: Self)
        requires
            words * WORD_BYTES <= usize::MAX,
        ensures
            layout.size_of() == words * WORD_BYTES,
            layout.align_of() == WORD_ALIGNMENT,
    {
        Self { size: words * WORD_BYTES, align: WORD_ALIGNMENT }
    }

    /// Returns the table size in bytes.
    pub fn size(self) -> (size: usize)
        ensures
            size == self.size_of(),
    {
        self.size
    }

    /// Returns the table alignment in bytes.
    pub fn align(self) -> (align: usize)
        ensures
            align == self.align_of(),
    {
        self.align
    }
}

/// Failure to select or allocate an API table.
#[derive(Clone, Copy, Debug, PartialEq, Eq, Structural)]
pub enum ApiTableError {
    /// The add-on requested a revision outside the supported range.
    UnsupportedRevision {
        /// Raw revision requested by the add-on.
        requested: u32,
    },
    /// The word storage cannot provide the alignment required by the ABI.
    UnsupportedAlignment {
        /// Revision that could not be represented.
        revision: ApiRevision,
        /// ABI-required alignment.
        required: usize,
        /// Alignment provided by the backing word allocation.
        available: usize,
    },
    /// An ABI table was not an integral number of native words.
    NonIntegralWordLayout {
        /// Revision with the invalid layout.
        revision: ApiRevision,
        /// Table byte size.
        size: usize,
    },
}

impl ApiTableError {
    /// The message of the failure.
    pub open spec fn text(self) -> Seq<char> {
        match self {
            Self::UnsupportedRevision { requested } => {
                "unsupported add-on API revision "@ + decimal(requested as nat)
                    + "; supported revisions are 1 through 6"@
            },
            Self::UnsupportedAlignment { revision, required, available } => {
                "API revision "@ + revision_name(revision) + " requires alignment "@ + decimal(
                    required as nat,
                ) + ", but word storage provides "@ + decimal(available as nat)
            },
            Self::NonIntegralWordLayout { revision, size } => {
                "API revision "@ + revision_name(revision) + " has byte size "@ + decimal(
                    size as nat,
                ) + ", which is not word aligned"@
            },
        }
    }

    /// Formats the failure for diagnostics.
    pub fn to_string(&self) -> (text: String)
        ensures
            text@ == self.text(),
    {
        let mut message = Message::new();
        match *self {
            Self::UnsupportedRevision { requested } => {
                message.text("unsupported add-on API revision ");
                message.number(requested as u64);
                message.text("; supported revisions are 1 through 6");
            },
            Self::UnsupportedAlignment { revision, required, available } => {
                message.text("API revision ");
                message.text(revision.name());
                message.text(" requires alignment ");
                message.number(required as u64);
                message.text(", but word storage provides ");
                message.number(available as u64);
            },
            Self::NonIntegralWordLayout { revision, size } => {
                message.text("API revision ");
                message.text(revision.name());
                message.text(" has byte size ");
                message.number(size as u64);
                message.text(", which is not word aligned");
            },
        }
        proof {
            assert(message@ =~= self.text());
        }
        message.finish()
    }
}

/// Why the storage of a table cannot be allocated, if it cannot.
pub open spec fn storage_failure(
    revision: ApiRevision,
    layout: ApiTableLayout,
    available: usize,
) -> Option<ApiTableError> {
    if layout.align_of() > available {
        Some(
            ApiTableError::UnsupportedAlignment { revision, required: layout.align_of(), available },
        )
    } else if layout.size_of() % WORD_BYTES != 0 {
        Some(ApiTableError::NonIntegralWordLayout { revision, size: layout.size_of() })
    } else {
        None
    }
}

/// Checks that the storage can represent the layout of a table.
pub fn check_layout(revision: ApiRevision, layout: ApiTableLayout, available: usize) -> (result:
    Result<(), ApiTableError>)
    ensures
        match result {
            Ok(_) => storage_failure(revision, layout, available) is None,
            Err(error) => storage_failure(revision, layout, available) == Some(error),
        },
{
    if layout.align > available {
        return Err(
            ApiTableError::UnsupportedAlignment { revision, required: layout.align, available },
        );
    }
    if layout.size % WORD_BYTES != 0 {
        return Err(ApiTableError::NonIntegralWordLayout { revision, size: layout.size });
    }
    Ok(())
}

/// Words for a table whose layout the storage can represent, all of them zero.
pub fn allocate_words(revision: ApiRevision, layout: ApiTableLayout, available: usize) -> (words:
    Result<Vec<u64>, ApiTableError>)
    ensures
        match words {
            Ok(words) => {
                &&& storage_failure(revision, layout, available) is None
                &&& words@ == Seq::new((layout.size_of() / WORD_BYTES) as nat, |i: int| 0u64)
            },
            Err(error) => storage_failure(revision, layout, available) == Some(error),
        },
{
    if let Err(error) = check_layout(revision, layout, available) {
        return Err(error);
    }
    let count: usize = layout.size / WORD_BYTES;
    let mut words: Vec<u64> = Vec::new();
    let mut next: usize = 0;
    while next < count
        invariant
            next <= count,
            words@ == Seq::new(next as nat, |i: int| 0u64),
        decreases count - next,
    {
        words.push(0);
        next = next + 1;
        proof {
            assert(words@ =~= Seq::new(next as nat, |i: int| 0u64));
        }
    }
    Ok(words)
}

/// One host-owned table.
#[derive(Clone, Debug)]
pub struct PinnedApiTable {
    revision: ApiRevision,
    storage: Vec<u64>,
}

impl PinnedApiTable {
    /// The revision of the table.
    pub closed spec fn revision_of(self) -> ApiRevision {
        self.revision
    }

    /// The words of the table.
    pub closed spec fn content(self) -> Seq<u64> {
        self.storage@
    }

    /// Allocates the table of a revision, every word of it zero.
    fn new(revision: ApiRevision) -> (table: Result<Self, ApiTableError>)
        ensures
            table matches Ok(table) && table.revision_of() == revision && table.content()
                == zeroed_table(revision),
    {
        match allocate_words(revision, revision.layout(), WORD_ALIGNMENT) {
            Ok(storage) => {
                proof {
                    assert(storage@ =~= zeroed_table(revision));
                }
                Ok(Self { revision, storage })
            },
            Err(error) => Err(error),
        }
    }

    /// Keeps an assembled value as the table of a revision, if the storage can
    /// represent it.
    fn from_value(revision: ApiRevision, value: Vec<u64>) -> (table: Result<Self, ApiTableError>)
        requires
            value@.len() == table_words(revision),
        ensures
            table matches Ok(table) && table.revision_of() == revision && table.content() == value@,
    {
        match check_layout(revision, revision.layout(), WORD_ALIGNMENT) {
            Ok(_) => Ok(Self { revision, storage: value }),
            Err(error) => Err(error),
        }
    }
}

/// The table of a revision before anything has been assembled into it.
pub open spec fn zeroed_table(revision: ApiRevision) -> Seq<u64> {
    Seq::new(table_words(revision), |i: int| 0u64)
}

/// Fully assembled values for every supported add-on API revision, as the
/// words of each table.
#[derive(Clone, Debug)]
pub struct ApiTables {
    /// Flat API revision 1.
    pub v1: Vec<u64>,
    /// Flat API revision 2.
    pub v2: Vec<u64>,
    /// Flat API revision 3.
    pub v3: Vec<u64>,
    /// Flat API revision 4.
    pub v4: Vec<u64>,
    /// Flat API revision 5.
    pub v5: Vec<u64>,
    /// Grouped API revision 6.
    pub v6: Vec<u64>,
}

impl ApiTables {
    /// The assembled words for one revision.
    pub open spec fn words(self, revision: ApiRevision) -> Seq<u64> {
        match revision {
            ApiRevision::V1 => self.v1@,
            ApiRevision::V2 => self.v2@,
            ApiRevision::V3 => self.v3@,
            ApiRevision::V4 => self.v4@,
            ApiRevision::V5 => self.v5@,
            ApiRevision::V6 => self.v6@,
        }
    }

    /// Every value has the size of its revision's table.
    pub open spec fn sized(self) -> bool {
        forall|revision: ApiRevision| #[trigger]
            self.words(revision).len() == table_words(revision)
    }
}

/// One stable, host-owned allocation for each API revision.
#[derive(Clone, Debug)]
pub struct ApiTableCatalog {
    tables: Vec<PinnedApiTable>,
    populated: bool,
}

impl ApiTableCatalog {
    /// The words of one revision's table.
    pub closed spec fn table(self, revision: ApiRevision) -> Seq<u64> {
        self.tables@[revision_number(revision) - 1].content()
    }

    /// Whether every table came from an explicit assembly.
    pub closed spec fn populated(self) -> bool {
        self.populated
    }

    /// There is exactly one table for each revision, of that revision's size.
    pub closed spec fn wf(self) -> bool {
        &&& self.tables@.len() == 6
        &&& forall|revision: ApiRevision|
            {
                let table = #[trigger] self.tables@[revision_number(revision) - 1];
                table.revision_of() == revision && table.content().len() == table_words(revision)
            }
    }

    /// Allocates exactly one table for every supported revision.
    pub fn new() -> (catalog: Result<Self, ApiTableError>)
        ensures
            catalog matches Ok(catalog) && catalog.wf() && !catalog.populated() && forall|
                revision: ApiRevision,
            | #[trigger]
                catalog.table(revision) == zeroed_table(revision),
    {
        let mut tables: Vec<PinnedApiTable> = Vec::new();
        tables.push(PinnedApiTable::new(ApiRevision::V1)?);
        tables.push(PinnedApiTable::new(ApiRevision::V2)?);
        tables.push(PinnedApiTable::new(ApiRevision::V3)?);
        tables.push(PinnedApiTable::new(ApiRevision::V4)?);
        tables.push(PinnedApiTable::new(ApiRevision::V5)?);
        tables.push(PinnedApiTable::new(ApiRevision::V6)?);
        Ok(Self { tables, populated: false })
    }

    /// Copies fully assembled API revisions into stable storage.
    pub fn from_tables(tables: ApiTables) -> (catalog: Result<Self, ApiTableError>)
        requires
            tables.sized(),
        ensures
            catalog matches Ok(catalog) && catalog.wf() && catalog.populated() && forall|
                revision: ApiRevision,
            | #[trigger]
                catalog.table(revision) == tables.words(revision),
    {
        proof {
            assert(tables.words(ApiRevision::V1).len() == 32);
            assert(tables.words(ApiRevision::V2).len() == 42);
            assert(tables.words(ApiRevision::V3).len() == 45);
            assert(tables.words(ApiRevision::V4).len() == 51);
            assert(tables.words(ApiRevision::V5).len() == 53);
            assert(tables.words(ApiRevision::V6).len() == 62);
        }
        let mut storage: Vec<PinnedApiTable> = Vec::new();
        storage.push(PinnedApiTable::from_value(ApiRevision::V1, tables.v1)?);
        storage.push(PinnedApiTable::from_value(ApiRevision::V2, tables.v2)?);
        storage.push(PinnedApiTable::from_value(ApiRevision::V3, tables.v3)?);
        storage.push(PinnedApiTable::from_value(ApiRevision::V4, tables.v4)?);
        storage.push(PinnedApiTable::from_value(ApiRevision::V5, tables.v5)?);
        storage.push(PinnedApiTable::from_value(ApiRevision::V6, tables.v6)?);
        Ok(Self { tables: storage, populated: true })
    }

    /// Returns whether every table came from an explicit assembly.
    pub fn is_populated(&self) -> (populated: bool)
        ensures
            populated == self.populated(),
    {
        self.populated
    }

    /// Borrows the stable allocation for `revision`.
    pub fn get(&self, revision: ApiRevision) -> (table: ApiTableRef<'_>)
        requires
            self.wf(),
        ensures
            table.content() == self.table(revision),
            table.revision_of() == revision,
            table.content().len() == table_words(revision),
    {
        let index = revision.index();
        proof {
            assert(self.tables@[revision_number(revision) - 1].revision_of() == revision);
        }
        ApiTableRef { table: &self.tables[index] }
    }
}

impl Default for ApiTableCatalog {
    fn default() -> (catalog: Self)
        ensures
            catalog.wf(),
            !catalog.populated(),
            forall|revision: ApiRevision| #[trigger]
                catalog.table(revision) == zeroed_table(revision),
    {
        Self::new().unwrap()
    }
}

/// A lifetime-bound view of a host-owned API table allocation.
#[derive(Clone, Copy)]
pub struct ApiTableRef<'a> {
    table: &'a PinnedApiTable,
}

impl<'a> ApiTableRef<'a> {
    /// The revision of the table.
    pub closed spec fn revision_of(self) -> ApiRevision {
        self.table.revision_of()
    }

    /// The words of the table.
    pub closed spec fn content(self) -> Seq<u64> {
        self.table.content()
    }

    /// Returns the represented API revision.
    pub fn revision(self) -> (revision: ApiRevision)
        ensures
            revision == self.revision_of(),
    {
        self.table.revision
    }

    /// Returns the table's ABI layout.
    pub fn layout(self) -> (layout: ApiTableLayout)
        ensures
            layout.size_of() == table_words(self.revision_of()) * WORD_BYTES,
            layout.align_of() == 8,
    {
        self.table.revision.layout()
    }

    /// Returns the words of the table, whose first word has the address that an
    /// add-on receives.
    pub fn words(self) -> (words: &'a [u64])
        ensures
            words@ == self.content(),
    {
        self.table.storage.as_slice()
    }
}

/// A revision is found again under its number, and no number outside one to
/// six names a revision.
pub proof fn law_revisions_are_named_by_one_to_six(revision: ApiRevision, number: u32)
    ensures
        requested_revision(revision_number(revision) as u32) == Ok::<ApiRevision, ApiTableError>(
            revision,
        ),
        requested_revision(number) is Ok <==> 1 <= number <= 6,
        requested_revision(number) matches Ok(named) ==> revision_number(named) == number,
{
}

/// A table has the words of its own revision, and a later revision has more.
pub proof fn law_each_revision_has_its_size(revision: ApiRevision)
    ensures
        table_words(revision) * 8 == 256 <==> revision is V1,
        table_words(revision) * 8 == 336 <==> revision is V2,
        table_words(revision) * 8 == 360 <==> revision is V3,
        table_words(revision) * 8 == 408 <==> revision is V4,
        table_words(revision) * 8 == 424 <==> revision is V5,
        table_words(revision) * 8 == 496 <==> revision is V6,
        zeroed_table(revision).len() == table_words(revision),
        forall|i: int| 0 <= i < table_words(revision) ==> #[trigger] zeroed_table(revision)[i] == 0,
{
}

/// The tables are kept apart: a revision has the words that were given for it.
pub proof fn law_each_revision_has_its_words(tables: ApiTables)
    ensures
        tables.words(ApiRevision::V1) == tables.v1@,
        tables.words(ApiRevision::V2) == tables.v2@,
        tables.words(ApiRevision::V3) == tables.v3@,
        tables.words(ApiRevision::V4) == tables.v4@,
        tables.words(ApiRevision::V5) == tables.v5@,
        tables.words(ApiRevision::V6) == tables.v6@,
{
}

/// A layout can be stored exactly where the storage is aligned for it and it is
/// made of whole words; what fails is named with its numbers.
pub proof fn law_layouts_need_alignment_and_whole_words(
    revision: ApiRevision,
    layout: ApiTableLayout,
    available: usize,
)
    ensures
        storage_failure(revision, layout, available) is None <==> layout.align_of() <= available
            && layout.size_of() % 8 == 0,
        layout.align_of() > available ==> (storage_failure(revision, layout, available) matches Some(
            ApiTableError::UnsupportedAlignment { revision: named, required, available: given },
        ) && named == revision && required == layout.align_of() && given == available),
        layout.align_of() <= available && layout.size_of() % 8 != 0 ==> (storage_failure(
            revision,
            layout,
            available,
        ) matches Some(ApiTableError::NonIntegralWordLayout { revision: named, size }) && named
            == revision && size == layout.size_of()),
{
}

/// Each revision is known by its own name, and no two share one.
pub proof fn law_each_revision_has_its_name(revision: ApiRevision)
    ensures
        revision_name(revision) == "V1"@ <==> revision is V1,
        revision_name(revision) == "V2"@ <==> revision is V2,
        revision_name(revision) == "V3"@ <==> revision is V3,
        revision_name(revision) == "V4"@ <==> revision is V4,
        revision_name(revision) == "V5"@ <==> revision is V5,
        revision_name(revision) == "V6"@ <==> revision is V6,
{
    reveal_strlit("V1");
    reveal_strlit("V2");
    reveal_strlit("V3");
    reveal_strlit("V4");
    reveal_strlit("V5");
    reveal_strlit("V6");
    assert("V1"@[1] != "V2"@[1]);
    assert("V1"@[1] != "V3"@[1]);
    assert("V1"@[1] != "V4"@[1]);
    assert("V1"@[1] != "V5"@[1]);
    assert("V1"@[1] != "V6"@[1]);
    assert("V2"@[1] != "V3"@[1]);
    assert("V2"@[1] != "V4"@[1]);
    assert("V2"@[1] != "V5"@[1]);
    assert("V2"@[1] != "V6"@[1]);
    assert("V3"@[1] != "V4"@[1]);
    assert("V3"@[1] != "V5"@[1]);
    assert("V3"@[1] != "V6"@[1]);
    assert("V4"@[1] != "V5"@[1]);
    assert("V4"@[1] != "V6"@[1]);
    assert("V5"@[1] != "V6"@[1]);
}

} // verus!
