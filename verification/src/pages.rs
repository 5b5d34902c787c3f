//! Template pages: a title, a description and settings whose columns describe what a setting
//! stores, with the limits a page must keep.
use vstd::prelude::*;
use vstd::std_specs::cmp::PartialEqSpecImpl;
use crate::text::str_eq;
use crate::validators::byte_len;

verus! {

broadcast use vstd::string::group_string_axioms;

/// The longest page title, in bytes.
pub const MAX_TITLE_LENGTH: usize = 256;

/// The longest page description, in bytes.
pub const MAX_DESCRIPTION_LENGTH: usize = 4096;

/// `indexmap`'s ordered map, which holds the named values of a bit flag column.
#[verifier::external_type_specification]
#[verifier::external_body]
#[verifier::reject_recursive_types(K)]
#[verifier::reject_recursive_types(V)]
#[verifier::reject_recursive_types(S)]
pub struct ExIndexMap<K, V, S>(indexmap::IndexMap<K, V, S>);

/// The kind of value a column holds: one value, or an array of them.
#[derive(Debug)]
pub enum ColumnType {
    Scalar { inner: InnerColumnType },
    Array { inner: InnerColumnType },
}

/// The type of a column's values.
#[derive(Debug)]
pub enum InnerColumnType {
    String {
        min_length: Option<usize>,
        max_length: Option<usize>,
        /// The values allowed; all are when empty.
        allowed_values: Vec<String>,
        /// What the text stands for, such as `uuid`, `channel` or `timestamp`.
        kind: String,
    },
    Integer {},
    Float {},
    BitFlag { values: indexmap::IndexMap<String, i64> },
    Boolean {},
    Json { max_bytes: Option<usize> },
}

/// Values to suggest for a column.
#[derive(Debug, Clone)]
pub enum ColumnSuggestion {
    Static { suggestions: Vec<String> },
    /// No suggestions.
    Nothing {},
}

/// An operation on a setting.
#[derive(Debug, Clone, Copy, PartialEq, Eq, Structural, Hash)]
pub enum OperationType {
    View,
    Create,
    Update,
    Delete,
}

/// A column of a setting.
#[derive(Debug)]
pub struct Column {
    /// The column's ID in the database; columns are the same column when their IDs are.
    pub id: String,
    /// The friendly name.
    pub name: String,
    pub description: String,
    pub column_type: ColumnType,
    pub nullable: bool,
    pub suggestions: ColumnSuggestion,
    /// A secret column is not shown to the user.
    pub secret: bool,
    /// The operations for which the column is ignored (read only).
    pub ignored_for: Vec<OperationType>,
}

impl PartialEq for Column {
    fn eq(&self, other: &Self) -> (r: bool) {
        str_eq(self.id.as_str(), other.id.as_str())
    }
}

impl PartialEqSpecImpl for Column {
    open spec fn obeys_eq_spec() -> bool {
        true
    }

    open spec fn eq_spec(&self, other: &Column) -> bool {
        self.id@ == other.id@
    }
}

/// Which operations a setting supports.
#[derive(Debug, Clone, Copy, PartialEq, Eq, Structural, Default)]
pub struct SettingOperations {
    pub view: bool,
    pub create: bool,
    pub update: bool,
    pub delete: bool,
}

impl SettingOperations {
    /// Whether the setting supports `op`.
    pub fn supports(&self, op: OperationType) -> (r: bool)
        ensures
            r == match op {
                OperationType::View => self.view,
                OperationType::Create => self.create,
                OperationType::Update => self.update,
                OperationType::Delete => self.delete,
            },
    {
        match op {
            OperationType::View => self.view,
            OperationType::Create => self.create,
            OperationType::Update => self.update,
            OperationType::Delete => self.delete,
        }
    }
}

/// A setting of a page.
#[derive(Debug)]
pub struct Setting {
    pub id: String,
    pub name: String,
    pub description: String,
    /// The primary key of the table; one of the columns.
    pub primary_key: String,
    /// The template of the title of the setting's embed.
    pub title_template: String,
    pub columns: Vec<Column>,
    pub supported_operations: SettingOperations,
}

/// A template's page.
#[derive(Debug)]
pub struct Page {
    pub title: String,
    pub description: String,
    pub settings: Vec<Setting>,
}

/// Why a page was refused.
#[derive(Debug, Clone, Copy, PartialEq, Eq, Structural)]
pub enum PageError {
    TitleTooLong,
    DescriptionTooLong,
}

impl PageError {
    /// The error's message.
    pub fn message(&self) -> (r: &'static str)
        ensures
            r@ == (match *self {
                PageError::TitleTooLong => "Title is too long"@,
                PageError::DescriptionTooLong => "Description is too long"@,
            }),
    {
        match self {
            PageError::TitleTooLong => "Title is too long",
            PageError::DescriptionTooLong => "Description is too long",
        }
    }
}

/// Whether the page's texts have lengths that fit the machine.
pub open spec fn page_fits(p: &Page) -> bool {
    byte_len(p.title@) <= usize::MAX && byte_len(p.description@) <= usize::MAX
}

impl Page {
    /// Checks the page: a title of at most 256 bytes, then a description of at most 4096.
    pub fn validate(&self) -> (r: Result<(), PageError>)
        requires
            page_fits(self),
        ensures
            r == (if byte_len(self.title@) > MAX_TITLE_LENGTH {
                Err(PageError::TitleTooLong)
            } else if byte_len(self.description@) > MAX_DESCRIPTION_LENGTH {
                Err(PageError::DescriptionTooLong)
            } else {
                Ok::<(), PageError>(())
            }),
    {
        if self.title.as_str().len() > MAX_TITLE_LENGTH {
            return Err(PageError::TitleTooLong);
        }
        if self.description.as_str().len() > MAX_DESCRIPTION_LENGTH {
            return Err(PageError::DescriptionTooLong);
        }
        Ok(())
    }
}

} // verus!
