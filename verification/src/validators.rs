//! Validation of what templates ask Discord to send: embeds, messages, message components,
//! application commands and their names.
use vstd::prelude::*;
use crate::text::append_str;

verus! {

/// The length in bytes of the UTF-8 encoding of `s` (what `str::len` returns).
pub open spec fn byte_len(s: Seq<char>) -> nat {
    vstd::utf8::encode_utf8(s).len()
}

/// Which piece of text a length check is about.
#[derive(Debug, Clone, Copy, PartialEq, Eq, Structural)]
pub enum TextPart {
    EmbedTitle,
    EmbedDescription,
    EmbedFooterText,
    EmbedAuthorName,
    EmbedFieldName,
    EmbedFieldValue,
    MessageContent,
}

/// The largest number of bytes a piece of text may hold.
pub open spec fn part_limit(p: TextPart) -> nat {
    match p {
        TextPart::EmbedTitle => 256,
        TextPart::EmbedDescription => 4096,
        TextPart::EmbedFooterText => 2048,
        TextPart::EmbedAuthorName => 256,
        TextPart::EmbedFieldName => 256,
        TextPart::EmbedFieldValue => 1024,
        TextPart::MessageContent => 2000,
    }
}

/// The byte limit of a piece of text.
pub fn text_limit(p: TextPart) -> (r: usize)
    ensures
        r == part_limit(p),
{
    match p {
        TextPart::EmbedTitle => 256,
        TextPart::EmbedDescription => 4096,
        TextPart::EmbedFooterText => 2048,
        TextPart::EmbedAuthorName => 256,
        TextPart::EmbedFieldName => 256,
        TextPart::EmbedFieldValue => 1024,
        TextPart::MessageContent => 2000,
    }
}

/// The most embed characters a message may hold, over all its embeds.
pub const MAX_EMBED_CHARACTERS_LIMIT: usize = 6000;

/// The most action rows a message may hold.
pub const MAX_ACTION_ROWS: usize = 5;

/// The most buttons an action row may hold.
pub const MAX_BUTTONS_PER_ACTION_ROW: usize = 5;

/// The most select menus an action row may hold.
pub const MAX_SELECTS_PER_ACTION_ROW: usize = 1;

/// The deepest nesting of command options (top-level options sit at depth 1).
pub const MAX_OPTION_DEPTH: u8 = 3;

/// Why a validation failed.
#[derive(Debug, Clone, PartialEq, Eq)]
pub enum ValidationError {
    /// A piece of text that is present is empty.
    Empty(TextPart),
    /// A piece of text is longer than its limit.
    TooLong(TextPart),
    /// A message has no content, embeds, attachments, poll, stickers nor components.
    NoContent,
    /// The embeds of a message hold more than `MAX_EMBED_CHARACTERS_LIMIT` characters.
    EmbedCharactersExceeded,
    /// More than `MAX_ACTION_ROWS` rows.
    TooManyComponents,
    /// A top-level component that is not an action row.
    NotAnActionRow,
    /// More than `MAX_BUTTONS_PER_ACTION_ROW` buttons in a row.
    TooManyButtons,
    /// More than `MAX_SELECTS_PER_ACTION_ROW` select menus in a row.
    TooManySelectMenus,
    /// Buttons and a select menu in the same row.
    ButtonsAndSelectMenu,
    /// The text (held) contains offensive words.
    Offensive(String),
    /// The text (held) contains disallowed words.
    Disallowed(String),
    /// Command options nested deeper than `MAX_OPTION_DEPTH`.
    OptionDepthExceeded,
    /// The name (held) does not match Discord's pattern for chat-input command names.
    InvalidName(String),
    /// The name pattern could not be compiled.
    NamePatternUnavailable,
}

/// A `ValidationError` with its texts taken by their characters.
pub enum ValidationErrorView {
    Empty(TextPart),
    TooLong(TextPart),
    NoContent,
    EmbedCharactersExceeded,
    TooManyComponents,
    NotAnActionRow,
    TooManyButtons,
    TooManySelectMenus,
    ButtonsAndSelectMenu,
    Offensive(Seq<char>),
    Disallowed(Seq<char>),
    OptionDepthExceeded,
    InvalidName(Seq<char>),
    NamePatternUnavailable,
}

impl View for ValidationError {
    type V = ValidationErrorView;

    open spec fn view(&self) -> ValidationErrorView {
        match self {
            ValidationError::Empty(p) => ValidationErrorView::Empty(*p),
            ValidationError::TooLong(p) => ValidationErrorView::TooLong(*p),
            ValidationError::NoContent => ValidationErrorView::NoContent,
            ValidationError::EmbedCharactersExceeded => ValidationErrorView::EmbedCharactersExceeded,
            ValidationError::TooManyComponents => ValidationErrorView::TooManyComponents,
            ValidationError::NotAnActionRow => ValidationErrorView::NotAnActionRow,
            ValidationError::TooManyButtons => ValidationErrorView::TooManyButtons,
            ValidationError::TooManySelectMenus => ValidationErrorView::TooManySelectMenus,
            ValidationError::ButtonsAndSelectMenu => ValidationErrorView::ButtonsAndSelectMenu,
            ValidationError::Offensive(s) => ValidationErrorView::Offensive(s@),
            ValidationError::Disallowed(s) => ValidationErrorView::Disallowed(s@),
            ValidationError::OptionDepthExceeded => ValidationErrorView::OptionDepthExceeded,
            ValidationError::InvalidName(s) => ValidationErrorView::InvalidName(s@),
            ValidationError::NamePatternUnavailable => ValidationErrorView::NamePatternUnavailable,
        }
    }
}

/// The text of a value shown by Rust's debug formatting of a string (`{:?}`: quoted, with
/// escapes).
pub uninterp spec fn str_debug_text(s: Seq<char>) -> Seq<char>;

/// The debug text of `rustrict`'s analysis of `s` (`{:?}` of `Censor::from_str(s).analyze()`).
pub uninterp spec fn rustrict_analysis_text(s: Seq<char>) -> Seq<char>;

/// Shows a string by Rust's debug formatting (`format!("{:?}", s)`).
#[verifier::external_body]
fn debug_text(s: &str) -> (r: String)
    ensures
        r@ == str_debug_text(s@),
{
    format!("{:?}", s)
}

/// Shows `rustrict`'s analysis of `s` by its debug formatting.
#[verifier::external_body]
fn analysis_text(s: &str) -> (r: String)
    ensures
        r@ == rustrict_analysis_text(s@),
{
    format!("{:?}", rustrict::Censor::from_str(s).analyze())
}

/// What a piece of text is called in messages.
pub open spec fn part_name(p: TextPart) -> Seq<char> {
    match p {
        TextPart::EmbedTitle => "Embed title"@,
        TextPart::EmbedDescription => "Embed description"@,
        TextPart::EmbedFooterText => "Embed footer text"@,
        TextPart::EmbedAuthorName => "Embed author name"@,
        TextPart::EmbedFieldName => "Embed field name"@,
        TextPart::EmbedFieldValue => "Embed field value"@,
        TextPart::MessageContent => "Message content"@,
    }
}

/// The limit of a piece of text, as its message writes it.
pub open spec fn part_limit_text(p: TextPart) -> Seq<char> {
    match p {
        TextPart::EmbedTitle => "256"@,
        TextPart::EmbedDescription => "4096"@,
        TextPart::EmbedFooterText => "2048"@,
        TextPart::EmbedAuthorName => "256"@,
        TextPart::EmbedFieldName => "256"@,
        TextPart::EmbedFieldValue => "1024"@,
        TextPart::MessageContent => "2000"@,
    }
}

/// The message of a validation error.
pub open spec fn validation_error_text(e: ValidationErrorView) -> Seq<char> {
    match e {
        ValidationErrorView::Empty(p) => part_name(p) + " cannot be empty"@,
        ValidationErrorView::TooLong(p) => part_name(p) + " is too long, limit is "@ + part_limit_text(p),
        ValidationErrorView::NoContent => "No content/embeds/attachments/poll/sticker_ids/components set"@,
        ValidationErrorView::EmbedCharactersExceeded => "Total embed characters is too long, limit is 6000"@,
        ValidationErrorView::TooManyComponents => "Too many components, limit is 5"@,
        ValidationErrorView::NotAnActionRow => "Invalid component type, must be an action row"@,
        ValidationErrorView::TooManyButtons => "Too many buttons in action row, limit is 5"@,
        ValidationErrorView::TooManySelectMenus => "Too many select menus in action row, limit is 1"@,
        ValidationErrorView::ButtonsAndSelectMenu => "Cannot have buttons and a select menu in action row"@,
        ValidationErrorView::Offensive(s) => "Input contains offensive words: "@ + str_debug_text(s) + " "@ + rustrict_analysis_text(s),
        ValidationErrorView::Disallowed(s) => "Input contains disallowed words: "@ + str_debug_text(s),
        ValidationErrorView::OptionDepthExceeded => "Exceeded maximum depth of 3 for command options"@,
        ValidationErrorView::InvalidName(n) => "Name '"@ + n + "' does not match Discord's regex for CHAT_INPUT commands"@,
        ValidationErrorView::NamePatternUnavailable => "Failed to compile regex for Discord name validation"@,
    }
}

fn part_texts(p: TextPart) -> (r: (&'static str, &'static str))
    ensures
        r.0@ == part_name(p),
        r.1@ == part_limit_text(p),
{
    match p {
        TextPart::EmbedTitle => ("Embed title", "256"),
        TextPart::EmbedDescription => ("Embed description", "4096"),
        TextPart::EmbedFooterText => ("Embed footer text", "2048"),
        TextPart::EmbedAuthorName => ("Embed author name", "256"),
        TextPart::EmbedFieldName => ("Embed field name", "256"),
        TextPart::EmbedFieldValue => ("Embed field value", "1024"),
        TextPart::MessageContent => ("Message content", "2000"),
    }
}

impl ValidationError {
    /// The error's message.
    pub fn message(&self) -> (r: String)
        ensures
            r@ == validation_error_text(self@),
    {
        match self {
            ValidationError::Empty(p) => {
                let (name, _) = part_texts(*p);
                let mut s = name.to_string();
                append_str(&mut s, " cannot be empty");
                s
            },
            ValidationError::TooLong(p) => {
                let (name, limit) = part_texts(*p);
                let mut s = name.to_string();
                append_str(&mut s, " is too long, limit is ");
                append_str(&mut s, limit);
                s
            },
            ValidationError::NoContent => "No content/embeds/attachments/poll/sticker_ids/components set".to_string(),
            ValidationError::EmbedCharactersExceeded => "Total embed characters is too long, limit is 6000".to_string(),
            ValidationError::TooManyComponents => "Too many components, limit is 5".to_string(),
            ValidationError::NotAnActionRow => "Invalid component type, must be an action row".to_string(),
            ValidationError::TooManyButtons => "Too many buttons in action row, limit is 5".to_string(),
            ValidationError::TooManySelectMenus => "Too many select menus in action row, limit is 1".to_string(),
            ValidationError::ButtonsAndSelectMenu => "Cannot have buttons and a select menu in action row".to_string(),
            ValidationError::Offensive(t) => {
                let mut s = "Input contains offensive words: ".to_string();
                let d = debug_text(t.as_str());
                append_str(&mut s, d.as_str());
                append_str(&mut s, " ");
                let a = analysis_text(t.as_str());
                append_str(&mut s, a.as_str());
                s
            },
            ValidationError::Disallowed(t) => {
                let mut s = "Input contains disallowed words: ".to_string();
                let d = debug_text(t.as_str());
                append_str(&mut s, d.as_str());
                s
            },
            ValidationError::OptionDepthExceeded => "Exceeded maximum depth of 3 for command options".to_string(),
            ValidationError::InvalidName(n) => {
                let mut s = "Name '".to_string();
                append_str(&mut s, n.as_str());
                append_str(&mut s, "' does not match Discord's regex for CHAT_INPUT commands");
                s
            },
            ValidationError::NamePatternUnavailable => "Failed to compile regex for Discord name validation".to_string(),
        }
    }
}

/// A result whose error is taken by its view.
pub open spec fn res_view<T>(r: Result<T, ValidationError>) -> Result<T, ValidationErrorView> {
    match r {
        Ok(t) => Ok(t),
        Err(e) => Err(e@),
    }
}

/// The footer of an embed.
#[derive(Debug, Clone)]
pub struct EmbedFooter {
    pub text: String,
}

/// The author of an embed.
#[derive(Debug, Clone)]
pub struct EmbedAuthor {
    pub name: String,
}

/// A field of an embed.
#[derive(Debug, Clone)]
pub struct EmbedField {
    pub name: String,
    pub value: String,
}

/// The texts of an embed that validation reads.
#[derive(Debug, Clone, Default)]
pub struct CreateEmbed {
    pub title: Option<String>,
    pub description: Option<String>,
    pub footer: Option<EmbedFooter>,
    pub author: Option<EmbedAuthor>,
    pub fields: Vec<EmbedField>,
}

/// A present piece of text must be non-empty and within its limit, which is counted in bytes;
/// its characters count.
pub open spec fn text_check(s: Seq<char>, p: TextPart) -> Result<nat, ValidationErrorView> {
    if s.len() == 0 {
        Err(ValidationErrorView::Empty(p))
    } else if byte_len(s) > part_limit(p) {
        Err(ValidationErrorView::TooLong(p))
    } else {
        Ok(s.len())
    }
}

/// A text has at least as many bytes as characters: each character takes one to four.
proof fn lemma_chars_at_most_bytes(s: Seq<char>)
    ensures
        s.len() <= byte_len(s),
    decreases s.len(),
{
    if s.len() > 0 {
        lemma_chars_at_most_bytes(s.drop_first());
        assert(vstd::utf8::encode_scalar(s[0] as u32).len() >= 1);
    }
}

/// An absent piece of text counts zero.
pub open spec fn opt_text_check(s: Option<Seq<char>>, p: TextPart) -> Result<nat, ValidationErrorView> {
    match s {
        None => Ok(0),
        Some(t) => text_check(t, p),
    }
}

/// The first error of `a` then `b`, or the sum of their counts.
pub open spec fn then_add(a: Result<nat, ValidationErrorView>, b: Result<nat, ValidationErrorView>) -> Result<
    nat,
    ValidationErrorView,
> {
    match a {
        Err(e) => Err(e),
        Ok(x) => match b {
            Err(e) => Err(e),
            Ok(y) => Ok(x + y),
        },
    }
}

/// The fields checked in order, each name before its value.
pub open spec fn fields_check(fs: Seq<EmbedField>) -> Result<nat, ValidationErrorView>
    decreases fs.len(),
{
    if fs.len() == 0 {
        Ok(0)
    } else {
        then_add(
            fields_check(fs.drop_last()),
            then_add(
                text_check(fs.last().name@, TextPart::EmbedFieldName),
                text_check(fs.last().value@, TextPart::EmbedFieldValue),
            ),
        )
    }
}

/// The title of an embed, by its characters.
pub open spec fn title_of(e: CreateEmbed) -> Option<Seq<char>> {
    match e.title {
        Some(t) => Some(t@),
        None => None,
    }
}

/// The description of an embed, by its characters.
pub open spec fn description_of(e: CreateEmbed) -> Option<Seq<char>> {
    match e.description {
        Some(t) => Some(t@),
        None => None,
    }
}

/// The footer text of an embed, by its characters.
pub open spec fn footer_of(e: CreateEmbed) -> Option<Seq<char>> {
    match e.footer {
        Some(f) => Some(f.text@),
        None => None,
    }
}

/// The author name of an embed, by its characters.
pub open spec fn author_of(e: CreateEmbed) -> Option<Seq<char>> {
    match e.author {
        Some(a) => Some(a.name@),
        None => None,
    }
}

/// The checks of an embed before its fields.
pub open spec fn embed_head_check(e: CreateEmbed) -> Result<nat, ValidationErrorView> {
    then_add(
        then_add(
            then_add(
                opt_text_check(title_of(e), TextPart::EmbedTitle),
                opt_text_check(description_of(e), TextPart::EmbedDescription),
            ),
            opt_text_check(footer_of(e), TextPart::EmbedFooterText),
        ),
        opt_text_check(author_of(e), TextPart::EmbedAuthorName),
    )
}

/// The outcome of validating an embed: title, description, footer text, author name, then
/// the fields; on success the total number of characters of these texts.
pub open spec fn embed_check(e: CreateEmbed) -> Result<nat, ValidationErrorView> {
    then_add(embed_head_check(e), fields_check(e.fields@))
}

/// Whether an optional text is absent, or non-empty and at most `limit` bytes.
pub open spec fn absent_or_within(s: Option<Seq<char>>, limit: nat) -> bool {
    match s {
        None => true,
        Some(t) => t.len() > 0 && byte_len(t) <= limit,
    }
}

/// The characters of an optional text; none for an absent one.
pub open spec fn opt_char_count(s: Option<Seq<char>>) -> nat {
    match s {
        None => 0,
        Some(t) => t.len(),
    }
}

/// The characters of the names and values of `fs`.
pub open spec fn field_char_count(fs: Seq<EmbedField>) -> nat
    decreases fs.len(),
{
    if fs.len() == 0 {
        0
    } else {
        field_char_count(fs.drop_last()) + fs.last().name@.len() + fs.last().value@.len()
    }
}

/// Whether every field has a name of 1 to 256 bytes and a value of 1 to 1024 bytes.
pub open spec fn fields_within_limits(fs: Seq<EmbedField>) -> bool {
    forall|i: int| 0 <= i < fs.len() ==> {
        &&& (#[trigger] fs[i]).name@.len() > 0
        &&& byte_len(fs[i].name@) <= 256
        &&& fs[i].value@.len() > 0
        &&& byte_len(fs[i].value@) <= 1024
    }
}

proof fn lemma_fields_within_limits(fs: Seq<EmbedField>)
    ensures
        (fields_check(fs) is Ok) == fields_within_limits(fs),
        fields_check(fs) matches Ok(n) ==> n == field_char_count(fs),
    decreases fs.len(),
{
    if fs.len() > 0 {
        let init = fs.drop_last();
        lemma_fields_within_limits(init);
        if fields_within_limits(fs) {
            assert forall|i: int| 0 <= i < init.len() implies {
                &&& (#[trigger] init[i]).name@.len() > 0
                &&& byte_len(init[i].name@) <= 256
                &&& init[i].value@.len() > 0
                &&& byte_len(init[i].value@) <= 1024
            } by {
                assert(init[i] == fs[i]);
            }
            assert(fs.last() == fs[fs.len() - 1]);
        }
        if fields_check(fs) is Ok {
            assert forall|i: int| 0 <= i < fs.len() implies {
                &&& (#[trigger] fs[i]).name@.len() > 0
                &&& byte_len(fs[i].name@) <= 256
                &&& fs[i].value@.len() > 0
                &&& byte_len(fs[i].value@) <= 1024
            } by {
                if i < fs.len() - 1 {
                    assert(init[i] == fs[i]);
                }
            }
        }
    }
}

/// An embed is accepted exactly when each of its texts that is present is non-empty and
/// within Discord's limit in bytes (title 256, description 4096, footer text 2048, author
/// name 256, each field name 256 and each field value 1024); an accepted embed counts the
/// characters of all these texts.
pub proof fn lemma_embed_accepted_within_limits(e: CreateEmbed)
    ensures
        (embed_check(e) is Ok) == {
            &&& absent_or_within(title_of(e), 256)
            &&& absent_or_within(description_of(e), 4096)
            &&& absent_or_within(footer_of(e), 2048)
            &&& absent_or_within(author_of(e), 256)
            &&& fields_within_limits(e.fields@)
        },
        embed_check(e) matches Ok(n) ==> n == opt_char_count(title_of(e)) + opt_char_count(description_of(e))
            + opt_char_count(footer_of(e)) + opt_char_count(author_of(e)) + field_char_count(e.fields@),
{
    lemma_fields_within_limits(e.fields@);
}

/// The byte length of a text held in memory fits in a `usize`.
pub open spec fn text_fits(s: Seq<char>) -> bool {
    byte_len(s) <= usize::MAX
}

/// An optional text held in memory fits.
pub open spec fn opt_text_fits(s: Option<Seq<char>>) -> bool {
    match s {
        Some(t) => text_fits(t),
        None => true,
    }
}

/// Machine limits on an embed held in memory: every text's byte length fits in a `usize`,
/// and so does the running count (each checked text adds at most its limit).
pub open spec fn embed_fits(e: CreateEmbed) -> bool {
    &&& 12656 + 1280 * e.fields@.len() <= usize::MAX
    &&& opt_text_fits(title_of(e))
    &&& opt_text_fits(description_of(e))
    &&& opt_text_fits(footer_of(e))
    &&& opt_text_fits(author_of(e))
    &&& forall|i: int| 0 <= i < e.fields@.len() ==> text_fits(#[trigger] e.fields@[i].name@)
        && text_fits(e.fields@[i].value@)
}

/// A checked text of `e` adds at most its limit.
proof fn lemma_text_check_bound(s: Seq<char>, p: TextPart)
    ensures
        text_check(s, p) matches Ok(n) ==> n <= part_limit(p),
{
    lemma_chars_at_most_bytes(s);
}

/// The fields check counts at most 1280 characters per field.
proof fn lemma_fields_check_bound(fs: Seq<EmbedField>)
    ensures
        fields_check(fs) matches Ok(n) ==> n <= 1280 * fs.len(),
    decreases fs.len(),
{
    if fs.len() > 0 {
        lemma_fields_check_bound(fs.drop_last());
        lemma_text_check_bound(fs.last().name@, TextPart::EmbedFieldName);
        lemma_text_check_bound(fs.last().value@, TextPart::EmbedFieldValue);
    }
}

/// Checks one piece of text against its limit; returns its number of characters.
fn check_text(s: &String, p: TextPart) -> (r: Result<usize, ValidationError>)
    requires
        text_fits(s@),
    ensures
        res_view(r) == match text_check(s@, p) {
            Ok(n) => Ok::<usize, ValidationErrorView>(n as usize),
            Err(e) => Err(e),
        },
        r matches Ok(n) ==> n == s@.len() && n <= part_limit(p),
{
    proof {
        lemma_text_check_bound(s@, p);
    }
    let t = s.as_str();
    if t.is_empty() {
        return Err(ValidationError::Empty(p));
    }
    if t.len() > text_limit(p) {
        return Err(ValidationError::TooLong(p));
    }
    Ok(t.unicode_len())
}

/// Validates an embed, returning the total number of characters of its checked texts.
pub fn validate_embed(embed: &CreateEmbed) -> (r: Result<usize, ValidationError>)
    requires
        embed_fits(*embed),
    ensures
        res_view(r) == match embed_check(*embed) {
            Ok(n) => Ok::<usize, ValidationErrorView>(n as usize),
            Err(e) => Err(e),
        },
        r matches Ok(n) ==> embed_check(*embed) == Ok::<nat, ValidationErrorView>(n as nat),
{
    let mut total: usize = 0;
    if let Some(title) = &embed.title {
        total = check_text(title, TextPart::EmbedTitle)?;
    }
    if let Some(description) = &embed.description {
        let n = check_text(description, TextPart::EmbedDescription)?;
        total = total + n;
    }
    if let Some(footer) = &embed.footer {
        let n = check_text(&footer.text, TextPart::EmbedFooterText)?;
        total = total + n;
    }
    if let Some(author) = &embed.author {
        let n = check_text(&author.name, TextPart::EmbedAuthorName)?;
        total = total + n;
    }
    assert(embed_head_check(*embed) == Ok::<nat, ValidationErrorView>(total as nat));
    assert(total <= 6656);
    let mut i: usize = 0;
    let mut fields_total: usize = 0;
    while i < embed.fields.len()
        invariant
            i <= embed.fields.len(),
            embed_fits(*embed),
            total <= 6656,
            embed_head_check(*embed) == Ok::<nat, ValidationErrorView>(total as nat),
            fields_total <= 1280 * i,
            fields_check(embed.fields@.take(i as int)) == Ok::<nat, ValidationErrorView>(fields_total as nat),
        decreases embed.fields.len() - i,
    {
        let field = &embed.fields[i];
        let ghost prev = embed.fields@.take(i as int);
        let ghost next = embed.fields@.take(i + 1);
        assert(next.drop_last() =~= prev);
        assert(next.last() == *field);
        let a = check_text(&field.name, TextPart::EmbedFieldName);
        let a = match a {
            Ok(a) => a,
            Err(e) => {
                proof {
                    lemma_fields_prefix_err(embed.fields@, i + 1);
                }
                return Err(e);
            },
        };
        let b = check_text(&field.value, TextPart::EmbedFieldValue);
        let b = match b {
            Ok(b) => b,
            Err(e) => {
                proof {
                    lemma_fields_prefix_err(embed.fields@, i + 1);
                }
                return Err(e);
            },
        };
        fields_total = fields_total + a + b;
        i = i + 1;
    }
    assert(embed.fields@.take(i as int) =~= embed.fields@);
    Ok(total + fields_total)
}

/// An error in the checks of the first `k` fields is the error of all the fields.
proof fn lemma_fields_prefix_err(fs: Seq<EmbedField>, k: int)
    requires
        0 <= k <= fs.len(),
        fields_check(fs.take(k)) is Err,
    ensures
        fields_check(fs) == fields_check(fs.take(k)),
    decreases fs.len() - k,
{
    if k < fs.len() {
        assert(fs.take(k + 1).drop_last() =~= fs.take(k));
        lemma_fields_prefix_err(fs, k + 1);
    } else {
        assert(fs.take(k) =~= fs);
    }
}


/// Discord's pattern for the names of chat-input commands and their options.
pub const DISCORD_NAME_PATTERN: &'static str = r"^[-_'\p{L}\p{N}\p{sc=Deva}\p{sc=Thai}]{1,32}$";

/// What the `regex` crate decides for `pattern` on `haystack`: `None` where `Regex::new`
/// refuses the pattern, else `Some` of `Regex::is_match` (a match anywhere in the haystack).
pub uninterp spec fn regex_is_match(pattern: Seq<char>, haystack: Seq<char>) -> Option<bool>;

/// Compiles `pattern` with `regex::Regex::new` and tests `haystack` with `Regex::is_match`.
/// The contract names the outcome (`regex_is_match`) and states nothing more of it.
#[verifier::external_body]
fn regex_match(pattern: &str, haystack: &str) -> (r: Option<bool>)
    ensures
        r == regex_is_match(pattern@, haystack@),
{
    match regex::Regex::new(pattern) {
        Ok(re) => Some(re.is_match(haystack)),
        Err(_) => None,
    }
}

/// The outcome of checking `name` against Discord's name pattern, given what the pattern
/// matcher found (`None` where the pattern could not be compiled).
pub fn name_check_outcome(name: &str, matched: Option<bool>) -> (r: Result<(), ValidationError>)
    ensures
        res_view(r) == name_outcome_spec(name@, matched),
{
    match matched {
        Some(true) => Ok(()),
        Some(false) => Err(ValidationError::InvalidName(name.to_owned())),
        None => Err(ValidationError::NamePatternUnavailable),
    }
}

/// `Ok` on a match; the name is refused where it does not match; a pattern that could not be
/// compiled refuses every name.
pub open spec fn name_outcome_spec(name: Seq<char>, matched: Option<bool>) -> Result<(), ValidationErrorView> {
    match matched {
        Some(true) => Ok(()),
        Some(false) => Err(ValidationErrorView::InvalidName(name)),
        None => Err(ValidationErrorView::NamePatternUnavailable),
    }
}

/// The outcome of validating a chat-input command or option name.
pub open spec fn name_check(name: Seq<char>) -> Result<(), ValidationErrorView> {
    name_outcome_spec(name, regex_is_match(DISCORD_NAME_PATTERN@, name))
}

/// Checks `name` against Discord's pattern `^[-_'\p{L}\p{N}\p{sc=Deva}\p{sc=Thai}]{1,32}$`
/// for the names of chat-input commands.
pub fn validate_name_option_chatinput(name: &str) -> (r: Result<(), ValidationError>)
    ensures
        res_view(r) == name_check(name@),
{
    let matched = regex_match(DISCORD_NAME_PATTERN, name);
    name_check_outcome(name, matched)
}

/// The bits of the `rustrict` crate's analysis of `s` (`Censor::from_str(s).analyze()`, as
/// `Type::bits`): three bits of severity for each kind of inappropriate text.
pub uninterp spec fn rustrict_type_bits(s: Seq<char>) -> u32;

/// The analysis threshold the offensive check uses, `(Type::OFFENSIVE | Type::SEXUAL) &
/// Type::SEVERE`: the severe bit of the offensive kind (`0b000_100_000`) and of the sexual kind
/// (`0b100_000_000`).
pub const SEVERE_OFFENSIVE_OR_SEXUAL: u32 = 288;

/// Whether the analysis of `s` meets the threshold (`Type::is`: some bit in common).
pub open spec fn severely_offensive(s: Seq<char>) -> bool {
    rustrict_type_bits(s) & SEVERE_OFFENSIVE_OR_SEXUAL != 0
}

/// Runs `rustrict`'s analysis (`Censor::from_str(input).analyze()`) and gives its bits
/// (`Type::bits`). The contract names the outcome and states nothing more of it.
#[verifier::external_body]
#[allow(deprecated)]
fn rustrict_analysis(input: &str) -> (r: u32)
    ensures
        r == rustrict_type_bits(input@),
{
    rustrict::Censor::from_str(input).analyze().bits()
}

/// `p` is what `f` answers: every answer `f` can give on a string is `p` of its characters.
pub open spec fn decides<F: Fn(&str) -> bool>(f: F, p: spec_fn(Seq<char>) -> bool) -> bool {
    forall|s: &str, b: bool| #[trigger] call_ensures(f, (s,), b) ==> b == p(s@)
}

/// `f` may be called on any string.
pub open spec fn callable<F: Fn(&str) -> bool>(f: F) -> bool {
    forall|s: &str| #[trigger] call_requires(f, (s,))
}

/// The outcome of the safe-word check, where `safe` is the safe-word test.
pub open spec fn safe_check(s: Seq<char>, safe: spec_fn(Seq<char>) -> bool) -> Result<(), ValidationErrorView> {
    if safe(s) {
        Ok(())
    } else {
        Err(ValidationErrorView::Disallowed(s))
    }
}

/// The outcome of the offensive-word check: text the analysis finds severely offensive or
/// sexual is refused unless it passes the safe-word test.
pub open spec fn offensive_check(s: Seq<char>, safe: spec_fn(Seq<char>) -> bool) -> Result<(), ValidationErrorView> {
    if severely_offensive(s) && !safe(s) {
        Err(ValidationErrorView::Offensive(s))
    } else {
        Ok(())
    }
}

/// Checks that `input` only uses safe words, by the safe-word test `is_safe_word`.
pub fn validate_string_safe<F: Fn(&str) -> bool>(input: &str, is_safe_word: &F) -> (r: Result<(), ValidationError>)
    requires
        callable(*is_safe_word),
    ensures
        r is Ok ==> call_ensures(*is_safe_word, (input,), true),
        r is Err ==> call_ensures(*is_safe_word, (input,), false),
        forall|p: spec_fn(Seq<char>) -> bool| decides(*is_safe_word, p) ==> res_view(r) == safe_check(input@, p),
{
    if is_safe_word(input) {
        Ok(())
    } else {
        Err(ValidationError::Disallowed(input.to_owned()))
    }
}

/// Checks that `input` is not offensive: text that the analysis finds severely offensive or
/// sexual passes only if it passes the safe-word test `is_safe_word`.
pub fn validate_string_offensive<F: Fn(&str) -> bool>(input: &str, is_safe_word: &F) -> (r: Result<(), ValidationError>)
    requires
        callable(*is_safe_word),
    ensures
        forall|p: spec_fn(Seq<char>) -> bool| decides(*is_safe_word, p) ==> res_view(r) == offensive_check(input@, p),
        !severely_offensive(input@) ==> r is Ok,
        r is Err ==> severely_offensive(input@) && call_ensures(*is_safe_word, (input,), false),
{
    let bits = rustrict_analysis(input);
    if bits & SEVERE_OFFENSIVE_OR_SEXUAL != 0 {
        if validate_string_safe(input, is_safe_word).is_ok() {
            return Ok(());
        }
        Err(ValidationError::Offensive(input.to_owned()))
    } else {
        Ok(())
    }
}


/// The offensive check is weaker than the safe check: text that passes the safe-word test
/// always passes the offensive check, and text that the offensive check refuses fails the
/// safe-word test too.
pub proof fn lemma_safe_passes_offensive(s: Seq<char>, safe: spec_fn(Seq<char>) -> bool)
    ensures
        safe_check(s, safe) is Ok ==> offensive_check(s, safe) is Ok,
        offensive_check(s, safe) is Err ==> safe_check(s, safe) is Err,
{
}

/// `f` gives one answer for one text, however often it is asked.
pub open spec fn consistent<F: Fn(&str) -> bool>(f: F) -> bool {
    forall|a: &str, b: &str, x: bool, y: bool|
        #![trigger call_ensures(f, (a,), x), call_ensures(f, (b,), y)]
        a@ == b@ && call_ensures(f, (a,), x) && call_ensures(f, (b,), y) ==> x == y
}

/// Text that passes the safe check is never refused as offensive: where the safe-word test
/// answers one way for one text, `validate_string_safe` succeeding on `input` (its test
/// answered `true`) rules out `validate_string_offensive` refusing it (which needs the test to
/// answer `false`).
pub proof fn lemma_safe_call_passes_offensive<F: Fn(&str) -> bool>(f: F, input: &str)
    requires
        consistent(f),
        call_ensures(f, (input,), true),
    ensures
        !call_ensures(f, (input,), false),
{
}

/// The type of a message component.
#[derive(Debug, Clone, Copy, PartialEq, Eq, Structural)]
pub enum ComponentType {
    ActionRow,
    Button,
    StringSelect,
    TextInput,
    UserSelect,
    RoleSelect,
    MentionableSelect,
    ChannelSelect,
    Unknown(u8),
}

/// A component inside an action row, with the texts validation reads.
#[derive(Debug, Clone)]
pub enum ActionRowComponent {
    Button { label: Option<String> },
    SelectMenu { placeholder: Option<String>, option_labels: Vec<String> },
    InputText,
}

/// A top-level message component; it must be an action row.
#[derive(Debug, Clone)]
pub struct ActionRow {
    pub kind: ComponentType,
    pub components: Vec<ActionRowComponent>,
}

/// Each label checked in order for offensive words.
pub open spec fn labels_check(ls: Seq<String>, safe: spec_fn(Seq<char>) -> bool) -> Result<(), ValidationErrorView>
    decreases ls.len(),
{
    if ls.len() == 0 {
        Ok(())
    } else {
        match labels_check(ls.drop_last(), safe) {
            Err(e) => Err(e),
            Ok(()) => offensive_check(ls.last()@, safe),
        }
    }
}

/// An optional text checked for offensive words.
pub open spec fn opt_offensive_check(s: Option<String>, safe: spec_fn(Seq<char>) -> bool) -> Result<(), ValidationErrorView> {
    match s {
        Some(t) => offensive_check(t@, safe),
        None => Ok(()),
    }
}

/// One component of a row, given the numbers of buttons and select menus before it; on
/// success the new numbers.
pub open spec fn component_step(c: ActionRowComponent, buttons: nat, selects: nat, safe: spec_fn(Seq<char>) -> bool) -> Result<
    (nat, nat),
    ValidationErrorView,
> {
    match c {
        ActionRowComponent::Button { label } => match opt_offensive_check(label, safe) {
            Err(e) => Err(e),
            Ok(()) => if buttons >= 5 {
                Err(ValidationErrorView::TooManyButtons)
            } else if selects > 0 {
                Err(ValidationErrorView::ButtonsAndSelectMenu)
            } else {
                Ok((buttons + 1, selects))
            },
        },
        ActionRowComponent::SelectMenu { placeholder, option_labels } => match opt_offensive_check(
            placeholder,
            safe,
        ) {
            Err(e) => Err(e),
            Ok(()) => match labels_check(option_labels@, safe) {
                Err(e) => Err(e),
                Ok(()) => if selects >= 1 {
                    Err(ValidationErrorView::TooManySelectMenus)
                } else if buttons > 0 {
                    Err(ValidationErrorView::ButtonsAndSelectMenu)
                } else {
                    Ok((buttons, selects + 1))
                },
            },
        },
        ActionRowComponent::InputText => Ok((buttons, selects)),
    }
}

/// The components of a row checked in order; on success the numbers of buttons and selects.
pub open spec fn components_check(cs: Seq<ActionRowComponent>, safe: spec_fn(Seq<char>) -> bool) -> Result<
    (nat, nat),
    ValidationErrorView,
>
    decreases cs.len(),
{
    if cs.len() == 0 {
        Ok((0, 0))
    } else {
        match components_check(cs.drop_last(), safe) {
            Err(e) => Err(e),
            Ok((b, sel)) => component_step(cs.last(), b, sel, safe),
        }
    }
}

/// One row: it must be an action row, and its components must pass.
pub open spec fn row_check(row: ActionRow, safe: spec_fn(Seq<char>) -> bool) -> Result<(), ValidationErrorView> {
    if row.kind != ComponentType::ActionRow {
        Err(ValidationErrorView::NotAnActionRow)
    } else {
        match components_check(row.components@, safe) {
            Err(e) => Err(e),
            Ok(_) => Ok(()),
        }
    }
}

/// The rows checked in order.
pub open spec fn rows_in_order_check(rows: Seq<ActionRow>, safe: spec_fn(Seq<char>) -> bool) -> Result<(), ValidationErrorView>
    decreases rows.len(),
{
    if rows.len() == 0 {
        Ok(())
    } else {
        match rows_in_order_check(rows.drop_last(), safe) {
            Err(e) => Err(e),
            Ok(()) => row_check(rows.last(), safe),
        }
    }
}

/// The outcome of validating a set of components: at most five rows, each a valid action row.
pub open spec fn components_outcome(rows: Seq<ActionRow>, safe: spec_fn(Seq<char>) -> bool) -> Result<(), ValidationErrorView> {
    if rows.len() > 5 {
        Err(ValidationErrorView::TooManyComponents)
    } else {
        rows_in_order_check(rows, safe)
    }
}

/// The number of buttons among `cs`.
pub open spec fn button_count(cs: Seq<ActionRowComponent>) -> nat
    decreases cs.len(),
{
    if cs.len() == 0 {
        0
    } else {
        button_count(cs.drop_last()) + if cs.last() is Button { 1nat } else { 0nat }
    }
}

/// The number of select menus among `cs`.
pub open spec fn select_count(cs: Seq<ActionRowComponent>) -> nat
    decreases cs.len(),
{
    if cs.len() == 0 {
        0
    } else {
        select_count(cs.drop_last()) + if cs.last() is SelectMenu { 1nat } else { 0nat }
    }
}

/// What a row's check counts is what the row holds, and an accepted row holds at most five
/// buttons, at most one select menu, and never both.
proof fn lemma_components_check_counts(cs: Seq<ActionRowComponent>, safe: spec_fn(Seq<char>) -> bool)
    ensures
        components_check(cs, safe) matches Ok((b, sel)) ==> {
            &&& b == button_count(cs)
            &&& sel == select_count(cs)
            &&& b <= 5
            &&& sel <= 1
            &&& (b == 0 || sel == 0)
        },
    decreases cs.len(),
{
    if cs.len() > 0 {
        lemma_components_check_counts(cs.drop_last(), safe);
    }
}

/// Accepted components obey Discord's layout rules: at most five rows, each an action row
/// holding at most five buttons, at most one select menu, and never a button together with a
/// select menu, in whatever order they come.
pub proof fn lemma_accepted_rows_follow_layout(rows: Seq<ActionRow>, safe: spec_fn(Seq<char>) -> bool)
    requires
        components_outcome(rows, safe) is Ok,
    ensures
        rows.len() <= 5,
        forall|i: int| 0 <= i < rows.len() ==> {
            &&& (#[trigger] rows[i]).kind == ComponentType::ActionRow
            &&& button_count(rows[i].components@) <= 5
            &&& select_count(rows[i].components@) <= 1
            &&& (button_count(rows[i].components@) == 0 || select_count(rows[i].components@) == 0)
        },
{
    lemma_rows_follow_layout(rows, safe);
}

proof fn lemma_rows_follow_layout(rows: Seq<ActionRow>, safe: spec_fn(Seq<char>) -> bool)
    requires
        rows_in_order_check(rows, safe) is Ok,
    ensures
        forall|i: int| 0 <= i < rows.len() ==> {
            &&& (#[trigger] rows[i]).kind == ComponentType::ActionRow
            &&& button_count(rows[i].components@) <= 5
            &&& select_count(rows[i].components@) <= 1
            &&& (button_count(rows[i].components@) == 0 || select_count(rows[i].components@) == 0)
        },
    decreases rows.len(),
{
    if rows.len() > 0 {
        let init = rows.drop_last();
        lemma_rows_follow_layout(init, safe);
        lemma_components_check_counts(rows.last().components@, safe);
        assert forall|i: int| 0 <= i < rows.len() implies {
            &&& (#[trigger] rows[i]).kind == ComponentType::ActionRow
            &&& button_count(rows[i].components@) <= 5
            &&& select_count(rows[i].components@) <= 1
            &&& (button_count(rows[i].components@) == 0 || select_count(rows[i].components@) == 0)
        } by {
            if i < rows.len() - 1 {
                assert(rows[i] == init[i]);
            }
        }
    }
}

/// Checks a list of labels for offensive words, in order.
fn check_labels<F: Fn(&str) -> bool>(ls: &Vec<String>, is_safe_word: &F) -> (r: Result<(), ValidationError>)
    requires
        callable(*is_safe_word),
    ensures
        forall|p: spec_fn(Seq<char>) -> bool| decides(*is_safe_word, p) ==> res_view(r) == labels_check(ls@, p),
{
    let mut i: usize = 0;
    while i < ls.len()
        invariant
            i <= ls.len(),
            callable(*is_safe_word),
            forall|p: spec_fn(Seq<char>) -> bool| decides(*is_safe_word, p) ==> labels_check(ls@.take(i as int), p) == Ok::<(), ValidationErrorView>(()),
        decreases ls.len() - i,
    {
        let r = validate_string_offensive(ls[i].as_str(), is_safe_word);
        assert(ls@.take(i + 1).drop_last() =~= ls@.take(i as int));
        if r.is_err() {
            proof {
                assert forall|p: spec_fn(Seq<char>) -> bool| decides(*is_safe_word, p) implies res_view(r) == labels_check(ls@, p) by {
                    lemma_labels_prefix_err(ls@, i + 1, p);
                }
            }
            return r;
        }
        i = i + 1;
    }
    assert(ls@.take(i as int) =~= ls@);
    Ok(())
}

/// An error in the checks of the first `k` labels is the error of all the labels.
proof fn lemma_labels_prefix_err(ls: Seq<String>, k: int, safe: spec_fn(Seq<char>) -> bool)
    requires
        0 <= k <= ls.len(),
        labels_check(ls.take(k), safe) is Err,
    ensures
        labels_check(ls, safe) == labels_check(ls.take(k), safe),
    decreases ls.len() - k,
{
    if k < ls.len() {
        assert(ls.take(k + 1).drop_last() =~= ls.take(k));
        lemma_labels_prefix_err(ls, k + 1, safe);
    } else {
        assert(ls.take(k) =~= ls);
    }
}

/// An error in the checks of the first `k` components is the error of all the components.
proof fn lemma_components_prefix_err(cs: Seq<ActionRowComponent>, k: int, safe: spec_fn(Seq<char>) -> bool)
    requires
        0 <= k <= cs.len(),
        components_check(cs.take(k), safe) is Err,
    ensures
        components_check(cs, safe) == components_check(cs.take(k), safe),
    decreases cs.len() - k,
{
    if k < cs.len() {
        assert(cs.take(k + 1).drop_last() =~= cs.take(k));
        lemma_components_prefix_err(cs, k + 1, safe);
    } else {
        assert(cs.take(k) =~= cs);
    }
}

/// An error in the checks of the first `k` rows is the error of all the rows.
proof fn lemma_rows_prefix_err(rows: Seq<ActionRow>, k: int, safe: spec_fn(Seq<char>) -> bool)
    requires
        0 <= k <= rows.len(),
        rows_in_order_check(rows.take(k), safe) is Err,
    ensures
        rows_in_order_check(rows, safe) == rows_in_order_check(rows.take(k), safe),
    decreases rows.len() - k,
{
    if k < rows.len() {
        assert(rows.take(k + 1).drop_last() =~= rows.take(k));
        lemma_rows_prefix_err(rows, k + 1, safe);
    } else {
        assert(rows.take(k) =~= rows);
    }
}

/// Checks one component given the counts before it; returns the new counts.
fn check_component<F: Fn(&str) -> bool>(
    c: &ActionRowComponent,
    buttons: usize,
    selects: usize,
    is_safe_word: &F,
) -> (r: Result<(usize, usize), ValidationError>)
    requires
        callable(*is_safe_word),
        buttons <= 5,
        selects <= 1,
    ensures
        forall|p: spec_fn(Seq<char>) -> bool| decides(*is_safe_word, p) ==> res_view(r) == match component_step(*c, buttons as nat, selects as nat, p) {
            Ok((b, s)) => Ok::<(usize, usize), ValidationErrorView>((b as usize, s as usize)),
            Err(e) => Err(e),
        },
        r matches Ok((b, s)) ==> b <= 5 && s <= 1,
{
    match c {
        ActionRowComponent::Button { label } => {
            if let Some(label) = label {
                validate_string_offensive(label.as_str(), is_safe_word)?;
            }
            if buttons >= MAX_BUTTONS_PER_ACTION_ROW {
                return Err(ValidationError::TooManyButtons);
            }
            if selects > 0 {
                return Err(ValidationError::ButtonsAndSelectMenu);
            }
            Ok((buttons + 1, selects))
        },
        ActionRowComponent::SelectMenu { placeholder, option_labels } => {
            if let Some(placeholder) = placeholder {
                validate_string_offensive(placeholder.as_str(), is_safe_word)?;
            }
            check_labels(option_labels, is_safe_word)?;
            if selects >= MAX_SELECTS_PER_ACTION_ROW {
                return Err(ValidationError::TooManySelectMenus);
            }
            if buttons > 0 {
                return Err(ValidationError::ButtonsAndSelectMenu);
            }
            Ok((buttons, selects + 1))
        },
        ActionRowComponent::InputText => Ok((buttons, selects)),
    }
}

/// Validates a set of message components: at most five rows, each an action row holding at
/// most five buttons or one select menu (not both), with no offensive labels or placeholders.
pub fn validate_components<F: Fn(&str) -> bool>(rows: &Vec<ActionRow>, is_safe_word: &F) -> (r: Result<(), ValidationError>)
    requires
        callable(*is_safe_word),
    ensures
        forall|p: spec_fn(Seq<char>) -> bool| decides(*is_safe_word, p) ==> res_view(r) == components_outcome(rows@, p),
{
    if rows.len() > MAX_ACTION_ROWS {
        return Err(ValidationError::TooManyComponents);
    }
    let mut i: usize = 0;
    while i < rows.len()
        invariant
            i <= rows.len() <= 5,
            callable(*is_safe_word),
            forall|p: spec_fn(Seq<char>) -> bool| decides(*is_safe_word, p) ==> rows_in_order_check(rows@.take(i as int), p) == Ok::<(), ValidationErrorView>(()),
        decreases rows.len() - i,
    {
        let row = &rows[i];
        assert(rows@.take(i + 1).drop_last() =~= rows@.take(i as int));
        assert(rows@.take(i + 1).last() == *row);
        if row.kind != ComponentType::ActionRow {
            proof {
                assert forall|p: spec_fn(Seq<char>) -> bool| decides(*is_safe_word, p) implies Err::<(), ValidationErrorView>(ValidationErrorView::NotAnActionRow) == components_outcome(rows@, p) by {
                    lemma_rows_prefix_err(rows@, i + 1, p);
                }
            }
            return Err(ValidationError::NotAnActionRow);
        }
        let mut buttons: usize = 0;
        let mut selects: usize = 0;
        let mut j: usize = 0;
        while j < row.components.len()
            invariant
                j <= row.components.len(),
                i < rows.len() <= 5,
                *row == rows@[i as int],
                rows@.take(i + 1).drop_last() =~= rows@.take(i as int),
                rows@.take(i + 1).last() == *row,
                row.kind == ComponentType::ActionRow,
                forall|p: spec_fn(Seq<char>) -> bool| decides(*is_safe_word, p) ==> rows_in_order_check(rows@.take(i as int), p) == Ok::<(), ValidationErrorView>(()),
                buttons <= 5,
                selects <= 1,
                callable(*is_safe_word),
                forall|p: spec_fn(Seq<char>) -> bool| decides(*is_safe_word, p) ==> components_check(row.components@.take(j as int), p) == Ok::<(nat, nat), ValidationErrorView>((buttons as nat, selects as nat)),
            decreases row.components.len() - j,
        {
            assert(row.components@.take(j + 1).drop_last() =~= row.components@.take(j as int));
            let step = check_component(&row.components[j], buttons, selects, is_safe_word);
            match step {
                Ok((b, s)) => {
                    buttons = b;
                    selects = s;
                },
                Err(e) => {
                    proof {
                        assert forall|p: spec_fn(Seq<char>) -> bool| decides(*is_safe_word, p) implies Err::<(), ValidationErrorView>(e@) == components_outcome(rows@, p) by {
                            lemma_components_prefix_err(row.components@, j + 1, p);
                            lemma_rows_prefix_err(rows@, i + 1, p);
                        }
                    }
                    return Err(e);
                },
            }
            j = j + 1;
        }
        assert(row.components@.take(j as int) =~= row.components@);
        i = i + 1;
    }
    assert(rows@.take(i as int) =~= rows@);
    Ok(())
}


/// The attachments of a message: how many new and existing attachments it lists.
#[derive(Debug, Clone, Default)]
pub struct CreateMessageAttachment {
    pub new_and_existing_attachments: usize,
}

/// A poll attached to a message.
#[derive(Debug, Clone)]
pub struct CreatePoll {
    pub question: String,
    pub answers: Vec<String>,
    pub duration: u8,
    pub allow_multiselect: bool,
}

/// What validation reads of a message to be sent.
#[derive(Debug, Clone, Default)]
pub struct CreateMessage {
    pub content: Option<String>,
    pub embeds: Vec<CreateEmbed>,
    pub attachments: Option<CreateMessageAttachment>,
    pub poll: Option<CreatePoll>,
    pub sticker_ids: Vec<u64>,
    pub components: Option<Vec<ActionRow>>,
}

/// Whether a message sets anything to send.
pub open spec fn message_has_payload(m: CreateMessage) -> bool {
    ||| m.content is Some
    ||| m.embeds@.len() > 0
    ||| (m.attachments matches Some(a) && a.new_and_existing_attachments > 0)
    ||| m.poll is Some
    ||| m.sticker_ids@.len() > 0
    ||| (m.components matches Some(rows) && rows@.len() > 0)
}

/// The embeds checked in order, with their running character total, which may not pass
/// `MAX_EMBED_CHARACTERS_LIMIT`.
pub open spec fn embeds_check(es: Seq<CreateEmbed>) -> Result<nat, ValidationErrorView>
    decreases es.len(),
{
    if es.len() == 0 {
        Ok(0)
    } else {
        match embeds_check(es.drop_last()) {
            Err(e) => Err(e),
            Ok(t) => match embed_check(es.last()) {
                Err(e) => Err(e),
                Ok(c) => if t + c > 6000 {
                    Err(ValidationErrorView::EmbedCharactersExceeded)
                } else {
                    Ok(t + c)
                },
            },
        }
    }
}

/// The content of a message, by its characters.
pub open spec fn content_of(m: CreateMessage) -> Option<Seq<char>> {
    match m.content {
        Some(c) => Some(c@),
        None => None,
    }
}

/// The outcome of validating a message: it must set something; present content must be
/// non-empty and at most 2000 bytes; the embeds must pass and hold at most 6000 characters in
/// all; the components must pass.
pub open spec fn message_outcome(m: CreateMessage, safe: spec_fn(Seq<char>) -> bool) -> Result<(), ValidationErrorView> {
    if !message_has_payload(m) {
        Err(ValidationErrorView::NoContent)
    } else {
        match opt_text_check(content_of(m), TextPart::MessageContent) {
            Err(e) => Err(e),
            Ok(_) => match embeds_check(m.embeds@) {
                Err(e) => Err(e),
                Ok(_) => match m.components {
                    Some(rows) => components_outcome(rows@, safe),
                    None => Ok(()),
                },
            },
        }
    }
}

/// Whether a check's outcome is some other than the refusal of a message with nothing to send.
spec fn not_no_content<T>(r: Result<T, ValidationErrorView>) -> bool {
    !(r matches Err(ValidationErrorView::NoContent))
}

proof fn lemma_fields_never_no_content(fs: Seq<EmbedField>)
    ensures
        not_no_content(fields_check(fs)),
    decreases fs.len(),
{
    if fs.len() > 0 {
        lemma_fields_never_no_content(fs.drop_last());
    }
}

proof fn lemma_embeds_never_no_content(es: Seq<CreateEmbed>)
    ensures
        not_no_content(embeds_check(es)),
    decreases es.len(),
{
    if es.len() > 0 {
        lemma_embeds_never_no_content(es.drop_last());
        lemma_fields_never_no_content(es.last().fields@);
    }
}

proof fn lemma_labels_never_no_content(ls: Seq<String>, safe: spec_fn(Seq<char>) -> bool)
    ensures
        not_no_content(labels_check(ls, safe)),
    decreases ls.len(),
{
    if ls.len() > 0 {
        lemma_labels_never_no_content(ls.drop_last(), safe);
    }
}

proof fn lemma_components_never_no_content(cs: Seq<ActionRowComponent>, safe: spec_fn(Seq<char>) -> bool)
    ensures
        not_no_content(components_check(cs, safe)),
    decreases cs.len(),
{
    if cs.len() > 0 {
        lemma_components_never_no_content(cs.drop_last(), safe);
        if let ActionRowComponent::SelectMenu { placeholder, option_labels } = cs.last() {
            lemma_labels_never_no_content(option_labels@, safe);
        }
    }
}

proof fn lemma_rows_never_no_content(rows: Seq<ActionRow>, safe: spec_fn(Seq<char>) -> bool)
    ensures
        not_no_content(rows_in_order_check(rows, safe)),
    decreases rows.len(),
{
    if rows.len() > 0 {
        lemma_rows_never_no_content(rows.drop_last(), safe);
        lemma_components_never_no_content(rows.last().components@, safe);
    }
}

/// A message is refused as having nothing to send exactly when it sets no content, no embed,
/// no attachment, no poll, no sticker and no component; any one of these (a sticker alone,
/// say) is something to send, and every other refusal is for another reason.
pub proof fn lemma_no_content_exactly_when_nothing_set(m: CreateMessage, safe: spec_fn(Seq<char>) -> bool)
    ensures
        (message_outcome(m, safe) == Err::<(), ValidationErrorView>(ValidationErrorView::NoContent)) == {
            &&& m.content is None
            &&& m.embeds@.len() == 0
            &&& !(m.attachments matches Some(a) && a.new_and_existing_attachments > 0)
            &&& m.poll is None
            &&& m.sticker_ids@.len() == 0
            &&& !(m.components matches Some(rows) && rows@.len() > 0)
        },
{
    lemma_embeds_never_no_content(m.embeds@);
    if let Some(rows) = m.components {
        lemma_rows_never_no_content(rows@, safe);
    }
}

/// Machine limits on a message held in memory: its texts' byte lengths fit in a `usize`.
pub open spec fn message_fits(m: CreateMessage) -> bool {
    &&& opt_text_fits(content_of(m))
    &&& forall|i: int| 0 <= i < m.embeds@.len() ==> embed_fits(#[trigger] m.embeds@[i])
}

/// An error in the checks of the first `k` embeds is the error of all the embeds.
proof fn lemma_embeds_prefix_err(es: Seq<CreateEmbed>, k: int)
    requires
        0 <= k <= es.len(),
        embeds_check(es.take(k)) is Err,
    ensures
        embeds_check(es) == embeds_check(es.take(k)),
    decreases es.len() - k,
{
    if k < es.len() {
        assert(es.take(k + 1).drop_last() =~= es.take(k));
        lemma_embeds_prefix_err(es, k + 1);
    } else {
        assert(es.take(k) =~= es);
    }
}

/// Validates a message to be sent.
pub fn validate_message<F: Fn(&str) -> bool>(message: &CreateMessage, is_safe_word: &F) -> (r: Result<(), ValidationError>)
    requires
        callable(*is_safe_word),
        message_fits(*message),
    ensures
        forall|p: spec_fn(Seq<char>) -> bool| decides(*is_safe_word, p) ==> res_view(r) == message_outcome(*message, p),
{
    let has_content = message.content.is_some();
    let has_embed = message.embeds.len() > 0;
    let has_attachments = match &message.attachments {
        Some(a) => a.new_and_existing_attachments > 0,
        None => false,
    };
    let has_poll = message.poll.is_some();
    let has_sticker_ids = message.sticker_ids.len() > 0;
    let has_components = match &message.components {
        Some(rows) => rows.len() > 0,
        None => false,
    };
    if !has_content && !has_embed && !has_attachments && !has_poll && !has_sticker_ids && !has_components {
        return Err(ValidationError::NoContent);
    }
    if let Some(content) = &message.content {
        check_text(content, TextPart::MessageContent)?;
    }
    let mut total: usize = 0;
    let mut i: usize = 0;
    while i < message.embeds.len()
        invariant
            i <= message.embeds.len(),
            message_fits(*message),
            message_has_payload(*message),
            opt_text_check(content_of(*message), TextPart::MessageContent) is Ok,
            total <= 6000,
            embeds_check(message.embeds@.take(i as int)) == Ok::<nat, ValidationErrorView>(total as nat),
        decreases message.embeds.len() - i,
    {
        let embed = &message.embeds[i];
        assert(message.embeds@.take(i + 1).drop_last() =~= message.embeds@.take(i as int));
        assert(message.embeds@.take(i + 1).last() == *embed);
        assert(embed_fits(message.embeds@[i as int]));
        let n = match validate_embed(embed) {
            Ok(n) => n,
            Err(e) => {
                proof {
                    lemma_embeds_prefix_err(message.embeds@, i + 1);
                }
                return Err(e);
            },
        };
        if n > MAX_EMBED_CHARACTERS_LIMIT - total {
            proof {
                lemma_embeds_prefix_err(message.embeds@, i + 1);
            }
            return Err(ValidationError::EmbedCharactersExceeded);
        }
        total = total + n;
        i = i + 1;
    }
    assert(message.embeds@.take(i as int) =~= message.embeds@);
    if let Some(rows) = &message.components {
        validate_components(rows, is_safe_word)?;
    }
    Ok(())
}


/// The kind of an application command.
#[derive(Debug, Clone, Copy, PartialEq, Eq, Structural)]
pub enum CommandType {
    ChatInput,
    User,
    Message,
    PrimaryEntryPoint,
    Unknown(u8),
}

/// The value of a command option choice; only text values are checked.
#[derive(Debug, Clone)]
pub enum ChoiceValue {
    String(String),
    Other,
}

/// A choice offered by a command option.
#[derive(Debug, Clone)]
pub struct CommandOptionChoice {
    pub name: String,
    pub value: ChoiceValue,
}

/// An option of an application command, with its nested options.
#[derive(Debug)]
pub struct CreateCommandOption {
    pub name: String,
    pub name_localizations: Option<Vec<(String, String)>>,
    pub description: String,
    pub description_localizations: Option<Vec<(String, String)>>,
    pub options: Vec<CreateCommandOption>,
    pub choices: Vec<CommandOptionChoice>,
}

/// An application command to be created.
#[derive(Debug, Default)]
pub struct CreateCommand {
    pub kind: Option<CommandType>,
    pub name: Option<String>,
    pub name_localizations: Vec<(String, String)>,
    pub description: Option<String>,
    pub description_localizations: Vec<(String, String)>,
    pub options: Vec<CreateCommandOption>,
}

/// `a`, and if it passes, `b`.
pub open spec fn and_then(a: Result<(), ValidationErrorView>, b: Result<(), ValidationErrorView>) -> Result<(), ValidationErrorView> {
    match a {
        Err(e) => Err(e),
        Ok(()) => b,
    }
}

/// `check` applied to each element in order; the first error, if any.
pub open spec fn all_ok<T>(s: Seq<T>, check: spec_fn(T) -> Result<(), ValidationErrorView>) -> Result<(), ValidationErrorView>
    decreases s.len(),
{
    if s.len() == 0 {
        Ok(())
    } else {
        and_then(all_ok(s.drop_last(), check), check(s.last()))
    }
}

/// An error among the first `k` elements is the error of all of them.
proof fn lemma_all_ok_prefix_err<T>(s: Seq<T>, k: int, check: spec_fn(T) -> Result<(), ValidationErrorView>)
    requires
        0 <= k <= s.len(),
        all_ok(s.take(k), check) is Err,
    ensures
        all_ok(s, check) == all_ok(s.take(k), check),
    decreases s.len() - k,
{
    if k < s.len() {
        assert(s.take(k + 1).drop_last() =~= s.take(k));
        lemma_all_ok_prefix_err(s, k + 1, check);
    } else {
        assert(s.take(k) =~= s);
    }
}

/// The name check applies to chat-input commands only.
pub open spec fn chat_name_check(name: Seq<char>, chat: bool) -> Result<(), ValidationErrorView> {
    if chat {
        name_check(name)
    } else {
        Ok(())
    }
}

/// A localized name: the language and the name must be safe, and for chat-input commands the
/// name must match Discord's pattern.
pub open spec fn name_localization_check(l: (String, String), chat: bool, safe: spec_fn(Seq<char>) -> bool) -> Result<
    (),
    ValidationErrorView,
> {
    and_then(safe_check(l.0@, safe), and_then(safe_check(l.1@, safe), chat_name_check(l.1@, chat)))
}

/// A localized description: the language and the description must be safe.
pub open spec fn description_localization_check(l: (String, String), safe: spec_fn(Seq<char>) -> bool) -> Result<
    (),
    ValidationErrorView,
> {
    and_then(safe_check(l.0@, safe), safe_check(l.1@, safe))
}

/// A choice: its name, and its value if text, must be safe.
pub open spec fn choice_check(c: CommandOptionChoice, safe: spec_fn(Seq<char>) -> bool) -> Result<(), ValidationErrorView> {
    and_then(
        safe_check(c.name@, safe),
        match c.value {
            ChoiceValue::String(v) => safe_check(v@, safe),
            ChoiceValue::Other => Ok(()),
        },
    )
}

/// `name_localization_check` as a function of the localization.
pub open spec fn name_localization_fn(chat: bool, safe: spec_fn(Seq<char>) -> bool) -> spec_fn((String, String)) -> Result<
    (),
    ValidationErrorView,
> {
    |l: (String, String)| name_localization_check(l, chat, safe)
}

/// `description_localization_check` as a function of the localization.
pub open spec fn description_localization_fn(safe: spec_fn(Seq<char>) -> bool) -> spec_fn((String, String)) -> Result<
    (),
    ValidationErrorView,
> {
    |l: (String, String)| description_localization_check(l, safe)
}

/// `choice_check` as a function of the choice.
pub open spec fn choice_fn(safe: spec_fn(Seq<char>) -> bool) -> spec_fn(CommandOptionChoice) -> Result<
    (),
    ValidationErrorView,
> {
    |c: CommandOptionChoice| choice_check(c, safe)
}

/// Localizations that are absent pass.
pub open spec fn opt_all_ok<T>(s: Option<Vec<T>>, check: spec_fn(T) -> Result<(), ValidationErrorView>) -> Result<(), ValidationErrorView> {
    match s {
        Some(v) => all_ok(v@, check),
        None => Ok(()),
    }
}

/// The outcome of validating an option at nesting depth `depth`: the depth may not pass 3;
/// the name, its localizations, the description, its localizations, the nested options (one
/// level deeper) and the choices are checked in this order.
pub open spec fn option_check(o: CreateCommandOption, chat: bool, depth: nat, safe: spec_fn(Seq<char>) -> bool) -> Result<
    (),
    ValidationErrorView,
>
    decreases 4 - depth, 0int, 0int,
{
    if depth > 3 {
        Err(ValidationErrorView::OptionDepthExceeded)
    } else {
        and_then(
            safe_check(o.name@, safe),
            and_then(
                chat_name_check(o.name@, chat),
                and_then(
                    opt_all_ok(o.name_localizations, name_localization_fn(chat, safe)),
                    and_then(
                        safe_check(o.description@, safe),
                        and_then(
                            opt_all_ok(o.description_localizations, description_localization_fn(safe)),
                            and_then(
                                options_check(o.options@, chat, depth + 1, safe),
                                all_ok(o.choices@, choice_fn(safe)),
                            ),
                        ),
                    ),
                ),
            ),
        )
    }
}

/// Options checked in order, all at the same depth.
pub open spec fn options_check(os: Seq<CreateCommandOption>, chat: bool, depth: nat, safe: spec_fn(Seq<char>) -> bool) -> Result<
    (),
    ValidationErrorView,
>
    decreases 4 - depth, 1int, os.len(),
{
    if os.len() == 0 {
        Ok(())
    } else if depth > 4 {
        Err(ValidationErrorView::OptionDepthExceeded)
    } else {
        and_then(options_check(os.drop_last(), chat, depth, safe), option_check(os.last(), chat, depth, safe))
    }
}


/// The name check for chat-input commands; other kinds pass.
fn check_chat_name(name: &str, chat: bool) -> (r: Result<(), ValidationError>)
    ensures
        res_view(r) == chat_name_check(name@, chat),
{
    if chat {
        validate_name_option_chatinput(name)
    } else {
        Ok(())
    }
}

/// Checks one localized name.
fn check_name_localization<F: Fn(&str) -> bool>(l: &(String, String), chat: bool, is_safe_word: &F) -> (r: Result<(), ValidationError>)
    requires
        callable(*is_safe_word),
    ensures
        forall|p: spec_fn(Seq<char>) -> bool| decides(*is_safe_word, p) ==> res_view(r) == name_localization_check(*l, chat, p),
{
    validate_string_safe(l.0.as_str(), is_safe_word)?;
    validate_string_safe(l.1.as_str(), is_safe_word)?;
    check_chat_name(l.1.as_str(), chat)
}

/// Checks localized names, in order.
fn check_name_localizations<F: Fn(&str) -> bool>(ls: &Vec<(String, String)>, chat: bool, is_safe_word: &F) -> (r: Result<(), ValidationError>)
    requires
        callable(*is_safe_word),
    ensures
        forall|p: spec_fn(Seq<char>) -> bool| decides(*is_safe_word, p) ==> res_view(r) == all_ok(ls@, name_localization_fn(chat, p)),
{
    let mut i: usize = 0;
    while i < ls.len()
        invariant
            i <= ls.len(),
            callable(*is_safe_word),
            forall|p: spec_fn(Seq<char>) -> bool| decides(*is_safe_word, p) ==> all_ok(ls@.take(i as int), name_localization_fn(chat, p)) == Ok::<(), ValidationErrorView>(()),
        decreases ls.len() - i,
    {
        assert(ls@.take(i + 1).drop_last() =~= ls@.take(i as int));
        assert(ls@.take(i + 1).last() == ls@[i as int]);
        let r = check_name_localization(&ls[i], chat, is_safe_word);
        if r.is_err() {
            proof {
                assert forall|p: spec_fn(Seq<char>) -> bool| decides(*is_safe_word, p) implies res_view(r) == all_ok(ls@, name_localization_fn(chat, p)) by {
                    lemma_all_ok_prefix_err(ls@, i + 1, name_localization_fn(chat, p));
                }
            }
            return r;
        }
        i = i + 1;
    }
    assert(ls@.take(i as int) =~= ls@);
    Ok(())
}

/// Checks one localized description.
fn check_description_localization<F: Fn(&str) -> bool>(l: &(String, String), is_safe_word: &F) -> (r: Result<(), ValidationError>)
    requires
        callable(*is_safe_word),
    ensures
        forall|p: spec_fn(Seq<char>) -> bool| decides(*is_safe_word, p) ==> res_view(r) == description_localization_check(*l, p),
{
    validate_string_safe(l.0.as_str(), is_safe_word)?;
    validate_string_safe(l.1.as_str(), is_safe_word)
}

/// Checks localized descriptions, in order.
fn check_description_localizations<F: Fn(&str) -> bool>(ls: &Vec<(String, String)>, is_safe_word: &F) -> (r: Result<(), ValidationError>)
    requires
        callable(*is_safe_word),
    ensures
        forall|p: spec_fn(Seq<char>) -> bool| decides(*is_safe_word, p) ==> res_view(r) == all_ok(ls@, description_localization_fn(p)),
{
    let mut i: usize = 0;
    while i < ls.len()
        invariant
            i <= ls.len(),
            callable(*is_safe_word),
            forall|p: spec_fn(Seq<char>) -> bool| decides(*is_safe_word, p) ==> all_ok(ls@.take(i as int), description_localization_fn(p)) == Ok::<(), ValidationErrorView>(()),
        decreases ls.len() - i,
    {
        assert(ls@.take(i + 1).drop_last() =~= ls@.take(i as int));
        assert(ls@.take(i + 1).last() == ls@[i as int]);
        let r = check_description_localization(&ls[i], is_safe_word);
        if r.is_err() {
            proof {
                assert forall|p: spec_fn(Seq<char>) -> bool| decides(*is_safe_word, p) implies res_view(r) == all_ok(ls@, description_localization_fn(p)) by {
                    lemma_all_ok_prefix_err(ls@, i + 1, description_localization_fn(p));
                }
            }
            return r;
        }
        i = i + 1;
    }
    assert(ls@.take(i as int) =~= ls@);
    Ok(())
}

/// Checks one choice.
fn check_choice<F: Fn(&str) -> bool>(c: &CommandOptionChoice, is_safe_word: &F) -> (r: Result<(), ValidationError>)
    requires
        callable(*is_safe_word),
    ensures
        forall|p: spec_fn(Seq<char>) -> bool| decides(*is_safe_word, p) ==> res_view(r) == choice_check(*c, p),
{
    validate_string_safe(c.name.as_str(), is_safe_word)?;
    match &c.value {
        ChoiceValue::String(v) => validate_string_safe(v.as_str(), is_safe_word),
        ChoiceValue::Other => Ok(()),
    }
}

/// Checks choices, in order.
fn check_choices<F: Fn(&str) -> bool>(cs: &Vec<CommandOptionChoice>, is_safe_word: &F) -> (r: Result<(), ValidationError>)
    requires
        callable(*is_safe_word),
    ensures
        forall|p: spec_fn(Seq<char>) -> bool| decides(*is_safe_word, p) ==> res_view(r) == all_ok(cs@, choice_fn(p)),
{
    let mut i: usize = 0;
    while i < cs.len()
        invariant
            i <= cs.len(),
            callable(*is_safe_word),
            forall|p: spec_fn(Seq<char>) -> bool| decides(*is_safe_word, p) ==> all_ok(cs@.take(i as int), choice_fn(p)) == Ok::<(), ValidationErrorView>(()),
        decreases cs.len() - i,
    {
        assert(cs@.take(i + 1).drop_last() =~= cs@.take(i as int));
        assert(cs@.take(i + 1).last() == cs@[i as int]);
        let r = check_choice(&cs[i], is_safe_word);
        if r.is_err() {
            proof {
                assert forall|p: spec_fn(Seq<char>) -> bool| decides(*is_safe_word, p) implies res_view(r) == all_ok(cs@, choice_fn(p)) by {
                    lemma_all_ok_prefix_err(cs@, i + 1, choice_fn(p));
                }
            }
            return r;
        }
        i = i + 1;
    }
    assert(cs@.take(i as int) =~= cs@);
    Ok(())
}

/// An error among the first `k` options is the error of all of them.
proof fn lemma_options_prefix_err(os: Seq<CreateCommandOption>, k: int, chat: bool, depth: nat, safe: spec_fn(Seq<char>) -> bool)
    requires
        0 <= k <= os.len(),
        depth <= 4,
        options_check(os.take(k), chat, depth, safe) is Err,
    ensures
        options_check(os, chat, depth, safe) == options_check(os.take(k), chat, depth, safe),
    decreases os.len() - k,
{
    if k < os.len() {
        assert(os.take(k + 1).drop_last() =~= os.take(k));
        lemma_options_prefix_err(os, k + 1, chat, depth, safe);
    } else {
        assert(os.take(k) =~= os);
    }
}

/// Checks options in order, all at depth `depth`.
fn check_options<F: Fn(&str) -> bool>(os: &Vec<CreateCommandOption>, kind: CommandType, depth: u8, is_safe_word: &F) -> (r: Result<(), ValidationError>)
    requires
        callable(*is_safe_word),
        1 <= depth <= 4,
    ensures
        forall|p: spec_fn(Seq<char>) -> bool| decides(*is_safe_word, p) ==> res_view(r) == options_check(os@, kind == CommandType::ChatInput, depth as nat, p),
    decreases 4 - depth, 1int,
{
    let ghost chat = kind == CommandType::ChatInput;
    let mut i: usize = 0;
    while i < os.len()
        invariant
            i <= os.len(),
            1 <= depth <= 4,
            chat == (kind == CommandType::ChatInput),
            callable(*is_safe_word),
            forall|p: spec_fn(Seq<char>) -> bool| decides(*is_safe_word, p) ==> options_check(os@.take(i as int), chat, depth as nat, p) == Ok::<(), ValidationErrorView>(()),
        decreases os.len() - i,
    {
        assert(os@.take(i + 1).drop_last() =~= os@.take(i as int));
        assert(os@.take(i + 1).last() == os@[i as int]);
        let r = validate_option(&os[i], kind, depth, is_safe_word);
        if r.is_err() {
            proof {
                assert forall|p: spec_fn(Seq<char>) -> bool| decides(*is_safe_word, p) implies res_view(r) == options_check(os@, chat, depth as nat, p) by {
                    lemma_options_prefix_err(os@, i + 1, chat, depth as nat, p);
                }
            }
            return r;
        }
        i = i + 1;
    }
    assert(os@.take(i as int) =~= os@);
    Ok(())
}

/// Validates a command option at nesting depth `depth` (top-level options sit at depth 1).
pub fn validate_option<F: Fn(&str) -> bool>(option: &CreateCommandOption, kind: CommandType, depth: u8, is_safe_word: &F) -> (r: Result<(), ValidationError>)
    requires
        callable(*is_safe_word),
    ensures
        forall|p: spec_fn(Seq<char>) -> bool| decides(*is_safe_word, p) ==> res_view(r) == option_check(*option, kind == CommandType::ChatInput, depth as nat, p),
    decreases 4 - depth, 0int,
{
    if depth > MAX_OPTION_DEPTH {
        return Err(ValidationError::OptionDepthExceeded);
    }
    let chat = kind == CommandType::ChatInput;
    validate_string_safe(option.name.as_str(), is_safe_word)?;
    check_chat_name(option.name.as_str(), chat)?;
    if let Some(ls) = &option.name_localizations {
        check_name_localizations(ls, chat, is_safe_word)?;
    }
    validate_string_safe(option.description.as_str(), is_safe_word)?;
    if let Some(ls) = &option.description_localizations {
        check_description_localizations(ls, is_safe_word)?;
    }
    check_options(&option.options, kind, depth + 1, is_safe_word)?;
    check_choices(&option.choices, is_safe_word)
}

/// An optional text checked for safe words.
pub open spec fn opt_safe_check(s: Option<String>, safe: spec_fn(Seq<char>) -> bool) -> Result<(), ValidationErrorView> {
    match s {
        Some(t) => safe_check(t@, safe),
        None => Ok(()),
    }
}

/// An optional name: safe, and for chat-input commands matching Discord's pattern.
pub open spec fn opt_command_name_check(s: Option<String>, chat: bool, safe: spec_fn(Seq<char>) -> bool) -> Result<(), ValidationErrorView> {
    match s {
        Some(t) => and_then(safe_check(t@, safe), chat_name_check(t@, chat)),
        None => Ok(()),
    }
}

/// The kind of a command; commands without one are chat-input commands.
pub open spec fn command_kind(c: CreateCommand) -> CommandType {
    match c.kind {
        Some(k) => k,
        None => CommandType::ChatInput,
    }
}

/// The outcome of validating a command: its name, the localized names, the description, the
/// localized descriptions, then its options at depth 1, in this order.
pub open spec fn command_check(c: CreateCommand, safe: spec_fn(Seq<char>) -> bool) -> Result<(), ValidationErrorView> {
    let chat = command_kind(c) == CommandType::ChatInput;
    and_then(
        opt_command_name_check(c.name, chat, safe),
        and_then(
            all_ok(c.name_localizations@, name_localization_fn(chat, safe)),
            and_then(
                opt_safe_check(c.description, safe),
                and_then(
                    all_ok(c.description_localizations@, description_localization_fn(safe)),
                    options_check(c.options@, chat, 1, safe),
                ),
            ),
        ),
    )
}

/// Validates an application command to be created.
pub fn validate_command<F: Fn(&str) -> bool>(command: &CreateCommand, is_safe_word: &F) -> (r: Result<(), ValidationError>)
    requires
        callable(*is_safe_word),
    ensures
        forall|p: spec_fn(Seq<char>) -> bool| decides(*is_safe_word, p) ==> res_view(r) == command_check(*command, p),
{
    let kind = match command.kind {
        Some(k) => k,
        None => CommandType::ChatInput,
    };
    let chat = kind == CommandType::ChatInput;
    if let Some(name) = &command.name {
        validate_string_safe(name.as_str(), is_safe_word)?;
        check_chat_name(name.as_str(), chat)?;
    }
    check_name_localizations(&command.name_localizations, chat, is_safe_word)?;
    if let Some(description) = &command.description {
        validate_string_safe(description.as_str(), is_safe_word)?;
    }
    check_description_localizations(&command.description_localizations, is_safe_word)?;
    check_options(&command.options, kind, 1, is_safe_word)
}

/// Whether `name` matches Discord's pattern for the names of chat-input commands.
pub open spec fn discord_name(name: Seq<char>) -> bool {
    regex_is_match(DISCORD_NAME_PATTERN@, name) == Some(true)
}

/// Whether every option in `os`, and every option nested in them at any depth, is named by
/// Discord's pattern.
pub open spec fn option_names_match(os: Seq<CreateCommandOption>) -> bool
    decreases os,
{
    if os.len() == 0 {
        true
    } else {
        &&& option_names_match(os.drop_last())
        &&& discord_name(os.last().name@)
        &&& option_names_match(os.last().options@)
    }
}

proof fn lemma_chat_option_named(o: CreateCommandOption, depth: nat, safe: spec_fn(Seq<char>) -> bool)
    requires
        option_check(o, true, depth, safe) is Ok,
    ensures
        discord_name(o.name@),
        option_names_match(o.options@),
    decreases 4 - depth, 0int, 0int,
{
    lemma_chat_options_named(o.options@, depth + 1, safe);
}

proof fn lemma_chat_options_named(os: Seq<CreateCommandOption>, depth: nat, safe: spec_fn(Seq<char>) -> bool)
    requires
        depth <= 4,
        options_check(os, true, depth, safe) is Ok,
    ensures
        option_names_match(os),
    decreases 4 - depth, 1int, os.len(),
{
    if os.len() > 0 {
        lemma_chat_options_named(os.drop_last(), depth, safe);
        lemma_chat_option_named(os.last(), depth, safe);
    }
}

/// Every element that `all_ok` accepts passes its check.
proof fn lemma_all_ok_each<T>(s: Seq<T>, check: spec_fn(T) -> Result<(), ValidationErrorView>)
    requires
        all_ok(s, check) is Ok,
    ensures
        forall|i: int| 0 <= i < s.len() ==> (#[trigger] check(s[i])) is Ok,
    decreases s.len(),
{
    if s.len() > 0 {
        lemma_all_ok_each(s.drop_last(), check);
        assert forall|i: int| 0 <= i < s.len() implies (#[trigger] check(s[i])) is Ok by {
            if i < s.len() - 1 {
                assert(s.drop_last()[i] == s[i]);
            }
        }
    }
}

/// An accepted chat-input option is named by Discord's pattern, and so is every option nested
/// in it, at every depth.
pub proof fn lemma_accepted_chat_option_named(o: CreateCommandOption, depth: nat, safe: spec_fn(Seq<char>) -> bool)
    requires
        option_check(o, true, depth, safe) is Ok,
    ensures
        discord_name(o.name@),
        option_names_match(o.options@),
{
    lemma_chat_option_named(o, depth, safe);
}

/// An accepted chat-input command is named by Discord's pattern, as are its localized names and
/// all its options at every depth.
pub proof fn lemma_accepted_chat_command_named(c: CreateCommand, safe: spec_fn(Seq<char>) -> bool)
    requires
        command_check(c, safe) is Ok,
        command_kind(c) == CommandType::ChatInput,
    ensures
        c.name matches Some(n) ==> discord_name(n@),
        forall|i: int| 0 <= i < c.name_localizations@.len() ==> discord_name((#[trigger] c.name_localizations@[i]).1@),
        option_names_match(c.options@),
{
    let f = name_localization_fn(true, safe);
    lemma_all_ok_each(c.name_localizations@, f);
    assert forall|i: int| 0 <= i < c.name_localizations@.len() implies discord_name((#[trigger] c.name_localizations@[i]).1@) by {
        assert(f(c.name_localizations@[i]) is Ok);
    }
    lemma_chat_options_named(c.options@, 1, safe);
}

} // verus!
