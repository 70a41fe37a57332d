//! Front matter: the fenced block of metadata that a document starts with.
//!
//! A kind of document declares the fence that opens its front matter and decodes the
//! metadata found between the fences. The opening fence is either written out by the
//! kind or derived from the name of the encoding and the kind's prefix; a derived fence
//! lets several kinds of document stand in one file.
use crate::text::lowercased;
use vstd::prelude::*;
use vstd::string::*;

verus! {

/// The parsed metadata of a document, as the front matter engine hands it out; opaque to
/// the verifier.
#[verifier::external_type_specification]
#[verifier::external_body]
pub struct ExPod(gray_matter::Pod);

/// The error with which metadata fails to decode; opaque to the verifier.
#[verifier::external_type_specification]
#[verifier::external_body]
pub struct ExJsonError(serde_json::Error);

/// Why a text is not a document.
#[derive(Debug)]
pub enum DocumentError {
    /// The text does not start with a fenced block of metadata.
    FrontMatterMissing,
    /// The metadata does not decode into what the kind of document expects.
    FrontMatterInvalid(serde_json::Error),
}

/// The tag of the encoding in a derived fence: the encoding's name, YAML, in small
/// letters.
pub fn encoding_tag() -> (tag: String)
    ensures
        tag@ == "yaml"@,
{
    let tag = lowercased("YAML");
    proof {
        reveal_strlit("YAML");
        reveal_strlit("yaml");
    }
    tag
}

/// The derived opening fence of a kind of document: three backticks, the encoding's tag,
/// and the kind's prefix between colons.
pub open spec fn opening_fence_of(tag: Seq<char>, prefix: Seq<char>) -> Seq<char> {
    "```"@ + tag + " :"@ + prefix + ":"@
}

/// Derives the opening fence from the encoding's tag and the kind's prefix.
pub fn opening_fence(tag: &str, prefix: &str) -> (fence: String)
    ensures
        fence@ == opening_fence_of(tag@, prefix@),
{
    let mut fence = String::from_str("```");
    fence.append(tag);
    fence.append(" :");
    fence.append(prefix);
    fence.append(":");
    fence
}

/// A kind of document: the schema of its metadata, with the fence that its front matter
/// opens with. Front matter is written in YAML, whatever the kind: the engine that reads
/// it is not the kind's to choose.
pub trait Frontmatter: Sized {
    /// The prefix that tells this kind of document from others.
    fn prefix() -> String;

    /// The tag of the encoding that the front matter is written in: by default `yaml`.
    fn tag() -> (tag: String)
        default_ensures
            tag@ == "yaml"@,
    {
        encoding_tag()
    }

    /// The fence that opens the front matter: by default the one derived from what
    /// [`Frontmatter::tag`] and [`Frontmatter::prefix`] return for this kind.
    fn delimiter() -> (fence: String)
        default_ensures
            exists|tag: String, prefix: String|
                {
                    &&& call_ensures(Self::tag, (), tag)
                    &&& call_ensures(Self::prefix, (), prefix)
                    &&& fence@ == opening_fence_of(tag@, prefix@)
                },
    {
        let tag = Self::tag();
        let prefix = Self::prefix();
        opening_fence(tag.as_str(), prefix.as_str())
    }

    /// Decodes the metadata found between the fences.
    fn decode(data: &gray_matter::Pod) -> Result<Self, serde_json::Error>;
}

/// The fences of a kind of document and the marker of its excerpt.
#[derive(Debug, PartialEq, Eq)]
pub struct Matter {
    /// The fence that opens the front matter.
    pub delimiter: String,
    /// The fence that closes it; the opening fence closes it too.
    pub close_delimiter: Option<String>,
    /// The marker at the end of the line that ends the excerpt; without one, the
    /// opening fence is the marker.
    pub excerpt_delimiter: Option<String>,
}

/// The mathematical value of a [`Matter`].
pub struct MatterView {
    pub delimiter: Seq<char>,
    pub close_delimiter: Option<Seq<char>>,
    pub excerpt_delimiter: Option<Seq<char>>,
}

impl View for Matter {
    type V = MatterView;

    open spec fn view(&self) -> MatterView {
        MatterView {
            delimiter: self.delimiter@,
            close_delimiter: self.close_delimiter.deep_view(),
            excerpt_delimiter: self.excerpt_delimiter.deep_view(),
        }
    }
}

/// The fences of documents whose front matter opens with `delimiter`: it closes with
/// three backticks, and a line that ends in `#` ends the excerpt.
pub open spec fn matter_of(delimiter: Seq<char>) -> MatterView {
    MatterView {
        delimiter,
        close_delimiter: Some("```"@),
        excerpt_delimiter: Some("#"@),
    }
}

/// The fences of documents whose front matter opens with `delimiter`.
pub fn matter_with(delimiter: String) -> (config: Matter)
    ensures
        config@ == matter_of(delimiter@),
{
    Matter {
        delimiter,
        close_delimiter: Some(String::from_str("```")),
        excerpt_delimiter: Some(String::from_str("#")),
    }
}

/// The fences of a kind of document: it opens with the fence that the kind's
/// [`Frontmatter::delimiter`] returns.
pub fn matter<FM: Frontmatter>() -> (config: Matter)
    ensures
        exists|fence: String|
            call_ensures(FM::delimiter, (), fence) && config@ == matter_of(#[trigger] fence@),
{
    matter_with(FM::delimiter())
}

/// A text split into its front matter and its body.
#[derive(Debug, PartialEq)]
pub struct ParsedEntity {
    /// The parsed metadata, where front matter was found.
    pub data: Option<gray_matter::Pod>,
    /// The body: the text without the front matter and its fences.
    pub content: String,
    /// The excerpt: the leading part of the body up to the excerpt marker, where the
    /// body holds one.
    pub excerpt: Option<String>,
    /// The text as it was given.
    pub orig: String,
    /// The front matter as it was written; empty where none was found.
    pub matter: String,
}

/// The textual parts of a [`ParsedEntity`].
pub struct Parts {
    pub matter: Seq<char>,
    pub content: Seq<char>,
    pub excerpt: Option<Seq<char>>,
}

impl ParsedEntity {
    /// The textual parts of this entity.
    pub open spec fn parts(&self) -> Parts {
        Parts {
            matter: self.matter@,
            content: self.content@,
            excerpt: self.excerpt.deep_view(),
        }
    }
}

/// The parts that the front matter engine finds in `input` under the given fences.
pub uninterp spec fn front_parts(input: Seq<char>, config: MatterView) -> Parts;

/// White space: the characters that count as blank at the end of a line.
pub open spec fn is_white(c: char) -> bool {
    ||| ('\u{9}' <= c && c <= '\u{d}')
    ||| c == ' '
    ||| c == '\u{85}'
    ||| c == '\u{a0}'
    ||| c == '\u{1680}'
    ||| ('\u{2000}' <= c && c <= '\u{200a}')
    ||| c == '\u{2028}'
    ||| c == '\u{2029}'
    ||| c == '\u{202f}'
    ||| c == '\u{205f}'
    ||| c == '\u{3000}'
}

/// Whether the first line of `input` ends before position `n`: a line feed stands there
/// and none before it.
pub open spec fn first_line_ends(input: Seq<char>, n: int) -> bool {
    &&& 0 <= n < input.len()
    &&& input[n] == '\n'
    &&& forall|i: int| 0 <= i < n ==> input[i] != '\n'
}

/// Whether `input` opens with the fence: its first line, a line that a line feed ends,
/// is the fence, followed at most by white space.
pub open spec fn opens_with(input: Seq<char>, fence: Seq<char>) -> bool {
    exists|n: int|
        {
            &&& #[trigger] first_line_ends(input, n)
            &&& fence.is_prefix_of(input.take(n))
            &&& forall|i: int| fence.len() <= i < n ==> is_white(input[i])
        }
}

/// A text that opens with the fence begins with it.
pub proof fn lemma_opening_fence_is_prefix(input: Seq<char>, fence: Seq<char>)
    requires
        opens_with(input, fence),
    ensures
        fence.is_prefix_of(input),
{
    let n = choose|n: int|
        {
            &&& #[trigger] first_line_ends(input, n)
            &&& fence.is_prefix_of(input.take(n))
            &&& forall|i: int| fence.len() <= i < n ==> is_white(input[i])
        };
    assert(fence =~= input.take(n).subrange(0, fence.len() as int));
    assert(fence =~= input.subrange(0, fence.len() as int));
}

/// Splits `input` with `gray_matter::Matter::parse`, on a `Matter` of the YAML engine
/// that holds the three delimiters of `config`, and hands out the fields of the result.
///
/// The engine keeps the input as `orig`. It parses metadata only after a first line,
/// ended by a line feed, that is the opening fence once the white space at its end is
/// taken off, and only where the text between the fences is not blank; so metadata is
/// there exactly when `matter` is not empty, and only in a text that opens with the
/// fence.
#[verifier::external_body]
pub(crate) fn split_front(config: &Matter, input: &str) -> (entity: ParsedEntity)
    ensures
        entity.parts() == front_parts(input@, config@),
        entity.orig@ == input@,
        entity.data is Some <==> entity.matter@.len() > 0,
        entity.data is Some ==> opens_with(input@, config.delimiter@),
{
    let mut matter = gray_matter::Matter::<gray_matter::engine::YAML>::new();
    matter.delimiter = config.delimiter.clone();
    matter.close_delimiter = config.close_delimiter.clone();
    matter.excerpt_delimiter = config.excerpt_delimiter.clone();
    let parsed = matter.parse(input);
    ParsedEntity {
        data: parsed.data,
        content: parsed.content,
        excerpt: parsed.excerpt,
        orig: parsed.orig,
        matter: parsed.matter,
    }
}

/// The words in which a decoding error says what is wrong.
pub uninterp spec fn error_words(error: serde_json::Error) -> Seq<char>;

/// The text of a decoding error, as `serde_json::Error` displays it: its `to_string`.
/// The text depends on the error alone.
#[verifier::external_body]
fn error_text(error: &serde_json::Error) -> (text: String)
    ensures
        text@ == error_words(*error),
{
    error.to_string()
}

/// The message for metadata that does not decode, given the decoder's own words.
pub fn invalid_message(detail: &str) -> (message: String)
    ensures
        message@ == "invalid frontmatter "@ + detail@,
{
    let mut message = String::from_str("invalid frontmatter ");
    message.append(detail);
    message
}

impl DocumentError {
    /// A line that says what is wrong: that the front matter is missing, or that it is
    /// invalid, followed by the decoder's own words.
    pub fn message(&self) -> (message: String)
        ensures
            message@ == match *self {
                DocumentError::FrontMatterMissing => "missing frontmatter"@,
                DocumentError::FrontMatterInvalid(error) => "invalid frontmatter "@
                    + error_words(error),
            },
    {
        match self {
            DocumentError::FrontMatterMissing => String::from_str("missing frontmatter"),
            DocumentError::FrontMatterInvalid(error) => {
                let detail = error_text(error);
                invalid_message(detail.as_str())
            },
        }
    }
}

} // verus!
