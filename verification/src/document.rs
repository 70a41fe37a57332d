//! Documents: typed metadata with a markdown body, alone or with nested children.
use crate::frontmatter::{
    front_parts, matter, matter_of, opens_with, split_front, DocumentError, Frontmatter, Matter,
    MatterView, ParsedEntity,
};
use crate::render::{html_outcome, render_markdown, rendered};
use crate::rewrite::Defect;
use crate::sanitize::SafeHtml;
use crate::text::{lemma_split_in_three, occurs_at, split_on, split_text, texts};
use vstd::prelude::*;
use vstd::string::*;

verus! {

/// A document of kind `M`: its metadata and the text it was read from, split into front
/// matter and body.
#[derive(Debug)]
pub struct Document<M: Frontmatter> {
    pub metadata: M,
    pub parsed_entity: ParsedEntity,
}

/// A parent document with the documents nested in its body, in the order of the source.
#[derive(Debug)]
pub struct NestedDocument<P: Frontmatter, C: Frontmatter> {
    pub parent: Document<P>,
    pub children: Vec<Document<C>>,
}

/// Whether a result is the refusal of a text without front matter.
pub open spec fn is_missing<T>(out: Result<T, DocumentError>) -> bool {
    out matches Err(DocumentError::FrontMatterMissing)
}

/// Whether a result is the refusal of a text whose metadata does not decode.
pub open spec fn is_invalid<T>(out: Result<T, DocumentError>) -> bool {
    out matches Err(DocumentError::FrontMatterInvalid(_))
}

/// Whether a text holds front matter under the given fences.
pub open spec fn has_front_matter(input: Seq<char>, config: MatterView) -> bool {
    front_parts(input, config).matter.len() > 0
}

/// Whether `entity` is what the front matter engine makes of `input` under `config`,
/// metadata included.
pub open spec fn extracted_from(entity: ParsedEntity, input: Seq<char>, config: MatterView) -> bool {
    &&& entity.parts() == front_parts(input, config)
    &&& entity.orig@ == input
    &&& entity.data is Some
    &&& entity.matter@.len() > 0
}

/// What reading `input` as a document under `config` can give. A text without front
/// matter, and so every text that does not open with the fence (whose first line is not
/// the fence, white space at its end aside), is refused as missing its front matter,
/// and no other text is. A document that is read holds the parts of `input`.
pub open spec fn read_under<M: Frontmatter>(
    out: Result<Document<M>, DocumentError>,
    input: Seq<char>,
    config: MatterView,
) -> bool {
    &&& !has_front_matter(input, config) <==> is_missing(out)
    &&& !opens_with(input, config.delimiter) ==> is_missing(out)
    &&& !config.delimiter.is_prefix_of(input) ==> is_missing(out)
    &&& out matches Ok(document) ==> extracted_from(document.parsed_entity, input, config)
}

/// What the kind makes of the metadata of a split text: the document with the decoded
/// metadata where the kind's [`Frontmatter::decode`] decodes it, the decoder's error
/// where it does not.
pub open spec fn decoded_from<M: Frontmatter>(
    out: Result<Document<M>, DocumentError>,
    entity: ParsedEntity,
) -> bool {
    entity.data matches Some(data) ==> exists|decoded: Result<M, serde_json::Error>|
        {
            &&& #[trigger] call_ensures(M::decode, (&data,), decoded)
            &&& match decoded {
                Ok(metadata) => out == Ok::<Document<M>, DocumentError>(
                    Document { metadata, parsed_entity: entity },
                ),
                Err(error) => out == Err::<Document<M>, DocumentError>(
                    DocumentError::FrontMatterInvalid(error),
                ),
            }
        }
}

/// What reading `s` as a document of kind `M` can give: what reading it gives under the
/// fences of the kind, which open with what the kind's [`Frontmatter::delimiter`]
/// returns.
pub open spec fn read_as_kind<M: Frontmatter>(
    out: Result<Document<M>, DocumentError>,
    s: &str,
) -> bool {
    exists|fence: String, config: Matter|
        {
            &&& #[trigger] call_ensures(M::delimiter, (), fence)
            &&& config@ == matter_of(fence@)
            &&& #[trigger] call_ensures(Document::<M>::extract, (s, &config), out)
        }
}

impl<M: Frontmatter> Document<M> {
    /// Puts a document together from a split text and the outcome of decoding its
    /// metadata: the document where the metadata decoded, the decoder's error otherwise.
    pub fn assemble(entity: ParsedEntity, decoded: Result<M, serde_json::Error>) -> (out: Result<
        Self,
        DocumentError,
    >)
        ensures
            match decoded {
                Ok(metadata) => out == Ok::<Self, DocumentError>(
                    Document { metadata, parsed_entity: entity },
                ),
                Err(error) => out == Err::<Self, DocumentError>(
                    DocumentError::FrontMatterInvalid(error),
                ),
            },
    {
        match decoded {
            Ok(metadata) => Ok(Document { metadata, parsed_entity: entity }),
            Err(error) => Err(DocumentError::FrontMatterInvalid(error)),
        }
    }

    /// Makes a document of a text that was split before: refuses one without metadata as
    /// `FrontMatterMissing`, and has the kind decode the metadata of the others.
    pub fn from_entity(entity: ParsedEntity) -> (out: Result<Self, DocumentError>)
        ensures
            entity.data is None <==> is_missing(out),
            out matches Ok(document) ==> document.parsed_entity == entity,
            decoded_from(out, entity),
    {
        match &entity.data {
            None => Err(DocumentError::FrontMatterMissing),
            Some(data) => {
                let decoded = M::decode(data);
                Self::assemble(entity, decoded)
            },
        }
    }

    /// Reads a document whose front matter stands between the fences of `config`.
    ///
    /// A text without front matter under these fences, and so every text that does not
    /// begin with the opening fence, is refused as `FrontMatterMissing`. Where front
    /// matter is found, the kind decodes it: the result is the document, or
    /// `FrontMatterInvalid` with the decoder's error.
    pub fn extract(s: &str, config: &Matter) -> (out: Result<Self, DocumentError>)
        ensures
            read_under(out, s@, config@),
            exists|entity: ParsedEntity|
                {
                    &&& entity.parts() == front_parts(s@, config@)
                    &&& entity.orig@ == s@
                    &&& #[trigger] call_ensures(Self::from_entity, (entity,), out)
                },
    {
        Self::from_entity(split_front(config, s))
    }

    /// Reads a document of this kind: one whose front matter opens with the fence that
    /// the kind declares.
    ///
    /// The fence is the one that the kind's [`Frontmatter::delimiter`] returns. The
    /// front matter closes with three backticks or the opening fence again, and the
    /// document is read as [`Document::extract`] reads it under these fences.
    pub fn parse(s: &str) -> (out: Result<Self, DocumentError>)
        ensures
            exists|fence: String|
                #[trigger] call_ensures(M::delimiter, (), fence) && read_under(
                    out,
                    s@,
                    matter_of(fence@),
                ),
            read_as_kind(out, s),
    {
        let config = matter::<M>();
        Self::extract(s, &config)
    }

    /// Renders the body into HTML that is safe to embed.
    pub fn md(&self) -> (out: Result<SafeHtml, Defect>)
        ensures
            html_outcome(out) == rendered(self.parsed_entity.content@),
    {
        render_markdown(self.parsed_entity.content.as_str())
    }
}

impl<M: Frontmatter> std::str::FromStr for Document<M> {
    type Err = DocumentError;

    /// Reads a document of this kind, as [`Document::parse`] does.
    fn from_str(s: &str) -> (out: Result<Self, DocumentError>)
        ensures
            exists|fence: String|
                #[trigger] call_ensures(M::delimiter, (), fence) && read_under(
                    out,
                    s@,
                    matter_of(fence@),
                ),
            read_as_kind(out, s),
    {
        Self::parse(s)
    }
}

/// The text of the `k`-th child: the child fence put back before the `k`-th piece of
/// the parent's body.
pub open spec fn child_text(pieces: Seq<Seq<char>>, delimiter: Seq<char>, k: int) -> Seq<char> {
    delimiter + pieces[k]
}

/// Whether the `k`-th piece is a child, and every child before it has front matter: the
/// place at which reading the children can first fail.
pub open spec fn first_failure(
    pieces: Seq<Seq<char>>,
    delimiter: Seq<char>,
    config: MatterView,
    k: int,
) -> bool {
    &&& 1 <= k < pieces.len()
    &&& forall|j: int|
        1 <= j < k ==> has_front_matter(#[trigger] child_text(pieces, delimiter, j), config)
}

/// Whether `children` are the documents read from the pieces behind the first, each
/// with the fence put back before it, in the order of the pieces.
pub open spec fn children_of<C: Frontmatter>(
    children: Seq<Document<C>>,
    pieces: Seq<Seq<char>>,
    config: MatterView,
) -> bool {
    &&& children.len() == pieces.len() - 1
    &&& forall|k: int|
        0 <= k < children.len() ==> extracted_from(
            (#[trigger] children[k]).parsed_entity,
            child_text(pieces, config.delimiter, k + 1),
            config,
        )
}

/// Whether `read` is what reading the `k`-th child gives: what [`Document::extract`]
/// gives for the text of that child under the children's fences.
pub open spec fn child_read<C: Frontmatter>(
    read: Result<Document<C>, DocumentError>,
    pieces: Seq<Seq<char>>,
    config: &Matter,
    k: int,
) -> bool {
    exists|text: &str|
        text@ == child_text(pieces, config.delimiter@, k) && #[trigger] call_ensures(
            Document::<C>::extract,
            (text, config),
            read,
        )
}

/// Whether each of `children` is the document that reading the child of its place gave.
pub open spec fn children_read<C: Frontmatter>(
    children: Seq<Document<C>>,
    pieces: Seq<Seq<char>>,
    config: &Matter,
) -> bool {
    forall|k: int|
        0 <= k < children.len() ==> child_read(
            Ok::<Document<C>, DocumentError>(#[trigger] children[k]),
            pieces,
            config,
            k + 1,
        )
}

/// Whether `error` is the error of the first child whose reading fails: the children
/// before it were read, and reading it gave this error.
pub open spec fn first_child_failed<C: Frontmatter>(
    error: DocumentError,
    pieces: Seq<Seq<char>>,
    config: &Matter,
) -> bool {
    exists|before: Seq<Document<C>>|
        {
            &&& before.len() + 1 < pieces.len()
            &&& #[trigger] children_read(before, pieces, config)
            &&& child_read(
                Err::<Document<C>, DocumentError>(error),
                pieces,
                config,
                (before.len() + 1) as int,
            )
        }
}

/// What cutting the children out of `parent` can give, where `pieces` are the pieces of
/// the parent's body.
///
/// A body of one piece always gives a parent without children. A nested document keeps
/// the parent as it was but for its body, which becomes the first piece, and holds the
/// children read from the other pieces, in their order. A failure is the failure of the
/// first child whose reading fails, with that child's own error: missing front matter
/// where that child has none, invalid front matter where it has some.
pub open spec fn cut_from<P: Frontmatter, C: Frontmatter>(
    out: Result<NestedDocument<P, C>, DocumentError>,
    parent: Document<P>,
    children_config: &Matter,
) -> bool {
    let config = children_config@;
    let pieces = split_on(parent.parsed_entity.content@, config.delimiter);
    &&& match out {
        Ok(nested) => children_read(nested.children@, pieces, children_config),
        Err(error) => first_child_failed::<C>(error, pieces, children_config),
    }
    &&& pieces.len() == 1 ==> out is Ok
    &&& out matches Ok(nested) ==> {
        &&& nested.parent.metadata == parent.metadata
        &&& nested.parent.parsed_entity.data == parent.parsed_entity.data
        &&& nested.parent.parsed_entity.orig == parent.parsed_entity.orig
        &&& nested.parent.parsed_entity.matter == parent.parsed_entity.matter
        &&& nested.parent.parsed_entity.excerpt == parent.parsed_entity.excerpt
        &&& nested.parent.parsed_entity.content@ == pieces[0]
        &&& children_of(nested.children@, pieces, config)
    }
    &&& is_missing(out) ==> exists|k: int|
        first_failure(pieces, config.delimiter, config, k) && !has_front_matter(
            #[trigger] child_text(pieces, config.delimiter, k),
            config,
        )
    &&& is_invalid(out) ==> exists|k: int|
        first_failure(pieces, config.delimiter, config, k) && has_front_matter(
            #[trigger] child_text(pieces, config.delimiter, k),
            config,
        )
}

/// What reading `s` as a parent with children gives, one call down: the parent's error
/// where the parent is no document, and otherwise what cutting the children out of the
/// parent gives.
pub open spec fn read_then_cut<P: Frontmatter, C: Frontmatter>(
    out: Result<NestedDocument<P, C>, DocumentError>,
    s: &str,
    parent_config: &Matter,
    children_config: &Matter,
) -> bool {
    exists|parent: Result<Document<P>, DocumentError>|
        {
            &&& #[trigger] call_ensures(Document::<P>::extract, (s, parent_config), parent)
            &&& match parent {
                Ok(parent) => cut_from(out, parent, children_config),
                Err(error) => out == Err::<NestedDocument<P, C>, DocumentError>(error),
            }
        }
}

/// What reading `s` as a parent of kind `P` with children of kind `C` can give: what
/// reading it gives under the fences of the two kinds, which open with what the kinds'
/// [`Frontmatter::delimiter`] return.
pub open spec fn nested_as_kinds<P: Frontmatter, C: Frontmatter>(
    out: Result<NestedDocument<P, C>, DocumentError>,
    s: &str,
) -> bool {
    exists|parent_fence: String, children_fence: String, parent: Matter, children: Matter|
        {
            &&& #[trigger] call_ensures(P::delimiter, (), parent_fence)
            &&& #[trigger] call_ensures(C::delimiter, (), children_fence)
            &&& parent@ == matter_of(parent_fence@)
            &&& children@ == matter_of(children_fence@)
            &&& nested_under(out, s@, parent@, children@)
            &&& #[trigger] read_then_cut(out, s, &parent, &children)
        }
}

/// What reading `input` as a parent with children can give.
///
/// A text without front matter under the parent's fences is refused as missing its
/// front matter; the whole is missing its front matter only there or where the first
/// child to fail has none, and invalid only where the parent has front matter. A nested
/// document holds the parts of `input`, but its body is cut: the first piece of the body
/// stays with the parent, the other pieces are the children.
pub open spec fn nested_under<P: Frontmatter, C: Frontmatter>(
    out: Result<NestedDocument<P, C>, DocumentError>,
    input: Seq<char>,
    parent_config: MatterView,
    children_config: MatterView,
) -> bool {
    let parts = front_parts(input, parent_config);
    let pieces = split_on(parts.content, children_config.delimiter);
    &&& !has_front_matter(input, parent_config) ==> is_missing(out)
    &&& !opens_with(input, parent_config.delimiter) ==> is_missing(out)
    &&& !parent_config.delimiter.is_prefix_of(input) ==> is_missing(out)
    &&& is_missing(out) ==> !has_front_matter(input, parent_config) || exists|k: int|
        first_failure(pieces, children_config.delimiter, children_config, k)
            && !has_front_matter(
            #[trigger] child_text(pieces, children_config.delimiter, k),
            children_config,
        )
    &&& is_invalid(out) ==> has_front_matter(input, parent_config)
    &&& out matches Ok(nested) ==> {
        &&& nested.parent.parsed_entity.orig@ == input
        &&& nested.parent.parsed_entity.data is Some
        &&& nested.parent.parsed_entity.matter@ == parts.matter
        &&& nested.parent.parsed_entity.excerpt.deep_view() == parts.excerpt
        &&& nested.parent.parsed_entity.content@ == pieces[0]
        &&& children_of(nested.children@, pieces, children_config)
    }
}

/// A body with two fences, each the first in what stands from its piece on, and none
/// behind them, gives two children where the cutting succeeds: the parent keeps what
/// stands before the first fence, and the children are read, in this order, from the
/// two pieces behind the fences with the fence put back before each.
pub proof fn lemma_two_fences_two_children<P: Frontmatter, C: Frontmatter>(
    out: Result<NestedDocument<P, C>, DocumentError>,
    parent: Document<P>,
    config: &Matter,
    first: Seq<char>,
    second: Seq<char>,
    third: Seq<char>,
)
    requires
        cut_from(out, parent, config),
        out is Ok,
        config.delimiter@.len() > 0,
        parent.parsed_entity.content@ == first + config.delimiter@ + (second
            + config.delimiter@ + third),
        forall|k: int|
            0 <= k < first.len() ==> !occurs_at(
                first + config.delimiter@ + (second + config.delimiter@ + third),
                config.delimiter@,
                k,
            ),
        forall|k: int|
            0 <= k < second.len() ==> !occurs_at(
                second + config.delimiter@ + third,
                config.delimiter@,
                k,
            ),
        forall|k: int| !occurs_at(third, config.delimiter@, k),
    ensures
        out matches Ok(nested) && {
            &&& nested.parent.parsed_entity.content@ == first
            &&& nested.children@.len() == 2
            &&& nested.children@[0].parsed_entity.orig@ == config.delimiter@ + second
            &&& nested.children@[1].parsed_entity.orig@ == config.delimiter@ + third
        },
{
    lemma_split_in_three(first, second, third, config.delimiter@);
    let nested = out->Ok_0;
    let pieces = split_on(parent.parsed_entity.content@, config.delimiter@);
    assert(pieces == seq![first, second, third]);
    assert(extracted_from(nested.children@[0].parsed_entity, child_text(pieces, config.delimiter@, 1), config@));
    assert(extracted_from(nested.children@[1].parsed_entity, child_text(pieces, config.delimiter@, 2), config@));
}

impl<P: Frontmatter, C: Frontmatter> NestedDocument<P, C> {
    /// Cuts the children out of a parent's body.
    ///
    /// The body is cut at every occurrence of the children's opening fence. What stands
    /// before the first occurrence stays as the parent's body. Every further piece, with
    /// the fence put back before it, is read as a document of kind `C`; the children
    /// keep the order of the source. A body without the fence has no children and stays
    /// as it is. The first child that is not a document fails the whole with its error.
    #[verifier::loop_isolation(false)]
    pub fn nest(parent: Document<P>, children_config: &Matter) -> (out: Result<
        Self,
        DocumentError,
    >)
        ensures
            cut_from(out, parent, children_config),
    {
        let Document { metadata, parsed_entity } = parent;
        let ParsedEntity { data, content, excerpt, orig, matter } = parsed_entity;
        let mut pieces = split_text(content.as_str(), children_config.delimiter.as_str());
        let ghost all = texts(pieces@);
        let ghost fence = children_config.delimiter@;
        let mut children: Vec<Document<C>> = Vec::new();
        let mut k: usize = 1;
        while k < pieces.len()
            invariant
                1 <= k <= pieces.len(),
                all == texts(pieces@),
                children@.len() == k - 1,
                children_read(children@, all, children_config),
                forall|j: int|
                    1 <= j < k ==> has_front_matter(
                        #[trigger] child_text(all, fence, j),
                        children_config@,
                    ),
                forall|j: int|
                    0 <= j < children@.len() ==> extracted_from(
                        (#[trigger] children@[j]).parsed_entity,
                        child_text(all, fence, j + 1),
                        children_config@,
                    ),
            decreases pieces.len() - k,
        {
            let mut text = children_config.delimiter.clone();
            text.append(pieces[k].as_str());
            assert(text@ == child_text(all, fence, k as int));
            let ghost before = children@;
            let child_text = text.as_str();
            let read = Document::<C>::extract(child_text, children_config);
            assert(child_read(read, all, children_config, k as int));
            match read {
                Ok(child) => {
                    children.push(child);
                    assert forall|j: int| 0 <= j < children@.len() implies child_read(
                        Ok::<Document<C>, DocumentError>(#[trigger] children@[j]),
                        all,
                        children_config,
                        j + 1,
                    ) by {
                        if j < before.len() {
                            assert(children@[j] == before[j]);
                        }
                    }
                },
                Err(error) => {
                    assert(first_failure(all, fence, children_config@, k as int));
                    assert(first_child_failed::<C>(error, all, children_config));
                    return Err(error);
                },
            }
            k = k + 1;
        }
        assert(all[0] == pieces@[0]@);
        let body = pieces.swap_remove(0);
        Ok(
            NestedDocument {
                parent: Document {
                    metadata,
                    parsed_entity: ParsedEntity { data, content: body, excerpt, orig, matter },
                },
                children,
            },
        )
    }

    /// Reads a parent document with its children, each under the fences given for it.
    pub fn extract(s: &str, parent_config: &Matter, children_config: &Matter) -> (out: Result<
        Self,
        DocumentError,
    >)
        ensures
            nested_under(out, s@, parent_config@, children_config@),
            read_then_cut(out, s, parent_config, children_config),
    {
        let read = Document::<P>::extract(s, parent_config);
        match read {
            Ok(parent) => {
                let out = Self::nest(parent, children_config);
                assert(cut_from(out, parent, children_config));
                assert(has_front_matter(s@, parent_config@));
                assert(parent.parsed_entity.content@ == front_parts(s@, parent_config@).content);
                assert(read_then_cut(out, s, parent_config, children_config));
                assert(nested_under(out, s@, parent_config@, children_config@));
                out
            },
            Err(error) => {
                let out = Err(error);
                assert(read_then_cut::<P, C>(out, s, parent_config, children_config));
                out
            },
        }
    }

    /// Reads a parent document of kind `P` with children of kind `C`, each under the
    /// fence that its kind declares.
    pub fn parse(s: &str) -> (out: Result<Self, DocumentError>)
        ensures
            exists|parent_fence: String, children_fence: String|
                {
                    &&& #[trigger] call_ensures(P::delimiter, (), parent_fence)
                    &&& #[trigger] call_ensures(C::delimiter, (), children_fence)
                    &&& nested_under(
                        out,
                        s@,
                        matter_of(parent_fence@),
                        matter_of(children_fence@),
                    )
                },
            nested_as_kinds(out, s),
    {
        let parent_config = matter::<P>();
        let children_config = matter::<C>();
        Self::extract(s, &parent_config, &children_config)
    }
}

impl<P: Frontmatter, C: Frontmatter> std::ops::Deref for NestedDocument<P, C> {
    type Target = Document<P>;

    fn deref(&self) -> (parent: &Document<P>)
        ensures
            *parent == self.parent,
    {
        &self.parent
    }
}

impl<P: Frontmatter, C: Frontmatter> std::str::FromStr for NestedDocument<P, C> {
    type Err = DocumentError;

    /// Reads a parent with its children, as [`NestedDocument::parse`] does.
    fn from_str(s: &str) -> (out: Result<Self, DocumentError>)
        ensures
            exists|parent_fence: String, children_fence: String|
                {
                    &&& #[trigger] call_ensures(P::delimiter, (), parent_fence)
                    &&& #[trigger] call_ensures(C::delimiter, (), children_fence)
                    &&& nested_under(
                        out,
                        s@,
                        matter_of(parent_fence@),
                        matter_of(children_fence@),
                    )
                },
            nested_as_kinds(out, s),
    {
        Self::parse(s)
    }
}

} // verus!
