//! The last pass over rendered markup: an allow-list of tags and attributes.
//!
//! Whatever the markdown writer, the heading pass and the highlighter produced goes
//! through the sanitizer before it leaves the library. A tag keeps only the attributes
//! that the allow-list grants it: no attribute is granted to every tag, and the
//! sanitizer adds none of its own, so an anchor leaves with its `href` alone.
use std::collections::{HashMap, HashSet};
use vstd::prelude::*;
use vstd::string::*;

verus! {

/// The attributes that one tag may keep.
#[derive(Debug, PartialEq, Eq)]
pub struct TagRule {
    pub tag: String,
    pub attributes: Vec<String>,
}

impl View for TagRule {
    type V = (Seq<char>, Seq<Seq<char>>);

    open spec fn view(&self) -> (Seq<char>, Seq<Seq<char>>) {
        (self.tag@, self.attributes.deep_view())
    }
}

/// The values of a list of rules.
pub open spec fn rules_of(rules: Seq<TagRule>) -> Seq<(Seq<char>, Seq<Seq<char>>)> {
    rules.map_values(|rule: TagRule| rule@)
}

/// The allow-list of rendered documents: code, pre and span keep `class`, the six
/// headings keep `id`, and an anchor keeps `href`.
pub open spec fn allow_list() -> Seq<(Seq<char>, Seq<Seq<char>>)> {
    seq![
        ("code"@, seq!["class"@]),
        ("pre"@, seq!["class"@]),
        ("span"@, seq!["class"@]),
        ("h1"@, seq!["id"@]),
        ("h2"@, seq!["id"@]),
        ("h3"@, seq!["id"@]),
        ("h4"@, seq!["id"@]),
        ("h5"@, seq!["id"@]),
        ("h6"@, seq!["id"@]),
        ("a"@, seq!["href"@]),
    ]
}

/// The settings that the sanitizer takes: the allow-list `rules`, the attributes
/// `everywhere` that every tag may keep, and the `rel` that it sets on every anchor, if
/// it is to set one. It strips `script` and `style` elements with their content, so
/// neither may be granted attributes; and where it sets `rel` itself, `rel` may be
/// granted neither to anchors nor to every tag.
pub open spec fn admissible(
    rules: Seq<(Seq<char>, Seq<Seq<char>>)>,
    everywhere: Seq<Seq<char>>,
    link_rel: Option<Seq<char>>,
) -> bool {
    &&& forall|i: int|
        0 <= i < rules.len() ==> {
            &&& (#[trigger] rules[i]).0 != "script"@
            &&& rules[i].0 != "style"@
            &&& (link_rel is Some && rules[i].0 == "a"@ ==> !rules[i].1.contains("rel"@))
        }
    &&& link_rel is Some ==> !everywhere.contains("rel"@)
}

/// Whether no tag stands twice in an allow-list.
pub open spec fn tags_distinct(rules: Seq<(Seq<char>, Seq<Seq<char>>)>) -> bool {
    forall|i: int, j: int| 0 <= i < j < rules.len() ==> (#[trigger] rules[i]).0 != (#[trigger] rules[j]).0
}

/// The rule that grants `tag` the one attribute `attribute`.
fn rule(tag: &str, attribute: &str) -> (rule: TagRule)
    ensures
        rule@ == (tag@, seq![attribute@]),
{
    let mut attributes: Vec<String> = Vec::new();
    attributes.push(String::from_str(attribute));
    TagRule { tag: String::from_str(tag), attributes }
}

/// Builds the allow-list of rendered documents.
pub fn tag_attributes_config() -> (rules: Vec<TagRule>)
    ensures
        rules_of(rules@) == allow_list(),
        admissible(allow_list(), Seq::empty(), None),
        tags_distinct(allow_list()),
{
    let mut rules: Vec<TagRule> = Vec::new();
    rules.push(rule("code", "class"));
    rules.push(rule("pre", "class"));
    rules.push(rule("span", "class"));
    rules.push(rule("h1", "id"));
    rules.push(rule("h2", "id"));
    rules.push(rule("h3", "id"));
    rules.push(rule("h4", "id"));
    rules.push(rule("h5", "id"));
    rules.push(rule("h6", "id"));
    rules.push(rule("a", "href"));
    proof {
        lemma_allow_list_admissible();
    }
    rules
}

/// The allow-list of rendered documents is one that the sanitizer takes, whether or not
/// it sets `rel` on anchors, and no tag stands twice in it.
pub proof fn lemma_allow_list_admissible()
    ensures
        forall|link_rel: Option<Seq<char>>| admissible(allow_list(), Seq::empty(), link_rel),
        tags_distinct(allow_list()),
{
    reveal_strlit("script");
    reveal_strlit("style");
    reveal_strlit("rel");
    reveal_strlit("code");
    reveal_strlit("pre");
    reveal_strlit("span");
    reveal_strlit("h1");
    reveal_strlit("h2");
    reveal_strlit("h3");
    reveal_strlit("h4");
    reveal_strlit("h5");
    reveal_strlit("h6");
    reveal_strlit("a");
    reveal_strlit("href");
    let rules = allow_list();
    assert forall|i: int| 0 <= i < rules.len() implies {
        &&& (#[trigger] rules[i]).0 != "script"@
        &&& rules[i].0 != "style"@
        &&& (rules[i].0 == "a"@ ==> !rules[i].1.contains("rel"@))
    } by {
        assert(rules[i].0.len() <= 4);
        if rules[i].0 == "a"@ {
            assert(forall|j: int| 0 <= j < rules[i].1.len() ==> rules[i].1[j].len() == 4);
        }
    }
    assert(!Seq::<Seq<char>>::empty().contains("rel"@));
    assert forall|i: int, j: int| 0 <= i < j < rules.len() implies (#[trigger] rules[i]).0
        != (#[trigger] rules[j]).0 by {
        if rules[i].0.len() == rules[j].0.len() {
            if rules[i].0.len() == 4 {
                assert(rules[i].0[0] != rules[j].0[0]);
            } else {
                assert(rules[i].0[1] != rules[j].0[1]);
            }
        }
    }
}

/// The markup that the sanitizer leaves of `html` under the allow-list `rules`, with the
/// attributes `everywhere` granted to every tag, and with `link_rel` set as `rel` on
/// every anchor where there is one to set.
pub uninterp spec fn sanitized(
    rules: Seq<(Seq<char>, Seq<Seq<char>>)>,
    everywhere: Seq<Seq<char>>,
    link_rel: Option<Seq<char>>,
    html: Seq<char>,
) -> Seq<char>;

/// The markup that the sanitizer leaves of `html` for a rendered document: under the
/// allow-list of rendered documents, with no attribute granted to every tag and no `rel`
/// set on anchors.
pub open spec fn safe_markup(html: Seq<char>) -> Seq<char> {
    sanitized(allow_list(), Seq::empty(), None, html)
}

/// Cleans `html` with `ammonia::Builder::clean`, on a builder with ammonia's defaults but
/// for three settings: `Builder::tag_attributes` gets `rules` as the map from tag to
/// attribute set, `Builder::generic_attributes` gets `everywhere` as a set, and
/// `Builder::link_rel` gets `link_rel`. So set up, ammonia refuses by a panic attributes
/// for `script` or `style`, which it strips with their content, and, where it is to set
/// `rel` itself, `rel` among the attributes of `a` or of every tag; all else and every
/// text is accepted.
#[verifier::external_body]
fn clean(rules: &Vec<TagRule>, everywhere: &Vec<String>, link_rel: Option<&str>, html: &str) -> (safe:
    String)
    requires
        admissible(rules_of(rules@), everywhere.deep_view(), link_rel.deep_view()),
    ensures
        safe@ == sanitized(rules_of(rules@), everywhere.deep_view(), link_rel.deep_view(), html@),
{
    let allowed: HashMap<&str, HashSet<&str>> = rules.iter().map(
        |rule| (rule.tag.as_str(), rule.attributes.iter().map(String::as_str).collect()),
    ).collect();
    let generic: HashSet<&str> = everywhere.iter().map(String::as_str).collect();
    ammonia::Builder::default().tag_attributes(allowed).generic_attributes(generic).link_rel(
        link_rel,
    ).clean(html).to_string()
}

/// Whether a text is markup as the sanitizer leaves it under the allow-list of rendered
/// documents.
pub open spec fn is_safe(html: Seq<char>) -> bool {
    exists|raw: Seq<char>| html == safe_markup(raw)
}

/// Markup that is safe to embed in a page as it is. Only the sanitizer makes values of
/// this type.
#[derive(Debug, PartialEq, Eq)]
pub struct SafeHtml {
    html: String,
}

impl View for SafeHtml {
    type V = Seq<char>;

    closed spec fn view(&self) -> Seq<char> {
        self.html@
    }
}

impl SafeHtml {
    #[verifier::type_invariant]
    spec fn sanitized_markup(self) -> bool {
        is_safe(self.html@)
    }

    /// The markup. Whatever value of this type it is read from, it came out of the
    /// sanitizer.
    pub fn as_str(&self) -> (html: &str)
        ensures
            html@ == self@,
            is_safe(html@),
    {
        proof {
            use_type_invariant(self);
        }
        self.html.as_str()
    }

    /// The markup, as a text of its own.
    pub fn into_string(self) -> (html: String)
        ensures
            html@ == self@,
            is_safe(html@),
    {
        proof {
            use_type_invariant(&self);
        }
        self.html
    }
}

/// Sanitizes rendered markup against the allow-list of rendered documents. Sanitizing
/// never fails: markup that the allow-list does not grant is removed, not rejected.
pub fn sanitize(html: &str) -> (safe: SafeHtml)
    ensures
        safe@ == safe_markup(html@),
{
    let rules = tag_attributes_config();
    let everywhere: Vec<String> = Vec::new();
    let link_rel: Option<&str> = None;
    assert(everywhere.deep_view() =~= Seq::<Seq<char>>::empty());
    assert(link_rel.deep_view() == None::<Seq<char>>);
    let safe = clean(&rules, &everywhere, link_rel, html);
    assert(safe@ == safe_markup(html@));
    SafeHtml { html: safe }
}

} // verus!
