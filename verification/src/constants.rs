//! Process-wide vocabulary shared between the frontmatter detector, the
//! sub-parsers and the path-handling collaborators: fence delimiters,
//! recognized metadata field names, and path constants.

use vstd::prelude::*;

verus! {

/// Separator collaborators use when joining path segments.
pub const FORWARD_SLASH: &'static str = "/";

/// Default value for optional string fields.
pub const EMPTY_STRING: &'static str = "";

/// Opening/closing delimiter of a TOML-style frontmatter block.
pub const TOML_FENCE: &'static str = "+++";

/// Opening/closing delimiter of a YAML-style frontmatter block.
pub const YAML_FENCE: &'static str = "---";

/// Metadata key marking a document as an unpublished draft.
pub const DRAFT: &'static str = "draft";

/// Metadata key holding the document title.
pub const TITLE: &'static str = "title";

/// Metadata key holding the URL slug.
pub const SLUG: &'static str = "slug";

/// Metadata key holding the publication date.
pub const DATE: &'static str = "date";

/// Metadata key holding the document description.
pub const DESCRIPTION: &'static str = "description";

/// Metadata key holding the list of tags.
pub const TAGS: &'static str = "tags";

/// Metadata key holding the list of categories.
pub const CATEGORIES: &'static str = "categories";

/// Metadata key naming the series a document belongs to.
pub const SERIES: &'static str = "series";

/// Metadata key holding the list of keywords.
pub const KEYWORDS: &'static str = "keywords";

/// Which frontmatter fence style a file opens with, deciding which
/// sub-parser handles its metadata block.
#[derive(Debug, Clone, Copy, PartialEq, Eq, Structural)]
pub enum FenceKind {
    Toml,
    Yaml,
}

/// True when `prefix` is an initial segment of `s`.
pub open spec fn starts_with(s: Seq<char>, prefix: Seq<char>) -> bool {
    prefix.len() <= s.len() && s.subrange(0, prefix.len() as int) == prefix
}

/// Chooses the sub-parser for a file from its opening characters: content
/// beginning with the TOML fence is TOML-style, content beginning with the
/// YAML fence is YAML-style, and anything else matches neither fence.
pub fn detect_fence(content: &str) -> (r: Option<FenceKind>)
    ensures
        r == Some(FenceKind::Toml) <==> starts_with(content@, TOML_FENCE@),
        r == Some(FenceKind::Yaml) <==> starts_with(content@, YAML_FENCE@),
        r is None <==> (!starts_with(content@, TOML_FENCE@) && !starts_with(
            content@,
            YAML_FENCE@,
        )),
{
    proof {
        reveal_strlit("+++");
        reveal_strlit("---");
    }
    let n = content.unicode_len();
    if n < 3 {
        None
    } else {
        let c0 = content.get_char(0);
        let c1 = content.get_char(1);
        let c2 = content.get_char(2);
        if c0 == '+' && c1 == '+' && c2 == '+' {
            proof {
                assert(content@.subrange(0, 3) =~= TOML_FENCE@);
                assert(content@.subrange(0, 3) != YAML_FENCE@) by {
                    assert(TOML_FENCE@[0] == '+' && YAML_FENCE@[0] == '-');
                }
            }
            Some(FenceKind::Toml)
        } else if c0 == '-' && c1 == '-' && c2 == '-' {
            proof {
                assert(content@.subrange(0, 3) =~= YAML_FENCE@);
                assert(content@.subrange(0, 3) != TOML_FENCE@) by {
                    assert(TOML_FENCE@[0] == '+' && YAML_FENCE@[0] == '-');
                }
            }
            Some(FenceKind::Yaml)
        } else {
            proof {
                assert(content@.subrange(0, 3)[0] == content@[0]);
                assert(content@.subrange(0, 3)[1] == content@[1]);
                assert(content@.subrange(0, 3)[2] == content@[2]);
            }
            None
        }
    }
}

} // verus!
