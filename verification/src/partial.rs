//! Templates that include templates, and which of them are rendered.
//!
//! The template engine follows an inclusion wherever it leads. An
//! inclusion that leads back into what holds it is followed without end,
//! and the engine then never returns. A template is therefore looked
//! through before it is rendered, and refused where that cannot be ruled
//! out. See [`is_refused`] for what is refused and why.

use vstd::prelude::*;

verus! {

/// A character that the engine skips between the parts of a tag.
pub open spec fn is_blank(c: char) -> bool {
    c == ' ' || c == '\t' || c == '\n' || c == '\r'
}

/// A character that may stand between the braces that open a tag and the
/// sign that says of which kind the tag is.
pub open spec fn is_tag_filler(c: char) -> bool {
    is_blank(c) || c == '~' || c == '#'
}

/// A character of which the engine makes plainly written names of
/// templates: a letter or digit of ASCII, one of `-`, `_`, `/` and `.`, or
/// any character beyond ASCII.
pub open spec fn is_name_char(c: char) -> bool {
    ||| 'a' <= c <= 'z'
    ||| 'A' <= c <= 'Z'
    ||| '0' <= c <= '9'
    ||| c == '-'
    ||| c == '_'
    ||| c == '/'
    ||| c == '.'
    ||| '\u{80}' <= c
}

/// Two opening braces at `i` and nothing but fillers from there up to `end`.
pub open spec fn tag_open_at(template: Seq<char>, i: int, end: int) -> bool {
    &&& 0 <= i
    &&& i + 2 <= end <= template.len()
    &&& template[i] == '{'
    &&& template[i + 1] == '{'
    &&& forall|k: int| i + 2 <= k < end ==> is_tag_filler(#[trigger] template[k])
}

/// Two opening braces at `i`, nothing but fillers after them, and `>` at
/// `j`: what the engine reads as an inclusion, if it reads a tag there.
pub open spec fn partial_tag_at(template: Seq<char>, i: int, j: int) -> bool {
    &&& tag_open_at(template, i, j)
    &&& j < template.len()
    &&& template[j] == '>'
}

/// The same with `*` at `j`: what the engine reads as a decorator, and so
/// as the definition of a template within the template.
pub open spec fn decorator_tag_at(template: Seq<char>, i: int, j: int) -> bool {
    &&& tag_open_at(template, i, j)
    &&& j < template.len()
    &&& template[j] == '*'
}

/// The template holds what may be read as an inclusion.
pub open spec fn has_partial_tag(template: Seq<char>) -> bool {
    exists|i: int, j: int| #[trigger] partial_tag_at(template, i, j)
}

/// The template holds what may be read as a decorator.
pub open spec fn has_decorator_tag(template: Seq<char>) -> bool {
    exists|i: int, j: int| #[trigger] decorator_tag_at(template, i, j)
}

/// The name under which every template is registered with the engine.
pub open spec fn root_name() -> Seq<char> {
    seq!['t', 'm', 'p', 'l']
}

/// Behind the sign at `j` and the blanks that follow it, a name is written
/// plainly: it begins at `start` and ends before `end`.
pub open spec fn plain_name_at(template: Seq<char>, j: int, start: int, end: int) -> bool {
    &&& j < start < end <= template.len()
    &&& forall|k: int| j < k < start ==> is_blank(#[trigger] template[k])
    &&& forall|k: int| start <= k < end ==> is_name_char(#[trigger] template[k])
    &&& end < template.len() ==> !is_name_char(template[end])
}

/// The inclusion whose sign is at `j` names, plainly, a template other than
/// the one that holds it.
pub open spec fn names_other_template(template: Seq<char>, j: int) -> bool {
    exists|start: int, end: int| #[trigger]
        plain_name_at(template, j, start, end) && template.subrange(start, end) != root_name()
}

/// The templates that are not handed to the engine, because the engine may
/// not return on them.
///
/// An inclusion can lead back into what holds it in three ways: by the name
/// `tmpl`, under which the template itself is registered; by a name that
/// is computed when the template is rendered, which may come to `tmpl` or
/// to the block of an inclusion; and through a template that the template
/// defines within itself by a decorator and that includes itself. Every
/// other inclusion renders nothing, or the block it stands before, and
/// ends.
///
/// Refused are therefore:
/// - a template with an inclusion of the name `tmpl`;
/// - a template with an inclusion whose name is not written plainly, that
///   is, does not begin with a character of a plain name: a name computed
///   by an expression, a reference to the block of an inclusion, a name in
///   quotes or in brackets, no name at all;
/// - a template with both an inclusion and a decorator, whatever the two
///   say.
///
/// Every other template is handed to the engine, among them those that
/// include, by a plain name other than `tmpl`, what is defined nowhere.
///
/// More is refused than the engine fails to return on, for these reasons:
/// - Where a tag begins is for the engine's parser to say. An inclusion or
///   a decorator is taken for one wherever its characters stand, also in a
///   comment, in a raw block, in a quoted text or behind an escape.
/// - Whether an inclusion stands inside a block is for the parser to say,
///   too. An inclusion of `tmpl` outside every block, which the engine
///   answers with an error, is refused like one inside a block, which the
///   engine follows without end.
/// - Where a name in quotes or in brackets ends, and which name it then
///   is, is for the parser to say.
/// - Whether an inclusion stands within a template defined by a decorator,
///   and whether it names one, is for the parser to say. A template that
///   defines a template and includes it once, outside of it, is refused
///   like one whose defined template includes itself.
pub open spec fn is_refused(template: Seq<char>) -> bool {
    ||| exists|i: int, j: int| #[trigger] partial_tag_at(template, i, j) && !names_other_template(template, j)
    ||| has_partial_tag(template) && has_decorator_tag(template)
}

fn blank(c: char) -> (blank: bool)
    ensures
        blank == is_blank(c),
{
    c == ' ' || c == '\t' || c == '\n' || c == '\r'
}

fn name_char(c: char) -> (name_char: bool)
    ensures
        name_char == is_name_char(c),
{
    ('a' <= c && c <= 'z') || ('A' <= c && c <= 'Z') || ('0' <= c && c <= '9') || c == '-' || c == '_'
        || c == '/' || c == '.' || '\u{80}' <= c
}

fn is_root_name(name: &Vec<char>) -> (root: bool)
    ensures
        root == (name@ == root_name()),
{
    let root = name.len() == 4 && name[0] == 't' && name[1] == 'm' && name[2] == 'p' && name[3] == 'l';
    proof {
        if root {
            assert(name@ =~= root_name());
        }
    }
    root
}

/// No name is written plainly behind the sign at `j` where what follows the
/// blanks behind it, at `at`, is neither a blank nor of a name.
proof fn lemma_no_plain_name(template: Seq<char>, j: int, at: int)
    requires
        j < at <= template.len(),
        forall|k: int| j < k < at ==> is_blank(#[trigger] template[k]),
        at < template.len() ==> !is_blank(template[at]) && !is_name_char(template[at]),
    ensures
        !names_other_template(template, j),
{
    assert forall|start: int, end: int| !plain_name_at(template, j, start, end) by {
        if plain_name_at(template, j, start, end) {
            assert(is_name_char(template[start]));
            if start < at {
                assert(is_blank(template[start]));
            } else if start > at {
                assert(is_blank(template[at]));
            }
        }
    }
}

/// The one name that is written plainly behind the sign at `j` is the one
/// that begins behind the blanks and ends where the characters of a name end.
proof fn lemma_one_plain_name(template: Seq<char>, j: int, start: int, end: int, other_start: int, other_end: int)
    requires
        plain_name_at(template, j, start, end),
        plain_name_at(template, j, other_start, other_end),
    ensures
        other_start == start,
        other_end == end,
{
    assert(is_name_char(template[start]));
    assert(is_name_char(template[other_start]));
    if other_start < start {
        assert(is_blank(template[other_start]));
    } else if other_start > start {
        assert(is_blank(template[start]));
    }
    if other_end < end {
        assert(is_name_char(template[other_end]));
    } else if other_end > end {
        assert(is_name_char(template[end]));
    }
}

/// Whether the template is one that is not handed to the engine.
pub fn refuses(template: &str) -> (refused: bool)
    ensures
        refused == is_refused(template@),
{
    let mut after_brace = false;
    let mut open = false;
    let ghost mut opened_at: int = 0;
    let mut seen_partial = false;
    let ghost mut partial_i: int = 0;
    let ghost mut partial_j: int = 0;
    let mut seen_decorator = false;
    let ghost mut decorator_i: int = 0;
    let ghost mut decorator_j: int = 0;
    // 0: no name is awaited; 1: behind the sign, among the blanks; 2: within the name.
    let mut mode: u8 = 0;
    let ghost mut tag_i: int = 0;
    let ghost mut tag_j: int = 0;
    let ghost mut name_start: int = 0;
    let mut name: Vec<char> = Vec::new();
    let chars = template.chars();
    for c in iter: chars
        invariant
            iter.seq() == template@,
            after_brace <==> iter.index() >= 1 && template@[iter.index() - 1] == '{',
            open ==> tag_open_at(template@, opened_at, iter.index()),
            !open ==> forall|i: int| !tag_open_at(template@, i, iter.index()),
            seen_partial ==> partial_tag_at(template@, partial_i, partial_j),
            !seen_partial ==> forall|i: int, j: int| j < iter.index() ==> !partial_tag_at(template@, i, j),
            seen_decorator ==> decorator_tag_at(template@, decorator_i, decorator_j),
            !seen_decorator ==> forall|i: int, j: int|
                j < iter.index() ==> !decorator_tag_at(template@, i, j),
            mode <= 2,
            open ==> mode == 0,
            mode != 0 ==> partial_tag_at(template@, tag_i, tag_j) && tag_j < iter.index(),
            mode == 1 ==> forall|k: int| tag_j < k < iter.index() ==> is_blank(#[trigger] template@[k]),
            mode == 2 ==> {
                &&& tag_j < name_start < iter.index()
                &&& forall|k: int| tag_j < k < name_start ==> is_blank(#[trigger] template@[k])
                &&& forall|k: int| name_start <= k < iter.index() ==> is_name_char(#[trigger] template@[k])
                &&& name@ == template@.subrange(name_start, iter.index())
            },
            forall|i: int, j: int|
                #[trigger] partial_tag_at(template@, i, j) && j < iter.index() && !(mode != 0 && j == tag_j)
                    ==> names_other_template(template@, j),
    {
        let ghost at = iter.index();
        let ghost next = at + 1;
        if mode == 1 {
            if blank(c) {
            } else if name_char(c) {
                mode = 2;
                name = Vec::new();
                name.push(c);
                proof {
                    name_start = at;
                    assert(name@ =~= template@.subrange(name_start, next));
                }
            } else {
                proof {
                    lemma_no_plain_name(template@, tag_j, at);
                }
                return true;
            }
        } else if mode == 2 {
            if name_char(c) {
                name.push(c);
                assert(name@ =~= template@.subrange(name_start, next));
            } else {
                assert(plain_name_at(template@, tag_j, name_start, at));
                if is_root_name(&name) {
                    proof {
                        assert forall|start: int, end: int|
                            !(#[trigger] plain_name_at(template@, tag_j, start, end) && template@.subrange(
                                start,
                                end,
                            ) != root_name()) by {
                            if plain_name_at(template@, tag_j, start, end) {
                                lemma_one_plain_name(template@, tag_j, name_start, at, start, end);
                            }
                        }
                    }
                    return true;
                }
                assert(names_other_template(template@, tag_j));
                mode = 0;
            }
        }
        if open && c == '>' {
            seen_partial = true;
            mode = 1;
            proof {
                assert(partial_tag_at(template@, opened_at, at));
                partial_i = opened_at;
                partial_j = at;
                tag_i = opened_at;
                tag_j = at;
            }
        }
        if open && c == '*' {
            seen_decorator = true;
            proof {
                assert(decorator_tag_at(template@, opened_at, at));
                decorator_i = opened_at;
                decorator_j = at;
            }
        }
        let still_open = open && (blank(c) || c == '~' || c == '#');
        let opens = after_brace && c == '{';
        proof {
            if !still_open && opens {
                opened_at = at - 1;
            }
            if !(open && c == '>') {
                assert forall|i: int| !partial_tag_at(template@, i, at) by {}
            }
            if !(open && c == '*') {
                assert forall|i: int| !decorator_tag_at(template@, i, at) by {}
            }
            if !(still_open || opens) {
                assert forall|i: int| !tag_open_at(template@, i, next) by {
                    if tag_open_at(template@, i, next) {
                        if i + 2 <= at {
                            assert(tag_open_at(template@, i, at));
                            assert(is_tag_filler(template@[at]));
                        }
                    }
                }
            }
        }
        open = still_open || opens;
        after_brace = c == '{';
    }
    let ghost end = template@.len() as int;
    if mode == 1 {
        proof {
            lemma_no_plain_name(template@, tag_j, end);
        }
        return true;
    }
    if mode == 2 {
        assert(plain_name_at(template@, tag_j, name_start, end));
        if is_root_name(&name) {
            proof {
                assert forall|start: int, end2: int|
                    !(#[trigger] plain_name_at(template@, tag_j, start, end2) && template@.subrange(
                        start,
                        end2,
                    ) != root_name()) by {
                    if plain_name_at(template@, tag_j, start, end2) {
                        lemma_one_plain_name(template@, tag_j, name_start, end, start, end2);
                    }
                }
            }
            return true;
        }
        assert(names_other_template(template@, tag_j));
    }
    seen_partial && seen_decorator
}

} // verus!
