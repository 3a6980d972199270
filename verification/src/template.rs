//! Templates: text in which `{start}` and `{end}` stand for the seconds of a
//! window, and the one call that fills them in.

use interpolator::Formattable;
use std::collections::HashMap;
use vstd::prelude::*;

verus! {

/// Whether the place `at` of `template` follows an opening brace that no closing
/// brace has followed yet.
pub open spec fn in_braces(template: Seq<char>, at: int) -> bool
    decreases at,
{
    if at <= 0 || at > template.len() {
        false
    } else if template[at - 1] == '{' {
        true
    } else if template[at - 1] == '}' {
        false
    } else {
        in_braces(template, at - 1)
    }
}

/// Whether `template` holds a colon inside braces. Such a colon opens a format
/// specification; a template of this library names its values and says nothing
/// of how they are shown.
pub open spec fn spec_has_format_spec(template: Seq<char>) -> bool {
    exists|at: int| 0 <= at < template.len() && template[at] == ':' && #[trigger] in_braces(template, at)
}

/// Looks for a colon inside braces.
pub fn has_format_spec(template: &str) -> (found: bool)
    ensures
        found == spec_has_format_spec(template@),
{
    let mut open = false;
    let mut found = false;
    for c in it: template.chars()
        invariant
            it.seq() == template@,
            open == in_braces(template@, it.index() as int),
            found == (exists|at: int| 0 <= at < it.index() && template@[at] == ':' && #[trigger] in_braces(template@, at)),
    {
        if c == ':' && open {
            found = true;
        }
        if c == '{' {
            open = true;
        } else if c == '}' {
            open = false;
        }
    }
    found
}

/// The text that `interpolator::format` gives for `template` in a context of two
/// entries, `a` under the key `first` and `b` under the key `second`, both shown
/// as `Display` shows them; `None` where it reports an error.
pub uninterp spec fn interpolation(
    template: Seq<char>,
    first: Seq<char>,
    a: u32,
    second: Seq<char>,
    b: u32,
) -> Option<Seq<char>>;

/// A text that may be missing, by its characters.
pub open spec fn text_of(text: Option<String>) -> Option<Seq<char>> {
    match text {
        Some(text) => Some(text@),
        None => None,
    }
}

/// Calls `interpolator::format` with a context that holds `a` under `first` and
/// `b` under `second`, and drops what the error says. The result is what the
/// crate makes of these values, and nothing is claimed of it but that it depends
/// on them alone. Templates with a colon inside braces are left out: the crate
/// reads past the end of a format specification that is cut short.
#[verifier::external_body]
pub(crate) fn interpolate(template: &str, first: &str, a: u32, second: &str, b: u32) -> (text:
    Option<String>)
    requires
        !spec_has_format_spec(template@),
    ensures
        text_of(text) == interpolation(template@, first@, a, second@, b),
{
    let context: HashMap<&str, Formattable> = [
        (first, Formattable::display(&a)),
        (second, Formattable::display(&b)),
    ].into_iter().collect();
    interpolator::format(template, &context).ok()
}

} // verus!
