use crate::models::entry::{Entry, EntryView};
use crate::utils::text::{occurs_in, str_contains, str_ends_with};
use vstd::prelude::*;
use vstd::relations::{sorted_by, total_ordering};
use vstd::seq_lib::lemma_sorted_unique;
use vstd::string::{StrSliceExecFns, StringExecFns};

verus! {

/// The area of a template store that holds utility snippets and additional
/// files.
pub const UTILS_AREA: &'static str = "utils";

/// The name of the shared utility file in a host project's `lib`.
pub const UTILS_FILE: &'static str = "utils.ts";

/// The text of the shared utility file after a snippet has been merged into
/// it. A snippet whose text already occurs in the file changes nothing, and
/// neither does one that is absent from the template store. Any other is
/// appended, after a blank line where the file holds something already.
pub open spec fn merged(aggregate: Seq<char>, snippet: Option<Seq<char>>) -> Seq<char> {
    match snippet {
        None => aggregate,
        Some(text) => if occurs_in(text, aggregate) {
            aggregate
        } else if aggregate.len() == 0 {
            text
        } else {
            aggregate + "\n\n"@ + text
        },
    }
}

/// Whether merging the snippet changes the file, so that it must be written.
pub open spec fn merge_writes(aggregate: Seq<char>, snippet: Option<Seq<char>>) -> bool {
    snippet matches Some(text) && !occurs_in(text, aggregate)
}

/// Merges a utility snippet into the text of the shared utility file.
/// `utils_content` is the file's text, empty where the file does not exist;
/// `util_content` is the snippet, absent where the template store has none
/// under the name asked for. Returns the text to write back, or nothing
/// where the file is to be left alone.
pub fn add_utility(utils_content: String, util_content: Option<&str>) -> (written: Option<String>)
    ensures
        merge_writes(utils_content@, util_content.deep_view()) ==> written.deep_view() == Some(
            merged(utils_content@, util_content.deep_view()),
        ),
        !merge_writes(utils_content@, util_content.deep_view()) ==> written is None,
{
    match util_content {
        None => None,
        Some(text) => {
            if str_contains(utils_content.as_str(), text) {
                None
            } else {
                let mut content = utils_content;
                if !content.as_str().is_empty() {
                    content.append("\n\n");
                }
                content.append(text);
                Some(content)
            }
        },
    }
}

/// A text occurs in whatever ends with it.
pub proof fn suffix_occurs(text: Seq<char>, whole: Seq<char>)
    requires
        text.is_suffix_of(whole),
    ensures
        occurs_in(text, whole),
{
    let at: int = whole.len() - text.len();
    assert(whole.subrange(at, at + text.len()) == text);
}

/// Merging is idempotent: a snippet merged a second time leaves the file as
/// the first merge left it, and asks for no write.
pub proof fn merge_is_idempotent(aggregate: Seq<char>, snippet: Option<Seq<char>>)
    ensures
        merged(merged(aggregate, snippet), snippet) == merged(aggregate, snippet),
        !merge_writes(merged(aggregate, snippet), snippet),
{
    if let Some(text) = snippet {
        let once = merged(aggregate, snippet);
        if !occurs_in(text, aggregate) {
            assert(text.is_suffix_of(once)) by {
                let at: int = once.len() - text.len();
                assert(once.subrange(at, once.len() as int) =~= text);
            }
            suffix_occurs(text, once);
        }
    }
}

/// Merging only ever appends: the file's old text stays at its start, and
/// a snippet that exists occurs in the result.
pub proof fn merge_appends(aggregate: Seq<char>, snippet: Option<Seq<char>>)
    ensures
        aggregate.is_prefix_of(merged(aggregate, snippet)),
        snippet matches Some(text) ==> occurs_in(text, merged(aggregate, snippet)),
{
    let after = merged(aggregate, snippet);
    assert(after.subrange(0, aggregate.len() as int) =~= aggregate);
    if let Some(text) = snippet {
        if !occurs_in(text, aggregate) {
            let at: int = after.len() - text.len();
            assert(after.subrange(at, after.len() as int) =~= text);
            suffix_occurs(text, after);
        }
    }
}

/// The order of strings: character by character, by code point, a string
/// coming before every longer one that starts with it.
pub open spec fn precedes(a: Seq<char>, b: Seq<char>) -> bool
    decreases a.len(),
{
    if a.len() == 0 {
        true
    } else if b.len() == 0 {
        false
    } else if a[0] != b[0] {
        (a[0] as int) < (b[0] as int)
    } else {
        precedes(a.drop_first(), b.drop_first())
    }
}

/// Whether the names stand in ascending order.
pub open spec fn ascending(names: Seq<Seq<char>>) -> bool {
    forall|i: int, j: int| 0 <= i <= j < names.len() ==> precedes(names[i], names[j])
}

/// The component that a directory entry of the template store stands for:
/// a regular file whose name ends in `.tsx` is the component named by what
/// comes before that ending, provided something does.
pub open spec fn component_name(entry: EntryView) -> Option<Seq<char>> {
    if entry.is_file() && ".tsx"@.is_suffix_of(entry.path) && entry.path.len() > 4 {
        Some(entry.path.take(entry.path.len() - 4))
    } else {
        None
    }
}

/// The components that the entries stand for, in the order of the entries.
pub open spec fn component_names(entries: Seq<EntryView>) -> Seq<Seq<char>>
    decreases entries.len(),
{
    if entries.len() == 0 {
        Seq::empty()
    } else {
        match component_name(entries.last()) {
            Some(name) => component_names(entries.drop_last()).push(name),
            None => component_names(entries.drop_last()),
        }
    }
}

/// `sort` of a slice of `String`s: afterwards the list holds what it held
/// before, in ascending order. `String`s compare by their bytes, which
/// orders them character by character by code point.
#[verifier::external_body]
fn sort_names(names: &mut Vec<String>)
    ensures
        ascending(final(names).deep_view()),
        final(names).deep_view().to_multiset() == old(names).deep_view().to_multiset(),
{
    names.sort();
}

/// The component that an entry stands for, if it stands for one.
fn component_of(entry: &Entry) -> (name: Option<String>)
    ensures
        name.deep_view() == component_name(entry@),
{
    let path: &str = entry.path.as_str();
    if entry.is_file() && str_ends_with(path, ".tsx") {
        let n: usize = path.unicode_len();
        if n > 4 {
            assert(path@.subrange(0, n - 4) =~= path@.take(n - 4));
            return Some(path.substring_char(0, n - 4).to_owned());
        }
    }
    None
}

/// Lists the components that a template store offers, from the listing of
/// its directory: the names of its component files without their ending,
/// each as often as the listing holds it, in ascending order.
pub fn get_available_components(entries: &Vec<Entry>) -> (components: Vec<String>)
    ensures
        ascending(components.deep_view()),
        components.deep_view().to_multiset() == component_names(
            entries.deep_view(),
        ).to_multiset(),
{
    let mut components: Vec<String> = Vec::new();
    let mut i: usize = 0;
    assert(entries.deep_view().take(0) =~= Seq::empty());
    assert(components.deep_view() =~= Seq::empty());
    while i < entries.len()
        invariant
            i <= entries.len(),
            components.deep_view() == component_names(entries.deep_view().take(i as int)),
        decreases entries.len() - i,
    {
        let ghost before = components.deep_view();
        proof {
            let upto = entries.deep_view().take(i + 1);
            assert(upto.drop_last() =~= entries.deep_view().take(i as int));
            assert(upto.last() == entries[i as int]@);
        }
        if let Some(name) = component_of(&entries[i]) {
            components.push(name);
            assert(components.deep_view() =~= before.push(name@));
        }
        i += 1;
    }
    assert(entries.deep_view().take(entries.len() as int) =~= entries.deep_view());
    sort_names(&mut components);
    components
}

/// Every string precedes itself.
proof fn precedes_itself(a: Seq<char>)
    ensures
        precedes(a, a),
    decreases a.len(),
{
    if a.len() > 0 {
        precedes_itself(a.drop_first());
    }
}

/// Two strings that precede each other are the same string.
proof fn precedes_both_ways(a: Seq<char>, b: Seq<char>)
    requires
        precedes(a, b),
        precedes(b, a),
    ensures
        a == b,
    decreases a.len(),
{
    if a.len() == 0 {
        assert(a =~= b);
    } else {
        precedes_both_ways(a.drop_first(), b.drop_first());
        assert(a =~= seq![a[0]] + a.drop_first());
        assert(b =~= seq![b[0]] + b.drop_first());
    }
}

/// What precedes a string precedes whatever that string precedes.
proof fn precedes_through(a: Seq<char>, b: Seq<char>, c: Seq<char>)
    requires
        precedes(a, b),
        precedes(b, c),
    ensures
        precedes(a, c),
    decreases a.len(),
{
    if a.len() > 0 && a[0] == b[0] && b[0] == c[0] {
        precedes_through(a.drop_first(), b.drop_first(), c.drop_first());
    }
}

/// Of two strings, one precedes the other.
proof fn precedes_one_way(a: Seq<char>, b: Seq<char>)
    ensures
        precedes(a, b) || precedes(b, a),
    decreases a.len(),
{
    if a.len() > 0 && b.len() > 0 && a[0] == b[0] {
        precedes_one_way(a.drop_first(), b.drop_first());
    }
}

/// The order of strings is a total order.
pub proof fn precedes_is_total()
    ensures
        total_ordering(|a: Seq<char>, b: Seq<char>| precedes(a, b)),
{
    let leq = |a: Seq<char>, b: Seq<char>| precedes(a, b);
    assert forall|a: Seq<char>| #[trigger] leq(a, a) by {
        precedes_itself(a);
    }
    assert forall|a: Seq<char>, b: Seq<char>| #[trigger] leq(a, b) && #[trigger] leq(b, a) implies a
        == b by {
        precedes_both_ways(a, b);
    }
    assert forall|a: Seq<char>, b: Seq<char>, c: Seq<char>| #[trigger]
        leq(a, b) && #[trigger] leq(b, c) implies leq(a, c) by {
        precedes_through(a, b, c);
    }
    assert forall|a: Seq<char>, b: Seq<char>| #[trigger] leq(a, b) || #[trigger] leq(b, a) by {
        precedes_one_way(a, b);
    }
}

/// A listing is determined by what it holds: two lists of names that are
/// both in ascending order and hold the same names equally often are the
/// same list.
pub proof fn ascending_is_unique(a: Seq<Seq<char>>, b: Seq<Seq<char>>)
    requires
        ascending(a),
        ascending(b),
        a.to_multiset() == b.to_multiset(),
    ensures
        a == b,
{
    let leq = |a: Seq<char>, b: Seq<char>| precedes(a, b);
    precedes_is_total();
    assert(sorted_by(a, leq));
    assert(sorted_by(b, leq));
    lemma_sorted_unique(a, b, leq);
}

} // verus!
