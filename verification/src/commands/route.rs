//! Where an additional file of a component goes in the host project.

use crate::commands::add::Directory;
use crate::models::component::{AdditionalFile, AdditionalFileView};
use crate::utils::text::str_ends_with;
use vstd::prelude::*;
use vstd::string::StrSliceExecFns;

verus! {

/// The directory that a source is routed to by its extension: component and
/// style files to `components/ui`, TypeScript to `lib`, anything else to
/// `components/ui`.
pub open spec fn destination_directory(source: Seq<char>) -> Directory {
    if ".tsx"@.is_suffix_of(source) || ".css"@.is_suffix_of(source) || ".scss"@.is_suffix_of(
        source,
    ) {
        Directory::Ui
    } else if ".ts"@.is_suffix_of(source) {
        Directory::Lib
    } else {
        Directory::Ui
    }
}

/// Where the last segment of a path begins: right after its last `/`, or at
/// its start where it has none.
pub open spec fn base_start(path: Seq<char>) -> int
    decreases path.len(),
{
    if path.len() == 0 {
        0
    } else if path.last() == '/' {
        path.len() as int
    } else {
        base_start(path.drop_last())
    }
}

/// The last segment of a path.
pub open spec fn basename(path: Seq<char>) -> Seq<char> {
    path.skip(base_start(path))
}

/// The name that an additional file gets in its directory: the one its
/// metadata asks for, else the last segment of its source.
pub open spec fn destination_name(file: AdditionalFileView) -> Seq<char> {
    match file.dest {
        Some(dest) => dest,
        None => basename(file.source),
    }
}

/// The base name is what follows the last `/`: it holds no `/` itself, and
/// it starts the path or stands right after a `/`.
pub proof fn basename_is_last_segment(path: Seq<char>)
    ensures
        0 <= base_start(path) <= path.len(),
        base_start(path) > 0 ==> path[base_start(path) - 1] == '/',
        forall|i: int| base_start(path) <= i < path.len() ==> path[i] != '/',
        !basename(path).contains('/'),
        path.take(base_start(path)) + basename(path) == path,
    decreases path.len(),
{
    if path.len() > 0 && path.last() != '/' {
        let front = path.drop_last();
        basename_is_last_segment(front);
        assert forall|i: int| base_start(path) <= i < path.len() implies path[i] != '/' by {
            if i < front.len() {
                assert(path[i] == front[i]);
            }
        }
    }
    assert(path.take(base_start(path)) + basename(path) =~= path);
}

/// The index of the character with which the last segment of `path` begins.
fn last_segment_start(path: &str) -> (start: usize)
    ensures
        start == base_start(path@),
        start <= path@.len(),
{
    let n: usize = path.unicode_len();
    let mut start: usize = 0;
    let mut i: usize = 0;
    while i < n
        invariant
            n == path@.len(),
            i <= n,
            start <= i,
            start == base_start(path@.take(i as int)),
        decreases n - i,
    {
        let c: char = path.get_char(i);
        proof {
            let upto = path@.take(i + 1);
            assert(upto.last() == c);
            assert(upto.drop_last() =~= path@.take(i as int));
        }
        i += 1;
        if c == '/' {
            start = i;
        }
    }
    assert(path@.take(n as int) =~= path@);
    start
}

/// Routes an additional file: the directory of the host project that it
/// goes to, and its name there.
///
/// A source that ends in `.ts` goes to `lib` and never to `components/ui`;
/// one that ends in `.tsx` goes to `components/ui` and never to `lib`.
pub fn route_additional_file(file: &AdditionalFile) -> (route: (Directory, String))
    ensures
        route.0 == destination_directory(file.source@),
        route.1@ == destination_name(file@),
        ".ts"@.is_suffix_of(file.source@) ==> route.0 == Directory::Lib,
        ".tsx"@.is_suffix_of(file.source@) ==> route.0 == Directory::Ui,
{
    let source: &str = file.source.as_str();
    let directory = if str_ends_with(source, ".tsx") || str_ends_with(source, ".css")
        || str_ends_with(source, ".scss") {
        Directory::Ui
    } else if str_ends_with(source, ".ts") {
        Directory::Lib
    } else {
        Directory::Ui
    };
    proof {
        typescript_goes_to_lib(file.source@);
    }
    let name = match &file.dest {
        Some(dest) => dest.clone(),
        None => {
            let start: usize = last_segment_start(source);
            let n: usize = source.unicode_len();
            source.substring_char(start, n).to_owned()
        },
    };
    (directory, name)
}

/// A source that ends in `.ts` is routed to `lib`; one that ends in `.tsx`,
/// `.css` or `.scss` is routed to `components/ui`.
pub proof fn typescript_goes_to_lib(source: Seq<char>)
    ensures
        ".ts"@.is_suffix_of(source) ==> destination_directory(source) == Directory::Lib,
        ".tsx"@.is_suffix_of(source) ==> destination_directory(source) == Directory::Ui,
        ".css"@.is_suffix_of(source) ==> destination_directory(source) == Directory::Ui,
        ".scss"@.is_suffix_of(source) ==> destination_directory(source) == Directory::Ui,
{
    reveal_strlit(".ts");
    reveal_strlit(".tsx");
    reveal_strlit(".css");
    reveal_strlit(".scss");
    let n: int = source.len() as int;
    if ".ts"@.is_suffix_of(source) {
        assert(source.subrange(n - 3, n)[1] == 't');
        assert(source[n - 2] == 't');
        if ".tsx"@.is_suffix_of(source) {
            assert(source.subrange(n - 4, n)[2] == 's');
        }
        if ".css"@.is_suffix_of(source) {
            assert(source.subrange(n - 4, n)[2] == 's');
        }
        if ".scss"@.is_suffix_of(source) {
            assert(source.subrange(n - 5, n)[3] == 's');
        }
    }
}

} // verus!
