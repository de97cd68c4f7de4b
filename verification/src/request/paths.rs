//! Request paths: the resource segments of a URL followed by its query string.

use vstd::prelude::*;
use vstd::string::StringExecFns;
use crate::text::{ends_with_char, starts_with_char, texts_of};

verus! {

pub const COLLABORATORS: &'static str = "/collaborators";

pub const COMMENTS: &'static str = "/comments";

pub const LABELS: &'static str = "/labels";

pub const LABELS_SHARED: &'static str = "/labels/shared";

pub const LABELS_SHARED_RENAME: &'static str = "/labels/shared/rename";

pub const LABELS_SHARED_REMOVE: &'static str = "/labels/shared/remove";

pub const PROJECTS: &'static str = "/projects";

pub const SECTIONS: &'static str = "/sections";

pub const TASKS: &'static str = "/tasks";

pub const CLOSE: &'static str = "/close";

pub const REOPEN: &'static str = "/reopen";

pub const PARAM_PROJECT_ID: &'static str = "project_id=";

pub const PARAM_SECTION_ID: &'static str = "section_id=";

pub const PARAM_LABEL: &'static str = "label=";

pub const PARAM_FILTER: &'static str = "filter=";

pub const PARAM_LANG: &'static str = "lang=";

pub const PARAM_IDS: &'static str = "ids=";

/// A literal segment is written into the path as it stands: it brings its own `/`.
pub open spec fn is_literal(seg: Seq<char>) -> bool {
    seg.len() > 0 && seg[0] == '/'
}

/// A key opens a query parameter: it ends in `=` and is no literal.
pub open spec fn is_key(seg: Seq<char>) -> bool {
    !is_literal(seg) && seg.len() > 0 && seg.last() == '='
}

/// A bare token is neither literal nor key. After a key it is that key's value;
/// before the query string it is a resource segment that still lacks its `/`.
pub open spec fn is_bare(seg: Seq<char>) -> bool {
    !is_literal(seg) && !is_key(seg)
}

/// Decides `is_literal`.
pub fn is_literal_segment(seg: &str) -> (literal: bool)
    ensures
        literal == is_literal(seg@),
{
    starts_with_char(seg, '/')
}

/// Decides `is_key`.
pub fn is_key_segment(seg: &str) -> (key: bool)
    ensures
        key == is_key(seg@),
{
    !starts_with_char(seg, '/') && ends_with_char(seg, '=')
}

/// Decides `is_bare`.
pub fn is_bare_segment(seg: &str) -> (bare: bool)
    ensures
        bare == is_bare(seg@),
{
    !starts_with_char(seg, '/') && !ends_with_char(seg, '=')
}

/// Where the query string starts: the index of the first key, or the number of
/// segments where there is no key.
pub open spec fn query_start(segs: Seq<Seq<char>>) -> int
    decreases segs.len(),
{
    if segs.len() == 0 || is_key(segs[0]) {
        0
    } else {
        1 + query_start(segs.skip(1))
    }
}

/// The ordering rule: from the first key on, keys and bare values alternate, and
/// every key has its value.
pub open spec fn valid_segments(segs: Seq<Seq<char>>) -> bool {
    let q = query_start(segs);
    &&& (segs.len() - q) % 2 == 0
    &&& forall|j: int|
        q <= j < segs.len() ==> if (j - q) % 2 == 0 {
            is_key(#[trigger] segs[j])
        } else {
            is_bare(segs[j])
        }
}

/// What one resource segment contributes: itself, with a `/` in front where it
/// has none.
pub open spec fn resource_text(seg: Seq<char>) -> Seq<char> {
    if is_literal(seg) {
        seg
    } else {
        seq!['/'] + seg
    }
}

/// The resource segments, one after the other.
pub open spec fn resource_part(segs: Seq<Seq<char>>) -> Seq<char>
    decreases segs.len(),
{
    if segs.len() == 0 {
        Seq::empty()
    } else {
        resource_part(segs.drop_last()) + resource_text(segs.last())
    }
}

/// What the segment at position `j` of the query string contributes: a key
/// (even `j`) follows `?` where it is the first and `&` otherwise; a value
/// (odd `j`) follows its key directly.
pub open spec fn query_text(j: int, seg: Seq<char>) -> Seq<char> {
    if j % 2 != 0 {
        seg
    } else if j == 0 {
        seq!['?'] + seg
    } else {
        seq!['&'] + seg
    }
}

/// The query string made of keys and values in turn.
pub open spec fn query_part(segs: Seq<Seq<char>>) -> Seq<char>
    decreases segs.len(),
{
    if segs.len() == 0 {
        Seq::empty()
    } else {
        query_part(segs.drop_last()) + query_text(segs.len() - 1, segs.last())
    }
}

/// The path that a sequence of segments denotes.
pub open spec fn path_text(segs: Seq<Seq<char>>) -> Seq<char> {
    let q = query_start(segs);
    resource_part(segs.take(q)) + query_part(segs.skip(q))
}

/// `query_start` is the first position that holds a key.
pub proof fn lemma_query_start(segs: Seq<Seq<char>>)
    ensures
        0 <= query_start(segs) <= segs.len(),
        forall|i: int| 0 <= i < query_start(segs) ==> !is_key(#[trigger] segs[i]),
        query_start(segs) < segs.len() ==> is_key(segs[query_start(segs)]),
    decreases segs.len(),
{
    if segs.len() == 0 || is_key(segs[0]) {
    } else {
        let rest = segs.skip(1);
        lemma_query_start(rest);
        assert forall|i: int| 0 <= i < query_start(segs) implies !is_key(#[trigger] segs[i]) by {
            if i > 0 {
                assert(segs[i] == rest[i - 1]);
            }
        }
        if query_start(segs) < segs.len() {
            assert(segs[query_start(segs)] == rest[query_start(rest)]);
        }
    }
}

/// The first key of a prefix that holds one is the first key of the whole.
pub proof fn lemma_query_start_first_key(segs: Seq<Seq<char>>, k: int)
    requires
        0 <= k <= segs.len(),
        forall|i: int| 0 <= i < k ==> !is_key(#[trigger] segs[i]),
        k < segs.len() ==> is_key(segs[k]),
    ensures
        query_start(segs) == k,
{
    lemma_query_start(segs);
    let q = query_start(segs);
    if q < k {
        assert(!is_key(segs[q]));
    } else if k < q {
        assert(!is_key(segs[k]));
    }
}

/// A key at the end breaks the ordering rule: its value is missing.
pub proof fn lemma_key_at_end(segs: Seq<Seq<char>>)
    requires
        segs.len() > 0,
        is_key(segs.last()),
    ensures
        !valid_segments(segs),
{
    lemma_query_start(segs);
    if valid_segments(segs) {
        let j = segs.len() - 1;
        assert(is_key(segs[j]));
        assert(is_bare(segs[j]));
    }
}

/// A key right after a key breaks the ordering rule: the first has no value.
pub proof fn lemma_key_after_key(segs: Seq<Seq<char>>, i: int)
    requires
        0 <= i,
        i + 1 < segs.len(),
        is_key(segs[i]),
        is_key(segs[i + 1]),
    ensures
        !valid_segments(segs),
{
    lemma_query_start(segs);
    if valid_segments(segs) {
        assert(is_key(segs[i]) && is_key(segs[i + 1]));
    }
}

/// A literal anywhere after a key breaks the ordering rule: the query string
/// ends the path.
pub proof fn lemma_literal_after_key(segs: Seq<Seq<char>>, i: int, j: int)
    requires
        0 <= i < j < segs.len(),
        is_key(segs[i]),
        is_literal(segs[j]),
    ensures
        !valid_segments(segs),
{
    lemma_query_start(segs);
    if valid_segments(segs) {
        assert(!is_key(segs[j]) && !is_bare(segs[j]));
    }
}

/// A bare token behind the first key that does not follow a key directly
/// breaks the ordering rule: behind the first key a bare token is a value, and
/// every value has its key.
pub proof fn lemma_bare_without_key(segs: Seq<Seq<char>>, i: int, j: int)
    requires
        0 <= i < j < segs.len(),
        is_key(segs[i]),
        is_bare(segs[j]),
        !is_key(segs[j - 1]),
    ensures
        !valid_segments(segs),
{
    lemma_query_start(segs);
    if valid_segments(segs) {
        assert(is_bare(segs[j]));
        assert(is_key(segs[j - 1]));
    }
}

/// The last segment is a key.
pub open spec fn key_at_end(segs: Seq<Seq<char>>) -> bool {
    segs.len() > 0 && is_key(segs.last())
}

/// A key stands at `i`, and a key right behind it.
pub open spec fn key_after_key(segs: Seq<Seq<char>>, i: int) -> bool {
    0 <= i && i + 1 < segs.len() && is_key(segs[i]) && is_key(segs[i + 1])
}

/// A key stands at `i`, and a literal at `j` somewhere behind it.
pub open spec fn literal_after_key(segs: Seq<Seq<char>>, i: int, j: int) -> bool {
    0 <= i < j < segs.len() && is_key(segs[i]) && is_literal(segs[j])
}

/// A key stands at `i`, and at `j` somewhere behind it a bare token that does not
/// follow a key directly.
pub open spec fn bare_without_key(segs: Seq<Seq<char>>, i: int, j: int) -> bool {
    0 <= i < j < segs.len() && is_key(segs[i]) && is_bare(segs[j]) && !is_key(segs[j - 1])
}

/// The ways in which segments can break the ordering rule: a key without a
/// value, because it stands at the end or because another key follows it; a
/// literal behind a key; a bare token behind the first key that is no key's
/// value.
pub open spec fn breaks_ordering(segs: Seq<Seq<char>>) -> bool {
    ||| key_at_end(segs)
    ||| exists|i: int| #[trigger] key_after_key(segs, i)
    ||| exists|i: int, j: int| #[trigger] literal_after_key(segs, i, j)
    ||| exists|i: int, j: int| #[trigger] bare_without_key(segs, i, j)
}

/// In segments that break the ordering rule in none of these ways, keys and bare
/// values alternate from the first key on.
proof fn lemma_alternates(segs: Seq<Seq<char>>, j: int)
    requires
        !breaks_ordering(segs),
        query_start(segs) <= j < segs.len(),
    ensures
        if (j - query_start(segs)) % 2 == 0 {
            is_key(segs[j])
        } else {
            is_bare(segs[j])
        },
    decreases j,
{
    lemma_query_start(segs);
    let q = query_start(segs);
    if j > q {
        lemma_alternates(segs, j - 1);
        assert(!literal_after_key(segs, q, j));
        assert(!key_after_key(segs, j - 1));
        assert(!bare_without_key(segs, q, j));
    }
}

/// Segments are valid exactly if they break the ordering rule in none of these
/// ways. [`create_path`] takes valid segments only, so it takes none that breaks
/// the rule, and [`try_create_path`] gives a path for exactly those that keep it.
pub proof fn lemma_ordering_rule(segs: Seq<Seq<char>>)
    ensures
        valid_segments(segs) <==> !breaks_ordering(segs),
{
    lemma_query_start(segs);
    let q = query_start(segs);
    if key_at_end(segs) {
        lemma_key_at_end(segs);
    }
    if exists|i: int| #[trigger] key_after_key(segs, i) {
        let i = choose|i: int| #[trigger] key_after_key(segs, i);
        lemma_key_after_key(segs, i);
    }
    if exists|i: int, j: int| #[trigger] literal_after_key(segs, i, j) {
        let (i, j) = choose|i: int, j: int| #[trigger] literal_after_key(segs, i, j);
        lemma_literal_after_key(segs, i, j);
    }
    if exists|i: int, j: int| #[trigger] bare_without_key(segs, i, j) {
        let (i, j) = choose|i: int, j: int| #[trigger] bare_without_key(segs, i, j);
        lemma_bare_without_key(segs, i, j);
    }
    if !breaks_ordering(segs) {
        assert forall|j: int| q <= j < segs.len() implies if (j - q) % 2 == 0 {
            is_key(#[trigger] segs[j])
        } else {
            is_bare(segs[j])
        } by {
            lemma_alternates(segs, j);
        }
        if q < segs.len() {
            lemma_alternates(segs, segs.len() - 1);
        }
    }
}

/// A path whose first segment is no key starts at the root.
pub proof fn lemma_path_is_rooted(segs: Seq<Seq<char>>)
    requires
        segs.len() > 0,
        !is_key(segs[0]),
    ensures
        path_text(segs).len() > 0,
        path_text(segs)[0] == '/',
{
    lemma_query_start(segs);
    let q = query_start(segs);
    lemma_resource_part_rooted(segs.take(q));
}

/// The text of resource segments, where there are any, starts with `/`.
proof fn lemma_resource_part_rooted(segs: Seq<Seq<char>>)
    requires
        segs.len() > 0,
    ensures
        resource_part(segs).len() > 0,
        resource_part(segs)[0] == '/',
    decreases segs.len(),
{
    if segs.len() > 1 {
        lemma_resource_part_rooted(segs.drop_last());
    } else {
        assert(resource_part(segs.drop_last()) =~= Seq::<char>::empty());
    }
}

/// Segments without a key are valid, and their path is their resource part.
pub proof fn lemma_resources_only(segs: Seq<Seq<char>>)
    requires
        forall|i: int| 0 <= i < segs.len() ==> !is_key(#[trigger] segs[i]),
    ensures
        valid_segments(segs),
        query_start(segs) == segs.len(),
        path_text(segs) == resource_part(segs),
{
    lemma_query_start_first_key(segs, segs.len() as int);
    assert(segs.take(segs.len() as int) =~= segs);
    assert(segs.skip(segs.len() as int) =~= Seq::<Seq<char>>::empty());
}

/// A resource segment at the end of segments without a key leaves them valid
/// and appends its text to the path.
pub proof fn lemma_push_resource(segs: Seq<Seq<char>>, seg: Seq<char>)
    requires
        forall|i: int| 0 <= i < segs.len() ==> !is_key(#[trigger] segs[i]),
        !is_key(seg),
    ensures
        valid_segments(segs.push(seg)),
        path_text(segs.push(seg)) == path_text(segs) + resource_text(seg),
{
    lemma_resources_only(segs);
    lemma_resources_only(segs.push(seg));
    assert(segs.push(seg).drop_last() =~= segs);
}

/// The separator in front of the next key: `?` where there is no key yet, `&`
/// otherwise.
pub open spec fn next_separator(segs: Seq<Seq<char>>) -> Seq<char> {
    if query_start(segs) == segs.len() {
        seq!['?']
    } else {
        seq!['&']
    }
}

/// A key and its value at the end of valid segments leave them valid and append
/// the separator, the key and the value to the path.
pub proof fn lemma_push_parameter(segs: Seq<Seq<char>>, key: Seq<char>, value: Seq<char>)
    requires
        valid_segments(segs),
        is_key(key),
        is_bare(value),
    ensures
        valid_segments(segs.push(key).push(value)),
        query_start(segs.push(key).push(value)) == query_start(segs),
        path_text(segs.push(key).push(value)) == path_text(segs) + next_separator(segs) + key
            + value,
{
    let n = segs.len() as int;
    let q = query_start(segs);
    let more = segs.push(key).push(value);
    lemma_query_start(segs);
    assert forall|i: int| 0 <= i < q implies !is_key(#[trigger] more[i]) by {
        assert(more[i] == segs[i]);
    }
    if q < n {
        assert(more[q] == segs[q]);
    }
    lemma_query_start_first_key(more, q);
    assert forall|j: int| q <= j < more.len() implies if (j - q) % 2 == 0 {
        is_key(#[trigger] more[j])
    } else {
        is_bare(more[j])
    } by {
        if j < n {
            assert(more[j] == segs[j]);
        }
    }
    assert(more.take(q) =~= segs.take(q));
    let tail = segs.skip(q);
    assert(more.skip(q) =~= tail.push(key).push(value));
    assert(tail.push(key).push(value).drop_last() =~= tail.push(key));
    assert(tail.push(key).drop_last() =~= tail);
    assert(query_part(tail.push(key).push(value)) == query_part(tail.push(key)) + value);
    assert(query_part(tail.push(key)) == query_part(tail) + query_text(n - q, key));
    assert(path_text(more) =~= path_text(segs) + next_separator(segs) + key + value);
}

/// What one resource segment gives.
proof fn lemma_one_resource(first: Seq<char>)
    requires
        !is_key(first),
    ensures
        valid_segments(seq![first]),
        query_start(seq![first]) == 1,
        path_text(seq![first]) == resource_text(first),
{
    let segs = seq![first];
    lemma_resources_only(segs);
    assert(segs.drop_last() =~= Seq::<Seq<char>>::empty());
    assert(resource_part(Seq::<Seq<char>>::empty()) =~= Seq::<char>::empty());
    assert(resource_part(segs) =~= resource_text(first));
}

/// What two resource segments give.
proof fn lemma_two_resources(first: Seq<char>, second: Seq<char>)
    requires
        !is_key(first),
        !is_key(second),
    ensures
        valid_segments(seq![first, second]),
        path_text(seq![first, second]) == resource_text(first) + resource_text(second),
{
    let segs = seq![first, second];
    lemma_resources_only(segs);
    assert(segs.drop_last() =~= seq![first]);
    assert(seq![first].drop_last() =~= Seq::<Seq<char>>::empty());
    assert(resource_part(Seq::<Seq<char>>::empty()) =~= Seq::<char>::empty());
    assert(resource_part(seq![first]) =~= resource_text(first));
    assert(resource_part(segs) =~= resource_text(first) + resource_text(second));
}

/// Taking one more resource segment appends that segment's text.
proof fn lemma_resource_part_step(segs: Seq<Seq<char>>, i: int)
    requires
        0 <= i < segs.len(),
    ensures
        resource_part(segs.take(i + 1)) == resource_part(segs.take(i)) + resource_text(segs[i]),
{
    assert(segs.take(i + 1).drop_last() =~= segs.take(i));
}

/// Taking one more segment of the query string appends that segment's text.
proof fn lemma_query_part_step(segs: Seq<Seq<char>>, q: int, i: int)
    requires
        0 <= q <= i < segs.len(),
    ensures
        query_part(segs.subrange(q, i + 1)) == query_part(segs.subrange(q, i)) + query_text(
            i - q,
            segs[i],
        ),
{
    assert(segs.subrange(q, i + 1).drop_last() =~= segs.subrange(q, i));
}

/// Builds the path that `paths` denotes, or nothing where the segments break the
/// ordering rule.
pub fn try_create_path(paths: &[&str]) -> (path: Option<String>)
    ensures
        path is Some <==> valid_segments(texts_of(paths@)),
        path matches Some(p) ==> p@ == path_text(texts_of(paths@)),
{
    let n: usize = paths.len();
    let ghost segs = texts_of(paths@);
    let ghost q = query_start(segs);
    proof {
        lemma_query_start(segs);
        assert(segs.take(0) =~= Seq::<Seq<char>>::empty());
    }
    let mut final_path = String::new();
    let mut last_was_param = false;
    let mut has_param_yet = false;
    let mut i: usize = 0;
    while i < n
        invariant
            segs == texts_of(paths@),
            n == paths@.len(),
            q == query_start(segs),
            0 <= q <= n,
            forall|j: int| 0 <= j < q ==> !is_key(#[trigger] segs[j]),
            q < n ==> is_key(segs[q]),
            0 <= i <= n,
            has_param_yet == (q < i),
            last_was_param == (has_param_yet && (i - q) % 2 == 1),
            forall|j: int|
                q <= j < i ==> if (j - q) % 2 == 0 {
                    is_key(#[trigger] segs[j])
                } else {
                    is_bare(segs[j])
                },
            !has_param_yet ==> final_path@ == resource_part(segs.take(i as int)),
            has_param_yet ==> final_path@ == resource_part(segs.take(q)) + query_part(
                segs.subrange(q, i as int),
            ),
        decreases n - i,
    {
        let seg: &str = paths[i];
        proof {
            assert(seg@ == segs[i as int]);
            lemma_resource_part_step(segs, i as int);
            if q <= i {
                lemma_query_part_step(segs, q, i as int);
            }
            reveal_strlit("&");
            reveal_strlit("?");
            reveal_strlit("/");
        }
        if is_literal_segment(seg) {
            if has_param_yet {
                assert(!is_key(segs[i as int]) && !is_bare(segs[i as int]));
                return None;
            }
            final_path.append(seg);
        } else if is_key_segment(seg) {
            if last_was_param {
                assert(is_key(segs[i as int]) && !is_bare(segs[i as int]));
                return None;
            }
            if has_param_yet {
                final_path.append("&");
            } else {
                assert(q == i);
                assert(segs.subrange(q, i as int) =~= Seq::<Seq<char>>::empty());
                final_path.append("?");
            }
            final_path.append(seg);
            last_was_param = true;
            has_param_yet = true;
        } else if last_was_param {
            final_path.append(seg);
            last_was_param = false;
        } else {
            if has_param_yet {
                assert(is_bare(segs[i as int]) && !is_key(segs[i as int]));
                return None;
            }
            final_path.append("/");
            final_path.append(seg);
        }
        i += 1;
    }
    if last_was_param {
        return None;
    }
    proof {
        assert(segs.take(n as int) =~= segs);
        assert(segs.subrange(q, n as int) =~= segs.skip(q));
        if !has_param_yet {
            assert(segs.skip(q) =~= Seq::<Seq<char>>::empty());
        }
    }
    Some(final_path)
}

/// Builds the path that `paths` denotes: the resource segments, each led by one
/// `/`, then the query string `?key=value&key=value...`.
pub fn create_path(paths: &[&str]) -> (path: String)
    requires
        valid_segments(texts_of(paths@)),
    ensures
        path@ == path_text(texts_of(paths@)),
{
    try_create_path(paths).unwrap()
}

/// The path of one object of a collection: the path of the collection, then
/// the object's ID as a resource segment.
pub fn item_path(collection: &str, id: &str) -> (path: String)
    requires
        is_literal(collection@),
        !is_key(id@),
    ensures
        path@ == collection@ + resource_text(id@),
        path@.len() > 0 && path@[0] == '/',
{
    let segments: [&str; 2] = [collection, id];
    proof {
        assert(texts_of(segments@) =~= seq![collection@, id@]);
        lemma_two_resources(collection@, id@);
    }
    create_path(segments.as_slice())
}

/// The path of a collection narrowed by one parameter.
pub fn filtered_path(collection: &str, key: &str, value: &str) -> (path: String)
    requires
        is_literal(collection@),
        is_key(key@),
        is_bare(value@),
    ensures
        path@ == collection@ + seq!['?'] + key@ + value@,
{
    let segments: [&str; 3] = [collection, key, value];
    proof {
        let start = seq![collection@];
        lemma_one_resource(collection@);
        lemma_push_parameter(start, key@, value@);
        assert(texts_of(segments@) =~= start.push(key@).push(value@));
    }
    create_path(segments.as_slice())
}

} // verus!
