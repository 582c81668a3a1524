//! Operations on character sequences that the data model and the report
//! parsers share, each with its mathematical definition.

use vstd::prelude::*;
use vstd::string::StringExecFns;

verus! {

/// The segments written one after another with `sep` between neighbours.
pub open spec fn joined(segments: Seq<Seq<char>>, sep: Seq<char>) -> Seq<char>
    decreases segments.len(),
{
    if segments.len() == 0 {
        Seq::empty()
    } else if segments.len() == 1 {
        segments[0]
    } else {
        joined(segments.drop_last(), sep) + sep + segments.last()
    }
}

/// `needle` stands in `hay` at position `at`.
pub open spec fn occurs_at(hay: Seq<char>, needle: Seq<char>, at: int) -> bool {
    &&& 0 <= at
    &&& at + needle.len() <= hay.len()
    &&& hay.subrange(at, at + needle.len()) == needle
}

/// `needle` stands somewhere in `hay`.
pub open spec fn occurs_in(hay: Seq<char>, needle: Seq<char>) -> bool {
    exists|at: int| occurs_at(hay, needle, at)
}

/// `hay` begins with `needle`.
pub open spec fn has_prefix(hay: Seq<char>, needle: Seq<char>) -> bool {
    occurs_at(hay, needle, 0)
}

/// The least position at or after `from` at which `needle` stands in `hay`.
pub open spec fn first_occurrence_from(hay: Seq<char>, needle: Seq<char>, from: int) -> Option<int>
    decreases hay.len() + 1 - from,
{
    if from < 0 || from + needle.len() > hay.len() {
        None
    } else if occurs_at(hay, needle, from) {
        Some(from)
    } else {
        first_occurrence_from(hay, needle, from + 1)
    }
}

/// The least position at which `needle` stands in `hay`.
pub open spec fn first_occurrence(hay: Seq<char>, needle: Seq<char>) -> Option<int> {
    first_occurrence_from(hay, needle, 0)
}

/// What [`first_occurrence_from`] finds is an occurrence with none between
/// `from` and it; where it finds nothing there is none at or after `from`.
pub proof fn first_occurrence_is_least(hay: Seq<char>, needle: Seq<char>, from: int)
    requires
        0 <= from,
    ensures
        match first_occurrence_from(hay, needle, from) {
            Some(at) => {
                &&& from <= at
                &&& occurs_at(hay, needle, at)
                &&& forall|j: int| from <= j < at ==> !occurs_at(hay, needle, j)
            },
            None => forall|j: int| from <= j ==> !occurs_at(hay, needle, j),
        },
    decreases hay.len() + 1 - from,
{
    if from + needle.len() > hay.len() {
    } else if occurs_at(hay, needle, from) {
    } else {
        first_occurrence_is_least(hay, needle, from + 1);
    }
}

/// An occurrence in the rest of `hay` after `start` is one in `hay`, `start`
/// places further on.
pub proof fn occurrences_shift(hay: Seq<char>, needle: Seq<char>, start: int)
    requires
        0 <= start <= hay.len(),
    ensures
        forall|j: int|
            0 <= j ==> (#[trigger] occurs_at(hay.subrange(start, hay.len() as int), needle, j)
                <==> occurs_at(hay, needle, start + j)),
{
    let rest = hay.subrange(start, hay.len() as int);
    assert forall|j: int| 0 <= j implies (#[trigger] occurs_at(rest, needle, j) <==> occurs_at(
        hay,
        needle,
        start + j,
    )) by {
        if j + needle.len() <= rest.len() {
            assert(rest.subrange(j, j + needle.len()) =~= hay.subrange(
                start + j,
                start + j + needle.len(),
            ));
        }
    }
}

/// The pieces of `s` between the successive occurrences of `sep`, found from
/// the left and never overlapping. There is always at least one piece.
pub open spec fn split_parts(s: Seq<char>, sep: Seq<char>) -> Seq<Seq<char>>
    decreases s.len(),
{
    if sep.len() == 0 {
        seq![s]
    } else {
        match first_occurrence(s, sep) {
            Some(at) => if 0 <= at && at + sep.len() <= s.len() {
                seq![s.subrange(0, at)] + split_parts(
                    s.subrange(at + sep.len(), s.len() as int),
                    sep,
                )
            } else {
                seq![s]
            },
            None => seq![s],
        }
    }
}

/// Joining a sequence that begins with `head` writes `head`, then `sep`,
/// then the rest joined.
pub proof fn joined_prepend(head: Seq<char>, rest: Seq<Seq<char>>, sep: Seq<char>)
    requires
        rest.len() > 0,
    ensures
        joined(seq![head] + rest, sep) == head + sep + joined(rest, sep),
    decreases rest.len(),
{
    let all = seq![head] + rest;
    assert(all.last() == rest.last());
    if rest.len() == 1 {
        assert(all.drop_last() =~= seq![head]);
        assert(joined(seq![head], sep) == head);
        assert(joined(rest, sep) == rest[0]);
        assert(joined(all, sep) == joined(seq![head], sep) + sep + rest.last());
    } else {
        assert(all.drop_last() =~= seq![head] + rest.drop_last());
        joined_prepend(head, rest.drop_last(), sep);
        assert(joined(all, sep) =~= head + sep + joined(rest, sep));
    }
}

/// Splitting a text and joining the pieces with the separator gives the
/// text back.
pub proof fn split_then_joined(s: Seq<char>, sep: Seq<char>)
    ensures
        split_parts(s, sep).len() > 0,
        joined(split_parts(s, sep), sep) == s,
    decreases s.len(),
{
    if sep.len() > 0 {
        first_occurrence_is_least(s, sep, 0);
        match first_occurrence(s, sep) {
            Some(at) => {
                let rest = s.subrange(at + sep.len(), s.len() as int);
                split_then_joined(rest, sep);
                joined_prepend(s.subrange(0, at), split_parts(rest, sep), sep);
                assert(s.subrange(0, at) + sep + rest =~= s);
            },
            None => {},
        }
    }
}

/// `s` with each occurrence of `from`, found from the left and never
/// overlapping, replaced by `to`.
pub open spec fn replaced(s: Seq<char>, from: Seq<char>, to: Seq<char>) -> Seq<char>
    decreases s.len(),
{
    if from.len() == 0 {
        s
    } else {
        match first_occurrence(s, from) {
            Some(at) => if 0 <= at && at + from.len() <= s.len() {
                s.subrange(0, at) + to + replaced(
                    s.subrange(at + from.len(), s.len() as int),
                    from,
                    to,
                )
            } else {
                s
            },
            None => s,
        }
    }
}

/// Concatenates `segments`, placing `sep` between each two neighbours.
pub fn join(segments: &Vec<String>, sep: &str) -> (out: String)
    ensures
        out@ == joined(crate::model::views(segments@), sep@),
{
    let mut out = String::new();
    let mut i: usize = 0;
    while i < segments.len()
        invariant
            i <= segments.len(),
            out@ == joined(crate::model::views(segments@).take(i as int), sep@),
        decreases segments.len() - i,
    {
        let ghost before = crate::model::views(segments@).take(i as int);
        let ghost after = crate::model::views(segments@).take(i + 1);
        proof {
            assert(after.drop_last() =~= before);
            assert(after.last() == segments@[i as int]@);
        }
        if i > 0 {
            out.append(sep);
        }
        out.append(segments[i].as_str());
        proof {
            if i == 0 {
                assert(out@ =~= after[0]);
            }
        }
        i += 1;
    }
    proof {
        assert(crate::model::views(segments@).take(segments.len() as int) =~= crate::model::views(
            segments@,
        ));
    }
    out
}

/// The characters of `s`, in order.
pub fn chars_of(s: &str) -> (out: Vec<char>)
    ensures
        out@ == s@,
{
    let mut out: Vec<char> = Vec::new();
    for c in it: s.chars()
        invariant
            it.seq() == s@,
            out@ == s@.take(it.index() as int),
    {
        out.push(c);
        proof {
            assert(s@.take(it.index() + 1) =~= s@.take(it.index() as int).push(c));
        }
    }
    proof {
        assert(s@.take(s@.len() as int) =~= s@);
    }
    out
}

/// Tells whether `needle` stands in `hay` at `at`.
fn matches_at(hay: &Vec<char>, needle: &Vec<char>, at: usize) -> (found: bool)
    requires
        at + needle.len() <= hay.len(),
    ensures
        found == occurs_at(hay@, needle@, at as int),
{
    let mut k: usize = 0;
    while k < needle.len()
        invariant
            k <= needle.len(),
            at + needle.len() <= hay.len(),
            forall|j: int| 0 <= j < k ==> hay@[at + j] == needle@[j],
        decreases needle.len() - k,
    {
        if hay[at + k] != needle[k] {
            proof {
                assert(hay@.subrange(at as int, at + needle.len())[k as int] == hay@[at + k]);
            }
            return false;
        }
        k += 1;
    }
    proof {
        assert(hay@.subrange(at as int, at + needle.len()) =~= needle@);
    }
    true
}

/// The least position at or after `from` at which `needle` stands in `hay`.
pub fn find_from(hay: &Vec<char>, needle: &Vec<char>, from: usize) -> (found: Option<usize>)
    ensures
        match found {
            Some(at) => first_occurrence_from(hay@, needle@, from as int) == Some(at as int),
            None => first_occurrence_from(hay@, needle@, from as int) is None,
        },
{
    if needle.len() > hay.len() {
        return None;
    }
    let last: usize = hay.len() - needle.len();
    let mut at: usize = from;
    while at <= last
        invariant
            from <= at,
            last == hay.len() - needle.len(),
            needle.len() <= hay.len(),
            first_occurrence_from(hay@, needle@, from as int) == first_occurrence_from(
                hay@,
                needle@,
                at as int,
            ),
        decreases last + 1 - at,
    {
        if matches_at(hay, needle, at) {
            return Some(at);
        }
        if at == last {
            return None;
        }
        at += 1;
    }
    None
}

/// Tells whether `needle` stands somewhere in `hay`.
pub fn contains(hay: &str, needle: &str) -> (found: bool)
    ensures
        found == occurs_in(hay@, needle@),
{
    let hay_chars = chars_of(hay);
    let needle_chars = chars_of(needle);
    let found = find_from(&hay_chars, &needle_chars, 0);
    proof {
        first_occurrence_is_least(hay@, needle@, 0);
    }
    found.is_some()
}

/// Tells whether `hay` begins with `needle`.
pub fn starts_with(hay: &str, needle: &str) -> (found: bool)
    ensures
        found == has_prefix(hay@, needle@),
{
    let hay_chars = chars_of(hay);
    let needle_chars = chars_of(needle);
    if needle_chars.len() > hay_chars.len() {
        return false;
    }
    matches_at(&hay_chars, &needle_chars, 0)
}

/// The least position at which `needle` stands in `hay`, counted in
/// characters.
pub fn find(hay: &str, needle: &str) -> (found: Option<usize>)
    ensures
        match found {
            Some(at) => first_occurrence(hay@, needle@) == Some(at as int),
            None => first_occurrence(hay@, needle@) is None,
        },
{
    let hay_chars = chars_of(hay);
    let needle_chars = chars_of(needle);
    find_from(&hay_chars, &needle_chars, 0)
}

/// Splits `s` at each occurrence of `sep`.
pub fn split(s: &str, sep: &str) -> (parts: Vec<String>)
    ensures
        crate::model::views(parts@) == split_parts(s@, sep@),
{
    let hay = chars_of(s);
    let needle = chars_of(sep);
    let mut parts: Vec<String> = Vec::new();
    if needle.len() == 0 {
        parts.push(s.to_owned());
        proof {
            assert(crate::model::views(parts@) =~= seq![s@]);
        }
        return parts;
    }
    let mut start: usize = 0;
    proof {
        assert(s@.subrange(0, s@.len() as int) =~= s@);
        assert(crate::model::views(parts@) + split_parts(s@, sep@) =~= split_parts(s@, sep@));
    }
    loop
        invariant
            hay@ == s@,
            needle@ == sep@,
            needle.len() > 0,
            start <= hay.len(),
            split_parts(s@, sep@) == crate::model::views(parts@) + split_parts(
                s@.subrange(start as int, s@.len() as int),
                sep@,
            ),
        decreases hay.len() - start,
    {
        let ghost rest = s@.subrange(start as int, s@.len() as int);
        let ghost done = crate::model::views(parts@);
        let ghost before = parts@;
        let found = find_from(&hay, &needle, start);
        proof {
            first_occurrence_is_least(hay@, needle@, start as int);
            first_occurrence_is_least(rest, needle@, 0);
            occurrences_shift(hay@, needle@, start as int);
        }
        match found {
            Some(at) => {
                let piece = s.substring_char(start, at).to_owned();
                parts.push(piece);
                proof {
                    assert(occurs_at(rest, needle@, at - start));
                    assert(first_occurrence(rest, needle@) == Some(at - start));
                    assert(rest.subrange(0, at - start) =~= s@.subrange(start as int, at as int));
                    assert(rest.subrange(at - start + needle@.len(), rest.len() as int)
                        =~= s@.subrange(at + needle@.len(), s@.len() as int));
                    crate::model::views_push(before, piece);
                    assert(done.push(piece@) + split_parts(
                        s@.subrange(at + needle@.len(), s@.len() as int),
                        sep@,
                    ) =~= done + (seq![piece@] + split_parts(
                        s@.subrange(at + needle@.len(), s@.len() as int),
                        sep@,
                    )));
                }
                start = at + needle.len();
            },
            None => {
                let piece = s.substring_char(start, hay.len()).to_owned();
                parts.push(piece);
                proof {
                    assert(first_occurrence(rest, needle@) is None);
                    crate::model::views_push(before, piece);
                    assert(done.push(piece@) =~= done + seq![rest]);
                }
                return parts;
            },
        }
    }
}

/// Replaces each occurrence of `from` in `s` by `to`.
pub fn replace(s: &str, from: &str, to: &str) -> (out: String)
    ensures
        out@ == replaced(s@, from@, to@),
{
    let hay = chars_of(s);
    let needle = chars_of(from);
    if needle.len() == 0 {
        return s.to_owned();
    }
    let mut out = String::new();
    let mut start: usize = 0;
    proof {
        assert(s@.subrange(0, s@.len() as int) =~= s@);
        assert(out@ + replaced(s@, from@, to@) =~= replaced(s@, from@, to@));
    }
    loop
        invariant
            hay@ == s@,
            needle@ == from@,
            needle.len() > 0,
            start <= hay.len(),
            replaced(s@, from@, to@) == out@ + replaced(
                s@.subrange(start as int, s@.len() as int),
                from@,
                to@,
            ),
        decreases hay.len() - start,
    {
        let ghost rest = s@.subrange(start as int, s@.len() as int);
        let ghost done = out@;
        let found = find_from(&hay, &needle, start);
        proof {
            first_occurrence_is_least(hay@, needle@, start as int);
            first_occurrence_is_least(rest, needle@, 0);
            occurrences_shift(hay@, needle@, start as int);
        }
        match found {
            Some(at) => {
                out.append(s.substring_char(start, at));
                out.append(to);
                proof {
                    assert(occurs_at(rest, needle@, at - start));
                    assert(first_occurrence(rest, needle@) == Some(at - start));
                    assert(rest.subrange(0, at - start) =~= s@.subrange(start as int, at as int));
                    assert(rest.subrange(at - start + needle@.len(), rest.len() as int)
                        =~= s@.subrange(at + needle@.len(), s@.len() as int));
                    assert(done + s@.subrange(start as int, at as int) + to@ + replaced(
                        s@.subrange(at + needle@.len(), s@.len() as int),
                        from@,
                        to@,
                    ) =~= done + (s@.subrange(start as int, at as int) + to@ + replaced(
                        s@.subrange(at + needle@.len(), s@.len() as int),
                        from@,
                        to@,
                    )));
                }
                start = at + needle.len();
            },
            None => {
                out.append(s.substring_char(start, hay.len()));
                proof {
                    assert(first_occurrence(rest, needle@) is None);
                }
                return out;
            },
        }
    }
}

} // verus!
