//! Planning for the debug extraction of archived artifacts.
//!
//! The runtime scans the archive directory and hands the file names it found,
//! together with the names already present in the inspection directory, to
//! [`decompression_plan`]; the plan lists the artifacts still to be
//! decompressed, so that running the extraction again does no redundant work.

use vstd::prelude::*;

verus! {

/// `s` ends with `suffix`.
pub open spec fn has_suffix(s: Seq<char>, suffix: Seq<char>) -> bool {
    &&& s.len() >= suffix.len()
    &&& s.subrange(s.len() - suffix.len(), s.len() as int) == suffix
}

/// The name of an archive artifact, temporary or final.
pub open spec fn is_archive_name(name: Seq<char>) -> bool {
    has_suffix(name, ".zstd"@)
}

/// The name of a temporary artifact, which downstream tooling must ignore.
pub open spec fn is_temp_archive_name(name: Seq<char>) -> bool {
    has_suffix(name, ".temp.zstd"@)
}

/// An artifact name without its `.zstd` suffix: the name its extracted
/// cleartext is stored under.
pub open spec fn archive_stem(name: Seq<char>) -> Seq<char> {
    name.subrange(0, name.len() - ".zstd"@.len())
}

/// A file that the extraction still has to decompress: a final (non-temp)
/// artifact whose extracted output does not exist yet.
pub open spec fn extract_candidate(name: Seq<char>, existing: Seq<Seq<char>>) -> bool {
    &&& is_archive_name(name)
    &&& !is_temp_archive_name(name)
    &&& !existing.contains(archive_stem(name))
}

/// The stems to extract, in directory order.
pub open spec fn plan_spec(files: Seq<Seq<char>>, existing: Seq<Seq<char>>) -> Seq<Seq<char>>
    decreases files.len(),
{
    if files.len() == 0 {
        Seq::empty()
    } else {
        let rest = plan_spec(files.drop_last(), existing);
        if extract_candidate(files.last(), existing) {
            rest.push(archive_stem(files.last()))
        } else {
            rest
        }
    }
}

/// Decides whether `s` ends with `suffix`, character by character.
fn str_has_suffix(s: &str, suffix: &str) -> (r: bool)
    ensures
        r == has_suffix(s@, suffix@),
{
    let n = s.unicode_len();
    let m = suffix.unicode_len();
    if m > n {
        assert(!has_suffix(s@, suffix@));
        return false;
    }
    let mut i: usize = 0;
    while i < m
        invariant
            0 <= i <= m,
            m <= n,
            n == s@.len(),
            m == suffix@.len(),
            forall|j: int| 0 <= j < i ==> s@[n - m + j] == suffix@[j],
        decreases m - i,
    {
        if s.get_char(n - m + i) != suffix.get_char(i) {
            assert(s@.subrange(n - m, n as int)[i as int] != suffix@[i as int]);
            return false;
        }
        i = i + 1;
    }
    assert(s@.subrange(n - m, n as int) =~= suffix@);
    true
}

/// Computes, from the archive directory's file names and the names already
/// extracted, the stems still to be decompressed, in directory order. A name
/// is included exactly when it is a final (non-temporary) artifact whose stem
/// is not yet among `existing`.
pub fn decompression_plan(files: &Vec<String>, existing: &Vec<String>) -> (r: Vec<String>)
    ensures
        r.deep_view() == plan_spec(files.deep_view(), existing.deep_view()),
{
    let ghost filesv = files.deep_view();
    let mut r: Vec<String> = Vec::new();
    let mut i: usize = 0;
    while i < files.len()
        invariant
            0 <= i <= files.len(),
            filesv == files.deep_view(),
            filesv.len() == files.len(),
            forall|j: int| 0 <= j < files@.len() ==> filesv[j] == files@[j]@,
            r.deep_view() == plan_spec(filesv.take(i as int), existing.deep_view()),
        decreases files.len() - i,
    {
        let name: &String = &files[i];
        assert(name@ == filesv[i as int]);
        if str_has_suffix(name.as_str(), ".zstd") && !str_has_suffix(name.as_str(), ".temp.zstd") {
            let stem = extract_stem(name.as_str());
            if !contains_string(existing, &stem) {
                r.push(stem);
            }
        }
        proof {
            assert(filesv.take(i + 1).drop_last() =~= filesv.take(i as int));
            assert(filesv.take(i + 1).last() == filesv[i as int]);
            assert(r.deep_view() =~= plan_spec(filesv.take(i + 1), existing.deep_view()));
        }
        i = i + 1;
    }
    proof {
        assert(filesv.take(files@.len() as int) =~= filesv);
    }
    r
}

/// Cuts the `.zstd` suffix off an artifact name.
fn extract_stem(name: &str) -> (r: String)
    requires
        is_archive_name(name@),
    ensures
        r@ == archive_stem(name@),
{
    proof {
        reveal_strlit(".zstd");
    }
    let n = name.unicode_len();
    let stem = name.substring_char(0, n - 5);
    String::from_str(stem)
}

/// Decides whether `needle` occurs in `haystack`.
fn contains_string(haystack: &Vec<String>, needle: &String) -> (r: bool)
    ensures
        r == haystack.deep_view().contains(needle@),
{
    let ghost hv = haystack.deep_view();
    let mut i: usize = 0;
    while i < haystack.len()
        invariant
            0 <= i <= haystack.len(),
            hv == haystack.deep_view(),
            hv.len() == haystack.len(),
            forall|j: int| 0 <= j < haystack@.len() ==> hv[j] == haystack@[j]@,
            forall|j: int| 0 <= j < i ==> hv[j] != needle@,
        decreases haystack.len() - i,
    {
        if haystack[i].eq(needle) {
            assert(hv.contains(needle@)) by {
                assert(hv[i as int] == needle@);
            }
            return true;
        }
        i = i + 1;
    }
    assert(forall|j: int| 0 <= j < hv.len() ==> hv[j] != needle@);
    false
}

/// Running the extraction a second time finds nothing left to do: once every
/// stem of the first plan exists, no file is a candidate any more.
pub proof fn lemma_extraction_idempotent(files: Seq<Seq<char>>, existing: Seq<Seq<char>>)
    ensures
        plan_spec(files, existing + plan_spec(files, existing)) == Seq::<Seq<char>>::empty(),
{
    lemma_extraction_stable(files, files, existing);
}

/// Helper for [`lemma_extraction_idempotent`]: planning over any prefix of
/// the directory, once the whole first plan's stems exist, yields nothing.
proof fn lemma_extraction_stable(prefix: Seq<Seq<char>>, files: Seq<Seq<char>>, existing: Seq<Seq<char>>)
    requires
        prefix.is_prefix_of(files),
    ensures
        plan_spec(prefix, existing + plan_spec(files, existing)) == Seq::<Seq<char>>::empty(),
    decreases prefix.len(),
{
    if prefix.len() > 0 {
        lemma_extraction_stable(prefix.drop_last(), files, existing);
        let last = prefix.last();
        let plan = plan_spec(files, existing);
        if extract_candidate(last, existing + plan) {
            let stem = archive_stem(last);
            assert(!existing.contains(stem)) by {
                if existing.contains(stem) {
                    let k = choose|k: int| 0 <= k < existing.len() && existing[k] == stem;
                    assert((existing + plan)[k] == stem);
                }
            }
            assert(files[prefix.len() - 1] == last);
            lemma_plan_covers_candidates(files, existing, prefix.len() - 1);
            let j = choose|j: int| 0 <= j < plan.len() && plan[j] == stem;
            assert((existing + plan)[existing.len() + j] == stem);
            assert(false);
        }
        assert(plan_spec(prefix, existing + plan_spec(files, existing)) =~= Seq::<
            Seq<char>,
        >::empty());
    } else {
        assert(plan_spec(prefix, existing + plan_spec(files, existing)) =~= Seq::<
            Seq<char>,
        >::empty());
    }
}

/// Every candidate's stem is in the plan.
proof fn lemma_plan_covers_candidates(files: Seq<Seq<char>>, existing: Seq<Seq<char>>, i: int)
    requires
        0 <= i < files.len(),
        extract_candidate(files[i], existing),
    ensures
        plan_spec(files, existing).contains(archive_stem(files[i])),
    decreases files.len(),
{
    if i == files.len() - 1 {
        assert(plan_spec(files, existing).last() == archive_stem(files[i]));
    } else {
        lemma_plan_covers_candidates(files.drop_last(), existing, i);
        assert(files.drop_last()[i] == files[i]);
        let rest = plan_spec(files.drop_last(), existing);
        let k = choose|k: int| 0 <= k < rest.len() && rest[k] == archive_stem(files[i]);
        if extract_candidate(files.last(), existing) {
            assert(plan_spec(files, existing)[k] == archive_stem(files[i]));
        } else {
            assert(plan_spec(files, existing)[k] == archive_stem(files[i]));
        }
    }
}

} // verus!
