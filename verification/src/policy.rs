//! The mirror policy: the pure decision mapping a mirror configuration
//! and a request path to an optional (directory, file name) save target.
//!
//! The trailing filename-like segment of a path is the longest suffix
//! made of one or more non-separator characters that contains at least
//! one dot, anchored at the end of the path. An allow-listed extension
//! token selects a segment by substring containment anywhere in it,
//! deliberately looser than a suffix match.
use vstd::prelude::*;
use crate::text::after_last;
use crate::text::contains_seq;
use crate::text::find_after_last;
use crate::text::lemma_after_last;
use crate::text::str_contains;

verus! {

/// The mathematical model of one configured mirror.
pub ghost struct MirrorModel {
    pub name: Seq<char>,
    pub extensions: Seq<Seq<char>>,
    pub location: Seq<char>,
}

/// One configured mirror rule: an identifier, the allow-listed
/// extension tokens, and the local storage root it saves under.
pub struct Mirror {
    pub name: String,
    pub extensions: Vec<String>,
    pub location: String,
}

/// The views of a sequence of extension tokens.
pub open spec fn exts_view(exts: Seq<String>) -> Seq<Seq<char>> {
    exts.map_values(|e: String| e@)
}

impl View for Mirror {
    type V = MirrorModel;

    open spec fn view(&self) -> MirrorModel {
        MirrorModel {
            name: self.name@,
            extensions: exts_view(self.extensions@),
            location: self.location@,
        }
    }
}

/// The outcome of a mirror policy decision: skip the response, or save
/// its body under `directory` as `file_name`.
pub enum MirrorDecision {
    Skip,
    Save { directory: String, file_name: String },
}

/// Where the filename-like segment starts: just after the last
/// separator of the path.
pub open spec fn segment_start(path: Seq<char>) -> int {
    after_last(path, '/')
}

/// Whether the path ends in a filename-like segment: the trailing run
/// of non-separator characters contains at least one dot.
pub open spec fn has_file_segment(path: Seq<char>) -> bool {
    exists|i: int| segment_start(path) <= i < path.len() && path[i] == '.'
}

/// The filename-like segment: the suffix of the path from
/// `segment_start` to its end.
pub open spec fn file_segment(path: Seq<char>) -> Seq<char> {
    path.subrange(segment_start(path), path.len() as int)
}

/// The part of the path before the filename-like segment.
pub open spec fn segment_prefix(path: Seq<char>) -> Seq<char> {
    path.subrange(0, segment_start(path))
}

/// Some allow-listed token occurs in the segment.
pub open spec fn any_extension_matches(exts: Seq<Seq<char>>, seg: Seq<char>) -> bool {
    exists|k: int| 0 <= k < exts.len() && contains_seq(seg, exts[k])
}

/// A path with its leading separator removed, if it has one.
pub open spec fn strip_leading_slash(s: Seq<char>) -> Seq<char> {
    if s.len() > 0 && s[0] == '/' {
        s.subrange(1, s.len() as int)
    } else {
        s
    }
}

/// A root path joined with a relative part, inserting a separator
/// unless the root already ends in one.
pub open spec fn join_path(root: Seq<char>, rel: Seq<char>) -> Seq<char> {
    if root.len() > 0 && root.last() == '/' {
        root + rel
    } else {
        root + seq!['/'] + rel
    }
}

/// The policy saves exactly when the path has a filename-like segment
/// and some allow-listed token occurs in it.
pub open spec fn should_save(m: MirrorModel, path: Seq<char>) -> bool {
    has_file_segment(path) && any_extension_matches(m.extensions, file_segment(path))
}

/// The directory a saved body goes to: the mirror's root joined with
/// the path part before the segment, leading separator stripped.
pub open spec fn save_directory(m: MirrorModel, path: Seq<char>) -> Seq<char> {
    join_path(m.location, strip_leading_slash(segment_prefix(path)))
}

/// Joins a root path and a relative part, inserting a separator
/// unless the root already ends in one.
pub fn join_under(root: &str, rel: &str) -> (r: String)
    ensures
        r@ == join_path(root@, rel@),
{
    let rlen = root.unicode_len();
    let mut joined = root.to_owned();
    if rlen == 0 || root.get_char(rlen - 1) != '/' {
        joined.append("/");
        proof {
            reveal_strlit("/");
            assert(joined@ =~= root@ + seq!['/']);
        }
    }
    joined.append(rel);
    proof {
        assert(joined@ =~= join_path(root@, rel@));
    }
    joined
}

/// Tests each allow-listed token against the segment by substring
/// containment.
fn extensions_match(extensions: &Vec<String>, seg: &str) -> (r: bool)
    ensures
        r == any_extension_matches(exts_view(extensions@), seg@),
{
    let mut k: usize = 0;
    while k < extensions.len()
        invariant
            k <= extensions@.len(),
            forall|j: int| 0 <= j < k ==> !contains_seq(seg@, exts_view(extensions@)[j]),
        decreases extensions@.len() - k,
    {
        if str_contains(seg, extensions[k].as_str()) {
            proof {
                assert(exts_view(extensions@)[k as int] == extensions@[k as int]@);
                assert(any_extension_matches(exts_view(extensions@), seg@));
            }
            return true;
        }
        k = k + 1;
    }
    false
}

/// The mirror policy: decide whether and where the body of a response
/// for `path` is persisted under `mirror`.
pub fn decide(mirror: &Mirror, path: &str) -> (d: MirrorDecision)
    ensures
        should_save(mirror@, path@) ==> (d matches MirrorDecision::Save { directory, file_name }
            && directory@ == save_directory(mirror@, path@) && file_name@ == file_segment(
            path@,
        )),
        !should_save(mirror@, path@) ==> (d is Skip),
{
    let plen = path.unicode_len();
    let start = find_after_last(path, '/');
    proof {
        lemma_after_last(path@, '/');
    }
    if start >= plen {
        proof {
            assert(!has_file_segment(path@));
        }
        return MirrorDecision::Skip;
    }
    let seg = path.substring_char(start, plen);
    proof {
        assert(seg@ == file_segment(path@));
    }
    let seg_dot = find_after_last(seg, '.');
    proof {
        lemma_after_last(seg@, '.');
        assert(forall|j: int|
            start <= j < plen ==> path@[j] == seg@[j - start]);
    }
    if seg_dot == 0 {
        proof {
            assert(!has_file_segment(path@));
        }
        return MirrorDecision::Skip;
    }
    proof {
        assert(path@[start + seg_dot - 1] == '.');
        assert(has_file_segment(path@));
    }
    if !extensions_match(&mirror.extensions, seg) {
        return MirrorDecision::Skip;
    }
    let rel_from: usize = if start > 0 && path.get_char(0) == '/' {
        1
    } else {
        0
    };
    let rel = path.substring_char(rel_from, start);
    proof {
        assert(segment_prefix(path@) =~= path@.subrange(0, start as int));
        assert(rel@ =~= strip_leading_slash(segment_prefix(path@)));
    }
    let directory = join_under(mirror.location.as_str(), rel);
    let file_name = seg.to_owned();
    MirrorDecision::Save { directory, file_name }
}

} // verus!
