//! Local filenames for the two temporary files of one conversion: the
//! downloaded attachment and the transcoder's output. Both are derived from
//! the attachment's unique id, so distinct attachments never share a file.

use vstd::prelude::*;
use vstd::string::StringExecFns;

verus! {

/// Suffix of the downloaded attachment's local file.
pub open spec fn input_suffix() -> Seq<char> {
    ".mp3"@
}

/// Suffix of the transcoded output's local file.
pub open spec fn output_suffix() -> Seq<char> {
    ".ogg"@
}

/// The local filename the attachment with this unique id is downloaded to.
pub open spec fn input_name(unique_id: Seq<char>) -> Seq<char> {
    unique_id + input_suffix()
}

/// The local filename the transcoder writes its output to.
pub open spec fn output_name(unique_id: Seq<char>) -> Seq<char> {
    unique_id + output_suffix()
}

/// Builds the download filename for an attachment's unique id.
pub fn input_filename(unique_id: &str) -> (r: String)
    ensures
        r@ == input_name(unique_id@),
{
    unique_id.to_owned().concat(".mp3")
}

/// Builds the transcoder output filename for an attachment's unique id.
pub fn output_filename(unique_id: &str) -> (r: String)
    ensures
        r@ == output_name(unique_id@),
{
    unique_id.to_owned().concat(".ogg")
}

/// Appending one common suffix keeps distinct names distinct.
proof fn lemma_suffix_keeps_distinct(a: Seq<char>, b: Seq<char>, s: Seq<char>)
    requires
        a != b,
    ensures
        a + s != b + s,
{
    if a.len() == b.len() {
        assert(!(a =~= b));
        let i = choose|i: int| 0 <= i < a.len() && a[i] != b[i];
        assert((a + s)[i] == a[i]);
        assert((b + s)[i] == b[i]);
        assert(a + s != b + s);
    } else {
        assert((a + s).len() != (b + s).len());
    }
}

/// A download filename never collides with a transcoder output filename,
/// whatever the two unique ids: the suffixes already differ.
pub proof fn lemma_input_never_output(u1: Seq<char>, u2: Seq<char>)
    ensures
        input_name(u1) != output_name(u2),
{
    reveal_strlit(".mp3");
    reveal_strlit(".ogg");
    let a = input_name(u1);
    let b = output_name(u2);
    if a == b {
        assert(a[a.len() - 1] == input_suffix()[3]);
        assert(b[b.len() - 1] == output_suffix()[3]);
        assert(false);
    }
}

/// Distinct unique ids give wholly disjoint temporary files: the two download
/// names differ, the two output names differ, and no download name is ever an
/// output name. Concurrent conversions of distinct attachments therefore
/// touch disjoint filenames.
pub proof fn lemma_distinct_ids_disjoint_files(u1: Seq<char>, u2: Seq<char>)
    requires
        u1 != u2,
    ensures
        input_name(u1) != input_name(u2),
        output_name(u1) != output_name(u2),
        input_name(u1) != output_name(u2),
        input_name(u2) != output_name(u1),
{
    lemma_suffix_keeps_distinct(u1, u2, input_suffix());
    lemma_suffix_keeps_distinct(u1, u2, output_suffix());
    lemma_input_never_output(u1, u2);
    lemma_input_never_output(u2, u1);
}

} // verus!
