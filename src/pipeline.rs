//! The whole rewrite of a file: the marking pass, then the replacement pass.
use vstd::prelude::*;

use crate::laws::{
    file_copy_ready, file_declares_copy_once, file_marker_free, file_ref_type_free,
    lemma_derive_complete, lemma_marking_keeps_declarations, lemma_no_marker_survives,
    lemma_no_ref_type_survives,
};
use crate::marking::{mark_file, marked_file};
use crate::replacing::{replace_file, replaced_file};
use crate::syntax::SourceFile;

verus! {

/// The file that the rewrite makes of `f`.
pub open spec fn transformed_file(f: SourceFile) -> SourceFile {
    replaced_file(marked_file(f))
}

/// Rewrites a whole file: references become raw pointers, reads and writes
/// through them become raw-pointer operations in `unsafe` scopes, every body
/// with code is wrapped in an `unsafe` scope and every data declaration is made
/// bitwise-copyable.
pub fn transform_file(f: SourceFile) -> (r: SourceFile)
    ensures
        r == transformed_file(f),
        file_marker_free(r),
        file_ref_type_free(r),
        file_declares_copy_once(f) ==> file_copy_ready(r),
{
    proof {
        lemma_no_marker_survives(marked_file(f));
        lemma_no_ref_type_survives(marked_file(f));
        lemma_marking_keeps_declarations(f);
        if file_declares_copy_once(f) {
            lemma_derive_complete(marked_file(f));
        }
    }
    replace_file(mark_file(f))
}

} // verus!
