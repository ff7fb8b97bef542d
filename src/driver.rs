//! The decisions of the compiler driver: where the source file stands among the
//! compiler's arguments, and what the compiler is handed in its place.
use vstd::prelude::*;

use crate::text::same_chars;

verus! {

/// How the tool was started.
#[derive(Debug, Clone, Copy, PartialEq, Eq)]
pub enum Mode {
    /// Run directly, in place of the compiler.
    Standalone,
    /// Run by the build tool as a wrapper, with the compiler's path as first argument.
    Wrapped,
}

/// How many of the process's arguments precede the compiler's own.
pub open spec fn spec_arg_offset(mode: Mode) -> nat {
    match mode {
        Mode::Standalone => 1,
        Mode::Wrapped => 2,
    }
}

/// How many of the process's arguments precede the compiler's own: the
/// program's name, and in wrapped mode the compiler's path after it.
pub fn arg_offset(mode: Mode) -> (r: usize)
    ensures
        r == spec_arg_offset(mode),
{
    match mode {
        Mode::Standalone => 1,
        Mode::Wrapped => 2,
    }
}

/// An option: an argument that starts with `-`.
pub open spec fn is_option(a: Seq<char>) -> bool {
    a.len() > 0 && a[0] == '-'
}

/// The argument `-`, which names standard input as the source.
pub open spec fn is_stdin(a: Seq<char>) -> bool {
    a == seq!['-']
}

pub open spec fn has_rs_suffix(a: Seq<char>) -> bool {
    a.len() >= 3 && a.subrange(a.len() - 3, a.len() as int) == seq!['.', 'r', 's']
}

/// Whether `args[i]` names a source file: it ends in `.rs`, is no option, and
/// is not the value of an option before it.
pub open spec fn is_source_operand(args: Seq<String>, i: int) -> bool {
    &&& !is_option(args[i]@)
    &&& has_rs_suffix(args[i]@)
    &&& (i == 0 || !is_option(args[i - 1]@))
}

fn starts_with_dash(a: &String) -> (r: bool)
    ensures
        r == is_option(a@),
{
    let s = a.as_str();
    s.unicode_len() > 0 && s.get_char(0) == '-'
}

fn is_single_dash(a: &String) -> (r: bool)
    ensures
        r == is_stdin(a@),
{
    let s = a.as_str();
    let r = s.unicode_len() == 1 && s.get_char(0) == '-';
    assert(r ==> a@ =~= seq!['-']);
    r
}

fn ends_with_rs(a: &String) -> (r: bool)
    ensures
        r == has_rs_suffix(a@),
{
    let s = a.as_str();
    let n = s.unicode_len();
    if n < 3 {
        return false;
    }
    let r = s.get_char(n - 3) == '.' && s.get_char(n - 2) == 'r' && s.get_char(n - 1) == 's';
    proof {
        let tail = a@.subrange(n - 3, n as int);
        assert(r ==> tail =~= seq!['.', 'r', 's']);
        assert(tail == seq!['.', 'r', 's'] ==> tail[0] == '.' && tail[1] == 'r' && tail[2] == 's');
    }
    r
}

/// Finds the source file among the compiler's arguments: the first that
/// names one, with its position; none where `-` (standard input) comes first
/// or no argument names one.
pub fn find_input_file(args: &[String]) -> (r: Option<(usize, &String)>)
    ensures
        match r {
            Some((i, a)) => {
                &&& i < args@.len()
                &&& *a == args@[i as int]
                &&& is_source_operand(args@, i as int)
                &&& forall|j: int|
                    0 <= j < i ==> !is_source_operand(args@, j) && !is_stdin(#[trigger] args@[j]@)
            },
            None => forall|i: int|
                0 <= i < args@.len() && is_source_operand(args@, i) ==> exists|j: int|
                    0 <= j < i && is_stdin(#[trigger] args@[j]@),
        },
{
    let mut skip = false;
    let mut i: usize = 0;
    while i < args.len()
        invariant
            0 <= i <= args@.len(),
            skip == (i > 0 && is_option(args@[i - 1]@)),
            forall|j: int| 0 <= j < i ==> !is_source_operand(args@, j) && !is_stdin(#[trigger] args@[j]@),
        decreases args@.len() - i,
    {
        let arg = &args[i];
        if is_single_dash(arg) {
            proof {
                assert forall|k: int| 0 <= k < args@.len() && is_source_operand(args@, k) implies exists|j: int|
                    0 <= j < k && is_stdin(#[trigger] args@[j]@) by {
                    if k <= i {
                        assert(is_stdin(args@[i as int]@));
                        assert(!has_rs_suffix(args@[i as int]@));
                    }
                    assert(is_stdin(args@[i as int]@));
                }
            }
            return None;
        } else if starts_with_dash(arg) {
            skip = true;
        } else if skip {
            skip = false;
        } else if ends_with_rs(arg) {
            return Some((i, arg));
        }
        i = i + 1;
    }
    None
}

/// The first position in `args` that holds `file`.
pub fn arg_position(args: &[String], file: &str) -> (r: Option<usize>)
    ensures
        match r {
            Some(i) => i < args@.len() && args@[i as int]@ == file@ && forall|j: int|
                0 <= j < i ==> #[trigger] args@[j]@ != file@,
            None => forall|j: int| 0 <= j < args@.len() ==> #[trigger] args@[j]@ != file@,
        },
{
    let mut i: usize = 0;
    while i < args.len()
        invariant
            0 <= i <= args@.len(),
            forall|j: int| 0 <= j < i ==> #[trigger] args@[j]@ != file@,
        decreases args@.len() - i,
    {
        if same_chars(&args[i], file) {
            return Some(i);
        }
        i = i + 1;
    }
    None
}

/// What became of the source file.
#[derive(Debug, Clone, PartialEq, Eq)]
pub enum Outcome {
    /// It was rewritten into the file at this path.
    Rewritten(String),
    /// It could not be parsed; the compiler gets it as it is and reports the
    /// error itself.
    ParseFailed,
}

/// Puts the rewritten file in the place of the source file among the compiler's
/// arguments; after a parse failure the arguments stay as they are.
pub fn substitute_input(args: &mut Vec<String>, index: usize, outcome: Outcome)
    requires
        index < old(args)@.len(),
    ensures
        match outcome {
            Outcome::Rewritten(path) => final(args)@ == old(args)@.update(index as int, path),
            Outcome::ParseFailed => final(args)@ == old(args)@,
        },
{
    match outcome {
        Outcome::Rewritten(path) => {
            args[index] = path;
        },
        Outcome::ParseFailed => {},
    }
}

} // verus!
