//! Where a target finds its input.
use crate::bytes::copy_bytes;
use crate::path::{equal_paths, same_path};
use vstd::prelude::*;
use vstd::std_specs::cmp::PartialEqSpecImpl;

verus! {

/// An input that can be turned into the bytes that a target sees.
pub trait HasTargetBytes {
    /// The bytes.
    fn target_bytes(&self) -> (bytes: Vec<u8>);
}

/// Plain bytes are what the target sees.
impl HasTargetBytes for Vec<u8> {
    fn target_bytes(&self) -> (bytes: Vec<u8>)
        ensures
            bytes@ == self@,
    {
        copy_bytes(self)
    }
}

/// The file that an input is written to before each run. The target should
/// read its input from there.
#[derive(Debug)]
pub struct InputFile {
    /// The path of the file.
    pub path: Vec<u8>,
}

impl View for InputFile {
    type V = Seq<u8>;

    open spec fn view(&self) -> Seq<u8> {
        self.path@
    }
}

impl Clone for InputFile {
    fn clone(&self) -> (copy: Self)
        ensures
            copy@ == self@,
    {
        InputFile { path: copy_bytes(&self.path) }
    }
}

/// Two input files are the same if their paths are.
impl PartialEq for InputFile {
    fn eq(&self, other: &Self) -> (same: bool) {
        same_path(&self.path, &other.path)
    }
}

impl PartialEqSpecImpl for InputFile {
    open spec fn obeys_eq_spec() -> bool {
        true
    }

    open spec fn eq_spec(&self, other: &Self) -> bool {
        equal_paths(self@, other@)
    }
}

impl Eq for InputFile {

}

/// How to deliver an input to a target.
#[derive(Debug)]
pub enum InputLocation {
    /// Replace an argument of the command line by the input.
    Arg {
        /// The offset of the argument to replace.
        argnum: usize,
    },
    /// Write the input to the target's standard input.
    StdIn,
    /// Write the input to a file.
    File {
        /// The file to write to.
        out_file: InputFile,
    },
}

/// The contents of an [`InputLocation`].
pub enum InputLocationView {
    Arg { argnum: nat },
    StdIn,
    File { path: Seq<u8> },
}

impl View for InputLocation {
    type V = InputLocationView;

    open spec fn view(&self) -> InputLocationView {
        match self {
            InputLocation::Arg { argnum } => InputLocationView::Arg { argnum: *argnum as nat },
            InputLocation::StdIn => InputLocationView::StdIn,
            InputLocation::File { out_file } => InputLocationView::File { path: out_file@ },
        }
    }
}

impl PartialEq for InputLocation {
    fn eq(&self, other: &Self) -> (same: bool) {
        match (self, other) {
            (InputLocation::Arg { argnum: a }, InputLocation::Arg { argnum: b }) => *a == *b,
            (InputLocation::StdIn, InputLocation::StdIn) => true,
            (InputLocation::File { out_file: a }, InputLocation::File { out_file: b }) => *a == *b,
            _ => false,
        }
    }
}

impl PartialEqSpecImpl for InputLocation {
    open spec fn obeys_eq_spec() -> bool {
        true
    }

    open spec fn eq_spec(&self, other: &Self) -> bool {
        match (self@, other@) {
            (InputLocationView::Arg { argnum: a }, InputLocationView::Arg { argnum: b }) => a == b,
            (InputLocationView::StdIn, InputLocationView::StdIn) => true,
            (InputLocationView::File { path: a }, InputLocationView::File { path: b }) => {
                equal_paths(a, b)
            },
            _ => false,
        }
    }
}

impl Eq for InputLocation {

}

impl Clone for InputLocation {
    fn clone(&self) -> (copy: Self)
        ensures
            copy@ == self@,
    {
        match self {
            InputLocation::Arg { argnum } => InputLocation::Arg { argnum: *argnum },
            InputLocation::StdIn => InputLocation::StdIn,
            InputLocation::File { out_file } => InputLocation::File { out_file: out_file.clone() },
        }
    }
}

/// A number in decimal, without leading zeros.
pub open spec fn decimal(n: nat) -> Seq<char>
    decreases n,
{
    let digit = (48 + n % 10) as char;
    if n < 10 {
        seq![digit]
    } else {
        decimal(n / 10).push(digit)
    }
}

/// The default name of the input file of the process with the given id.
pub open spec fn std_input_file_of(process_id: u32) -> Seq<char> {
    ".cur_input_"@ + decimal(process_id as nat)
}

/// The default name of an input file of some process.
pub open spec fn is_std_input_file(name: Seq<char>) -> bool {
    exists|process_id: u32| name == #[trigger] std_input_file_of(process_id)
}

/// Calls `libafl_bolts::fs::get_unique_std_input_file`, which joins the fixed
/// name `.cur_input`, an underscore and the id of the running process. Which id
/// that is depends on the process, so the contract says only that the name is
/// the default name for some process id.
#[verifier::external_body]
pub(crate) fn unique_std_input_file() -> (name: String)
    ensures
        is_std_input_file(name@),
{
    libafl_bolts::fs::get_unique_std_input_file()
}

} // verus!
