//! Rendering to data: the whole output of something as one value.

use vstd::prelude::*;
use crate::codegen::{Lang, WriteOutputStrings};
use crate::common_write::concat_text;

verus! {

/// Something whose output in the language `L` can be had as a value of
/// type `D`.
pub trait ToData<D, L: Lang> {
    /// Whether `data` is the output of `self`.
    spec fn is_data(&self, data: &D) -> bool;

    fn to_data(&self) -> (r: D)
        ensures
            self.is_data(&r),
    ;
}

impl<L: Lang, S: WriteOutputStrings<L>> ToData<String, L> for S {
    /// The data is the text of all strings, one behind the other.
    open spec fn is_data(&self, data: &String) -> bool {
        data@ == concat_text(self.output_strings())
    }

    fn to_data(&self) -> (r: String) {
        let mut out = String::new();
        self.write_output_strings(&mut out);
        assert(out@ =~= concat_text(self.output_strings()));
        out
    }
}

} // verus!
