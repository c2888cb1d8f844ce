//! A read-only snapshot of the document's state, consumed by a status-bar
//! collaborator.

use vstd::prelude::*;
use vstd::string::StringExecFns;
use crate::strutil::{dec_digits, usize_to_string};

verus! {

#[derive(Debug, Clone)]
pub struct DocumentStatus {
    pub current_line: usize,
    pub total_line: usize,
    pub filename: String,
    pub is_modified: bool,
}

impl PartialEq for DocumentStatus {
    fn eq(&self, other: &DocumentStatus) -> (r: bool) {
        self.current_line == other.current_line && self.total_line == other.total_line
            && self.filename == other.filename && self.is_modified == other.is_modified
    }
}

impl vstd::std_specs::cmp::PartialEqSpecImpl for DocumentStatus {
    open spec fn obeys_eq_spec() -> bool {
        true
    }

    open spec fn eq_spec(&self, other: &DocumentStatus) -> bool {
        self.current_line == other.current_line && self.total_line == other.total_line
            && self.filename@ == other.filename@ && self.is_modified == other.is_modified
    }
}

impl Default for DocumentStatus {
    /// The status of an empty, unnamed, unmodified document.
    fn default() -> (s: DocumentStatus)
        ensures
            s.current_line == 0,
            s.total_line == 0,
            s.filename@ == Seq::<char>::empty(),
            !s.is_modified,
    {
        DocumentStatus {
            current_line: 0,
            total_line: 0,
            filename: String::new(),
            is_modified: false,
        }
    }
}

impl DocumentStatus {
    /// The marker shown while the document has unsaved changes.
    pub fn modified_indicator_to_string(&self) -> (s: String)
        ensures
            self.is_modified ==> s@ == "(modified)"@,
            !self.is_modified ==> s@ == Seq::<char>::empty(),
    {
        if self.is_modified {
            String::from_str("(modified)")
        } else {
            String::new()
        }
    }

    /// The line count, written out.
    pub fn line_count_to_string(&self) -> (s: String)
        ensures
            s@ == dec_digits(self.total_line as nat) + " lines"@,
    {
        let mut s = usize_to_string(self.total_line);
        s.append(" lines");
        s
    }

    /// The one-based current line over the total, written out.
    pub fn position_indicator_to_string(&self) -> (s: String)
        ensures
            s@ == dec_digits(
                if self.current_line as nat + 1 <= usize::MAX as nat {
                    self.current_line as nat + 1
                } else {
                    usize::MAX as nat
                },
            ) + "/"@ + dec_digits(self.total_line as nat),
    {
        let mut s = usize_to_string(self.current_line.saturating_add(1));
        s.append("/");
        let total = usize_to_string(self.total_line);
        s.append(total.as_str());
        s
    }
}

} // verus!
