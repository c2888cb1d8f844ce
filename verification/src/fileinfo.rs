//! The identity of the file a buffer is bound to, if any.

use vstd::prelude::*;
use crate::strutil::{chars_to_string, str_to_chars};
use vstd::string::StringExecFns;

verus! {

/// The path component after the last separator: the displayed file name.
pub open spec fn basename(s: Seq<char>) -> Seq<char>
    decreases s.len(),
{
    if s.len() == 0 {
        s
    } else if s[s.len() - 1] == '/' {
        Seq::empty()
    } else {
        basename(s.drop_last()).push(s[s.len() - 1])
    }
}

proof fn lemma_basename_is_suffix(s: Seq<char>, cut: int)
    requires
        0 <= cut <= s.len(),
        forall|j: int| cut <= j < s.len() ==> s[j] != '/',
        cut == 0 || s[cut - 1] == '/',
    ensures
        basename(s) == s.skip(cut),
    decreases s.len(),
{
    if s.len() == 0 {
        assert(basename(s) =~= s.skip(0));
    } else if s[s.len() - 1] == '/' {
        assert(cut == s.len());
        assert(basename(s) =~= s.skip(cut));
    } else {
        if cut == s.len() {
            assert(cut >= 1 && s[cut - 1] == '/');
            assert(false);
        }
        lemma_basename_is_suffix(s.drop_last(), cut);
        assert(basename(s) =~= s.skip(cut));
    }
}

#[derive(Debug, Clone)]
pub struct FileInfo {
    pub path: Option<String>,
}

impl FileInfo {
    /// Binds the info to the given path.
    pub fn from(path: &str) -> (f: FileInfo)
        ensures
            f.path is Some,
            f.path->0@ == path@,
    {
        FileInfo { path: Some(String::from_str(path)) }
    }

    /// The bound path, when one exists.
    pub fn get_path(&self) -> (p: Option<&String>)
        ensures
            p is Some <==> self.path is Some,
            p is Some ==> p->0@ == self.path->0@,
    {
        self.path.as_ref()
    }

    /// Whether a path is bound.
    pub fn has_path(&self) -> (r: bool)
        ensures
            r == (self.path is Some),
    {
        self.path.is_some()
    }

    /// The name shown for the file: the path component after the last
    /// separator, or a placeholder when no path is bound.
    pub fn display_name(&self) -> (s: String)
        ensures
            self.path is Some ==> s@ == basename(self.path->0@),
            self.path is None ==> s@ == "[No Name]"@,
    {
        match &self.path {
            Option::None => String::from_str("[No Name]"),
            Option::Some(path) => {
                let chars = str_to_chars(path.as_str());
                let mut cut = chars.len();
                while cut > 0 && chars[cut - 1] != '/'
                    invariant
                        cut <= chars.len(),
                        chars@ == path@,
                        forall|j: int| cut <= j < chars@.len() ==> chars@[j] != '/',
                    decreases cut,
                {
                    cut -= 1;
                }
                let mut name: Vec<char> = Vec::new();
                proof {
                    assert(name@ =~= chars@.subrange(cut as int, cut as int));
                }
                for i in cut..chars.len()
                    invariant
                        cut <= chars.len(),
                        chars@ == path@,
                        name@ == chars@.subrange(cut as int, i as int),
                {
                    name.push(chars[i]);
                    assert(name@ =~= chars@.subrange(cut as int, i + 1));
                }
                proof {
                    lemma_basename_is_suffix(path@, cut as int);
                    assert(name@ =~= path@.skip(cut as int));
                }
                chars_to_string(&name)
            },
        }
    }
}

} // verus!
