//! Path handling: the syntax extension a path implies for highlighting, and
//! the default file loaded at startup.

use vstd::prelude::*;

use crate::content::clone_chars;
use crate::document::Document;

verus! {

/// The index of the last occurrence of `ch` among the first `pos`
/// characters of `s`, or -1 when there is none.
pub open spec fn last_index_of(s: Seq<char>, pos: int, ch: char) -> int
    decreases pos,
{
    if pos <= 0 {
        -1
    } else if s[pos - 1] == ch {
        pos - 1
    } else {
        last_index_of(s, pos - 1, ch)
    }
}

/// The extension of a path: the characters after the last dot of its file
/// name, provided that dot neither starts the file name (a hidden file has
/// no extension) nor lies in a directory component. The file name is what
/// follows the last separator.
pub open spec fn extension_spec(p: Seq<char>) -> Option<Seq<char>> {
    let sep = last_index_of(p, p.len() as int, '/');
    let dot = last_index_of(p, p.len() as int, '.');
    if dot > sep + 1 {
        Some(p.subrange(dot + 1, p.len() as int))
    } else {
        None
    }
}

/// The extension used for highlighting: the path's own extension when it
/// has one, and plain text otherwise — also when no path is known at all.
pub open spec fn syntax_extension_spec(path: Option<Seq<char>>) -> Seq<char> {
    match path {
        Some(p) => match extension_spec(p) {
            Some(e) => e,
            None => "txt"@,
        },
        None => "txt"@,
    }
}

/// Returns the default extension, plain text, for a path without one.
fn default_extension() -> (e: Vec<char>)
    ensures
        e@ == "txt"@,
{
    let mut e: Vec<char> = Vec::new();
    e.push('t');
    e.push('x');
    e.push('t');
    proof {
        reveal_strlit("txt");
        assert(e@ =~= "txt"@);
    }
    e
}

/// Returns the extension of the given path, if it has one.
pub fn extension_of(p: &Vec<char>) -> (e: Option<Vec<char>>)
    ensures
        e matches Some(ext) ==> extension_spec(p@) == Some(ext@),
        e is None ==> extension_spec(p@) is None,
{
    let n = p.len();
    let mut i: usize = 0;
    let mut sep_found: bool = false;
    let mut sep: usize = 0;
    let mut dot_found: bool = false;
    let mut dot: usize = 0;
    while i < n
        invariant
            n == p@.len(),
            i <= n,
            sep_found ==> sep < i,
            dot_found ==> dot < i,
            (if sep_found { sep as int } else { -1 }) == last_index_of(p@, i as int, '/'),
            (if dot_found { dot as int } else { -1 }) == last_index_of(p@, i as int, '.'),
        decreases n - i,
    {
        let c = p[i];
        if c == '/' {
            sep_found = true;
            sep = i;
        } else if c == '.' {
            dot_found = true;
            dot = i;
        }
        i = i + 1;
    }
    let has_extension = dot_found && (if sep_found { dot > sep + 1 } else { dot > 0 });
    if has_extension {
        let mut ext: Vec<char> = Vec::new();
        let mut j: usize = dot + 1;
        while j < n
            invariant
                n == p@.len(),
                dot < n,
                dot < j <= n,
                ext@ == p@.subrange(dot as int + 1, j as int),
            decreases n - j,
        {
            ext.push(p[j]);
            proof {
                assert(ext@ =~= p@.subrange(dot as int + 1, j as int + 1));
            }
            j = j + 1;
        }
        Some(ext)
    } else {
        None
    }
}

impl Document {
    /// Returns the extension handed to the highlighter: derived from the
    /// document's path, defaulting to plain text.
    pub fn syntax_extension(&self) -> (e: Vec<char>)
        ensures
            e@ == syntax_extension_spec(self@.path),
    {
        match &self.path {
            Some(p) => match extension_of(p) {
                Some(ext) => ext,
                None => default_extension(),
            },
            None => default_extension(),
        }
    }
}

/// Returns the path of the file loaded at startup: the crate's own main
/// source file under the given project directory.
pub fn default_file(manifest_dir: &Vec<char>) -> (p: Vec<char>)
    ensures
        p@ == manifest_dir@ + "/src/main.rs"@,
{
    let mut p = clone_chars(manifest_dir);
    p.push('/');
    p.push('s');
    p.push('r');
    p.push('c');
    p.push('/');
    p.push('m');
    p.push('a');
    p.push('i');
    p.push('n');
    p.push('.');
    p.push('r');
    p.push('s');
    proof {
        reveal_strlit("/src/main.rs");
        assert(p@ =~= manifest_dir@ + "/src/main.rs"@);
    }
    p
}

} // verus!
