//! The icons bundled with the program, as a source of assets: looking one
//! up by path and listing those under a folder.
use vstd::prelude::*;

use crate::lists::strings_view;
use crate::text::{chars_of, starts_with, starts_with_at};

verus! {

/// The bundled icons.
#[derive(Debug, Clone, Copy, PartialEq, Eq, Structural)]
pub struct Assets;

/// The message for a path with no asset.
pub open spec fn missing_asset(path: Seq<char>) -> Seq<char> {
    "could not find asset at path \""@ + path + "\""@
}

/// The bundled paths of `paths` that start with `prefix`, in order.
pub open spec fn listed(paths: Seq<Seq<char>>, prefix: Seq<char>) -> Seq<Seq<char>>
    decreases paths.len(),
{
    if paths.len() == 0 {
        Seq::empty()
    } else if starts_with(paths.last(), prefix) {
        listed(paths.drop_last(), prefix).push(paths.last())
    } else {
        listed(paths.drop_last(), prefix)
    }
}

impl Assets {
    /// What loading `path` gives, `found` being the bundled file at that
    /// path: nothing for an empty path, the file when there is one, else the
    /// message naming the path.
    pub fn load(&self, path: &str, found: Option<Vec<u8>>) -> (r: Result<Option<Vec<u8>>, String>)
        ensures
            match r {
                Ok(None) => path@.len() == 0,
                Ok(Some(d)) => path@.len() > 0 && (found matches Some(f) && f@ == d@),
                Err(e) => path@.len() > 0 && found is None && e@ == missing_asset(path@),
            },
    {
        if path.is_empty() {
            return Ok(None);
        }
        match found {
            Some(d) => Ok(Some(d)),
            None => {
                let mut e = String::from_str("could not find asset at path \"");
                e.append(path);
                e.append("\"");
                proof {
                    reveal_strlit("could not find asset at path \"");
                    reveal_strlit("\"");
                }
                Err(e)
            },
        }
    }

    /// The bundled paths, of all those in `paths`, that start with `path`.
    pub fn list(&self, paths: &Vec<String>, path: &str) -> (v: Vec<String>)
        ensures
            strings_view(v@) == listed(strings_view(paths@), path@),
    {
        let p = chars_of(path);
        let mut v: Vec<String> = Vec::new();
        let mut i: usize = 0;
        while i < paths.len()
            invariant
                i <= paths@.len(),
                p@ == path@,
                strings_view(v@) == listed(strings_view(paths@).take(i as int), path@),
            decreases paths@.len() - i,
        {
            assert(strings_view(paths@).take(i + 1).drop_last() =~= strings_view(paths@).take(i as int));
            let c = chars_of(paths[i].as_str());
            assert(c@.skip(0) =~= c@);
            if starts_with_at(&c, 0, &p) {
                let ghost before = v@;
                v.push(paths[i].clone());
                assert(strings_view(v@) =~= strings_view(before).push(paths@[i as int]@));
            }
            i = i + 1;
        }
        assert(strings_view(paths@).take(i as int) =~= strings_view(paths@));
        v
    }
}

} // verus!
