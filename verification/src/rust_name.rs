//! Qualified names of host-language items.
use vstd::prelude::*;
use crate::errors::BridgeError;
use crate::text::{join, join_from, join_strings, opt_view, views};

verus! {

/// The text that stands between two segments of a written path.
pub open spec fn path_separator() -> Seq<char> {
    seq![':', ':']
}

/// The owning crate of the name `parts`: its first segment where there are
/// several, nothing for a name of one segment.
pub open spec fn crate_of(parts: Seq<Seq<char>>) -> Option<Seq<char>> {
    if parts.len() > 1 {
        Some(parts[0])
    } else {
        None
    }
}

/// How the name `parts` is written in code that lives in crate `scope`.
///
/// Inside its own crate a name is written from the crate's root: a leading
/// separator and the segments after the first. Anywhere else all segments are
/// written.
pub open spec fn display(parts: Seq<Seq<char>>, scope: Option<Seq<char>>) -> Seq<char> {
    if scope is Some && crate_of(parts) == scope {
        path_separator() + join(parts.skip(1), path_separator())
    } else {
        join(parts, path_separator())
    }
}

/// A qualified name: one or more path segments. The first segment of a longer
/// name is the crate that owns the item, the last is the item's own name.
#[derive(Debug, PartialEq, Eq, Hash)]
pub struct RustName {
    parts: Vec<String>,
}

impl View for RustName {
    type V = Seq<Seq<char>>;

    closed spec fn view(&self) -> Seq<Seq<char>> {
        views(self.parts@)
    }
}

impl Clone for RustName {
    fn clone(&self) -> (copy: Self)
        ensures
            copy@ == self@,
    {
        proof {
            use_type_invariant(self);
        }
        let mut parts: Vec<String> = Vec::new();
        let mut i: usize = 0;
        while i < self.parts.len()
            invariant
                i <= self.parts@.len(),
                parts@.len() == i,
                forall|k: int| 0 <= k < i ==> parts@[k]@ == self.parts@[k]@,
            decreases self.parts@.len() - i,
        {
            parts.push(self.parts[i].clone());
            i = i + 1;
        }
        RustName { parts }
    }
}

impl RustName {
    #[verifier::type_invariant]
    spec fn nonempty(self) -> bool {
        self.parts@.len() > 0
    }

    /// Builds a name from its segments.
    pub fn new(parts: Vec<String>) -> (name: RustName)
        requires
            parts@.len() > 0,
        ensures
            name@ == views(parts@),
    {
        RustName { parts }
    }

    /// Builds a name from its segments, or reports `InvalidName` where there
    /// are none.
    pub fn try_new(parts: Vec<String>) -> (built: Result<RustName, BridgeError>)
        ensures
            match built {
                Ok(name) => parts@.len() > 0 && name@ == views(parts@),
                Err(e) => parts@.len() == 0 && e == BridgeError::InvalidName,
            },
    {
        if parts.len() == 0 {
            Err(BridgeError::InvalidName)
        } else {
            Ok(RustName::new(parts))
        }
    }

    /// The segments of the name.
    pub fn parts(&self) -> (parts: &Vec<String>)
        ensures
            views(parts@) == self@,
            parts@.len() > 0,
    {
        proof {
            use_type_invariant(self);
        }
        &self.parts
    }

    /// The crate that owns the item, for a name of several segments.
    pub fn crate_name(&self) -> (owner: Option<&String>)
        ensures
            opt_view(owner) == crate_of(self@),
    {
        if self.parts.len() > 1 {
            Some(&self.parts[0])
        } else {
            None
        }
    }

    /// The item's own name: the last segment.
    pub fn last_name(&self) -> (last: &String)
        ensures
            self@.len() > 0,
            last@ == self@.last(),
    {
        proof {
            use_type_invariant(self);
        }
        &self.parts[self.parts.len() - 1]
    }

    /// The name as it is written in code of the crate `current_crate`.
    pub fn full_name(&self, current_crate: Option<&String>) -> (written: String)
        ensures
            written@ == display(self@, opt_view(current_crate)),
    {
        proof {
            use_type_invariant(self);
            reveal_strlit("::");
            assert("::"@ =~= path_separator());
        }
        let own = match (current_crate, self.crate_name()) {
            (Some(scope), Some(owner)) => *scope == *owner,
            _ => false,
        };
        if own {
            let mut written = String::from_str("::");
            let rest = join_from(&self.parts, 1, "::");
            written.append(rest.as_str());
            written
        } else {
            join_strings(&self.parts, "::")
        }
    }
}

} // verus!
