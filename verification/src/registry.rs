//! The mirror registry: a read-only mapping from origin host to its
//! mirror rule, built once at startup and shared for the process
//! lifetime.
use vstd::prelude::*;
use crate::policy::Mirror;
use crate::policy::MirrorModel;
use crate::text::str_eq;

verus! {

/// The registry of configured mirrors, keyed by whatever string was
/// configured as a mirror's origin. A later entry for the same key
/// shadows an earlier one, as a rebuilt map insert would.
pub struct MirrorRegistry {
    entries: Vec<(String, Mirror)>,
}

/// Host-keyed lookup over the model: the last entry whose key equals
/// the host wins; `None` when no key equals it.
pub open spec fn lookup(
    entries: Seq<(Seq<char>, MirrorModel)>,
    host: Seq<char>,
) -> Option<MirrorModel>
    decreases entries.len(),
{
    if entries.len() == 0 {
        None
    } else if entries.last().0 == host {
        Some(entries.last().1)
    } else {
        lookup(entries.drop_last(), host)
    }
}

impl View for MirrorRegistry {
    type V = Seq<(Seq<char>, MirrorModel)>;

    closed spec fn view(&self) -> Seq<(Seq<char>, MirrorModel)> {
        self.entries@.map_values(|e: (String, Mirror)| (e.0@, e.1@))
    }
}

impl MirrorRegistry {
    /// An empty registry.
    pub fn new() -> (r: Self)
        ensures
            r@ =~= Seq::<(Seq<char>, MirrorModel)>::empty(),
    {
        MirrorRegistry { entries: Vec::new() }
    }

    /// Adds one mirror under its configured origin key.
    pub fn insert(&mut self, host: String, mirror: Mirror)
        ensures
            final(self)@ =~= old(self)@.push((host@, mirror@)),
    {
        self.entries.push((host, mirror));
        proof {
            assert(self@ =~= old(self)@.push(
                (self.entries@.last().0@, self.entries@.last().1@),
            ));
        }
    }

    /// Looks a host up; the mirror of the last entry whose key equals
    /// the host, or `None` when no key does.
    pub fn get(&self, host: &str) -> (r: Option<&Mirror>)
        ensures
            match r {
                Some(m) => lookup(self@, host@) == Some(m@),
                None => lookup(self@, host@) is None,
            },
    {
        let len = self.entries.len();
        let mut i: usize = len;
        proof {
            assert(self@.subrange(0, len as int) =~= self@);
        }
        while i > 0
            invariant
                i <= len,
                len == self.entries@.len(),
                lookup(self@, host@) == lookup(self@.subrange(0, i as int), host@),
            decreases i,
        {
            proof {
                assert(self@.subrange(0, i as int).last() == self@[i - 1]);
                assert(self@.subrange(0, i as int).drop_last() =~= self@.subrange(0, i - 1));
            }
            if str_eq(self.entries[i - 1].0.as_str(), host) {
                return Some(&self.entries[i - 1].1);
            }
            i = i - 1;
        }
        proof {
            assert(self@.subrange(0, 0).len() == 0);
        }
        None
    }
}

} // verus!
