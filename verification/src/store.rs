//! The storage root, and the finalize/serve state machine run against it.
//!
//! The store maps addresses to container bytes, the way the storage
//! directory maps file names to file contents. It is kept as a log:
//! writing appends, and a lookup takes the latest entry, so its view is
//! the map the writes build up.

use crate::format::{
    spec_address, spec_header_bytes, spec_merged_flags, spec_merged_password, spec_parse_header,
    spec_password_view, SfssFile,
};
use crate::trusted::deflate_of;
use crate::SfssError;
use vstd::prelude::*;

verus! {

/// What the writes so far say each address holds.
pub open spec fn entries_map(s: Seq<(String, Vec<u8>)>) -> Map<Seq<char>, Seq<u8>>
    decreases s.len(),
{
    if s.len() == 0 {
        Map::empty()
    } else {
        entries_map(s.drop_last()).insert(s.last().0@, s.last().1@)
    }
}

/// The storage root: container bytes, keyed by address.
pub struct SfssStore {
    entries: Vec<(String, Vec<u8>)>,
}

impl View for SfssStore {
    type V = Map<Seq<char>, Seq<u8>>;

    closed spec fn view(&self) -> Map<Seq<char>, Seq<u8>> {
        entries_map(self.entries@)
    }
}

impl SfssStore {
    /// An empty storage root.
    pub fn new() -> (r: Self)
        ensures
            r@ == Map::<Seq<char>, Seq<u8>>::empty(),
    {
        SfssStore { entries: Vec::new() }
    }

    /// The container bytes at an address, if any object lives there.
    pub fn get(&self, key: &String) -> (r: Option<&Vec<u8>>)
        ensures
            match r {
                Some(v) => self@.contains_key(key@) && self@[key@] == v@,
                None => !self@.contains_key(key@),
            },
    {
        let mut i: usize = self.entries.len();
        proof {
            assert(self.entries@.take(i as int) =~= self.entries@);
        }
        while i > 0
            invariant
                i <= self.entries.len(),
                forall|j: int| i <= j < self.entries@.len() ==> self.entries@[j].0@ != key@,
                entries_map(self.entries@).contains_key(key@) == entries_map(
                    self.entries@.take(i as int),
                ).contains_key(key@),
                entries_map(self.entries@).contains_key(key@) ==> entries_map(self.entries@)[key@]
                    == entries_map(self.entries@.take(i as int))[key@],
            decreases i,
        {
            proof {
                assert(self.entries@.take(i as int).drop_last() =~= self.entries@.take(i - 1));
                assert(self.entries@.take(i as int).last() == self.entries@[i - 1]);
            }
            if self.entries[i - 1].0 == *key {
                proof {
                    assert(self.entries@[i - 1].0@ == key@);
                    assert(entries_map(self.entries@.take(i as int)) == entries_map(
                        self.entries@.take(i - 1),
                    ).insert(key@, self.entries@[i - 1].1@));
                }
                return Some(&self.entries[i - 1].1);
            }
            i = i - 1;
        }
        proof {
            assert(self.entries@.take(0) =~= Seq::<(String, Vec<u8>)>::empty());
        }
        None
    }

    /// Writes container bytes at an address, replacing whatever the
    /// address held.
    pub fn put(&mut self, key: String, value: Vec<u8>)
        ensures
            final(self)@ == old(self)@.insert(key@, value@),
    {
        let ghost old_entries = self.entries@;
        self.entries.push((key, value));
        proof {
            assert(self.entries@.drop_last() =~= old_entries);
        }
    }
}

/// How a finalize ended: a fresh container was written, or the upload
/// collided with an already-stored twin and only the header was merged
/// and rewritten.
#[derive(Debug, Clone, Copy, PartialEq, Eq, Structural)]
pub enum FinalizeOutcome {
    Written,
    Merged,
}

impl SfssFile {
    /// Finalizes the object into the store: computes the address from
    /// the payload as it was uploaded, compresses, and persists.
    ///
    /// When the address is free, the whole container is written there.
    /// When it already holds a container, the two headers are merged —
    /// visibility widens, protection and its secret survive only with
    /// both sides' agreement, the first writer's secret wins — and only
    /// the header bytes are rewritten; the stored payload, byte-identical
    /// by hash construction, is left in place. When it holds anything
    /// that does not parse as a container, nothing is overwritten and
    /// the collision is reported as an integrity violation.
    ///
    /// Finalizing an already-compressed object is a state error and has
    /// no effect.
    pub fn finalize(&mut self, store: &mut SfssStore) -> (r: Result<FinalizeOutcome, SfssError>)
        requires
            old(self).wf(),
        ensures
            final(self).wf(),
            r == Err::<FinalizeOutcome, SfssError>(SfssError::State) <==> old(self).compressed,
            old(self).compressed ==> *final(self) == *old(self) && *final(store) == *old(store),
            !old(self).compressed ==> {
                let addr = spec_address(old(self).buf@);
                let comp = deflate_of(old(self).buf@);
                &&& final(self).hash@ == addr
                &&& final(self).hash@.len() > 0
                &&& final(self).compressed
                &&& final(self).buf@ == comp
                &&& final(self).filename == old(self).filename
                &&& final(self).filetype == old(self).filetype
                &&& match r {
                    Ok(FinalizeOutcome::Written) => {
                        &&& !old(store)@.contains_key(addr)
                        &&& final(self).flags == old(self).flags
                        &&& final(self).password == old(self).password
                        &&& final(store)@ == old(store)@.insert(
                            addr,
                            spec_header_bytes(*final(self)) + comp,
                        )
                    },
                    Ok(FinalizeOutcome::Merged) => {
                        &&& old(store)@.contains_key(addr)
                        &&& spec_parse_header(old(store)@[addr]) matches Some(h)
                            && final(self).flags == spec_merged_flags(h.flags, old(self).flags)
                            && spec_password_view(final(self).password) == spec_merged_password(
                            h.password,
                            h.flags,
                            old(self).flags,
                        ) && final(store)@ == old(store)@.insert(
                            addr,
                            spec_header_bytes(*final(self)) + old(store)@[addr].skip(h.len),
                        )
                    },
                    Err(SfssError::Integrity) => {
                        &&& old(store)@.contains_key(addr)
                        &&& spec_parse_header(old(store)@[addr]) is None
                        &&& final(self).flags == old(self).flags
                        &&& final(self).password == old(self).password
                        &&& *final(store) == *old(store)
                    },
                    _ => false,
                }
            },
    {
        if self.compressed {
            return Err(SfssError::State);
        }
        let addr = Self::compute_address(&self.buf);
        let compress_result = self.compress();
        proof {
            assert(compress_result is Ok);
        }
        self.hash = addr;

        let existing_bytes: Option<Vec<u8>> = match store.get(&self.hash) {
            Some(v) => Some(vstd::slice::slice_to_vec(v.as_slice())),
            None => None,
        };
        match existing_bytes {
            None => {
                let container = self.container_bytes();
                store.put(self.hash.clone(), container);
                Ok(FinalizeOutcome::Written)
            },
            Some(bytes) => {
                let ghost stored = store@[self.hash@];
                let mut existing = SfssFile::default();
                match existing.header_from_bytes(bytes.as_slice()) {
                    Ok(header_len) => {
                        proof {
                            assert(spec_parse_header(stored) matches Some(h) && h.len
                                == header_len as int);
                        }
                        self.merge_with_existing(&existing);
                        let mut container = self.header_as_bytes();
                        let payload = vstd::slice::slice_subrange(
                            bytes.as_slice(),
                            header_len,
                            bytes.len(),
                        );
                        container.extend_from_slice(payload);
                        proof {
                            assert(container@ =~= spec_header_bytes(*self) + stored.skip(
                                header_len as int,
                            ));
                        }
                        store.put(self.hash.clone(), container);
                        Ok(FinalizeOutcome::Merged)
                    },
                    Err(_) => Err(SfssError::Integrity),
                }
            },
        }
    }

    /// Opens the object stored at the given address: decodes its header
    /// and, unless only the header is wanted, takes its payload, which is
    /// compressed on disk. A missing object is reported as not found; a
    /// magic mismatch as a format violation, indistinguishable from not
    /// found by design.
    pub fn new(store: &SfssStore, hashcode: String, only_header: bool) -> (r: Result<
        SfssFile,
        SfssError,
    >)
        ensures
            match r {
                Ok(f) => {
                    &&& store@.contains_key(hashcode@)
                    &&& spec_parse_header(store@[hashcode@]) matches Some(h) && f.filename@
                        == h.filename && f.filetype == h.filetype && spec_password_view(f.password)
                        == h.password && f.flags == h.flags && (!only_header ==> f.buf@
                        == store@[hashcode@].skip(h.len))
                    &&& f.hash@ == hashcode@
                    &&& f.compressed
                    &&& (only_header ==> f.buf@ == Seq::<u8>::empty())
                    &&& f.wf()
                },
                Err(SfssError::NotFound) => !store@.contains_key(hashcode@),
                Err(SfssError::Format) => store@.contains_key(hashcode@) && spec_parse_header(
                    store@[hashcode@],
                ) is None,
                _ => false,
            },
    {
        let bytes = match store.get(&hashcode) {
            Some(v) => v,
            None => {
                return Err(SfssError::NotFound);
            },
        };
        let mut res = SfssFile::default();
        res.hash = hashcode;
        let n = match res.header_from_bytes(bytes.as_slice()) {
            Ok(n) => n,
            Err(_) => {
                return Err(SfssError::Format);
            },
        };
        res.compressed = true;
        if !only_header {
            res.buf = vstd::slice::slice_to_vec(
                vstd::slice::slice_subrange(bytes.as_slice(), n, bytes.len()),
            );
        }
        Ok(res)
    }

    /// Re-reads this object from the store at its own address, appending
    /// the stored, compressed payload to the buffer and marking the
    /// object compressed.
    pub fn open(&mut self, store: &SfssStore) -> (r: Result<(), SfssError>)
        ensures
            match r {
                Ok(_) => {
                    &&& store@.contains_key(old(self).hash@)
                    &&& spec_parse_header(store@[old(self).hash@]) matches Some(h)
                        && final(self).filename@ == h.filename
                        && final(self).filetype == h.filetype
                        && spec_password_view(final(self).password) == h.password
                        && final(self).flags == h.flags
                        && final(self).buf@ == old(self).buf@ + store@[old(self).hash@].skip(h.len)
                    &&& final(self).hash == old(self).hash
                    &&& final(self).compressed
                    &&& final(self).wf()
                },
                Err(SfssError::NotFound) => !store@.contains_key(old(self).hash@)
                    && *final(self) == *old(self),
                Err(SfssError::Format) => store@.contains_key(old(self).hash@)
                    && spec_parse_header(store@[old(self).hash@]) is None
                    && *final(self) == *old(self),
                _ => false,
            },
    {
        let bytes = match store.get(&self.hash) {
            Some(v) => v,
            None => {
                return Err(SfssError::NotFound);
            },
        };
        let n = match self.header_from_bytes(bytes.as_slice()) {
            Ok(n) => n,
            Err(_) => {
                return Err(SfssError::Format);
            },
        };
        self.compressed = true;
        let payload = vstd::slice::slice_subrange(bytes.as_slice(), n, bytes.len());
        self.buf.extend_from_slice(payload);
        Ok(())
    }
}

} // verus!
