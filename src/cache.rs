//! Listens that could not be delivered, held as files in a cache directory
//! until they can be sent again.
//!
//! A `CacheStore` is the image of that directory: its files in enumeration
//! order, each a name and the JSON object of one listen.

use vstd::prelude::*;
use vstd::string::StringSliceAdditionalSpecFns;
use crate::wire::{
    ListenType, byte_views, decimal, encode_listens, listen_request, push_decimal, push_text,
    same_bytes,
};

verus! {

/// One cached listen: its file name and the payload object it holds.
pub struct PendingListen {
    pub name: Vec<u8>,
    pub contents: Vec<u8>,
}

/// The name of the file that holds the listen made at `listened_at`.
pub open spec fn pending_name(listened_at: nat) -> Seq<u8> {
    decimal(listened_at) + ".json".spec_bytes()
}

/// `<listened_at>.json`.
pub fn pending_file_name(listened_at: u64) -> (r: Vec<u8>)
    ensures
        r@ == pending_name(listened_at as nat),
{
    let mut out: Vec<u8> = Vec::new();
    push_decimal(&mut out, listened_at);
    assert(out@ =~= decimal(listened_at as nat));
    push_text(&mut out, ".json");
    out
}

/// A copy of `b`.
fn copy_bytes(b: &Vec<u8>) -> (r: Vec<u8>)
    ensures
        r@ == b@,
{
    let mut r: Vec<u8> = Vec::new();
    r.extend_from_slice(b.as_slice());
    r
}

/// The cached files, in enumeration order.
pub struct CacheStore {
    pub files: Vec<PendingListen>,
}

/// Where a file of the given name stands among `files`.
pub open spec fn position_of(files: Seq<(Seq<u8>, Seq<u8>)>, name: Seq<u8>) -> Option<int>
    decreases files.len(),
{
    if files.len() == 0 {
        None
    } else if files.last().0 == name {
        Some(files.len() - 1)
    } else {
        position_of(files.drop_last(), name)
    }
}

/// The files after a file `name` holding `contents` is written: a file of
/// that name is overwritten in place, otherwise the new one comes last.
pub open spec fn persisted(files: Seq<(Seq<u8>, Seq<u8>)>, name: Seq<u8>, contents: Seq<u8>) -> Seq<
    (Seq<u8>, Seq<u8>),
> {
    match position_of(files, name) {
        Some(i) => files.update(i, (name, contents)),
        None => files.push((name, contents)),
    }
}

/// The file names, in order.
pub open spec fn names_of(files: Seq<(Seq<u8>, Seq<u8>)>) -> Seq<Seq<u8>> {
    files.map_values(|f: (Seq<u8>, Seq<u8>)| f.0)
}

/// The payload objects, in order.
pub open spec fn contents_of(files: Seq<(Seq<u8>, Seq<u8>)>) -> Seq<Seq<u8>> {
    files.map_values(|f: (Seq<u8>, Seq<u8>)| f.1)
}

/// No two files share a name.
pub open spec fn names_distinct(files: Seq<(Seq<u8>, Seq<u8>)>) -> bool {
    forall|i: int, j: int|
        0 <= i < j < files.len() ==> #[trigger] files[i].0 != #[trigger] files[j].0
}

/// What reconciling sends: nothing for an empty cache, a `single` submission
/// for one file, and one `import` of all files in order otherwise.
pub open spec fn reconcile_body(files: Seq<(Seq<u8>, Seq<u8>)>) -> Option<Seq<u8>> {
    if files.len() == 0 {
        None
    } else if files.len() == 1 {
        Some(listen_request(ListenType::Single, contents_of(files)))
    } else {
        Some(listen_request(ListenType::Import, contents_of(files)))
    }
}

impl View for CacheStore {
    type V = Seq<(Seq<u8>, Seq<u8>)>;

    open spec fn view(&self) -> Seq<(Seq<u8>, Seq<u8>)> {
        self.files@.map_values(|f: PendingListen| (f.name@, f.contents@))
    }
}

impl CacheStore {
    pub open spec fn wf(&self) -> bool {
        names_distinct(self@)
    }

    /// An empty cache.
    pub fn new() -> (r: Self)
        ensures
            r.wf(),
            r@ == Seq::<(Seq<u8>, Seq<u8>)>::empty(),
    {
        let r = CacheStore { files: Vec::new() };
        assert(r@ =~= Seq::<(Seq<u8>, Seq<u8>)>::empty());
        r
    }

    /// How many files are cached.
    pub fn len(&self) -> (r: usize)
        ensures
            r == self@.len(),
    {
        self.files.len()
    }

    /// Writes `listen` into the cache, replacing a file of the same name.
    pub fn persist(&mut self, listen: PendingListen)
        requires
            old(self).wf(),
        ensures
            final(self).wf(),
            final(self)@ == persisted(old(self)@, listen.name@, listen.contents@),
    {
        let ghost files = self@;
        let ghost entry = (listen.name@, listen.contents@);
        let mut i: usize = self.files.len();
        assert(files.take(files.len() as int) =~= files);
        while i > 0
            invariant
                i <= self.files@.len(),
                self@ == files,
                entry == (listen.name@, listen.contents@),
                files == old(self)@,
                names_distinct(files),
                position_of(files, entry.0) == position_of(files.take(i as int), entry.0),
            decreases i,
        {
            assert(files.take(i as int).drop_last() =~= files.take(i - 1));
            let candidate = &self.files[i - 1];
            assert(*candidate == self.files@[i - 1]);
            if same_bytes(candidate.name.as_slice(), listen.name.as_slice()) {
                let ghost at = (i - 1) as int;
                let ghost old_files = self.files@;
                assert(self@[at] == (self.files@[at].name@, self.files@[at].contents@));
                assert(files[at].0 == entry.0);
                assert(files.take(i as int).last() == files[at]);
                assert(position_of(files, entry.0) == Some(at));
                self.files.set(i - 1, listen);
                assert(self.files@ == old_files.update(at, listen));
                assert(self@ =~= files.update(at, entry));
                assert(self@ == persisted(files, entry.0, entry.1));
                assert(names_distinct(self@)) by {
                    assert forall|a: int, b: int| 0 <= a < b < self@.len() implies #[trigger] self@[a].0
                        != #[trigger] self@[b].0 by {
                        assert(self@[a].0 == files[a].0);
                        assert(self@[b].0 == files[b].0);
                    }
                }
                return;
            }
            i -= 1;
        }
        assert(files.take(0) =~= Seq::<(Seq<u8>, Seq<u8>)>::empty());
        assert(position_of(files, entry.0) is None);
        proof {
            lemma_absent_name(files, entry.0);
        }
        self.files.push(listen);
        assert(self@ =~= files.push(entry));
        assert(self@ == persisted(files, entry.0, entry.1));
    }

    /// The request that delivers every cached listen, or `None` when the
    /// cache is empty.
    pub fn reconcile_request(&self) -> (r: Option<Vec<u8>>)
        ensures
            match r {
                Some(b) => reconcile_body(self@) == Some(b@),
                None => reconcile_body(self@) == None::<Seq<u8>>,
            },
    {
        let n = self.files.len();
        if n == 0 {
            return None;
        }
        let mut payloads: Vec<Vec<u8>> = Vec::new();
        let mut i: usize = 0;
        while i < n
            invariant
                n == self.files@.len(),
                i <= n,
                byte_views(payloads@) =~= contents_of(self@).take(i as int),
            decreases n - i,
        {
            let ghost prev = payloads@;
            let c = copy_bytes(&self.files[i].contents);
            payloads.push(c);
            assert(byte_views(payloads@) =~= byte_views(prev).push(c@));
            assert(contents_of(self@).take(i + 1) =~= contents_of(self@).take(i as int).push(
                self@[i as int].1,
            ));
            i += 1;
        }
        assert(contents_of(self@).take(n as int) =~= contents_of(self@));
        let kind = if n == 1 {
            ListenType::Single
        } else {
            ListenType::Import
        };
        Some(encode_listens(kind, &payloads))
    }

    /// Settles a reconciliation: once the request was accepted every file is
    /// removed and their names are returned, in order, for deletion; after a
    /// failure nothing is removed.
    pub fn settle(&mut self, accepted: bool) -> (r: Vec<Vec<u8>>)
        requires
            old(self).wf(),
        ensures
            final(self).wf(),
            accepted ==> final(self)@ == Seq::<(Seq<u8>, Seq<u8>)>::empty(),
            accepted ==> byte_views(r@) == names_of(old(self)@),
            !accepted ==> final(self)@ == old(self)@,
            !accepted ==> r@.len() == 0,
    {
        let mut names: Vec<Vec<u8>> = Vec::new();
        if !accepted {
            return names;
        }
        let n = self.files.len();
        let mut i: usize = 0;
        while i < n
            invariant
                n == self.files@.len(),
                i <= n,
                byte_views(names@) =~= names_of(self@).take(i as int),
            decreases n - i,
        {
            let ghost prev = names@;
            let c = copy_bytes(&self.files[i].name);
            names.push(c);
            assert(byte_views(names@) =~= byte_views(prev).push(c@));
            assert(names_of(self@).take(i + 1) =~= names_of(self@).take(i as int).push(
                self@[i as int].0,
            ));
            i += 1;
        }
        assert(names_of(self@).take(n as int) =~= names_of(self@));
        self.files = Vec::new();
        assert(self@ =~= Seq::<(Seq<u8>, Seq<u8>)>::empty());
        names
    }
}

/// A name found in none of the files is absent from the cache.
proof fn lemma_absent_name(files: Seq<(Seq<u8>, Seq<u8>)>, name: Seq<u8>)
    requires
        position_of(files, name) is None,
    ensures
        forall|i: int| 0 <= i < files.len() ==> #[trigger] files[i].0 != name,
    decreases files.len(),
{
    if files.len() > 0 {
        lemma_absent_name(files.drop_last(), name);
        assert forall|i: int| 0 <= i < files.len() implies #[trigger] files[i].0 != name by {
            if i < files.len() - 1 {
                assert(files[i] == files.drop_last()[i]);
            }
        }
    }
}

} // verus!
