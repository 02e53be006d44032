//! Buckets — named local directories of manifests — and the read-only
//! registry that resolution consults, in registration order.
use vstd::prelude::*;
use crate::strings::str_eq;

verus! {

/// The manifest path probed for `app` inside a manifest directory.
pub open spec fn spec_manifest_path(dir: Seq<char>, app: Seq<char>) -> Seq<char> {
    dir + "/"@ + app + ".json"@
}

/// A named local repository of manifests: a root directory with a `bucket`
/// subdirectory holding one `<app>.json` file per app.
#[derive(Debug)]
pub struct Bucket {
    name: String,
    root: String,
    manifest_dir: String,
}

impl Bucket {
    /// The bucket's name.
    pub closed spec fn spec_name(&self) -> Seq<char> {
        self.name@
    }

    /// The bucket's root directory.
    pub closed spec fn spec_root(&self) -> Seq<char> {
        self.root@
    }

    /// The directory holding the bucket's manifests.
    pub closed spec fn spec_manifest_dir(&self) -> Seq<char> {
        self.manifest_dir@
    }

    /// A bucket at `root`, its manifest directory derived as `root/bucket`.
    pub fn new(name: String, root: String) -> (r: Bucket)
        ensures
            r.spec_name() == name@,
            r.spec_root() == root@,
            r.spec_manifest_dir() == root@ + "/bucket"@,
    {
        let mut d = root.clone();
        d.append("/bucket");
        Bucket { name, root, manifest_dir: d }
    }

    pub fn name(&self) -> (r: &String)
        ensures
            r@ == self.spec_name(),
    {
        &self.name
    }

    pub fn root(&self) -> (r: &String)
        ensures
            r@ == self.spec_root(),
    {
        &self.root
    }

    pub fn manifest_dir(&self) -> (r: &String)
        ensures
            r@ == self.spec_manifest_dir(),
    {
        &self.manifest_dir
    }

    /// The path probed for `app` in this bucket.
    pub fn manifest_path(&self, app: &str) -> (r: String)
        ensures
            r@ == spec_manifest_path(self.spec_manifest_dir(), app@),
    {
        let mut p = self.manifest_dir.clone();
        p.append("/");
        p.append(app);
        p.append(".json");
        p
    }
}

/// The first bucket in `bs` named `name`, if any.
pub open spec fn spec_lookup(bs: Seq<Bucket>, name: Seq<char>) -> Option<Bucket>
    decreases bs.len(),
{
    if bs.len() == 0 {
        None
    } else if bs[0].spec_name() == name {
        Some(bs[0])
    } else {
        spec_lookup(bs.drop_first(), name)
    }
}

/// A read-only view of the configured buckets, in registration order, with
/// names unique and lookups exact and case-sensitive.
#[derive(Debug)]
pub struct BucketRegistry {
    buckets: Vec<Bucket>,
}

impl BucketRegistry {
    /// The registered buckets, in registration order.
    pub closed spec fn spec_buckets(&self) -> Seq<Bucket> {
        self.buckets@
    }

    /// Bucket names are unique within the registry.
    pub open spec fn wf(&self) -> bool {
        forall|i: int, j: int|
            0 <= i < j < self.spec_buckets().len() ==> self.spec_buckets()[i].spec_name()
                != self.spec_buckets()[j].spec_name()
    }

    /// An empty registry.
    pub fn new() -> (r: BucketRegistry)
        ensures
            r.spec_buckets() == Seq::<Bucket>::empty(),
            r.wf(),
    {
        BucketRegistry { buckets: Vec::new() }
    }

    /// Register one more bucket, keeping names unique: a bucket whose name is
    /// already taken is rejected and the registry is unchanged.
    pub fn add(&mut self, b: Bucket) -> (r: bool)
        requires
            old(self).wf(),
        ensures
            final(self).wf(),
            r == (spec_lookup(old(self).spec_buckets(), b.spec_name()) is None),
            r ==> final(self).spec_buckets() == old(self).spec_buckets().push(b),
            !r ==> final(self).spec_buckets() == old(self).spec_buckets(),
    {
        proof {
            lemma_spec_lookup(self.spec_buckets(), b.spec_name());
        }
        if self.get(b.name().as_str()).is_some() {
            false
        } else {
            proof {
                let bs = self.spec_buckets().push(b);
                assert(forall|i: int|
                    0 <= i < self.spec_buckets().len() ==> bs[i] == self.spec_buckets()[i]);
            }
            self.buckets.push(b);
            true
        }
    }

    /// Exact, case-sensitive lookup by name; a missing name is data, never a
    /// failure.
    pub fn get(&self, name: &str) -> (r: Option<&Bucket>)
        ensures
            match r {
                Some(b) => spec_lookup(self.spec_buckets(), name@) == Some(*b),
                None => spec_lookup(self.spec_buckets(), name@) is None,
            },
    {
        let ghost bs = self.spec_buckets();
        let mut i: usize = 0;
        proof {
            assert(bs.skip(0) =~= bs);
        }
        while i < self.buckets.len()
            invariant
                0 <= i <= bs.len(),
                bs == self.spec_buckets(),
                spec_lookup(bs, name@) == spec_lookup(bs.skip(i as int), name@),
            decreases bs.len() - i,
        {
            proof {
                assert(bs.skip(i as int).drop_first() =~= bs.skip(i + 1));
                assert(bs.skip(i as int)[0] == bs[i as int]);
            }
            if str_eq(self.buckets[i].name().as_str(), name) {
                return Some(&self.buckets[i]);
            }
            i += 1;
        }
        proof {
            assert(bs.skip(bs.len() as int) =~= Seq::<Bucket>::empty());
        }
        None
    }

    /// All buckets, in registration order.
    pub fn all(&self) -> (r: &Vec<Bucket>)
        ensures
            r@ == self.spec_buckets(),
    {
        &self.buckets
    }
}

/// A lookup that succeeds returns a bucket with the looked-up name; one that
/// fails means no bucket has it.
pub proof fn lemma_spec_lookup(bs: Seq<Bucket>, name: Seq<char>)
    ensures
        match spec_lookup(bs, name) {
            Some(b) => bs.contains(b) && b.spec_name() == name,
            None => forall|i: int| 0 <= i < bs.len() ==> bs[i].spec_name() != name,
        },
    decreases bs.len(),
{
    if bs.len() > 0 && bs[0].spec_name() != name {
        lemma_spec_lookup(bs.drop_first(), name);
        match spec_lookup(bs.drop_first(), name) {
            Some(b) => {
                assert(bs.drop_first().contains(b));
                let i = choose|i: int|
                    0 <= i < bs.drop_first().len() && bs.drop_first()[i] == b;
                assert(bs[i + 1] == b);
            },
            None => {
                assert forall|i: int| 0 <= i < bs.len() implies bs[i].spec_name() != name by {
                    if i >= 1 {
                        assert(bs.drop_first()[i - 1] == bs[i]);
                    }
                }
            },
        }
    }
}

} // verus!
