//! Resolving a specifier `[bucket/]app` to at most one manifest: the
//! candidate plan over the registry, and the first-match-wins scan of probe
//! results. Probing and reading files is the caller's part; it hands the
//! probe outcomes in as plain values.
use vstd::prelude::*;
use crate::bucket::{Bucket, BucketRegistry, spec_lookup, spec_manifest_path};
use crate::error::{Error, ErrorKind};
use crate::json::parsed_doc;
use crate::manifest::{Manifest, loaded_from, opt_view, version_of};
use crate::strings::{first_index_of, lemma_first_index_of_witness, str_eq};
use vstd::string::StrSliceExecFns;

verus! {

/// Whether the specifier names a bucket: it holds a `/`.
pub open spec fn has_bucket_prefix(p: Seq<char>) -> bool {
    first_index_of(p, '/') < p.len()
}

/// The bucket named by a qualified specifier: the text before the first `/`.
pub open spec fn bucket_part(p: Seq<char>) -> Seq<char> {
    p.subrange(0, first_index_of(p, '/'))
}

/// The app name: the text after the first `/`, or the whole specifier.
pub open spec fn app_part(p: Seq<char>) -> Seq<char> {
    if has_bucket_prefix(p) {
        p.subrange(first_index_of(p, '/') + 1, p.len() as int)
    } else {
        p
    }
}

/// Split a specifier at its first `/` into the optional bucket name and the
/// app name; any further `/` stays inside the app name.
pub fn split_specifier(pattern: &str) -> (r: (Option<String>, String))
    ensures
        has_bucket_prefix(pattern@) ==> (r.0 matches Some(b) && b@ == bucket_part(pattern@)),
        !has_bucket_prefix(pattern@) ==> r.0 is None,
        r.1@ == app_part(pattern@),
{
    let n = pattern.unicode_len();
    let mut i: usize = 0;
    while i < n
        invariant
            0 <= i <= n,
            n == pattern@.len(),
            forall|j: int| 0 <= j < i ==> pattern@[j] != '/',
        decreases n - i,
    {
        if pattern.get_char(i) == '/' {
            proof {
                lemma_first_index_of_witness(pattern@, '/', i as int);
            }
            let b = pattern.substring_char(0, i).to_owned();
            let a = pattern.substring_char(i + 1, n).to_owned();
            return (Some(b), a);
        }
        i += 1;
    }
    proof {
        lemma_first_index_of_witness(pattern@, '/', n as int);
    }
    (None, pattern.to_owned())
}

/// One place to probe: the bucket probed, the app name, and the manifest
/// path; `bucket` is the owning-bucket name a loaded manifest records, set
/// only for a qualified specifier.
pub struct Candidate {
    pub bucket: Option<String>,
    pub source: String,
    pub app: String,
    pub path: String,
}

/// The model of a candidate.
pub struct CandModel {
    pub bucket: Option<Seq<char>>,
    pub source: Seq<char>,
    pub app: Seq<char>,
    pub path: Seq<char>,
}

pub open spec fn cand_view(c: Candidate) -> CandModel {
    CandModel { bucket: opt_view(c.bucket), source: c.source@, app: c.app@, path: c.path@ }
}

pub open spec fn cands_view(v: Seq<Candidate>) -> Seq<CandModel> {
    v.map_values(|c: Candidate| cand_view(c))
}

/// The candidate plan for a specifier: the named bucket's single probe (none
/// when the bucket is unknown), or one probe per bucket in registry order.
pub open spec fn spec_plan(bs: Seq<Bucket>, pattern: Seq<char>) -> Seq<CandModel> {
    if has_bucket_prefix(pattern) {
        match spec_lookup(bs, bucket_part(pattern)) {
            None => Seq::empty(),
            Some(b) => seq![
                CandModel {
                    bucket: Some(bucket_part(pattern)),
                    source: b.spec_name(),
                    app: app_part(pattern),
                    path: spec_manifest_path(b.spec_manifest_dir(), app_part(pattern)),
                },
            ],
        }
    } else {
        Seq::new(
            bs.len(),
            |i: int|
                CandModel {
                    bucket: None,
                    source: bs[i].spec_name(),
                    app: pattern,
                    path: spec_manifest_path(bs[i].spec_manifest_dir(), pattern),
                },
        )
    }
}

/// The candidate places to probe for `pattern`, in the order the scan must
/// visit them.
pub fn plan_lookup(reg: &BucketRegistry, pattern: &str) -> (r: Vec<Candidate>)
    ensures
        cands_view(r@) == spec_plan(reg.spec_buckets(), pattern@),
{
    let (bucket_name, app) = split_specifier(pattern);
    match bucket_name {
        Some(name) => {
            let mut out: Vec<Candidate> = Vec::new();
            match reg.get(name.as_str()) {
                None => {
                    proof {
                        assert(cands_view(out@) =~= spec_plan(reg.spec_buckets(), pattern@));
                    }
                    out
                },
                Some(b) => {
                    let path = b.manifest_path(app.as_str());
                    let c = Candidate {
                        bucket: Some(name),
                        source: b.name().clone(),
                        app,
                        path,
                    };
                    out.push(c);
                    proof {
                        assert(cands_view(out@) =~= spec_plan(reg.spec_buckets(), pattern@));
                    }
                    out
                },
            }
        },
        None => {
            let buckets = reg.all();
            let mut out: Vec<Candidate> = Vec::new();
            let mut i: usize = 0;
            while i < buckets.len()
                invariant
                    0 <= i <= buckets@.len(),
                    buckets@ == reg.spec_buckets(),
                    !has_bucket_prefix(pattern@),
                    app@ == pattern@,
                    cands_view(out@) =~= spec_plan(reg.spec_buckets(), pattern@).take(i as int),
                decreases buckets@.len() - i,
            {
                let b = &buckets[i];
                let path = b.manifest_path(app.as_str());
                let c = Candidate { bucket: None, source: b.name().clone(), app: app.clone(), path };
                proof {
                    let full = spec_plan(reg.spec_buckets(), pattern@);
                    assert(cands_view(out@.push(c)) =~= cands_view(out@).push(cand_view(c)));
                    assert(cand_view(c) == full[i as int]);
                    assert(full.take(i as int).push(full[i as int]) =~= full.take(i + 1));
                }
                out.push(c);
                i += 1;
            }
            proof {
                let full = spec_plan(reg.spec_buckets(), pattern@);
                assert(full.take(full.len() as int) =~= full);
            }
            out
        },
    }
}

/// The content of the first listed file at `path`, if any.
pub open spec fn file_at(files: Seq<(String, String)>, path: Seq<char>) -> Option<Seq<char>>
    decreases files.len(),
{
    if files.len() == 0 {
        None
    } else if files[0].0@ == path {
        Some(files[0].1@)
    } else {
        file_at(files.drop_first(), path)
    }
}

/// Look a path up among the probed files.
fn lookup_file<'a>(files: &'a Vec<(String, String)>, path: &str) -> (r: Option<&'a String>)
    ensures
        match r {
            Some(c) => file_at(files@, path@) == Some(c@),
            None => file_at(files@, path@) is None,
        },
{
    let ghost fs = files@;
    let mut i: usize = 0;
    proof {
        assert(fs.skip(0) =~= fs);
    }
    while i < files.len()
        invariant
            0 <= i <= fs.len(),
            fs == files@,
            file_at(fs, path@) == file_at(fs.skip(i as int), path@),
        decreases fs.len() - i,
    {
        proof {
            assert(fs.skip(i as int).drop_first() =~= fs.skip(i + 1));
            assert(fs.skip(i as int)[0] == fs[i as int]);
        }
        if str_eq(files[i].0.as_str(), path) {
            return Some(&files[i].1);
        }
        i += 1;
    }
    proof {
        assert(fs.skip(fs.len() as int) =~= Seq::<(String, String)>::empty());
    }
    None
}

/// The index of the first candidate whose path has a probed file.
pub open spec fn first_hit(plan: Seq<CandModel>, files: Seq<(String, String)>) -> Option<int>
    decreases plan.len(),
{
    if plan.len() == 0 {
        None
    } else if file_at(files, plan[0].path) is Some {
        Some(0)
    } else {
        match first_hit(plan.drop_first(), files) {
            None => None,
            Some(i) => Some(i + 1),
        }
    }
}

/// Law: the scan is first-match-wins. Whenever some candidate's path has a
/// probed file, the scan hits, and never later than that candidate; a later
/// bucket can never shadow an earlier one.
pub proof fn lemma_first_match_wins(
    plan: Seq<CandModel>,
    files: Seq<(String, String)>,
    i: int,
)
    requires
        0 <= i < plan.len(),
        file_at(files, plan[i].path) is Some,
    ensures
        first_hit(plan, files) matches Some(k) && 0 <= k <= i,
    decreases plan.len(),
{
    if plan.len() > 0 && file_at(files, plan[0].path) is None {
        assert(plan.drop_first()[i - 1] == plan[i]);
        lemma_first_match_wins(plan.drop_first(), files, i - 1);
    }
}

/// Law: a hit is genuine and earliest — the hit candidate's path has a file,
/// and no earlier candidate's path has one.
pub proof fn lemma_first_hit_earliest(plan: Seq<CandModel>, files: Seq<(String, String)>)
    ensures
        match first_hit(plan, files) {
            Some(k) => 0 <= k < plan.len() && file_at(files, plan[k].path) is Some && forall|j: int|
                0 <= j < k ==> file_at(files, plan[j].path) is None,
            None => forall|j: int| 0 <= j < plan.len() ==> file_at(files, plan[j].path) is None,
        },
    decreases plan.len(),
{
    if plan.len() > 0 && file_at(files, plan[0].path) is None {
        lemma_first_hit_earliest(plan.drop_first(), files);
        assert(forall|j: int| 1 <= j < plan.len() ==> plan.drop_first()[j - 1] == plan[j]);
    }
}

/// What resolving `pattern` against buckets `bs` and probed files `files`
/// must return.
pub open spec fn resolution_ok(
    r: Result<Option<Manifest>, Error>,
    bs: Seq<Bucket>,
    pattern: Seq<char>,
    files: Seq<(String, String)>,
) -> bool {
    let plan = spec_plan(bs, pattern);
    match first_hit(plan, files) {
        None => r matches Ok(None),
        Some(i) => {
            let c = plan[i];
            let content = file_at(files, c.path).unwrap();
            match r {
                Ok(Some(m)) => parsed_doc(content) matches Some(doc) && version_of(doc) is Some
                    && loaded_from(m, c.path, doc, c.bucket),
                Ok(None) => false,
                Err(e) => match e.kind {
                    ErrorKind::Parse { path } => parsed_doc(content) is None && path@ == c.path,
                    ErrorKind::Schema { path, field } => parsed_doc(content) matches Some(doc)
                        && version_of(doc) is None && path@ == c.path && field@ == "version"@,
                    _ => false,
                },
            }
        },
    }
}

/// Resolve `pattern` to at most one manifest. `files` holds, per probed
/// path, the content that was read there; a path with no entry was probed
/// and found missing. The first candidate with a file wins; a matched file
/// that fails to parse or validate is an error, never a fall-through.
pub fn find_manifest(
    reg: &BucketRegistry,
    pattern: &str,
    files: &Vec<(String, String)>,
) -> (r: Result<Option<Manifest>, Error>)
    ensures
        resolution_ok(r, reg.spec_buckets(), pattern@, files@),
{
    let plan = plan_lookup(reg, pattern);
    let ghost full = spec_plan(reg.spec_buckets(), pattern@);
    let mut i: usize = 0;
    proof {
        assert(full.skip(0) =~= full);
    }
    while i < plan.len()
        invariant
            0 <= i <= plan@.len(),
            cands_view(plan@) == full,
            full == spec_plan(reg.spec_buckets(), pattern@),
            first_hit(full, files@) == match first_hit(full.skip(i as int), files@) {
                None => None::<int>,
                Some(k) => Some(k + i),
            },
        decreases plan@.len() - i,
    {
        proof {
            assert(full.skip(i as int).drop_first() =~= full.skip(i + 1));
            assert(full.skip(i as int)[0] == full[i as int]);
            assert(full[i as int] == cand_view(plan@[i as int]));
        }
        let c = &plan[i];
        match lookup_file(files, c.path.as_str()) {
            Some(content) => {
                let owner = match &c.bucket {
                    Some(s) => Some(s.clone()),
                    None => None,
                };
                return match Manifest::from_content(c.path.as_str(), content.as_str(), owner) {
                    Ok(m) => Ok(Some(m)),
                    Err(e) => Err(e),
                };
            },
            None => {},
        }
        i += 1;
    }
    proof {
        assert(full.skip(full.len() as int) =~= Seq::<CandModel>::empty());
    }
    Ok(None)
}

/// An app located in a bucket: its name, the bucket it was found in, and its
/// manifest path.
pub struct App {
    pub name: String,
    pub bucket: String,
    pub path: String,
}

/// Whether some probed path equals `path`.
pub open spec fn path_listed(ps: Seq<String>, path: Seq<char>) -> bool {
    exists|i: int| 0 <= i < ps.len() && ps[i]@ == path
}

/// Whether `path` is among the paths that probing found to exist.
fn contains_path(ps: &Vec<String>, path: &str) -> (r: bool)
    ensures
        r == path_listed(ps@, path@),
{
    let mut i: usize = 0;
    while i < ps.len()
        invariant
            0 <= i <= ps@.len(),
            forall|j: int| 0 <= j < i ==> ps@[j]@ != path@,
        decreases ps@.len() - i,
    {
        if str_eq(ps[i].as_str(), path) {
            assert(path_listed(ps@, path@));
            return true;
        }
        i += 1;
    }
    false
}

/// The index of the first candidate whose path exists.
pub open spec fn first_present(plan: Seq<CandModel>, ps: Seq<String>) -> Option<int>
    decreases plan.len(),
{
    if plan.len() == 0 {
        None
    } else if path_listed(ps, plan[0].path) {
        Some(0)
    } else {
        match first_present(plan.drop_first(), ps) {
            None => None,
            Some(i) => Some(i + 1),
        }
    }
}

/// Find the app a specifier names, given the candidate paths that probing
/// found to exist: the first candidate, in plan order, whose manifest file
/// exists. A missing bucket or a missing file is a `None` outcome, never a
/// failure.
pub fn find_app(reg: &BucketRegistry, pattern: &str, present: &Vec<String>) -> (r: Result<
    Option<App>,
    Error,
>)
    ensures
        r is Ok,
        ({
            let plan = spec_plan(reg.spec_buckets(), pattern@);
            match first_present(plan, present@) {
                None => r matches Ok(None),
                Some(i) => r matches Ok(Some(a)) && a.name@ == plan[i].app && a.bucket@
                    == plan[i].source && a.path@ == plan[i].path,
            }
        }),
{
    let plan = plan_lookup(reg, pattern);
    let ghost full = spec_plan(reg.spec_buckets(), pattern@);
    let mut i: usize = 0;
    proof {
        assert(full.skip(0) =~= full);
    }
    while i < plan.len()
        invariant
            0 <= i <= plan@.len(),
            cands_view(plan@) == full,
            full == spec_plan(reg.spec_buckets(), pattern@),
            first_present(full, present@) == match first_present(full.skip(i as int), present@) {
                None => None::<int>,
                Some(k) => Some(k + i),
            },
        decreases plan@.len() - i,
    {
        proof {
            assert(full.skip(i as int).drop_first() =~= full.skip(i + 1));
            assert(full.skip(i as int)[0] == full[i as int]);
            assert(full[i as int] == cand_view(plan@[i as int]));
        }
        let c = &plan[i];
        if contains_path(present, c.path.as_str()) {
            let a = App { name: c.app.clone(), bucket: c.source.clone(), path: c.path.clone() };
            return Ok(Some(a));
        }
        i += 1;
    }
    proof {
        assert(full.skip(full.len() as int) =~= Seq::<CandModel>::empty());
    }
    Ok(None)
}

/// A resolution session: the registry snapshot the locator consults.
pub struct Scoop {
    pub registry: BucketRegistry,
}

impl Scoop {
    pub fn new(registry: BucketRegistry) -> (r: Scoop)
        ensures
            r.registry == registry,
    {
        Scoop { registry }
    }

    /// Find the local manifest a specifier names; the same policy as
    /// `find_manifest`, over this session's registry.
    pub fn find_local_manifest(&self, pattern: &str, files: &Vec<(String, String)>) -> (r: Result<
        Option<Manifest>,
        Error,
    >)
        ensures
            resolution_ok(r, self.registry.spec_buckets(), pattern@, files@),
    {
        find_manifest(&self.registry, pattern, files)
    }
}

} // verus!
