//! Loading and validating one manifest document: parse the text as JSON,
//! require a string `version` field, normalize the license field, and keep
//! the whole payload for downstream consumers.
use vstd::prelude::*;
use crate::error::{Error, ErrorKind};
use crate::json::{Json, json_model, parsed_doc, parse_json, json_get, json_as_str};
use crate::license::{
    spec_license_url, spec_normalize_text, pairs_view, license_url, normalize_license_text,
};
use crate::strings::{spec_leaf_base, leaf_base};

verus! {

/// Where a manifest came from. Only local files are resolved here; the
/// remote shape is recorded for collaborators that fetch over the network.
#[derive(Debug)]
pub enum ManifestKind {
    Local(String),
    Remote(String),
}

/// One loaded package manifest.
#[derive(Debug)]
pub struct Manifest {
    /// The app name: the manifest file's base name, never a payload field.
    pub app: String,
    /// The bucket the manifest was resolved through, when the specifier
    /// named one.
    pub bucket: Option<String>,
    /// The mandatory `version` field.
    pub version: String,
    /// The normalized license entries, in source order.
    pub license: Option<Vec<(String, Option<String>)>>,
    /// The full parsed payload, kept verbatim.
    pub json: serde_json::Value,
    /// The provenance of the manifest.
    pub kind: ManifestKind,
}

/// The `version` field of a document: its text when the document is an
/// object whose `version` member is a JSON string, absent otherwise.
pub open spec fn version_of(doc: Json) -> Option<Seq<char>> {
    match doc {
        Json::Object(m) => if m.contains_key("version"@) {
            match m["version"@] {
                Json::Text(s) => Some(s),
                _ => None,
            }
        } else {
            None
        },
        _ => None,
    }
}

/// The normalization of one license field value: a string is split and
/// resolved; an object needs a string `identifier`, and a string `url`
/// member overrides the resolved URL; anything else carries no license.
pub open spec fn license_field_norm(j: Json) -> Option<Seq<(Seq<char>, Option<Seq<char>>)>> {
    match j {
        Json::Text(s) => Some(spec_normalize_text(s)),
        Json::Object(m) => if m.contains_key("identifier"@) && m["identifier"@] is Text {
            let id = m["identifier"@]->Text_0;
            let url = if m.contains_key("url"@) && m["url"@] is Text {
                Some(m["url"@]->Text_0)
            } else {
                spec_license_url(id)
            };
            Some(seq![(id, url)])
        } else {
            None
        },
        _ => None,
    }
}

/// The normalized license of a whole document: the normalization of its
/// `license` member, absent when the document has none.
pub open spec fn license_of(doc: Json) -> Option<Seq<(Seq<char>, Option<Seq<char>>)>> {
    match doc {
        Json::Object(m) => if m.contains_key("license"@) {
            license_field_norm(m["license"@])
        } else {
            None
        },
        _ => None,
    }
}

/// The model of an optional normalized license list.
pub open spec fn license_model(l: Option<Vec<(String, Option<String>)>>) -> Option<
    Seq<(Seq<char>, Option<Seq<char>>)>,
> {
    match l {
        Some(v) => Some(pairs_view(v@)),
        None => None,
    }
}

/// The model of an optional owned string.
pub open spec fn opt_view(o: Option<String>) -> Option<Seq<char>> {
    match o {
        Some(s) => Some(s@),
        None => None,
    }
}

/// `m` is exactly the manifest loaded from document `doc` found at `path`,
/// owned by `bucket`.
pub open spec fn loaded_from(m: Manifest, path: Seq<char>, doc: Json, bucket: Option<Seq<char>>) -> bool {
    &&& m.app@ == spec_leaf_base(path)
    &&& opt_view(m.bucket) == bucket
    &&& version_of(doc) == Some(m.version@)
    &&& license_model(m.license) == license_of(doc)
    &&& json_model(m.json) == doc
    &&& m.kind matches ManifestKind::Local(p) && p@ == path
}

/// Law: the payload kept on a loaded manifest models exactly the document
/// parsed from the file content it was loaded from, unrecognized fields
/// included.
pub proof fn lemma_payload_round_trip(
    m: Manifest,
    path: Seq<char>,
    doc: Json,
    bucket: Option<Seq<char>>,
    content: Seq<char>,
)
    requires
        parsed_doc(content) == Some(doc),
        loaded_from(m, path, doc, bucket),
    ensures
        parsed_doc(content) == Some(json_model(m.json)),
{
}

/// Extract the `version` field when it is a string.
fn extract_version(v: &serde_json::Value) -> (r: Option<String>)
    ensures
        match r {
            Some(s) => version_of(json_model(*v)) == Some(s@),
            None => version_of(json_model(*v)) is None,
        },
{
    match json_get(v, "version") {
        None => None,
        Some(f) => match json_as_str(f) {
            Some(s) => Some(s.to_owned()),
            None => None,
        },
    }
}

/// Extract and normalize the `license` field.
fn extract_license(v: &serde_json::Value) -> (r: Option<Vec<(String, Option<String>)>>)
    ensures
        license_model(r) == license_of(json_model(*v)),
{
    let f = match json_get(v, "license") {
        Some(f) => f,
        None => {
            return None;
        },
    };
    match json_as_str(f) {
        Some(s) => Some(normalize_license_text(s)),
        None => {
            let idv = match json_get(f, "identifier") {
                Some(x) => x,
                None => {
                    return None;
                },
            };
            let id = match json_as_str(idv) {
                Some(s) => s.to_owned(),
                None => {
                    return None;
                },
            };
            let url = match json_get(f, "url") {
                Some(uv) => match json_as_str(uv) {
                    Some(u) => Some(u.to_owned()),
                    None => license_url(id.as_str()),
                },
                None => license_url(id.as_str()),
            };
            let entry = (id, url);
            let l: Vec<(String, Option<String>)> = vec![entry];
            proof {
                assert(pairs_view(l@) =~= seq![
                    (
                        entry.0@,
                        match entry.1 {
                            Some(u) => Some(u@),
                            None => None,
                        },
                    ),
                ]);
            }
            Some(l)
        },
    }
}

impl Manifest {
    /// Load a manifest from the text of the file at `path`: the text must be
    /// one JSON document with a string `version`; the app name is the file's
    /// base name; the payload is kept verbatim.
    pub fn from_content(path: &str, content: &str, bucket: Option<String>) -> (r: Result<
        Manifest,
        Error,
    >)
        ensures
            match r {
                Ok(m) => parsed_doc(content@) matches Some(doc) && version_of(doc) is Some
                    && loaded_from(m, path@, doc, opt_view(bucket)),
                Err(e) => match e.kind {
                    ErrorKind::Parse { path: p } => parsed_doc(content@) is None && p@ == path@,
                    ErrorKind::Schema { path: p, field } => parsed_doc(content@) matches Some(doc)
                        && version_of(doc) is None && p@ == path@ && field@ == "version"@,
                    _ => false,
                },
            },
    {
        let v = match parse_json(content) {
            Some(v) => v,
            None => {
                return Err(Error::parse(path.to_owned()));
            },
        };
        let version = match extract_version(&v) {
            Some(s) => s,
            None => {
                return Err(Error::schema(path.to_owned(), "version".to_owned()));
            },
        };
        let license = extract_license(&v);
        Ok(
            Manifest {
                app: leaf_base(path),
                bucket,
                version,
                license,
                json: v,
                kind: ManifestKind::Local(path.to_owned()),
            },
        )
    }
}

} // verus!
