//! Normalization of a manifest's license field: a raw identifier string is
//! split into identifiers (`|` before `,`, placeholder tokens dropped) and
//! each identifier is resolved independently to an optional reference URL.
use vstd::prelude::*;
use crate::strings::{spec_split, split_on, str_eq, contains_char, views_of};

verus! {

/// The placeholder token that splitting drops.
pub open spec fn placeholder() -> Seq<char> {
    "..."@
}

/// The embedded registry of recognized license identifiers.
pub open spec fn spec_registered(id: Seq<char>) -> bool {
    ||| id == "MIT"@
    ||| id == "Apache-2.0"@
    ||| id == "BSD-2-Clause"@
    ||| id == "BSD-3-Clause"@
    ||| id == "GPL-2.0-only"@
    ||| id == "GPL-2.0-or-later"@
    ||| id == "GPL-3.0-only"@
    ||| id == "GPL-3.0-or-later"@
    ||| id == "LGPL-2.1-only"@
    ||| id == "LGPL-2.1-or-later"@
    ||| id == "LGPL-3.0-only"@
    ||| id == "LGPL-3.0-or-later"@
    ||| id == "AGPL-3.0-only"@
    ||| id == "AGPL-3.0-or-later"@
    ||| id == "MPL-2.0"@
    ||| id == "ISC"@
    ||| id == "Zlib"@
    ||| id == "Unlicense"@
    ||| id == "CC0-1.0"@
    ||| id == "CC-BY-4.0"@
    ||| id == "CC-BY-SA-4.0"@
    ||| id == "EPL-2.0"@
    ||| id == "Artistic-2.0"@
    ||| id == "BSL-1.0"@
    ||| id == "OFL-1.1"@
    ||| id == "0BSD"@
    ||| id == "WTFPL"@
    ||| id == "PSF-2.0"@
    ||| id == "Ruby"@
    ||| id == "PHP-3.01"@
    ||| id == "EUPL-1.2"@
    ||| id == "MS-PL"@
    ||| id == "MS-RL"@
    ||| id == "NCSA"@
    ||| id == "OpenSSL"@
    ||| id == "PostgreSQL"@
    ||| id == "Python-2.0"@
    ||| id == "Vim"@
    ||| id == "X11"@
    ||| id == "Xterm"@
}

/// Whether `id` is a member of the embedded license registry.
pub fn registered(id: &str) -> (r: bool)
    ensures
        r == spec_registered(id@),
{
    str_eq(id, "MIT") || str_eq(id, "Apache-2.0") || str_eq(id, "BSD-2-Clause") || str_eq(
        id,
        "BSD-3-Clause",
    ) || str_eq(id, "GPL-2.0-only") || str_eq(id, "GPL-2.0-or-later") || str_eq(id, "GPL-3.0-only")
        || str_eq(id, "GPL-3.0-or-later") || str_eq(id, "LGPL-2.1-only") || str_eq(
        id,
        "LGPL-2.1-or-later",
    ) || str_eq(id, "LGPL-3.0-only") || str_eq(id, "LGPL-3.0-or-later") || str_eq(
        id,
        "AGPL-3.0-only",
    ) || str_eq(id, "AGPL-3.0-or-later") || str_eq(id, "MPL-2.0") || str_eq(id, "ISC") || str_eq(
        id,
        "Zlib",
    ) || str_eq(id, "Unlicense") || str_eq(id, "CC0-1.0") || str_eq(id, "CC-BY-4.0") || str_eq(
        id,
        "CC-BY-SA-4.0",
    ) || str_eq(id, "EPL-2.0") || str_eq(id, "Artistic-2.0") || str_eq(id, "BSL-1.0") || str_eq(
        id,
        "OFL-1.1",
    ) || str_eq(id, "0BSD") || str_eq(id, "WTFPL") || str_eq(id, "PSF-2.0") || str_eq(id, "Ruby")
        || str_eq(id, "PHP-3.01") || str_eq(id, "EUPL-1.2") || str_eq(id, "MS-PL") || str_eq(
        id,
        "MS-RL",
    ) || str_eq(id, "NCSA") || str_eq(id, "OpenSSL") || str_eq(id, "PostgreSQL") || str_eq(
        id,
        "Python-2.0",
    ) || str_eq(id, "Vim") || str_eq(id, "X11") || str_eq(id, "Xterm")
}

/// The reference URL resolved for one identifier: a fixed page for the
/// pseudo-licenses, none for `Unknown`, the registry page for a registered
/// identifier, and none otherwise.
pub open spec fn spec_license_url(id: Seq<char>) -> Option<Seq<char>> {
    if id == "Freeware"@ {
        Some("https://en.wikipedia.org/wiki/Freeware"@)
    } else if id == "Public Domain"@ {
        Some("https://en.wikipedia.org/wiki/Public_domain_software"@)
    } else if id == "Shareware"@ {
        Some("https://en.wikipedia.org/wiki/Shareware"@)
    } else if id == "Proprietary"@ {
        Some("https://en.wikipedia.org/wiki/Proprietary_software"@)
    } else if id == "Unknown"@ {
        None
    } else if spec_registered(id) {
        Some("https://spdx.org/licenses/"@ + id + ".html"@)
    } else {
        None
    }
}

/// Resolve the reference URL for one identifier.
pub fn license_url(id: &str) -> (r: Option<String>)
    ensures
        match r {
            Some(u) => spec_license_url(id@) == Some(u@),
            None => spec_license_url(id@) is None,
        },
{
    if str_eq(id, "Freeware") {
        Some("https://en.wikipedia.org/wiki/Freeware".to_owned())
    } else if str_eq(id, "Public Domain") {
        Some("https://en.wikipedia.org/wiki/Public_domain_software".to_owned())
    } else if str_eq(id, "Shareware") {
        Some("https://en.wikipedia.org/wiki/Shareware".to_owned())
    } else if str_eq(id, "Proprietary") {
        Some("https://en.wikipedia.org/wiki/Proprietary_software".to_owned())
    } else if str_eq(id, "Unknown") {
        None
    } else if registered(id) {
        let mut u = String::new();
        u.append("https://spdx.org/licenses/");
        u.append(id);
        u.append(".html");
        Some(u)
    } else {
        None
    }
}

/// The model of one normalized entry.
pub open spec fn pair_view(p: (String, Option<String>)) -> (Seq<char>, Option<Seq<char>>) {
    (
        p.0@,
        match p.1 {
            Some(u) => Some(u@),
            None => None,
        },
    )
}

/// The model of a list of normalized entries.
pub open spec fn pairs_view(v: Seq<(String, Option<String>)>) -> Seq<
    (Seq<char>, Option<Seq<char>>),
> {
    v.map_values(|p: (String, Option<String>)| pair_view(p))
}

/// Each non-placeholder token, in order, paired with its resolved URL.
pub open spec fn spec_entries(toks: Seq<Seq<char>>) -> Seq<(Seq<char>, Option<Seq<char>>)>
    decreases toks.len(),
{
    if toks.len() == 0 {
        Seq::empty()
    } else {
        let front = spec_entries(toks.drop_last());
        if toks.last() == placeholder() {
            front
        } else {
            front.push((toks.last(), spec_license_url(toks.last())))
        }
    }
}

/// Law: every identifier in a normalized entry list is resolved
/// independently — its entry carries exactly the URL resolved for that
/// identifier alone, whatever the other tokens are.
pub proof fn lemma_entries_independent(toks: Seq<Seq<char>>, i: int)
    requires
        0 <= i < spec_entries(toks).len(),
    ensures
        spec_entries(toks)[i].1 == spec_license_url(spec_entries(toks)[i].0),
    decreases toks.len(),
{
    if toks.len() > 0 && i < spec_entries(toks.drop_last()).len() {
        lemma_entries_independent(toks.drop_last(), i);
    }
}

/// The normalization of a string license field: split on `|` when present,
/// else on `,` when present (placeholder tokens dropped either way), else the
/// whole string is the one identifier.
pub open spec fn spec_normalize_text(s: Seq<char>) -> Seq<(Seq<char>, Option<Seq<char>>)> {
    if s.contains('|') {
        spec_entries(spec_split(s, '|'))
    } else if s.contains(',') {
        spec_entries(spec_split(s, ','))
    } else {
        seq![(s, spec_license_url(s))]
    }
}

fn entries_of(toks: &Vec<String>) -> (r: Vec<(String, Option<String>)>)
    ensures
        pairs_view(r@) == spec_entries(views_of(toks@)),
{
    let mut out: Vec<(String, Option<String>)> = Vec::new();
    let mut i: usize = 0;
    proof {
        assert(views_of(toks@).take(0) =~= Seq::<Seq<char>>::empty());
        assert(pairs_view(out@) =~= spec_entries(views_of(toks@).take(0)));
    }
    while i < toks.len()
        invariant
            0 <= i <= toks.len(),
            pairs_view(out@) == spec_entries(views_of(toks@).take(i as int)),
        decreases toks.len() - i,
    {
        let ghost pre = views_of(toks@).take(i as int);
        proof {
            assert(views_of(toks@).take(i + 1).drop_last() =~= pre);
            assert(views_of(toks@).take(i + 1).last() == toks@[i as int]@);
        }
        let tok = &toks[i];
        if !str_eq(tok.as_str(), "...") {
            let url = license_url(tok.as_str());
            let entry = (tok.clone(), url);
            proof {
                assert(pairs_view(out@.push(entry)) =~= pairs_view(out@).push(pair_view(entry)));
            }
            out.push(entry);
        }
        i += 1;
    }
    proof {
        assert(views_of(toks@).take(toks@.len() as int) =~= views_of(toks@));
    }
    out
}

/// Normalize a string license field to its ordered entry list.
pub fn normalize_license_text(s: &str) -> (r: Vec<(String, Option<String>)>)
    ensures
        pairs_view(r@) == spec_normalize_text(s@),
{
    if contains_char(s, '|') {
        let toks = split_on(s, '|');
        entries_of(&toks)
    } else if contains_char(s, ',') {
        let toks = split_on(s, ',');
        entries_of(&toks)
    } else {
        let url = license_url(s);
        let entry = (s.to_owned(), url);
        let r: Vec<(String, Option<String>)> = vec![entry];
        proof {
            assert(pairs_view(r@) =~= seq![(s@, spec_license_url(s@))]);
        }
        r
    }
}

} // verus!
