//! Plugin configuration: server address, recognized category set, privacy
//! mode flag.
//!
//! The configuration file lives outside the library: the embedding layer
//! reads and decodes it and hands the raw optional fields in; the library
//! applies the defaults and validates the category names against the
//! recognized set.

use vstd::prelude::*;

verus! {

/// A category name is recognized exactly when it is one of the fixed
/// allow-list entries.
pub open spec fn recognized(v: Seq<char>) -> bool {
    ||| v == "sponsor"@
    ||| v == "selfpromo"@
    ||| v == "interaction"@
    ||| v == "poi_highlight"@
    ||| v == "intro"@
    ||| v == "outro"@
    ||| v == "preview"@
    ||| v == "music_offtopic"@
    ||| v == "filler"@
    ||| v == "exclusive_access"@
}

/// Some entry of `s` reads `v`.
pub open spec fn has_cat(s: Seq<String>, v: Seq<char>) -> bool {
    exists|i: int| 0 <= i < s.len() && #[trigger] s[i]@ == v
}

/// The recognized entries of `input` in first-occurrence order, without
/// duplicates.
pub open spec fn filtered_categories(input: Seq<String>) -> Seq<String>
    decreases input.len(),
{
    if input.len() == 0 {
        Seq::empty()
    } else {
        let rest = filtered_categories(input.drop_last());
        if recognized(input.last()@) && !has_cat(rest, input.last()@) {
            rest.push(input.last())
        } else {
            rest
        }
    }
}

/// A category list is valid when every entry is recognized and no name
/// repeats.
pub open spec fn valid_categories(s: Seq<String>) -> bool {
    &&& forall|i: int| 0 <= i < s.len() ==> recognized(#[trigger] s[i]@)
    &&& forall|i: int, j: int| 0 <= i < j < s.len() ==> s[i]@ != s[j]@
}

/// The raw optional fields of a decoded configuration file, before defaults
/// and validation are applied.
pub struct RawConfig {
    pub server_address: Option<String>,
    pub categories: Option<Vec<String>>,
    pub privacy_api: Option<bool>,
}

/// The validated configuration the rest of the library consumes.
#[derive(Clone, Debug)]
pub struct Config {
    /// Address of the remote segment service.
    pub server_address: String,
    /// Recognized category names to request, deduplicated.
    pub categories: Vec<String>,
    /// Whether to query the remote service through its privacy endpoint.
    pub privacy_api: bool,
}

impl Config {
    /// The configuration is made of the raw fields with defaults filled in
    /// and the categories validated.
    pub open spec fn is_from(self, file: Option<RawConfig>) -> bool {
        match file {
            None => self.is_default(),
            Some(raw) => {
                &&& self.server_address@ == match raw.server_address {
                    Some(s) => s@,
                    None => "https://sponsor.ajay.app"@,
                }
                &&& self.categories@ == filtered_categories(
                    match raw.categories {
                        Some(v) => v@,
                        None => Seq::empty(),
                    },
                )
                &&& self.privacy_api == match raw.privacy_api {
                    Some(b) => b,
                    None => false,
                }
            },
        }
    }

    pub open spec fn is_default(self) -> bool {
        &&& self.server_address@ == "https://sponsor.ajay.app"@
        &&& self.categories@ == Seq::<String>::empty()
        &&& self.privacy_api == false
    }

    /// Build the configuration from a decoded file, or the default one when
    /// no file could be read or decoded.
    pub fn get(file: Option<RawConfig>) -> (r: Config)
        ensures
            r.is_from(file),
            valid_categories(r.categories@),
    {
        match file {
            None => Config::default(),
            Some(raw) => {
                let server_address = match raw.server_address {
                    Some(s) => s,
                    None => default_server_address(),
                };
                let categories = match raw.categories {
                    Some(v) => filter_categories(v),
                    None => Vec::new(),
                };
                let privacy_api = match raw.privacy_api {
                    Some(b) => b,
                    None => false,
                };
                proof {
                    assert(filtered_categories(Seq::<String>::empty()) =~= Seq::<String>::empty());
                }
                Config { server_address, categories, privacy_api }
            },
        }
    }
}

impl Default for Config {
    /// The configuration used when no file is present: default server, no
    /// categories, privacy endpoint off.
    fn default() -> (r: Config)
        ensures
            r.is_default(),
            valid_categories(r.categories@),
    {
        Config {
            server_address: default_server_address(),
            categories: Vec::new(),
            privacy_api: false,
        }
    }
}

/// The address queried when the configuration names none.
pub fn default_server_address() -> (r: String)
    ensures
        r@ == "https://sponsor.ajay.app"@,
{
    "https://sponsor.ajay.app".to_owned()
}

/// Runtime check of `recognized`.
fn is_recognized(c: &String) -> (r: bool)
    ensures
        r == recognized(c@),
{
    c.eq(&"sponsor".to_owned()) || c.eq(&"selfpromo".to_owned()) || c.eq(&"interaction".to_owned())
        || c.eq(&"poi_highlight".to_owned()) || c.eq(&"intro".to_owned()) || c.eq(
        &"outro".to_owned(),
    ) || c.eq(&"preview".to_owned()) || c.eq(&"music_offtopic".to_owned()) || c.eq(
        &"filler".to_owned(),
    ) || c.eq(&"exclusive_access".to_owned())
}

/// Runtime check of `has_cat`.
fn contains_cat(v: &Vec<String>, c: &String) -> (r: bool)
    ensures
        r == has_cat(v@, c@),
{
    let n = v.len();
    let mut j: usize = 0;
    while j < n
        invariant
            j <= n,
            n == v@.len(),
            forall|k: int| 0 <= k < j ==> #[trigger] v@[k]@ != c@,
        decreases n - j,
    {
        if c.eq(&v[j]) {
            return true;
        }
        j = j + 1;
    }
    false
}

/// Keep the recognized entries in first-occurrence order, dropping
/// duplicates.
fn filter_categories(input: Vec<String>) -> (r: Vec<String>)
    ensures
        r@ == filtered_categories(input@),
        valid_categories(r@),
{
    let n = input.len();
    let mut out: Vec<String> = Vec::new();
    let mut i: usize = 0;
    while i < n
        invariant
            i <= n,
            n == input@.len(),
            out@ == filtered_categories(input@.take(i as int)),
        decreases n - i,
    {
        proof {
            assert(input@.take(i + 1).drop_last() =~= input@.take(i as int));
            assert(input@.take(i + 1).last() == input@[i as int]);
        }
        if is_recognized(&input[i]) && !contains_cat(&out, &input[i]) {
            let c = input[i].clone();
            out.push(c);
        }
        i = i + 1;
    }
    proof {
        assert(input@.take(n as int) =~= input@);
        lemma_filtered_categories_valid(input@);
    }
    out
}

/// The filtered category list is valid: every entry recognized, no name
/// repeated.
pub proof fn lemma_filtered_categories_valid(input: Seq<String>)
    ensures
        valid_categories(filtered_categories(input)),
    decreases input.len(),
{
    if input.len() > 0 {
        let rest = filtered_categories(input.drop_last());
        lemma_filtered_categories_valid(input.drop_last());
        let f = filtered_categories(input);
        if recognized(input.last()@) && !has_cat(rest, input.last()@) {
            assert forall|i: int, j: int| 0 <= i < j < f.len() implies f[i]@ != f[j]@ by {
                if j < f.len() - 1 {
                    assert(rest[i]@ != rest[j]@);
                } else {
                    assert(f[j] == input.last());
                    assert(rest[i]@ == f[i]@);
                }
            }
        }
    }
}

/// A name is in the filtered list exactly when it is recognized and some
/// input entry reads it.
pub proof fn lemma_filtered_categories_membership(input: Seq<String>, v: Seq<char>)
    ensures
        has_cat(filtered_categories(input), v) <==> has_cat(input, v) && recognized(v),
    decreases input.len(),
{
    if input.len() > 0 {
        let p = input.drop_last();
        let l = input.last();
        let rest = filtered_categories(p);
        let f = filtered_categories(input);
        lemma_filtered_categories_membership(p, v);
        if has_cat(f, v) {
            let i = choose|i: int| 0 <= i < f.len() && #[trigger] f[i]@ == v;
            if recognized(l@) && !has_cat(rest, l@) && i == f.len() - 1 {
                assert(input[input.len() - 1]@ == v);
            } else {
                assert(rest[i]@ == v);
                assert(has_cat(rest, v));
                let k = choose|k: int| 0 <= k < p.len() && #[trigger] p[k]@ == v;
                assert(input[k]@ == v);
            }
        }
        if has_cat(input, v) && recognized(v) {
            let i = choose|i: int| 0 <= i < input.len() && #[trigger] input[i]@ == v;
            if i < input.len() - 1 {
                assert(p[i]@ == v);
                assert(has_cat(p, v));
                let m = choose|m: int| 0 <= m < rest.len() && #[trigger] rest[m]@ == v;
                assert(f[m]@ == v);
            } else {
                if has_cat(rest, l@) {
                    let m = choose|m: int| 0 <= m < rest.len() && #[trigger] rest[m]@ == l@;
                    assert(f[m]@ == v);
                } else {
                    assert(f[f.len() - 1]@ == v);
                }
            }
        }
    }
}

} // verus!
