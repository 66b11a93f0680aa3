//! Reading a configuration directory: which files count (`*.toml`), in
//! which order (by name), and how their contents combine (each decoded
//! against the schema, laid over the previous ones in order, the result
//! validated once).

use super::endpoint::EndpointConfig;
use super::general::GeneralConfig;
use super::merge::merged_general;
use super::toml_doc::{parse_document, toml_document, TomlValue};
use super::{config_from_document, decode_document, document_ok, Config};
use crate::error::{path_text, RouterError};
use vstd::prelude::*;

verus! {

/// Whether a file name has the extension `toml`: it ends in `.toml` after
/// a non-empty stem (`.toml` alone is a hidden file without extension).
pub open spec fn is_toml_name(n: Seq<char>) -> bool {
    n.len() > 5 && n.skip(n.len() - 5) =~= seq!['.', 't', 'o', 'm', 'l']
}

/// Whether `name` is the name of a TOML file (see [`is_toml_name`]).
pub fn is_toml_file_name(name: &str) -> (r: bool)
    ensures
        r == is_toml_name(name@),
{
    let chars = super::socket_addr::str_chars(name);
    let n = chars.len();
    if n <= 5 {
        return false;
    }
    let r = chars[n - 5] == '.' && chars[n - 4] == 't' && chars[n - 3] == 'o' && chars[n - 2]
        == 'm' && chars[n - 1] == 'l';
    assert(r ==> chars@.skip(n - 5) =~= seq!['.', 't', 'o', 'm', 'l']);
    assert(chars@.skip(n - 5) =~= seq!['.', 't', 'o', 'm', 'l'] ==> {
        &&& chars@.skip(n - 5)[0] == '.'
        &&& chars@.skip(n - 5)[4] == 'l'
    });
    r
}

/// Lexicographic order of texts by character (a prefix comes first), the
/// order of `String` (byte order of UTF-8 is code-point order).
pub open spec fn text_le(a: Seq<char>, b: Seq<char>) -> bool
    decreases a.len(),
{
    if a.len() == 0 {
        true
    } else if b.len() == 0 {
        false
    } else if a[0] != b[0] {
        (a[0] as u32) < (b[0] as u32)
    } else {
        text_le(a.drop_first(), b.drop_first())
    }
}

/// The texts of a list of strings.
pub open spec fn texts_of(v: Seq<String>) -> Seq<Seq<char>> {
    v.map_values(|s: String| s@)
}

/// Whether texts are in ascending order.
pub open spec fn texts_sorted(v: Seq<Seq<char>>) -> bool {
    forall|i: int, j: int| 0 <= i < j < v.len() ==> text_le(v[i], v[j])
}

/// `slice::sort` on strings: the same strings in ascending order of
/// `String`'s `Ord`.
#[verifier::external_body]
fn sort_strings(v: &mut Vec<String>)
    ensures
        texts_of(final(v)@).to_multiset() == texts_of(old(v)@).to_multiset(),
        texts_sorted(texts_of(final(v)@)),
{
    v.sort()
}

/// The names of the TOML files among `names`, in ascending order.
pub fn toml_files_in_order(names: Vec<String>) -> (r: Vec<String>)
    ensures
        texts_of(r@).to_multiset() == texts_of(names@).filter(|n: Seq<char>| is_toml_name(n)).to_multiset(),
        texts_sorted(texts_of(r@)),
{
    let ghost pred = |n: Seq<char>| is_toml_name(n);
    let mut kept: Vec<String> = Vec::new();
    let mut i: usize = 0;
    while i < names.len()
        invariant
            i <= names@.len(),
            pred == (|n: Seq<char>| is_toml_name(n)),
            texts_of(kept@) =~= texts_of(names@).take(i as int).filter(pred),
        decreases names@.len() - i,
    {
        let ghost before = kept@;
        proof {
            assert(texts_of(names@).take(i + 1) =~= texts_of(names@).take(i as int).push(
                names@[i as int]@,
            ));
            texts_of(names@).take(i as int).lemma_filter_push(names@[i as int]@, pred);
        }
        if is_toml_file_name(names[i].as_str()) {
            kept.push(names[i].clone());
            assert(texts_of(kept@) =~= texts_of(before).push(names@[i as int]@));
        }
        i = i + 1;
    }
    assert(texts_of(names@).take(names@.len() as int) =~= texts_of(names@));
    sort_strings(&mut kept);
    kept
}

/// The `[general]` settings after laying each of `gs` over `base` in
/// order.
pub open spec fn general_folded(base: GeneralConfig, gs: Seq<GeneralConfig>) -> GeneralConfig
    decreases gs.len(),
{
    if gs.len() == 0 {
        base
    } else {
        merged_general(general_folded(base, gs.drop_last()), gs.last())
    }
}

/// The endpoints of `cs`, in order.
pub open spec fn endpoints_concat(cs: Seq<Config>) -> Seq<EndpointConfig>
    decreases cs.len(),
{
    if cs.len() == 0 {
        seq![]
    } else {
        endpoints_concat(cs.drop_last()) + cs.last().endpoint@
    }
}

/// Whether a file's text is a TOML document that fits the schema.
pub open spec fn file_ok(text: Seq<char>) -> bool {
    toml_document(text) matches Some(TomlValue::Table(es)) && document_ok(es@)
}

/// Whether `c` is the configuration a file's text describes.
pub open spec fn file_decodes_to(text: Seq<char>, c: Config) -> bool {
    toml_document(text) matches Some(TomlValue::Table(es)) && config_from_document(es@, c)
}

/// Whether `cs` are the configurations the files describe, one per file.
pub open spec fn files_decode_to(files: Seq<(String, String)>, cs: Seq<Config>) -> bool {
    &&& cs.len() == files.len()
    &&& forall|i: int| 0 <= i < files.len() ==> file_decodes_to(files[i].1@, #[trigger] cs[i])
}

/// Whether `c` is what laying `cs` in order over defaults `base` gives.
pub open spec fn folded_into(base: GeneralConfig, cs: Seq<Config>, c: Config) -> bool {
    &&& c.general == general_folded(base, cs.map_values(|x: Config| x.general))
    &&& c.endpoint@ == endpoints_concat(cs)
}

proof fn lemma_fold_step(base: GeneralConfig, cs: Seq<Config>, c: Config, next: Config)
    requires
        folded_into(base, cs, c),
    ensures
        cs.push(next).map_values(|x: Config| x.general) =~= cs.map_values(|x: Config| x.general).push(
            next.general,
        ),
        cs.push(next).drop_last() =~= cs,
{
}

impl Config {
    /// Combines the configuration files of a directory, given as
    /// `(path, text)` in the order to apply them: each text is decoded
    /// against the schema (without validating it on its own), laid over
    /// the configuration so far, starting from the defaults; the result is
    /// validated once. The first text that is not TOML fails with
    /// [`RouterError::ConfigParseFile`], carrying its path and the TOML
    /// parser's error; every other failure is a validation error.
    pub fn merge_files(files: &[(String, String)]) -> (r: Result<Config, RouterError>)
        ensures
            r matches Err(e) ==> (e is ConfigParseFile || e.is_validation()),
            (exists|i: int| 0 <= i < files@.len() && !file_ok(#[trigger] files@[i].1@)) ==> r is Err,
            r matches Err(RouterError::ConfigParseFile { path, .. }) ==> exists|i: int|
                0 <= i < files@.len() && path_text(path) == files@[i].0@ && toml_document(
                    #[trigger] files@[i].1@,
                ) is None && forall|j: int| 0 <= j < i ==> file_ok(#[trigger] files@[j].1@),
            forall|i: int|
                0 <= i < files@.len() && toml_document(#[trigger] files@[i].1@) is None && (forall|
                    j: int,
                | 0 <= j < i ==> file_ok(#[trigger] files@[j].1@)) ==> (r matches Err(
                    RouterError::ConfigParseFile { path, .. },
                ) && path_text(path) == files@[i].0@),
            r matches Ok(c) ==> c.valid() && exists|base: GeneralConfig, cs: Seq<Config>|
                base.is_default() && files_decode_to(files@, cs) && folded_into(base, cs, c),
            (r is Err && forall|i: int| 0 <= i < files@.len() ==> file_ok(#[trigger] files@[i].1@))
                ==> exists|base: GeneralConfig, cs: Seq<Config>, c: Config|
                base.is_default() && files_decode_to(files@, cs) && folded_into(base, cs, c)
                    && !c.valid(),
    {
        let mut merged = Config::default();
        let ghost base = merged.general;
        let ghost mut cs: Seq<Config> = seq![];
        assert(cs.map_values(|x: Config| x.general) =~= Seq::<GeneralConfig>::empty());
        assert(merged.endpoint@ =~= endpoints_concat(cs));
        let mut i: usize = 0;
        while i < files.len()
            invariant
                i <= files@.len(),
                base.is_default(),
                cs.len() == i,
                forall|j: int| 0 <= j < i ==> file_ok(#[trigger] files@[j].1@),
                forall|j: int| 0 <= j < i ==> file_decodes_to(files@[j].1@, #[trigger] cs[j]),
                folded_into(base, cs, merged),
            decreases files@.len() - i,
        {
            let (path, text) = &files[i];
            let doc = match parse_document(text.as_str()) {
                Ok(d) => d,
                Err(source) => {
                    let e = RouterError::config_parse_file(path.as_str(), source);
                    proof {
                        assert forall|k: int|
                            0 <= k < files@.len() && toml_document(#[trigger] files@[k].1@) is None
                                && (forall|j: int| 0 <= j < k ==> file_ok(#[trigger] files@[j].1@))
                            implies k == i by {
                            if k < i {
                                assert(file_ok(files@[k].1@));
                            }
                            if k > i {
                                assert(file_ok(files@[i as int].1@));
                            }
                        }
                    }
                    return Err(e);
                },
            };
            let es = match &doc {
                TomlValue::Table(es) => es,
                _ => {
                    return Err(RouterError::config("Failed to parse config: the document is not a table"));
                },
            };
            let c = match decode_document(es) {
                Ok(c) => c,
                Err(e) => {
                    return Err(e);
                },
            };
            let ghost prev = merged;
            let ghost prev_cs = cs;
            let ghost next = c;
            proof {
                lemma_fold_step(base, cs, merged, c);
                cs = cs.push(c);
            }
            merged = merged.merge(c);
            proof {
                let gs = cs.map_values(|x: Config| x.general);
                assert(gs.drop_last() =~= prev_cs.map_values(|x: Config| x.general));
                assert(gs.last() == next.general);
                assert(cs.drop_last() =~= prev_cs);
                assert(cs.last() == next);
                assert(merged.endpoint@ =~= endpoints_concat(cs));
            }
            i = i + 1;
        }
        assert(files_decode_to(files@, cs));
        match merged.validate() {
            Ok(()) => Ok(merged),
            Err(e) => Err(e),
        }
    }
}

} // verus!
