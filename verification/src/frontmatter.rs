//! Decoding the frontmatter block: the YAML mapping's three optional
//! list-valued fields `args`, `read` and `edit`, each read as a list of
//! strings with non-string entries silently skipped.
//!
//! The YAML parsing itself is done by the `yaml_rust2` crate behind trusted
//! wrappers; everything around the calls is verified.

use vstd::prelude::*;

use crate::errors::TemplateError;
use crate::text::{all_blank, opt_views, views_of};

verus! {

/// Whether `yaml_rust2` parses `s` as YAML without error.
pub uninterp spec fn yaml_parses(s: Seq<char>) -> bool;

/// The message of the scanner's error for a text that does not parse as
/// YAML: a function of the text alone.
pub uninterp spec fn yaml_error_of(s: Seq<char>) -> Seq<char>;

/// The message a scanner error displays: the content model of
/// `yaml_rust2::ScanError`.
pub uninterp spec fn scan_error_message(e: yaml_rust2::ScanError) -> Seq<char>;

/// The list under `key` in the first YAML document of `s`: each entry is
/// `Some` of the string for string scalars and `None` for any other node.
/// The whole result is `None` when `s` does not parse, yields no document,
/// lacks `key`, or holds something other than a list under `key`.
pub uninterp spec fn yaml_key_items(s: Seq<char>, key: Seq<char>) -> Option<Seq<Option<Seq<char>>>>;

#[verifier::external_type_specification]
#[verifier::external_body]
pub struct ExScanError(yaml_rust2::ScanError);

/// Relies on `yaml_rust2::YamlLoader::load_from_str`: whether the text
/// parses, and the error reported when it does not, are functions of the
/// text alone.
#[verifier::external_body]
fn yaml_parse_check(s: &str) -> (r: Result<(), yaml_rust2::ScanError>)
    ensures
        r is Ok <==> yaml_parses(s@),
        r matches Err(e) ==> scan_error_message(e) == yaml_error_of(s@),
{
    yaml_rust2::YamlLoader::load_from_str(s).map(|_| ())
}

/// Relies on `yaml_rust2`: `YamlLoader::load_from_str` to parse the text,
/// `Index<&str>` on the first document (which yields `BadValue` for a
/// missing key or a non-mapping), `Yaml::as_vec` to read the list and
/// `Yaml::as_str` on each entry.  The outcome is a function of the text and
/// the key alone.
#[verifier::external_body]
fn yaml_string_items(s: &str, key: &str) -> (r: Option<Vec<Option<String>>>)
    ensures
        match r {
            Option::Some(v) => yaml_key_items(s@, key@) == Option::Some(opt_views(v@)),
            Option::None => yaml_key_items(s@, key@) is None,
        },
{
    let docs = yaml_rust2::YamlLoader::load_from_str(s).ok()?;
    let doc = docs.into_iter().next()?;
    doc[key].as_vec().map(|items| items.iter().map(|y| y.as_str().map(|t| t.to_owned())).collect())
}

/// Relies on `yaml_rust2::ScanError`'s `Display` implementation for the
/// parser's message.
#[verifier::external_body]
fn scan_error_text(e: &yaml_rust2::ScanError) -> (r: String)
    ensures
        r@ == scan_error_message(*e),
{
    e.to_string()
}

/// The strings among `xs`, in order; non-string entries are skipped.
pub open spec fn somes_of(xs: Seq<Option<Seq<char>>>) -> Seq<Seq<char>>
    decreases xs.len(),
{
    if xs.len() == 0 {
        Seq::<Seq<char>>::empty()
    } else {
        somes_of(xs.drop_last()) + (match xs.last() {
            Option::Some(v) => seq![v],
            Option::None => Seq::<Seq<char>>::empty(),
        })
    }
}

/// The strings of a field's list: empty when the field is absent or not a
/// list, else its string entries in order.
pub open spec fn kept_strings(items: Option<Seq<Option<Seq<char>>>>) -> Seq<Seq<char>> {
    match items {
        Option::Some(xs) => somes_of(xs),
        Option::None => Seq::<Seq<char>>::empty(),
    }
}

/// Keeps the string entries of the list, in order, dropping the rest.
fn collect_strings(items: Option<Vec<Option<String>>>) -> (r: Vec<String>)
    ensures
        match items {
            Option::Some(v) => views_of(r@) == somes_of(opt_views(v@)),
            Option::None => views_of(r@) == Seq::<Seq<char>>::empty(),
        },
{
    match items {
        Option::None => {
            let r = Vec::<String>::new();
            proof {
                assert(views_of(r@) =~= Seq::<Seq<char>>::empty());
            }
            r
        },
        Option::Some(v) => {
            let mut out = Vec::<String>::new();
            let mut i: usize = 0;
            proof {
                assert(views_of(out@) =~= somes_of(opt_views(v@).take(0)));
            }
            while i < v.len()
                invariant
                    i <= v.len(),
                    views_of(out@) == somes_of(opt_views(v@).take(i as int)),
                decreases v.len() - i,
            {
                let ghost ov = opt_views(v@);
                proof {
                    assert(ov.take(i + 1).drop_last() =~= ov.take(i as int));
                    assert(ov.take(i + 1).last() == ov[i as int]);
                }
                match &v[i] {
                    Option::Some(s) => {
                        let ghost before = out@;
                        out.push(s.clone());
                        proof {
                            assert(views_of(out@) =~= views_of(before).push(s@));
                            assert(somes_of(ov.take(i + 1)) =~= somes_of(ov.take(i as int)) + seq![
                                s@,
                            ]);
                            assert(views_of(before).push(s@) =~= views_of(before) + seq![s@]);
                        }
                    },
                    Option::None => {
                        proof {
                            assert(somes_of(ov.take(i + 1)) =~= somes_of(ov.take(i as int)));
                        }
                    },
                }
                i = i + 1;
            }
            proof {
                assert(opt_views(v@).take(v@.len() as int) =~= opt_views(v@));
            }
            out
        },
    }
}

/// Decodes the frontmatter block into the three declared lists: argument
/// names, read-only path templates and editable path templates.  Blank
/// frontmatter yields three empty lists; frontmatter that does not parse as
/// YAML is an error; in a parsed document each absent or non-list field
/// yields an empty list and non-string entries within a list are skipped.
pub fn decode(frontmatter: &str) -> (r: Result<(Vec<String>, Vec<String>, Vec<String>), TemplateError>)
    ensures
        all_blank(frontmatter@) ==> (r matches Ok(lists) && views_of(lists.0@)
            == Seq::<Seq<char>>::empty() && views_of(lists.1@) == Seq::<Seq<char>>::empty()
            && views_of(lists.2@) == Seq::<Seq<char>>::empty()),
        !all_blank(frontmatter@) ==> (r is Ok <==> yaml_parses(frontmatter@)),
        !all_blank(frontmatter@) ==> (r matches Ok(lists) ==> views_of(lists.0@) == kept_strings(
            yaml_key_items(frontmatter@, "args"@),
        ) && views_of(lists.1@) == kept_strings(yaml_key_items(frontmatter@, "read"@)) && views_of(
            lists.2@,
        ) == kept_strings(yaml_key_items(frontmatter@, "edit"@))),
        r matches Err(e) ==> (e matches TemplateError::FrontmatterParse(m) && m@ == yaml_error_of(
            frontmatter@,
        )),
{
    if crate::text::is_blank_str(frontmatter) {
        let r = (Vec::<String>::new(), Vec::<String>::new(), Vec::<String>::new());
        proof {
            assert(views_of(Seq::<String>::empty()) =~= Seq::<Seq<char>>::empty());
        }
        return Ok(r);
    }
    match yaml_parse_check(frontmatter) {
        Result::Err(e) => Err(TemplateError::FrontmatterParse(scan_error_text(&e))),
        Result::Ok(()) => {
            let args = collect_strings(yaml_string_items(frontmatter, "args"));
            let read = collect_strings(yaml_string_items(frontmatter, "read"));
            let edit = collect_strings(yaml_string_items(frontmatter, "edit"));
            Ok((args, read, edit))
        },
    }
}

} // verus!
