use vstd::prelude::*;
use vstd::string::*;

use crate::error::Error;
use crate::text::{lines, text_lines, views};

verus! {

/// Whether `id` is an SPDX license identifier that the license database knows.
pub uninterp spec fn spdx_known(id: Seq<char>) -> bool;

/// The full text of the SPDX license `id`.
pub uninterp spec fn spdx_text(id: Seq<char>) -> Seq<char>;

/// The standard header of the SPDX license `id`, where it has one.
pub uninterp spec fn spdx_header(id: Seq<char>) -> Option<Seq<char>>;

/// What an optional string holds.
pub open spec fn opt_view(o: Option<String>) -> Option<Seq<char>> {
    match o {
        Some(s) => Some(s@),
        None => None,
    }
}

/// A license of the database: its identifier, its standard header and its
/// full text.
pub struct LicenseRecord {
    pub id: String,
    pub header: Option<String>,
    pub text: String,
}

/// Relies on the license crate: `FromStr for &dyn License` matches `id`
/// exactly against the SPDX identifiers of its database, and the license
/// found reports that same identifier from `id()`; `header()` and `text()`
/// are fixed per license. The license is copied into a plain record.
#[verifier::external_body]
fn spdx_lookup(id: &str) -> (r: Result<LicenseRecord, ::license::ParseError>)
    ensures
        r is Ok <==> spdx_known(id@),
        r matches Ok(l) ==> l.id@ == id@,
        r matches Ok(l) ==> l.text@ == spdx_text(id@),
        r matches Ok(l) ==> opt_view(l.header) == spdx_header(id@),
{
    id.parse::<&dyn ::license::License>().map(|l| LicenseRecord {
        id: l.id().to_string(),
        header: l.header().map(|h| h.to_string()),
        text: l.text().to_string(),
    })
}

/// Looks up a license by its SPDX identifier. An empty identifier is
/// `NoLicense`; one that the database lacks is `InvalidLicense`.
pub fn define_license(license: &str) -> (r: Result<LicenseRecord, Error>)
    ensures
        license@.len() == 0 <==> r matches Err(Error::NoLicense),
        r matches Err(Error::InvalidLicense(_)) <==> license@.len() > 0 && !spdx_known(
            license@,
        ),
        r is Ok <==> license@.len() > 0 && spdx_known(license@),
        r matches Ok(l) ==> l.id@ == license@ && spdx_known(l.id@),
        r matches Ok(l) ==> l.text@ == spdx_text(license@),
        r matches Ok(l) ==> opt_view(l.header) == spdx_header(license@),
        r matches Err(e) ==> (e matches Error::NoLicense || e matches Error::InvalidLicense(_)),
{
    if license.is_empty() {
        return Err(Error::NoLicense);
    }
    match spdx_lookup(license) {
        Ok(l) => Ok(l),
        Err(e) => Err(Error::InvalidLicense(e)),
    }
}

/// The lines of `ls` that are not empty, in order.
pub open spec fn non_empty(ls: Seq<Seq<char>>) -> Seq<Seq<char>>
    decreases ls.len(),
{
    if ls.len() == 0 {
        ls
    } else if ls.last().len() == 0 {
        non_empty(ls.drop_last())
    } else {
        non_empty(ls.drop_last()).push(ls.last())
    }
}

/// The body of a license text: its lines but the first two (a blank line
/// and the identifier), without the empty ones.
pub open spec fn body_lines(text: Seq<char>) -> Seq<Seq<char>> {
    let ls = lines(text);
    if ls.len() <= 2 {
        seq![]
    } else {
        non_empty(ls.subrange(2, ls.len() as int))
    }
}

/// The body of a license text: its lines but the first two (a blank line
/// and the identifier), without the empty ones.
pub fn license_body(text: &str) -> (r: Vec<String>)
    ensures
        views(r@) == body_lines(text@),
{
    let ls = text_lines(text);
    let mut out: Vec<String> = Vec::new();
    if ls.len() <= 2 {
        proof {
            assert(views(out@) =~= seq![]);
        }
        return out;
    }
    let ghost all = lines(text@);
    let mut i: usize = 2;
    while i < ls.len()
        invariant
            2 <= i <= ls.len(),
            views(ls@) == all,
            all == lines(text@),
            views(out@) == non_empty(all.subrange(2, i as int)),
        decreases ls.len() - i,
    {
        proof {
            assert(all.subrange(2, i + 1).drop_last() =~= all.subrange(2, i as int));
            assert(ls@[i as int]@ == all[i as int]);
        }
        if !ls[i].as_str().is_empty() {
            out.push(ls[i].clone());
            proof {
                assert(views(out@) =~= non_empty(all.subrange(2, i + 1)));
            }
        }
        i = i + 1;
    }
    out
}

} // verus!
