//! Package requirements as npm specifiers name them.

use vstd::prelude::*;
use deno_semver::npm::NpmPackageReqReference;
use deno_semver::package::PackageReq;
use crate::specifier::ModuleSpecifier;
use crate::text::has_prefix;

verus! {

/// The length from which a run of decimal digits is too long to stand for
/// a part of a version: every shorter run is a number below `u64::MAX`.
pub const LONG_NUMBER: usize = 20;

/// Whether `c` is a decimal digit.
pub open spec fn is_digit(c: char) -> bool {
    '0' <= c <= '9'
}

/// Whether `length` decimal digits stand in `text` from `start` on.
pub open spec fn is_digit_run(text: Seq<char>, start: int, length: int) -> bool {
    &&& 0 <= start
    &&& start + length <= text.len()
    &&& forall|k: int| start <= k < start + length ==> is_digit(#[trigger] text[k])
}

/// Whether `text` holds a run of 20 or more decimal digits.
pub open spec fn has_long_number(text: Seq<char>) -> bool {
    exists|start: int| is_digit_run(text, start, LONG_NUMBER as int)
}

/// Whether `text` holds a run of 20 or more decimal digits.
pub fn holds_long_number(text: &str) -> (found: bool)
    ensures
        found == has_long_number(text@),
{
    let n = text.unicode_len();
    let mut i: usize = 0;
    let mut run: usize = 0;
    while i < n
        invariant
            i <= n == text@.len(),
            run <= i,
            run < LONG_NUMBER,
            forall|k: int| i - run <= k < i ==> is_digit(#[trigger] text@[k]),
            run < i ==> !is_digit(text@[i - run - 1]),
            forall|start: int|
                start + LONG_NUMBER <= i ==> !#[trigger] is_digit_run(
                    text@,
                    start,
                    LONG_NUMBER as int,
                ),
        decreases n - i,
    {
        let c = text.get_char(i);
        if c >= '0' && c <= '9' {
            run += 1;
            if run == LONG_NUMBER {
                assert(is_digit_run(text@, i + 1 - LONG_NUMBER, LONG_NUMBER as int));
                return true;
            }
            assert forall|start: int| start + LONG_NUMBER <= i + 1 implies !#[trigger] is_digit_run(
                text@,
                start,
                LONG_NUMBER as int,
            ) by {
                if start + LONG_NUMBER == i + 1 && 0 <= start {
                    assert(!is_digit(text@[i + 1 - run - 1]));
                }
            }
        } else {
            run = 0;
            assert forall|start: int| start + LONG_NUMBER <= i + 1 implies !#[trigger] is_digit_run(
                text@,
                start,
                LONG_NUMBER as int,
            ) by {
                if start + LONG_NUMBER == i + 1 && 0 <= start {
                    assert(!is_digit(text@[i as int]));
                }
            }
        }
        i += 1;
    }
    false
}

/// The package requirement, as text, of the npm package reference that
/// `specifier` parses to; `None` where it parses to none.
pub uninterp spec fn npm_package_req(specifier: Seq<char>) -> Option<Seq<char>>;

/// Calls `NpmPackageReqReference::from_str` and hands back the requirement
/// of the reference, as `PackageReq` displays it. The result is a function
/// of the text alone, and there is none for a text that does not begin with
/// `npm:`; nothing more is claimed. Texts with a long run of digits are
/// left out: on a version part of the size of `u64::MAX` the parser's
/// arithmetic overflows.
#[verifier::external_body]
fn parse_npm_reference(specifier: &str) -> (req: Option<String>)
    requires
        !has_long_number(specifier@),
    ensures
        req.deep_view() == npm_package_req(specifier@),
        !has_prefix(specifier@, "npm:"@) ==> req is None,
{
    match NpmPackageReqReference::from_str(specifier) {
        Ok(reference) => Some(reference.into_inner().req.to_string()),
        Err(_) => None,
    }
}

/// The package requirement that `text` parses to, as text; `None` where it
/// parses to none.
pub uninterp spec fn package_req(text: Seq<char>) -> Option<Seq<char>>;

/// Calls `PackageReq::from_str` and hands back the requirement as
/// `PackageReq` displays it. The result is a function of the text alone;
/// nothing more is claimed. Texts with a long run of digits are left out:
/// on a version part of the size of `u64::MAX` the parser's arithmetic
/// overflows.
#[verifier::external_body]
fn parse_package_req(text: &str) -> (req: Option<String>)
    requires
        !has_long_number(text@),
    ensures
        req.deep_view() == package_req(text@),
{
    match PackageReq::from_str(text) {
        Ok(req) => Some(req.to_string()),
        Err(_) => None,
    }
}

/// The requirement of the npm package that `specifier` refers to: none for
/// a specifier outside the scheme `npm`, none for one with a long run of
/// digits, which no version has, else what the parser of references finds.
pub open spec fn npm_req(specifier: Seq<char>) -> Option<Seq<char>> {
    if !has_prefix(specifier, "npm:"@) || has_long_number(specifier) {
        None
    } else {
        npm_package_req(specifier)
    }
}

/// The package requirement that `text` states: none for a text with a long
/// run of digits, which no version has, else what the parser of
/// requirements finds.
pub open spec fn stated_package_req(text: Seq<char>) -> Option<Seq<char>> {
    if has_long_number(text) {
        None
    } else {
        package_req(text)
    }
}

/// The requirement of the npm package that `specifier` refers to, where it
/// refers to one.
pub fn npm_req_of_specifier(specifier: &ModuleSpecifier) -> (req: Option<String>)
    ensures
        req.deep_view() == npm_req(specifier@),
{
    if holds_long_number(specifier.as_str()) {
        None
    } else {
        parse_npm_reference(specifier.as_str())
    }
}

/// The package requirement that `text` states, where it states one.
pub fn package_req_from_str(text: &str) -> (req: Option<String>)
    ensures
        req.deep_view() == stated_package_req(text@),
{
    if holds_long_number(text) {
        None
    } else {
        parse_package_req(text)
    }
}

} // verus!
