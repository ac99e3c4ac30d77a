use vstd::prelude::*;

use crate::api::DnsRecordId;
use crate::text::{spec_decimal, u32_decimal};

verus! {

/// `s` with every trailing `'/'` removed.
pub open spec fn spec_trim_trailing_slashes(s: Seq<char>) -> Seq<char>
    decreases s.len(),
{
    if s.len() > 0 && s.last() == '/' {
        spec_trim_trailing_slashes(s.drop_last())
    } else {
        s
    }
}

/// The path under the base that the list and create endpoints share.
pub open spec fn spec_records_path(domain: Seq<char>) -> Seq<char> {
    "/my/products/"@ + domain + "/dns/records"@
}

/// The address of the record collection of `domain`; list and create target
/// it.
pub open spec fn spec_records_url(base: Seq<char>, domain: Seq<char>) -> Seq<char> {
    spec_trim_trailing_slashes(base) + spec_records_path(domain)
}

/// The address of one existing record; update and delete target it, with the
/// identifier rendered as its decimal numeric value.
pub open spec fn spec_record_url(base: Seq<char>, domain: Seq<char>, id: u32) -> Seq<char> {
    spec_records_url(base, domain) + "/"@ + spec_decimal(id as nat)
}

/// Returns `base` with trailing separators trimmed away.
fn trim_trailing_slashes(s: &str) -> (r: &str)
    ensures
        r@ == spec_trim_trailing_slashes(s@),
{
    let mut n = s.unicode_len();
    proof {
        assert(s@.take(n as int) =~= s@);
    }
    while n > 0 && s.get_char(n - 1) == '/'
        invariant
            n <= s@.len(),
            spec_trim_trailing_slashes(s@) == spec_trim_trailing_slashes(s@.take(n as int)),
        decreases n,
    {
        proof {
            assert(s@.take(n as int).drop_last() =~= s@.take(n - 1));
            assert(s@.take(n as int).last() == '/');
        }
        n = n - 1;
    }
    let r = s.substring_char(0, n);
    proof {
        if n > 0 {
            assert(s@.take(n as int).last() != '/');
        }
        assert(r@ == s@.take(n as int));
    }
    r
}

/// Builds the list/create address for `domain` under `base`.
pub fn records_url(base: &str, domain: &str) -> (r: String)
    ensures
        r@ == spec_records_url(base@, domain@),
{
    let t = trim_trailing_slashes(base);
    let mut r = String::from_str(t);
    r.append("/my/products/");
    r.append(domain);
    r.append("/dns/records");
    proof {
        assert(r@ =~= spec_records_url(base@, domain@));
    }
    r
}

/// Builds the update/delete address of the record `id` of `domain` under
/// `base`.
pub fn record_url(base: &str, domain: &str, id: &DnsRecordId) -> (r: String)
    ensures
        r@ == spec_record_url(base@, domain@, id@),
{
    let mut r = records_url(base, domain);
    r.append("/");
    let digits = u32_decimal(id.value());
    r.append(digits.as_str());
    proof {
        assert(r@ =~= spec_record_url(base@, domain@, id@));
    }
    r
}

/// Law: the list/create address does not depend on a trailing separator of
/// the base.  For a base that does not end in `'/'`, the address is plainly
/// `base + "/my/products/" + domain + "/dns/records"`, and appending a
/// trailing `'/'` to the base leaves the address unchanged.
pub proof fn lemma_records_url_trailing_slash(base: Seq<char>, domain: Seq<char>)
    requires
        base.len() == 0 || base.last() != '/',
    ensures
        spec_records_url(base, domain) == base + spec_records_path(domain),
        spec_records_url(base + "/"@, domain) == base + spec_records_path(domain),
{
    reveal_strlit("/");
    assert((base + "/"@).last() == '/');
    assert((base + "/"@).drop_last() =~= base);
}

/// Law: trimming removes any number of trailing separators, one at a time.
pub proof fn lemma_trim_append_slash(s: Seq<char>)
    ensures
        spec_trim_trailing_slashes(s + "/"@) == spec_trim_trailing_slashes(s),
{
    reveal_strlit("/");
    assert((s + "/"@).last() == '/');
    assert((s + "/"@).drop_last() =~= s);
}

} // verus!
