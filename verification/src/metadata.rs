//! Derivation of the tunnel identity from the deployment-metadata
//! document: the region is the availability zone with its trailing
//! character stripped, the task suffix is the last path segment of the
//! task identifier, and the tunnel name joins zone, service name and
//! task suffix with dashes.

use vstd::prelude::*;
use vstd::string::*;
use crate::structs::{Args, TunnelConfig};

verus! {

/// Routing target every tunnel is attached to.
pub const TARGET_LB: &'static str = "solidus-dev-testing.wyvrn.net";

/// The region of an availability zone: the zone with its trailing
/// character stripped.  An empty zone stays empty.
pub open spec fn spec_region(az: Seq<char>) -> Seq<char> {
    if az.len() == 0 {
        az
    } else {
        az.subrange(0, az.len() - 1)
    }
}

/// Where the last path segment of `s` starts: just after the last `'/'`,
/// or at the beginning when `s` holds none.
pub open spec fn suffix_start(s: Seq<char>) -> int
    decreases s.len(),
{
    if s.len() == 0 {
        0
    } else if s[s.len() - 1] == '/' {
        s.len() as int
    } else {
        suffix_start(s.drop_last())
    }
}

/// The last path segment of `s`: everything after the last `'/'`, or all
/// of `s` when it holds none.
pub open spec fn spec_task_suffix(s: Seq<char>) -> Seq<char> {
    s.subrange(suffix_start(s), s.len() as int)
}

/// The derived tunnel name: zone, service name and task suffix joined
/// with dashes.
pub open spec fn spec_tunnel_name(az: Seq<char>, service: Seq<char>, suffix: Seq<char>) -> Seq<
    char,
> {
    az + "-"@ + service + "-"@ + suffix
}

/// `suffix_start` points just after a `'/'` (or at the start), and no
/// `'/'` occurs at or after it.
pub proof fn lemma_suffix_start(s: Seq<char>)
    ensures
        0 <= suffix_start(s) <= s.len(),
        suffix_start(s) > 0 ==> s[suffix_start(s) - 1] == '/',
        forall|k: int| suffix_start(s) <= k < s.len() ==> s[k] != '/',
    decreases s.len(),
{
    if s.len() > 0 && s[s.len() - 1] != '/' {
        lemma_suffix_start(s.drop_last());
        assert forall|k: int| suffix_start(s) <= k < s.len() implies s[k] != '/' by {
            if k < s.len() - 1 {
                assert(s.drop_last()[k] == s[k]);
            }
        }
    }
}

/// Strip the trailing character of an availability zone to get its
/// region.
pub fn region_of_zone(az: &str) -> (r: String)
    ensures
        r@ == spec_region(az@),
{
    let n = az.unicode_len();
    if n == 0 {
        az.to_owned()
    } else {
        az.substring_char(0, n - 1).to_owned()
    }
}

/// The last path segment of a task identifier.
pub fn task_suffix(arn: &str) -> (r: String)
    ensures
        r@ == spec_task_suffix(arn@),
{
    proof {
        lemma_suffix_start(arn@);
    }
    let n = arn.unicode_len();
    let mut j: usize = n;
    let mut cut: usize = 0;
    let mut found = false;
    while j > 0 && !found
        invariant
            j <= n,
            n == arn@.len(),
            found ==> j >= 1 && arn@[j - 1] == '/' && cut == j,
            !found ==> cut == 0,
            forall|k: int| j <= k < n ==> arn@[k] != '/',
        decreases j + (if found { 0int } else { 1int }),
    {
        if arn.get_char(j - 1) == '/' {
            cut = j;
            found = true;
        } else {
            j = j - 1;
        }
    }
    proof {
        if found {
            if suffix_start(arn@) > cut {
                assert(arn@[suffix_start(arn@) - 1] == '/');
            }
            assert(suffix_start(arn@) == cut);
        } else {
            if suffix_start(arn@) > 0 {
                assert(arn@[suffix_start(arn@) - 1] == '/');
            }
            assert(suffix_start(arn@) == 0);
        }
    }
    arn.substring_char(cut, n).to_owned()
}

/// Join zone, service name and task suffix into the tunnel name.
pub fn tunnel_name_of(az: &str, service: &str, suffix: &str) -> (r: String)
    ensures
        r@ == spec_tunnel_name(az@, service@, suffix@),
{
    let mut r = az.to_owned();
    r.append("-");
    r.append(service);
    r.append("-");
    r.append(suffix);
    r
}

/// Build the tunnel configuration for one supervision run from the
/// command-line arguments and the metadata fields.  The configuration is
/// well formed whenever the zone has at least two characters and the
/// target URL is non-empty.
pub fn build_tunnel_config(args: &Args, az: &str, task_arn: &str) -> (c: TunnelConfig)
    ensures
        c.tunnel_name@ == spec_tunnel_name(az@, args.service_name@, spec_task_suffix(task_arn@)),
        c.target_lb@ == TARGET_LB@,
        c.target_pool@ == spec_region(az@),
        c.url@ == args.target_url@,
        az@.len() >= 2 && args.target_url@.len() > 0 ==> c.wf(),
{
    let suffix = task_suffix(task_arn);
    let c = TunnelConfig {
        tunnel_name: tunnel_name_of(az, args.service_name.as_str(), suffix.as_str()),
        target_lb: TARGET_LB.to_owned(),
        target_pool: region_of_zone(az),
        url: args.target_url.clone(),
    };
    proof {
        reveal_strlit("solidus-dev-testing.wyvrn.net");
        reveal_strlit("-");
        assert(c.tunnel_name@.len() > 0);
    }
    c
}

} // verus!
