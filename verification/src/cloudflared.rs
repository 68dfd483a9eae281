//! Command plans issued against the external control-plane client.
//!
//! The library decides which client invocations are made and in what
//! order; the surrounding program executes each command of a plan in
//! order, stopping at the first one that exits non-zero, and treats a
//! plan as failed exactly when one of its commands failed.

use vstd::prelude::*;
use vstd::string::*;
use crate::structs::TunnelConfig;

verus! {

/// Path of the external control-plane client binary.
pub const CLOUDFLARED_PATH: &'static str = "/usr/local/bin/cloudflared";

/// View of one command: the sequence of argument words handed to the
/// client binary.
pub open spec fn cmd_view(c: Seq<String>) -> Seq<Seq<char>> {
    c.map_values(|s: String| s@)
}

/// View of a plan: its commands, in order.
pub open spec fn plan_view(p: Seq<Vec<String>>) -> Seq<Seq<Seq<char>>> {
    p.map_values(|c: Vec<String>| cmd_view(c@))
}

/// The create-tunnel command.
pub open spec fn spec_create_cmd(name: Seq<char>) -> Seq<Seq<char>> {
    seq!["tunnel"@, "create"@, "--output=json"@, name]
}

/// The attach-to-pool command: route the tunnel to the load balancer
/// under the given pool.
pub open spec fn spec_attach_cmd(name: Seq<char>, lb: Seq<char>, pool: Seq<char>) -> Seq<
    Seq<char>,
> {
    seq!["tunnel"@, "route"@, "lb"@, name, lb, pool]
}

/// The cleanup command.
pub open spec fn spec_cleanup_cmd(name: Seq<char>) -> Seq<Seq<char>> {
    seq!["tunnel"@, "cleanup"@, name]
}

/// The forced delete command.
pub open spec fn spec_delete_cmd(name: Seq<char>) -> Seq<Seq<char>> {
    seq!["tunnel"@, "delete"@, "--force"@, name]
}

/// The long-running invocation the agent is launched with.  The metrics
/// endpoint is bound to the local port named by
/// `crate::supervisor::METRICS_PORT`.
pub open spec fn spec_run_cmd(name: Seq<char>, url: Seq<char>) -> Seq<Seq<char>> {
    seq![
        "tunnel"@,
        "--no-autoupdate"@,
        "--metrics=localhost:9981"@,
        "run"@,
        "--url="@ + url,
        name,
    ]
}

/// The provisioning plan: create the tunnel, then attach it to the load
/// balancer pool, in that order.
pub open spec fn spec_provision_plan(c: TunnelConfig) -> Seq<Seq<Seq<char>>> {
    seq![
        spec_create_cmd(c.tunnel_name@),
        spec_attach_cmd(c.tunnel_name@, c.target_lb@, c.target_pool@),
    ]
}

/// The deprovisioning plan: clean the tunnel up, then delete it
/// forcefully, in that order.
pub open spec fn spec_deprovision_plan(c: TunnelConfig) -> Seq<Seq<Seq<char>>> {
    seq![spec_cleanup_cmd(c.tunnel_name@), spec_delete_cmd(c.tunnel_name@)]
}

/// The two commands that provision routing state before supervision
/// starts.  The second is only attempted after the first succeeded, and
/// a failure of either fails provisioning with no rollback of the first.
pub fn cloudflared_create_tunnel(config: &TunnelConfig) -> (plan: Vec<Vec<String>>)
    ensures
        plan_view(plan@) == spec_provision_plan(*config),
        plan@.len() == 2,
{
    let mut create: Vec<String> = Vec::new();
    create.push("tunnel".to_owned());
    create.push("create".to_owned());
    create.push("--output=json".to_owned());
    create.push(config.tunnel_name.clone());
    let mut attach: Vec<String> = Vec::new();
    attach.push("tunnel".to_owned());
    attach.push("route".to_owned());
    attach.push("lb".to_owned());
    attach.push(config.tunnel_name.clone());
    attach.push(config.target_lb.clone());
    attach.push(config.target_pool.clone());
    let mut plan: Vec<Vec<String>> = Vec::new();
    proof {
        assert(cmd_view(create@) =~= spec_create_cmd(config.tunnel_name@));
        assert(cmd_view(attach@) =~= spec_attach_cmd(
            config.tunnel_name@,
            config.target_lb@,
            config.target_pool@,
        ));
    }
    plan.push(create);
    plan.push(attach);
    proof {
        assert(plan_view(plan@) =~= spec_provision_plan(*config));
    }
    plan
}

/// The two commands that tear routing state down after supervision ends:
/// cleanup, then forced delete.  Best effort: a failure here is reported
/// but does not change the outcome of the supervision run that preceded
/// it.
pub fn cloudflared_delete_tunnel(config: &TunnelConfig) -> (plan: Vec<Vec<String>>)
    ensures
        plan_view(plan@) == spec_deprovision_plan(*config),
        plan@.len() == 2,
{
    let mut cleanup: Vec<String> = Vec::new();
    cleanup.push("tunnel".to_owned());
    cleanup.push("cleanup".to_owned());
    cleanup.push(config.tunnel_name.clone());
    let mut delete: Vec<String> = Vec::new();
    delete.push("tunnel".to_owned());
    delete.push("delete".to_owned());
    delete.push("--force".to_owned());
    delete.push(config.tunnel_name.clone());
    let mut plan: Vec<Vec<String>> = Vec::new();
    proof {
        assert(cmd_view(cleanup@) =~= spec_cleanup_cmd(config.tunnel_name@));
        assert(cmd_view(delete@) =~= spec_delete_cmd(config.tunnel_name@));
    }
    plan.push(cleanup);
    plan.push(delete);
    proof {
        assert(plan_view(plan@) =~= spec_deprovision_plan(*config));
    }
    plan
}

/// The argument words the agent process is spawned with.
pub fn run_args(config: &TunnelConfig) -> (args: Vec<String>)
    ensures
        cmd_view(args@) == spec_run_cmd(config.tunnel_name@, config.url@),
{
    let mut url_arg = "--url=".to_owned();
    url_arg.append(config.url.as_str());
    let mut args: Vec<String> = Vec::new();
    args.push("tunnel".to_owned());
    args.push("--no-autoupdate".to_owned());
    args.push("--metrics=localhost:9981".to_owned());
    args.push("run".to_owned());
    args.push(url_arg);
    args.push(config.tunnel_name.clone());
    proof {
        assert(cmd_view(args@) =~= spec_run_cmd(config.tunnel_name@, config.url@));
    }
    args
}

/// Deprovisioning invokes cleanup first and forced delete second, each
/// exactly once: no other position of the plan holds either command.
pub proof fn lemma_deprovision_cleanup_then_delete(c: TunnelConfig)
    ensures
        spec_deprovision_plan(c).len() == 2,
        spec_deprovision_plan(c)[0] == spec_cleanup_cmd(c.tunnel_name@),
        spec_deprovision_plan(c)[1] == spec_delete_cmd(c.tunnel_name@),
        forall|i: int|
            0 <= i < spec_deprovision_plan(c).len() ==> (spec_deprovision_plan(c)[i]
                == spec_cleanup_cmd(c.tunnel_name@) <==> i == 0),
        forall|i: int|
            0 <= i < spec_deprovision_plan(c).len() ==> (spec_deprovision_plan(c)[i]
                == spec_delete_cmd(c.tunnel_name@) <==> i == 1),
{
    assert(spec_cleanup_cmd(c.tunnel_name@).len() == 3);
    assert(spec_delete_cmd(c.tunnel_name@).len() == 4);
}

/// Provisioning invokes create first and attach second, each exactly
/// once.
pub proof fn lemma_provision_create_then_attach(c: TunnelConfig)
    ensures
        spec_provision_plan(c).len() == 2,
        spec_provision_plan(c)[0] == spec_create_cmd(c.tunnel_name@),
        spec_provision_plan(c)[1] == spec_attach_cmd(c.tunnel_name@, c.target_lb@, c.target_pool@),
{
}

} // verus!
