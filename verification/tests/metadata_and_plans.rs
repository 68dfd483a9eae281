use tunnel_sidecar::cloudflared::{cloudflared_create_tunnel, cloudflared_delete_tunnel, run_args};
use tunnel_sidecar::health::{classify_probe, health_wait_ticks, HealthState};
use tunnel_sidecar::metadata::{build_tunnel_config, region_of_zone, task_suffix, tunnel_name_of};
use tunnel_sidecar::structs::{Args, TunnelConfig};

fn sample_args() -> Args {
    Args {
        service_name: "checkout".to_string(),
        target_url: "http://localhost:8080".to_string(),
        health_delay: 0,
    }
}

#[test]
fn tunnel_name_and_pool_from_metadata() {
    let args = sample_args();
    let cfg = build_tunnel_config(
        &args,
        "us-east-1a",
        "arn:aws:ecs:us-east-1:123456789012:task/prod/abc123",
    );
    assert_eq!(cfg.tunnel_name, "us-east-1a-checkout-abc123");
    assert_eq!(cfg.target_pool, "us-east-1");
    assert_eq!(cfg.target_lb, "solidus-dev-testing.wyvrn.net");
    assert_eq!(cfg.url, "http://localhost:8080");
}

#[test]
fn region_strips_trailing_character() {
    assert_eq!(region_of_zone("us-east-1a"), "us-east-1");
    assert_eq!(region_of_zone("x"), "");
    assert_eq!(region_of_zone(""), "");
}

#[test]
fn task_suffix_takes_last_path_segment() {
    assert_eq!(task_suffix("a/b/c"), "c");
    assert_eq!(task_suffix("no-slash-here"), "no-slash-here");
    assert_eq!(task_suffix("trailing/"), "");
    assert_eq!(task_suffix(""), "");
}

#[test]
fn tunnel_name_joins_with_dashes() {
    assert_eq!(tunnel_name_of("az", "svc", "tail"), "az-svc-tail");
    assert_eq!(tunnel_name_of("", "", ""), "--");
}

fn sample_config() -> TunnelConfig {
    TunnelConfig {
        tunnel_name: "us-east-1a-checkout-abc123".to_string(),
        target_lb: "solidus-dev-testing.wyvrn.net".to_string(),
        target_pool: "us-east-1".to_string(),
        url: "http://localhost:8080".to_string(),
    }
}

#[test]
fn provision_plan_creates_then_attaches() {
    let plan = cloudflared_create_tunnel(&sample_config());
    assert_eq!(plan.len(), 2);
    assert_eq!(
        plan[0],
        vec![
            "tunnel".to_string(),
            "create".to_string(),
            "--output=json".to_string(),
            "us-east-1a-checkout-abc123".to_string(),
        ]
    );
    assert_eq!(
        plan[1],
        vec![
            "tunnel".to_string(),
            "route".to_string(),
            "lb".to_string(),
            "us-east-1a-checkout-abc123".to_string(),
            "solidus-dev-testing.wyvrn.net".to_string(),
            "us-east-1".to_string(),
        ]
    );
}

#[test]
fn deprovision_plan_cleans_up_then_deletes_once_each() {
    let plan = cloudflared_delete_tunnel(&sample_config());
    assert_eq!(plan.len(), 2);
    let cleanup = vec![
        "tunnel".to_string(),
        "cleanup".to_string(),
        "us-east-1a-checkout-abc123".to_string(),
    ];
    let delete = vec![
        "tunnel".to_string(),
        "delete".to_string(),
        "--force".to_string(),
        "us-east-1a-checkout-abc123".to_string(),
    ];
    assert_eq!(plan[0], cleanup);
    assert_eq!(plan[1], delete);
    assert_eq!(plan.iter().filter(|c| **c == cleanup).count(), 1);
    assert_eq!(plan.iter().filter(|c| **c == delete).count(), 1);
}

#[test]
fn run_args_match_launch_template() {
    let args = run_args(&sample_config());
    assert_eq!(
        args,
        vec![
            "tunnel".to_string(),
            "--no-autoupdate".to_string(),
            "--metrics=localhost:9981".to_string(),
            "run".to_string(),
            "--url=http://localhost:8080".to_string(),
            "us-east-1a-checkout-abc123".to_string(),
        ]
    );
}

#[test]
fn probe_classification_follows_status_range() {
    assert_eq!(classify_probe(true, 200), HealthState::Healthy);
    assert_eq!(classify_probe(true, 204), HealthState::Healthy);
    assert_eq!(classify_probe(true, 299), HealthState::Healthy);
    assert_eq!(classify_probe(true, 199), HealthState::Unhealthy(199));
    assert_eq!(classify_probe(true, 300), HealthState::Unhealthy(300));
    assert_eq!(classify_probe(true, 503), HealthState::Unhealthy(503));
    assert_eq!(classify_probe(false, 200), HealthState::Unhealthy(0));
}

#[test]
fn health_wait_polls_every_two_seconds() {
    assert_eq!(health_wait_ticks(0), 0);
    assert_eq!(health_wait_ticks(1), 0);
    assert_eq!(health_wait_ticks(10), 5);
    assert_eq!(health_wait_ticks(11), 5);
}
