use portkeeper::config::Config;
use portkeeper::config::LoadPlan;
use portkeeper::config::effective_config;
use portkeeper::config::is_config_complete;
use portkeeper::config::plan_config_load;

#[test]
fn template_config_is_incomplete() {
    let c = Config::default();
    assert_eq!(c.device_port, 0);
    assert_eq!(c.router_port, 0);
    assert!(!is_config_complete(&c));
}

#[test]
fn nonzero_device_port_is_complete() {
    assert!(is_config_complete(&Config { device_port: 8080, router_port: 0 }));
    assert!(is_config_complete(&Config { device_port: 1, router_port: 9000 }));
    assert!(!is_config_complete(&Config { device_port: 0, router_port: 9000 }));
}

#[test]
fn zero_router_port_defaults_to_device_port() {
    let c = effective_config(Config { device_port: 8080, router_port: 0 });
    assert_eq!(c, Config { device_port: 8080, router_port: 8080 });
}

#[test]
fn explicit_router_port_is_kept() {
    let c = effective_config(Config { device_port: 8080, router_port: 9000 });
    assert_eq!(c, Config { device_port: 8080, router_port: 9000 });
}

#[test]
fn missing_file_creates_a_template() {
    let plan = plan_config_load(false, Config::default());
    assert_eq!(plan, LoadPlan::CreateTemplateAndExit);
}

#[test]
fn incomplete_file_is_rewritten() {
    let parsed = Config { device_port: 0, router_port: 9000 };
    assert_eq!(plan_config_load(true, parsed), LoadPlan::RewriteAndExit(parsed));
}

#[test]
fn complete_file_yields_effective_ports() {
    let parsed = Config { device_port: 8080, router_port: 0 };
    assert_eq!(
        plan_config_load(true, parsed),
        LoadPlan::Ready(Config { device_port: 8080, router_port: 8080 })
    );
}
