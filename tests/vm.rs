use nanocl_tasks::version::daemon_version_text;
use nanocl_tasks::vm::{HttpMethod, NanocldClient};

fn client() -> NanocldClient {
    NanocldClient::new("v0.13".to_string())
}

#[test]
fn collection_requests() {
    let c = client();
    let r = c.create_vm(Some("global".to_string()));
    assert_eq!(r.method, HttpMethod::Post);
    assert_eq!(r.path, "/v0.13/vms");
    assert_eq!(r.namespace, Some("global".to_string()));
    let r = c.list_vm(None);
    assert_eq!(r.method, HttpMethod::Get);
    assert_eq!(r.path, "/v0.13/vms");
    assert_eq!(r.namespace, None);
}

#[test]
fn item_requests() {
    let c = client();
    let r = c.delete_vm("vm1", None);
    assert_eq!(r.method, HttpMethod::Delete);
    assert_eq!(r.path, "/v0.13/vms/vm1");
    let r = c.patch_vm("vm1", Some("dev".to_string()));
    assert_eq!(r.method, HttpMethod::Patch);
    assert_eq!(r.path, "/v0.13/vms/vm1");
    assert_eq!(r.namespace, Some("dev".to_string()));
}

#[test]
fn action_requests() {
    let c = client();
    let r = c.inspect_vm("vm1", None);
    assert_eq!(r.method, HttpMethod::Get);
    assert_eq!(r.path, "/v0.13/vms/vm1/inspect");
    let r = c.start_vm("vm1", None);
    assert_eq!(r.method, HttpMethod::Post);
    assert_eq!(r.path, "/v0.13/vms/vm1/start");
    let r = c.stop_vm("vm1", None);
    assert_eq!(r.path, "/v0.13/vms/vm1/stop");
    let r = c.attach_vm("vm1", None);
    assert_eq!(r.method, HttpMethod::Post);
    assert_eq!(r.path, "/v0.13/vms/vm1/attach");
}

#[test]
fn version_report() {
    let t = daemon_version_text("x86_64", "stable", "0.13.0", "abc123");
    assert_eq!(t, "Arch: x86_64\nChannel: stable\nVersion: 0.13.0\nCommit ID: abc123");
}

#[test]
fn request_target_carries_namespace() {
    let c = client();
    assert_eq!(c.start_vm("vm1", Some("dev".to_string())).target(), "/v0.13/vms/vm1/start?namespace=dev");
    assert_eq!(c.list_vm(None).target(), "/v0.13/vms");
}
