use exposed_app_operator::k8s_client::{lease_patch_body, K8sClientError};

struct FakeLease {
    resource_version: u64,
    holder: Option<String>,
    acquire_time: Option<String>,
}

fn apply(lease: &mut FakeLease, body: &str) -> u16 {
    let patch: serde_json::Value = serde_json::from_str(body).unwrap();
    let operations = patch.as_array().unwrap();
    let mut holder = lease.holder.clone();
    let mut acquire_time = lease.acquire_time.clone();
    for operation in operations {
        let op = operation["op"].as_str().unwrap();
        let path = operation["path"].as_str().unwrap();
        let value = operation["value"].as_str().unwrap();
        match (op, path) {
            ("test", "/metadata/resourceVersion") => {
                if value != lease.resource_version.to_string() {
                    return 409;
                }
            }
            ("add", "/spec/holderIdentity") => holder = Some(value.to_string()),
            ("add", "/spec/acquireTime") => acquire_time = Some(value.to_string()),
            _ => return 422,
        }
    }
    lease.holder = holder;
    lease.acquire_time = acquire_time;
    lease.resource_version += 1;
    200
}

#[test]
fn the_patch_has_exactly_the_three_operations() {
    let body = lease_patch_body("7", "pod-a", "2024-01-01T00:00:00.000000Z");
    let patch: serde_json::Value = serde_json::from_str(&body).unwrap();
    let operations = patch.as_array().unwrap();
    assert_eq!(operations.len(), 3);
    assert_eq!(operations[0]["op"], "test");
    assert_eq!(operations[0]["path"], "/metadata/resourceVersion");
    assert_eq!(operations[0]["value"], "7");
    assert_eq!(operations[1]["op"], "add");
    assert_eq!(operations[1]["path"], "/spec/holderIdentity");
    assert_eq!(operations[1]["value"], "pod-a");
    assert_eq!(operations[2]["op"], "add");
    assert_eq!(operations[2]["path"], "/spec/acquireTime");
    assert_eq!(operations[2]["value"], "2024-01-01T00:00:00.000000Z");
}

#[test]
fn the_same_patch_applied_twice_succeeds_once_and_then_conflicts() {
    let mut lease = FakeLease { resource_version: 7, holder: None, acquire_time: None };
    let body = lease_patch_body("7", "pod-a", "2024-01-01T00:00:00.000000Z");
    let first = apply(&mut lease, &body);
    let second = apply(&mut lease, &body);
    assert!(K8sClientError::from_status(first, "").is_none());
    assert!(matches!(K8sClientError::from_status(second, ""), Some(K8sClientError::Conflict)));
    assert_eq!(lease.holder.as_deref(), Some("pod-a"));
    assert_eq!(lease.acquire_time.as_deref(), Some("2024-01-01T00:00:00.000000Z"));
    assert_eq!(lease.resource_version, 8);
}

#[test]
fn a_holder_with_quotes_survives_the_patch() {
    let mut lease = FakeLease { resource_version: 1, holder: None, acquire_time: None };
    let body = lease_patch_body("1", "pod \"a\"\\", "t");
    assert_eq!(apply(&mut lease, &body), 200);
    assert_eq!(lease.holder.as_deref(), Some("pod \"a\"\\"));
}
