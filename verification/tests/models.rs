use iam_sdk_rust::api::meta::{CeateOperationMeta, GetOperationMeta, TypeMeta};
use iam_sdk_rust::api::policy::PolicyInfo;

#[test]
fn type_meta_default() {
    let m = TypeMeta::default();
    assert_eq!(m.kind, "test");
    assert_eq!(m.api_version, "v1+test");
}

#[test]
fn get_options_default() {
    let o = GetOperationMeta::default();
    assert_eq!(o.meta.kind, "test");
    assert_eq!(o.meta.api_version, "v1+test");
}

#[test]
fn create_options_default() {
    let o = CeateOperationMeta::default();
    assert_eq!(o.meta.kind, "test");
    assert_eq!(o.meta.api_version, "v1+test");
    assert!(o.dray_run.is_empty());
}

#[test]
fn policy_info_default_is_empty() {
    let p = PolicyInfo::default();
    assert_eq!(p.id, "");
    assert_eq!(p.description, "");
    assert!(p.subjects.is_empty());
    assert_eq!(p.effect, "");
    assert!(p.resources.is_empty());
    assert!(p.actions.is_empty());
    assert!(p.conditions.is_empty());
    assert!(p.meta.is_empty());
}
