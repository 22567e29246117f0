use workload_identity::res_type::ResType;

#[test]
fn container_is_spelled_in_lower_case() {
    assert_eq!(ResType::Container.to_str(), "container");
}
