use physobx_core::version;

#[test]
fn version_is_the_package_version() {
    assert_eq!(version(), "0.1.0");
    assert_eq!(version(), physobx_core::VERSION);
}
