use nacos_console::requests;

#[test]
fn login_request_parts() {
    assert_eq!(
        requests::login_url("http://localhost:8848"),
        "http://localhost:8848/nacos/v1/auth/login"
    );
    assert_eq!(
        requests::login_body("nacos", "pass-123"),
        "username=nacos&password=pass-123"
    );
}

#[test]
fn namespace_request_parts() {
    assert_eq!(
        requests::namespaces_url("http://localhost:8848"),
        "http://localhost:8848/nacos/v1/console/namespaces"
    );
    assert_eq!(
        requests::namespaces_url_with_token("http://h", "tok"),
        "http://h/nacos/v1/console/namespaces?accessToken=tok"
    );
    assert_eq!(
        requests::create_namespace_body("123", "Test-Namespace", "This is a test namespace"),
        "customNamespaceId=123&namespaceName=Test-Namespace&namespaceDesc=This is a test namespace"
    );
    assert_eq!(
        requests::update_namespace_body("123", "Updated-Namespace", "updated"),
        "namespace=123&namespaceShowName=Updated-Namespace&namespaceDesc=updated"
    );
    assert_eq!(requests::delete_namespace_body("123"), "namespaceId=123");
}

#[test]
fn config_request_parts() {
    let tenant = "8fa56574-e685-495c-833e-42b525b35c1a".to_string();
    assert_eq!(
        requests::config_entry_params(Some(&tenant), "lute-iot-admin.yml", "DEFAULT_GROUP"),
        "tenant=8fa56574-e685-495c-833e-42b525b35c1a&dataId=lute-iot-admin.yml&group=DEFAULT_GROUP"
    );
    assert_eq!(
        requests::config_entry_params(None, "app.yml", "DEFAULT_GROUP"),
        "dataId=app.yml&group=DEFAULT_GROUP"
    );
    assert_eq!(
        requests::publish_config_params(None, "a", "g", "x: 1", "yaml"),
        "dataId=a&group=g&content=x: 1&type=yaml"
    );
    assert_eq!(
        requests::configs_url("http://h", "tok", "dataId=a&group=g"),
        "http://h/nacos/v1/cs/configs?accessToken=tok&dataId=a&group=g"
    );
    assert_eq!(
        requests::list_configs_params("ns-1"),
        "search=accurate&dataId=&group=&pageNo=1&pageSize=100&tenant=ns-1"
    );
}
