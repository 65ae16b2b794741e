//! Building the requests the remote calls send: URLs and form bodies.
//!
//! The I/O boundary only transports what is built here; every URL and body
//! is pinned down exactly, as a concatenation of the caller's values.

use vstd::prelude::*;
use vstd::string::*;

verus! {

/// The login endpoint under a base URL.
pub fn login_url(base: &str) -> (r: String)
    ensures
        r@ == base@ + "/nacos/v1/auth/login"@,
{
    let mut r = String::from_str(base);
    r.append("/nacos/v1/auth/login");
    r
}

/// The login form body for a username and a password.
pub fn login_body(username: &str, password: &str) -> (r: String)
    ensures
        r@ == "username="@ + username@ + "&password="@ + password@,
{
    let mut r = String::from_str("username=");
    r.append(username);
    r.append("&password=");
    r.append(password);
    r
}

/// The namespace listing endpoint under a base URL.
pub fn namespaces_url(base: &str) -> (r: String)
    ensures
        r@ == base@ + "/nacos/v1/console/namespaces"@,
{
    let mut r = String::from_str(base);
    r.append("/nacos/v1/console/namespaces");
    r
}

/// The namespace management endpoint, carrying the access token.
pub fn namespaces_url_with_token(base: &str, access_token: &str) -> (r: String)
    ensures
        r@ == base@ + "/nacos/v1/console/namespaces?accessToken="@ + access_token@,
{
    let mut r = String::from_str(base);
    r.append("/nacos/v1/console/namespaces?accessToken=");
    r.append(access_token);
    r
}

/// The form body of a namespace create call.
pub fn create_namespace_body(ns_id: &str, ns_name: &str, ns_desc: &str) -> (r: String)
    ensures
        r@ == "customNamespaceId="@ + ns_id@ + "&namespaceName="@ + ns_name@
            + "&namespaceDesc="@ + ns_desc@,
{
    let mut r = String::from_str("customNamespaceId=");
    r.append(ns_id);
    r.append("&namespaceName=");
    r.append(ns_name);
    r.append("&namespaceDesc=");
    r.append(ns_desc);
    r
}

/// The form body of a namespace update call.
pub fn update_namespace_body(ns_id: &str, ns_name: &str, ns_desc: &str) -> (r: String)
    ensures
        r@ == "namespace="@ + ns_id@ + "&namespaceShowName="@ + ns_name@ + "&namespaceDesc="@
            + ns_desc@,
{
    let mut r = String::from_str("namespace=");
    r.append(ns_id);
    r.append("&namespaceShowName=");
    r.append(ns_name);
    r.append("&namespaceDesc=");
    r.append(ns_desc);
    r
}

/// The form body of a namespace delete call.
pub fn delete_namespace_body(ns_id: &str) -> (r: String)
    ensures
        r@ == "namespaceId="@ + ns_id@,
{
    let mut r = String::from_str("namespaceId=");
    r.append(ns_id);
    r
}

/// The query parameters naming one configuration entry. Without a
/// namespace id the default (public) namespace is addressed.
pub fn config_entry_params(ns_id: Option<&String>, data_id: &str, group: &str) -> (r: String)
    ensures
        r@ == match ns_id {
            Some(t) => "tenant="@ + t@ + "&dataId="@ + data_id@ + "&group="@ + group@,
            None => "dataId="@ + data_id@ + "&group="@ + group@,
        },
{
    let mut r = match ns_id {
        Some(t) => {
            let mut s = String::from_str("tenant=");
            s.append(t.as_str());
            s.append("&dataId=");
            s
        },
        None => String::from_str("dataId="),
    };
    r.append(data_id);
    r.append("&group=");
    r.append(group);
    r
}

/// The query parameters publishing one configuration entry, with its
/// content and format.
pub fn publish_config_params(
    ns_id: Option<&String>,
    data_id: &str,
    group: &str,
    content: &str,
    type_: &str,
) -> (r: String)
    ensures
        r@ == match ns_id {
            Some(t) => "tenant="@ + t@ + "&dataId="@ + data_id@ + "&group="@ + group@
                + "&content="@ + content@ + "&type="@ + type_@,
            None => "dataId="@ + data_id@ + "&group="@ + group@ + "&content="@ + content@
                + "&type="@ + type_@,
        },
{
    let mut r = config_entry_params(ns_id, data_id, group);
    r.append("&content=");
    r.append(content);
    r.append("&type=");
    r.append(type_);
    r
}

/// The configuration endpoint under a base URL, carrying the access token
/// and the given query parameters.
pub fn configs_url(base: &str, access_token: &str, params: &str) -> (r: String)
    ensures
        r@ == base@ + "/nacos/v1/cs/configs?accessToken="@ + access_token@ + "&"@ + params@,
{
    let mut r = String::from_str(base);
    r.append("/nacos/v1/cs/configs?accessToken=");
    r.append(access_token);
    r.append("&");
    r.append(params);
    r
}

/// The query parameters of a configuration listing for one namespace.
pub fn list_configs_params(ns_id: &str) -> (r: String)
    ensures
        r@ == "search=accurate&dataId=&group=&pageNo=1&pageSize=100&tenant="@ + ns_id@,
{
    let mut r = String::from_str("search=accurate&dataId=&group=&pageNo=1&pageSize=100&tenant=");
    r.append(ns_id);
    r
}

} // verus!
