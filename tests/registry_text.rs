use release_installer::pipeline::DEVICE_PATH;
use release_installer::registry::{asset_url, bearer, decimal_string, install_command, releases_url};

#[test]
fn releases_url_names_repository() {
    assert_eq!(releases_url("acme", "tool"), "https://api.github.com/repos/acme/tool/releases");
}

#[test]
fn asset_url_names_asset() {
    assert_eq!(
        asset_url("acme", "tool", 123456),
        "https://api.github.com/repos/acme/tool/releases/assets/123456"
    );
}

#[test]
fn decimal_string_formats() {
    assert_eq!(decimal_string(0), "0");
    assert_eq!(decimal_string(7), "7");
    assert_eq!(decimal_string(10), "10");
    assert_eq!(decimal_string(-1), "-1");
    assert_eq!(decimal_string(i32::MAX), "2147483647");
    assert_eq!(decimal_string(i32::MIN), "-2147483648");
}

#[test]
fn bearer_header() {
    assert_eq!(bearer("abc"), "Bearer abc");
}

#[test]
fn install_command_on_device_path() {
    assert_eq!(install_command(DEVICE_PATH), "pm install -r /data/local/tmp/app.apk");
}
