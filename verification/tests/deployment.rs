use opendesk::deployment::filename_config::generate_filename_custom_server;
use opendesk::deployment::macos_script::{render_macos_deployment_script, MacosDeploymentScriptInput};
use opendesk::deployment::linux_script::{render_linux_deployment_script, LinuxDeploymentScriptInput};
use opendesk::deployment::windows_script::{
    render_windows_deployment_script, WindowsDeploymentScriptInput,
};
use opendesk::domain::server_config::default_server_config;

#[test]
fn filename_includes_host_key_and_relay() {
    let mut config = default_server_config();
    config.public_key = "PUBLICKEY".to_string();
    let name = generate_filename_custom_server(&config);
    assert!(name.starts_with("rustdesk-host=rd.example.com,"));
    assert!(name.contains("key=PUBLICKEY"));
    assert!(name.contains("relay=rd.example.com"));
    assert!(name.ends_with(".exe"));
}

#[test]
fn filename_includes_api_when_configured() {
    let mut config = default_server_config();
    config.public_key = "PUBLICKEY".to_string();
    config.api_server = "https://api.example.net".to_string();
    let name = generate_filename_custom_server(&config);
    assert!(name.contains("api=https://api.example.net"));
}

#[test]
fn render_linux_deployment_script_includes_server_values() {
    let config = default_server_config();
    let script = render_linux_deployment_script(&LinuxDeploymentScriptInput {
        server_config: &config,
        enrollment_token: "test-enrollment-token",
        opendesk_base_url: "https://rd-admin.example.com",
    });
    assert!(script.contains("custom-rendezvous-server"));
    assert!(script.contains("rd.example.com"));
    assert!(script.contains("/api/enrollments/check-in"));
    assert!(script.contains("opendesk enrollment check-in http_status="));
    assert!(script.contains("test-enrollment-token"));
}

#[test]
fn render_windows_deployment_script_includes_server_values() {
    let config = default_server_config();
    let script = render_windows_deployment_script(&WindowsDeploymentScriptInput {
        server_config: &config,
        enrollment_token: "test-enrollment-token",
        opendesk_base_url: "https://rd-admin.example.com",
    });
    assert!(script.contains("custom-rendezvous-server"));
    assert!(script.contains("rd.example.com"));
    assert!(script.contains("/api/enrollments/check-in"));
    assert!(script.contains("test-enrollment-token"));
}

#[test]
fn filename_exact_for_default_config_with_key() {
    let mut config = default_server_config();
    config.public_key = "PUBLICKEY".to_string();
    assert_eq!(
        generate_filename_custom_server(&config),
        "rustdesk-host=rd.example.com,key=PUBLICKEY,relay=rd.example.com.exe"
    );
}

#[test]
fn scripts_place_base_url_and_token_in_order() {
    let config = default_server_config();
    let script = render_linux_deployment_script(&LinuxDeploymentScriptInput {
        server_config: &config,
        enrollment_token: "tok-123",
        opendesk_base_url: "https://admin.test",
    });
    let base = script.find("https://admin.test").expect("base url");
    let token = script.find("tok-123").expect("token");
    assert!(base < token);
}

#[test]
fn render_macos_deployment_script_reports_macos() {
    let config = default_server_config();
    let script = render_macos_deployment_script(&MacosDeploymentScriptInput {
        server_config: &config,
        enrollment_token: "test-enrollment-token",
        opendesk_base_url: "https://rd-admin.example.com",
    });
    assert!(script.contains("OS_FAMILY=\"macos\""));
    assert!(script.contains("custom-rendezvous-server"));
    assert!(script.contains("ID_SERVER=\"rd.example.com\""));
    assert!(script.contains("/api/enrollments/check-in"));
    assert!(script.contains("test-enrollment-token"));
}
