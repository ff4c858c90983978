use bedrockci::download::download_gate;
use bedrockci::download::extract_server_version;
use bedrockci::download::get_download_url;
use bedrockci::download::ServerDownloadError;
use bedrockci::errors::ValidationError;
use bedrockci::format_version_message;
use bedrockci::is_ubuntu_os_release;
use bedrockci::server::select_version;

#[test]
fn download_url_is_exact() {
    assert_eq!(
        get_download_url("1.21.84.1"),
        "https://www.minecraft.net/bedrockdedicatedserver/bin-linux/bedrock-server-1.21.84.1.zip"
    );
}

#[test]
fn gate_refuses_without_eula() {
    let r = download_gate(false, false, false, "1.2.3");
    assert_eq!(r, Err(ServerDownloadError::EulaAndPrivacyPolicyNotAccepted));
    let r = download_gate(false, true, true, "1.2.3");
    assert_eq!(r, Err(ServerDownloadError::EulaAndPrivacyPolicyNotAccepted));
}

#[test]
fn gate_refuses_reinstall_unless_forced() {
    let r = download_gate(true, true, false, "1.2.3");
    assert_eq!(r, Err(ServerDownloadError::ServerAlreadyInstalled("1.2.3".to_string())));
    assert_eq!(download_gate(true, true, true, "1.2.3"), Ok(()));
    assert_eq!(download_gate(true, false, false, "1.2.3"), Ok(()));
}

#[test]
fn version_is_extracted_from_the_download_page() {
    let html = "<html><a href=\"https://www.minecraft.net/bedrockdedicatedserver/bin-linux/bedrock-server-1.21.84.1.zip\">Download</a></html>";
    assert_eq!(extract_server_version(html), Some("1.21.84.1".to_string()));
}

#[test]
fn first_complete_url_wins() {
    let html = "https://www.minecraft.net/bedrockdedicatedserver/bin-linux/bedrock-server-1.2.3.zip https://www.minecraft.net/bedrockdedicatedserver/bin-linux/bedrock-server-9.9.9.zip";
    assert_eq!(extract_server_version(html), Some("1.2.3".to_string()));
}

#[test]
fn incomplete_url_is_skipped() {
    let html = "https://www.minecraft.net/bedrockdedicatedserver/bin-linux/bedrock-server-nodigits.zip https://www.minecraft.net/bedrockdedicatedserver/bin-linux/bedrock-server-1.21.0.zip";
    assert_eq!(extract_server_version(html), Some("1.21.0".to_string()));
}

#[test]
fn page_without_a_download_url_yields_nothing() {
    assert_eq!(extract_server_version("<html>nothing to see</html>"), None);
    assert_eq!(extract_server_version(""), None);
}

#[test]
fn download_error_messages_are_exact() {
    assert_eq!(
        ServerDownloadError::EulaAndPrivacyPolicyNotAccepted.message(),
        "EULA and Privacy Policy not accepted"
    );
    assert_eq!(
        ServerDownloadError::DownloadFailed("boom".to_string()).message(),
        "Failed to download server: boom"
    );
    assert_eq!(
        ServerDownloadError::ZipReadFailed("bad zip".to_string()).message(),
        "Failed to read server zip: bad zip"
    );
    assert_eq!(
        ServerDownloadError::TempFileCreationFailed("no tmp".to_string()).message(),
        "Failed to create temporary file: no tmp"
    );
    assert_eq!(
        ServerDownloadError::ExtractionFailed("short read".to_string()).message(),
        "Failed to extract server files: short read"
    );
    assert_eq!(
        ServerDownloadError::InvalidPath("not a dir".to_string()).message(),
        "Invalid download path: not a dir"
    );
    assert_eq!(
        ServerDownloadError::ServerAlreadyInstalled("1.2.3".to_string()).message(),
        "Server version 1.2.3 already installed"
    );
}

#[test]
fn validation_error_messages_are_exact() {
    assert_eq!(
        ValidationError::PackCopyFailed("io".to_string()).message(),
        "Failed to copy pack: io"
    );
    assert_eq!(
        ValidationError::InvalidPackPath("missing".to_string()).message(),
        "Invalid pack path: missing"
    );
    assert_eq!(
        ValidationError::InvalidServerPath("missing".to_string()).message(),
        "Invalid server path: missing"
    );
    assert_eq!(
        ValidationError::ServerStartFailed("spawn".to_string()).message(),
        "Failed to start server: spawn"
    );
    assert_eq!(
        ValidationError::ValidationFailed("2 errors".to_string()).message(),
        "Validation failed: 2 errors"
    );
}

#[test]
fn requested_version_is_kept() {
    let installed = vec!["1.0.0".to_string(), "1.1.0".to_string()];
    assert_eq!(
        select_version(Some("0.9.9".to_string()), &installed),
        Some("0.9.9".to_string())
    );
}

#[test]
fn latest_installed_version_is_the_default() {
    let installed = vec!["1.0.0".to_string(), "1.1.0".to_string()];
    assert_eq!(select_version(None, &installed), Some("1.1.0".to_string()));
}

#[test]
fn no_installed_version_yields_nothing() {
    let installed: Vec<String> = Vec::new();
    assert_eq!(select_version(None, &installed), None);
}

#[test]
fn version_message_is_exact() {
    assert_eq!(format_version_message(), " v0.1.0");
}

#[test]
fn ubuntu_detection() {
    assert!(is_ubuntu_os_release("NAME=\"Ubuntu\"\nVERSION=\"22.04\""));
    assert!(!is_ubuntu_os_release("NAME=\"Fedora Linux\""));
}
